//! The emission schedule: the commands sent to the caster, either replayed
//! from a script or produced at a fixed period, and how each becomes a line.

use vstd::prelude::*;

use crate::codec::{ascii, ascii_string, ascii_text, checksum, hex2, push_hex2, xor_fold};
use crate::duplex::{Offer, SendError};
use crate::sentence::{sentence_body, Cra, Gga, Sentence, UtcTime};

verus! {

/// The payload of a command.
#[derive(Clone, Copy, Debug, PartialEq, Eq, Structural)]
pub enum Message {
    /// A position report; latitude and longitude in `1e-8` degrees, height
    /// in centimetres. The fix quality and other fields are fixed.
    Gga { lat: i64, lon: i64, height: i64 },
    Cra {
        request_counter: Option<u8>,
        area_id: Option<u32>,
        corrections_mask: Option<u16>,
        solution_id: Option<u8>,
    },
}

/// The sentence a message stands for at `time`: a report with fix quality 4,
/// 12 satellites, HDOP 1.3, geoid separation 0.0, corrections 1.7 s old from
/// station 78; or a correction request, which carries no time.
pub open spec fn message_sentence(m: Message, time: UtcTime) -> Sentence {
    match m {
        Message::Gga { lat, lon, height } => Sentence::GGA(
            Gga {
                time: Some(time),
                lat: Some(lat),
                lon: Some(lon),
                fix_type: Some(4),
                num_satellites: Some(12),
                hdop: Some(13),
                height: Some(height),
                geoid_height: Some(0),
                age_of_corrections: Some(17),
                station_id: Some(78),
            },
        ),
        Message::Cra { request_counter, area_id, corrections_mask, solution_id } => Sentence::CRA(
            Cra { request_counter, area_id, corrections_mask, solution_id },
        ),
    }
}

/// The message of the next period: a request counter, when present,
/// advances by one modulo 256; nothing else changes.
pub open spec fn advanced(m: Message) -> Message {
    match m {
        Message::Cra { request_counter: Some(c), area_id, corrections_mask, solution_id } =>
            Message::Cra {
            request_counter: Some(((c + 1) % 256) as u8),
            area_id,
            corrections_mask,
            solution_id,
        },
        _ => m,
    }
}

impl Message {
    pub fn to_sentence(&self, time: UtcTime) -> (r: Sentence)
        ensures
            r == message_sentence(*self, time),
    {
        match *self {
            Message::Gga { lat, lon, height } => Sentence::GGA(
                Gga::new().with_time(Some(time)).with_lat(Some(lat)).with_lon(Some(lon)).with_fix_type(
                    Some(4),
                ).with_num_satellites(Some(12)).with_hdop(Some(13)).with_height(
                    Some(height),
                ).with_geoid_height(Some(0)).with_age_of_corrections(Some(17)).with_station_id(
                    Some(78),
                ),
            ),
            Message::Cra { request_counter, area_id, corrections_mask, solution_id } => Sentence::CRA(
                Cra::new().with_request_counter(request_counter).with_area_id(
                    area_id,
                ).with_corrections_mask(corrections_mask).with_solution_id(solution_id),
            ),
        }
    }

    /// `$` and the body of the message's sentence at `time`.
    pub fn format(&self, time: UtcTime) -> (r: Vec<u8>)
        ensures
            r@ == seq![36u8] + sentence_body(message_sentence(*self, time)),
            ascii(r@),
    {
        let mut buf: Vec<u8> = Vec::new();
        buf.push(36u8);
        match self.to_sentence(time) {
            Sentence::GGA(g) => g.write_string(&mut buf),
            Sentence::CRA(c) => c.write_string(&mut buf),
        }
        buf
    }

    /// The message for the next period: a request counter, when present,
    /// advances by one and wraps from 255 to 0; nothing else changes.
    pub fn next_request(self) -> (r: Message)
        ensures
            r == advanced(self),
            self matches Message::Cra { request_counter: Some(c), .. } && c == 255
                ==> r->request_counter == Some(0u8),
    {
        match self {
            Message::Cra { request_counter: Some(c), area_id, corrections_mask, solution_id } =>
                Message::Cra {
                request_counter: Some(c.wrapping_add(1)),
                area_id,
                corrections_mask,
                solution_id,
            },
            _ => self,
        }
    }
}

/// The delay before a scripted command when the script gives none, in
/// seconds.
pub fn default_after() -> (r: u64)
    ensures
        r == 10,
{
    10
}

/// One line to send: after `after` seconds from the previous one, the
/// message at the time `epoch` (when fixed) or now, followed by the checksum
/// `crc` when given or else the computed one.
#[derive(Clone, Copy, Debug, PartialEq, Eq, Structural)]
pub struct Command {
    pub after: u64,
    pub epoch: Option<u32>,
    pub crc: Option<u8>,
    pub message: Message,
}

/// The Unix time a command is stamped with.
pub open spec fn stamp(c: Command, now: u64) -> nat {
    match c.epoch {
        Some(e) => e as nat,
        None => now as nat,
    }
}

/// `$<body>*<HH>` for a command sent at `now`, then `\r\n` when `line_end`.
pub open spec fn command_line(c: Command, now: u64, line_end: bool) -> Seq<u8> {
    let b = sentence_body(message_sentence(c.message, UtcTime::of_unix_seconds(stamp(c, now))));
    let sum = match c.crc {
        Some(k) => k,
        None => xor_fold(b),
    };
    seq![36u8] + b + seq![42u8] + hex2(sum) + if line_end {
        seq![13u8, 10u8]
    } else {
        seq![]
    }
}

impl Command {
    fn line(self, now: u64, line_end: bool) -> (r: Vec<u8>)
        ensures
            r@ == command_line(self, now, line_end),
            ascii(r@),
    {
        let secs: u64 = match self.epoch {
            Some(e) => e as u64,
            None => now,
        };
        let mut buf = self.message.format(UtcTime::from_unix_seconds(secs));
        let ghost b = sentence_body(message_sentence(self.message, UtcTime::of_unix_seconds(secs as nat)));
        assert(buf@.drop_first() =~= b);
        let sum = match self.crc {
            Some(k) => k,
            None => checksum(buf.as_slice()),
        };
        buf.push(42u8);
        push_hex2(&mut buf, sum);
        if line_end {
            buf.push(13u8);
            buf.push(10u8);
        }
        assert(buf@ =~= command_line(self, now, line_end));
        buf
    }

    /// The command as text, without a line terminator.
    pub fn to_string(self, now: u64) -> (r: String)
        ensures
            r@ == ascii_text(command_line(self, now, false)),
    {
        ascii_string(self.line(now, false))
    }

    /// The command as it goes on the wire, `\r\n`-terminated.
    pub fn to_bytes(self, now: u64) -> (r: Vec<u8>)
        ensures
            r@ == command_line(self, now, true),
    {
        self.line(now, true)
    }

    /// The command for the next period: sent `period` seconds after this one,
    /// with its request counter advanced.
    pub fn next_period(self, period: u64) -> (r: Command)
        ensures
            r == (Command { after: period, message: advanced(self.message), ..self }),
    {
        Command { after: period, message: self.message.next_request(), ..self }
    }
}


/// The settings that shape the generated commands.
#[derive(Clone, Copy, Debug, PartialEq, Eq, Structural)]
pub struct Options {
    /// Latitude in `1e-8` degrees.
    pub lat: i64,
    /// Longitude in `1e-8` degrees.
    pub lon: i64,
    /// Height in centimetres.
    pub height: i64,
    /// A fixed Unix time to stamp every report with.
    pub epoch: Option<u32>,
    /// Seconds between generated commands; zero sends none.
    pub nmea_period: u64,
    pub request_counter: Option<u8>,
    /// When set, correction requests are sent instead of position reports.
    pub area_id: Option<u32>,
    pub corrections_mask: Option<u16>,
    pub solution_id: Option<u8>,
}

pub open spec fn spec_build_cra(opt: Options) -> Command {
    Command {
        after: 0,
        epoch: opt.epoch,
        crc: None,
        message: Message::Cra {
            request_counter: opt.request_counter,
            area_id: opt.area_id,
            corrections_mask: opt.corrections_mask,
            solution_id: opt.solution_id,
        },
    }
}

pub open spec fn spec_build_gga(opt: Options) -> Command {
    Command {
        after: 0,
        epoch: opt.epoch,
        crc: None,
        message: Message::Gga { lat: opt.lat, lon: opt.lon, height: opt.height },
    }
}

/// The first correction request, sent at once.
pub fn build_cra(opt: &Options) -> (r: Command)
    ensures
        r == spec_build_cra(*opt),
{
    Command {
        after: 0,
        epoch: opt.epoch,
        crc: None,
        message: Message::Cra {
            request_counter: opt.request_counter,
            area_id: opt.area_id,
            corrections_mask: opt.corrections_mask,
            solution_id: opt.solution_id,
        },
    }
}

/// The first position report, sent at once.
pub fn build_gga(opt: &Options) -> (r: Command)
    ensures
        r == spec_build_gga(*opt),
{
    Command {
        after: 0,
        epoch: opt.epoch,
        crc: None,
        message: Message::Gga { lat: opt.lat, lon: opt.lon, height: opt.height },
    }
}

/// Where commands come from.
pub enum CommandSource {
    /// A script replayed in order, `position` being the next to send.
    Script { commands: Vec<Command>, position: usize },
    /// One command every `period` seconds, `next` being the next to send.
    Repeat { next: Command, period: u64 },
    /// No commands at all.
    Silent,
}

/// A script when given; otherwise nothing when the period is zero; otherwise
/// correction requests when an area is set, else position reports, the
/// first at once and then one per period.
pub fn get_commands(opt: &Options, script: Option<Vec<Command>>) -> (r: CommandSource)
    ensures
        match script {
            Some(cmds) => r == (CommandSource::Script { commands: cmds, position: 0 }),
            None => if opt.nmea_period == 0 {
                r == CommandSource::Silent
            } else if opt.area_id is Some {
                r == (CommandSource::Repeat { next: spec_build_cra(*opt), period: opt.nmea_period })
            } else {
                r == (CommandSource::Repeat { next: spec_build_gga(*opt), period: opt.nmea_period })
            },
        },
{
    match script {
        Some(commands) => CommandSource::Script { commands, position: 0 },
        None => {
            if opt.nmea_period == 0 {
                CommandSource::Silent
            } else if opt.area_id.is_some() {
                CommandSource::Repeat { next: build_cra(opt), period: opt.nmea_period }
            } else {
                CommandSource::Repeat { next: build_gga(opt), period: opt.nmea_period }
            }
        },
    }
}

/// One draw from a source: the command handed out and the source after it.
pub open spec fn step(src: CommandSource) -> (Option<Command>, CommandSource) {
    match src {
        CommandSource::Script { commands, position } => if position < commands@.len() {
            (
                Some(commands@[position as int]),
                CommandSource::Script { commands, position: (position + 1) as usize },
            )
        } else {
            (None, src)
        },
        CommandSource::Repeat { next, period } => (
            Some(next),
            CommandSource::Repeat {
                next: Command { after: period, message: advanced(next.message), ..next },
                period,
            },
        ),
        CommandSource::Silent => (None, src),
    }
}

impl CommandSource {
    /// The next command, or none when the source is exhausted. A repeating
    /// source never is: each command follows the last by its period, with
    /// the request counter advanced.
    pub fn next(&mut self) -> (r: Option<Command>)
        ensures
            (r, *final(self)) == step(*old(self)),
    {
        match self {
            CommandSource::Script { commands, position } => {
                if *position < commands.len() {
                    let c = commands[*position];
                    *position = *position + 1;
                    Some(c)
                } else {
                    None
                }
            },
            CommandSource::Repeat { next, period } => {
                let c = *next;
                *next = c.next_period(*period);
                Some(c)
            },
            CommandSource::Silent => None,
        }
    }
}

/// The scheduler after an offer: unchanged unless the send half is closed,
/// which stops it.
pub open spec fn recorded(s: Scheduler, outcome: Result<Offer, SendError>) -> Scheduler {
    match outcome {
        Ok(_) => s,
        Err(_) => Scheduler { stopped: true, ..s },
    }
}

/// Drives emission: hands out due commands until the source runs dry or the
/// send half closes.
pub struct Scheduler {
    pub source: CommandSource,
    pub stopped: bool,
}

impl Scheduler {
    pub fn new(source: CommandSource) -> (r: Scheduler)
        ensures
            r.source == source,
            !r.stopped,
    {
        Scheduler { source, stopped: false }
    }

    /// The next command to emit; none once emission has stopped.
    pub fn next_command(&mut self) -> (r: Option<Command>)
        ensures
            old(self).stopped ==> r is None && *final(self) == *old(self),
            !old(self).stopped ==> (r, final(self).source) == step(old(self).source),
            final(self).stopped == old(self).stopped,
    {
        if self.stopped {
            None
        } else {
            self.source.next()
        }
    }

    /// Takes note of what became of an offered line. A busy slot drops the
    /// line for this tick and emission goes on with the next command; a
    /// closed send half stops emission for good.
    pub fn record(&mut self, outcome: &Result<Offer, SendError>)
        ensures
            *final(self) == recorded(*old(self), *outcome),
    {
        if outcome.is_err() {
            self.stopped = true;
        }
    }
}


/// A line offered while the slot is still busy is dropped, not queued: the
/// scheduler goes on exactly as after an accepted line, so the next command
/// it hands out is the one after the dropped line, and the dropped line is
/// never offered again. Only a closed send half stops emission.
pub proof fn lemma_busy_line_is_dropped(s: Scheduler)
    ensures
        recorded(s, Ok(Offer::Busy)) == recorded(s, Ok(Offer::Accepted)),
        recorded(s, Ok(Offer::Busy)) == s,
        recorded(s, Err(SendError)).stopped,
        recorded(s, Err(SendError)).source == s.source,
{
}

} // verus!
