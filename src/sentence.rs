//! The two sentence formats: the GGA position report and the CRA correction
//! request, and their rendering as `$<body>*<HH>` lines.

use vstd::prelude::*;

use crate::codec::{
    ascii, ascii_string, ascii_text, checksum, comma_free, coordinate, decimal, fixed, hex2,
    lemma_decimal_digits, lemma_numbers_comma_free, lemma_padded_digits, padded, push_coordinate,
    push_fixed, push_hex2, push_padded, xor_fold,
};

verus! {

/// A time of day in UTC, to the second.
#[derive(Clone, Copy, Debug, PartialEq, Eq, Structural)]
pub struct UtcTime {
    pub hour: u8,
    pub minute: u8,
    pub second: u8,
}

impl UtcTime {
    pub open spec fn wf(self) -> bool {
        self.hour < 24 && self.minute < 60 && self.second < 60
    }

    /// Seconds since midnight.
    pub open spec fn seconds_of_day(self) -> nat {
        self.hour as nat * 3600 + self.minute as nat * 60 + self.second as nat
    }

    /// The time of day `hour:minute:second`, if each part is in range.
    pub fn new(hour: u8, minute: u8, second: u8) -> (r: Option<UtcTime>)
        ensures
            r is Some <==> (hour < 24 && minute < 60 && second < 60),
            r matches Some(t) ==> t == (UtcTime { hour, minute, second }),
    {
        if hour < 24 && minute < 60 && second < 60 {
            Some(UtcTime { hour, minute, second })
        } else {
            None
        }
    }

    /// The time of day of a Unix timestamp (UTC has no offset and Unix time
    /// counts every day as 86400 seconds).
    pub open spec fn of_unix_seconds(secs: nat) -> UtcTime {
        let day = secs % 86400;
        UtcTime { hour: (day / 3600) as u8, minute: ((day % 3600) / 60) as u8, second: (day % 60) as u8 }
    }

    /// The time of day of a Unix timestamp.
    pub fn from_unix_seconds(secs: u64) -> (r: UtcTime)
        ensures
            r == UtcTime::of_unix_seconds(secs as nat),
            r.wf(),
            r.seconds_of_day() == secs % 86400,
    {
        let day: u64 = secs % 86400;
        let hour: u8 = (day / 3600) as u8;
        let minute: u8 = ((day % 3600) / 60) as u8;
        let second: u8 = (day % 60) as u8;
        assert(day == (day / 3600) * 3600 + ((day % 3600) / 60) * 60 + day % 60) by (nonlinear_arith)
            requires day < 86400;
        UtcTime { hour, minute, second }
    }
}

/// `HHMMSS.00`
pub open spec fn time_text(t: UtcTime) -> Seq<u8> {
    padded(t.hour as nat, 2) + padded(t.minute as nat, 2) + padded(t.second as nat, 2) + seq![
        46u8,
        48u8,
        48u8,
    ]
}

pub open spec fn comma() -> Seq<u8> {
    seq![44u8]
}

pub open spec fn gga_tag() -> Seq<u8> {
    seq![71u8, 80u8, 71u8, 71u8, 65u8]
}

pub open spec fn cra_tag() -> Seq<u8> {
    seq![80u8, 83u8, 87u8, 84u8, 67u8, 82u8, 65u8]
}

/// The unit letter `M` that follows heights.
pub open spec fn meters() -> Seq<u8> {
    seq![77u8]
}

pub open spec fn time_slot(t: Option<UtcTime>) -> Seq<u8> {
    match t {
        Some(t) => time_text(t),
        None => seq![],
    }
}

pub open spec fn coordinate_slot(v: Option<i64>, deg_width: nat) -> Seq<u8> {
    match v {
        Some(v) => coordinate(v as int, deg_width),
        None => seq![],
    }
}

/// The hemisphere letter: `pos` unless the value is negative.
pub open spec fn hemisphere_slot(v: Option<i64>, pos: u8, neg: u8) -> Seq<u8> {
    match v {
        Some(v) => seq![if v < 0 { neg } else { pos }],
        None => seq![],
    }
}

pub open spec fn fixed_slot(v: Option<i64>, places: nat) -> Seq<u8> {
    match v {
        Some(v) => fixed(v as int, places),
        None => seq![],
    }
}

pub open spec fn u8_slot(v: Option<u8>) -> Seq<u8> {
    match v {
        Some(v) => decimal(v as nat),
        None => seq![],
    }
}

pub open spec fn u16_slot(v: Option<u16>, width: nat) -> Seq<u8> {
    match v {
        Some(v) => padded(v as nat, width),
        None => seq![],
    }
}

pub open spec fn u32_slot(v: Option<u32>) -> Seq<u8> {
    match v {
        Some(v) => decimal(v as nat),
        None => seq![],
    }
}

/// Appends `$` for a sentence start, `,` between fields and other single
/// ASCII bytes.
fn push_byte(buf: &mut Vec<u8>, b: u8)
    requires
        b < 128,
    ensures
        final(buf)@ == old(buf)@ + seq![b],
        ascii(old(buf)@) ==> ascii(final(buf)@),
{
    buf.push(b);
    assert(final(buf)@ =~= old(buf)@ + seq![b]);
}

fn push_time_slot(buf: &mut Vec<u8>, t: Option<UtcTime>)
    ensures
        final(buf)@ == old(buf)@ + time_slot(t),
        ascii(old(buf)@) ==> ascii(final(buf)@),
{
    if let Some(t) = t {
        push_padded(buf, t.hour as u64, 2);
        push_padded(buf, t.minute as u64, 2);
        push_padded(buf, t.second as u64, 2);
        push_byte(buf, 46u8);
        push_byte(buf, 48u8);
        push_byte(buf, 48u8);
        assert(final(buf)@ =~= old(buf)@ + time_slot(Some(t)));
    } else {
        assert(final(buf)@ =~= old(buf)@ + time_slot(t));
    }
}

fn push_coordinate_slot(buf: &mut Vec<u8>, v: Option<i64>, deg_width: usize)
    ensures
        final(buf)@ == old(buf)@ + coordinate_slot(v, deg_width as nat),
        ascii(old(buf)@) ==> ascii(final(buf)@),
{
    if let Some(v) = v {
        push_coordinate(buf, v, deg_width);
    } else {
        assert(final(buf)@ =~= old(buf)@ + coordinate_slot(v, deg_width as nat));
    }
}

fn push_hemisphere_slot(buf: &mut Vec<u8>, v: Option<i64>, pos: u8, neg: u8)
    requires
        pos < 128,
        neg < 128,
    ensures
        final(buf)@ == old(buf)@ + hemisphere_slot(v, pos, neg),
        ascii(old(buf)@) ==> ascii(final(buf)@),
{
    if let Some(v) = v {
        push_byte(buf, if v < 0 { neg } else { pos });
    } else {
        assert(final(buf)@ =~= old(buf)@ + hemisphere_slot(v, pos, neg));
    }
}

fn push_fixed_slot(buf: &mut Vec<u8>, v: Option<i64>, places: u32)
    requires
        1 <= places <= 9,
    ensures
        final(buf)@ == old(buf)@ + fixed_slot(v, places as nat),
        ascii(old(buf)@) ==> ascii(final(buf)@),
{
    if let Some(v) = v {
        push_fixed(buf, v, places);
    } else {
        assert(final(buf)@ =~= old(buf)@ + fixed_slot(v, places as nat));
    }
}

fn push_u8_slot(buf: &mut Vec<u8>, v: Option<u8>)
    ensures
        final(buf)@ == old(buf)@ + u8_slot(v),
        ascii(old(buf)@) ==> ascii(final(buf)@),
{
    if let Some(v) = v {
        push_padded(buf, v as u64, 0);
        assert(padded(v as nat, 0) == decimal(v as nat));
    } else {
        assert(final(buf)@ =~= old(buf)@ + u8_slot(v));
    }
}

fn push_u16_slot(buf: &mut Vec<u8>, v: Option<u16>, width: usize)
    ensures
        final(buf)@ == old(buf)@ + u16_slot(v, width as nat),
        ascii(old(buf)@) ==> ascii(final(buf)@),
{
    if let Some(v) = v {
        push_padded(buf, v as u64, width);
    } else {
        assert(final(buf)@ =~= old(buf)@ + u16_slot(v, width as nat));
    }
}

fn push_u32_slot(buf: &mut Vec<u8>, v: Option<u32>)
    ensures
        final(buf)@ == old(buf)@ + u32_slot(v),
        ascii(old(buf)@) ==> ascii(final(buf)@),
{
    if let Some(v) = v {
        push_padded(buf, v as u64, 0);
        assert(padded(v as nat, 0) == decimal(v as nat));
    } else {
        assert(final(buf)@ =~= old(buf)@ + u32_slot(v));
    }
}

/// A GGA position report. Every field is optional; an absent field leaves
/// its slot empty.
#[derive(Clone, Copy, Debug, PartialEq, Eq, Structural)]
pub struct Gga {
    pub time: Option<UtcTime>,
    /// Latitude in units of `1e-8` degrees, north positive.
    pub lat: Option<i64>,
    /// Longitude in units of `1e-8` degrees, east positive.
    pub lon: Option<i64>,
    pub fix_type: Option<u8>,
    pub num_satellites: Option<u8>,
    /// Horizontal dilution of precision, in tenths.
    pub hdop: Option<i64>,
    /// Height in centimetres.
    pub height: Option<i64>,
    /// Geoid separation in decimetres.
    pub geoid_height: Option<i64>,
    /// Age of corrections in tenths of a second.
    pub age_of_corrections: Option<i64>,
    pub station_id: Option<u16>,
}

impl Gga {
    /// A report with every field absent.
    pub fn new() -> (r: Gga)
        ensures
            r == Gga::empty(),
    {
        Gga {
            time: None,
            lat: None,
            lon: None,
            fix_type: None,
            num_satellites: None,
            hdop: None,
            height: None,
            geoid_height: None,
            age_of_corrections: None,
            station_id: None,
        }
    }

    pub open spec fn empty() -> Gga {
        Gga {
            time: None,
            lat: None,
            lon: None,
            fix_type: None,
            num_satellites: None,
            hdop: None,
            height: None,
            geoid_height: None,
            age_of_corrections: None,
            station_id: None,
        }
    }

    pub fn with_time(self, time: Option<UtcTime>) -> (r: Gga)
        ensures
            r == (Gga { time, ..self }),
    {
        Gga { time, ..self }
    }

    /// Latitude in units of `1e-8` degrees.
    pub fn with_lat(self, lat: Option<i64>) -> (r: Gga)
        ensures
            r == (Gga { lat, ..self }),
    {
        Gga { lat, ..self }
    }

    /// Longitude in units of `1e-8` degrees.
    pub fn with_lon(self, lon: Option<i64>) -> (r: Gga)
        ensures
            r == (Gga { lon, ..self }),
    {
        Gga { lon, ..self }
    }

    pub fn with_fix_type(self, fix_type: Option<u8>) -> (r: Gga)
        ensures
            r == (Gga { fix_type, ..self }),
    {
        Gga { fix_type, ..self }
    }

    pub fn with_num_satellites(self, num_satellites: Option<u8>) -> (r: Gga)
        ensures
            r == (Gga { num_satellites, ..self }),
    {
        Gga { num_satellites, ..self }
    }

    /// Horizontal dilution of precision, in tenths.
    pub fn with_hdop(self, hdop: Option<i64>) -> (r: Gga)
        ensures
            r == (Gga { hdop, ..self }),
    {
        Gga { hdop, ..self }
    }

    /// Height in centimetres.
    pub fn with_height(self, height: Option<i64>) -> (r: Gga)
        ensures
            r == (Gga { height, ..self }),
    {
        Gga { height, ..self }
    }

    /// Geoid separation in decimetres.
    pub fn with_geoid_height(self, geoid_height: Option<i64>) -> (r: Gga)
        ensures
            r == (Gga { geoid_height, ..self }),
    {
        Gga { geoid_height, ..self }
    }

    /// Age of corrections in tenths of a second.
    pub fn with_age_of_corrections(self, age_of_corrections: Option<i64>) -> (r: Gga)
        ensures
            r == (Gga { age_of_corrections, ..self }),
    {
        Gga { age_of_corrections, ..self }
    }

    pub fn with_station_id(self, station_id: Option<u16>) -> (r: Gga)
        ensures
            r == (Gga { station_id, ..self }),
    {
        Gga { station_id, ..self }
    }

    /// Appends the body of the report: its tag and fourteen slots.
    pub fn write_string(&self, buf: &mut Vec<u8>)
        ensures
            final(buf)@ == old(buf)@ + gga_body(*self),
            ascii(old(buf)@) ==> ascii(final(buf)@),
    {
        let mut b: Vec<u8> = Vec::new();
        push_byte(&mut b, 71u8);
        push_byte(&mut b, 80u8);
        push_byte(&mut b, 71u8);
        push_byte(&mut b, 71u8);
        push_byte(&mut b, 65u8);
        assert(b@ =~= gga_tag());
        push_byte(&mut b, 44u8);
        push_time_slot(&mut b, self.time);
        push_byte(&mut b, 44u8);
        push_coordinate_slot(&mut b, self.lat, 2);
        push_byte(&mut b, 44u8);
        push_hemisphere_slot(&mut b, self.lat, 78u8, 83u8);
        push_byte(&mut b, 44u8);
        push_coordinate_slot(&mut b, self.lon, 3);
        push_byte(&mut b, 44u8);
        push_hemisphere_slot(&mut b, self.lon, 69u8, 87u8);
        push_byte(&mut b, 44u8);
        push_u8_slot(&mut b, self.fix_type);
        push_byte(&mut b, 44u8);
        push_u8_slot(&mut b, self.num_satellites);
        push_byte(&mut b, 44u8);
        push_fixed_slot(&mut b, self.hdop, 1);
        push_byte(&mut b, 44u8);
        push_fixed_slot(&mut b, self.height, 2);
        push_byte(&mut b, 44u8);
        push_byte(&mut b, 77u8);
        push_byte(&mut b, 44u8);
        push_fixed_slot(&mut b, self.geoid_height, 1);
        push_byte(&mut b, 44u8);
        push_byte(&mut b, 77u8);
        push_byte(&mut b, 44u8);
        push_fixed_slot(&mut b, self.age_of_corrections, 1);
        push_byte(&mut b, 44u8);
        push_u16_slot(&mut b, self.station_id, 4);
        assert(b@ == gga_body(*self));
        buf.append(&mut b);
    }
}

/// The fourteen comma-separated slots of a GGA body, after its tag.
pub open spec fn gga_slots(g: Gga) -> Seq<Seq<u8>> {
    seq![
        time_slot(g.time),
        coordinate_slot(g.lat, 2),
        hemisphere_slot(g.lat, 78u8, 83u8),
        coordinate_slot(g.lon, 3),
        hemisphere_slot(g.lon, 69u8, 87u8),
        u8_slot(g.fix_type),
        u8_slot(g.num_satellites),
        fixed_slot(g.hdop, 1),
        fixed_slot(g.height, 2),
        meters(),
        fixed_slot(g.geoid_height, 1),
        meters(),
        fixed_slot(g.age_of_corrections, 1),
        u16_slot(g.station_id, 4),
    ]
}

/// The GGA body: the tag, then each slot preceded by a comma.
pub open spec fn gga_body(g: Gga) -> Seq<u8> {
    gga_tag() + comma() + time_slot(g.time) + comma() + coordinate_slot(g.lat, 2) + comma()
        + hemisphere_slot(g.lat, 78u8, 83u8) + comma() + coordinate_slot(g.lon, 3) + comma()
        + hemisphere_slot(g.lon, 69u8, 87u8) + comma() + u8_slot(g.fix_type) + comma() + u8_slot(
        g.num_satellites,
    ) + comma() + fixed_slot(g.hdop, 1) + comma() + fixed_slot(g.height, 2) + comma() + meters()
        + comma() + fixed_slot(g.geoid_height, 1) + comma() + meters() + comma() + fixed_slot(
        g.age_of_corrections,
        1,
    ) + comma() + u16_slot(g.station_id, 4)
}

/// A CRA correction request. Every field is optional.
#[derive(Clone, Copy, Debug, PartialEq, Eq, Structural)]
pub struct Cra {
    pub request_counter: Option<u8>,
    pub area_id: Option<u32>,
    pub corrections_mask: Option<u16>,
    pub solution_id: Option<u8>,
}

impl Cra {
    /// A request with every field absent.
    pub fn new() -> (r: Cra)
        ensures
            r == (Cra { request_counter: None, area_id: None, corrections_mask: None, solution_id: None }),
    {
        Cra { request_counter: None, area_id: None, corrections_mask: None, solution_id: None }
    }

    pub fn with_request_counter(self, request_counter: Option<u8>) -> (r: Cra)
        ensures
            r == (Cra { request_counter, ..self }),
    {
        Cra { request_counter, ..self }
    }

    pub fn with_area_id(self, area_id: Option<u32>) -> (r: Cra)
        ensures
            r == (Cra { area_id, ..self }),
    {
        Cra { area_id, ..self }
    }

    pub fn with_corrections_mask(self, corrections_mask: Option<u16>) -> (r: Cra)
        ensures
            r == (Cra { corrections_mask, ..self }),
    {
        Cra { corrections_mask, ..self }
    }

    pub fn with_solution_id(self, solution_id: Option<u8>) -> (r: Cra)
        ensures
            r == (Cra { solution_id, ..self }),
    {
        Cra { solution_id, ..self }
    }

    /// Appends the body of the request: its tag and four slots.
    pub fn write_string(&self, buf: &mut Vec<u8>)
        ensures
            final(buf)@ == old(buf)@ + cra_body(*self),
            ascii(old(buf)@) ==> ascii(final(buf)@),
    {
        let mut b: Vec<u8> = Vec::new();
        push_byte(&mut b, 80u8);
        push_byte(&mut b, 83u8);
        push_byte(&mut b, 87u8);
        push_byte(&mut b, 84u8);
        push_byte(&mut b, 67u8);
        push_byte(&mut b, 82u8);
        push_byte(&mut b, 65u8);
        assert(b@ =~= cra_tag());
        push_byte(&mut b, 44u8);
        push_u8_slot(&mut b, self.request_counter);
        push_byte(&mut b, 44u8);
        push_u32_slot(&mut b, self.area_id);
        push_byte(&mut b, 44u8);
        push_u16_slot(&mut b, self.corrections_mask, 0);
        push_byte(&mut b, 44u8);
        push_u8_slot(&mut b, self.solution_id);
        assert(b@ == cra_body(*self));
        buf.append(&mut b);
    }
}

/// The four comma-separated slots of a CRA body, after its tag.
pub open spec fn cra_slots(c: Cra) -> Seq<Seq<u8>> {
    seq![
        u8_slot(c.request_counter),
        u32_slot(c.area_id),
        u16_slot(c.corrections_mask, 0),
        u8_slot(c.solution_id),
    ]
}

/// The CRA body: the tag, then each slot preceded by a comma.
pub open spec fn cra_body(c: Cra) -> Seq<u8> {
    cra_tag() + comma() + u8_slot(c.request_counter) + comma() + u32_slot(c.area_id) + comma()
        + u16_slot(c.corrections_mask, 0) + comma() + u8_slot(c.solution_id)
}

} // verus!

verus! {

/// A sentence of either format.
#[derive(Clone, Copy, Debug, PartialEq, Eq, Structural)]
pub enum Sentence {
    GGA(Gga),
    CRA(Cra),
}

/// The body of a sentence: everything between `$` and `*`.
pub open spec fn sentence_body(s: Sentence) -> Seq<u8> {
    match s {
        Sentence::GGA(g) => gga_body(g),
        Sentence::CRA(c) => cra_body(c),
    }
}

/// `$<body>*<HH>`, where `HH` is the checksum of the body, then `\r\n` when
/// the line is bound for the wire.
pub open spec fn rendered(s: Sentence, line_end: bool) -> Seq<u8> {
    seq![36u8] + sentence_body(s) + seq![42u8] + hex2(xor_fold(sentence_body(s))) + if line_end {
        seq![13u8, 10u8]
    } else {
        seq![]
    }
}

impl Sentence {
    /// Sets the time of a GGA report; a CRA request has no time and is
    /// returned unchanged.
    pub fn with_time(self, time: Option<UtcTime>) -> (r: Sentence)
        ensures
            r == match self {
                Sentence::GGA(g) => Sentence::GGA(Gga { time, ..g }),
                Sentence::CRA(c) => Sentence::CRA(c),
            },
    {
        match self {
            Sentence::GGA(g) => Sentence::GGA(g.with_time(time)),
            Sentence::CRA(c) => Sentence::CRA(c),
        }
    }

    /// Sets the request counter of a CRA request; a GGA report is returned
    /// unchanged.
    pub fn with_request_counter(self, request_counter: Option<u8>) -> (r: Sentence)
        ensures
            r == match self {
                Sentence::GGA(g) => Sentence::GGA(g),
                Sentence::CRA(c) => Sentence::CRA(Cra { request_counter, ..c }),
            },
    {
        match self {
            Sentence::GGA(g) => Sentence::GGA(g),
            Sentence::CRA(c) => Sentence::CRA(c.with_request_counter(request_counter)),
        }
    }

    /// The sentence as bytes, `\r\n`-terminated when `line_end` is set.
    pub fn render(self, line_end: bool) -> (r: Vec<u8>)
        ensures
            r@ == rendered(self, line_end),
            ascii(r@),
    {
        let mut buf: Vec<u8> = Vec::new();
        buf.push(36u8);
        match self {
            Sentence::GGA(g) => g.write_string(&mut buf),
            Sentence::CRA(c) => c.write_string(&mut buf),
        }
        assert(buf@.drop_first() =~= sentence_body(self));
        let sum = checksum(buf.as_slice());
        buf.push(42u8);
        push_hex2(&mut buf, sum);
        if line_end {
            buf.push(13u8);
            buf.push(10u8);
        }
        assert(buf@ =~= rendered(self, line_end));
        buf
    }

    /// The sentence as text, `\r\n`-terminated when `carriage_return` is set.
    pub fn to_string(self, carriage_return: bool) -> (r: String)
        ensures
            r@ == ascii_text(rendered(self, carriage_return)),
    {
        ascii_string(self.render(carriage_return))
    }

    /// The sentence as it goes on the wire: `\r\n`-terminated bytes.
    pub fn to_bytes(self) -> (r: Vec<u8>)
        ensures
            r@ == rendered(self, true),
    {
        self.render(true)
    }
}

impl From<Gga> for Sentence {
    fn from(gga: Gga) -> (r: Sentence)
        ensures
            r == Sentence::GGA(gga),
    {
        Sentence::GGA(gga)
    }
}

impl vstd::std_specs::convert::FromSpecImpl<Gga> for Sentence {
    open spec fn obeys_from_spec() -> bool {
        true
    }

    open spec fn from_spec(gga: Gga) -> Sentence {
        Sentence::GGA(gga)
    }
}

impl From<Cra> for Sentence {
    fn from(cra: Cra) -> (r: Sentence)
        ensures
            r == Sentence::CRA(cra),
    {
        Sentence::CRA(cra)
    }
}

impl vstd::std_specs::convert::FromSpecImpl<Cra> for Sentence {
    open spec fn obeys_from_spec() -> bool {
        true
    }

    open spec fn from_spec(cra: Cra) -> Sentence {
        Sentence::CRA(cra)
    }
}

} // verus!

verus! {

/// Slots separated by commas.
pub open spec fn join(slots: Seq<Seq<u8>>) -> Seq<u8>
    decreases slots.len(),
{
    if slots.len() == 0 {
        seq![]
    } else if slots.len() == 1 {
        slots[0]
    } else {
        join(slots.drop_last()) + comma() + slots.last()
    }
}

/// The slot formats hold no comma.
proof fn lemma_slot_comma_free(
    t: Option<UtcTime>,
    v: Option<i64>,
    places: nat,
    deg_width: nat,
    a: Option<u8>,
    b: Option<u16>,
    width: nat,
    c: Option<u32>,
)
    ensures
        comma_free(time_slot(t)),
        comma_free(coordinate_slot(v, deg_width)),
        comma_free(hemisphere_slot(v, 78u8, 83u8)),
        comma_free(hemisphere_slot(v, 69u8, 87u8)),
        comma_free(fixed_slot(v, places)),
        comma_free(u8_slot(a)),
        comma_free(u16_slot(b, width)),
        comma_free(u32_slot(c)),
        comma_free(meters()),
{
    if let Some(t) = t {
        lemma_padded_digits(t.hour as nat, 2);
        lemma_padded_digits(t.minute as nat, 2);
        lemma_padded_digits(t.second as nat, 2);
        assert(comma_free(time_text(t)));
    }
    if let Some(v) = v {
        lemma_numbers_comma_free(v as int, places, deg_width);
    }
    if let Some(a) = a {
        lemma_decimal_digits(a as nat);
    }
    if let Some(b) = b {
        lemma_padded_digits(b as nat, width);
    }
    if let Some(c) = c {
        lemma_decimal_digits(c as nat);
    }
}

/// Every slot of a GGA report is free of commas.
proof fn lemma_gga_slots_comma_free(g: Gga)
    ensures
        forall|i: int| 0 <= i < 14 ==> comma_free(#[trigger] gga_slots(g)[i]),
{
    let sl = gga_slots(g);
    lemma_slot_comma_free(g.time, g.lat, 1, 2, g.fix_type, g.station_id, 4, None);
    lemma_slot_comma_free(g.time, g.lon, 1, 3, g.num_satellites, g.station_id, 4, None);
    lemma_slot_comma_free(g.time, g.hdop, 1, 0, None, None, 0, None);
    lemma_slot_comma_free(g.time, g.height, 2, 0, None, None, 0, None);
    lemma_slot_comma_free(g.time, g.geoid_height, 1, 0, None, None, 0, None);
    lemma_slot_comma_free(g.time, g.age_of_corrections, 1, 0, None, None, 0, None);
    assert forall|i: int| 0 <= i < 14 implies comma_free(#[trigger] sl[i]) by {
        if i == 0 {
            assert(sl[0] == time_slot(g.time));
        } else if i == 1 {
            assert(sl[1] == coordinate_slot(g.lat, 2));
        } else if i == 2 {
            assert(sl[2] == hemisphere_slot(g.lat, 78u8, 83u8));
        } else if i == 3 {
            assert(sl[3] == coordinate_slot(g.lon, 3));
        } else if i == 4 {
            assert(sl[4] == hemisphere_slot(g.lon, 69u8, 87u8));
        } else if i == 5 {
            assert(sl[5] == u8_slot(g.fix_type));
        } else if i == 6 {
            assert(sl[6] == u8_slot(g.num_satellites));
        } else if i == 7 {
            assert(sl[7] == fixed_slot(g.hdop, 1));
        } else if i == 8 {
            assert(sl[8] == fixed_slot(g.height, 2));
        } else if i == 9 {
            assert(sl[9] == meters());
        } else if i == 10 {
            assert(sl[10] == fixed_slot(g.geoid_height, 1));
        } else if i == 11 {
            assert(sl[11] == meters());
        } else if i == 12 {
            assert(sl[12] == fixed_slot(g.age_of_corrections, 1));
        } else {
            assert(sl[13] == u16_slot(g.station_id, 4));
        }
    }
}

/// Every slot of a CRA request is free of commas.
proof fn lemma_cra_slots_comma_free(c: Cra)
    ensures
        forall|i: int| 0 <= i < 4 ==> comma_free(#[trigger] cra_slots(c)[i]),
{
    let sl = cra_slots(c);
    lemma_slot_comma_free(None, None, 1, 0, c.request_counter, c.corrections_mask, 0, c.area_id);
    lemma_slot_comma_free(None, None, 1, 0, c.solution_id, None, 0, None);
    assert forall|i: int| 0 <= i < 4 implies comma_free(#[trigger] sl[i]) by {
        if i == 0 {
            assert(sl[0] == u8_slot(c.request_counter));
        } else if i == 1 {
            assert(sl[1] == u32_slot(c.area_id));
        } else if i == 2 {
            assert(sl[2] == u16_slot(c.corrections_mask, 0));
        } else {
            assert(sl[3] == u8_slot(c.solution_id));
        }
    }
}

/// `tag` followed by each slot, each slot preceded by a comma.
pub open spec fn tagged(tag: Seq<u8>, slots: Seq<Seq<u8>>) -> Seq<u8>
    decreases slots.len(),
{
    if slots.len() == 0 {
        tag
    } else {
        tagged(tag, slots.drop_last()) + comma() + slots.last()
    }
}

proof fn lemma_tagged_push(tag: Seq<u8>, slots: Seq<Seq<u8>>, x: Seq<u8>)
    ensures
        tagged(tag, slots.push(x)) == tagged(tag, slots) + comma() + x,
        slots.len() >= 1 ==> join(slots.push(x)) == join(slots) + comma() + x,
{
    assert(slots.push(x).drop_last() =~= slots);
}

/// A tag followed by comma-led slots is the tag, a comma and the joined slots.
proof fn lemma_tagged_join(tag: Seq<u8>, slots: Seq<Seq<u8>>)
    requires
        slots.len() >= 1,
    ensures
        tagged(tag, slots) == tag + comma() + join(slots),
    decreases slots.len(),
{
    if slots.len() == 1 {
        assert(slots.drop_last() =~= Seq::<Seq<u8>>::empty());
        assert(tagged(tag, slots.drop_last()) == tag);
    } else {
        let p = slots.drop_last();
        lemma_tagged_join(tag, p);
        assert(p.push(slots.last()) =~= slots);
        lemma_tagged_push(tag, p, slots.last());
        assert(tagged(tag, slots) =~= tag + comma() + join(slots));
    }
}

/// A GGA body is its tag and then exactly fourteen comma-separated slots,
/// none holding a comma; each absent field leaves its slots empty, and the
/// unit slots always hold `M`.
pub proof fn lemma_gga_absent_fields_empty(g: Gga)
    ensures
        gga_body(g) == gga_tag() + comma() + join(gga_slots(g)),
        gga_slots(g).len() == 14,
        forall|i: int| 0 <= i < 14 ==> comma_free(#[trigger] gga_slots(g)[i]),
        g.time is None ==> gga_slots(g)[0].len() == 0,
        g.lat is None ==> gga_slots(g)[1].len() == 0 && gga_slots(g)[2].len() == 0,
        g.lon is None ==> gga_slots(g)[3].len() == 0 && gga_slots(g)[4].len() == 0,
        g.fix_type is None ==> gga_slots(g)[5].len() == 0,
        g.num_satellites is None ==> gga_slots(g)[6].len() == 0,
        g.hdop is None ==> gga_slots(g)[7].len() == 0,
        g.height is None ==> gga_slots(g)[8].len() == 0,
        gga_slots(g)[9] == meters(),
        g.geoid_height is None ==> gga_slots(g)[10].len() == 0,
        gga_slots(g)[11] == meters(),
        g.age_of_corrections is None ==> gga_slots(g)[12].len() == 0,
        g.station_id is None ==> gga_slots(g)[13].len() == 0,
{
    lemma_gga_slots_comma_free(g);
    let sl = gga_slots(g);
    let t = gga_tag();
    lemma_tagged_join(t, sl);
    assert(tagged(t, sl) == gga_body(g)) by {
        let s0 = Seq::<Seq<u8>>::empty();
        lemma_tagged_push(t, s0, sl[0]);
        let s1 = s0.push(sl[0]);
        lemma_tagged_push(t, s1, sl[1]);
        let s2 = s1.push(sl[1]);
        lemma_tagged_push(t, s2, sl[2]);
        let s3 = s2.push(sl[2]);
        lemma_tagged_push(t, s3, sl[3]);
        let s4 = s3.push(sl[3]);
        lemma_tagged_push(t, s4, sl[4]);
        let s5 = s4.push(sl[4]);
        lemma_tagged_push(t, s5, sl[5]);
        let s6 = s5.push(sl[5]);
        lemma_tagged_push(t, s6, sl[6]);
        let s7 = s6.push(sl[6]);
        lemma_tagged_push(t, s7, sl[7]);
        let s8 = s7.push(sl[7]);
        lemma_tagged_push(t, s8, sl[8]);
        let s9 = s8.push(sl[8]);
        lemma_tagged_push(t, s9, sl[9]);
        let s10 = s9.push(sl[9]);
        lemma_tagged_push(t, s10, sl[10]);
        let s11 = s10.push(sl[10]);
        lemma_tagged_push(t, s11, sl[11]);
        let s12 = s11.push(sl[11]);
        lemma_tagged_push(t, s12, sl[12]);
        let s13 = s12.push(sl[12]);
        lemma_tagged_push(t, s13, sl[13]);
        let s14 = s13.push(sl[13]);
        assert(s14 =~= sl);
    }
}

/// A CRA body is its tag and then exactly four comma-separated slots, none
/// holding a comma; each absent field leaves its slot empty.
pub proof fn lemma_cra_absent_fields_empty(c: Cra)
    ensures
        cra_body(c) == cra_tag() + comma() + join(cra_slots(c)),
        cra_slots(c).len() == 4,
        forall|i: int| 0 <= i < 4 ==> comma_free(#[trigger] cra_slots(c)[i]),
        c.request_counter is None ==> cra_slots(c)[0].len() == 0,
        c.area_id is None ==> cra_slots(c)[1].len() == 0,
        c.corrections_mask is None ==> cra_slots(c)[2].len() == 0,
        c.solution_id is None ==> cra_slots(c)[3].len() == 0,
{
    lemma_cra_slots_comma_free(c);
    let sl = cra_slots(c);
    let t = cra_tag();
    lemma_tagged_join(t, sl);
    let s0 = Seq::<Seq<u8>>::empty();
    lemma_tagged_push(t, s0, sl[0]);
    let s1 = s0.push(sl[0]);
    lemma_tagged_push(t, s1, sl[1]);
    let s2 = s1.push(sl[1]);
    lemma_tagged_push(t, s2, sl[2]);
    let s3 = s2.push(sl[2]);
    lemma_tagged_push(t, s3, sl[3]);
    let s4 = s3.push(sl[3]);
    assert(s4 =~= sl);
}

/// A rendered line carries its own checksum: it starts with `$`, and after
/// the `*` stand the two hexadecimal digits of the XOR of every byte between
/// `$` and `*`. Rendering is a function of the sentence alone, so rendering
/// the same sentence twice gives identical bytes.
pub proof fn lemma_checksum_round_trip(s: Sentence, line_end: bool)
    ensures
        ({
            let r = rendered(s, false);
            let n = r.len() as int;
            &&& n >= 4
            &&& r[0] == 36u8
            &&& r[n - 3] == 42u8
            &&& r.subrange(n - 2, n) == hex2(xor_fold(r.subrange(1, n - 3)))
            &&& rendered(s, true) == r + seq![13u8, 10u8]
        }),
{
    let r = rendered(s, false);
    let n = r.len() as int;
    assert(r.subrange(1, n - 3) =~= sentence_body(s));
    assert(r.subrange(n - 2, n) =~= hex2(xor_fold(sentence_body(s))));
    assert(rendered(s, true) =~= r + seq![13u8, 10u8]);
}

} // verus!
