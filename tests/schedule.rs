use ntripping::duplex::{Offer, SendError};
use ntripping::schedule::{
    build_cra, build_gga, default_after, get_commands, Command, CommandSource, Message, Options,
    Scheduler,
};

fn options() -> Options {
    Options {
        lat: 3777103777,
        lon: -12240316335,
        height: -809,
        epoch: Some(1577905180),
        nmea_period: 10,
        request_counter: None,
        area_id: None,
        corrections_mask: None,
        solution_id: None,
    }
}

fn cra(counter: Option<u8>) -> Message {
    Message::Cra { request_counter: counter, area_id: Some(7), corrections_mask: None, solution_id: None }
}

#[test]
fn cadence_zero_sends_nothing() {
    let opt = Options { nmea_period: 0, ..options() };
    let mut source = get_commands(&opt, None);
    assert!(matches!(source, CommandSource::Silent));
    for _ in 0..3 {
        assert_eq!(source.next(), None);
    }
    let mut scheduler = Scheduler::new(get_commands(&opt, None));
    assert_eq!(scheduler.next_command(), None);
}

#[test]
fn script_replays_delays_in_order() {
    let first = Command { after: 0, epoch: None, crc: None, message: cra(Some(1)) };
    let second = Command { after: 5, epoch: Some(10), crc: Some(0x12), message: cra(None) };
    let mut source = get_commands(&options(), Some(vec![first, second]));
    let a = source.next().unwrap();
    let b = source.next().unwrap();
    assert_eq!(a, first);
    assert_eq!(a.after, 0);
    assert_eq!(b, second);
    assert_eq!(b.after, 5);
    assert_eq!(source.next(), None);
    assert_eq!(source.next(), None);
}

#[test]
fn periodic_gga_repeats() {
    let mut source = get_commands(&options(), None);
    let first = source.next().unwrap();
    assert_eq!(first, build_gga(&options()));
    assert_eq!(first.after, 0);
    for _ in 0..3 {
        let next = source.next().unwrap();
        assert_eq!(next, Command { after: 10, ..first });
    }
}

#[test]
fn periodic_cra_counter_wraps() {
    let opt = Options { area_id: Some(7), request_counter: Some(254), ..options() };
    let mut source = get_commands(&opt, None);
    let c0 = source.next().unwrap();
    assert_eq!(c0, build_cra(&opt));
    let c1 = source.next().unwrap();
    let c2 = source.next().unwrap();
    let c3 = source.next().unwrap();
    assert_eq!(c0.message, cra(Some(254)));
    assert_eq!(c1.message, cra(Some(255)));
    assert_eq!(c2.message, cra(Some(0)));
    assert_eq!(c3.message, cra(Some(1)));
    assert_eq!((c0.after, c1.after, c2.after), (0, 10, 10));
    assert_eq!(c2.to_string(0), "$PSWTCRA,0,7,,*57");
}

#[test]
fn command_lines() {
    let gga = build_gga(&options());
    let expected = "$GPGGA,185940.00,3746.2622662,N,12224.1898010,W,4,12,1.3,-8.09,M,0.0,M,1.7,0078*7E";
    // the fixed epoch wins over the clock
    assert_eq!(gga.to_string(999), expected);
    assert_eq!(gga.to_bytes(999), format!("{expected}\r\n").into_bytes());
    let live = Command { epoch: None, ..gga };
    assert_eq!(
        live.to_string(10),
        "$GPGGA,000010.00,3746.2622662,N,12224.1898010,W,4,12,1.3,-8.09,M,0.0,M,1.7,0078*7E"
    );
}

#[test]
fn checksum_override_is_used_verbatim() {
    let c = Command { after: 0, epoch: Some(0), crc: Some(5), message: cra(None) };
    assert_eq!(c.to_string(0), "$PSWTCRA,,7,,*05");
    let c = Command { crc: Some(0xAB), ..c };
    assert_eq!(c.to_bytes(0), b"$PSWTCRA,,7,,*AB\r\n".to_vec());
}

#[test]
fn message_format_has_no_checksum() {
    let m = cra(Some(3));
    let t = ntripping::sentence::UtcTime::new(0, 0, 0).unwrap();
    assert_eq!(m.format(t), b"$PSWTCRA,3,7,,".to_vec());
}

#[test]
fn default_delay() {
    assert_eq!(default_after(), 10);
}

#[test]
fn busy_slot_skips_and_closed_sender_stops() {
    let opt = Options { area_id: Some(7), request_counter: Some(0), ..options() };
    let mut scheduler = Scheduler::new(get_commands(&opt, None));
    let a = scheduler.next_command().unwrap();
    scheduler.record(&Ok(Offer::Accepted));
    let b = scheduler.next_command().unwrap();
    scheduler.record(&Ok(Offer::Busy));
    // the busy line is not retried: the next tick carries the next counter
    let c = scheduler.next_command().unwrap();
    assert_eq!(a.message, cra(Some(0)));
    assert_eq!(b.message, cra(Some(1)));
    assert_eq!(c.message, cra(Some(2)));
    scheduler.record(&Err(SendError));
    assert!(scheduler.stopped);
    assert_eq!(scheduler.next_command(), None);
    assert_eq!(scheduler.next_command(), None);
}
