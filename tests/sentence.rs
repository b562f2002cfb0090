use chrono::{TimeZone, Utc};
use ntripping::codec::checksum;
use ntripping::schedule::Message;
use ntripping::sentence::{Cra, Gga, Sentence, UtcTime};

fn utc(y: i32, mo: u32, d: u32, h: u32, mi: u32, s: u32) -> UtcTime {
    let ts = Utc.with_ymd_and_hms(y, mo, d, h, mi, s).unwrap().timestamp();
    UtcTime::from_unix_seconds(ts as u64)
}

#[test]
fn gga() {
    let test_data = [
        (Gga::new(), "$GPGGA,,,,,,,,,,M,,M,,*56"),
        (
            Gga::new()
                .with_time(Some(utc(2020, 1, 1, 18, 59, 40)))
                .with_lat(Some(3777103777))
                .with_lon(Some(-12240316335))
                .with_fix_type(Some(5))
                .with_num_satellites(Some(10))
                .with_hdop(Some(9))
                .with_height(Some(-809))
                .with_geoid_height(Some(0))
                .with_age_of_corrections(Some(13))
                .with_station_id(Some(0)),
            "$GPGGA,185940.00,3746.2622662,N,12224.1898010,W,5,10,0.9,-8.09,M,0.0,M,1.3,0000*7D",
        ),
    ]
    .map(|(gga, expected)| (Sentence::from(gga), expected.to_string()));

    for (gga, expected) in test_data {
        assert_eq!(gga.to_string(false), expected);
    }
}

#[test]
fn cra() {
    let test_data = [
        (Cra::new(), "$PSWTCRA,,,,*50"),
        (Cra::new().with_request_counter(Some(0)), "$PSWTCRA,0,,,*60"),
        (Cra::new().with_area_id(Some(0)), "$PSWTCRA,,0,,*60"),
        (Cra::new().with_corrections_mask(Some(0)), "$PSWTCRA,,,0,*60"),
        (Cra::new().with_solution_id(Some(0)), "$PSWTCRA,,,,0*60"),
        (
            Cra::new()
                .with_area_id(Some(0))
                .with_request_counter(Some(0))
                .with_corrections_mask(Some(0))
                .with_solution_id(Some(0)),
            "$PSWTCRA,0,0,0,0*50",
        ),
    ]
    .map(|(cra, expected)| (Sentence::from(cra), expected.to_string()));

    for (cra, expected) in test_data {
        assert_eq!(cra.to_string(false), expected);
    }
}

#[test]
fn checksum_skips_leading_byte() {
    assert_eq!(checksum(b"$"), 0);
    assert_eq!(checksum(b"$A"), 0x41);
    assert_eq!(checksum(b"$AB"), 0x41 ^ 0x42);
    // the first byte never counts, whatever it is
    assert_eq!(checksum(b"XAB"), checksum(b"$AB"));
    assert_eq!(checksum(b"$PSWTCRA,,,,"), 0x50);
}

#[test]
fn rendered_line_carries_its_checksum() {
    let s = Sentence::from(Cra::new().with_request_counter(Some(7)).with_area_id(Some(42)));
    let line = s.render(false);
    let n = line.len();
    assert_eq!(line[0], b'$');
    assert_eq!(line[n - 3], b'*');
    let sum = checksum(&line[..n - 3]);
    assert_eq!(&line[n - 2..], format!("{:02X}", sum).as_bytes());
    // rendering twice gives the same bytes
    assert_eq!(s.render(false), line);
    assert_eq!(s.to_string(false), s.to_string(false));
}

#[test]
fn wire_form_ends_with_crlf() {
    let s = Sentence::from(Cra::new());
    assert_eq!(s.to_bytes(), b"$PSWTCRA,,,,*50\r\n".to_vec());
    assert_eq!(s.to_string(true), "$PSWTCRA,,,,*50\r\n");
}

#[test]
fn absent_fields_leave_empty_slots() {
    let only_sats = Sentence::from(Gga::new().with_num_satellites(Some(12)));
    let text = only_sats.to_string(false);
    let body = &text[1..text.len() - 3];
    let slots: Vec<&str> = body.split(',').collect();
    assert_eq!(slots.len(), 15);
    assert_eq!(slots[0], "GPGGA");
    assert_eq!(slots[7], "12");
    for (i, slot) in slots.iter().enumerate().skip(1) {
        if i != 7 && i != 10 && i != 12 {
            assert_eq!(*slot, "");
        }
    }
    assert_eq!(slots[10], "M");
    assert_eq!(slots[12], "M");

    let cra = Sentence::from(Cra::new().with_corrections_mask(Some(3))).to_string(false);
    assert!(cra.starts_with("$PSWTCRA,,,3,*"));
}

#[test]
fn coordinates_and_fixed_point() {
    let g = Gga::new()
        .with_lat(Some(-1))
        .with_lon(Some(18000000000))
        .with_hdop(Some(-4))
        .with_height(Some(12345))
        .with_station_id(Some(65535));
    let text = Sentence::from(g).to_string(false);
    assert!(text.starts_with(
        "$GPGGA,,0000.0000006,S,18000.0000000,E,,,-0.4,123.45,M,,M,,65535*"
    ));
}

#[test]
fn with_time_and_counter_touch_their_variant_only() {
    let t = UtcTime::new(1, 2, 3).unwrap();
    let cra = Sentence::from(Cra::new());
    assert_eq!(cra.with_time(Some(t)), cra);
    let gga = Sentence::from(Gga::new());
    assert_eq!(gga.with_request_counter(Some(3)), gga);
    assert_eq!(
        gga.with_time(Some(t)).to_string(false),
        Sentence::from(Gga::new().with_time(Some(t))).to_string(false)
    );
    assert!(gga.with_time(Some(t)).to_string(false).starts_with("$GPGGA,010203.00,"));
    assert_eq!(
        cra.with_request_counter(Some(9)).to_string(false),
        "$PSWTCRA,9,,,*69"
    );
}

#[test]
fn time_of_day() {
    assert_eq!(UtcTime::new(24, 0, 0), None);
    assert_eq!(UtcTime::new(23, 60, 0), None);
    assert_eq!(UtcTime::new(23, 59, 60), None);
    let t = UtcTime::from_unix_seconds(1577905180);
    assert_eq!((t.hour, t.minute, t.second), (18, 59, 40));
    assert_eq!(UtcTime::from_unix_seconds(86399), UtcTime::new(23, 59, 59).unwrap());
    assert_eq!(UtcTime::from_unix_seconds(86400), UtcTime::new(0, 0, 0).unwrap());
}

#[test]
fn request_counter_wraps() {
    let m = Message::Cra {
        request_counter: Some(255),
        area_id: Some(1),
        corrections_mask: None,
        solution_id: None,
    };
    assert_eq!(
        m.next_request(),
        Message::Cra { request_counter: Some(0), area_id: Some(1), corrections_mask: None, solution_id: None }
    );
    let none = Message::Cra { request_counter: None, area_id: Some(1), corrections_mask: None, solution_id: None };
    assert_eq!(none.next_request(), none);
}

#[test]
fn largest_field_values() {
    let c = Cra::new()
        .with_request_counter(Some(u8::MAX))
        .with_area_id(Some(u32::MAX))
        .with_corrections_mask(Some(u16::MAX))
        .with_solution_id(Some(u8::MAX));
    assert_eq!(
        Sentence::from(c).to_string(false),
        "$PSWTCRA,255,4294967295,65535,255*6D"
    );
}

#[test]
fn extreme_coordinates_do_not_fail() {
    let g = Gga::new().with_lat(Some(i64::MIN)).with_lon(Some(i64::MAX));
    let text = Sentence::from(g).to_string(false);
    assert!(text.starts_with("$GPGGA,,9223372036832.8654848,S,9223372036832.8654842,E,"));
}
