use metar_map::report::metar_line_bounds;
use metar_map::roster::{Roster, RosterEntry};

fn entry(icao: &str, led: u16) -> RosterEntry {
    RosterEntry { icao: icao.as_bytes().to_vec(), led }
}

#[test]
fn valid_roster_is_accepted_and_kept() {
    let entries = vec![
        entry("KOAK", 1),
        entry("KSFO", 2),
        entry("KHAF", 3),
        entry("KSQL", 4),
        entry("KSJC", 5),
    ];
    let roster = Roster::new(entries).expect("roster should be valid");
    assert_eq!(roster.entries().len(), 5);
    assert_eq!(roster.entries()[0].icao, b"KOAK".to_vec());
    assert_eq!(roster.entries()[4].led, 5);
}

#[test]
fn roster_rejects_led_zero() {
    assert!(Roster::new(vec![entry("KSFO", 0)]).is_none());
}

#[test]
fn roster_rejects_duplicate_airport() {
    assert!(Roster::new(vec![entry("KSFO", 1), entry("KSFO", 2)]).is_none());
}

#[test]
fn roster_rejects_duplicate_led() {
    assert!(Roster::new(vec![entry("KSFO", 1), entry("KOAK", 1)]).is_none());
}

#[test]
fn empty_roster_is_valid() {
    assert!(Roster::new(Vec::new()).is_some());
}

#[test]
fn metar_line_is_the_second_line() {
    let body = b"2024/05/01 12:53\nKSFO 011253Z 28012KT 10SM FEW008 15/10 A3002\n".to_vec();
    let (start, stop) = metar_line_bounds(&body).expect("second line exists");
    assert_eq!(
        &body[start..stop],
        b"KSFO 011253Z 28012KT 10SM FEW008 15/10 A3002".as_slice()
    );
}

#[test]
fn metar_line_strips_a_trailing_carriage_return() {
    let body = b"header\r\nKOAK METAR\r\n".to_vec();
    let (start, stop) = metar_line_bounds(&body).expect("second line exists");
    assert_eq!(&body[start..stop], b"KOAK METAR".as_slice());
    let body = b"header\nKOAK METAR\r\n".to_vec();
    let (start, stop) = metar_line_bounds(&body).expect("second line exists");
    assert_eq!(&body[start..stop], b"KOAK METAR".as_slice());
}

#[test]
fn body_without_a_second_line_is_rejected() {
    assert!(metar_line_bounds(&b"only one line".to_vec()).is_none());
    assert!(metar_line_bounds(&b"only one line\n".to_vec()).is_none());
    assert!(metar_line_bounds(&b"".to_vec()).is_none());
}

#[test]
fn empty_second_line_is_still_a_line() {
    let body = b"header\n\nrest".to_vec();
    let (start, stop) = metar_line_bounds(&body).expect("second line exists");
    assert_eq!(start, stop);
}
