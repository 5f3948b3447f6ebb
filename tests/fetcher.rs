use calcache::fetcher::{calendar_from_fetch, Location, Remote};
use icalendar::{CalendarComponent, Component};

const EMPTY_DIGEST: &str = "e3b0c44298fc1c149afbf4c8996fb92427ae41e4649b934ca495991b7852b855";
const ABC_DIGEST: &str = "ba7816bf8f01cfea414140de5dae2223b00361a396177a9cb410ff61f20015ad";

fn canonical(remote: &Remote) -> String {
    match &remote.location {
        Location::Online(u) => u.clone(),
        Location::Local(p) => p.clone(),
    }
}

#[test]
fn hash_test() {
    let remote = Remote {
        location: Location::Local(String::from("file.ics")),
    };

    let remote1 = Remote {
        location: Location::Local(String::from("file.ics")),
    };

    assert_eq!(remote.hash(), remote1.hash())
}

#[test]
fn hash_is_sha256_hex_of_location_text() {
    assert_eq!(Remote::new("").hash(), EMPTY_DIGEST);
    assert_eq!(Remote::new("abc").hash(), ABC_DIGEST);
    let online = Remote {
        location: Location::Online(String::from("abc")),
    };
    assert_eq!(online.hash(), ABC_DIGEST);
}

#[test]
fn hash_follows_canonical_url_form() {
    let a = Remote::new("https://example.com");
    let b = Remote::new("https://example.com/");
    assert_eq!(canonical(&a), "https://example.com/");
    assert_eq!(a.hash(), b.hash());
    let as_path = Remote {
        location: Location::Local(String::from("https://example.com/")),
    };
    assert_eq!(a.hash(), as_path.hash());
    assert_ne!(a.hash(), Remote::new("https://example.org/").hash());
}

#[test]
fn absolute_urls_are_online() {
    for s in ["https://example.com/", "http://localhost:8080/cal.ics", "file:///tmp/cal.ics"] {
        let r = Remote::new(s);
        assert!(!r.is_local(), "{}", s);
        assert!(matches!(r.location, Location::Online(_)));
    }
}

#[test]
fn other_identifiers_are_local_paths() {
    for s in ["file.ics", "resources/test/belgium.ics", "/tmp/cal.ics", "", "example.com/cal"] {
        let r = Remote::new(s);
        assert!(r.is_local(), "{}", s);
        assert_eq!(canonical(&r), s);
    }
}

#[test]
fn failed_fetch_gives_no_calendar() {
    assert!(calendar_from_fetch(None).is_none());
}

#[test]
fn text_that_is_not_a_calendar_gives_no_events() {
    let body = String::from("<!doctype html><html><body>Example Domain</body></html>");
    if let Some(cal) = calendar_from_fetch(Some(body)) {
        assert_eq!(cal.len(), 0);
    }
}

#[test]
fn fetched_text_is_unfolded_before_parsing() {
    let text = "BEGIN:VCALENDAR\r\nVERSION:2.0\r\nBEGIN:VEVENT\r\nUID:1\r\nSUMMARY:Hol\r\n iday\r\nEND:VEVENT\r\nEND:VCALENDAR\r\n";
    let cal = calendar_from_fetch(Some(String::from(text))).unwrap();
    assert_eq!(cal.len(), 1);
    match &cal[0] {
        CalendarComponent::Event(e) => assert_eq!(e.get_summary(), Some("Holiday")),
        _ => panic!("expected an event"),
    }
}
