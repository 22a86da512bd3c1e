use classfi::event::AppEvent;
use classfi::lookup::{LOOKUP_ATTEMPTS, LookupStep, UrlLookup};
use classfi::stations::ClassicalStations;

#[test]
fn found_address_ends_the_lookup() {
    let l = UrlLookup::start(ClassicalStations::Americana);
    match l.on_reply(Some("https://stream.example.org/americana".to_string())) {
        LookupStep::Report(AppEvent::NewStationUrl(s, u)) => {
            assert_eq!(s, ClassicalStations::Americana);
            assert_eq!(u.as_str(), "https://stream.example.org/americana");
        }
        other => panic!("unexpected {:?}", other),
    }
}

#[test]
fn gives_up_after_the_last_attempt() {
    let mut l = UrlLookup::start(ClassicalStations::Christmas);
    let mut queries = 1;
    loop {
        match l.on_reply(if queries % 2 == 0 { None } else { Some("not a url".to_string()) }) {
            LookupStep::Retry(next) => {
                assert_eq!(next.failed_attempts() as usize, queries);
                l = next;
                queries += 1;
            }
            LookupStep::Report(AppEvent::StationUrlFailed(s)) => {
                assert_eq!(s, ClassicalStations::Christmas);
                break;
            }
            other => panic!("unexpected {:?}", other),
        }
    }
    assert_eq!(queries, LOOKUP_ATTEMPTS as usize);
}
