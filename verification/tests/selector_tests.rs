use classfi::selector::{KeyCode, KeyPress, StationSelector, StationSelectorResult};
use classfi::stations::ClassicalStations;

fn key(code: KeyCode) -> KeyPress {
    KeyPress { code, control_only: false }
}

#[test]
fn moves_follow_the_table_until_drawn() {
    let mut s = StationSelector::default();
    assert_eq!(s.selected(), None);
    s.select_next();
    assert_eq!(s.selected(), Some(0));
    s.select_previous();
    assert_eq!(s.selected(), Some(0));
    s.set_station_idx(8);
    s.select_next();
    // Past the last station until the list is drawn again.
    assert_eq!(s.selected(), Some(9));
    s.fit_to_rows();
    assert_eq!(s.selected(), Some(8));
    let mut t = StationSelector::default();
    t.select_previous();
    assert_eq!(t.selected(), Some(usize::MAX));
    t.fit_to_rows();
    assert_eq!(t.selected(), Some(8));
    // Drawing leaves a row of the list and no highlight alone.
    t.fit_to_rows();
    assert_eq!(t.selected(), Some(8));
    let mut u = StationSelector::default();
    u.fit_to_rows();
    assert_eq!(u.selected(), None);
}

#[test]
fn station_under_highlight() {
    let mut s = StationSelector::default();
    assert_eq!(s.station(), ClassicalStations::ClassicalCalifornia.station());
    s.set_station_idx(5);
    assert_eq!(s.selected(), Some(5));
    assert_eq!(s.station(), ClassicalStations::Arcade.station());
    s.set_station_idx(8);
    assert_eq!(s.station(), ClassicalStations::Glissando.station());
}

#[test]
fn keys_of_the_picker() {
    let mut s = StationSelector::default();
    assert!(matches!(s.handle_key_events(key(KeyCode::Esc)), StationSelectorResult::CloseSelector));
    assert!(matches!(s.handle_key_events(key(KeyCode::Down)), StationSelectorResult::Scrolling));
    assert!(matches!(s.handle_key_events(key(KeyCode::Down)), StationSelectorResult::Scrolling));
    assert!(matches!(s.handle_key_events(key(KeyCode::Up)), StationSelectorResult::Scrolling));
    assert_eq!(s.selected(), Some(0));
    s.handle_key_events(key(KeyCode::Down));
    match s.handle_key_events(key(KeyCode::Enter)) {
        StationSelectorResult::NewStation(st) => assert_eq!(st, ClassicalStations::Ultimate.station()),
        other => panic!("unexpected {:?}", other),
    }
    assert!(matches!(s.handle_key_events(key(KeyCode::Char('x'))), StationSelectorResult::Ignored));
    assert!(matches!(s.handle_key_events(key(KeyCode::Other)), StationSelectorResult::Ignored));
    assert_eq!(s.selected(), Some(1));
}
