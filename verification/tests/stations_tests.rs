use classfi::stations::{ClassicalStations, STATION_COUNT};

#[test]
fn station_records() {
    let s = ClassicalStations::ClassicalCalifornia.station();
    assert_eq!(s.name, "Classical California");
    assert_eq!(s.search, "Classical KUSC");
    assert_eq!(s.description, "Live Streaming 24/7 Classical Music");
    let s = ClassicalStations::Ultimate.station();
    assert_eq!(s.name, "Ultimate Playlist");
    assert_eq!(s.search, "KDFC Classical California Ultimate Playlist");
    let s = ClassicalStations::NuestraMusicaEs.station();
    assert_eq!(s.name, "Nuestra Música [En Español]");
    let s = ClassicalStations::Glissando.station();
    assert_eq!(s.description, "A New Children's Musical Adventure Every 20 Minutes!");
}

#[test]
fn default_station() {
    assert_eq!(ClassicalStations::default(), ClassicalStations::ClassicalCalifornia);
}

#[test]
fn names_are_distinct() {
    let all = ClassicalStations::all();
    assert_eq!(all.len(), STATION_COUNT);
    for (i, a) in all.iter().enumerate() {
        for (j, b) in all.iter().enumerate() {
            assert_eq!(i == j, a.station().name == b.station().name);
        }
    }
}

#[test]
fn positions_round_trip() {
    for (i, s) in ClassicalStations::all().iter().enumerate() {
        assert_eq!(s.position(), i);
        assert_eq!(ClassicalStations::from_position(i), Some(*s));
    }
    assert_eq!(ClassicalStations::from_position(9), None);
    assert_eq!(ClassicalStations::Christmas.position(), 7);
}
