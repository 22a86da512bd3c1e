use classfi::display::{PlayClock, StatusLine, media_info, play_clock, status_line};
use classfi::player::{ConnectionState, PlayerState};
use classfi::stations::ClassicalStations;

#[test]
fn clock_splits_seconds() {
    assert_eq!(play_clock(0), PlayClock { hours: 0, minutes: 0, seconds: 0 });
    assert_eq!(play_clock(3725), PlayClock { hours: 1, minutes: 2, seconds: 5 });
    assert_eq!(play_clock(59), PlayClock { hours: 0, minutes: 0, seconds: 59 });
    assert_eq!(play_clock(90061), PlayClock { hours: 25, minutes: 1, seconds: 1 });
    assert_eq!(play_clock(-61), PlayClock { hours: 0, minutes: -1, seconds: -1 });
}

#[test]
fn status_lines() {
    let mut st = PlayerState::default();
    assert_eq!(status_line(&st), StatusLine::Disconnected);
    st.connection_state = ConnectionState::Buffering;
    st.cache = 37;
    assert_eq!(status_line(&st), StatusLine::Buffering(37));
    st.connection_state = ConnectionState::Playing;
    st.play_time = 7322;
    assert_eq!(status_line(&st), StatusLine::Playing(PlayClock { hours: 2, minutes: 2, seconds: 2 }));
    st.connection_state = ConnectionState::Paused;
    assert_eq!(status_line(&st), StatusLine::Paused);
    st.connection_state = ConnectionState::UrlLookupFailure;
    assert_eq!(status_line(&st), StatusLine::UrlLookupFailure);
    st.connection_state = ConnectionState::StreamLost;
    assert_eq!(status_line(&st), StatusLine::StreamLost);
}

#[test]
fn media_info_uses_station_name_without_title() {
    let st = PlayerState::default();
    let m = media_info(&st, ClassicalStations::Arcade.station());
    assert_eq!(m.title, "Arcade");
    assert_eq!(m.artist, "Arcade");
    assert!(!m.playing);
}
