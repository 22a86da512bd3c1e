use classfi::player::{ConnectionState, MpvEvent, MpvFailure, MpvRequest, PlayerCommand, PlayerCore, PropertyValue};
use classfi::stream_url::StreamUrl;

fn change(name: &str, change: PropertyValue) -> MpvEvent {
    MpvEvent::PropertyChange { name: name.to_string(), change }
}

#[test]
fn property_changes_update_state() {
    let mut p = PlayerCore::new();
    assert!(p.process_mpv_event(change("time-pos", PropertyValue::Double(3725))).is_ok());
    assert_eq!(p.state.play_time, 3725);
    p.process_mpv_event(change("volume", PropertyValue::Int64(70))).unwrap();
    assert_eq!(p.state.volume, 70);
    p.process_mpv_event(change("cache-buffering-state", PropertyValue::Int64(42))).unwrap();
    assert_eq!(p.state.cache, 42);
    p.process_mpv_event(change("media-title", PropertyValue::Str("Holst: The Planets".to_string()))).unwrap();
    assert_eq!(p.state.title, "Holst: The Planets");
    p.process_mpv_event(change("pause", PropertyValue::Flag(false))).unwrap();
    assert_eq!(p.state.connection_state, ConnectionState::Playing);
    p.process_mpv_event(change("pause", PropertyValue::Flag(true))).unwrap();
    assert_eq!(p.state.connection_state, ConnectionState::Paused);
    p.process_mpv_event(change("paused-for-cache", PropertyValue::Flag(false))).unwrap();
    assert_eq!(p.state.connection_state, ConnectionState::Paused);
    p.process_mpv_event(change("paused-for-cache", PropertyValue::Flag(true))).unwrap();
    assert_eq!(p.state.connection_state, ConnectionState::Buffering);
}

#[test]
fn unhandled_events_change_nothing() {
    let mut p = PlayerCore::new();
    p.process_mpv_event(change("volume", PropertyValue::Double(70))).unwrap();
    p.process_mpv_event(change("time-pos", PropertyValue::Int64(5))).unwrap();
    p.process_mpv_event(change("speed", PropertyValue::Int64(2))).unwrap();
    p.process_mpv_event(MpvEvent::Other).unwrap();
    assert_eq!(p.state.volume, 0);
    assert_eq!(p.state.play_time, 0);
    assert_eq!(p.state.connection_state, ConnectionState::Disconnected);
}

#[test]
fn error_event_is_handed_back() {
    let mut p = PlayerCore::new();
    let r = p.process_mpv_event(MpvEvent::Error(MpvFailure { message: "boom".to_string() }));
    assert_eq!(r.unwrap_err().message, "boom");
}

#[test]
fn toggle_pauses_only_what_plays() {
    let mut p = PlayerCore::new();
    assert!(matches!(p.handle_cmd(PlayerCommand::Toggle), MpvRequest::SetPause(false)));
    for (state, pause) in [
        (ConnectionState::Buffering, true),
        (ConnectionState::Playing, true),
        (ConnectionState::Paused, false),
        (ConnectionState::StreamLost, false),
        (ConnectionState::UrlLookupFailure, false),
    ] {
        p.state.connection_state = state;
        assert!(matches!(p.handle_cmd(PlayerCommand::Toggle), MpvRequest::SetPause(b) if b == pause));
    }
}

#[test]
fn volume_steps_are_bounded() {
    let mut p = PlayerCore::new();
    p.state.volume = 80;
    assert!(matches!(p.handle_cmd(PlayerCommand::VolumeUp), MpvRequest::SetVolume(85)));
    assert!(matches!(p.handle_cmd(PlayerCommand::VolumeDown), MpvRequest::SetVolume(75)));
    p.state.volume = 98;
    assert!(matches!(p.handle_cmd(PlayerCommand::VolumeUp), MpvRequest::SetVolume(100)));
    p.state.volume = 3;
    assert!(matches!(p.handle_cmd(PlayerCommand::VolumeDown), MpvRequest::SetVolume(0)));
    p.state.volume = 130;
    assert!(matches!(p.handle_cmd(PlayerCommand::VolumeUp), MpvRequest::SetVolume(100)));
    assert!(matches!(p.handle_cmd(PlayerCommand::SetVolume(33)), MpvRequest::SetVolume(33)));
}

#[test]
fn set_station_loads_the_address() {
    let p = PlayerCore::new();
    let url = StreamUrl::parse("http://example.com/stream").unwrap();
    match p.handle_cmd(PlayerCommand::SetStation(url.duplicate())) {
        MpvRequest::LoadFile(u) => assert_eq!(u, url),
        other => panic!("unexpected request {:?}", other),
    }
}

#[test]
fn a_poll_reports_only_when_it_took_events() {
    let mut p = PlayerCore::new();
    assert!(p.report_after_poll(0).is_none());
    p.process_mpv_event(change("volume", PropertyValue::Int64(55))).unwrap();
    let report = p.report_after_poll(3).unwrap();
    assert_eq!(report.volume, 55);
    assert_eq!(report.connection_state, ConnectionState::Disconnected);
}
