use classfi::app::{App, AppAction, AppConfig, MediaKey};
use classfi::event::AppEvent;
use classfi::player::{ConnectionState, PlayerCommand, PlayerState};
use classfi::selector::{KeyCode, KeyPress};
use classfi::station_urls::StationUrls;
use classfi::stations::ClassicalStations;
use classfi::stream_url::StreamUrl;

fn test_url() -> StreamUrl {
    StreamUrl::parse("http://example.com/stream").unwrap()
}

/// The commands for the player among the actions.
fn commands(actions: &[AppAction]) -> Vec<&PlayerCommand> {
    actions
        .iter()
        .filter_map(|a| match a {
            AppAction::SendCommand(c) => Some(c),
            _ => None,
        })
        .collect()
}

fn key(code: KeyCode) -> KeyPress {
    KeyPress { code, control_only: false }
}

#[test]
fn new_station_url_for_current_station_sends_command_and_caches() {
    let mut app = App::default();
    let station = app.station;
    let url = test_url();

    let actions = app.handle_app_event(AppEvent::NewStationUrl(station, url.duplicate()));

    assert_eq!(app.station_urls.get(station), Some(url.duplicate()));
    let cmds = commands(&actions);
    assert!(
        cmds.iter()
            .any(|c| matches!(c, PlayerCommand::SetStation(u) if *u == url)),
        "expected SetStation to be sent for the current station"
    );
}

#[test]
fn new_station_url_for_other_station_caches_but_no_command() {
    let mut app = App::default();
    let other = ClassicalStations::Ultimate.station();
    assert_ne!(app.current_station(), other);
    let url = test_url();

    let actions = app.handle_app_event(AppEvent::NewStationUrl(ClassicalStations::Ultimate, url.duplicate()));

    assert_eq!(app.station_urls.get(ClassicalStations::Ultimate), Some(url));
    let cmds = commands(&actions);
    assert!(
        cmds.is_empty(),
        "expected no command to be sent for a non-current station"
    );
}

#[test]
fn change_station_sends_command_on_cache_hit() {
    let mut app = App::default();
    let station = ClassicalStations::Ultimate;
    let url = test_url();
    app.station_urls.insert(station, url.duplicate());

    let action = app.change_station(station);

    assert_eq!(app.station, station);
    let actions = vec![action];
    let cmds = commands(&actions);
    assert!(
        cmds.iter()
            .any(|c| matches!(c, PlayerCommand::SetStation(u) if *u == url)),
        "expected SetStation to be sent when URL is cached"
    );
}

#[test]
fn change_station_no_command_on_cache_miss() {
    let mut app = App::default();
    let station = ClassicalStations::Ultimate;

    let action = app.change_station(station);

    assert_eq!(app.station, station);
    let actions = vec![action];
    let cmds = commands(&actions);
    assert!(
        cmds.is_empty(),
        "expected no command when URL is not cached yet"
    );
    assert!(matches!(actions[0], AppAction::LookupUrl(ClassicalStations::Ultimate)));
}

#[test]
fn quit_sets_not_running() {
    let mut app = App::default();
    assert!(app.running);
    app.quit();
    assert!(!app.running);
}

#[test]
fn new_app_takes_station_and_compact_from_config() {
    let config = AppConfig {
        station: Some(ClassicalStations::Arcade),
        theme: None,
        compact: true,
        clear_cache: false,
    };
    let app = App::new(config, StationUrls::new());
    assert_eq!(app.station, ClassicalStations::Arcade);
    assert!(app.compact);
    assert!(app.running);
    assert!(!app.show_station_selector);
    let config = AppConfig { station: None, theme: None, compact: false, clear_cache: false };
    let app = App::new(config, StationUrls::new());
    assert_eq!(app.station, ClassicalStations::ClassicalCalifornia);
}

#[test]
fn start_tunes_and_sets_volume() {
    let mut app = App::default();
    let actions = app.start();
    assert_eq!(actions.len(), 2);
    assert!(matches!(actions[0], AppAction::LookupUrl(ClassicalStations::ClassicalCalifornia)));
    assert!(matches!(actions[1], AppAction::SendCommand(PlayerCommand::SetVolume(80))));
}

#[test]
fn quit_keys_post_quit() {
    let mut app = App::default();
    assert!(matches!(app.handle_key_events(key(KeyCode::Char('q'))), Some(AppAction::PostEvent(AppEvent::Quit))));
    let ctrl_c = KeyPress { code: KeyCode::Char('c'), control_only: true };
    assert!(matches!(app.handle_key_events(ctrl_c), Some(AppAction::PostEvent(AppEvent::Quit))));
    let ctrl_big_c = KeyPress { code: KeyCode::Char('C'), control_only: true };
    assert!(matches!(app.handle_key_events(ctrl_big_c), Some(AppAction::PostEvent(AppEvent::Quit))));
    // A plain `c` is no quit key.
    assert!(app.handle_key_events(key(KeyCode::Char('c'))).is_none());
    assert!(app.running);
}

#[test]
fn player_keys_send_commands() {
    let mut app = App::default();
    assert!(matches!(app.handle_key_events(key(KeyCode::Char('p'))), Some(AppAction::SendCommand(PlayerCommand::Toggle))));
    assert!(matches!(app.handle_key_events(key(KeyCode::Char('-'))), Some(AppAction::SendCommand(PlayerCommand::VolumeDown))));
    assert!(matches!(app.handle_key_events(key(KeyCode::Char('_'))), Some(AppAction::SendCommand(PlayerCommand::VolumeDown))));
    assert!(matches!(app.handle_key_events(key(KeyCode::Char('+'))), Some(AppAction::SendCommand(PlayerCommand::VolumeUp))));
    assert!(matches!(app.handle_key_events(key(KeyCode::Char('='))), Some(AppAction::SendCommand(PlayerCommand::VolumeUp))));
}

#[test]
fn picker_opens_moves_and_chooses() {
    let mut app = App::default();
    // Arrows do nothing while the picker is closed.
    assert!(app.handle_key_events(key(KeyCode::Down)).is_none());
    assert_eq!(app.station_selector.selected(), None);

    assert!(app.handle_key_events(key(KeyCode::Char('s'))).is_none());
    assert!(app.show_station_selector);
    app.handle_key_events(key(KeyCode::Down));
    app.handle_key_events(key(KeyCode::Down));
    assert_eq!(app.station_selector.selected(), Some(1));
    let action = app.handle_key_events(key(KeyCode::Enter));
    assert!(!app.show_station_selector);
    assert_eq!(app.station, ClassicalStations::Ultimate);
    assert!(matches!(action, Some(AppAction::LookupUrl(ClassicalStations::Ultimate))));
}

#[test]
fn picker_closes_on_escape() {
    let mut app = App::default();
    app.handle_key_events(key(KeyCode::Char('s')));
    app.handle_key_events(key(KeyCode::Up));
    assert_eq!(app.station_selector.selected(), Some(usize::MAX));
    app.station_selector.fit_to_rows();
    assert_eq!(app.station_selector.selected(), Some(8));
    assert!(app.handle_key_events(key(KeyCode::Esc)).is_none());
    assert!(!app.show_station_selector);
    assert_eq!(app.station, ClassicalStations::ClassicalCalifornia);
}

#[test]
fn failed_lookup_forgets_url_and_shows_failure() {
    let mut app = App::default();
    app.station_urls.insert(ClassicalStations::Arcade, test_url());
    let actions = app.handle_app_event(AppEvent::StationUrlFailed(ClassicalStations::Arcade));
    assert_eq!(app.station_urls.get(ClassicalStations::Arcade), None);
    assert_eq!(actions.len(), 1);
    assert!(matches!(actions[0], AppAction::InvalidateUrl(ClassicalStations::Arcade)));
    assert_eq!(app.player_state.connection_state, ConnectionState::UrlLookupFailure);
}

#[test]
fn quit_event_stops_running() {
    let mut app = App::default();
    let actions = app.handle_app_event(AppEvent::Quit);
    assert!(actions.is_empty());
    assert!(!app.running);
}

#[test]
fn stream_loss_is_acted_on_once() {
    let mut app = App::default();
    app.station_urls.insert(ClassicalStations::ClassicalCalifornia, test_url());
    let mut lost = PlayerState::default();
    lost.connection_state = ConnectionState::StreamLost;
    let actions = app.handle_player_state(lost.clone());
    assert_eq!(actions.len(), 2);
    assert!(matches!(actions[0], AppAction::InvalidateUrl(ClassicalStations::ClassicalCalifornia)));
    assert!(matches!(actions[1], AppAction::LookupUrl(ClassicalStations::ClassicalCalifornia)));
    assert_eq!(app.station_urls.get(ClassicalStations::ClassicalCalifornia), None);
    // Still lost: nothing more to do.
    assert!(app.handle_player_state(lost).is_empty());
    let mut playing = PlayerState::default();
    playing.connection_state = ConnectionState::Playing;
    assert!(app.handle_player_state(playing).is_empty());
    assert_eq!(app.player_state.connection_state, ConnectionState::Playing);
}

#[test]
fn media_keys_map_to_commands() {
    let app = App::default();
    for k in [MediaKey::Play, MediaKey::Pause, MediaKey::Toggle, MediaKey::Stop] {
        assert!(matches!(app.handle_media_key(k), Some(AppAction::SendCommand(PlayerCommand::Toggle))));
    }
    assert!(matches!(app.handle_media_key(MediaKey::SetVolume(42)), Some(AppAction::SendCommand(PlayerCommand::SetVolume(42)))));
    assert!(matches!(app.handle_media_key(MediaKey::Quit), Some(AppAction::PostEvent(AppEvent::Quit))));
    assert!(app.handle_media_key(MediaKey::Other).is_none());
}

#[test]
fn media_info_falls_back_to_station_name() {
    let mut app = App::default();
    let info = app.media_info();
    assert!(!info.playing);
    assert_eq!(info.title, "Classical California");
    assert_eq!(info.artist, "Classical California");
    app.player_state.title = String::from("Bach: Goldberg Variations");
    app.player_state.connection_state = ConnectionState::Playing;
    let info = app.media_info();
    assert!(info.playing);
    assert_eq!(info.title, "Bach: Goldberg Variations");
}
