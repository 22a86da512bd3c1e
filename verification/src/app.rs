//! The program's state and its decisions: what a key, an event of the
//! program, a report of the player or a media key changes, and what is to be
//! done about it.
use vstd::prelude::*;
use crate::display::{MediaInfo, StatusLine, media_info, status_line, status_for};
use crate::event::AppEvent;
use crate::player::{ConnectionState, PlayerCommand, PlayerState};
use crate::selector::{
    KeyCode, KeyPress, StationSelector, StationSelectorResult, highlighted_station, in_list, next_row,
    previous_row,
};
use crate::station_urls::StationUrls;
use crate::stations::{ClassicalStations, Station, station_position, station_record};

verus! {

/// How the program was asked to start.
#[derive(Debug, Clone)]
pub struct AppConfig {
    /// The station to start with; the default station where none is given.
    pub station: Option<ClassicalStations>,
    /// The name of the colour theme.
    pub theme: Option<String>,
    /// A single-line display.
    pub compact: bool,
    /// Clear the address cache and end.
    pub clear_cache: bool,
}

/// Something for the program to do outside its state.
#[derive(Debug)]
pub enum AppAction {
    /// Send a command to the player.
    SendCommand(PlayerCommand),
    /// Look the station's stream address up in the radio directory.
    LookupUrl(ClassicalStations),
    /// Record the station's address in the cache file.
    SaveUrl(ClassicalStations, crate::stream_url::StreamUrl),
    /// Drop the station's address from the cache file.
    InvalidateUrl(ClassicalStations),
    /// Post an event to the program itself.
    PostEvent(AppEvent),
}

/// A key of the desktop's media controls.
#[derive(Debug, Clone, Copy, PartialEq, Eq, Structural)]
pub enum MediaKey {
    Play,
    Pause,
    Toggle,
    Stop,
    /// Set the volume, in percent, already bounded to 0..=100.
    SetVolume(i64),
    Quit,
    Other,
}

/// The program's state.
#[derive(Debug)]
pub struct App {
    pub running: bool,
    pub station: ClassicalStations,
    pub station_urls: StationUrls,
    pub station_selector: StationSelector,
    pub show_station_selector: bool,
    pub player_state: PlayerState,
    pub compact: bool,
}

/// The action that tunes to a station: play its known address, or look one up.
pub open spec fn tunes_to(a: AppAction, urls: Map<ClassicalStations, Seq<char>>, s: ClassicalStations) -> bool {
    if urls.contains_key(s) {
        a matches AppAction::SendCommand(PlayerCommand::SetStation(u)) && u@ == urls[s]
    } else {
        a == AppAction::LookupUrl(s)
    }
}

/// A key that ends the program: `q`, or Control-`c`.
pub open spec fn is_quit_key(k: KeyPress) -> bool {
    k.code == KeyCode::Char('q') || ((k.code == KeyCode::Char('c') || k.code == KeyCode::Char('C'))
        && k.control_only)
}

/// A key that the program answers the same way whether the picker is open or not.
pub open spec fn is_global_key(k: KeyPress) -> bool {
    ||| is_quit_key(k)
    ||| k.code == KeyCode::Char('p')
    ||| k.code == KeyCode::Char('-')
    ||| k.code == KeyCode::Char('_')
    ||| k.code == KeyCode::Char('+')
    ||| k.code == KeyCode::Char('=')
    ||| k.code == KeyCode::Char('s')
}

/// The command that a global key other than `s` sends, if it sends one.
pub open spec fn global_key_command(k: KeyPress) -> Option<PlayerCommand> {
    if is_quit_key(k) {
        None
    } else if k.code == KeyCode::Char('p') {
        Some(PlayerCommand::Toggle)
    } else if k.code == KeyCode::Char('-') || k.code == KeyCode::Char('_') {
        Some(PlayerCommand::VolumeDown)
    } else if k.code == KeyCode::Char('+') || k.code == KeyCode::Char('=') {
        Some(PlayerCommand::VolumeUp)
    } else {
        None
    }
}

/// An address recorded for a station is what switching to that station plays.
pub proof fn lemma_recorded_url_is_played(
    urls: Map<ClassicalStations, Seq<char>>,
    s: ClassicalStations,
    url: Seq<char>,
    a: AppAction,
)
    requires
        tunes_to(a, urls.insert(s, url), s),
    ensures
        a matches AppAction::SendCommand(PlayerCommand::SetStation(u)) && u@ == url,
{
}

/// Once a station's address is forgotten, switching to it looks the address up.
pub proof fn lemma_forgotten_url_is_looked_up(urls: Map<ClassicalStations, Seq<char>>, s: ClassicalStations, a: AppAction)
    requires
        tunes_to(a, urls.remove(s), s),
    ensures
        a == AppAction::LookupUrl(s),
{
}

impl App {
    /// The program at the start: running, on the given station (or the
    /// default one), with the addresses known from the cache, the picker
    /// closed with nothing highlighted, and the player disconnected.
    pub fn new(config: AppConfig, station_urls: StationUrls) -> (app: App)
        ensures
            app.running,
            app.station == (match config.station {
                Some(s) => s,
                None => ClassicalStations::ClassicalCalifornia,
            }),
            app.station_urls@ == station_urls@,
            app.station_selector@ == None::<usize>,
            !app.show_station_selector,
            app.player_state.is_initial(),
            app.compact == config.compact,
    {
        let station = match config.station {
            Some(s) => s,
            None => ClassicalStations::default(),
        };
        App {
            running: true,
            station,
            station_urls,
            station_selector: StationSelector::default(),
            show_station_selector: false,
            player_state: PlayerState::default(),
            compact: config.compact,
        }
    }

    /// Ends the program's main loop.
    pub fn quit(&mut self)
        ensures
            !final(self).running,
            final(self).station == old(self).station,
            final(self).station_urls@ == old(self).station_urls@,
            final(self).station_selector@ == old(self).station_selector@,
            final(self).show_station_selector == old(self).show_station_selector,
            final(self).player_state == old(self).player_state,
            final(self).compact == old(self).compact,
    {
        self.running = false;
    }

    /// Switches to a station: plays its known address, or asks for a lookup.
    pub fn change_station(&mut self, station: ClassicalStations) -> (a: AppAction)
        ensures
            final(self).station == station,
            tunes_to(a, old(self).station_urls@, station),
            final(self).running == old(self).running,
            final(self).station_urls@ == old(self).station_urls@,
            final(self).station_selector@ == old(self).station_selector@,
            final(self).show_station_selector == old(self).show_station_selector,
            final(self).player_state == old(self).player_state,
            final(self).compact == old(self).compact,
    {
        self.station = station;
        match self.station_urls.get(station) {
            Some(url) => AppAction::SendCommand(PlayerCommand::SetStation(url)),
            None => AppAction::LookupUrl(station),
        }
    }

    /// What the program does as it starts playing: tune to its station and
    /// set the volume to 80.
    pub fn start(&mut self) -> (actions: Vec<AppAction>)
        ensures
            actions@.len() == 2,
            tunes_to(actions@[0], old(self).station_urls@, old(self).station),
            actions@[1] == AppAction::SendCommand(PlayerCommand::SetVolume(80)),
            final(self).station == old(self).station,
            final(self).running == old(self).running,
            final(self).station_urls@ == old(self).station_urls@,
            final(self).station_selector@ == old(self).station_selector@,
            final(self).show_station_selector == old(self).show_station_selector,
            final(self).player_state == old(self).player_state,
            final(self).compact == old(self).compact,
    {
        let station = self.station;
        let tune = self.change_station(station);
        let mut actions: Vec<AppAction> = Vec::new();
        actions.push(tune);
        actions.push(AppAction::SendCommand(PlayerCommand::SetVolume(80)));
        actions
    }

    /// Answers a key. `q` and Control-`c` post `Quit`; `p` toggles pause;
    /// `-`/`_` and `+`/`=` step the volume; `s` opens the picker. Other keys
    /// go to the picker while it is open: Esc closes it, Enter closes it and
    /// switches to the highlighted station, Up and Down move the highlight.
    pub fn handle_key_events(&mut self, key_event: KeyPress) -> (r: Option<AppAction>)
        requires
            old(self).show_station_selector && key_event.code == KeyCode::Enter ==> in_list(
                old(self).station_selector@,
            ),
        ensures
            final(self).running == old(self).running,
            final(self).station_urls@ == old(self).station_urls@,
            final(self).player_state == old(self).player_state,
            final(self).compact == old(self).compact,
            is_global_key(key_event) ==> {
                &&& final(self).station == old(self).station
                &&& final(self).station_selector@ == old(self).station_selector@
                &&& final(self).show_station_selector == (old(self).show_station_selector
                    || key_event.code == KeyCode::Char('s'))
                &&& if is_quit_key(key_event) {
                    r matches Some(AppAction::PostEvent(AppEvent::Quit))
                } else {
                    match global_key_command(key_event) {
                        Some(c) => r matches Some(AppAction::SendCommand(c2)) && c2 == c,
                        None => r is None,
                    }
                }
            },
            !is_global_key(key_event) && !old(self).show_station_selector ==> {
                &&& r is None
                &&& final(self).station == old(self).station
                &&& final(self).station_selector@ == old(self).station_selector@
                &&& !final(self).show_station_selector
            },
            !is_global_key(key_event) && old(self).show_station_selector ==> match key_event.code {
                KeyCode::Esc => {
                    &&& r is None
                    &&& !final(self).show_station_selector
                    &&& final(self).station == old(self).station
                    &&& final(self).station_selector@ == old(self).station_selector@
                },
                KeyCode::Enter => {
                    &&& !final(self).show_station_selector
                    &&& final(self).station == highlighted_station(old(self).station_selector@)
                    &&& r matches Some(a) && tunes_to(a, old(self).station_urls@, final(self).station)
                    &&& final(self).station_selector@ == old(self).station_selector@
                },
                KeyCode::Up => {
                    &&& r is None
                    &&& final(self).show_station_selector
                    &&& final(self).station == old(self).station
                    &&& final(self).station_selector@ == previous_row(old(self).station_selector@)
                },
                KeyCode::Down => {
                    &&& r is None
                    &&& final(self).show_station_selector
                    &&& final(self).station == old(self).station
                    &&& final(self).station_selector@ == next_row(old(self).station_selector@)
                },
                _ => {
                    &&& r is None
                    &&& final(self).show_station_selector
                    &&& final(self).station == old(self).station
                    &&& final(self).station_selector@ == old(self).station_selector@
                },
            },
    {
        match key_event.code {
            KeyCode::Char('q') => Some(AppAction::PostEvent(AppEvent::Quit)),
            KeyCode::Char('c') if key_event.control_only => Some(AppAction::PostEvent(AppEvent::Quit)),
            KeyCode::Char('C') if key_event.control_only => Some(AppAction::PostEvent(AppEvent::Quit)),
            KeyCode::Char('p') => Some(AppAction::SendCommand(PlayerCommand::Toggle)),
            KeyCode::Char('-') | KeyCode::Char('_') => Some(AppAction::SendCommand(PlayerCommand::VolumeDown)),
            KeyCode::Char('+') | KeyCode::Char('=') => Some(AppAction::SendCommand(PlayerCommand::VolumeUp)),
            KeyCode::Char('s') => {
                self.show_station_selector = true;
                None
            },
            _ => {
                if self.show_station_selector {
                    match self.station_selector.handle_key_events(key_event) {
                        StationSelectorResult::Ignored => None,
                        StationSelectorResult::Scrolling => None,
                        StationSelectorResult::CloseSelector => {
                            self.show_station_selector = false;
                            None
                        },
                        StationSelectorResult::NewStation(_) => {
                            self.show_station_selector = false;
                            let chosen = self.highlighted();
                            Some(self.change_station(chosen))
                        },
                    }
                } else {
                    None
                }
            },
        }
    }

    /// The station under the picker's highlight.
    fn highlighted(&self) -> (s: ClassicalStations)
        requires
            in_list(self.station_selector@),
        ensures
            s == highlighted_station(self.station_selector@),
            station_position(s) == (match self.station_selector@ {
                Some(i) => i,
                None => 0,
            }),
    {
        let idx: usize = match self.station_selector.selected() {
            Some(i) => i,
            None => 0,
        };
        match ClassicalStations::from_position(idx) {
            Some(s) => s,
            None => ClassicalStations::Glissando,
        }
    }

    /// Answers an event of the program. `Quit` ends the main loop. A found
    /// address is recorded and saved to the cache, and played where it is
    /// the current station's. A failed lookup forgets the station's address,
    /// drops it from the cache and shows the failure.
    pub fn handle_app_event(&mut self, event: AppEvent) -> (actions: Vec<AppAction>)
        ensures
            final(self).station == old(self).station,
            final(self).station_selector@ == old(self).station_selector@,
            final(self).show_station_selector == old(self).show_station_selector,
            final(self).compact == old(self).compact,
            match event {
                AppEvent::Quit => {
                    &&& !final(self).running
                    &&& actions@.len() == 0
                    &&& final(self).station_urls@ == old(self).station_urls@
                    &&& final(self).player_state == old(self).player_state
                },
                AppEvent::NewStationUrl(s, u) => {
                    &&& final(self).running == old(self).running
                    &&& final(self).station_urls@ == old(self).station_urls@.insert(s, u@)
                    &&& final(self).player_state == old(self).player_state
                    &&& actions@.len() == (if s == old(self).station { 2int } else { 1int })
                    &&& actions@[0] matches AppAction::SaveUrl(s2, u2) && s2 == s && u2 == u
                    &&& s == old(self).station ==> (actions@[1] matches AppAction::SendCommand(
                        PlayerCommand::SetStation(u3),
                    ) && u3 == u)
                },
                AppEvent::StationUrlFailed(s) => {
                    &&& final(self).running == old(self).running
                    &&& final(self).station_urls@ == old(self).station_urls@.remove(s)
                    &&& final(self).player_state == PlayerState {
                        connection_state: ConnectionState::UrlLookupFailure,
                        ..old(self).player_state
                    }
                    &&& actions@.len() == 1
                    &&& actions@[0] == AppAction::InvalidateUrl(s)
                },
            },
    {
        let mut actions: Vec<AppAction> = Vec::new();
        match event {
            AppEvent::Quit => {
                self.quit();
            },
            AppEvent::NewStationUrl(station, url) => {
                self.station_urls.insert(station, url.duplicate());
                actions.push(AppAction::SaveUrl(station, url.duplicate()));
                if self.station == station {
                    actions.push(AppAction::SendCommand(PlayerCommand::SetStation(url)));
                }
            },
            AppEvent::StationUrlFailed(station) => {
                self.station_urls.remove(station);
                actions.push(AppAction::InvalidateUrl(station));
                self.player_state.connection_state = ConnectionState::UrlLookupFailure;
            },
        }
        actions
    }

    /// Takes a report of the player. Where the stream is newly lost, the
    /// current station's address is forgotten, dropped from the cache and
    /// looked up afresh.
    pub fn handle_player_state(&mut self, new_state: PlayerState) -> (actions: Vec<AppAction>)
        ensures
            final(self).player_state == new_state,
            final(self).running == old(self).running,
            final(self).station == old(self).station,
            final(self).station_selector@ == old(self).station_selector@,
            final(self).show_station_selector == old(self).show_station_selector,
            final(self).compact == old(self).compact,
            if new_state.connection_state == ConnectionState::StreamLost
                && old(self).player_state.connection_state != ConnectionState::StreamLost {
                &&& final(self).station_urls@ == old(self).station_urls@.remove(old(self).station)
                &&& actions@ == seq![
                    AppAction::InvalidateUrl(old(self).station),
                    AppAction::LookupUrl(old(self).station),
                ]
            } else {
                &&& final(self).station_urls@ == old(self).station_urls@
                &&& actions@.len() == 0
            },
    {
        let prev_lost = match self.player_state.connection_state {
            ConnectionState::StreamLost => true,
            _ => false,
        };
        let now_lost = match new_state.connection_state {
            ConnectionState::StreamLost => true,
            _ => false,
        };
        self.player_state = new_state;
        let mut actions: Vec<AppAction> = Vec::new();
        if now_lost && !prev_lost {
            let station = self.station;
            self.station_urls.remove(station);
            actions.push(AppAction::InvalidateUrl(station));
            actions.push(AppAction::LookupUrl(station));
        }
        actions
    }

    /// Answers a key of the media controls: play, pause, toggle and stop
    /// toggle pause; a volume is sent on; quit posts `Quit`.
    pub fn handle_media_key(&self, key: MediaKey) -> (r: Option<AppAction>)
        ensures
            match key {
                MediaKey::Play | MediaKey::Pause | MediaKey::Toggle | MediaKey::Stop =>
                    r == Some(AppAction::SendCommand(PlayerCommand::Toggle)),
                MediaKey::SetVolume(v) => r == Some(AppAction::SendCommand(PlayerCommand::SetVolume(v))),
                MediaKey::Quit => r == Some(AppAction::PostEvent(AppEvent::Quit)),
                MediaKey::Other => r is None,
            },
    {
        match key {
            MediaKey::Play | MediaKey::Pause | MediaKey::Toggle | MediaKey::Stop => Some(
                AppAction::SendCommand(PlayerCommand::Toggle),
            ),
            MediaKey::SetVolume(v) => Some(AppAction::SendCommand(PlayerCommand::SetVolume(v))),
            MediaKey::Quit => Some(AppAction::PostEvent(AppEvent::Quit)),
            MediaKey::Other => None,
        }
    }

    /// The record of the current station.
    pub fn current_station(&self) -> (s: Station)
        ensures
            s == station_record(self.station),
    {
        self.station.station()
    }

    /// What the media controls are to show.
    pub fn media_info(&self) -> (m: MediaInfo)
        ensures
            m.playing == (self.player_state.connection_state == ConnectionState::Playing),
            m.title@ == (if self.player_state.title@.len() == 0 {
                station_record(self.station).name@
            } else {
                self.player_state.title@
            }),
            m.artist@ == station_record(self.station).name@,
    {
        media_info(&self.player_state, self.station.station())
    }

    /// The line that tells how playback stands.
    pub fn status_line(&self) -> (l: StatusLine)
        ensures
            l == status_for(self.player_state),
    {
        status_line(&self.player_state)
    }
}

impl Default for App {
    fn default() -> (app: App)
        ensures
            app.running,
            app.station == ClassicalStations::ClassicalCalifornia,
            app.station_urls@ == Map::<ClassicalStations, Seq<char>>::empty(),
            app.station_selector@ == None::<usize>,
            !app.show_station_selector,
            app.player_state.is_initial(),
            !app.compact,
    {
        App {
            running: true,
            station: ClassicalStations::default(),
            station_urls: StationUrls::new(),
            station_selector: StationSelector::default(),
            show_station_selector: false,
            player_state: PlayerState::default(),
            compact: false,
        }
    }
}

} // verus!
