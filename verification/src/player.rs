//! The player's state, the commands it takes, and how it turns the property
//! changes reported by mpv into state and commands into mpv requests.
use vstd::prelude::*;
use crate::stream_url::StreamUrl;
use crate::text::same_text;

verus! {

/// Where the connection to the stream stands.
#[derive(Debug, Clone, Copy, PartialEq, Eq, Structural)]
pub enum ConnectionState {
    Disconnected,
    Buffering,
    Playing,
    Paused,
    StreamLost,
    UrlLookupFailure,
}

impl Default for ConnectionState {
    fn default() -> (s: Self)
        ensures
            s == ConnectionState::Disconnected,
    {
        ConnectionState::Disconnected
    }
}

/// What the player reports of itself. `play_time` counts whole seconds of
/// the playback position.
#[derive(Debug, Clone)]
pub struct PlayerState {
    pub volume: i64,
    pub play_time: i64,
    pub title: String,
    pub cache: i64,
    pub connection_state: ConnectionState,
}

impl PlayerState {
    /// The state before mpv has reported anything: no volume, no position,
    /// no title, an empty cache, disconnected.
    pub open spec fn is_initial(self) -> bool {
        &&& self.volume == 0
        &&& self.play_time == 0
        &&& self.title@ == Seq::<char>::empty()
        &&& self.cache == 0
        &&& self.connection_state == ConnectionState::Disconnected
    }
}

impl Default for PlayerState {
    fn default() -> (s: Self)
        ensures
            s.is_initial(),
    {
        PlayerState {
            volume: 0,
            play_time: 0,
            title: String::new(),
            cache: 0,
            connection_state: ConnectionState::Disconnected,
        }
    }
}

/// What the rest of the program asks of the player.
#[derive(Debug)]
pub enum PlayerCommand {
    SetStation(StreamUrl),
    Toggle,
    SetVolume(i64),
    VolumeUp,
    VolumeDown,
}

/// What the player asks of mpv for a command.
#[derive(Debug)]
pub enum MpvRequest {
    /// Load the stream, replacing what plays.
    LoadFile(StreamUrl),
    /// Set the `pause` property.
    SetPause(bool),
    /// Set the `volume` property.
    SetVolume(i64),
}

/// The value of an observed mpv property. A floating-point value is held as
/// its whole part.
#[derive(Debug)]
pub enum PropertyValue {
    Flag(bool),
    Int64(i64),
    Double(i64),
    Str(String),
    Other,
}

/// An error that mpv reported, by its message.
#[derive(Debug)]
pub struct MpvFailure {
    pub message: String,
}

/// An event of mpv, as far as the player looks at it.
#[derive(Debug)]
pub enum MpvEvent {
    PropertyChange { name: String, change: PropertyValue },
    Other,
    Error(MpvFailure),
}

/// The state after a property change.
pub open spec fn after_property(st: PlayerState, name: Seq<char>, change: PropertyValue) -> PlayerState {
    if name == "time-pos"@ && change is Double {
        PlayerState { play_time: change->Double_0, ..st }
    } else if name == "volume"@ && change is Int64 {
        PlayerState { volume: change->Int64_0, ..st }
    } else if name == "cache-buffering-state"@ && change is Int64 {
        PlayerState { cache: change->Int64_0, ..st }
    } else if name == "media-title"@ && change is Str {
        PlayerState { title: change->Str_0, ..st }
    } else if name == "pause"@ && change is Flag {
        PlayerState {
            connection_state: if change->Flag_0 {
                ConnectionState::Paused
            } else {
                ConnectionState::Playing
            },
            ..st
        }
    } else if name == "paused-for-cache"@ && change is Flag && change->Flag_0 {
        PlayerState { connection_state: ConnectionState::Buffering, ..st }
    } else {
        st
    }
}

/// The state after an event that is no error.
pub open spec fn after_event(st: PlayerState, ev: MpvEvent) -> PlayerState {
    match ev {
        MpvEvent::PropertyChange { name, change } => after_property(st, name@, change),
        _ => st,
    }
}

/// The `pause` value that a toggle sets in a connection state.
pub open spec fn toggled_pause(c: ConnectionState) -> bool {
    c == ConnectionState::Buffering || c == ConnectionState::Playing
}

/// The request that a command makes of mpv, given the state.
pub open spec fn request_for(st: PlayerState, cmd: PlayerCommand) -> MpvRequest {
    match cmd {
        PlayerCommand::SetStation(u) => MpvRequest::LoadFile(u),
        PlayerCommand::Toggle => MpvRequest::SetPause(toggled_pause(st.connection_state)),
        PlayerCommand::SetVolume(v) => MpvRequest::SetVolume(v),
        PlayerCommand::VolumeUp => MpvRequest::SetVolume(
            if st.volume + 5 < 100 { (st.volume + 5) as i64 } else { 100 },
        ),
        PlayerCommand::VolumeDown => MpvRequest::SetVolume(
            if st.volume - 5 > 0 { (st.volume - 5) as i64 } else { 0 },
        ),
    }
}

/// The volume steps of a command can be taken without overflow.
pub open spec fn volume_steps_fit(st: PlayerState) -> bool {
    i64::MIN + 5 <= st.volume <= i64::MAX - 5
}

/// Stepping the volume keeps it within 0..=100 where it was there, and a
/// step up that the player reports back is undone by a step down, away from
/// the bounds.
pub proof fn lemma_volume_steps(st: PlayerState)
    requires
        volume_steps_fit(st),
    ensures
        request_for(st, PlayerCommand::VolumeUp) matches MpvRequest::SetVolume(v) && v <= 100
            && (st.volume <= 95 ==> v == st.volume + 5),
        request_for(st, PlayerCommand::VolumeDown) matches MpvRequest::SetVolume(v) && v >= 0
            && (st.volume >= 5 ==> v == st.volume - 5),
        0 <= st.volume <= 95 ==> request_for(
            PlayerState { volume: (st.volume + 5) as i64, ..st },
            PlayerCommand::VolumeDown,
        ) == MpvRequest::SetVolume(st.volume),
{
}

/// Once mpv reports the `pause` value that a toggle asked for, the next
/// toggle asks for the other value.
pub proof fn lemma_toggle_flips_reported_pause(st: PlayerState, paused: bool)
    ensures
        ({
            let reported = after_property(st, "pause"@, PropertyValue::Flag(paused));
            request_for(reported, PlayerCommand::Toggle) == MpvRequest::SetPause(!paused)
        }),
{
}

/// Milliseconds between two polls of mpv's events.
pub const POLL_INTERVAL_MILLIS: u64 = 250;

/// Seconds without a poll that took events after which mpv counts as gone.
pub const MPV_TIMEOUT_SECS: u64 = 10;

/// Each report of mpv changes only the field of its property: the
/// connection state changes only on `pause` and `paused-for-cache`, the cache
/// fill only on `cache-buffering-state`, the volume only on `volume`, the
/// position only on `time-pos` and the title only on `media-title`. A report
/// of the cache fill sets the fill to the reported value and leaves all else.
pub proof fn lemma_reports_change_their_field(st: PlayerState, name: Seq<char>, change: PropertyValue)
    ensures
        name != "pause"@ && name != "paused-for-cache"@ ==>
            after_property(st, name, change).connection_state == st.connection_state,
        name != "cache-buffering-state"@ ==> after_property(st, name, change).cache == st.cache,
        name != "volume"@ ==> after_property(st, name, change).volume == st.volume,
        name != "time-pos"@ ==> after_property(st, name, change).play_time == st.play_time,
        name != "media-title"@ ==> after_property(st, name, change).title == st.title,
        ({
            let after = after_property(st, "cache-buffering-state"@, change);
            change matches PropertyValue::Int64(v) ==> {
                &&& after.cache == v
                &&& after.connection_state == st.connection_state
                &&& after.volume == st.volume
                &&& after.play_time == st.play_time
                &&& after.title == st.title
            }
        }),
{
    reveal_strlit("cache-buffering-state");
    reveal_strlit("volume");
    reveal_strlit("time-pos");
    reveal_strlit("media-title");
    reveal_strlit("pause");
    reveal_strlit("paused-for-cache");
    assert("cache-buffering-state"@.len() != "volume"@.len());
}

/// A report of `pause` sets the connection state to paused or playing as
/// reported; a report that playback waits for the cache sets it to
/// buffering, and one that it no longer waits leaves it.
pub proof fn lemma_pause_reports(st: PlayerState, paused: bool)
    ensures
        after_property(st, "pause"@, PropertyValue::Flag(paused)).connection_state == (if paused {
            ConnectionState::Paused
        } else {
            ConnectionState::Playing
        }),
        after_property(st, "paused-for-cache"@, PropertyValue::Flag(true)).connection_state
            == ConnectionState::Buffering,
        after_property(st, "paused-for-cache"@, PropertyValue::Flag(false)) == st,
{
    reveal_strlit("cache-buffering-state");
    reveal_strlit("volume");
    reveal_strlit("time-pos");
    reveal_strlit("media-title");
    reveal_strlit("pause");
    reveal_strlit("paused-for-cache");
    assert("paused-for-cache"@.len() != "pause"@.len());
}

/// The command `SetVolume(v)` asks mpv for volume `v`, whatever the state;
/// `SetStation(u)` loads `u`.
pub proof fn lemma_direct_commands(st: PlayerState, v: i64, u: StreamUrl)
    ensures
        request_for(st, PlayerCommand::SetVolume(v)) == MpvRequest::SetVolume(v),
        request_for(st, PlayerCommand::SetStation(u)) == MpvRequest::LoadFile(u),
{
}

/// The part of the player that decides: it holds the state reported so far.
#[derive(Debug)]
pub struct PlayerCore {
    pub state: PlayerState,
}

impl PlayerCore {
    /// A player that has heard nothing from mpv yet.
    pub fn new() -> (p: PlayerCore)
        ensures
            p.state.is_initial(),
    {
        PlayerCore { state: PlayerState::default() }
    }

    /// Takes one event of mpv into the state. An error event leaves the state
    /// as it was and is handed back.
    pub fn process_mpv_event(&mut self, ev: MpvEvent) -> (r: Result<(), MpvFailure>)
        ensures
            match ev {
                MpvEvent::Error(f) => r == Err::<(), MpvFailure>(f) && final(self).state == old(self).state,
                _ => r is Ok && final(self).state == after_event(old(self).state, ev),
            },
            ev matches MpvEvent::PropertyChange { name, change } ==> {
                &&& (name@ != "pause"@ && name@ != "paused-for-cache"@ ==> final(self).state.connection_state
                    == old(self).state.connection_state)
                &&& (name@ == "cache-buffering-state"@ && change is Int64 ==> final(self).state.cache
                    == change->Int64_0)
            },
    {
        match ev {
            MpvEvent::Error(f) => Err(f),
            MpvEvent::Other => Ok(()),
            MpvEvent::PropertyChange { name, change } => {
                proof {
                    lemma_reports_change_their_field(self.state, name@, change);
                }
                let n: &str = name.as_str();
                match change {
                    PropertyValue::Double(v) => {
                        if same_text(n, "time-pos") {
                            self.state.play_time = v;
                        }
                    },
                    PropertyValue::Int64(v) => {
                        if same_text(n, "volume") {
                            self.state.volume = v;
                        } else if same_text(n, "cache-buffering-state") {
                            self.state.cache = v;
                        }
                    },
                    PropertyValue::Str(s) => {
                        if same_text(n, "media-title") {
                            self.state.title = s;
                        }
                    },
                    PropertyValue::Flag(b) => {
                        if same_text(n, "pause") {
                            if b {
                                self.state.connection_state = ConnectionState::Paused;
                            } else {
                                self.state.connection_state = ConnectionState::Playing;
                            }
                        } else if same_text(n, "paused-for-cache") {
                            if b {
                                self.state.connection_state = ConnectionState::Buffering;
                            }
                        }
                    },
                    PropertyValue::Other => {},
                }
                Ok(())
            },
        }
    }

    /// What a poll of mpv that took `num_events` events reports: a copy of
    /// the state where it took any (the timeout then starts again), nothing
    /// where it took none.
    pub fn report_after_poll(&self, num_events: usize) -> (r: Option<PlayerState>)
        ensures
            r is Some <==> num_events > 0,
            r matches Some(st) ==> st == self.state,
    {
        if num_events > 0 {
            Some(PlayerState {
                volume: self.state.volume,
                play_time: self.state.play_time,
                title: self.state.title.clone(),
                cache: self.state.cache,
                connection_state: self.state.connection_state,
            })
        } else {
            None
        }
    }

    /// The request that a command makes of mpv.
    pub fn handle_cmd(&self, cmd: PlayerCommand) -> (r: MpvRequest)
        requires
            (cmd is VolumeUp || cmd is VolumeDown) ==> volume_steps_fit(self.state),
        ensures
            r == request_for(self.state, cmd),
            cmd matches PlayerCommand::SetVolume(v) ==> r == MpvRequest::SetVolume(v),
            cmd matches PlayerCommand::SetStation(u) ==> r == MpvRequest::LoadFile(u),
            cmd is Toggle ==> r == MpvRequest::SetPause(
                self.state.connection_state == ConnectionState::Buffering
                    || self.state.connection_state == ConnectionState::Playing,
            ),
            cmd is VolumeUp ==> r == MpvRequest::SetVolume(
                if self.state.volume + 5 <= 100 { (self.state.volume + 5) as i64 } else { 100 },
            ),
            cmd is VolumeDown ==> r == MpvRequest::SetVolume(
                if self.state.volume - 5 >= 0 { (self.state.volume - 5) as i64 } else { 0 },
            ),
    {
        match cmd {
            PlayerCommand::SetStation(url) => MpvRequest::LoadFile(url),
            PlayerCommand::Toggle => {
                let pause = match self.state.connection_state {
                    ConnectionState::Disconnected => false,
                    ConnectionState::Buffering => true,
                    ConnectionState::Playing => true,
                    ConnectionState::Paused => false,
                    ConnectionState::StreamLost => false,
                    ConnectionState::UrlLookupFailure => false,
                };
                MpvRequest::SetPause(pause)
            },
            PlayerCommand::SetVolume(volume) => MpvRequest::SetVolume(volume),
            PlayerCommand::VolumeUp => {
                let up: i64 = self.state.volume + 5;
                MpvRequest::SetVolume(if up < 100 { up } else { 100 })
            },
            PlayerCommand::VolumeDown => {
                let down: i64 = self.state.volume - 5;
                MpvRequest::SetVolume(if down > 0 { down } else { 0 })
            },
        }
    }
}

} // verus!
