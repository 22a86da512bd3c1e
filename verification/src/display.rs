//! What the screen and the desktop's media controls show of the player.
use vstd::prelude::*;
use crate::player::{ConnectionState, PlayerState};
use crate::stations::Station;

verus! {

/// A playback position split into hours, minutes and seconds.
#[derive(Debug, Clone, Copy, PartialEq, Eq, Structural)]
pub struct PlayClock {
    pub hours: i64,
    pub minutes: i64,
    pub seconds: i64,
}

/// Integer division that rounds toward zero, as Rust's `/` does.
pub open spec fn quotient_toward_zero(a: int, b: int) -> int {
    if a >= 0 {
        a / b
    } else {
        -((-a) / b)
    }
}

/// The remainder that goes with `quotient_toward_zero`, as Rust's `%` gives it.
pub open spec fn remainder_toward_zero(a: int, b: int) -> int {
    a - quotient_toward_zero(a, b) * b
}

/// A playback position split into hours, minutes and seconds, each part
/// taking the sign of the total.
pub open spec fn play_clock_of(total: i64) -> PlayClock {
    PlayClock {
        hours: quotient_toward_zero(total as int, 3600) as i64,
        minutes: quotient_toward_zero(remainder_toward_zero(total as int, 3600), 60) as i64,
        seconds: remainder_toward_zero(total as int, 60) as i64,
    }
}

/// Splits whole seconds into hours, minutes and seconds, each part taking
/// the sign of the total.
pub fn play_clock(total: i64) -> (c: PlayClock)
    ensures
        c == play_clock_of(total),
        c.hours * 3600 + c.minutes * 60 + c.seconds == total,
        total >= 0 ==> 0 <= c.minutes < 60 && 0 <= c.seconds < 60 && c.hours >= 0,
        total < 0 ==> -60 < c.minutes <= 0 && -60 < c.seconds <= 0 && c.hours <= 0,
{
    let hours: i64 = total / 3600;
    let minutes: i64 = (total % 3600) / 60;
    let seconds: i64 = total % 60;
    PlayClock { hours, minutes, seconds }
}

/// The line that tells how playback stands.
#[derive(Debug, Clone, Copy, PartialEq, Eq, Structural)]
pub enum StatusLine {
    Disconnected,
    /// Buffering, with how far the cache is filled, in percent.
    Buffering(i64),
    /// Playing, with the playback position.
    Playing(PlayClock),
    Paused,
    StreamLost,
    UrlLookupFailure,
}

/// The status line for a player state.
pub open spec fn status_for(state: PlayerState) -> StatusLine {
    match state.connection_state {
        ConnectionState::Disconnected => StatusLine::Disconnected,
        ConnectionState::Buffering => StatusLine::Buffering(state.cache),
        ConnectionState::Playing => StatusLine::Playing(play_clock_of(state.play_time)),
        ConnectionState::Paused => StatusLine::Paused,
        ConnectionState::StreamLost => StatusLine::StreamLost,
        ConnectionState::UrlLookupFailure => StatusLine::UrlLookupFailure,
    }
}

/// The status line for a player state.
pub fn status_line(state: &PlayerState) -> (l: StatusLine)
    ensures
        l == status_for(*state),
        l matches StatusLine::Playing(c) ==> c.hours * 3600 + c.minutes * 60 + c.seconds == state.play_time,
{
    match state.connection_state {
        ConnectionState::Disconnected => StatusLine::Disconnected,
        ConnectionState::Buffering => StatusLine::Buffering(state.cache),
        ConnectionState::Playing => StatusLine::Playing(play_clock(state.play_time)),
        ConnectionState::Paused => StatusLine::Paused,
        ConnectionState::StreamLost => StatusLine::StreamLost,
        ConnectionState::UrlLookupFailure => StatusLine::UrlLookupFailure,
    }
}

/// What the desktop's media controls are told.
#[derive(Debug, Clone)]
pub struct MediaInfo {
    /// Whether to show the stream as playing (else as stopped).
    pub playing: bool,
    pub title: String,
    pub artist: String,
}

/// What the media controls show: playing only while the stream plays; the
/// stream's title, or the station's name where the stream has none; the
/// station's name as artist.
pub fn media_info(state: &PlayerState, station: Station) -> (m: MediaInfo)
    ensures
        m.playing == (state.connection_state == ConnectionState::Playing),
        m.title@ == (if state.title@.len() == 0 { station.name@ } else { state.title@ }),
        m.artist@ == station.name@,
{
    let playing = match state.connection_state {
        ConnectionState::Playing => true,
        _ => false,
    };
    let title: String = if state.title.as_str().is_empty() {
        station.name.to_owned()
    } else {
        state.title.clone()
    };
    MediaInfo { playing, title, artist: station.name.to_owned() }
}

} // verus!
