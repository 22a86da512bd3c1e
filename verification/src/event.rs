//! Events that the program posts to itself.
use vstd::prelude::*;
use crate::stations::ClassicalStations;
use crate::stream_url::StreamUrl;

verus! {

/// An event of the program itself.
#[derive(Debug)]
pub enum AppEvent {
    /// The program is to end.
    Quit,
    /// A station's stream address was found.
    NewStationUrl(ClassicalStations, StreamUrl),
    /// No stream address could be found for a station.
    StationUrlFailed(ClassicalStations),
}

} // verus!
