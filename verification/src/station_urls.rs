//! The stream address known for each station.
use vstd::prelude::*;
use std::collections::HashMap;
use crate::stations::{ClassicalStations, station_position};
use crate::stream_url::StreamUrl;

verus! {

broadcast use vstd::std_specs::hash::group_hash_axioms;

/// The stream address known for each station, by station.
#[derive(Debug)]
pub struct StationUrls {
    by_position: HashMap<usize, StreamUrl>,
}

impl View for StationUrls {
    type V = Map<ClassicalStations, Seq<char>>;

    closed spec fn view(&self) -> Map<ClassicalStations, Seq<char>> {
        Map::new(
            |s: ClassicalStations| self.by_position@.contains_key(station_position(s) as usize),
            |s: ClassicalStations| self.by_position@[station_position(s) as usize]@,
        )
    }
}

impl StationUrls {
    /// No address known for any station.
    pub fn new() -> (m: StationUrls)
        ensures
            m@ == Map::<ClassicalStations, Seq<char>>::empty(),
    {
        let m = StationUrls { by_position: HashMap::new() };
        assert(m@ =~= Map::<ClassicalStations, Seq<char>>::empty());
        m
    }

    /// The address known for a station.
    pub fn get(&self, station: ClassicalStations) -> (r: Option<StreamUrl>)
        ensures
            match r {
                Some(u) => self@.contains_key(station) && u@ == self@[station],
                None => !self@.contains_key(station),
            },
    {
        let p: usize = station.position();
        match self.by_position.get(&p) {
            Some(u) => Some(u.duplicate()),
            None => None,
        }
    }

    /// Records the address of a station, replacing one known before.
    pub fn insert(&mut self, station: ClassicalStations, url: StreamUrl)
        ensures
            final(self)@ == old(self)@.insert(station, url@),
    {
        let p: usize = station.position();
        let ghost u = url@;
        self.by_position.insert(p, url);
        proof {
            assert forall|s: ClassicalStations| #[trigger] self@.contains_key(s) == old(self)@.insert(station, u).contains_key(s) by {
                crate::stations::lemma_position_identifies(s, station);
            }
            assert forall|s: ClassicalStations| #[trigger] self@.contains_key(s) implies self@[s] == old(self)@.insert(station, u)[s] by {
                crate::stations::lemma_position_identifies(s, station);
            }
            assert(self@ =~= old(self)@.insert(station, u));
        }
    }

    /// Forgets the address of a station; tells whether one was known.
    pub fn remove(&mut self, station: ClassicalStations) -> (r: bool)
        ensures
            r == old(self)@.contains_key(station),
            final(self)@ == old(self)@.remove(station),
    {
        let p: usize = station.position();
        let removed = self.by_position.remove(&p);
        proof {
            assert forall|s: ClassicalStations| #[trigger] self@.contains_key(s) == old(self)@.remove(station).contains_key(s) by {
                crate::stations::lemma_position_identifies(s, station);
            }
            assert(self@ =~= old(self)@.remove(station));
        }
        removed.is_some()
    }
}

} // verus!
