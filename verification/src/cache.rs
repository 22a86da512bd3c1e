//! The cache of resolved stream addresses: a JSON object that maps station
//! names to address texts, and the station addresses read from it.
use vstd::prelude::*;
use crate::stations::{ClassicalStations, Station, STATION_COUNT, station_record, station_position};
use crate::station_urls::StationUrls;
use crate::stream_url::{StreamUrl, parsed_url, reads_back};
use crate::text::same_text;

verus! {

/// The map that a list of entries describes; a later entry for a name wins.
pub open spec fn entries_map(e: Seq<(Seq<char>, Seq<char>)>) -> Map<Seq<char>, Seq<char>>
    decreases e.len(),
{
    if e.len() == 0 {
        Map::empty()
    } else {
        entries_map(e.drop_last()).insert(e.last().0, e.last().1)
    }
}

/// No name occurs twice among the entries.
pub open spec fn keys_distinct(e: Seq<(Seq<char>, Seq<char>)>) -> bool {
    forall|i: int, j: int| 0 <= i < j < e.len() ==> #[trigger] e[i].0 != #[trigger] e[j].0
}

/// What `serde_json::from_str` gives for a text read as an object of strings:
/// its entries in name order, or `None` where the text is no such object.
pub uninterp spec fn json_object(text: Seq<char>) -> Option<Seq<(Seq<char>, Seq<char>)>>;

/// What `serde_json::to_string_pretty` writes for an object of strings.
pub uninterp spec fn json_pretty(object: Map<Seq<char>, Seq<char>>) -> Option<Seq<char>>;

/// Calls `serde_json::from_str` into a `BTreeMap<String, String>` and lists
/// its entries. Claims that the outcome depends on the text alone and that a
/// map holds each name once; which texts are accepted is left to serde_json.
#[verifier::external_body]
fn decode_json(text: &str) -> (r: Option<Vec<(String, String)>>)
    ensures
        r.deep_view() == json_object(text@),
        r matches Some(v) ==> keys_distinct(v.deep_view()),
{
    match serde_json::from_str::<std::collections::BTreeMap<String, String>>(text) {
        Ok(m) => Some(m.into_iter().collect()),
        Err(_) => None,
    }
}

/// A JSON object of strings, as read from the cache file or to be written to it.
#[derive(Debug)]
pub struct RawCache {
    entries: Vec<(String, String)>,
}

/// Calls `serde_json::to_string_pretty` on the cache's entries, as a
/// `BTreeMap<&str, &str>`. Claims that the text depends on the object alone
/// and that reading it back with `serde_json::from_str` gives the same
/// object, as serde_json's escaping of strings makes it do.
#[verifier::external_body]
fn encode_json(cache: &RawCache) -> (r: Option<String>)
    ensures
        r.deep_view() == json_pretty(cache@),
        r matches Some(t) ==> (json_object(t@) matches Some(e) && entries_map(e) == cache@),
{
    let map: std::collections::BTreeMap<&str, &str> = cache.entries.iter().map(
        |e| (e.0.as_str(), e.1.as_str()),
    ).collect();
    serde_json::to_string_pretty(&map).ok()
}

/// Every name among the entries is a name of the map, and the other way.
proof fn lemma_entries_map_keys(e: Seq<(Seq<char>, Seq<char>)>, k: Seq<char>)
    ensures
        entries_map(e).contains_key(k) <==> exists|i: int| 0 <= i < e.len() && #[trigger] e[i].0 == k,
    decreases e.len(),
{
    if e.len() > 0 {
        let d = e.drop_last();
        lemma_entries_map_keys(d, k);
        if entries_map(e).contains_key(k) {
            if e.last().0 == k {
                assert(e[e.len() - 1].0 == k);
            } else {
                let i = choose|i: int| 0 <= i < d.len() && #[trigger] d[i].0 == k;
                assert(e[i].0 == k);
            }
        }
        if exists|i: int| 0 <= i < e.len() && #[trigger] e[i].0 == k {
            let i = choose|i: int| 0 <= i < e.len() && #[trigger] e[i].0 == k;
            if i < e.len() - 1 {
                assert(d[i].0 == k);
            }
        }
    }
}

/// With distinct names, an entry gives the map's value for its name.
proof fn lemma_entries_map_value(e: Seq<(Seq<char>, Seq<char>)>, i: int)
    requires
        keys_distinct(e),
        0 <= i < e.len(),
    ensures
        entries_map(e).contains_key(e[i].0),
        entries_map(e)[e[i].0] == e[i].1,
    decreases e.len(),
{
    let d = e.drop_last();
    if i < e.len() - 1 {
        assert(d[i] == e[i]);
        assert(keys_distinct(d));
        lemma_entries_map_value(d, i);
        assert(e[i].0 != e[e.len() - 1].0);
    }
}

/// Dropping the entry of a name drops the name from the map.
proof fn lemma_entries_map_remove(e: Seq<(Seq<char>, Seq<char>)>, i: int)
    requires
        keys_distinct(e),
        0 <= i < e.len(),
    ensures
        keys_distinct(e.remove(i)),
        entries_map(e.remove(i)) == entries_map(e).remove(e[i].0),
{
    let r = e.remove(i);
    let k = e[i].0;
    assert forall|a: int, b: int| 0 <= a < b < r.len() implies #[trigger] r[a].0 != #[trigger] r[b].0 by {
        let a2 = if a < i { a } else { a + 1 };
        let b2 = if b < i { b } else { b + 1 };
        assert(r[a] == e[a2]);
        assert(r[b] == e[b2]);
    }
    assert forall|x: Seq<char>| #[trigger] entries_map(r).contains_key(x) == entries_map(e).remove(k).contains_key(x) by {
        lemma_entries_map_keys(r, x);
        lemma_entries_map_keys(e, x);
        if entries_map(r).contains_key(x) {
            let j = choose|j: int| 0 <= j < r.len() && #[trigger] r[j].0 == x;
            let j2 = if j < i { j } else { j + 1 };
            assert(r[j] == e[j2]);
            assert(e[j2].0 == x);
        }
        if entries_map(e).remove(k).contains_key(x) {
            let j = choose|j: int| 0 <= j < e.len() && #[trigger] e[j].0 == x;
            assert(j != i);
            let j2 = if j < i { j } else { j - 1 };
            assert(r[j2] == e[j]);
            assert(r[j2].0 == x);
        }
    }
    assert forall|x: Seq<char>| #[trigger] entries_map(r).contains_key(x) implies entries_map(r)[x] == entries_map(e).remove(k)[x] by {
        lemma_entries_map_keys(r, x);
        let j = choose|j: int| 0 <= j < r.len() && #[trigger] r[j].0 == x;
        let j2 = if j < i { j } else { j + 1 };
        assert(r[j] == e[j2]);
        lemma_entries_map_value(r, j);
        lemma_entries_map_value(e, j2);
    }
    assert(entries_map(r) =~= entries_map(e).remove(k));
}

impl View for RawCache {
    type V = Map<Seq<char>, Seq<char>>;

    closed spec fn view(&self) -> Map<Seq<char>, Seq<char>> {
        entries_map(self.entries.deep_view())
    }
}

impl RawCache {
    #[verifier::type_invariant]
    spec fn names_distinct(self) -> bool {
        keys_distinct(self.entries.deep_view())
    }

    /// An empty object.
    pub fn new() -> (c: RawCache)
        ensures
            c@ == Map::<Seq<char>, Seq<char>>::empty(),
    {
        let c = RawCache { entries: Vec::new() };
        assert(c.entries.deep_view() =~= Seq::<(Seq<char>, Seq<char>)>::empty());
        c
    }

    /// Reads a JSON object of strings; `None` where serde_json refuses the text.
    pub fn from_json(text: &str) -> (r: Option<RawCache>)
        ensures
            match json_object(text@) {
                Some(e) => r matches Some(c) && c@ == entries_map(e),
                None => r is None,
            },
    {
        match decode_json(text) {
            Some(v) => Some(RawCache { entries: v }),
            None => None,
        }
    }

    /// Writes the object as pretty JSON; `None` where serde_json fails to.
    pub fn to_json(&self) -> (r: Option<String>)
        ensures
            r.deep_view() == json_pretty(self@),
            r matches Some(t) ==> (json_object(t@) matches Some(e) && entries_map(e) == self@),
    {
        encode_json(self)
    }

    /// Where the entry of a name stands.
    fn find(&self, name: &str) -> (r: Option<usize>)
        ensures
            match r {
                Some(i) => i < self.entries.len() && self.entries.deep_view()[i as int].0 == name@,
                None => forall|i: int| 0 <= i < self.entries.len() ==> self.entries.deep_view()[i].0 != name@,
            },
    {
        let mut i: usize = 0;
        while i < self.entries.len()
            invariant
                i <= self.entries.len(),
                forall|j: int| 0 <= j < i ==> self.entries.deep_view()[j].0 != name@,
            decreases self.entries.len() - i,
        {
            if same_text(self.entries[i].0.as_str(), name) {
                return Some(i);
            }
            i = i + 1;
        }
        None
    }

    /// The value of a name.
    pub fn get(&self, name: &str) -> (r: Option<&String>)
        ensures
            match r {
                Some(v) => self@.contains_key(name@) && v@ == self@[name@],
                None => !self@.contains_key(name@),
            },
    {
        proof {
            use_type_invariant(self);
        }
        match self.find(name) {
            Some(i) => {
                proof {
                    lemma_entries_map_value(self.entries.deep_view(), i as int);
                }
                Some(&self.entries[i].1)
            },
            None => {
                proof {
                    lemma_entries_map_keys(self.entries.deep_view(), name@);
                }
                None
            },
        }
    }

    /// Drops the entry of a name; tells whether there was one.
    pub fn remove(&mut self, name: &str) -> (r: bool)
        ensures
            r == old(self)@.contains_key(name@),
            final(self)@ == old(self)@.remove(name@),
    {
        proof {
            use_type_invariant(&*self);
        }
        match self.find(name) {
            Some(i) => {
                let ghost e = self.entries.deep_view();
                proof {
                    lemma_entries_map_remove(e, i as int);
                    lemma_entries_map_value(e, i as int);
                }
                let mut entries: Vec<(String, String)> = Vec::new();
                std::mem::swap(&mut entries, &mut self.entries);
                entries.remove(i);
                assert(entries.deep_view() =~= e.remove(i as int));
                self.entries = entries;
                true
            },
            None => {
                proof {
                    lemma_entries_map_keys(self.entries.deep_view(), name@);
                    assert(self@ =~= self@.remove(name@));
                }
                false
            },
        }
    }

    /// Sets the value of a name, replacing the one it had.
    pub fn insert(&mut self, name: String, value: String)
        ensures
            final(self)@ == old(self)@.insert(name@, value@),
    {
        let ghost before = self@;
        self.remove(name.as_str());
        proof {
            use_type_invariant(&*self);
        }
        let ghost e = self.entries.deep_view();
        let ghost n = name@;
        let ghost v = value@;
        let mut entries: Vec<(String, String)> = Vec::new();
                std::mem::swap(&mut entries, &mut self.entries);
        proof {
            lemma_entries_map_keys(e, n);
        }
        entries.push((name, value));
        assert(entries.deep_view() =~= e.push((n, v)));
        assert(entries.deep_view().drop_last() =~= e);
        assert(keys_distinct(entries.deep_view())) by {
            assert forall|a: int, b: int| 0 <= a < b < entries.deep_view().len() implies
                #[trigger] entries.deep_view()[a].0 != #[trigger] entries.deep_view()[b].0 by {
                if b == e.len() {
                    assert(e[a].0 != n);
                } else {
                    assert(e[a].0 != e[b].0);
                }
            }
        }
        self.entries = entries;
        assert(self@ =~= before.insert(n, v));
    }
}

/// The address that the cache holds for a station, as the URL parser reads it.
pub open spec fn stored_url(object: Map<Seq<char>, Seq<char>>, s: ClassicalStations) -> Option<Seq<char>> {
    if object.contains_key(station_record(s).name@) {
        parsed_url(object[station_record(s).name@])
    } else {
        None
    }
}

/// The stations whose cached address parses, with the parsed addresses.
pub open spec fn urls_of_object(object: Map<Seq<char>, Seq<char>>) -> Map<ClassicalStations, Seq<char>> {
    Map::new(|s: ClassicalStations| stored_url(object, s) is Some, |s: ClassicalStations| stored_url(object, s)->0)
}

/// The addresses that a cache file gives: none where it is missing or is no
/// JSON object of strings.
pub open spec fn loaded_urls(file: Option<Seq<char>>) -> Map<ClassicalStations, Seq<char>> {
    match file {
        Some(t) => match json_object(t) {
            Some(e) => urls_of_object(entries_map(e)),
            None => Map::empty(),
        },
        None => Map::empty(),
    }
}

/// The object that the cache file holds before a change: empty where there
/// is no file, `None` where the file is no JSON object of strings.
pub open spec fn raw_object(file: Option<Seq<char>>) -> Option<Map<Seq<char>, Seq<char>>> {
    match file {
        Some(t) => match json_object(t) {
            Some(e) => Some(entries_map(e)),
            None => None,
        },
        None => Some(Map::empty()),
    }
}

/// The addresses of the stations whose names the object holds, where they parse.
pub fn urls_from_object(cache: &RawCache) -> (m: StationUrls)
    ensures
        m@ == urls_of_object(cache@),
{
    let stations = ClassicalStations::all();
    let mut m = StationUrls::new();
    let mut k: usize = 0;
    while k < stations.len()
        invariant
            k <= stations.len(),
            stations@.len() == STATION_COUNT,
            forall|i: int| 0 <= i < stations@.len() ==> station_position(#[trigger] stations@[i]) == i,
            forall|s: ClassicalStations| #[trigger] m@.contains_key(s) ==> station_position(s) < k,
            forall|s: ClassicalStations| station_position(s) < k ==>
                (#[trigger] m@.contains_key(s) <==> urls_of_object(cache@).contains_key(s)),
            forall|s: ClassicalStations| #[trigger] m@.contains_key(s) ==> m@[s] == urls_of_object(cache@)[s],
        decreases stations.len() - k,
    {
        let s = stations[k];
        let station = s.station();
        match cache.get(station.name) {
            Some(text) => {
                match StreamUrl::parse(text.as_str()) {
                    Some(u) => {
                        m.insert(s, u);
                    },
                    None => {},
                }
            },
            None => {},
        }
        proof {
            assert forall|t: ClassicalStations| station_position(t) == k implies t == s by {
                crate::stations::lemma_position_identifies(t, s);
            }
        }
        k = k + 1;
    }
    proof {
        assert forall|s: ClassicalStations| #[trigger] m@.contains_key(s) == urls_of_object(cache@).contains_key(s) by {
            assert(station_position(s) < STATION_COUNT);
        }
        assert(m@ =~= urls_of_object(cache@));
    }
    m
}

/// The station addresses that a cache file gives. `file_text` is the file's
/// text, `None` where it could not be read; a file that is no JSON object of
/// strings gives no address, and so does an address that does not parse.
pub fn load(file_text: Option<&str>) -> (m: StationUrls)
    ensures
        m@ == loaded_urls(file_text.deep_view()),
{
    match file_text {
        Some(t) => match RawCache::from_json(t) {
            Some(c) => urls_from_object(&c),
            None => StationUrls::new(),
        },
        None => StationUrls::new(),
    }
}

/// The object that the cache file holds, before it is changed: empty where
/// there is no file (`file_text` is `None`), `None` where its text is no JSON
/// object of strings.
pub fn load_raw(file_text: Option<&str>) -> (r: Option<RawCache>)
    ensures
        match raw_object(file_text.deep_view()) {
            Some(o) => r matches Some(c) && c@ == o,
            None => r is None,
        },
{
    match file_text {
        Some(t) => RawCache::from_json(t),
        None => Some(RawCache::new()),
    }
}

/// Records the address of a station under the station's name.
pub fn save(cache: &mut RawCache, station: Station, url: &StreamUrl)
    ensures
        final(cache)@ == old(cache)@.insert(station.name@, url@),
        reads_back(url@),
{
    let name: String = station.name.to_owned();
    let text: String = url.as_str().to_owned();
    cache.insert(name, text);
}

/// Drops the entry of a station; tells whether there was one, that is,
/// whether the file has to be written again.
pub fn invalidate(cache: &mut RawCache, station: Station) -> (changed: bool)
    ensures
        changed == old(cache)@.contains_key(station.name@),
        final(cache)@ == old(cache)@.remove(station.name@),
{
    cache.remove(station.name)
}


/// Recording a station's address under its name changes what the object
/// gives for that station alone: the station then maps to its address as the
/// URL parser reads it.
pub proof fn lemma_save_changes_one_station(object: Map<Seq<char>, Seq<char>>, s: ClassicalStations, url: Seq<char>)
    ensures
        urls_of_object(object.insert(station_record(s).name@, url)).contains_key(s) == parsed_url(url) is Some,
        parsed_url(url) matches Some(p) ==> urls_of_object(object.insert(station_record(s).name@, url))[s] == p,
        forall|t: ClassicalStations| t != s ==> #[trigger] urls_of_object(object.insert(station_record(s).name@, url)).contains_key(t)
            == urls_of_object(object).contains_key(t),
        forall|t: ClassicalStations| t != s && #[trigger] urls_of_object(object).contains_key(t) ==>
            urls_of_object(object.insert(station_record(s).name@, url))[t] == urls_of_object(object)[t],
{
    assert forall|t: ClassicalStations| t != s implies
        stored_url(object.insert(station_record(s).name@, url), t) == stored_url(object, t) by {
        crate::stations::lemma_names_identify(s, t);
    }
}

/// Dropping a station's entry takes that station's address away and leaves
/// every other station's as it was.
pub proof fn lemma_invalidate_drops_one_station(object: Map<Seq<char>, Seq<char>>, s: ClassicalStations)
    ensures
        !urls_of_object(object.remove(station_record(s).name@)).contains_key(s),
        forall|t: ClassicalStations| t != s ==> #[trigger] urls_of_object(object.remove(station_record(s).name@)).contains_key(t)
            == urls_of_object(object).contains_key(t),
        forall|t: ClassicalStations| t != s && #[trigger] urls_of_object(object).contains_key(t) ==>
            urls_of_object(object.remove(station_record(s).name@))[t] == urls_of_object(object)[t],
{
    assert forall|t: ClassicalStations| t != s implies
        stored_url(object.remove(station_record(s).name@), t) == stored_url(object, t) by {
        crate::stations::lemma_names_identify(s, t);
    }
}

/// A cache file written after a station's address was recorded gives that
/// address back, as the URL parser reads it, when it is loaded; every other
/// station gets what the object gave before. For an address that the parser
/// made, as every `StreamUrl` is, that is the address itself.
pub proof fn lemma_saved_url_loads_back(
    object: Map<Seq<char>, Seq<char>>,
    s: ClassicalStations,
    url: Seq<char>,
    file: Seq<char>,
)
    requires
        json_object(file) matches Some(e) && entries_map(e) == object.insert(station_record(s).name@, url),
    ensures
        loaded_urls(Some(file)).contains_key(s) == parsed_url(url) is Some,
        parsed_url(url) matches Some(p) ==> loaded_urls(Some(file))[s] == p,
        reads_back(url) ==> loaded_urls(Some(file)).contains_key(s) && loaded_urls(Some(file))[s] == url,
        forall|t: ClassicalStations| t != s ==> #[trigger] loaded_urls(Some(file)).contains_key(t)
            == urls_of_object(object).contains_key(t),
        forall|t: ClassicalStations| t != s && #[trigger] urls_of_object(object).contains_key(t) ==>
            loaded_urls(Some(file))[t] == urls_of_object(object)[t],
{
    lemma_save_changes_one_station(object, s, url);
}

} // verus!
