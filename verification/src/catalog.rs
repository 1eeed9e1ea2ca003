//! The catalog: the stations of the dataset, normalized once and then narrowed
//! by country.

use crate::station::{station_views, Country, Station, StationView};
use crate::text::{is_blank, is_whitespace, text_is_blank};
use vstd::prelude::*;
use vstd::string::StringExecFns;

verus! {

/// From this many stations on, searching the list interactively is slow.
pub const SLOW_SEARCH_THRESHOLD: usize = 100;

/// The name given to a station whose own name is blank.
pub open spec fn unknown_name() -> Seq<char> {
    "Unknown"@
}

/// A blank name becomes the name for unknown stations; any other name stays
/// as it is, whitespace at its ends included.
pub open spec fn normalized_name(name: Seq<char>) -> Seq<char> {
    if is_blank(name) {
        unknown_name()
    } else {
        name
    }
}

/// A station with its name normalized and every other field unchanged.
pub open spec fn normalized(s: StationView) -> StationView {
    StationView { name: normalized_name(s.name), ..s }
}

/// Every station normalized, in the same order.
pub open spec fn normalized_all(stations: Seq<StationView>) -> Seq<StationView> {
    stations.map_values(|s: StationView| normalized(s))
}

/// No station has a blank name.
pub open spec fn names_present(stations: Seq<StationView>) -> bool {
    forall|i: int| 0 <= i < stations.len() ==> !is_blank(#[trigger] stations[i].name)
}

/// The stations whose country code is exactly `code`, in their order.
pub open spec fn from_country(stations: Seq<StationView>, code: Seq<char>) -> Seq<StationView> {
    stations.filter(|s: StationView| s.country_code == code)
}

/// One stage of the filter: with a key, the stations of that country; without
/// one, the stage is skipped and every station stays.
pub open spec fn narrowed(stations: Seq<StationView>, key: Option<Seq<char>>) -> Seq<StationView> {
    match key {
        Some(code) => from_country(stations, code),
        None => stations,
    }
}

/// What loading hands back: the records normalized, then narrowed by the
/// country code that was asked for, then by the country that was selected.
pub open spec fn shortlist(
    records: Seq<StationView>,
    country_code: Option<Seq<char>>,
    selection: Option<Seq<char>>,
) -> Seq<StationView> {
    narrowed(narrowed(normalized_all(records), country_code), selection)
}

/// The text of an optional string slice.
pub open spec fn optional_key(key: Option<&str>) -> Option<Seq<char>> {
    match key {
        Some(code) => Some(code@),
        None => None,
    }
}

/// After normalization no name is blank, and normalizing again changes nothing.
pub proof fn lemma_normalized_name_is_present(name: Seq<char>)
    ensures
        !is_blank(normalized_name(name)),
        normalized_name(name).len() > 0,
        normalized_name(normalized_name(name)) == normalized_name(name),
{
    reveal_strlit("Unknown");
    assert(!is_whitespace(unknown_name()[0]));
    if !is_blank(name) {
        assert(name.len() > 0);
    }
}

/// Filtering by country goes station by station: the last station is kept
/// exactly when its code matches.
pub proof fn lemma_from_country_push(stations: Seq<StationView>, last: StationView, code: Seq<char>)
    ensures
        from_country(stations.push(last), code) == if last.country_code == code {
            from_country(stations, code).push(last)
        } else {
            from_country(stations, code)
        },
{
    reveal(Seq::filter);
    assert(stations.push(last).drop_last() =~= stations);
}

/// The positions of the stations whose country code is `code`, ascending.
pub open spec fn positions_from_country(stations: Seq<StationView>, code: Seq<char>) -> Seq<int>
    decreases stations.len(),
{
    if stations.len() == 0 {
        Seq::empty()
    } else if stations.last().country_code == code {
        positions_from_country(stations.drop_last(), code).push(stations.len() - 1)
    } else {
        positions_from_country(stations.drop_last(), code)
    }
}

/// `kept` is what is taken from `stations` at the positions `at`: one station
/// for each position, the positions ascending, so that nothing is taken twice
/// and nothing changes places.
pub open spec fn is_selection(
    stations: Seq<StationView>,
    kept: Seq<StationView>,
    at: Seq<int>,
) -> bool {
    &&& at.len() == kept.len()
    &&& forall|k: int|
        0 <= k < at.len() ==> 0 <= #[trigger] at[k] < stations.len() && kept[k] == stations[at[k]]
    &&& forall|k: int, l: int| 0 <= k < l < at.len() ==> #[trigger] at[k] < #[trigger] at[l]
}

/// Filtering by a country code selects: every station kept has that code,
/// every station with that code is kept, and the stations kept stand in the
/// order in which they stood before, each taken from a position of its own.
pub proof fn lemma_from_country_selects(stations: Seq<StationView>, code: Seq<char>)
    ensures
        is_selection(
            stations,
            from_country(stations, code),
            positions_from_country(stations, code),
        ),
        forall|k: int|
            0 <= k < from_country(stations, code).len() ==> (#[trigger] from_country(
                stations,
                code,
            )[k]).country_code == code,
        forall|i: int|
            0 <= i < stations.len() ==> ((#[trigger] stations[i]).country_code == code
                <==> positions_from_country(stations, code).contains(i)),
    decreases stations.len(),
{
    reveal(Seq::filter);
    let at = positions_from_country(stations, code);
    if stations.len() > 0 {
        let front = stations.drop_last();
        let front_at = positions_from_country(front, code);
        lemma_from_country_selects(front, code);
        assert(front.push(stations.last()) =~= stations);
        lemma_from_country_push(front, stations.last(), code);
        assert forall|i: int| 0 <= i < stations.len() implies ((#[trigger] stations[i]).country_code
            == code <==> at.contains(i)) by {
            if i < front.len() {
                assert(stations[i] == front[i]);
                if front_at.contains(i) {
                    let k = choose|k: int| 0 <= k < front_at.len() && front_at[k] == i;
                    assert(at[k] == i);
                }
                if at.contains(i) {
                    let k = choose|k: int| 0 <= k < at.len() && at[k] == i;
                    assert(front_at[k] == i);
                }
            } else {
                if stations.last().country_code == code {
                    assert(at[at.len() - 1] == i);
                } else if at.contains(i) {
                    let k = choose|k: int| 0 <= k < at.len() && at[k] == i;
                    assert(front_at[k] < front.len());
                }
            }
        }
    }
}

/// Returns `station` with a blank name replaced.
pub fn normalize_station(station: Station) -> (r: Station)
    ensures
        r@ == normalized(station@),
{
    if text_is_blank(station.name.as_str()) {
        let mut named = station;
        named.name = "Unknown".to_owned();
        named
    } else {
        station
    }
}

/// An ordered list of stations, none of which has a blank name.
pub struct Catalog {
    stations: Vec<Station>,
}

impl View for Catalog {
    type V = Seq<StationView>;

    closed spec fn view(&self) -> Seq<StationView> {
        station_views(self.stations@)
    }
}

impl Catalog {
    #[verifier::type_invariant]
    spec fn names_are_present(self) -> bool {
        names_present(station_views(self.stations@))
    }

    /// Builds the catalog of `records`: the same stations in the same order,
    /// each with its name normalized.
    pub fn new(records: Vec<Station>) -> (r: Catalog)
        ensures
            r@ == normalized_all(station_views(records@)),
    {
        let mut stations: Vec<Station> = Vec::new();
        for station in it: records
            invariant
                it.seq() == records@,
                stations.len() == it.index(),
                forall|j: int|
                    0 <= j < stations.len() ==> (#[trigger] stations@[j])@ == normalized(
                        records@[j]@,
                    ),
        {
            stations.push(normalize_station(station));
        }
        proof {
            assert(station_views(stations@) =~= normalized_all(station_views(records@)));
            assert forall|j: int| 0 <= j < stations.len() implies !is_blank(
                #[trigger] station_views(stations@)[j].name,
            ) by {
                lemma_normalized_name_is_present(records@[j]@.name);
            }
        }
        Catalog { stations }
    }

    /// Keeps the stations whose country code is exactly `code`, letter case
    /// included, in their order.
    pub fn with_country(self, code: &str) -> (r: Catalog)
        ensures
            r@ == from_country(self@, code@),
    {
        proof {
            use_type_invariant(&self);
        }
        let ghost all = station_views(self.stations@);
        let key = code.to_owned();
        let mut kept: Vec<Station> = Vec::new();
        for station in it: self.stations
            invariant
                key@ == code@,
                it.seq() == self.stations@,
                all == station_views(self.stations@),
                names_present(all),
                names_present(station_views(kept@)),
                station_views(kept@) == from_country(all.take(it.index() as int), code@),
        {
            proof {
                let i = it.index() as int;
                assert(all.take(i + 1) =~= all.take(i).push(station@));
                lemma_from_country_push(all.take(i), station@, code@);
                let grown = station_views(kept@.push(station));
                assert(grown =~= station_views(kept@).push(station@));
                assert(!is_blank(all[i].name));
                assert forall|j: int| 0 <= j < grown.len() implies !is_blank(
                    #[trigger] grown[j].name,
                ) by {
                    if j < kept.len() {
                        assert(grown[j] == station_views(kept@)[j]);
                    }
                }
            }
            if station.country_code == key {
                kept.push(station);
            }
        }
        proof {
            assert(all.take(all.len() as int) =~= all);
        }
        Catalog { stations: kept }
    }

    /// Applies one stage of the filter: with a key, keeps the stations of
    /// that country; without one, keeps them all. The empty key is a key like
    /// any other: it keeps the stations whose country code is empty.
    pub fn narrowed(self, key: Option<&str>) -> (r: Catalog)
        ensures
            r@ == narrowed(self@, optional_key(key)),
    {
        match key {
            Some(code) => self.with_country(code),
            None => self,
        }
    }

    /// The number of stations.
    pub fn len(&self) -> (r: usize)
        ensures
            r == self@.len(),
    {
        self.stations.len()
    }

    /// Tells whether the catalog holds no station.
    pub fn is_empty(&self) -> (r: bool)
        ensures
            r == (self@.len() == 0),
    {
        self.stations.len() == 0
    }

    /// Tells whether the catalog holds so many stations that searching it
    /// interactively is slow; the catalog itself has no limit.
    pub fn is_slow_to_search(&self) -> (r: bool)
        ensures
            r == (self@.len() > SLOW_SEARCH_THRESHOLD),
    {
        self.stations.len() > SLOW_SEARCH_THRESHOLD
    }

    /// The stations, in order: none has a blank name.
    pub fn stations(&self) -> (r: &Vec<Station>)
        ensures
            station_views(r@) == self@,
            names_present(self@),
    {
        proof {
            use_type_invariant(self);
        }
        &self.stations
    }

    /// Hands the stations out, in order.
    pub fn into_stations(self) -> (r: Vec<Station>)
        ensures
            station_views(r@) == self@,
            names_present(self@),
    {
        proof {
            use_type_invariant(&self);
        }
        self.stations
    }
}

/// Why the stations could not be loaded. Each case carries the text of the
/// failure as the caller met it.
#[derive(Debug, PartialEq, Eq)]
pub enum ParseError {
    /// The cache file is missing or could not be read.
    Unreadable(String),
    /// The cache file does not hold records of the shape of a station.
    Malformed(String),
}

/// The line that reports a loading failure to the user.
pub open spec fn parse_error_message(e: ParseError) -> Seq<char> {
    match e {
        ParseError::Unreadable(detail) => "cannot read the station cache: "@ + detail@,
        ParseError::Malformed(detail) => "the station cache is malformed: "@ + detail@,
    }
}

impl ParseError {
    /// Returns the line that reports this failure to the user.
    pub fn message(&self) -> (r: String)
        ensures
            r@ == parse_error_message(*self),
    {
        match self {
            ParseError::Unreadable(detail) => {
                let mut out = "cannot read the station cache: ".to_owned();
                out.append(detail.as_str());
                out
            },
            ParseError::Malformed(detail) => {
                let mut out = "the station cache is malformed: ".to_owned();
                out.append(detail.as_str());
                out
            },
        }
    }
}

/// Turns what was read from the cache into the list to choose from.
///
/// A failure to read or parse is handed back as it came. Records are
/// normalized once, before any filtering; then the list is narrowed by
/// `country_code` and after that by `selection`, each stage skipped where its
/// key is `None`.
pub fn load_and_filter(
    loaded: Result<Vec<Station>, ParseError>,
    country_code: Option<&str>,
    selection: Option<&str>,
) -> (r: Result<Catalog, ParseError>)
    ensures
        match loaded {
            Ok(records) => (r matches Ok(catalog) && catalog@ == shortlist(
                station_views(records@),
                optional_key(country_code),
                optional_key(selection),
            )),
            Err(e) => (r matches Err(f) && f == e),
        },
{
    match loaded {
        Ok(records) => Ok(Catalog::new(records).narrowed(country_code).narrowed(selection)),
        Err(e) => Err(e),
    }
}

/// The code of the country at position `index` of `countries`, the key of
/// the second filter stage; `None` where the list has no such position.
pub fn selected_code(countries: &Vec<Country>, index: usize) -> (r: Option<String>)
    ensures
        match r {
            Some(code) => index < countries.len() && code@ == countries@[index as int]@.iso_code,
            None => index >= countries.len(),
        },
{
    if index < countries.len() {
        Some(countries[index].iso_code.clone())
    } else {
        None
    }
}

} // verus!
