//! The records of the two datasets: stations and countries.

use crate::text::{decimal, render_decimal, trim, trimmed};
use vstd::prelude::*;
use vstd::string::StringExecFns;

verus! {

/// One radio station, with the fields of the stations dataset.
///
/// The verified code never computes with the coordinates, so they are carried
/// as raw bit patterns.
#[derive(Debug, PartialEq, Eq)]
pub struct Station {
    /// Identifier of the last change made to the record.
    pub change_id: String,
    /// Identifier of the station.
    pub station_id: String,
    /// Display name; blank until the catalog has normalized it.
    pub name: String,
    /// Stream address as the station registered it.
    pub url: String,
    /// Stream address after redirects were followed.
    pub resolved_url: String,
    pub homepage: String,
    pub favicon: String,
    pub tags: String,
    /// Country name in full.
    pub country: String,
    /// Short country code, the key that joins a station to a `Country`.
    pub country_code: String,
    pub state: String,
    pub language: String,
    pub language_codes: String,
    pub votes: i32,
    pub last_change_time: String,
    pub last_change_time_iso8601: String,
    pub codec: String,
    pub bitrate: i32,
    pub hls: i8,
    /// Non-zero when the last check reached the stream.
    pub last_check_ok: i8,
    pub last_check_time: String,
    pub last_check_time_iso8601: String,
    pub last_local_check_time: Option<String>,
    pub last_local_check_time_iso8601: Option<String>,
    pub last_check_ok_time: String,
    pub last_check_ok_time_iso8601: Option<String>,
    pub click_timestamp: String,
    pub click_timestamp_iso8601: String,
    pub click_count: i32,
    pub click_trend: i32,
    /// Non-zero when the last check met a TLS error.
    pub ssl_error_flag: i32,
    /// Latitude as the bit pattern of a 64-bit IEEE 754 number.
    pub latitude_bits: Option<u64>,
    /// Longitude as the bit pattern of a 64-bit IEEE 754 number.
    pub longitude_bits: Option<u64>,
    pub has_extended_info: bool,
}

impl Clone for Station {
    /// The copy holds what the station holds, field by field.
    fn clone(&self) -> (r: Station)
        ensures
            r == *self,
    {
        Station {
            change_id: self.change_id.clone(),
            station_id: self.station_id.clone(),
            name: self.name.clone(),
            url: self.url.clone(),
            resolved_url: self.resolved_url.clone(),
            homepage: self.homepage.clone(),
            favicon: self.favicon.clone(),
            tags: self.tags.clone(),
            country: self.country.clone(),
            country_code: self.country_code.clone(),
            state: self.state.clone(),
            language: self.language.clone(),
            language_codes: self.language_codes.clone(),
            votes: self.votes,
            last_change_time: self.last_change_time.clone(),
            last_change_time_iso8601: self.last_change_time_iso8601.clone(),
            codec: self.codec.clone(),
            bitrate: self.bitrate,
            hls: self.hls,
            last_check_ok: self.last_check_ok,
            last_check_time: self.last_check_time.clone(),
            last_check_time_iso8601: self.last_check_time_iso8601.clone(),
            last_local_check_time: self.last_local_check_time.clone(),
            last_local_check_time_iso8601: self.last_local_check_time_iso8601.clone(),
            last_check_ok_time: self.last_check_ok_time.clone(),
            last_check_ok_time_iso8601: self.last_check_ok_time_iso8601.clone(),
            click_timestamp: self.click_timestamp.clone(),
            click_timestamp_iso8601: self.click_timestamp_iso8601.clone(),
            click_count: self.click_count,
            click_trend: self.click_trend,
            ssl_error_flag: self.ssl_error_flag,
            latitude_bits: self.latitude_bits,
            longitude_bits: self.longitude_bits,
            has_extended_info: self.has_extended_info,
        }
    }
}

/// What a `Station` holds, as mathematical values.
pub struct StationView {
    pub change_id: Seq<char>,
    pub station_id: Seq<char>,
    pub name: Seq<char>,
    pub url: Seq<char>,
    pub resolved_url: Seq<char>,
    pub homepage: Seq<char>,
    pub favicon: Seq<char>,
    pub tags: Seq<char>,
    pub country: Seq<char>,
    pub country_code: Seq<char>,
    pub state: Seq<char>,
    pub language: Seq<char>,
    pub language_codes: Seq<char>,
    pub votes: int,
    pub last_change_time: Seq<char>,
    pub last_change_time_iso8601: Seq<char>,
    pub codec: Seq<char>,
    pub bitrate: int,
    pub hls: int,
    pub last_check_ok: int,
    pub last_check_time: Seq<char>,
    pub last_check_time_iso8601: Seq<char>,
    pub last_local_check_time: Option<Seq<char>>,
    pub last_local_check_time_iso8601: Option<Seq<char>>,
    pub last_check_ok_time: Seq<char>,
    pub last_check_ok_time_iso8601: Option<Seq<char>>,
    pub click_timestamp: Seq<char>,
    pub click_timestamp_iso8601: Seq<char>,
    pub click_count: int,
    pub click_trend: int,
    pub ssl_error_flag: int,
    pub latitude_bits: Option<u64>,
    pub longitude_bits: Option<u64>,
    pub has_extended_info: bool,
}

/// The text of an optional string.
pub open spec fn optional_text(s: Option<String>) -> Option<Seq<char>> {
    match s {
        Some(t) => Some(t@),
        None => None,
    }
}

impl View for Station {
    type V = StationView;

    open spec fn view(&self) -> StationView {
        StationView {
            change_id: self.change_id@,
            station_id: self.station_id@,
            name: self.name@,
            url: self.url@,
            resolved_url: self.resolved_url@,
            homepage: self.homepage@,
            favicon: self.favicon@,
            tags: self.tags@,
            country: self.country@,
            country_code: self.country_code@,
            state: self.state@,
            language: self.language@,
            language_codes: self.language_codes@,
            votes: self.votes as int,
            last_change_time: self.last_change_time@,
            last_change_time_iso8601: self.last_change_time_iso8601@,
            codec: self.codec@,
            bitrate: self.bitrate as int,
            hls: self.hls as int,
            last_check_ok: self.last_check_ok as int,
            last_check_time: self.last_check_time@,
            last_check_time_iso8601: self.last_check_time_iso8601@,
            last_local_check_time: optional_text(self.last_local_check_time),
            last_local_check_time_iso8601: optional_text(self.last_local_check_time_iso8601),
            last_check_ok_time: self.last_check_ok_time@,
            last_check_ok_time_iso8601: optional_text(self.last_check_ok_time_iso8601),
            click_timestamp: self.click_timestamp@,
            click_timestamp_iso8601: self.click_timestamp_iso8601@,
            click_count: self.click_count as int,
            click_trend: self.click_trend as int,
            ssl_error_flag: self.ssl_error_flag as int,
            latitude_bits: self.latitude_bits,
            longitude_bits: self.longitude_bits,
            has_extended_info: self.has_extended_info,
        }
    }
}

/// The views of a sequence of stations, in the same order.
pub open spec fn station_views(stations: Seq<Station>) -> Seq<StationView> {
    stations.map_values(|s: Station| s@)
}

/// The line that stands for a station in a list: its name without the
/// whitespace at its ends, then its country in square brackets.
pub open spec fn station_label(s: StationView) -> Seq<char> {
    trimmed(s.name) + " ["@ + s.country + "]"@
}

impl Station {
    /// Returns the line that stands for this station in a list.
    pub fn label(&self) -> (r: String)
        ensures
            r@ == station_label(self@),
    {
        let mut out = trim(self.name.as_str());
        out.append(" [");
        out.append(self.country.as_str());
        out.append("]");
        out
    }
}

/// One country of the countries dataset.
#[derive(Debug, PartialEq, Eq)]
pub struct Country {
    /// Country name in full.
    pub name: String,
    /// Short code that identifies the country; stations are filtered by it.
    pub iso_code: String,
    /// How many stations the dataset lists for the country.
    pub station_count: i32,
}

impl Clone for Country {
    /// The copy holds what the country holds, field by field.
    fn clone(&self) -> (r: Country)
        ensures
            r == *self,
    {
        Country {
            name: self.name.clone(),
            iso_code: self.iso_code.clone(),
            station_count: self.station_count,
        }
    }
}

/// What a `Country` holds, as mathematical values.
pub struct CountryView {
    pub name: Seq<char>,
    pub iso_code: Seq<char>,
    pub station_count: int,
}

impl View for Country {
    type V = CountryView;

    open spec fn view(&self) -> CountryView {
        CountryView {
            name: self.name@,
            iso_code: self.iso_code@,
            station_count: self.station_count as int,
        }
    }
}

/// The line that stands for a country in a list: its code in square
/// brackets, its name, and the number of its stations.
pub open spec fn country_label(c: CountryView) -> Seq<char> {
    "["@ + c.iso_code + "] "@ + c.name + " ("@ + decimal(c.station_count) + " total stations)"@
}

impl Country {
    /// Returns the line that stands for this country in a list.
    pub fn label(&self) -> (r: String)
        ensures
            r@ == country_label(self@),
    {
        let mut out = String::new();
        out.append("[");
        out.append(self.iso_code.as_str());
        out.append("] ");
        out.append(self.name.as_str());
        out.append(" (");
        let count = render_decimal(self.station_count as i64);
        out.append(count.as_str());
        out.append(" total stations)");
        assert(out@ =~= country_label(self@));
        out
    }
}

} // verus!
