use echotune::catalog::{load_and_filter, normalize_station, selected_code, Catalog, ParseError, SLOW_SEARCH_THRESHOLD};
use echotune::station::{Country, Station};

fn station(name: &str, country: &str, code: &str) -> Station {
    Station {
        change_id: "c-1".to_string(),
        station_id: format!("id-{}-{}", name.trim(), code),
        name: name.to_string(),
        url: format!("http://stream.example/{}", code),
        resolved_url: String::new(),
        homepage: String::new(),
        favicon: String::new(),
        tags: "news,talk".to_string(),
        country: country.to_string(),
        country_code: code.to_string(),
        state: String::new(),
        language: "english".to_string(),
        language_codes: "en".to_string(),
        votes: 12,
        last_change_time: String::new(),
        last_change_time_iso8601: String::new(),
        codec: "MP3".to_string(),
        bitrate: 128,
        hls: 0,
        last_check_ok: 1,
        last_check_time: String::new(),
        last_check_time_iso8601: String::new(),
        last_local_check_time: None,
        last_local_check_time_iso8601: Some("2023-01-01T00:00:00Z".to_string()),
        last_check_ok_time: String::new(),
        last_check_ok_time_iso8601: None,
        click_timestamp: String::new(),
        click_timestamp_iso8601: String::new(),
        click_count: 3,
        click_trend: -1,
        ssl_error_flag: 0,
        latitude_bits: Some(48.25f64.to_bits()),
        longitude_bits: None,
        has_extended_info: false,
    }
}

fn names(catalog: &Catalog) -> Vec<String> {
    catalog.stations().iter().map(|s| s.name.clone()).collect()
}

#[test]
fn blank_names_become_unknown() {
    for blank in ["", " ", "\t\n", "  \u{a0}\u{3000} "] {
        let out = normalize_station(station(blank, "France", "FR"));
        assert_eq!(out.name, "Unknown", "{:?}", blank);
    }
}

#[test]
fn names_with_content_are_left_untouched() {
    for name in ["Radio One", "  padded  ", "x", " Unknown", "\tTabbed"] {
        let before = station(name, "France", "FR");
        let after = normalize_station(before.clone());
        assert_eq!(after, before);
    }
}

#[test]
fn normalizing_changes_nothing_but_the_name() {
    let before = station("   ", "Germany", "DE");
    let after = normalize_station(before.clone());
    let mut expected = before;
    expected.name = "Unknown".to_string();
    assert_eq!(after, expected);
}

#[test]
fn catalog_normalizes_in_order() {
    let catalog = Catalog::new(vec![
        station("A", "France", "FR"),
        station("", "Germany", "DE"),
        station(" B ", "France", "FR"),
        station("  ", "", ""),
    ]);
    assert_eq!(names(&catalog), vec!["A", "Unknown", " B ", "Unknown"]);
    assert_eq!(catalog.len(), 4);
    assert!(!catalog.is_empty());
    assert!(Catalog::new(Vec::new()).is_empty());
    assert!(catalog.with_country("ES").is_empty());
}

#[test]
fn filter_keeps_matching_stations_in_order() {
    let catalog = Catalog::new(vec![
        station("A", "France", "FR"),
        station("B", "Germany", "DE"),
        station("C", "France", "FR"),
        station("D", "Spain", "ES"),
        station("E", "France", "FR"),
    ]);
    let french = catalog.with_country("FR");
    assert_eq!(names(&french), vec!["A", "C", "E"]);
    assert!(french.stations().iter().all(|s| s.country_code == "FR"));
}

#[test]
fn filter_is_case_sensitive_and_exact() {
    let records = vec![
        station("A", "France", "FR"),
        station("B", "France", "fr"),
        station("C", "France", "FR "),
        station("D", "France", "F"),
    ];
    assert_eq!(names(&Catalog::new(records.clone()).with_country("FR")), vec!["A"]);
    assert_eq!(names(&Catalog::new(records.clone()).with_country("fr")), vec!["B"]);
    assert!(names(&Catalog::new(records).with_country("R")).is_empty());
}

#[test]
fn filter_keeps_duplicates_as_they_stand() {
    let twin = station("Twin", "Italy", "IT");
    let catalog = Catalog::new(vec![twin.clone(), station("Other", "Spain", "ES"), twin.clone()]);
    let kept = catalog.with_country("IT").into_stations();
    assert_eq!(kept, vec![twin.clone(), twin]);
}

#[test]
fn filtering_twice_by_one_code_changes_nothing_more() {
    let records = vec![station("A", "France", "FR"), station("B", "Germany", "DE")];
    let once = Catalog::new(records.clone()).with_country("DE").into_stations();
    let twice = Catalog::new(records).with_country("DE").with_country("DE").into_stations();
    assert_eq!(once, twice);
}

#[test]
fn a_stage_without_key_is_skipped() {
    let catalog = Catalog::new(vec![station("A", "France", "FR"), station("B", "", "")]);
    assert_eq!(names(&catalog.narrowed(None)), vec!["A", "B"]);
}

#[test]
fn the_empty_key_keeps_stations_without_country_code() {
    let catalog = Catalog::new(vec![
        station("A", "France", "FR"),
        station("B", "", ""),
        station("", "", ""),
    ]);
    assert_eq!(names(&catalog.narrowed(Some(""))), vec!["B", "Unknown"]);
}

#[test]
fn load_and_filter_runs_both_stages_in_order() {
    let records = vec![
        station("A", "France", "FR"),
        station("", "France", "FR"),
        station("C", "Germany", "DE"),
    ];
    let all = load_and_filter(Ok(records.clone()), None, None).unwrap();
    assert_eq!(names(&all), vec!["A", "Unknown", "C"]);
    let french = load_and_filter(Ok(records.clone()), Some("FR"), None).unwrap();
    assert_eq!(names(&french), vec!["A", "Unknown"]);
    let selected = load_and_filter(Ok(records.clone()), None, Some("DE")).unwrap();
    assert_eq!(names(&selected), vec!["C"]);
    let both = load_and_filter(Ok(records.clone()), Some("FR"), Some("FR")).unwrap();
    assert_eq!(names(&both), vec!["A", "Unknown"]);
    let disjoint = load_and_filter(Ok(records), Some("FR"), Some("DE")).unwrap();
    assert!(disjoint.stations().is_empty());
}

#[test]
fn load_and_filter_hands_failures_back() {
    let missing = || ParseError::Unreadable("No such file or directory (os error 2)".to_string());
    match load_and_filter(Err(missing()), Some("FR"), None) {
        Err(e) => assert_eq!(e, missing()),
        Ok(_) => panic!("a missing cache file is an error"),
    }
    let malformed = || ParseError::Malformed("expected value at line 1 column 1".to_string());
    match load_and_filter(Err(malformed()), None, Some("DE")) {
        Err(e) => assert_eq!(e, malformed()),
        Ok(_) => panic!("a malformed cache file is an error"),
    }
}

#[test]
fn parse_error_messages() {
    assert_eq!(
        ParseError::Unreadable("gone".to_string()).message(),
        "cannot read the station cache: gone"
    );
    assert_eq!(
        ParseError::Malformed("bad".to_string()).message(),
        "the station cache is malformed: bad"
    );
}

#[test]
fn slow_search_threshold() {
    assert_eq!(SLOW_SEARCH_THRESHOLD, 100);
    let many = |n: usize| Catalog::new((0..n).map(|i| station(&format!("S{}", i), "France", "FR")).collect());
    assert!(!many(0).is_slow_to_search());
    assert!(!many(100).is_slow_to_search());
    assert!(many(101).is_slow_to_search());
    assert_eq!(many(250).with_country("FR").len(), 250);
}

#[test]
fn selection_gives_the_code_of_the_country() {
    let countries = vec![
        Country { name: "France".to_string(), iso_code: "FR".to_string(), station_count: 2500 },
        Country { name: "Germany".to_string(), iso_code: "DE".to_string(), station_count: 5000 },
    ];
    assert_eq!(selected_code(&countries, 0), Some("FR".to_string()));
    assert_eq!(selected_code(&countries, 1), Some("DE".to_string()));
    assert_eq!(selected_code(&countries, 2), None);
    assert_eq!(selected_code(&Vec::new(), 0), None);
}

#[test]
fn copies_hold_what_the_records_hold() {
    let s = station("Jazz FM", "France", "FR");
    assert_eq!(s.clone(), s);
    let c = Country { name: "France".to_string(), iso_code: "FR".to_string(), station_count: 7 };
    assert_eq!(c.clone(), c);
}

#[test]
fn labels() {
    assert_eq!(station("  Jazz FM \n", "France", "FR").label(), "Jazz FM [France]");
    assert_eq!(station("", "", "").label(), " []");
    assert_eq!(normalize_station(station("", "Spain", "ES")).label(), "Unknown [Spain]");
    let c = Country { name: "France".to_string(), iso_code: "FR".to_string(), station_count: 2500 };
    assert_eq!(c.label(), "[FR] France (2500 total stations)");
    let d = Country { name: String::new(), iso_code: String::new(), station_count: -3 };
    assert_eq!(d.label(), "[]  (-3 total stations)");
}
