use echotune::cache::{
    status_is_success, CacheSync, DatasetKind, EnsureAction, EnsureEvent, EnsureState, Ensured,
    FetchError, SyncAction, SyncEvent,
};

fn run(events: Vec<EnsureEvent>) -> (EnsureState, usize) {
    let mut state = EnsureState::start();
    let mut fetches = 0;
    for event in events {
        if state.pending() == Some(EnsureAction::Fetch) {
            fetches += 1;
        }
        state = state.on_event(event);
    }
    (state, fetches)
}

#[test]
fn datasets() {
    assert_eq!(DatasetKind::Stations.name(), "stations");
    assert_eq!(DatasetKind::Countries.name(), "countries");
    assert_eq!(
        DatasetKind::Stations.remote_url(),
        "http://all.api.radio-browser.info/json/stations"
    );
    assert_eq!(
        DatasetKind::Countries.remote_url(),
        "http://all.api.radio-browser.info/json/countries"
    );
    assert_eq!(DatasetKind::Stations.file_name(), "stations.db");
    assert_eq!(DatasetKind::Countries.file_name(), "countries.json");
}

#[test]
fn local_paths() {
    assert_eq!(
        DatasetKind::Stations.local_path("/home/alice/.local/share/echotune"),
        "/home/alice/.local/share/echotune/stations.db"
    );
    assert_eq!(DatasetKind::Countries.local_path("data"), "data/countries.json");
    assert_eq!(DatasetKind::Countries.local_path(""), "/countries.json");
    assert_eq!(DatasetKind::Stations.partial_path("data"), "data/stations.db.part");
    assert_eq!(DatasetKind::Countries.partial_path("/x/y"), "/x/y/countries.json.part");
}

#[test]
fn success_is_any_2xx_status() {
    assert!(!status_is_success(0));
    assert!(!status_is_success(199));
    assert!(status_is_success(200));
    assert!(status_is_success(204));
    assert!(status_is_success(299));
    assert!(!status_is_success(300));
    assert!(!status_is_success(404));
    assert!(!status_is_success(500));
    assert!(!status_is_success(u16::MAX));
}

#[test]
fn success_agrees_with_the_http_client() {
    for code in 100u16..=999 {
        let status = reqwest::StatusCode::from_u16(code).unwrap();
        assert_eq!(status_is_success(code), status.is_success(), "{}", code);
    }
}

#[test]
fn an_existing_file_ends_the_work_at_once() {
    let state = EnsureState::start();
    assert_eq!(state.pending(), Some(EnsureAction::Probe));
    let state = state.on_event(EnsureEvent::Probed { exists: true });
    assert_eq!(state, EnsureState::Done(Ok(Ensured::AlreadyCached)));
    assert_eq!(state.pending(), None);
}

#[test]
fn a_missing_file_is_fetched_and_stored() {
    let state = EnsureState::start().on_event(EnsureEvent::Probed { exists: false });
    assert_eq!(state, EnsureState::Fetching);
    assert_eq!(state.pending(), Some(EnsureAction::Fetch));
    let state = state.on_event(EnsureEvent::Responded { status: 200 });
    assert_eq!(state, EnsureState::Storing);
    assert_eq!(state.pending(), Some(EnsureAction::Store));
    let state = state.on_event(EnsureEvent::Stored);
    assert_eq!(state, EnsureState::Done(Ok(Ensured::Stored)));
}

#[test]
fn a_refusal_leaves_no_file_and_is_no_error() {
    for status in [100u16, 301, 404, 500, 503] {
        let (state, fetches) = run(vec![
            EnsureEvent::Probed { exists: false },
            EnsureEvent::Responded { status },
        ]);
        assert_eq!(state, EnsureState::Done(Ok(Ensured::NoData)));
        assert_eq!(state.pending(), None);
        assert_eq!(fetches, 1);
    }
}

#[test]
fn each_failure_gives_its_error() {
    let (state, _) = run(vec![
        EnsureEvent::Probed { exists: false },
        EnsureEvent::TransportFailed("connection refused".to_string()),
    ]);
    assert_eq!(
        state,
        EnsureState::Done(Err(FetchError::Transport("connection refused".to_string())))
    );
    let (state, _) = run(vec![
        EnsureEvent::Probed { exists: false },
        EnsureEvent::Responded { status: 200 },
        EnsureEvent::TransportFailed("body cut short".to_string()),
    ]);
    assert_eq!(
        state,
        EnsureState::Done(Err(FetchError::Transport("body cut short".to_string())))
    );
    let (state, _) = run(vec![
        EnsureEvent::Probed { exists: false },
        EnsureEvent::Responded { status: 200 },
        EnsureEvent::StoreFailed("disk full".to_string()),
    ]);
    assert_eq!(state, EnsureState::Done(Err(FetchError::Storage("disk full".to_string()))));
}

#[test]
fn fetch_error_messages() {
    assert_eq!(
        FetchError::Directory("denied".to_string()).message(),
        "cannot create the data directory: denied"
    );
    assert_eq!(
        FetchError::Transport("timeout".to_string()).message(),
        "cannot fetch the dataset: timeout"
    );
    assert_eq!(
        FetchError::Storage("disk full".to_string()).message(),
        "cannot write the dataset: disk full"
    );
}

#[test]
fn events_out_of_turn_change_nothing() {
    assert_eq!(EnsureState::Probing.on_event(EnsureEvent::Stored), EnsureState::Probing);
    assert_eq!(
        EnsureState::Probing.on_event(EnsureEvent::Responded { status: 200 }),
        EnsureState::Probing
    );
    assert_eq!(
        EnsureState::Fetching.on_event(EnsureEvent::Probed { exists: true }),
        EnsureState::Fetching
    );
    assert_eq!(
        EnsureState::Fetching.on_event(EnsureEvent::StoreFailed("x".to_string())),
        EnsureState::Fetching
    );
    assert_eq!(
        EnsureState::Storing.on_event(EnsureEvent::Responded { status: 200 }),
        EnsureState::Storing
    );
    let done = EnsureState::Done(Ok(Ensured::Stored));
    assert_eq!(
        done.on_event(EnsureEvent::Probed { exists: false }),
        EnsureState::Done(Ok(Ensured::Stored))
    );
}

/// Ensures one dataset against a file system of one file and a remote side
/// that always answers with `status`; returns how many requests were sent.
fn ensure_against(file_exists: &mut bool, status: u16) -> (EnsureState, usize) {
    let mut state = EnsureState::start();
    let mut fetches = 0;
    while let Some(action) = state.pending() {
        let event = match action {
            EnsureAction::Probe => EnsureEvent::Probed { exists: *file_exists },
            EnsureAction::Fetch => {
                fetches += 1;
                EnsureEvent::Responded { status }
            },
            EnsureAction::Store => {
                *file_exists = true;
                EnsureEvent::Stored
            },
        };
        state = state.on_event(event);
    }
    (state, fetches)
}

#[test]
fn ensuring_twice_fetches_once() {
    let mut file_exists = false;
    let (first, first_fetches) = ensure_against(&mut file_exists, 200);
    assert_eq!(first, EnsureState::Done(Ok(Ensured::Stored)));
    assert_eq!(first_fetches, 1);
    assert!(file_exists);
    let (second, second_fetches) = ensure_against(&mut file_exists, 200);
    assert_eq!(second, EnsureState::Done(Ok(Ensured::AlreadyCached)));
    assert_eq!(second_fetches, 0);
    assert!(file_exists);
}

#[test]
fn a_refused_fetch_is_tried_again_next_time() {
    let mut file_exists = false;
    let (first, first_fetches) = ensure_against(&mut file_exists, 503);
    assert_eq!(first, EnsureState::Done(Ok(Ensured::NoData)));
    assert!(!file_exists);
    let (_, second_fetches) = ensure_against(&mut file_exists, 200);
    assert_eq!(first_fetches + second_fetches, 2);
    assert!(file_exists);
}

fn sync_run(events: Vec<SyncEvent>) -> (Vec<SyncAction>, CacheSync) {
    let mut sync = CacheSync::start();
    let mut actions = Vec::new();
    for event in events {
        actions.push(sync.pending().expect("the run is over"));
        sync = sync.on_event(event);
    }
    (actions, sync)
}

#[test]
fn sync_with_both_files_present() {
    let (actions, sync) = sync_run(vec![
        SyncEvent::DirectoryReady,
        SyncEvent::ClientReady,
        SyncEvent::Dataset(EnsureEvent::Probed { exists: true }),
        SyncEvent::Dataset(EnsureEvent::Probed { exists: true }),
    ]);
    assert_eq!(
        actions,
        vec![
            SyncAction::CreateDirectory,
            SyncAction::BuildClient,
            SyncAction::Dataset(DatasetKind::Stations, EnsureAction::Probe),
            SyncAction::Dataset(DatasetKind::Countries, EnsureAction::Probe),
        ]
    );
    assert_eq!(sync.pending(), None);
    assert_eq!(sync.outcome(), Some(Ok(())));
}

#[test]
fn sync_fetches_what_is_missing() {
    let (actions, sync) = sync_run(vec![
        SyncEvent::DirectoryReady,
        SyncEvent::ClientReady,
        SyncEvent::Dataset(EnsureEvent::Probed { exists: false }),
        SyncEvent::Dataset(EnsureEvent::Responded { status: 200 }),
        SyncEvent::Dataset(EnsureEvent::Stored),
        SyncEvent::Dataset(EnsureEvent::Probed { exists: false }),
        SyncEvent::Dataset(EnsureEvent::Responded { status: 404 }),
    ]);
    assert_eq!(
        actions,
        vec![
            SyncAction::CreateDirectory,
            SyncAction::BuildClient,
            SyncAction::Dataset(DatasetKind::Stations, EnsureAction::Probe),
            SyncAction::Dataset(DatasetKind::Stations, EnsureAction::Fetch),
            SyncAction::Dataset(DatasetKind::Stations, EnsureAction::Store),
            SyncAction::Dataset(DatasetKind::Countries, EnsureAction::Probe),
            SyncAction::Dataset(DatasetKind::Countries, EnsureAction::Fetch),
        ]
    );
    assert_eq!(sync.outcome(), Some(Ok(())));
}

#[test]
fn sync_stops_at_the_first_failure() {
    let (_, sync) = sync_run(vec![SyncEvent::DirectoryFailed("permission denied".to_string())]);
    assert_eq!(sync.pending(), None);
    assert_eq!(
        sync.outcome(),
        Some(Err(FetchError::Directory("permission denied".to_string())))
    );

    let (_, sync) = sync_run(vec![
        SyncEvent::DirectoryReady,
        SyncEvent::ClientFailed("no resolver".to_string()),
    ]);
    assert_eq!(sync.outcome(), Some(Err(FetchError::Transport("no resolver".to_string()))));

    let (actions, sync) = sync_run(vec![
        SyncEvent::DirectoryReady,
        SyncEvent::ClientReady,
        SyncEvent::Dataset(EnsureEvent::Probed { exists: false }),
        SyncEvent::Dataset(EnsureEvent::TransportFailed("unreachable".to_string())),
    ]);
    assert_eq!(actions.len(), 4);
    assert_eq!(sync.pending(), None);
    assert_eq!(sync.outcome(), Some(Err(FetchError::Transport("unreachable".to_string()))));

    let (_, sync) = sync_run(vec![
        SyncEvent::DirectoryReady,
        SyncEvent::ClientReady,
        SyncEvent::Dataset(EnsureEvent::Probed { exists: true }),
        SyncEvent::Dataset(EnsureEvent::Probed { exists: false }),
        SyncEvent::Dataset(EnsureEvent::Responded { status: 200 }),
        SyncEvent::Dataset(EnsureEvent::StoreFailed("read-only".to_string())),
    ]);
    assert_eq!(sync.outcome(), Some(Err(FetchError::Storage("read-only".to_string()))));
}

#[test]
fn sync_is_under_way_until_it_ends() {
    assert_eq!(CacheSync::start().outcome(), None);
    let (_, sync) = sync_run(vec![SyncEvent::DirectoryReady, SyncEvent::ClientReady]);
    assert_eq!(sync.outcome(), None);
}

#[test]
fn sync_ignores_events_out_of_turn() {
    let sync = CacheSync::start().on_event(SyncEvent::ClientReady);
    assert_eq!(sync.pending(), Some(SyncAction::CreateDirectory));
    let sync = sync.on_event(SyncEvent::Dataset(EnsureEvent::Probed { exists: true }));
    assert_eq!(sync.pending(), Some(SyncAction::CreateDirectory));
    let sync = sync.on_event(SyncEvent::DirectoryReady).on_event(SyncEvent::DirectoryReady);
    assert_eq!(sync.pending(), Some(SyncAction::BuildClient));
}
