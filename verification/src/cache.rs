//! The dataset cache: two reference datasets, each fetched once and then
//! read from a file in the data directory.
//!
//! The cache decides and the caller acts. A state says which action is owed;
//! the caller performs it and reports the outcome as an event, which leads to
//! the next state.

use vstd::prelude::*;
use vstd::string::StringExecFns;

verus! {

/// The two datasets, in the order in which they are ensured.
#[derive(Clone, Copy, Debug, PartialEq, Eq, Structural)]
pub enum DatasetKind {
    Stations,
    Countries,
}

/// The logical name of a dataset.
pub open spec fn dataset_name(kind: DatasetKind) -> Seq<char> {
    match kind {
        DatasetKind::Stations => "stations"@,
        DatasetKind::Countries => "countries"@,
    }
}

/// The address from which a dataset is fetched.
pub open spec fn dataset_url(kind: DatasetKind) -> Seq<char> {
    match kind {
        DatasetKind::Stations => "http://all.api.radio-browser.info/json/stations"@,
        DatasetKind::Countries => "http://all.api.radio-browser.info/json/countries"@,
    }
}

/// The name of the file that caches a dataset.
pub open spec fn dataset_file_name(kind: DatasetKind) -> Seq<char> {
    match kind {
        DatasetKind::Stations => "stations.db"@,
        DatasetKind::Countries => "countries.json"@,
    }
}

/// The path of the file `file_name` in the directory `data_dir`.
pub open spec fn path_in(data_dir: Seq<char>, file_name: Seq<char>) -> Seq<char> {
    data_dir + "/"@ + file_name
}

impl DatasetKind {
    /// The logical name of the dataset.
    pub fn name(self) -> (r: &'static str)
        ensures
            r@ == dataset_name(self),
    {
        match self {
            DatasetKind::Stations => "stations",
            DatasetKind::Countries => "countries",
        }
    }

    /// The address from which the dataset is fetched.
    pub fn remote_url(self) -> (r: &'static str)
        ensures
            r@ == dataset_url(self),
    {
        match self {
            DatasetKind::Stations => "http://all.api.radio-browser.info/json/stations",
            DatasetKind::Countries => "http://all.api.radio-browser.info/json/countries",
        }
    }

    /// The name of the file that caches the dataset.
    pub fn file_name(self) -> (r: &'static str)
        ensures
            r@ == dataset_file_name(self),
    {
        match self {
            DatasetKind::Stations => "stations.db",
            DatasetKind::Countries => "countries.json",
        }
    }

    /// The path of the file that caches the dataset under `data_dir`.
    pub fn local_path(self, data_dir: &str) -> (r: String)
        ensures
            r@ == path_in(data_dir@, dataset_file_name(self)),
    {
        let mut path = data_dir.to_owned();
        path.append("/");
        path.append(self.file_name());
        path
    }

    /// The path under which the dataset is written before it is moved into
    /// place, so that a transfer cut short leaves no cache file behind.
    pub fn partial_path(self, data_dir: &str) -> (r: String)
        ensures
            r@ == path_in(data_dir@, dataset_file_name(self)) + ".part"@,
    {
        let mut path = self.local_path(data_dir);
        path.append(".part");
        path
    }
}

/// A response counts as a success when its status is one of the 2xx codes.
pub open spec fn is_success_status(status: u16) -> bool {
    200 <= status < 300
}

/// Tells whether a response with this status carries the dataset.
pub fn status_is_success(status: u16) -> (r: bool)
    ensures
        r == is_success_status(status),
{
    200 <= status && status < 300
}

/// Why the cache could not be brought up to date. Each case carries the text
/// of the failure as the caller met it.
#[derive(Debug, PartialEq, Eq)]
pub enum FetchError {
    /// The data directory could not be created.
    Directory(String),
    /// The request could not be made, or the response could not be read.
    Transport(String),
    /// The file could not be written.
    Storage(String),
}

/// The line that reports a cache failure to the user.
pub open spec fn fetch_error_message(e: FetchError) -> Seq<char> {
    match e {
        FetchError::Directory(detail) => "cannot create the data directory: "@ + detail@,
        FetchError::Transport(detail) => "cannot fetch the dataset: "@ + detail@,
        FetchError::Storage(detail) => "cannot write the dataset: "@ + detail@,
    }
}

impl FetchError {
    /// Returns the line that reports this failure to the user.
    pub fn message(&self) -> (r: String)
        ensures
            r@ == fetch_error_message(*self),
    {
        match self {
            FetchError::Directory(detail) => {
                let mut out = "cannot create the data directory: ".to_owned();
                out.append(detail.as_str());
                out
            },
            FetchError::Transport(detail) => {
                let mut out = "cannot fetch the dataset: ".to_owned();
                out.append(detail.as_str());
                out
            },
            FetchError::Storage(detail) => {
                let mut out = "cannot write the dataset: ".to_owned();
                out.append(detail.as_str());
                out
            },
        }
    }
}

/// How ensuring one dataset ended well.
#[derive(Clone, Copy, Debug, PartialEq, Eq, Structural)]
pub enum Ensured {
    /// The file was there; nothing was asked of the network.
    AlreadyCached,
    /// The dataset was fetched and written to the file.
    Stored,
    /// The remote side answered without a success status: no file was
    /// written, and that is no error.
    NoData,
}

/// What the caller is asked to do for one dataset.
#[derive(Clone, Copy, Debug, PartialEq, Eq, Structural)]
pub enum EnsureAction {
    /// Find out whether the file exists.
    Probe,
    /// Send one GET request for the dataset.
    Fetch,
    /// Write the body of the response to the partial path of the dataset
    /// and move it from there to its local path.
    Store,
}

/// What the caller reports back.
#[derive(Debug, PartialEq, Eq)]
pub enum EnsureEvent {
    /// The probe found the file, or found none.
    Probed { exists: bool },
    /// The remote side answered with this status.
    Responded { status: u16 },
    /// The request failed, or the body could not be read.
    TransportFailed(String),
    /// The file has been written.
    Stored,
    /// The file could not be written.
    StoreFailed(String),
}

/// Where ensuring one dataset stands.
#[derive(Debug, PartialEq, Eq)]
pub enum EnsureState {
    /// Waiting to learn whether the file exists.
    Probing,
    /// Waiting for the response.
    Fetching,
    /// Waiting for the file to be written.
    Storing,
    /// Over, well or with an error.
    Done(Result<Ensured, FetchError>),
}

/// The action that a state waits for; a finished state waits for none.
pub open spec fn pending_action(state: EnsureState) -> Option<EnsureAction> {
    match state {
        EnsureState::Probing => Some(EnsureAction::Probe),
        EnsureState::Fetching => Some(EnsureAction::Fetch),
        EnsureState::Storing => Some(EnsureAction::Store),
        EnsureState::Done(_) => None,
    }
}

/// Whether `event` reports an outcome of the action that `state` waits for.
pub open spec fn answers(state: EnsureState, event: EnsureEvent) -> bool {
    match (state, event) {
        (EnsureState::Probing, EnsureEvent::Probed { .. }) => true,
        (EnsureState::Fetching, EnsureEvent::Responded { .. }) => true,
        (EnsureState::Fetching, EnsureEvent::TransportFailed(_)) => true,
        (EnsureState::Storing, EnsureEvent::Stored) => true,
        (EnsureState::Storing, EnsureEvent::StoreFailed(_)) => true,
        (EnsureState::Storing, EnsureEvent::TransportFailed(_)) => true,
        _ => false,
    }
}

/// The state that follows `state` on `event`.
///
/// A file that exists ends the work at once. A missing file is fetched; a
/// response without a success status ends the work with no file and no
/// error; a failed request, an unreadable body or a failed write is an
/// error. An event that answers nothing the state waits for changes nothing.
pub open spec fn next_state(state: EnsureState, event: EnsureEvent) -> EnsureState {
    match (state, event) {
        (EnsureState::Probing, EnsureEvent::Probed { exists }) => if exists {
            EnsureState::Done(Ok(Ensured::AlreadyCached))
        } else {
            EnsureState::Fetching
        },
        (EnsureState::Fetching, EnsureEvent::Responded { status }) => if is_success_status(status) {
            EnsureState::Storing
        } else {
            EnsureState::Done(Ok(Ensured::NoData))
        },
        (EnsureState::Fetching, EnsureEvent::TransportFailed(detail)) => EnsureState::Done(
            Err(FetchError::Transport(detail)),
        ),
        (EnsureState::Storing, EnsureEvent::Stored) => EnsureState::Done(Ok(Ensured::Stored)),
        (EnsureState::Storing, EnsureEvent::StoreFailed(detail)) => EnsureState::Done(
            Err(FetchError::Storage(detail)),
        ),
        (EnsureState::Storing, EnsureEvent::TransportFailed(detail)) => EnsureState::Done(
            Err(FetchError::Transport(detail)),
        ),
        (state, _) => state,
    }
}

impl EnsureState {
    /// The state in which ensuring a dataset starts: the file is probed first.
    pub fn start() -> (r: EnsureState)
        ensures
            r == EnsureState::Probing,
    {
        EnsureState::Probing
    }

    /// The action that this state waits for.
    pub fn pending(&self) -> (r: Option<EnsureAction>)
        ensures
            r == pending_action(*self),
    {
        match self {
            EnsureState::Probing => Some(EnsureAction::Probe),
            EnsureState::Fetching => Some(EnsureAction::Fetch),
            EnsureState::Storing => Some(EnsureAction::Store),
            EnsureState::Done(_) => None,
        }
    }

    /// Takes the report of the caller and moves on.
    pub fn on_event(self, event: EnsureEvent) -> (r: EnsureState)
        ensures
            r == next_state(self, event),
    {
        match (self, event) {
            (EnsureState::Probing, EnsureEvent::Probed { exists }) => {
                if exists {
                    EnsureState::Done(Ok(Ensured::AlreadyCached))
                } else {
                    EnsureState::Fetching
                }
            },
            (EnsureState::Fetching, EnsureEvent::Responded { status }) => {
                if status_is_success(status) {
                    EnsureState::Storing
                } else {
                    EnsureState::Done(Ok(Ensured::NoData))
                }
            },
            (EnsureState::Fetching, EnsureEvent::TransportFailed(detail)) => EnsureState::Done(
                Err(FetchError::Transport(detail)),
            ),
            (EnsureState::Storing, EnsureEvent::Stored) => EnsureState::Done(Ok(Ensured::Stored)),
            (EnsureState::Storing, EnsureEvent::StoreFailed(detail)) => EnsureState::Done(
                Err(FetchError::Storage(detail)),
            ),
            (EnsureState::Storing, EnsureEvent::TransportFailed(detail)) => EnsureState::Done(
                Err(FetchError::Transport(detail)),
            ),
            (state, _) => state,
        }
    }
}

/// The state reached from `state` when the events arrive one after another.
pub open spec fn state_after(state: EnsureState, events: Seq<EnsureEvent>) -> EnsureState
    decreases events.len(),
{
    if events.len() == 0 {
        state
    } else {
        state_after(next_state(state, events[0]), events.drop_first())
    }
}

/// Every event answers the action that the state it meets waits for.
pub open spec fn orderly(state: EnsureState, events: Seq<EnsureEvent>) -> bool
    decreases events.len(),
{
    events.len() == 0 || (answers(state, events[0]) && orderly(
        next_state(state, events[0]),
        events.drop_first(),
    ))
}

/// How many requests the caller sends while the events arrive: one for each
/// event that meets a state waiting for a fetch.
pub open spec fn fetches_during(state: EnsureState, events: Seq<EnsureEvent>) -> nat
    decreases events.len(),
{
    if events.len() == 0 {
        0
    } else {
        let here: nat = if state is Fetching {
            1
        } else {
            0
        };
        here + fetches_during(next_state(state, events[0]), events.drop_first())
    }
}

/// Whether the file exists once the events have arrived, given whether it
/// existed before: a completed write makes it exist, nothing removes it.
pub open spec fn exists_after(existed: bool, state: EnsureState, events: Seq<EnsureEvent>) -> bool
    decreases events.len(),
{
    if events.len() == 0 {
        existed
    } else {
        exists_after(
            existed || (state is Storing && events[0] is Stored),
            next_state(state, events[0]),
            events.drop_first(),
        )
    }
}

/// Every probe among the events reports whether the file exists at that
/// moment.
pub open spec fn truthful(existed: bool, state: EnsureState, events: Seq<EnsureEvent>) -> bool
    decreases events.len(),
{
    events.len() == 0 || ((events[0] matches EnsureEvent::Probed { exists } ==> exists == existed)
        && truthful(
        existed || (state is Storing && events[0] is Stored),
        next_state(state, events[0]),
        events.drop_first(),
    ))
}

/// Ensuring a dataset to its end sends no request when the file exists and
/// exactly one when it does not; it ends with `AlreadyCached` exactly when the
/// file exists; and a file that exists is left in place.
pub proof fn lemma_fetch_only_if_absent(existed: bool, events: Seq<EnsureEvent>)
    requires
        orderly(EnsureState::Probing, events),
        truthful(existed, EnsureState::Probing, events),
        state_after(EnsureState::Probing, events) is Done,
    ensures
        fetches_during(EnsureState::Probing, events) == if existed {
            0nat
        } else {
            1nat
        },
        existed <==> state_after(EnsureState::Probing, events) == EnsureState::Done(
            Ok(Ensured::AlreadyCached),
        ),
        existed ==> exists_after(existed, EnsureState::Probing, events),
        exists_after(existed, EnsureState::Probing, events) <==> existed || state_after(
            EnsureState::Probing,
            events,
        ) == EnsureState::Done(Ok(Ensured::Stored)),
{
    reveal_with_fuel(state_after, 5);
    reveal_with_fuel(orderly, 5);
    reveal_with_fuel(fetches_during, 5);
    reveal_with_fuel(exists_after, 5);
    reveal_with_fuel(truthful, 5);
}

/// Ensuring twice fetches once: when the first run started without the file
/// and left it written, it sent exactly one request, and the second run, which
/// finds the file, sends none and changes nothing.
pub proof fn lemma_ensure_twice_fetches_once(first: Seq<EnsureEvent>, second: Seq<EnsureEvent>)
    requires
        orderly(EnsureState::Probing, first),
        truthful(false, EnsureState::Probing, first),
        state_after(EnsureState::Probing, first) is Done,
        exists_after(false, EnsureState::Probing, first),
        orderly(EnsureState::Probing, second),
        truthful(exists_after(false, EnsureState::Probing, first), EnsureState::Probing, second),
        state_after(EnsureState::Probing, second) is Done,
    ensures
        fetches_during(EnsureState::Probing, first) + fetches_during(EnsureState::Probing, second)
            == 1,
        fetches_during(EnsureState::Probing, second) == 0,
        state_after(EnsureState::Probing, second) == EnsureState::Done(Ok(Ensured::AlreadyCached)),
        exists_after(true, EnsureState::Probing, second),
{
    lemma_fetch_only_if_absent(false, first);
    lemma_fetch_only_if_absent(true, second);
}

/// What the caller is asked to do to bring the whole cache up to date.
#[derive(Clone, Copy, Debug, PartialEq, Eq, Structural)]
pub enum SyncAction {
    /// Create the data directory and the directories above it.
    CreateDirectory,
    /// Build the HTTP client that sends the request headers with each request.
    BuildClient,
    /// Perform this action for this dataset.
    Dataset(DatasetKind, EnsureAction),
}

/// What the caller reports back.
#[derive(Debug, PartialEq, Eq)]
pub enum SyncEvent {
    /// The data directory is there.
    DirectoryReady,
    /// The data directory could not be created.
    DirectoryFailed(String),
    /// The client is built.
    ClientReady,
    /// The client could not be built.
    ClientFailed(String),
    /// The outcome of the action asked for the dataset at hand.
    Dataset(EnsureEvent),
}

/// Where bringing the cache up to date stands.
#[derive(Debug, PartialEq, Eq)]
pub enum SyncState {
    /// Waiting for the data directory.
    CreatingDirectory,
    /// Waiting for the client.
    BuildingClient,
    /// Ensuring one dataset.
    Ensuring(DatasetKind, EnsureState),
    /// Over, well or with the error that ended it.
    Finished(Result<(), FetchError>),
}

/// A dataset at hand is never a finished one: finishing it moves on.
pub open spec fn sync_well_formed(state: SyncState) -> bool {
    state matches SyncState::Ensuring(_, inner) ==> !(inner is Done)
}

/// What follows once the dataset at hand has reached `inner`: an error ends
/// everything, a good end moves on to the next dataset or, after the last, to
/// the end.
pub open spec fn settled(kind: DatasetKind, inner: EnsureState) -> SyncState {
    match inner {
        EnsureState::Done(Ok(_)) => match kind {
            DatasetKind::Stations => SyncState::Ensuring(
                DatasetKind::Countries,
                EnsureState::Probing,
            ),
            DatasetKind::Countries => SyncState::Finished(Ok(())),
        },
        EnsureState::Done(Err(e)) => SyncState::Finished(Err(e)),
        _ => SyncState::Ensuring(kind, inner),
    }
}

/// The state that follows `state` on `event`.
///
/// The directory comes first, then the client, then the stations, then the
/// countries. The first failure ends the work with its error. An event that
/// answers nothing the state waits for changes nothing.
pub open spec fn next_sync(state: SyncState, event: SyncEvent) -> SyncState {
    match (state, event) {
        (SyncState::CreatingDirectory, SyncEvent::DirectoryReady) => SyncState::BuildingClient,
        (SyncState::CreatingDirectory, SyncEvent::DirectoryFailed(detail)) => SyncState::Finished(
            Err(FetchError::Directory(detail)),
        ),
        (SyncState::BuildingClient, SyncEvent::ClientReady) => SyncState::Ensuring(
            DatasetKind::Stations,
            EnsureState::Probing,
        ),
        (SyncState::BuildingClient, SyncEvent::ClientFailed(detail)) => SyncState::Finished(
            Err(FetchError::Transport(detail)),
        ),
        (SyncState::Ensuring(kind, inner), SyncEvent::Dataset(e)) => settled(
            kind,
            next_state(inner, e),
        ),
        (state, _) => state,
    }
}

/// The action that a state waits for; a finished state waits for none.
pub open spec fn pending_sync(state: SyncState) -> Option<SyncAction> {
    match state {
        SyncState::CreatingDirectory => Some(SyncAction::CreateDirectory),
        SyncState::BuildingClient => Some(SyncAction::BuildClient),
        SyncState::Ensuring(kind, inner) => match pending_action(inner) {
            Some(action) => Some(SyncAction::Dataset(kind, action)),
            None => None,
        },
        SyncState::Finished(_) => None,
    }
}

/// How the work ended, once it has.
pub open spec fn sync_outcome(state: SyncState) -> Option<Result<(), FetchError>> {
    match state {
        SyncState::Finished(result) => Some(result),
        _ => None,
    }
}

/// Every step keeps the state well formed, and only a finished state waits
/// for nothing.
pub proof fn lemma_sync_step(state: SyncState, event: SyncEvent)
    requires
        sync_well_formed(state),
    ensures
        sync_well_formed(next_sync(state, event)),
        pending_sync(state) is None <==> state is Finished,
        state is Finished ==> next_sync(state, event) == state,
{
}

/// The run that brings both datasets up to date.
pub struct CacheSync {
    state: SyncState,
}

impl View for CacheSync {
    type V = SyncState;

    closed spec fn view(&self) -> SyncState {
        self.state
    }
}

impl CacheSync {
    #[verifier::type_invariant]
    spec fn well_formed(self) -> bool {
        sync_well_formed(self.state)
    }

    /// Starts a run: the data directory is asked for first.
    pub fn start() -> (r: CacheSync)
        ensures
            r@ == SyncState::CreatingDirectory,
    {
        CacheSync { state: SyncState::CreatingDirectory }
    }

    /// The action that the run waits for; `None` once it is over.
    pub fn pending(&self) -> (r: Option<SyncAction>)
        ensures
            r == pending_sync(self@),
            r is None <==> self@ is Finished,
    {
        proof {
            use_type_invariant(self);
        }
        match &self.state {
            SyncState::CreatingDirectory => Some(SyncAction::CreateDirectory),
            SyncState::BuildingClient => Some(SyncAction::BuildClient),
            SyncState::Ensuring(kind, inner) => match inner.pending() {
                Some(action) => Some(SyncAction::Dataset(*kind, action)),
                None => None,
            },
            SyncState::Finished(_) => None,
        }
    }

    /// Takes the report of the caller and moves on.
    pub fn on_event(self, event: SyncEvent) -> (r: CacheSync)
        ensures
            r@ == next_sync(self@, event),
    {
        proof {
            use_type_invariant(&self);
            lemma_sync_step(self.state, event);
        }
        let next = match (self.state, event) {
            (SyncState::CreatingDirectory, SyncEvent::DirectoryReady) => SyncState::BuildingClient,
            (SyncState::CreatingDirectory, SyncEvent::DirectoryFailed(detail)) => {
                SyncState::Finished(Err(FetchError::Directory(detail)))
            },
            (SyncState::BuildingClient, SyncEvent::ClientReady) => SyncState::Ensuring(
                DatasetKind::Stations,
                EnsureState::start(),
            ),
            (SyncState::BuildingClient, SyncEvent::ClientFailed(detail)) => SyncState::Finished(
                Err(FetchError::Transport(detail)),
            ),
            (SyncState::Ensuring(kind, inner), SyncEvent::Dataset(e)) => {
                match inner.on_event(e) {
                    EnsureState::Done(Ok(_)) => match kind {
                        DatasetKind::Stations => SyncState::Ensuring(
                            DatasetKind::Countries,
                            EnsureState::start(),
                        ),
                        DatasetKind::Countries => SyncState::Finished(Ok(())),
                    },
                    EnsureState::Done(Err(e)) => SyncState::Finished(Err(e)),
                    other => SyncState::Ensuring(kind, other),
                }
            },
            (state, _) => state,
        };
        CacheSync { state: next }
    }

    /// How the run ended; `None` while it is under way.
    pub fn outcome(self) -> (r: Option<Result<(), FetchError>>)
        ensures
            r == sync_outcome(self@),
    {
        match self.state {
            SyncState::Finished(result) => Some(result),
            _ => None,
        }
    }
}

} // verus!
