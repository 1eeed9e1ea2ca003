//! The HTTP side of the dataset cache: the headers sent with every request
//! and the client that sends them.

use reqwest::header::{HeaderMap, HeaderValue};
use vstd::prelude::*;

verus! {

/// The value of the `User-Agent` header sent with every request.
pub const USER_AGENT: &'static str = "@kalkafox/EchoTune/0.1";

/// The value of the `Accept` header sent with every request.
pub const ACCEPT: &'static str = "application/json";

/// A header map of `http`, as `reqwest` hands it on.
#[verifier::external_type_specification]
#[verifier::external_body]
#[verifier::reject_recursive_types(T)]
pub struct ExHeaderMap<T>(HeaderMap<T>);

/// A header value of `http`, as `reqwest` hands it on.
#[verifier::external_type_specification]
#[verifier::external_body]
pub struct ExHeaderValue(HeaderValue);

/// The asynchronous client of `reqwest`.
#[verifier::external_type_specification]
#[verifier::external_body]
pub struct ExClient(reqwest::Client);

/// The error type of `reqwest`.
#[verifier::external_type_specification]
#[verifier::external_body]
pub struct ExRequestError(reqwest::Error);

/// What a header map holds: for each header name in it, the name in lower
/// case and the first value kept under it, byte by byte as characters.
pub uninterp spec fn header_entries(map: HeaderMap<HeaderValue>) -> Map<Seq<char>, Seq<char>>;

/// The most names a header map may hold when it is handed to this module.
pub const HEADER_LIMIT: usize = 1024;

/// A header name of at most 64 lower-case letters and hyphens.
pub open spec fn is_simple_header_name(name: Seq<char>) -> bool {
    &&& 1 <= name.len() <= 64
    &&& forall|i: int|
        0 <= i < name.len() ==> 'a' <= #[trigger] name[i] <= 'z' || name[i] == '-'
}

/// A text of visible ASCII characters, spaces and tabs.
pub open spec fn is_visible_ascii(text: Seq<char>) -> bool {
    forall|i: int| 0 <= i < text.len() ==> ' ' <= #[trigger] text[i] <= '~' || text[i] == '\t'
}

/// A header map that holds fewer names than the limit.
pub open spec fn within_limit(entries: Map<Seq<char>, Seq<char>>) -> bool {
    entries.dom().finite() && entries.dom().len() < HEADER_LIMIT
}

/// The header map that holds nothing.
pub open spec fn no_entries() -> Map<Seq<char>, Seq<char>> {
    Map::empty()
}

/// `HeaderMap::new` of `http` makes a map that holds nothing.
pub assume_specification[ HeaderMap::<HeaderValue>::new ]() -> (r: HeaderMap<HeaderValue>)
    ensures
        header_entries(r) == no_entries(),
;

/// `HeaderMap::insert` of `http`, with the value made by
/// `HeaderValue::from_static`: afterwards the map holds `value` under `name`
/// and nothing else under it; the other names keep what they had.
///
/// `from_static` panics on a value with a byte that is no visible ASCII, and
/// the map panics on a name that is no header name and when it cannot grow
/// any more, which happens far above the limit asked for here.
#[verifier::external_body]
fn insert_static(
    map: &mut HeaderMap<HeaderValue>,
    name: &'static str,
    value: &'static str,
)
    requires
        is_simple_header_name(name@),
        is_visible_ascii(value@),
        within_limit(header_entries(*old(map))),
    ensures
        header_entries(*final(map)) == header_entries(*old(map)).insert(name@, value@),
{
    map.insert(name, HeaderValue::from_static(value));
}

/// `ClientBuilder::default_headers` and `ClientBuilder::build` of `reqwest`:
/// a client that sends `headers` with every request, or the error of
/// `reqwest` where the client cannot be set up on this machine. Nothing is
/// claimed of which it is.
#[verifier::external_body]
fn build_client(headers: HeaderMap<HeaderValue>) -> (r: Result<reqwest::Client, reqwest::Error>)
    requires
        within_limit(header_entries(headers)),
{
    reqwest::Client::builder().default_headers(headers).build()
}

/// The text of an error of `reqwest`, as its `Display` gives it. Nothing is
/// claimed of the text.
#[verifier::external_body]
fn error_text(error: &reqwest::Error) -> String {
    error.to_string()
}

/// The headers sent with every request, by name.
pub open spec fn request_header_entries() -> Map<Seq<char>, Seq<char>> {
    no_entries().insert("user-agent"@, USER_AGENT@).insert(
        "accept"@,
        ACCEPT@,
    )
}

/// Builds the headers sent with every request: who asks, and that JSON is
/// asked for.
pub fn request_headers() -> (r: HeaderMap<HeaderValue>)
    ensures
        header_entries(r) == request_header_entries(),
{
    let mut headers = HeaderMap::new();
    proof {
        reveal_strlit("user-agent");
        reveal_strlit("accept");
        reveal_strlit("@kalkafox/EchoTune/0.1");
        reveal_strlit("application/json");
    }
    insert_static(&mut headers, "user-agent", USER_AGENT);
    insert_static(&mut headers, "accept", ACCEPT);
    headers
}

/// Turns the outcome of building a client into what the cache is told: the
/// client itself where one was built, and the text of the error where none
/// was.
pub fn client_or_text(
    built: Result<reqwest::Client, reqwest::Error>,
) -> (r: Result<reqwest::Client, String>)
    ensures
        match built {
            Ok(client) => (r matches Ok(handed) && handed == client),
            Err(_) => r is Err,
        },
{
    match built {
        Ok(client) => Ok(client),
        Err(error) => Err(error_text(&error)),
    }
}

/// Builds the client that sends the request headers with every request. An
/// error comes back as its text. Whether a client can be built depends on the
/// machine alone.
pub fn prepare_client() -> (r: Result<reqwest::Client, String>) {
    client_or_text(build_client(request_headers()))
}

} // verus!
