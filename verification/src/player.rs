//! The external player: where its binary may be installed and how it is
//! started.

use crate::text::{decimal, render_decimal};
use vstd::prelude::*;
use vstd::string::StringExecFns;

verus! {

/// The volume the player starts with when none is asked for.
pub const DEFAULT_VOLUME: u8 = 10;

/// How many places are searched for the player binary.
pub const LOCATION_COUNT: usize = 9;

/// The places where the player binary is looked for, in the order of search.
pub open spec fn location_list() -> Seq<Seq<char>> {
    seq![
        "/Applications/VLC.app/Contents/MacOS/VLC"@,
        "/Applications/VLC.app/Contents/MacOS/lib/vlc"@,
        "/Applications/VLC.app/Contents/MacOS/lib/vlc/vlc"@,
        "C:\\Program Files\\VideoLAN\\VLC\\vlc.exe"@,
        "C:\\Program Files (x86)\\VideoLAN\\VLC\\vlc.exe"@,
        "/usr/bin/vlc"@,
        "/usr/local/bin/vlc"@,
        "/snap/bin/vlc"@,
        "/var/lib/snapd/snap/bin/vlc"@,
    ]
}

/// The texts of a sequence of string slices, in the same order.
pub open spec fn slice_texts(items: Seq<&'static str>) -> Seq<Seq<char>> {
    items.map_values(|s: &'static str| s@)
}

/// The texts of a sequence of strings, in the same order.
pub open spec fn string_texts(items: Seq<String>) -> Seq<Seq<char>> {
    items.map_values(|s: String| s@)
}

/// Returns the places where the player binary is looked for, in the order of
/// search.
pub fn player_locations() -> (r: Vec<&'static str>)
    ensures
        slice_texts(r@) == location_list(),
        r.len() == LOCATION_COUNT,
{
    let mut r: Vec<&'static str> = Vec::new();
    r.push("/Applications/VLC.app/Contents/MacOS/VLC");
    r.push("/Applications/VLC.app/Contents/MacOS/lib/vlc");
    r.push("/Applications/VLC.app/Contents/MacOS/lib/vlc/vlc");
    r.push("C:\\Program Files\\VideoLAN\\VLC\\vlc.exe");
    r.push("C:\\Program Files (x86)\\VideoLAN\\VLC\\vlc.exe");
    r.push("/usr/bin/vlc");
    r.push("/usr/local/bin/vlc");
    r.push("/snap/bin/vlc");
    r.push("/var/lib/snapd/snap/bin/vlc");
    assert(slice_texts(r@) =~= location_list());
    r
}

/// Position `i` is the first one reported as found.
pub open spec fn is_first_found(found: Seq<bool>, i: int) -> bool {
    &&& 0 <= i < found.len()
    &&& found[i]
    &&& forall|j: int| 0 <= j < i ==> !#[trigger] found[j]
}

/// Picks the player binary: `found[i]` tells whether something exists at the
/// `i`-th location, and the first location at which something exists wins.
/// Reports beyond the list of locations are not looked at.
pub fn locate_player(found: &Vec<bool>) -> (r: Option<usize>)
    ensures
        match r {
            Some(i) => i < LOCATION_COUNT && is_first_found(found@, i as int),
            None => forall|j: int|
                0 <= j < found.len() && j < LOCATION_COUNT ==> !#[trigger] found[j],
        },
{
    let mut i: usize = 0;
    while i < found.len() && i < LOCATION_COUNT
        invariant
            forall|j: int| 0 <= j < i ==> !#[trigger] found[j],
            i <= found.len(),
        decreases found.len() - i,
    {
        if found[i] {
            return Some(i);
        }
        i += 1;
    }
    None
}

/// The arguments with which the player is started: no interface, no chatter,
/// the volume, and the address of the stream.
pub open spec fn player_arguments(volume: u8, url: Seq<char>) -> Seq<Seq<char>> {
    seq!["-I"@, "dummy"@, "--dummy-quiet"@, "--volume"@, decimal(volume as int), url]
}

/// Returns the arguments with which the player is started on `url`.
pub fn player_args(volume: u8, url: &str) -> (r: Vec<String>)
    ensures
        string_texts(r@) == player_arguments(volume, url@),
{
    let mut r: Vec<String> = Vec::new();
    r.push("-I".to_owned());
    r.push("dummy".to_owned());
    r.push("--dummy-quiet".to_owned());
    r.push("--volume".to_owned());
    r.push(render_decimal(volume as i64));
    r.push(url.to_owned());
    assert(string_texts(r@) =~= player_arguments(volume, url@));
    r
}

} // verus!
