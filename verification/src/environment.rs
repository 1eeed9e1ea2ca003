//! What the program needs from the machine before it can start: the player
//! binary and the data directory.

use crate::player::{location_list, player_locations, slice_texts, LOCATION_COUNT};
use vstd::prelude::*;
use vstd::string::StringExecFns;

verus! {

/// The project directories of `directories`, carried through as they come.
#[verifier::external_type_specification]
#[verifier::external_body]
pub struct ExProjectDirs(directories::ProjectDirs);

/// `directories::ProjectDirs::from` looks the directories of a project up in
/// the environment of the process. What it finds depends on the machine, so
/// nothing is claimed of its result.
pub assume_specification[ directories::ProjectDirs::from ](
    qualifier: &str,
    organization: &str,
    application: &str,
) -> Option<directories::ProjectDirs>;

/// `directories::ProjectDirs::data_dir` hands out the path of the data
/// directory; this gives it as text, or `None` where the path is no valid
/// Unicode. The text is never empty: on every platform the data directory
/// is a base directory of the machine with the path of the project joined
/// on. Nothing else is claimed of the text.
#[verifier::external_body]
fn data_dir_text(dirs: &directories::ProjectDirs) -> (r: Option<String>)
    ensures
        r matches Some(dir) ==> dir@.len() > 0,
{
    dirs.data_dir().to_str().map(str::to_owned)
}

/// The names under which the project directories are looked up: qualifier,
/// organization and application.
pub fn project_identity() -> (r: (&'static str, &'static str, &'static str))
    ensures
        r.0@ == "dev"@,
        r.1@ == "kalkafox"@,
        r.2@ == "EchoTune"@,
{
    ("dev", "kalkafox", "EchoTune")
}

/// Turns what the lookup read into the data directory. `found` is `None`
/// where the machine gave no project directories, `Some(None)` where it gave
/// a data directory that is no text, and `Some(Some(dir))` where it gave the
/// directory `dir`. Only the last resolves, to `dir` itself.
pub fn resolved_dir(found: Option<Option<String>>) -> (r: Option<String>)
    ensures
        r == match found {
            Some(Some(dir)) => Some(dir),
            _ => None::<String>,
        },
{
    match found {
        Some(Some(dir)) => Some(dir),
        _ => None,
    }
}

/// Looks up the directory in which the datasets are cached, under the names
/// of `project_identity`. `None` where the machine names no home directory,
/// or names the data directory in a way that is no text. Which directory
/// comes back depends on the machine; it is never the empty text.
pub fn get_data_dir() -> (r: Option<String>)
    ensures
        r matches Some(dir) ==> dir@.len() > 0,
{
    let identity = project_identity();
    let found = match directories::ProjectDirs::from(identity.0, identity.1, identity.2) {
        Some(dirs) => Some(data_dir_text(&dirs)),
        None => None,
    };
    resolved_dir(found)
}

/// What is missing on the machine.
#[derive(Clone, Copy, Debug, PartialEq, Eq, Structural)]
pub enum EnvironmentError {
    /// The player binary is at none of the places searched.
    PlayerMissing,
    /// The data directory could not be found.
    DataDirUnresolved,
}

/// The line that tells the user what is missing.
pub open spec fn environment_message(e: EnvironmentError) -> Seq<char> {
    match e {
        EnvironmentError::PlayerMissing => "Error: VLC is not installed"@,
        EnvironmentError::DataDirUnresolved => "Error: Could not find data directory"@,
    }
}

impl EnvironmentError {
    /// Returns the line that tells the user what is missing.
    pub fn message(self) -> (r: &'static str)
        ensures
            r@ == environment_message(self),
    {
        match self {
            EnvironmentError::PlayerMissing => "Error: VLC is not installed",
            EnvironmentError::DataDirUnresolved => "Error: Could not find data directory",
        }
    }
}

/// The search for the player ended with the number of a location.
pub open spec fn names_location(found: Option<usize>) -> bool {
    found matches Some(i) && i < LOCATION_COUNT
}

/// Turns the outcome of the search for the player into the path of its
/// binary: the location with the number found, or the error that no player is
/// installed where nothing was found or the number names no location.
pub fn require_player(found: Option<usize>) -> (r: Result<&'static str, EnvironmentError>)
    ensures
        match r {
            Ok(path) => names_location(found) && path@ == location_list()[found->0 as int],
            Err(e) => e == EnvironmentError::PlayerMissing && !names_location(found),
        },
{
    match found {
        Some(i) => {
            let locations = player_locations();
            if i < locations.len() {
                assert(slice_texts(locations@)[i as int] == locations@[i as int]@);
                Ok(locations[i])
            } else {
                Err(EnvironmentError::PlayerMissing)
            }
        },
        None => Err(EnvironmentError::PlayerMissing),
    }
}

/// Turns the outcome of the lookup of the data directory into the directory,
/// or the error that it could not be found.
pub fn require_data_dir(found: Option<String>) -> (r: Result<String, EnvironmentError>)
    ensures
        match found {
            Some(dir) => r == Ok::<String, EnvironmentError>(dir),
            None => r == Err::<String, EnvironmentError>(EnvironmentError::DataDirUnresolved),
        },
{
    match found {
        Some(dir) => Ok(dir),
        None => Err(EnvironmentError::DataDirUnresolved),
    }
}

} // verus!
