//! Where the task file lives, and how the files beside it are named.

use vstd::prelude::*;
use vstd::string::*;

use crate::text::{decimal, decimal_string, has_prefix, starts_with};

verus! {

/// Declares std's `PathBuf`, so that a directory can be carried as the
/// system gave it; nothing is read from inside it here.
#[verifier::external_type_specification]
#[verifier::external_body]
pub struct ExPathBuf(std::path::PathBuf);

/// The directory that holds the task file, and the file's name in it.
#[derive(Debug)]
pub struct StorageLocation {
    pub directory: std::path::PathBuf,
    pub file_name: String,
}

/// The name of the task file.
pub open spec fn tasks_file_name() -> Seq<char> {
    "tasks.json"@
}

/// What every temporary file written for `file_name` begins with.
pub open spec fn temp_prefix(file_name: Seq<char>) -> Seq<char> {
    file_name + ".tmp."@
}

/// The name of the temporary file for `file_name` that carries `suffix`.
pub open spec fn temp_name(file_name: Seq<char>, suffix: nat) -> Seq<char> {
    temp_prefix(file_name) + decimal(suffix)
}

/// Asks the `directories` crate, through `ProjectDirs::from` and
/// `ProjectDirs::config_dir`, for the configuration directory of the
/// application with the given identity. The answer depends on the platform
/// and on the environment, so nothing is claimed of it. `None` stands for a
/// system without a home directory.
#[verifier::external_body]
fn platform_config_dir(
    qualifier: &str,
    organization: &str,
    application: &str,
) -> Option<std::path::PathBuf> {
    match directories::ProjectDirs::from(qualifier, organization, application) {
        Some(dirs) => Some(dirs.config_dir().to_path_buf()),
        None => None,
    }
}

/// Draws a number from the `rand` crate's thread-local generator, with
/// `thread_rng` and `Rng::gen`. Nothing is claimed of the number.
#[verifier::external_body]
pub(crate) fn random_suffix() -> u64 {
    rand::Rng::gen::<u64>(&mut rand::thread_rng())
}

/// The identity under which the application asks the system for its
/// directories: the qualifier, the organisation and the application's name.
pub fn application_identity() -> (identity: (&'static str, &'static str, &'static str))
    ensures
        identity.0@ == "com"@,
        identity.1@ == "example"@,
        identity.2@ == "task_scheduler_gui"@,
{
    ("com", "example", "task_scheduler_gui")
}

/// The place of the task file on this system, if the system offers one.
///
/// The directory is the configuration directory that the system gives to
/// the application of [`application_identity`]. It is named here, not
/// created.
pub fn project_file_path() -> (location: Option<StorageLocation>)
    ensures
        location matches Some(place) ==> place.file_name@ == tasks_file_name(),
{
    let identity = application_identity();
    tasks_file_in(platform_config_dir(identity.0, identity.1, identity.2))
}

/// The place of the task file, given the configuration directory that the
/// system offers: the file `tasks.json` in that directory, and no place
/// where the system offers no directory.
pub fn tasks_file_in(config_dir: Option<std::path::PathBuf>) -> (location: Option<
    StorageLocation,
>)
    ensures
        match config_dir {
            Some(directory) => location matches Some(place) && place.directory == directory
                && place.file_name@ == tasks_file_name(),
            None => location is None,
        },
{
    match config_dir {
        Some(directory) => Some(
            StorageLocation { directory, file_name: String::from_str("tasks.json") },
        ),
        None => None,
    }
}

/// Builds the name of the temporary file for `file_name` that carries `suffix`.
pub fn temp_file_name(file_name: &str, suffix: u64) -> (name: String)
    ensures
        name@ == temp_name(file_name@, suffix as nat),
{
    let mut name = String::from_str(file_name);
    name.append(".tmp.");
    let digits = decimal_string(suffix);
    name.append(digits.as_str());
    name
}

/// Builds the name of a temporary file for `file_name` with a random suffix,
/// so that two writers at work at once do not pick the same name.
pub fn fresh_temp_file_name(file_name: &str) -> (name: String)
    ensures
        exists|suffix: nat| name@ == temp_name(file_name@, suffix),
{
    temp_file_name(file_name, random_suffix())
}

/// Tells whether `entry` is the name of a temporary file written for
/// `file_name`: such files are removed after a successful save.
pub fn is_temp_file_of(entry: &str, file_name: &str) -> (yes: bool)
    ensures
        yes == starts_with(entry@, temp_prefix(file_name@)),
{
    let mut prefix = String::from_str(file_name);
    prefix.append(".tmp.");
    has_prefix(entry, prefix.as_str())
}

/// Every temporary file of a task file is recognised as one, whatever its
/// suffix, and the task file itself never is.
pub proof fn lemma_temp_names_are_recognised(file_name: Seq<char>, suffix: nat)
    ensures
        starts_with(temp_name(file_name, suffix), temp_prefix(file_name)),
        !starts_with(file_name, temp_prefix(file_name)),
{
    reveal_strlit(".tmp.");
    let prefix = temp_prefix(file_name);
    let name = temp_name(file_name, suffix);
    assert(name.subrange(0, prefix.len() as int) =~= prefix);
}

} // verus!
