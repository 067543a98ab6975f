//! Where the records are kept: the directory of the data, and the directories and
//! files in it.

use crate::config::StorageConfig;
use crate::id::{extension, filename_of, Id};
use crate::invoice::invoice_filename;
use crate::text::{decimal_text, push_char};
use vstd::prelude::*;

verus! {

/// Declares `directories::ProjectDirs`, which is handed on unopened.
#[verifier::external_type_specification]
#[verifier::external_body]
pub struct ExProjectDirs(directories::ProjectDirs);

/// Finds the directories that the system sets apart for an application.
///
/// Calls `directories::ProjectDirs::from` with an empty qualifier and organization.
/// What comes back depends on the system and the environment; nothing is claimed of it.
#[verifier::external_body]
fn project_dirs(application: &str) -> (r: Option<directories::ProjectDirs>) {
    directories::ProjectDirs::from("", "", application)
}

/// Calls `directories::ProjectDirs::config_dir`, and makes text of the path. Nothing is
/// claimed of it.
#[verifier::external_body]
fn config_dir_of(dirs: &directories::ProjectDirs) -> (r: String) {
    dirs.config_dir().to_string_lossy().into_owned()
}

/// Calls `directories::ProjectDirs::data_dir`, and makes text of the path. Nothing is
/// claimed of it.
#[verifier::external_body]
fn data_dir_of(dirs: &directories::ProjectDirs) -> (r: String) {
    dirs.data_dir().to_string_lossy().into_owned()
}

/// Whether a path begins with `~` for the home directory: the `~` is the whole path,
/// or a separator follows it.
pub open spec fn begins_at_home(path: Seq<char>) -> bool {
    path.len() > 0 && path[0] == '~' && (path.len() == 1 || path[1] == '/' || path[1] == '\\')
}

/// Whether `expanded` can be what becomes of `path` when a `~` at its beginning is
/// replaced by the home directory: either nothing was replaced, or the path begins at
/// home and what follows the `~` is what `expanded` ends with.
pub open spec fn is_tilde_expansion(path: Seq<char>, expanded: Seq<char>) -> bool {
    expanded == path || (begins_at_home(path) && path.skip(1).is_suffix_of(expanded))
}

/// Replaces a `~` at the beginning of a path by the home directory.
///
/// Calls `shellexpand::tilde`. It leaves the path as it is unless the path is `~` or
/// begins with `~` and a separator, and then too where no home directory is known;
/// else it puts the home directory in the place of the `~`. Which home directory
/// depends on the environment, so only that much is claimed.
#[verifier::external_body]
fn tilde(path: &str) -> (r: String)
    ensures
        is_tilde_expansion(path@, r@),
{
    shellexpand::tilde(path).into_owned()
}

/// Calls `std::path::Path::is_absolute`. What makes a path absolute depends on the
/// system; nothing is claimed of the answer.
#[verifier::external_body]
fn is_absolute(path: &str) -> (r: bool) {
    std::path::Path::new(path).is_absolute()
}

/// Why there is no place for the records.
#[derive(Debug)]
pub enum StorageError {
    /// The system names no directory for the settings.
    NoConfigDirectory,
    /// No directory is set, and the system names none.
    NoDataDirectory,
    /// The directory that is set, given here as it is with the home directory filled
    /// in, is not an absolute path.
    NotAbsolute(String),
}

/// The name under which the system knows the program.
pub const APPLICATION: &'static str = "pdoc";

/// `dir`, a `/`, and `name`.
pub open spec fn path_in(dir: Seq<char>, name: Seq<char>) -> Seq<char> {
    dir + seq!['/'] + name
}

/// The path of `name` in `dir`: see [`path_in`].
pub fn join(dir: &str, name: &str) -> (path: String)
    ensures
        path@ == path_in(dir@, name@),
{
    let mut path = dir.to_owned();
    push_char(&mut path, '/');
    path.append(name);
    path
}

/// The path of the file of settings, given the directory that the system names for
/// settings: the file `config.toml` in it. Without such a directory there is none.
pub fn config_file_in(config_dir: Option<String>) -> (r: Result<String, StorageError>)
    ensures
        match config_dir {
            Some(dir) => r matches Ok(path) && path@ == path_in(dir@, "config.toml"@),
            None => r matches Err(e) && e is NoConfigDirectory,
        },
{
    match config_dir {
        Some(dir) => Ok(join(dir.as_str(), "config.toml")),
        None => Err(StorageError::NoConfigDirectory),
    }
}

/// The path of the file of settings, in the directory that the system names for
/// settings: see [`config_file_in`].
pub fn get_config_file_path() -> (r: Result<String, StorageError>)
    ensures
        r matches Err(e) ==> e is NoConfigDirectory,
        r matches Ok(path) ==> "/config.toml"@.is_suffix_of(path@),
{
    let config_dir = match project_dirs(APPLICATION) {
        Some(dirs) => Some(config_dir_of(&dirs)),
        None => None,
    };
    match config_file_in(config_dir) {
        Ok(path) => {
            proof {
                reveal_strlit("config.toml");
                reveal_strlit("/config.toml");
                assert(path@.skip(path@.len() - 12) =~= "/config.toml"@);
                assert(path@ =~= path@.take(path@.len() - 12) + "/config.toml"@);
            }
            Ok(path)
        },
        Err(error) => Err(error),
    }
}

/// The directory of the data, decided from what was found out: `set` is the directory
/// that the settings name, with the home directory filled in, and whether it is an
/// absolute path; `default` is the directory that the system names. A directory that
/// is set is taken where it is absolute and refused where it is not; only where none
/// is set is the system's directory taken, where there is one.
pub fn choose_data_dir(set: Option<(String, bool)>, default: Option<String>) -> (r: Result<
    String,
    StorageError,
>)
    ensures
        r == match set {
            Some((dir, absolute)) => if absolute {
                Ok::<String, StorageError>(dir)
            } else {
                Err(StorageError::NotAbsolute(dir))
            },
            None => match default {
                Some(dir) => Ok(dir),
                None => Err(StorageError::NoDataDirectory),
            },
        },
{
    match set {
        Some((dir, absolute)) => if absolute {
            Ok(dir)
        } else {
            Err(StorageError::NotAbsolute(dir))
        },
        None => match default {
            Some(dir) => Ok(dir),
            None => Err(StorageError::NoDataDirectory),
        },
    }
}

/// The directory of the data. Where the settings name one, it is that one with the
/// home directory filled in, and must be absolute; where they name none, it is the one
/// that the system names, if it names one.
pub fn get_data_dir(config: &StorageConfig) -> (r: Result<String, StorageError>)
    ensures
        match config.data_dir {
            Some(dir) => match r {
                Ok(path) => is_tilde_expansion(dir@, path@),
                Err(StorageError::NotAbsolute(path)) => is_tilde_expansion(dir@, path@),
                Err(_) => false,
            },
            None => r matches Err(e) ==> e is NoDataDirectory,
        },
{
    match &config.data_dir {
        Some(dir) => {
            let expanded = tilde(dir.as_str());
            let absolute = is_absolute(expanded.as_str());
            choose_data_dir(Some((expanded, absolute)), None)
        },
        None => {
            let default = match project_dirs(APPLICATION) {
                Some(dirs) => Some(data_dir_of(&dirs)),
                None => None,
            };
            choose_data_dir(None, default)
        },
    }
}

/// The directory of the projects in the directory of the data.
pub fn get_projects_dir(data_dir: &str) -> (dir: String)
    ensures
        dir@ == path_in(data_dir@, "projects"@),
{
    join(data_dir, "projects")
}

/// The directory of the clients in the directory of the data.
pub fn get_clients_dir(data_dir: &str) -> (dir: String)
    ensures
        dir@ == path_in(data_dir@, "clients"@),
{
    join(data_dir, "clients")
}

/// The directory of the invoices in the directory of the data.
pub fn get_invoices_dir(data_dir: &str) -> (dir: String)
    ensures
        dir@ == path_in(data_dir@, "invoices"@),
{
    join(data_dir, "invoices")
}

/// The directory of the receipts in the directory of the data.
pub fn get_receipts_dir(data_dir: &str) -> (dir: String)
    ensures
        dir@ == path_in(data_dir@, "receipts"@),
{
    join(data_dir, "receipts")
}

/// The directory of the documents in the directory of the data.
pub fn get_pdfs_dir(data_dir: &str) -> (dir: String)
    ensures
        dir@ == path_in(data_dir@, "pdfs"@),
{
    join(data_dir, "pdfs")
}

/// The directory of the ledger entries in the directory of the data.
pub fn get_ledger_dir(data_dir: &str) -> (dir: String)
    ensures
        dir@ == path_in(data_dir@, "ledger"@),
{
    join(data_dir, "ledger")
}

/// The file of the owner's record in the directory of the data.
pub fn get_me_path(data_dir: &str) -> (path: String)
    ensures
        path@ == path_in(data_dir@, "me.yaml"@),
{
    join(data_dir, "me.yaml")
}

/// The file in which the project called `id` is looked for.
pub fn find_project(id: &Id, data_dir: &str) -> (path: String)
    ensures
        path@ == path_in(path_in(data_dir@, "projects"@), filename_of(id@)),
{
    let dir = get_projects_dir(data_dir);
    let name = id.to_filename();
    join(dir.as_str(), name.as_str())
}

/// The file in which the client called `id` is looked for.
pub fn find_client(id: &Id, data_dir: &str) -> (path: String)
    ensures
        path@ == path_in(path_in(data_dir@, "clients"@), filename_of(id@)),
{
    let dir = get_clients_dir(data_dir);
    let name = id.to_filename();
    join(dir.as_str(), name.as_str())
}

/// The file in which the invoice with the given number is looked for.
pub fn find_invoice(number: u32, data_dir: &str) -> (path: String)
    ensures
        path@ == path_in(path_in(data_dir@, "invoices"@), invoice_filename(number)),
{
    let dir = get_invoices_dir(data_dir);
    let mut name = decimal_text(number);
    name.append(".yaml");
    proof {
        reveal_strlit(".yaml");
        assert(".yaml"@ =~= extension());
    }
    join(dir.as_str(), name.as_str())
}

} // verus!
