//! The directory in which the application keeps its files.

use std::path::PathBuf;
use vstd::prelude::*;

verus! {

/// `std::path::PathBuf`, declared so that it can be held and handed on.
/// Nothing inside it is visible.
#[verifier::external_type_specification]
#[verifier::external_body]
pub struct ExPathBuf(std::path::PathBuf);

/// The path that `std::path::Path::join` makes of a directory and a
/// relative name, on the platform that the library is built for.
pub uninterp spec fn joined(base: PathBuf, name: Seq<char>) -> PathBuf;

/// `std::path::Path::join`.
#[verifier::external_body]
fn join(base: &PathBuf, name: &str) -> (path: PathBuf)
    ensures
        path == joined(*base, name@),
{
    base.join(name)
}

/// The path that a text stands for.
pub uninterp spec fn path_of(text: Seq<char>) -> PathBuf;

/// `std::path::PathBuf::from`, on a text.
#[verifier::external_body]
pub(crate) fn path_from(text: &str) -> (path: PathBuf)
    ensures
        path == path_of(text@),
{
    PathBuf::from(text)
}

/// `dirs::data_local_dir`: the user's directory for local application
/// data, where the environment names one.
#[verifier::external_body]
fn data_local_dir() -> Option<PathBuf> {
    dirs::data_local_dir()
}

/// Why no directory could be chosen.
#[derive(Debug, Clone, Copy, PartialEq, Eq, Structural)]
pub enum AppDirsError {
    /// The environment names no directory for application data.
    NotFound,
}

/// The application's directory.
pub struct AppDirs {
    base_dir: PathBuf,
}

impl AppDirs {
    /// The directory itself.
    pub closed spec fn base(&self) -> PathBuf {
        self.base_dir
    }

    /// The application's directory, given the directory for application
    /// data that the environment names: `override_dir` where one is given,
    /// else `Syncthingers` under the data directory.
    pub fn resolve(override_dir: Option<PathBuf>, data_dir: Option<PathBuf>) -> (r: Result<
        AppDirs,
        AppDirsError,
    >)
        ensures
            match (override_dir, data_dir) {
                (Some(dir), _) => r matches Ok(d) && d.base() == dir,
                (None, Some(data)) => r matches Ok(d) && d.base() == joined(data, "Syncthingers"@),
                (None, None) => r == Err::<AppDirs, AppDirsError>(AppDirsError::NotFound),
            },
    {
        match override_dir {
            Some(dir) => Ok(AppDirs { base_dir: dir }),
            None => match data_dir {
                Some(data) => Ok(AppDirs { base_dir: join(&data, "Syncthingers") }),
                None => Err(AppDirsError::NotFound),
            },
        }
    }

    /// The application's directory: `override_dir` where one is given, else
    /// `Syncthingers` under the user's directory for local application
    /// data. It fails where none is given and the environment names no such
    /// directory.
    pub fn new(override_dir: Option<PathBuf>) -> (r: Result<AppDirs, AppDirsError>)
        ensures
            override_dir matches Some(dir) ==> r matches Ok(d) && d.base() == dir,
            r matches Err(e) ==> e == AppDirsError::NotFound && override_dir is None,
    {
        match override_dir {
            Some(dir) => AppDirs::resolve(Some(dir), None),
            None => AppDirs::resolve(None, data_local_dir()),
        }
    }

    /// The directory itself.
    pub fn base_dir(&self) -> (dir: &PathBuf)
        ensures
            *dir == self.base(),
    {
        &self.base_dir
    }

    /// The path of the configuration file.
    pub fn config_file_path(&self) -> (path: PathBuf)
        ensures
            path == joined(self.base(), "configuration.json"@),
    {
        join(&self.base_dir, "configuration.json")
    }

    /// The path of the log file.
    pub fn log_file_path(&self) -> (path: PathBuf)
        ensures
            path == joined(self.base(), "syncthingers.log"@),
    {
        join(&self.base_dir, "syncthingers.log")
    }
}

} // verus!
