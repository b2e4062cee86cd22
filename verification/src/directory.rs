//! Directory resolution: a chosen directory stands as it is, and the
//! home-relative default takes its place where none was chosen.

use crate::errors::{seen, DatabaseConfigError, Failure, FailureModel};
use vstd::prelude::*;

verus! {

/// The home-relative default of the binary cache.
pub open spec fn binary_default() -> Seq<char> {
    "~/.cache/weaviate-embedded/"@
}

/// The home-relative default of the data directory.
pub open spec fn data_default() -> Seq<char> {
    "~/.local/share/weaviate"@
}

/// The two defaults after the home directory was put in place of the tilde;
/// `None` where that could not be done.
#[derive(Debug, Clone, PartialEq, Eq, Hash)]
pub struct HomeDefaults {
    pub binary: Option<String>,
    pub data: Option<String>,
}

/// What `HomeDefaults` stands for.
pub struct HomeModel {
    pub binary: Option<Seq<char>>,
    pub data: Option<Seq<char>>,
}

/// An optional string, seen as the characters it holds.
pub open spec fn text_opt(o: Option<String>) -> Option<Seq<char>> {
    match o {
        Some(s) => Some(s@),
        None => None,
    }
}

impl View for HomeDefaults {
    type V = HomeModel;

    open spec fn view(&self) -> HomeModel {
        HomeModel { binary: text_opt(self.binary), data: text_opt(self.data) }
    }
}

/// The directory to use: the chosen one, else the expanded default; where
/// there is neither, a failure about the default that could not be expanded.
pub open spec fn chosen_directory(
    chosen: Option<Seq<char>>,
    expanded: Option<Seq<char>>,
    default: Seq<char>,
) -> Result<Seq<char>, FailureModel<DatabaseConfigError>> {
    match chosen {
        Some(dir) => Ok(dir),
        None => match expanded {
            Some(dir) => Ok(dir),
            None => Err(
                FailureModel { error: DatabaseConfigError::DefaultPathError, subject: default },
            ),
        },
    }
}

/// `simple_home_dir::expand_tilde`: the path with the user's home directory in
/// place of a leading tilde, as far as the environment names one. The result
/// depends on the environment, so nothing is claimed of it. A path that is not
/// valid Unicode is handed on as `None`.
#[verifier::external_body]
fn expand_tilde(path: &str) -> (expanded: Option<String>) {
    match simple_home_dir::expand_tilde(path) {
        Some(p) => p.into_os_string().into_string().ok(),
        None => None,
    }
}

/// Picks the directory to use from the choice, the expanded default and the
/// default as it is written.
pub fn pick_directory(chosen: Option<String>, expanded: Option<String>, default: &str) -> (r:
    Result<String, Failure<DatabaseConfigError>>)
    ensures
        seen(r) == chosen_directory(text_opt(chosen), text_opt(expanded), default@),
{
    match chosen {
        Some(dir) => Ok(dir),
        None => match expanded {
            Some(dir) => Ok(dir),
            None => Err(Failure::about(DatabaseConfigError::DefaultPathError, default)),
        },
    }
}

/// The home-relative default of the binary cache.
pub fn binary_home() -> (path: &'static str)
    ensures
        path@ == binary_default(),
{
    "~/.cache/weaviate-embedded/"
}

/// The home-relative default of the data directory.
pub fn data_home() -> (path: &'static str)
    ensures
        path@ == data_default(),
{
    "~/.local/share/weaviate"
}

/// Expands the two home-relative defaults in the current environment.
pub fn home_defaults() -> (home: HomeDefaults) {
    HomeDefaults { binary: expand_tilde(binary_home()), data: expand_tilde(data_home()) }
}

} // verus!
