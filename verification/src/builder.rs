//! Building the paths of configuration files under one base directory.

use vstd::prelude::*;
use crate::error::{ConfigError, ConfigErrorView};
use crate::paths::{join_path, path_join};

verus! {

/// The user's home directory, as this host names it now.
///
/// Calls `dirs::home_dir`, which asks the environment and the operating
/// system. What comes back depends on both, so the contract promises
/// nothing of it. A home directory whose name is not UTF-8 text cannot be
/// held here and counts as none.
#[verifier::external_body]
fn home_dir() -> (home: Option<String>) {
    dirs::home_dir().and_then(|home| home.into_os_string().into_string().ok())
}

/// Builds configuration paths below a base directory.
#[derive(Debug)]
pub struct ConfigPathBuilder {
    base_dir: String,
}

impl View for ConfigPathBuilder {
    type V = Seq<char>;

    /// The base directory.
    closed spec fn view(&self) -> Seq<char> {
        self.base_dir@
    }
}

impl ConfigPathBuilder {
    /// A builder whose base directory is `base_dir`, taken as it is.
    pub fn new(base_dir: String) -> (builder: Self)
        ensures
            builder@ == base_dir@,
    {
        ConfigPathBuilder { base_dir }
    }

    /// The path of `filename` below the base directory.
    pub fn build(&self, filename: &str) -> (path: String)
        ensures
            path@ == path_join(self@, filename@),
    {
        join_path(self.base_dir.as_str(), filename)
    }

    /// A builder for the directory `subdir` below the user's home
    /// directory. Fails with `HomeDirError`, and in no other way, where the
    /// host names no home directory.
    pub fn from_home_subdir(subdir: &str) -> (result: Result<Self, ConfigError>)
        ensures
            match result {
                Ok(builder) => exists|home: Seq<char>| builder@ == #[trigger] path_join(home, subdir@),
                Err(error) => error@ == ConfigErrorView::HomeDirError,
            },
    {
        let home = home_dir();
        ConfigPathBuilder::with_home(home, subdir)
    }

    /// A builder for the directory `subdir` below `home`, the home
    /// directory as far as one is known.
    pub fn with_home(home: Option<String>, subdir: &str) -> (result: Result<Self, ConfigError>)
        ensures
            match home {
                Some(dir) => result matches Ok(builder) && builder@ == path_join(dir@, subdir@),
                None => result matches Err(error) && error@ == ConfigErrorView::HomeDirError,
            },
    {
        match home {
            Some(dir) => Ok(ConfigPathBuilder::new(join_path(dir.as_str(), subdir))),
            None => Err(ConfigError::HomeDirError),
        }
    }
}

} // verus!
