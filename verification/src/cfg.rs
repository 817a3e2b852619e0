//! What the operator configures: the files to import and the store to
//! import them into.

use vstd::prelude::*;

verus! {

/// What the command line holds.
#[derive(Clone, Debug)]
pub struct Opt {
    /// The score files to read, in the order in which they are imported.
    pub file_names: Vec<String>,
    /// Where the configuration file is, if the operator said so.
    pub config_file: Option<String>,
}

/// What the configuration file holds.
#[derive(Clone, Debug)]
pub struct ConfigFile {
    pub postgresql: Postgresql,
}

/// The whole configuration of a run.
#[derive(Clone, Debug)]
pub struct Config {
    pub cf: ConfigFile,
    pub opt: Opt,
}

/// How to reach the store. `password`, `port` and `database` may be empty.
#[derive(Clone, Debug)]
pub struct Postgresql {
    pub username: String,
    pub password: String,
    pub host: String,
    pub port: String,
    pub database: String,
}

} // verus!
