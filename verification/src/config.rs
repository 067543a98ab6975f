//! What the program is set up with.

use crate::me::Me;
use vstd::prelude::*;

verus! {

/// Where the records are kept.
#[derive(Clone, Debug)]
pub struct StorageConfig {
    /// The directory of the records, if one is set. It may begin with `~` for the home
    /// directory, and must else be an absolute path.
    pub data_dir: Option<String>,
}

/// The settings of the program.
#[derive(Clone, Debug)]
pub struct Config {
    pub me: Me,
    pub storage: StorageConfig,
}

} // verus!
