//! Process configuration: the one value the server is started with.

use vstd::prelude::*;
use std::path::PathBuf;
use vstd::std_specs::convert::IntoSpec;

verus! {

/// Application configuration.
#[derive(Debug, Clone)]
pub struct AppConfig {
    /// Path to the task document.
    pub tasks_file_path: PathBuf,
}

impl AppConfig {
    /// A configuration that points at `path`. The path is what the
    /// argument's own `Into<PathBuf>` conversion gives, and where that
    /// conversion has a model, it is the model's value.
    pub fn with_file_path<P: Into<PathBuf>>(path: P) -> (config: Self)
        ensures
            call_ensures(P::into, (path,), config.tasks_file_path),
            P::obeys_into_spec() ==> config.tasks_file_path == path.into_spec(),
    {
        AppConfig { tasks_file_path: path.into() }
    }
}

} // verus!
