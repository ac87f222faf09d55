//! The application context: an explicit value handed to each command
//! invocation, holding the resolved data directory when setup succeeded.

use vstd::prelude::*;
use vstd::string::StringExecFns;

verus! {

/// The shared application context. It holds the resolved data directory
/// when setup succeeded, and nothing when setup failed; a command that
/// touches state can then only fail.
pub struct AppState {
    dir: Option<String>,
}

impl AppState {
    /// Whether setup succeeded and a data directory is held.
    pub closed spec fn is_ready(&self) -> bool {
        self.dir is Some
    }

    /// The resolved data directory path.
    pub closed spec fn dir_view(&self) -> Seq<char>
        recommends
            self.is_ready(),
    {
        self.dir->Some_0@
    }

    /// The state registered after a successful setup, owning the
    /// resolved data directory for the lifetime of the process.
    pub fn default_state(dir: String) -> (s: AppState)
        ensures
            s.is_ready(),
            s.dir_view() == dir@,
    {
        AppState { dir: Some(dir) }
    }

    /// The state of a process whose setup failed: nothing is held.
    pub fn unconfigured() -> (s: AppState)
        ensures
            !s.is_ready(),
    {
        AppState { dir: None }
    }

    /// Resolves a caller-supplied file name against the data directory,
    /// as `directory/name`. No sanitization against path traversal is
    /// applied: the name is joined as given. Fails exactly when setup
    /// failed and no directory is held.
    pub fn resolve_path(&self, name: &str) -> (r: Result<String, String>)
        ensures
            self.is_ready() ==> r is Ok && r->Ok_0@ == self.dir_view() + "/"@ + name@,
            !self.is_ready() ==> r is Err,
    {
        match &self.dir {
            Some(dir) => Ok(dir.clone().concat("/").concat(name)),
            None => Err("application state is not managed".to_owned()),
        }
    }
}

} // verus!
