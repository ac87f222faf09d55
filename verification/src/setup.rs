//! Plugin setup: resolving the per-application data directory and
//! registering the application state, or failing startup with a
//! descriptive error and registering nothing.

use vstd::prelude::*;
use vstd::string::StringExecFns;
use crate::state::AppState;

verus! {

/// A fatal setup failure: directory resolution or creation failed, so
/// application startup is aborted and no state is registered.
pub struct SetupError {
    pub detail: String,
}

impl SetupError {
    /// The user-visible description, as the error reports itself.
    pub fn message(&self) -> (r: String)
        ensures
            r@ == "There is an error: "@ + self.detail@,
    {
        "There is an error: ".to_owned().concat(self.detail.as_str())
    }
}

/// Relies on `directories::ProjectDirs::from` and
/// `ProjectDirs::data_dir`: the OS-appropriate per-application data
/// directory for the fixed "com" / "tauri-elm" / "test-app"
/// identifiers, or nothing when the OS reports no home directory for
/// the current user. The result depends on the environment, so nothing
/// is promised of it.
#[verifier::external_body]
fn project_data_dir() -> Option<String> {
    directories::ProjectDirs::from("com", "tauri-elm", "test-app")
        .map(|d| d.data_dir().to_string_lossy().into_owned())
}

/// First half of setup: resolve the per-application data directory from
/// the compiled-in identifiers. Whatever the environment yields, a
/// failure carries exactly the fixed detail text; a success hands the
/// resolved path on, for the directory to be created on disk.
pub fn resolve_data_dir() -> (r: Result<String, SetupError>)
    ensures
        r is Err ==> r->Err_0.detail@ == "Could not setup plugin"@,
{
    match project_data_dir() {
        Some(dir) => Ok(dir),
        None => Err(SetupError { detail: "Could not setup plugin".to_owned() }),
    }
}

/// Second half of setup: given the outcome of creating the data
/// directory on disk (`None` for success, `Some(e)` with the failure
/// description otherwise), either register the application state owning
/// the directory, or fail setup with a descriptive error. On failure no
/// state is registered at all.
pub fn finish_setup(dir: String, create_error: Option<String>) -> (r: Result<AppState, SetupError>)
    ensures
        create_error is None ==> r is Ok && r->Ok_0.is_ready() && r->Ok_0.dir_view() == dir@,
        create_error is Some ==> r is Err && r->Err_0.detail@ == "Could not create data dir: "@
            + create_error->Some_0@,
{
    match create_error {
        None => Ok(AppState::default_state(dir)),
        Some(e) => Err(
            SetupError {
                detail: "Could not create data dir: ".to_owned().concat(e.as_str()),
            },
        ),
    }
}

} // verus!
