//! The scoped file commands' reply logic: mapping the outcome of the
//! open/read/write performed on the resolved path to the value or the
//! descriptive error string returned to the caller.

use vstd::prelude::*;
use vstd::string::StringExecFns;

verus! {

/// The outcome of opening the resolved path for reading (creating an
/// empty file if absent) and reading its whole contents as text.
pub enum ReadOutcome {
    /// The file was opened and its full text read.
    Content { text: String },
    /// The file was opened but reading it failed, with this description.
    ReadFailed { error: String },
    /// Opening the file failed, with this description.
    OpenFailed { error: String },
}

/// The outcome of opening the resolved path for writing (creating the
/// file if absent) and writing the full new contents.
pub enum WriteOutcome {
    /// The data was written in full.
    Written,
    /// The file was opened but writing failed, with this description.
    WriteFailed { error: String },
    /// Opening the file failed, with this description.
    OpenFailed { error: String },
}

/// What `read_file` returns to the caller for each outcome: the full
/// text on success, a descriptive error otherwise — the open failure
/// includes the offending path.
pub open spec fn read_reply(path: Seq<char>, outcome: ReadOutcome, r: Result<String, String>) -> bool {
    match outcome {
        ReadOutcome::Content { text } => r is Ok && r->Ok_0@ == text@,
        ReadOutcome::ReadFailed { error } => r is Err && r->Err_0@ == "--- "@ + error@,
        ReadOutcome::OpenFailed { error } => r is Err && r->Err_0@ == "<<< "@ + path + " "@
            + error@,
    }
}

/// read_file, after the filesystem has answered: every outcome is
/// converted to a reply, failures to a descriptive error string.
pub fn finish_read(path: &str, outcome: ReadOutcome) -> (r: Result<String, String>)
    ensures
        read_reply(path@, outcome, r),
{
    match outcome {
        ReadOutcome::Content { text } => Ok(text),
        ReadOutcome::ReadFailed { error } => Err("--- ".to_owned().concat(error.as_str())),
        ReadOutcome::OpenFailed { error } => Err(
            "<<< ".to_owned().concat(path).concat(" ").concat(error.as_str()),
        ),
    }
}

/// What `write_file` returns to the caller for each outcome: empty
/// success, or a descriptive error — the open failure includes the
/// offending path.
pub open spec fn write_reply(path: Seq<char>, outcome: WriteOutcome, r: Result<(), String>) -> bool {
    match outcome {
        WriteOutcome::Written => r is Ok,
        WriteOutcome::WriteFailed { error } => r is Err && r->Err_0@ == error@,
        WriteOutcome::OpenFailed { error } => r is Err && r->Err_0@ == path + " "@ + error@,
    }
}

/// write_file, after the filesystem has answered: every outcome is
/// converted to a reply, failures to a descriptive error string.
pub fn finish_write(path: &str, outcome: WriteOutcome) -> (r: Result<(), String>)
    ensures
        write_reply(path@, outcome, r),
{
    match outcome {
        WriteOutcome::Written => Ok(()),
        WriteOutcome::WriteFailed { error } => Err(error),
        WriteOutcome::OpenFailed { error } => Err(
            path.to_owned().concat(" ").concat(error.as_str()),
        ),
    }
}

} // verus!
