//! The command dispatcher: resolution from a command name to its
//! handler, and one step of dispatch over the application context.
//! Synchronous demo commands are answered at once; commands that need
//! the filesystem or the network are answered with the exact action to
//! perform, and their replies are completed by the handlers' own
//! finishing functions.

use vstd::prelude::*;
use vstd::string::StringExecFns;
use crate::demo::Data;
use crate::demo::Waffle;
use crate::demo::data;
use crate::demo::get_waffle;
use crate::demo::greet;
use crate::http::HttpRequest;
use crate::state::AppState;

verus! {

/// The commands the backend exposes, one per handler.
#[derive(Clone, Copy, PartialEq, Eq, Structural, Debug)]
pub enum CommandKind {
    Greet,
    Data,
    GetWaffle,
    HttpRequest,
    ReadFile,
    WriteFile,
}

/// Routing: maps a command name to its handler; an unknown name is a
/// routing error and resolves to nothing.
pub fn resolve_command(name: &str) -> (r: Option<CommandKind>)
    ensures
        name@ == "greet"@ ==> r == Some(CommandKind::Greet),
        name@ == "data"@ ==> r == Some(CommandKind::Data),
        name@ == "get_waffle"@ ==> r == Some(CommandKind::GetWaffle),
        name@ == "http_request"@ ==> r == Some(CommandKind::HttpRequest),
        name@ == "read_file"@ ==> r == Some(CommandKind::ReadFile),
        name@ == "write_file"@ ==> r == Some(CommandKind::WriteFile),
        name@ != "greet"@ && name@ != "data"@ && name@ != "get_waffle"@ && name@
            != "http_request"@ && name@ != "read_file"@ && name@ != "write_file"@ ==> r is None,
{
    proof {
        reveal_strlit("greet");
        reveal_strlit("data");
        reveal_strlit("get_waffle");
        reveal_strlit("http_request");
        reveal_strlit("read_file");
        reveal_strlit("write_file");
        assert("greet"@.len() == 5);
        assert("data"@.len() == 4);
        assert("get_waffle"@.len() == 10);
        assert("http_request"@.len() == 12);
        assert("read_file"@.len() == 9);
        assert("write_file"@.len() == 10);
        assert("get_waffle"@ != "write_file"@) by {
            assert("get_waffle"@[0] == 'g' && "write_file"@[0] == 'w');
        }
    }
    let owned = name.to_owned();
    if owned == "greet".to_owned() {
        Some(CommandKind::Greet)
    } else if owned == "data".to_owned() {
        Some(CommandKind::Data)
    } else if owned == "get_waffle".to_owned() {
        Some(CommandKind::GetWaffle)
    } else if owned == "http_request".to_owned() {
        Some(CommandKind::HttpRequest)
    } else if owned == "read_file".to_owned() {
        Some(CommandKind::ReadFile)
    } else if owned == "write_file".to_owned() {
        Some(CommandKind::WriteFile)
    } else {
        None
    }
}

/// One invocation, with its deserialized arguments.
pub enum Command {
    Greet { name: String },
    Data,
    GetWaffle,
    HttpRequest { request: HttpRequest },
    ReadFile { name: String },
    WriteFile { name: String, data: String },
}

/// A successful reply, one shape per command.
pub enum Reply {
    Greeting(String),
    DataPayload(Data),
    WafflePayload(Waffle),
    FileText(String),
    Written,
}

/// What one step of dispatch yields: either the reply itself, or the
/// exact filesystem or network action whose outcome completes it.
pub enum DispatchStep {
    Replied(Result<Reply, String>),
    FetchUrl { url: String },
    OpenRead { path: String },
    OpenWrite { path: String, data: String },
}

/// What dispatch yields for each command over a given context: demo
/// commands are answered as their handlers promise; the HTTP proxy
/// command asks for a GET of exactly the caller's URL; the file
/// commands ask for the open on exactly the resolved path when the
/// context is ready, and are answered with an error when setup failed.
pub open spec fn dispatch_post(state: AppState, cmd: Command, step: DispatchStep) -> bool {
    match cmd {
        Command::Greet { name } => match step {
            DispatchStep::Replied(r) => {
                &&& name@ == "waffles"@ ==> r is Ok && (r->Ok_0 matches Reply::Greeting(g)
                    && g@ == "Hello Elm '"@ + name@ + "', welcome to Tauri"@)
                &&& name@ != "waffles"@ ==> r is Err && r->Err_0@ == "fbfbfbfbf"@
            },
            _ => false,
        },
        Command::Data => match step {
            DispatchStep::Replied(r) => r is Ok && (r->Ok_0 matches Reply::DataPayload(d)
                && d.waffles@ == "are great"@),
            _ => false,
        },
        Command::GetWaffle => match step {
            DispatchStep::Replied(r) => r is Ok && (r->Ok_0 matches Reply::WafflePayload(w)
                && w.count == 12),
            _ => false,
        },
        Command::HttpRequest { request } => step matches DispatchStep::FetchUrl { url }
            && url@ == request.url@,
        Command::ReadFile { name } => {
            &&& state.is_ready() ==> (step matches DispatchStep::OpenRead { path }
                && path@ == state.dir_view() + "/"@ + name@)
            &&& !state.is_ready() ==> (step matches DispatchStep::Replied(r) && r is Err)
        },
        Command::WriteFile { name, data } => {
            &&& state.is_ready() ==> (step matches DispatchStep::OpenWrite { path, data: d }
                && path@ == state.dir_view() + "/"@ + name@ && d@ == data@)
            &&& !state.is_ready() ==> (step matches DispatchStep::Replied(r) && r is Err)
        },
    }
}

/// Dispatches one command over the application context.
pub fn dispatch(state: &AppState, cmd: Command) -> (step: DispatchStep)
    ensures
        dispatch_post(*state, cmd, step),
{
    match cmd {
        Command::Greet { name } => match greet(name.as_str()) {
            Ok(g) => DispatchStep::Replied(Ok(Reply::Greeting(g))),
            Err(e) => DispatchStep::Replied(Err(e)),
        },
        Command::Data => match data() {
            Ok(d) => DispatchStep::Replied(Ok(Reply::DataPayload(d))),
            Err(e) => DispatchStep::Replied(Err(e)),
        },
        Command::GetWaffle => match get_waffle() {
            Ok(w) => DispatchStep::Replied(Ok(Reply::WafflePayload(w))),
            Err(e) => DispatchStep::Replied(Err(e)),
        },
        Command::HttpRequest { request } => DispatchStep::FetchUrl { url: request.url },
        Command::ReadFile { name } => match state.resolve_path(name.as_str()) {
            Ok(path) => DispatchStep::OpenRead { path },
            Err(e) => DispatchStep::Replied(Err(e)),
        },
        Command::WriteFile { name, data } => match state.resolve_path(name.as_str()) {
            Ok(path) => DispatchStep::OpenWrite { path, data },
            Err(e) => DispatchStep::Replied(Err(e)),
        },
    }
}

/// If directory-resolution setup failed, no command that touches state
/// can succeed: dispatch answers every file command with an error and
/// asks for no filesystem action at all.
pub proof fn lemma_unready_state_fails(state: AppState, cmd: Command, step: DispatchStep)
    requires
        dispatch_post(state, cmd, step),
        !state.is_ready(),
        cmd is ReadFile || cmd is WriteFile,
    ensures
        step matches DispatchStep::Replied(r) && r is Err,
{
}

} // verus!
