use tauri_elm::dispatch::{dispatch, resolve_command, Command, CommandKind, DispatchStep, Reply};
use tauri_elm::http::{http_request_reply, FetchOutcome, HttpRequest};
use tauri_elm::setup::finish_setup;
use tauri_elm::setup::resolve_data_dir;
use tauri_elm::state::AppState;

#[test]
fn resolve_knows_every_command() {
    assert_eq!(resolve_command("greet"), Some(CommandKind::Greet));
    assert_eq!(resolve_command("data"), Some(CommandKind::Data));
    assert_eq!(resolve_command("get_waffle"), Some(CommandKind::GetWaffle));
    assert_eq!(resolve_command("http_request"), Some(CommandKind::HttpRequest));
    assert_eq!(resolve_command("read_file"), Some(CommandKind::ReadFile));
    assert_eq!(resolve_command("write_file"), Some(CommandKind::WriteFile));
}

#[test]
fn resolve_rejects_an_unknown_command() {
    assert_eq!(resolve_command("delete_file"), None);
    assert_eq!(resolve_command(""), None);
    assert_eq!(resolve_command("Greet"), None);
}

#[test]
fn dispatch_greet_replies_with_the_greeting() {
    let state = AppState::default_state("/data".to_string());
    let step = dispatch(&state, Command::Greet { name: "waffles".to_string() });
    match step {
        DispatchStep::Replied(Ok(Reply::Greeting(g))) => {
            assert_eq!(g, "Hello Elm 'waffles', welcome to Tauri");
        }
        _ => panic!("expected a greeting reply"),
    }
}

#[test]
fn dispatch_data_replies_with_the_fixed_payload() {
    let state = AppState::default_state("/data".to_string());
    match dispatch(&state, Command::Data) {
        DispatchStep::Replied(Ok(Reply::DataPayload(d))) => assert_eq!(d.waffles, "are great"),
        _ => panic!("expected the data payload"),
    }
}

#[test]
fn dispatch_get_waffle_replies_with_the_fixed_payload() {
    let state = AppState::default_state("/data".to_string());
    match dispatch(&state, Command::GetWaffle) {
        DispatchStep::Replied(Ok(Reply::WafflePayload(w))) => assert_eq!(w.count, 12),
        _ => panic!("expected the waffle payload"),
    }
}

#[test]
fn dispatch_http_request_asks_for_the_callers_url() {
    let state = AppState::default_state("/data".to_string());
    let request = HttpRequest { url: "http://localhost:8000/x".to_string() };
    match dispatch(&state, Command::HttpRequest { request }) {
        DispatchStep::FetchUrl { url } => assert_eq!(url, "http://localhost:8000/x"),
        _ => panic!("expected a fetch action"),
    }
}

#[test]
fn dispatch_read_file_resolves_against_the_data_directory() {
    let state = AppState::default_state("/data".to_string());
    match dispatch(&state, Command::ReadFile { name: "notes.txt".to_string() }) {
        DispatchStep::OpenRead { path } => assert_eq!(path, "/data/notes.txt"),
        _ => panic!("expected a read action"),
    }
}

#[test]
fn dispatch_write_file_resolves_against_the_data_directory() {
    let state = AppState::default_state("/data".to_string());
    let cmd = Command::WriteFile { name: "notes.txt".to_string(), data: "hello".to_string() };
    match dispatch(&state, cmd) {
        DispatchStep::OpenWrite { path, data } => {
            assert_eq!(path, "/data/notes.txt");
            assert_eq!(data, "hello");
        }
        _ => panic!("expected a write action"),
    }
}

#[test]
fn dispatch_file_commands_fail_without_setup() {
    let state = AppState::unconfigured();
    match dispatch(&state, Command::ReadFile { name: "notes.txt".to_string() }) {
        DispatchStep::Replied(Err(_)) => {}
        _ => panic!("a file command must fail when setup failed"),
    }
    let cmd = Command::WriteFile { name: "notes.txt".to_string(), data: "hello".to_string() };
    match dispatch(&state, cmd) {
        DispatchStep::Replied(Err(_)) => {}
        _ => panic!("a file command must fail when setup failed"),
    }
}

#[test]
fn resolve_path_unconfigured_fails() {
    let state = AppState::unconfigured();
    assert!(state.resolve_path("notes.txt").is_err());
}

#[test]
fn resolve_path_joins_directory_and_name() {
    let state = AppState::default_state("/data".to_string());
    assert_eq!(state.resolve_path("notes.txt"), Ok("/data/notes.txt".to_string()));
}

#[test]
fn finish_setup_success_registers_a_ready_state() {
    let state = match finish_setup("/data".to_string(), None) {
        Ok(s) => s,
        Err(e) => panic!("setup must succeed: {}", e.message()),
    };
    assert_eq!(state.resolve_path("f").unwrap(), "/data/f");
}

#[test]
fn finish_setup_create_failure_aborts_with_a_description() {
    match finish_setup("/data".to_string(), Some("boom".to_string())) {
        Ok(_) => panic!("setup must fail when the directory cannot be created"),
        Err(e) => {
            assert_eq!(e.detail, "Could not create data dir: boom");
            assert_eq!(e.message(), "There is an error: Could not create data dir: boom");
        }
    }
}

#[test]
fn resolve_data_dir_failure_carries_the_fixed_detail() {
    match resolve_data_dir() {
        Ok(dir) => assert!(!dir.is_empty()),
        Err(e) => assert_eq!(e.detail, "Could not setup plugin"),
    }
}

#[test]
fn http_reply_success_keeps_status_and_body() {
    let outcome = FetchOutcome::Fetched { status: 200, body: "payload".to_string() };
    match http_request_reply(outcome) {
        Ok(resp) => {
            assert_eq!(resp.status, 200);
            assert_eq!(resp.body, "payload");
        }
        Err(e) => panic!("expected success: {}", e),
    }
}

#[test]
fn http_reply_transport_failure_is_described() {
    let outcome = FetchOutcome::RequestFailed { error: "connection refused".to_string() };
    let r = http_request_reply(outcome);
    assert_eq!(r.map(|_| ()), Err("Could not make request: connection refused".to_string()));
}

#[test]
fn http_reply_decode_failure_is_described() {
    let outcome = FetchOutcome::TextFailed { status: 200, error: "bad charset".to_string() };
    let r = http_request_reply(outcome);
    assert_eq!(r.map(|_| ()), Err("Could not get text from response: bad charset".to_string()));
}

#[test]
fn http_request_to_an_unreachable_address_is_an_error() {
    let outcome = match reqwest::blocking::get("http://127.0.0.1:1") {
        Ok(resp) => panic!("nothing should answer on this port: {}", resp.status()),
        Err(err) => FetchOutcome::RequestFailed { error: err.to_string() },
    };
    match http_request_reply(outcome) {
        Ok(_) => panic!("a transport failure must be reported"),
        Err(message) => assert!(message.starts_with("Could not make request: ")),
    }
}
