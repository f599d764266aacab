use action_bridge::dispatch::handle_sync;
use action_bridge::registry::resolve_sync;
use action_bridge::registry::HandlerFamily;
use action_bridge::registry::ResolvedFamily;
use action_bridge::AsyncActionResult;
use std::sync::Mutex;
use tokio::runtime::Runtime;
use tokio::sync::mpsc::UnboundedSender;

struct EchoFamily;

impl HandlerFamily for EchoFamily {
    fn get_sync_handler(&self, action: &str) -> bool {
        action == "echo" || action == "fortytwo" || action == "bad" || action == "dup"
    }

    fn run_sync(&self, action: &str, args: &str) -> Result<String, String> {
        match action {
            "echo" => Ok(args.to_string()),
            "fortytwo" => Ok("42".to_string()),
            "bad" => Err("bad".to_string()),
            "dup" => Ok("first".to_string()),
            _ => Err("not mine".to_string()),
        }
    }

    fn get_async_handler(&self, _action: &str) -> bool {
        false
    }

    fn run_async(
        &mut self,
        _action: &str,
        _args: &str,
        _results: UnboundedSender<AsyncActionResult>,
        _runtime: &Mutex<Runtime>,
    ) {
    }
}

struct HostFamily;

impl HandlerFamily for HostFamily {
    fn get_sync_handler(&self, action: &str) -> bool {
        action == "host" || action == "dup"
    }

    fn run_sync(&self, action: &str, _args: &str) -> Result<String, String> {
        match action {
            "host" => Ok("hosted".to_string()),
            "dup" => Ok("second".to_string()),
            _ => Err("not mine".to_string()),
        }
    }

    fn get_async_handler(&self, _action: &str) -> bool {
        false
    }

    fn run_async(
        &mut self,
        _action: &str,
        _args: &str,
        _results: UnboundedSender<AsyncActionResult>,
        _runtime: &Mutex<Runtime>,
    ) {
    }
}

#[test]
fn sync_success_round_trip() {
    let r = handle_sync("fortytwo", "x", &EchoFamily, &HostFamily);
    assert_eq!(r, Ok("{ ok: true, result: 42 }".to_string()));
}

#[test]
fn sync_error_round_trip() {
    let r = handle_sync("bad", "x", &EchoFamily, &HostFamily);
    assert_eq!(r, Err("{ ok: false, error: bad }".to_string()));
}

#[test]
fn sync_echoes_arguments_verbatim() {
    let r = handle_sync("echo", "payload text", &EchoFamily, &HostFamily);
    assert_eq!(r, Ok("{ ok: true, result: payload text }".to_string()));
}

#[test]
fn sync_unhandled_names_action() {
    let r = handle_sync("nope", "x", &EchoFamily, &HostFamily);
    assert_eq!(
        r,
        Err("{ ok: false, error: \"The sync action nope was unhandled.\" }".to_string())
    );
}

#[test]
fn sync_resolution_prefers_first_family() {
    let r = handle_sync("dup", "x", &EchoFamily, &HostFamily);
    assert_eq!(r, Ok("{ ok: true, result: first }".to_string()));
}

#[test]
fn sync_resolution_is_deterministic() {
    for _ in 0..3 {
        assert_eq!(
            resolve_sync(&EchoFamily, &HostFamily, "dup"),
            Some(ResolvedFamily::First)
        );
    }
    assert_eq!(
        resolve_sync(&EchoFamily, &HostFamily, "host"),
        Some(ResolvedFamily::Second)
    );
    assert_eq!(resolve_sync(&EchoFamily, &HostFamily, "nope"), None);
}

#[test]
fn sync_second_family_serves_its_own_actions() {
    let r = handle_sync("host", "x", &EchoFamily, &HostFamily);
    assert_eq!(r, Ok("{ ok: true, result: hosted }".to_string()));
}
