use command_bridge::bootstrap::{command_table, setup_plan, uses_windowless_subsystem, BuildMode, Host};
use command_bridge::commands::{get_backend_url, greet, CommandId};
use command_bridge::dispatch::{run_command, Dispatcher};
use command_bridge::error::BridgeError;
use command_bridge::registry::Registry;
use command_bridge::window::{content_source_for, main_window_label, ContentSource, WindowManager, WindowState};
use command_bridge::wire::{decode_text_arg, encode_text, ArgField, WireValue};

fn text(s: &str) -> WireValue {
    WireValue::Str(s.to_string())
}

fn name_arg(v: WireValue) -> Vec<ArgField> {
    vec![ArgField::new("name", v)]
}

#[test]
fn greet_formats_greeting() {
    assert_eq!(greet("Ada"), "Hello, Ada! You've been greeted from Rust!");
    assert_eq!(greet(""), "Hello, ! You've been greeted from Rust!");
}

#[test]
fn greet_contains_name_and_is_deterministic() {
    for name in ["x", "Grace Hopper", "ünïcødé", "{}!"] {
        let g = greet(name);
        assert!(g.contains(name));
        assert!(g.starts_with("Hello, "));
        assert!(g.ends_with("! You've been greeted from Rust!"));
        assert_eq!(g.chars().count(), name.chars().count() + 39);
        assert_eq!(g, greet(name));
    }
}

#[test]
fn backend_url_is_fixed() {
    assert_eq!(get_backend_url(), "http://localhost:5001");
    assert_eq!(get_backend_url(), get_backend_url());
}

#[test]
fn end_to_end_greet_and_backend_url() {
    let host = Host::start(BuildMode::Development);
    let r = host.invoke("greet", &name_arg(text("Ada")));
    assert_eq!(r, Ok(text("Hello, Ada! You've been greeted from Rust!")));
    let u = host.invoke("get_backend_url", &[]);
    assert_eq!(u, Ok(text("http://localhost:5001")));
}

#[test]
fn backend_url_ignores_arguments() {
    let host = Host::start(BuildMode::Release);
    let before = host.invoke("get_backend_url", &[]);
    let with_args = host.invoke("get_backend_url", &name_arg(WireValue::Int(3)));
    let after = host.invoke("get_backend_url", &[]);
    assert_eq!(before, Ok(text("http://localhost:5001")));
    assert_eq!(with_args, before);
    assert_eq!(after, before);
}

#[test]
fn unknown_command_is_reported() {
    let host = Host::start(BuildMode::Development);
    assert_eq!(host.invoke("shutdown", &[]), Err(BridgeError::UnknownCommand));
    assert_eq!(host.invoke("", &[]), Err(BridgeError::UnknownCommand));
    assert_eq!(host.invoke("Greet", &name_arg(text("Ada"))), Err(BridgeError::UnknownCommand));
}

#[test]
fn greet_with_non_string_argument_is_decode_error() {
    let host = Host::start(BuildMode::Development);
    for v in [WireValue::Null, WireValue::Bool(true), WireValue::Int(42), WireValue::Other] {
        assert_eq!(host.invoke("greet", &name_arg(v)), Err(BridgeError::ArgumentDecodeError));
    }
    assert_eq!(host.invoke("greet", &[]), Err(BridgeError::ArgumentDecodeError));
    let wrong_key = vec![ArgField::new("who", text("Ada"))];
    assert_eq!(host.invoke("greet", &wrong_key), Err(BridgeError::ArgumentDecodeError));
}

#[test]
fn greet_reads_first_name_field() {
    let host = Host::start(BuildMode::Development);
    let args = vec![
        ArgField::new("other", WireValue::Int(1)),
        ArgField::new("name", text("Lin")),
        ArgField::new("name", text("Max")),
    ];
    assert_eq!(host.invoke("greet", &args), Ok(text("Hello, Lin! You've been greeted from Rust!")));
    let first_wrong = vec![ArgField::new("name", WireValue::Null), ArgField::new("name", text("Max"))];
    assert_eq!(host.invoke("greet", &first_wrong), Err(BridgeError::ArgumentDecodeError));
}

#[test]
fn duplicate_registration_fails() {
    let mut reg = Registry::new();
    assert_eq!(reg.register("greet", CommandId::Greet), Ok(()));
    assert_eq!(reg.register("greet", CommandId::GetBackendUrl), Err(BridgeError::DuplicateCommand));
    assert_eq!(reg.resolve("greet"), Ok(CommandId::Greet));
}

#[test]
fn duplicate_table_fails_before_window() {
    let table = [("greet", CommandId::Greet), ("greet", CommandId::Greet)];
    assert!(matches!(Registry::from_table(&table), Err(BridgeError::DuplicateCommand)));
    assert!(matches!(Host::start_with(BuildMode::Development, &table), Err(BridgeError::DuplicateCommand)));
    let spread = [
        ("a", CommandId::Greet),
        ("get_backend_url", CommandId::GetBackendUrl),
        ("a", CommandId::GetBackendUrl),
    ];
    assert!(matches!(Host::start_with(BuildMode::Release, &spread), Err(BridgeError::DuplicateCommand)));
}

#[test]
fn registry_resolves_registered_names() {
    let reg = Registry::from_table(&command_table()).unwrap();
    assert!(reg.contains("greet"));
    assert!(reg.contains("get_backend_url"));
    assert!(!reg.contains("missing"));
    assert_eq!(reg.resolve("get_backend_url"), Ok(CommandId::GetBackendUrl));
    assert_eq!(reg.resolve("missing"), Err(BridgeError::UnknownCommand));
    let empty = Registry::from_table(&[]).unwrap();
    assert_eq!(empty.resolve("greet"), Err(BridgeError::UnknownCommand));
}

#[test]
fn interleaved_greets_do_not_interfere() {
    let host = Host::start(BuildMode::Release);
    let shared: &Host = &host;
    let names: Vec<String> = (0..16).map(|i| format!("user{}", i)).collect();
    let mut results = Vec::new();
    for n in names.iter() {
        results.push(shared.invoke("greet", &name_arg(WireValue::Str(n.clone()))));
        results.push(shared.invoke("get_backend_url", &[]));
    }
    for (i, n) in names.iter().enumerate() {
        assert_eq!(
            results[2 * i],
            Ok(WireValue::Str(format!("Hello, {}! You've been greeted from Rust!", n)))
        );
        assert_eq!(results[2 * i + 1], Ok(text("http://localhost:5001")));
    }
    assert_ne!(results[0], results[2]);
}

#[test]
fn dispatcher_over_custom_table() {
    let table = [("hello", CommandId::Greet)];
    let d = Dispatcher::new(Registry::from_table(&table).unwrap());
    assert_eq!(d.invoke("hello", &name_arg(text("Bo"))), Ok(text("Hello, Bo! You've been greeted from Rust!")));
    assert_eq!(d.invoke("greet", &name_arg(text("Bo"))), Err(BridgeError::UnknownCommand));
}

#[test]
fn run_command_and_wire_helpers() {
    assert_eq!(run_command(CommandId::GetBackendUrl, &[]), Ok(text("http://localhost:5001")));
    assert_eq!(run_command(CommandId::Greet, &[]), Err(BridgeError::ArgumentDecodeError));
    assert_eq!(encode_text("abc".to_string()), text("abc"));
    assert_eq!(decode_text_arg(&name_arg(text("q")), "name"), Ok("q".to_string()));
    assert_eq!(decode_text_arg(&name_arg(text("q")), "other"), Err(BridgeError::ArgumentDecodeError));
}

#[test]
fn startup_window_lifecycle() {
    let dev = Host::start(BuildMode::Development);
    assert_eq!(dev.window.state, WindowState::Shown);
    assert_eq!(dev.window.content, Some(ContentSource::DevServer));
    assert!(dev.window.inspector);
    let rel = Host::start(BuildMode::Release);
    assert_eq!(rel.window.state, WindowState::Shown);
    assert_eq!(rel.window.content, Some(ContentSource::LocalBundle));
    assert!(!rel.window.inspector);
}

#[test]
fn window_manager_transitions() {
    let mut w = WindowManager::new();
    assert_eq!(w.state, WindowState::Uninitialized);
    assert!(!w.enable_inspector(BuildMode::Development));
    assert!(!w.inspector);
    w.create_main_window(ContentSource::LocalBundle);
    assert_eq!(w.state, WindowState::Created);
    assert!(!w.enable_inspector(BuildMode::Release));
    assert!(!w.inspector);
    w.show();
    assert_eq!(w.state, WindowState::Shown);
    assert!(w.enable_inspector(BuildMode::Development));
    assert!(w.inspector);
    assert_eq!(w.content, Some(ContentSource::LocalBundle));
}

#[test]
fn build_mode_switches() {
    assert_eq!(content_source_for(BuildMode::Development), ContentSource::DevServer);
    assert_eq!(content_source_for(BuildMode::Release), ContentSource::LocalBundle);
    assert!(setup_plan(BuildMode::Development).open_devtools);
    assert!(!setup_plan(BuildMode::Release).open_devtools);
    assert!(uses_windowless_subsystem(BuildMode::Release));
    assert!(!uses_windowless_subsystem(BuildMode::Development));
    assert_eq!(main_window_label(), "main");
    assert_eq!(command_table(), vec![("greet", CommandId::Greet), ("get_backend_url", CommandId::GetBackendUrl)]);
}

#[test]
fn error_kinds() {
    assert_eq!(BridgeError::UnknownCommand.kind(), "UnknownCommand");
    assert_eq!(BridgeError::ArgumentDecodeError.kind(), "ArgumentDecodeError");
    assert_eq!(BridgeError::ResultEncodeError.kind(), "ResultEncodeError");
    assert_eq!(BridgeError::DuplicateCommand.kind(), "DuplicateCommand");
    assert_eq!(BridgeError::EventLoopStartupFailure.kind(), "EventLoopStartupFailure");
    assert!(BridgeError::DuplicateCommand.is_fatal());
    assert!(BridgeError::EventLoopStartupFailure.is_fatal());
    assert!(!BridgeError::UnknownCommand.is_fatal());
    assert!(!BridgeError::ArgumentDecodeError.is_fatal());
    assert!(!BridgeError::ResultEncodeError.is_fatal());
}
