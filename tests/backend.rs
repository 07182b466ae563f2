use voxgrep_desktop::forward::{forward_line, BackendEvent, Notification};
use voxgrep_desktop::launch::{
    backend_command, resolve_project_root, script_command, select_launch_mode, spawn_error,
    LaunchMode, WorkDir,
};
use voxgrep_desktop::supervisor::{BackendSupervisor, WindowLifecycle};

fn dir(anchor: &str, parts: &[&str]) -> WorkDir {
    WorkDir {
        anchor: anchor.to_string(),
        parts: parts.iter().map(|p| p.to_string()).collect(),
    }
}

fn strings(v: &[&str]) -> Vec<String> {
    v.iter().map(|s| s.to_string()).collect()
}

#[test]
fn root_from_shell_crate_dir_is_two_levels_up() {
    let cwd = dir("/", &["home", "ana", "voxgrep", "desktop", "src-tauri"]);
    let root = resolve_project_root(&cwd);
    assert_eq!(root.anchor, "/");
    assert_eq!(root.parts, strings(&["home", "ana", "voxgrep"]));
}

#[test]
fn root_from_desktop_dir_is_one_level_up() {
    let cwd = dir("/", &["home", "ana", "voxgrep", "desktop"]);
    let root = resolve_project_root(&cwd);
    assert_eq!(root.anchor, "/");
    assert_eq!(root.parts, strings(&["home", "ana", "voxgrep"]));
}

#[test]
fn root_from_other_dir_is_the_dir_itself() {
    let cwd = dir("/", &["home", "ana", "voxgrep"]);
    let root = resolve_project_root(&cwd);
    assert_eq!(root.anchor, "/");
    assert_eq!(root.parts, strings(&["home", "ana", "voxgrep"]));
}

#[test]
fn root_matches_whole_components_only() {
    let cwd = dir("/", &["work", "my-desktop"]);
    let root = resolve_project_root(&cwd);
    assert_eq!(root.parts, strings(&["work", "my-desktop"]));
}

#[test]
fn root_falls_back_when_grandparent_is_missing() {
    let cwd = dir("/", &["src-tauri"]);
    let root = resolve_project_root(&cwd);
    assert_eq!(root.anchor, "/");
    assert_eq!(root.parts, strings(&["src-tauri"]));
}

#[test]
fn root_of_relative_desktop_dir_is_empty() {
    let cwd = dir("", &["desktop"]);
    let root = resolve_project_root(&cwd);
    assert_eq!(root.anchor, "");
    assert!(root.parts.is_empty());
}

#[test]
fn root_of_empty_dir_is_empty() {
    let cwd = dir("", &[]);
    let root = resolve_project_root(&cwd);
    assert_eq!(root.anchor, "");
    assert!(root.parts.is_empty());
}

#[test]
fn failed_probe_selects_direct_interpreter() {
    let mode = select_launch_mode(false);
    assert_eq!(mode, LaunchMode::Direct);
    let cmd = backend_command(mode, false);
    assert_eq!(cmd.program, "python3");
    assert_ne!(cmd.program, "poetry");
    assert_eq!(cmd.args, strings(&["-m", "voxgrep.server.app"]));
}

#[test]
fn direct_interpreter_on_windows_is_python() {
    let cmd = backend_command(LaunchMode::Direct, true);
    assert_eq!(cmd.program, "python");
    assert_eq!(cmd.args, strings(&["-m", "voxgrep.server.app"]));
}

#[test]
fn successful_probe_selects_manager() {
    let mode = select_launch_mode(true);
    assert_eq!(mode, LaunchMode::Managed);
    let cmd = backend_command(mode, false);
    assert_eq!(cmd.program, "poetry");
    assert_eq!(cmd.args, strings(&["run", "python", "-m", "voxgrep.server.app"]));
}

#[test]
fn script_command_puts_script_before_forwarded_args() {
    let extra = strings(&["search", "--query", "hello"]);
    let cmd = script_command("/usr/bin/python3", "backend/main.py", &extra);
    assert_eq!(cmd.program, "/usr/bin/python3");
    assert_eq!(cmd.args, strings(&["backend/main.py", "search", "--query", "hello"]));
}

#[test]
fn script_command_without_forwarded_args() {
    let cmd = script_command("python3", "main.py", &Vec::new());
    assert_eq!(cmd.args, strings(&["main.py"]));
}

#[test]
fn spawn_error_names_the_failure() {
    let msg = spawn_error("No such file or directory (os error 2)");
    assert_eq!(msg, "Failed to spawn python backend: No such file or directory (os error 2)");
    assert!(msg.contains("Failed to spawn"));
}

#[test]
fn interpreter_missing_reports_launch_error_and_setup_continues() {
    let err = spawn_error("No such file or directory (os error 2)");
    assert!(err.contains("Failed to spawn"));
    let mut sup: BackendSupervisor<u32> = BackendSupervisor::new();
    let log = sup.record_launch(Err(err));
    assert_eq!(
        log,
        Some("Failed to start backend: Failed to spawn python backend: No such file or directory (os error 2)".to_string())
    );
    assert!(!sup.is_running());
    assert_eq!(sup.on_window_event(WindowLifecycle::Destroyed), None);
}

#[test]
fn started_backend_is_held_until_teardown() {
    let mut sup: BackendSupervisor<u32> = BackendSupervisor::new();
    assert!(!sup.is_running());
    assert_eq!(sup.record_launch(Ok(4242)), None);
    assert!(sup.is_running());
    assert_eq!(sup.on_window_event(WindowLifecycle::Other), None);
    assert!(sup.is_running());
}

#[test]
fn teardown_kills_at_most_once() {
    let mut sup: BackendSupervisor<u32> = BackendSupervisor::new();
    sup.record_launch(Ok(4242));
    let mut kills = 0;
    for event in [
        WindowLifecycle::Other,
        WindowLifecycle::Destroyed,
        WindowLifecycle::Destroyed,
        WindowLifecycle::Other,
    ] {
        if let Some(handle) = sup.on_window_event(event) {
            assert_eq!(handle, 4242);
            kills += 1;
        }
    }
    assert_eq!(kills, 1);
    assert!(!sup.is_running());
}

#[test]
fn event_record_goes_to_event_channel() {
    let record = BackendEvent { event: "progress".to_string(), data: 75i64 };
    let n = forward_line(r#"{"event": "progress", "data": 75}"#.to_string(), Some(record));
    assert_eq!(n.channel(), "python-event");
    match n {
        Notification::Event(ev) => {
            assert_eq!(ev.event, "progress");
            assert_eq!(ev.data, 75);
        }
        Notification::Log(_) => panic!("event record sent as a log line"),
    }
}

#[test]
fn plain_text_goes_to_log_channel() {
    let n = forward_line::<i64>("Loading model...".to_string(), None);
    assert_eq!(n.channel(), "python-log");
    match n {
        Notification::Log(text) => assert_eq!(text, "Loading model..."),
        Notification::Event(_) => panic!("plain text sent as an event"),
    }
}

#[test]
fn empty_line_goes_to_log_channel() {
    let n = forward_line::<i64>(String::new(), None);
    assert_eq!(n.channel(), "python-log");
    match n {
        Notification::Log(text) => assert_eq!(text, ""),
        Notification::Event(_) => panic!("empty line sent as an event"),
    }
}

#[test]
fn json_of_other_shape_goes_to_log_channel() {
    let line = r#"{"status": "ok"}"#;
    let n = forward_line::<i64>(line.to_string(), None);
    assert_eq!(n.channel(), "python-log");
    match n {
        Notification::Log(text) => assert_eq!(text, line),
        Notification::Event(_) => panic!("foreign JSON sent as an event"),
    }
}
