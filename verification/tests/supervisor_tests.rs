use supervisor::manager::{LaunchCommand, ServerManager, StartError, DEFAULT_PORT};

#[test]
fn new_manager_is_empty() {
    let m = ServerManager::new();
    assert!(m.process.is_none());
    assert_eq!(m.port, 0);
}

#[test]
fn stop_without_start_is_noop() {
    let mut m = ServerManager::new();
    assert_eq!(m.stop(), None);
}

#[test]
fn stop_twice_never_double_kills() {
    let mut m = ServerManager::new();
    let cmd = m
        .prepare_start("/bundle", Some(String::from("node")), true)
        .unwrap();
    m.start(&cmd, Ok(4242)).unwrap();
    assert_eq!(m.stop(), Some(4242));
    assert_eq!(m.stop(), None);
    assert_eq!(m.stop(), None);
}

#[test]
fn prepare_start_builds_launch_command() {
    let m = ServerManager::new();
    let cmd: LaunchCommand = m
        .prepare_start("/bundle", Some(String::from("/usr/bin/node")), true)
        .unwrap();
    assert_eq!(cmd.program, "/usr/bin/node");
    assert_eq!(cmd.entry_arg, "server.js");
    assert_eq!(cmd.working_dir, "/bundle");
    assert_eq!(cmd.port_env, "3000");
    assert_eq!(cmd.hostname_env, "127.0.0.1");
    assert_eq!(cmd.port, DEFAULT_PORT);
}

#[test]
fn prepare_start_without_executable_fails() {
    let m = ServerManager::new();
    let r = m.prepare_start("/bundle", None, true);
    assert!(matches!(r, Err(StartError::ExecutableNotFound)));
    let msg = r.unwrap_err().message();
    assert_eq!(
        msg,
        "Node.js executable not found. Please ensure Node.js is installed."
    );
}

#[test]
fn missing_entry_file_rejected_before_spawn() {
    let mut m = ServerManager::new();
    let r = m.prepare_start("/bundle", Some(String::from("node")), false);
    match r {
        Err(StartError::EntryFileMissing(dir)) => {
            assert_eq!(dir, "/bundle");
            assert_eq!(
                StartError::EntryFileMissing(dir).message(),
                "server.js not found at /bundle"
            );
        }
        _ => panic!("expected an entry-file failure"),
    }
    // No launch command was handed out, so nothing was spawned and the
    // store stays empty.
    assert!(m.process.is_none());
    assert_eq!(m.stop(), None);
}

#[test]
fn spawn_failure_reported_and_nothing_stored() {
    let mut m = ServerManager::new();
    let cmd = m
        .prepare_start("/bundle", Some(String::from("node")), true)
        .unwrap();
    let r = m.start(&cmd, Err(String::from("permission denied")));
    match r {
        Err(StartError::SpawnFailure(cause)) => {
            assert_eq!(cause, "permission denied");
            assert_eq!(
                StartError::SpawnFailure(cause).message(),
                "Failed to start server: permission denied"
            );
        }
        _ => panic!("expected a spawn failure"),
    }
    assert!(m.process.is_none());
}

#[test]
fn start_while_running_is_refused() {
    let mut m = ServerManager::new();
    let cmd = m
        .prepare_start("/bundle", Some(String::from("node")), true)
        .unwrap();
    m.start(&cmd, Ok(10)).unwrap();
    let again = m.prepare_start("/bundle", Some(String::from("node")), true);
    assert!(matches!(again, Err(StartError::AlreadyRunning)));
    let r = m.start(&cmd, Ok(11));
    assert!(matches!(r, Err(StartError::AlreadyRunning)));
    // The first handle is still the stored one.
    assert_eq!(m.stop(), Some(10));
}

#[test]
fn url_matches_port_returned_by_start() {
    let mut m = ServerManager::new();
    let cmd = m
        .prepare_start("/bundle", Some(String::from("node")), true)
        .unwrap();
    let port = m.start(&cmd, Ok(4242)).unwrap();
    assert_eq!(port, 3000);
    assert_eq!(m.get_url(), "http://127.0.0.1:3000");
}

#[test]
fn already_running_message() {
    assert_eq!(StartError::AlreadyRunning.message(), "Server is already running");
}
