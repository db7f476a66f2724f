use supervisor::dirs::{candidate_server_dirs, entry_file_name, entry_file_path, select_server_dir};
use supervisor::probe::{ProbeOutcome, ReadinessProbe};
use supervisor::manager::ServerManager;
use supervisor::urls::{decimal_string, loopback_url};

#[test]
fn entry_file_is_server_js() {
    assert_eq!(entry_file_name(), "server.js");
    assert_eq!(entry_file_path("/bundle"), "/bundle/server.js");
}

#[test]
fn candidates_cover_bundle_alternate_and_root() {
    let dirs = candidate_server_dirs("/app/resources");
    assert_eq!(
        dirs,
        vec![
            String::from("/app/resources/resources/server"),
            String::from("/app/resources/server"),
            String::from("/app/resources"),
        ]
    );
}

#[test]
fn first_qualifying_directory_wins() {
    assert_eq!(select_server_dir(&vec![false, true, true]), Some(1));
    assert_eq!(select_server_dir(&vec![true, false, false]), Some(0));
    assert_eq!(select_server_dir(&vec![false, false, true]), Some(2));
}

#[test]
fn no_qualifying_directory_selects_nothing() {
    assert_eq!(select_server_dir(&vec![false, false, false]), None);
    assert_eq!(select_server_dir(&Vec::new()), None);
}

#[test]
fn ports_render_in_decimal() {
    assert_eq!(decimal_string(0), "0");
    assert_eq!(decimal_string(7), "7");
    assert_eq!(decimal_string(3000), "3000");
    assert_eq!(decimal_string(3456), "3456");
    assert_eq!(decimal_string(65535), "65535");
}

#[test]
fn loopback_urls() {
    assert_eq!(loopback_url(3000), "http://127.0.0.1:3000");
    assert_eq!(loopback_url(80), "http://127.0.0.1:80");
}

#[test]
fn bundle_launch_becomes_ready_on_third_poll() {
    // The bundle directory holds the entry file, the runtime resolves,
    // the launch succeeds, and the server answers 200 on the third poll.
    let dirs = vec![String::from("/bundle")];
    let present = vec![true];
    let chosen = select_server_dir(&present).unwrap();
    assert_eq!(dirs[chosen], "/bundle");

    let mut m = ServerManager::new();
    let cmd = m
        .prepare_start(&dirs[chosen], Some(String::from("node")), true)
        .unwrap();
    let port = m.start(&cmd, Ok(555)).unwrap();
    assert_eq!(m.get_url(), format!("http://127.0.0.1:{}", port));

    let mut p = ReadinessProbe::new(60);
    p.record(ProbeOutcome::NoResponse);
    p.record(ProbeOutcome::NoResponse);
    p.record(ProbeOutcome::Response(200));
    assert!(p.is_ready());
    assert_eq!(p.attempts_made(), 3);
    assert_eq!(m.stop(), Some(555));
}
