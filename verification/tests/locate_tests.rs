use supervisor::locate::{
    fixed_candidates, managed_binary_path, version_arg, version_manager_dir,
};
use supervisor::scan::FirstMatchScan;

#[test]
fn fixed_candidates_in_order() {
    let c = fixed_candidates();
    assert_eq!(
        c,
        vec![
            String::from("node"),
            String::from("/usr/local/bin/node"),
            String::from("/opt/homebrew/bin/node"),
            String::from("/usr/bin/node"),
        ]
    );
}

#[test]
fn version_probe_argument() {
    assert_eq!(version_arg(), "--version");
}

#[test]
fn version_manager_paths() {
    assert_eq!(
        version_manager_dir("/home/alex"),
        "/home/alex/.nvm/versions/node"
    );
    assert_eq!(
        managed_binary_path("/home/alex/.nvm/versions/node/v20.1.0"),
        "/home/alex/.nvm/versions/node/v20.1.0/bin/node"
    );
}

#[test]
fn scan_reports_first_match() {
    let mut s = FirstMatchScan::new(4);
    assert_eq!(s.pending(), Some(0));
    s.record(false);
    assert_eq!(s.pending(), Some(1));
    s.record(true);
    assert!(s.finished());
    assert_eq!(s.pending(), None);
    assert_eq!(s.result(), Some(1));
}

#[test]
fn scan_with_no_match_finishes_empty() {
    let mut s = FirstMatchScan::new(3);
    while let Some(_) = s.pending() {
        s.record(false);
    }
    assert!(s.finished());
    assert_eq!(s.result(), None);
}

#[test]
fn scan_over_nothing_is_finished_at_once() {
    let s = FirstMatchScan::new(0);
    assert!(s.finished());
    assert_eq!(s.pending(), None);
    assert_eq!(s.result(), None);
}
