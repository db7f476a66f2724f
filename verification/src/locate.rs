//! Location of the runtime executable.
//!
//! The locator names, in order, the well-known places a `node` binary may
//! stand, and — as a fallback — the binaries below a per-user version
//! manager's directory. Each candidate is probed by running it with a
//! version argument; the probe is outside work, so the application walks
//! the candidates with a [`crate::scan::FirstMatchScan`] and the first
//! candidate whose probe succeeds is taken.

use vstd::prelude::*;

verus! {

/// The well-known candidate paths for the runtime executable, probed in
/// this order.
pub fn fixed_candidates() -> (r: Vec<String>)
    ensures
        r@.len() == 4,
        r@[0]@ == "node"@,
        r@[1]@ == "/usr/local/bin/node"@,
        r@[2]@ == "/opt/homebrew/bin/node"@,
        r@[3]@ == "/usr/bin/node"@,
{
    let mut v: Vec<String> = Vec::new();
    v.push(String::from_str("node"));
    v.push(String::from_str("/usr/local/bin/node"));
    v.push(String::from_str("/opt/homebrew/bin/node"));
    v.push(String::from_str("/usr/bin/node"));
    v
}

/// The argument a candidate is invoked with to probe that it works.
pub fn version_arg() -> (r: &'static str)
    ensures
        r@ == "--version"@,
{
    "--version"
}

/// The directory under `home` in which the version manager keeps its
/// runtime installations.
pub fn version_manager_dir(home: &str) -> (r: String)
    ensures
        r@ == home@ + "/.nvm/versions/node"@,
{
    let mut s = home.to_owned();
    s.append("/.nvm/versions/node");
    s
}

/// The runtime binary inside one installation directory of the version
/// manager.
pub fn managed_binary_path(version_dir: &str) -> (r: String)
    ensures
        r@ == version_dir@ + "/bin/node"@,
{
    let mut s = version_dir.to_owned();
    s.append("/bin/node");
    s
}

} // verus!
