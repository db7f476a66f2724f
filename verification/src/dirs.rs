//! Selection of the server directory.
//!
//! The application derives an ordered list of candidate directories from
//! its resource directory; the server lives in the first of them that
//! contains the entry file. Whether a file exists is outside work: the
//! application hands the answers in as plain booleans.

use vstd::prelude::*;

verus! {

/// The file a directory must contain to count as a server bundle.
pub fn entry_file_name() -> (r: &'static str)
    ensures
        r@ == "server.js"@,
{
    "server.js"
}

/// The path of the entry file inside `dir`.
pub fn entry_file_path(dir: &str) -> (r: String)
    ensures
        r@ == dir@ + "/server.js"@,
{
    let mut s = dir.to_owned();
    s.append("/server.js");
    s
}

/// The ordered candidate directories under `resource_dir`: the production
/// bundle path, the alternate bundle path, and the resource directory
/// itself.
pub fn candidate_server_dirs(resource_dir: &str) -> (r: Vec<String>)
    ensures
        r@.len() == 3,
        r@[0]@ == resource_dir@ + "/resources/server"@,
        r@[1]@ == resource_dir@ + "/server"@,
        r@[2]@ == resource_dir@,
{
    let mut first = resource_dir.to_owned();
    first.append("/resources/server");
    let mut second = resource_dir.to_owned();
    second.append("/server");
    let third = resource_dir.to_owned();
    let mut v: Vec<String> = Vec::new();
    v.push(first);
    v.push(second);
    v.push(third);
    v
}

/// Picks the first candidate directory that contains the entry file.
/// `entry_present[i]` answers whether candidate `i` contains it. Returns
/// the index of the first qualifying candidate, or `None` when none
/// qualifies.
pub fn select_server_dir(entry_present: &Vec<bool>) -> (r: Option<usize>)
    ensures
        match r {
            Some(i) => {
                &&& i < entry_present@.len()
                &&& entry_present@[i as int]
                &&& forall|j: int| 0 <= j < i ==> !entry_present@[j]
            },
            None => forall|j: int| 0 <= j < entry_present@.len() ==> !entry_present@[j],
        },
{
    let mut i: usize = 0;
    while i < entry_present.len()
        invariant
            i <= entry_present@.len(),
            forall|j: int| 0 <= j < i ==> !entry_present@[j],
        decreases entry_present@.len() - i,
    {
        if entry_present[i] {
            return Some(i);
        }
        i = i + 1;
    }
    None
}

} // verus!
