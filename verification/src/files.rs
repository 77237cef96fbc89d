//! Directory traversal: enumerate the regular files under a root path,
//! either its direct children only or the whole tree, as a flat list of
//! paths. Directories and unreadable entries are skipped; only a failure
//! on the root itself, or a file name that is not valid text, aborts.

use crate::paths::is_direct_child;
use crate::paths::is_under;
use crate::paths::join_path;
use crate::strtext::contains_char;
use vstd::prelude::*;

verus! {

/// Relies on `std::path::Path::exists`: whether the path names an entry
/// on disk at the moment of the call; nothing is promised of the result,
/// since the disk may change between any two calls.
#[verifier::external_body]
fn path_exists(path: &String) -> bool {
    std::path::Path::new(path).exists()
}

/// Whether a path names an entry that exists on disk. The answer is the
/// disk's at the moment of the call, so no more can be stated of it.
pub fn check_valid_path(path: &String) -> bool {
    path_exists(path)
}

/// Relies on `walkdir::WalkDir` with `max_depth(1)`: every yielded entry
/// is the root itself (depth zero) or one of its direct children (depth
/// one), whose path walkdir builds by joining the root with the child's
/// single file name, a non-empty component without a separator. Entries
/// that are not regular files are dropped; an error on the root aborts,
/// any other error is skipped.
#[verifier::external_body]
fn collect_paths_non_recursive(root: &String) -> (r: Result<Vec<String>, String>)
    ensures
        r matches Ok(v) ==> forall|i: int|
            0 <= i < v@.len() ==> is_direct_child(root@, (#[trigger] v@[i])@),
{
    let mut out: Vec<String> = Vec::new();
    for entry in walkdir::WalkDir::new(root).max_depth(1) {
        let e = match entry {
            Ok(e) if e.file_type().is_file() => e,
            Err(err) if err.depth() == 0 => return Err(err.to_string()),
            _ => continue,
        };
        match e.into_path().into_os_string().into_string() {
            Ok(s) => out.push(s),
            Err(_) => return Err(String::from("file name is not valid text")),
        }
    }
    Ok(out)
}

/// Relies on `walkdir::WalkDir`: every yielded entry's path is the root
/// itself or the root joined, through a chain of separator-free
/// components, with the entry's name, so each path extends the root
/// below a separator. Entries that are not regular files are dropped;
/// an error on the root aborts, any other error is skipped.
#[verifier::external_body]
fn collect_paths_recursive(root: &String) -> (r: Result<Vec<String>, String>)
    ensures
        r matches Ok(v) ==> forall|i: int|
            0 <= i < v@.len() ==> is_under(root@, (#[trigger] v@[i])@),
{
    let mut out: Vec<String> = Vec::new();
    for entry in walkdir::WalkDir::new(root) {
        let e = match entry {
            Ok(e) if e.file_type().is_file() => e,
            Err(err) if err.depth() == 0 => return Err(err.to_string()),
            _ => continue,
        };
        match e.into_path().into_os_string().into_string() {
            Ok(s) => out.push(s),
            Err(_) => return Err(String::from("file name is not valid text")),
        }
    }
    Ok(out)
}

/// A direct child of a root lies under it.
pub proof fn lemma_direct_child_is_under(root: Seq<char>, p: Seq<char>)
    requires
        is_direct_child(root, p),
    ensures
        is_under(root, p),
{
    if p != root {
        let name = choose|name: Seq<char>|
            name.len() > 0 && !contains_char(name, '/') && p == join_path(root, name);
        if root.len() > 0 && root.last() == '/' {
            assert(p =~= root + name);
            assert(p.subrange(0, root.len() as int) =~= root);
        } else {
            assert(p =~= root + seq!['/'] + name);
            assert(p.subrange(0, root.len() as int) =~= root);
            assert(p[root.len() as int] == '/');
        }
    }
}

/// Enumerate the regular files under `path`: its direct children only,
/// or the files at any depth when `recursive`. Every returned path lies
/// under the queried root; without recursion, each is the root or a
/// direct child of it.
pub fn load_files(path: &String, recursive: bool) -> (r: Result<Vec<String>, String>)
    ensures
        r matches Ok(v) ==> forall|i: int|
            0 <= i < v@.len() ==> is_under(path@, (#[trigger] v@[i])@),
        !recursive ==> (r matches Ok(v) ==> forall|i: int|
            0 <= i < v@.len() ==> is_direct_child(path@, (#[trigger] v@[i])@)),
{
    if recursive {
        collect_paths_recursive(path)
    } else {
        let r = collect_paths_non_recursive(path);
        proof {
            if r is Ok {
                let v = r->Ok_0;
                assert forall|i: int| 0 <= i < v@.len() implies is_under(
                    path@,
                    (#[trigger] v@[i])@,
                ) by {
                    lemma_direct_child_is_under(path@, v@[i]@);
                }
            }
        }
        r
    }
}

} // verus!
