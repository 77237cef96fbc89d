//! The path model: a path is text whose components are separated by `/`;
//! the file name is the final component and the stem is the file name
//! without its final extension.

use crate::strtext::contains_char;
use crate::strtext::find_last_char;
use crate::strtext::lemma_no_occurrence;
use crate::strtext::lemma_split_at_last;
use crate::strtext::prefix_before_last;
use crate::strtext::suffix_after_last;
use vstd::prelude::*;

verus! {

/// The final component of a path: everything after the last `/`.
pub open spec fn file_name_of(path: Seq<char>) -> Seq<char> {
    suffix_after_last(path, '/')
}

/// A file name without its final extension. A name with no `.`, or whose
/// only use of `.` is a leading one, is its own stem.
pub open spec fn stem_of(name: Seq<char>) -> Seq<char> {
    if prefix_before_last(name, '.').len() == 0 {
        name
    } else {
        prefix_before_last(name, '.')
    }
}

/// `dir` and `name` joined with a separator; none is added when `dir`
/// already ends with one.
pub open spec fn join_path(dir: Seq<char>, name: Seq<char>) -> Seq<char> {
    if dir.len() > 0 && dir.last() == '/' {
        dir + name
    } else {
        dir + seq!['/'] + name
    }
}

/// `p` lies under `root`: it is `root` itself, or extends it directly
/// below a separator.
pub open spec fn is_under(root: Seq<char>, p: Seq<char>) -> bool {
    ||| p == root
    ||| (p.len() > root.len() && p.subrange(0, root.len() as int) == root && ((root.len() > 0
        && root.last() == '/') || p[root.len() as int] == '/'))
}

/// `p` is `root` itself, or `root` joined with one separator-free
/// component.
pub open spec fn is_direct_child(root: Seq<char>, p: Seq<char>) -> bool {
    ||| p == root
    ||| exists|name: Seq<char>|
        name.len() > 0 && !contains_char(name, '/') && p == join_path(root, name)
}

/// Depth-one invariant: an entry of a non-recursive traversal, other
/// than the queried root itself, has the root as its parent directory,
/// and its file name is the part past the root.
pub proof fn lemma_direct_child_parent(root: Seq<char>, p: Seq<char>)
    requires
        is_direct_child(root, p),
        p != root,
        root.len() > 0 ==> root.last() != '/',
    ensures
        prefix_before_last(p, '/') == root,
        file_name_of(p) == p.subrange(root.len() as int + 1, p.len() as int),
{
    let name = choose|name: Seq<char>|
        name.len() > 0 && !contains_char(name, '/') && p == join_path(root, name);
    let sep = root.len() as int;
    assert(p =~= root + seq!['/'] + name);
    assert(p[sep] == '/');
    assert(forall|j: int| sep < j < p.len() ==> p[j] == name[j - sep - 1]);
    assert(forall|j: int| sep < j < p.len() ==> p[j] != '/');
    lemma_split_at_last(p, '/', sep);
    assert(p.subrange(0, sep) =~= root);
}

/// The final component of `path`.
pub fn file_name_part(path: &String) -> (r: String)
    ensures
        r@ == file_name_of(path@),
{
    let n = path.as_str().unicode_len();
    match find_last_char(path.as_str(), '/') {
        Some(i) => {
            proof {
                lemma_split_at_last(path@, '/', i as int);
            }
            path.as_str().substring_char(i + 1, n).to_owned()
        },
        None => {
            proof {
                lemma_no_occurrence(path@, '/');
            }
            path.clone()
        },
    }
}

/// The stem of a file name: the name without its final extension.
pub fn stem_part(name: &String) -> (r: String)
    ensures
        r@ == stem_of(name@),
{
    match find_last_char(name.as_str(), '.') {
        Some(i) => {
            proof {
                lemma_split_at_last(name@, '.', i as int);
            }
            if i == 0 {
                name.clone()
            } else {
                name.as_str().substring_char(0, i).to_owned()
            }
        },
        None => {
            proof {
                lemma_no_occurrence(name@, '.');
            }
            name.clone()
        },
    }
}

/// `dir/name`: the destination path of a file placed in a directory.
pub fn join_under(dir: &String, name: &String) -> (r: String)
    ensures
        r@ == join_path(dir@, name@),
{
    let n = dir.as_str().unicode_len();
    let mut out = dir.clone();
    if n == 0 || dir.as_str().get_char(n - 1) != '/' {
        proof {
            reveal_strlit("/");
            assert("/"@ =~= seq!['/']);
        }
        out.append("/");
    }
    out.append(name.as_str());
    out
}

} // verus!
