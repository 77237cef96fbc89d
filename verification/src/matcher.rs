//! Keyword matching: test each traversed file against a keyword list
//! under one of three policies, keeping traversal order, and record the
//! first qualifying keyword of each match.

use crate::paths::file_name_of;
use crate::paths::file_name_part;
use crate::paths::stem_of;
use crate::paths::stem_part;
use crate::strtext::contains_substring;
use crate::strtext::is_substring;
use vstd::prelude::*;

verus! {

/// How a file is tested against the keyword list.
#[derive(Clone, Copy, PartialEq, Eq, Structural, Debug)]
pub enum MatchPolicy {
    /// The file name equals a keyword.
    Exact,
    /// The file name without its final extension equals a keyword.
    StemEqual,
    /// A keyword occurs within the file name.
    Substring,
}

/// One matched file: its path, its file name, and the keyword that
/// qualified it.
#[derive(Debug)]
pub struct MatchResult {
    pub file_path: String,
    pub file_name: String,
    pub keyword: String,
}

/// The mathematical content of a `MatchResult`.
pub struct MatchResultView {
    pub file_path: Seq<char>,
    pub file_name: Seq<char>,
    pub keyword: Seq<char>,
}

impl View for MatchResult {
    type V = MatchResultView;

    open spec fn view(&self) -> MatchResultView {
        MatchResultView {
            file_path: self.file_path@,
            file_name: self.file_name@,
            keyword: self.keyword@,
        }
    }
}

impl MatchResult {
    /// A copy with the same content.
    pub fn duplicate(&self) -> (r: MatchResult)
        ensures
            r@ == self@,
    {
        MatchResult {
            file_path: self.file_path.clone(),
            file_name: self.file_name.clone(),
            keyword: self.keyword.clone(),
        }
    }
}

/// The views of a sequence of match results.
pub open spec fn views_of(rs: Seq<MatchResult>) -> Seq<MatchResultView> {
    rs.map_values(|m: MatchResult| m@)
}

/// Whether one keyword qualifies a file under a policy.
pub open spec fn keyword_matches(
    policy: MatchPolicy,
    name: Seq<char>,
    stem: Seq<char>,
    kw: Seq<char>,
) -> bool {
    match policy {
        MatchPolicy::Exact => kw == name,
        MatchPolicy::StemEqual => kw == stem,
        MatchPolicy::Substring => is_substring(kw, name),
    }
}

/// The first keyword, in list order, that qualifies the file.
pub open spec fn first_match(
    policy: MatchPolicy,
    name: Seq<char>,
    stem: Seq<char>,
    kws: Seq<Seq<char>>,
) -> Option<Seq<char>>
    decreases kws.len(),
{
    if kws.len() == 0 {
        None
    } else if keyword_matches(policy, name, stem, kws[0]) {
        Some(kws[0])
    } else {
        first_match(policy, name, stem, kws.drop_first())
    }
}

/// What matching one file yields: nothing, or a record of the path, the
/// file name, and the first qualifying keyword.
pub open spec fn entry_match(policy: MatchPolicy, path: Seq<char>, kws: Seq<Seq<char>>) -> Option<
    MatchResultView,
> {
    match first_match(policy, file_name_of(path), stem_of(file_name_of(path)), kws) {
        Some(k) => Some(
            MatchResultView { file_path: path, file_name: file_name_of(path), keyword: k },
        ),
        None => None,
    }
}

/// The chosen set: the matching pass over a whole traversal result, in
/// traversal order.
pub open spec fn chosen_of(
    policy: MatchPolicy,
    paths: Seq<Seq<char>>,
    kws: Seq<Seq<char>>,
) -> Seq<MatchResultView>
    decreases paths.len(),
{
    if paths.len() == 0 {
        Seq::empty()
    } else {
        let rest = chosen_of(policy, paths.drop_last(), kws);
        match entry_match(policy, paths.last(), kws) {
            Some(m) => rest.push(m),
            None => rest,
        }
    }
}

/// The policy a search-method identifier names, if recognized.
pub open spec fn policy_named(s: Seq<char>) -> Option<MatchPolicy> {
    if s == "same"@ {
        Some(MatchPolicy::Exact)
    } else if s == "same-name"@ {
        Some(MatchPolicy::StemEqual)
    } else if s == "include-name"@ {
        Some(MatchPolicy::Substring)
    } else {
        None
    }
}

/// Map a search-method identifier to its policy; any other value is a
/// configuration error, not a default.
pub fn parse_policy(s: &String) -> (r: Result<MatchPolicy, String>)
    ensures
        match r {
            Ok(p) => policy_named(s@) == Some(p),
            Err(e) => policy_named(s@) is None && e@ == "unrecognized search method: "@ + s@,
        },
{
    proof {
        reveal_strlit("same");
        reveal_strlit("same-name");
        reveal_strlit("include-name");
    }
    let same = String::from_str("same");
    if s.eq(&same) {
        return Ok(MatchPolicy::Exact);
    }
    let stem = String::from_str("same-name");
    if s.eq(&stem) {
        return Ok(MatchPolicy::StemEqual);
    }
    let sub = String::from_str("include-name");
    if s.eq(&sub) {
        return Ok(MatchPolicy::Substring);
    }
    let mut msg = String::from_str("unrecognized search method: ");
    msg.append(s.as_str());
    Err(msg)
}

/// Whether one keyword qualifies a file under a policy.
fn keyword_hits(policy: MatchPolicy, name: &String, stem: &String, kw: &String) -> (r: bool)
    ensures
        r == keyword_matches(policy, name@, stem@, kw@),
{
    match policy {
        MatchPolicy::Exact => kw.eq(name),
        MatchPolicy::StemEqual => kw.eq(stem),
        MatchPolicy::Substring => contains_substring(name.as_str(), kw.as_str()),
    }
}

/// The first keyword in list order that qualifies the file, if any.
pub fn find_keyword(policy: MatchPolicy, name: &String, stem: &String, keywords: &Vec<String>) -> (r:
    Option<String>)
    ensures
        match r {
            Some(k) => first_match(policy, name@, stem@, keywords.deep_view()) == Some(k@),
            None => first_match(policy, name@, stem@, keywords.deep_view()) is None,
        },
{
    let ghost kws = keywords.deep_view();
    let mut i: usize = 0;
    proof {
        assert(kws.subrange(0, kws.len() as int) =~= kws);
    }
    while i < keywords.len()
        invariant
            i <= keywords.len(),
            kws == keywords.deep_view(),
            kws.len() == keywords@.len(),
            first_match(policy, name@, stem@, kws) == first_match(
                policy,
                name@,
                stem@,
                kws.subrange(i as int, kws.len() as int),
            ),
        decreases keywords.len() - i,
    {
        let kw = &keywords[i];
        proof {
            let rest = kws.subrange(i as int, kws.len() as int);
            assert(rest[0] == kws[i as int]);
            assert(rest.drop_first() =~= kws.subrange(i as int + 1, kws.len() as int));
        }
        if keyword_hits(policy, name, stem, kw) {
            return Some(kw.clone());
        }
        i = i + 1;
    }
    proof {
        assert(kws.subrange(kws.len() as int, kws.len() as int) =~= Seq::<Seq<char>>::empty());
    }
    None
}

/// Test one file against the keyword list; a match records the path,
/// the file name, and the first qualifying keyword.
pub fn match_file(policy: MatchPolicy, path: &String, keywords: &Vec<String>) -> (r: Option<
    MatchResult,
>)
    ensures
        match r {
            Some(m) => entry_match(policy, path@, keywords.deep_view()) == Some(m@),
            None => entry_match(policy, path@, keywords.deep_view()) is None,
        },
{
    let name = file_name_part(path);
    let stem = stem_part(&name);
    match find_keyword(policy, &name, &stem, keywords) {
        Some(k) => Some(MatchResult { file_path: path.clone(), file_name: name, keyword: k }),
        None => None,
    }
}

/// One matching pass over the traversal result: a pure filter that keeps
/// traversal order and drops non-matching files.
pub fn match_files(policy: MatchPolicy, files: &Vec<String>, keywords: &Vec<String>) -> (r: Vec<
    MatchResult,
>)
    ensures
        views_of(r@) == chosen_of(policy, files.deep_view(), keywords.deep_view()),
{
    let ghost ps = files.deep_view();
    let mut out: Vec<MatchResult> = Vec::new();
    let mut i: usize = 0;
    proof {
        assert(views_of(out@) =~= chosen_of(policy, ps.subrange(0, 0), keywords.deep_view()));
    }
    while i < files.len()
        invariant
            i <= files.len(),
            ps == files.deep_view(),
            ps.len() == files@.len(),
            views_of(out@) == chosen_of(policy, ps.subrange(0, i as int), keywords.deep_view()),
        decreases files.len() - i,
    {
        let m = match_file(policy, &files[i], keywords);
        proof {
            let pre = ps.subrange(0, i as int + 1);
            assert(pre.drop_last() =~= ps.subrange(0, i as int));
            assert(pre.last() == ps[i as int]);
        }
        match m {
            Some(mr) => {
                let ghost snap = out@;
                out.push(mr);
                proof {
                    assert(views_of(out@) =~= views_of(snap).push(mr@));
                }
            },
            None => {},
        }
        i = i + 1;
    }
    proof {
        assert(ps.subrange(0, ps.len() as int) =~= ps);
    }
    out
}

/// A keyword that qualifies first in list order is a member of the list.
pub proof fn lemma_first_match_in_list(
    policy: MatchPolicy,
    name: Seq<char>,
    stem: Seq<char>,
    kws: Seq<Seq<char>>,
)
    requires
        first_match(policy, name, stem, kws) is Some,
    ensures
        kws.contains(first_match(policy, name, stem, kws)->Some_0),
    decreases kws.len(),
{
    if keyword_matches(policy, name, stem, kws[0]) {
        assert(kws[0] == first_match(policy, name, stem, kws)->Some_0);
    } else {
        let rest = kws.drop_first();
        lemma_first_match_in_list(policy, name, stem, rest);
        let k = first_match(policy, name, stem, rest)->Some_0;
        let j = choose|j: int| 0 <= j < rest.len() && rest[j] == k;
        assert(kws[j + 1] == k);
    }
}

/// Round trip of keywords: every keyword recorded in the chosen set is
/// drawn from the keyword list that was supplied.
pub proof fn lemma_chosen_keywords_from_list(
    policy: MatchPolicy,
    paths: Seq<Seq<char>>,
    kws: Seq<Seq<char>>,
)
    ensures
        forall|i: int|
            0 <= i < chosen_of(policy, paths, kws).len() ==> kws.contains(
                #[trigger] chosen_of(policy, paths, kws)[i].keyword,
            ),
    decreases paths.len(),
{
    if paths.len() > 0 {
        lemma_chosen_keywords_from_list(policy, paths.drop_last(), kws);
        let last = paths.last();
        let cur = chosen_of(policy, paths, kws);
        let rest = chosen_of(policy, paths.drop_last(), kws);
        if entry_match(policy, last, kws) is Some {
            lemma_first_match_in_list(policy, file_name_of(last), stem_of(file_name_of(last)), kws);
        }
        assert forall|i: int| 0 <= i < cur.len() implies kws.contains(cur[i].keyword) by {
            if i < rest.len() {
                assert(cur[i] == rest[i]);
            } else {
                let m = entry_match(policy, last, kws)->Some_0;
                assert(cur[i] == m);
                assert(m.keyword == first_match(
                    policy,
                    file_name_of(last),
                    stem_of(file_name_of(last)),
                    kws,
                )->Some_0);
            }
        }
    }
}

/// `xs` is `ys` with zero or more elements removed, order kept.
pub open spec fn is_subseq_of<A>(xs: Seq<A>, ys: Seq<A>) -> bool
    decreases ys.len(),
{
    if xs.len() == 0 {
        true
    } else if ys.len() == 0 {
        false
    } else {
        (xs.last() == ys.last() && is_subseq_of(xs.drop_last(), ys.drop_last())) || is_subseq_of(
            xs,
            ys.drop_last(),
        )
    }
}

/// Matching is order-preserving: the chosen set's paths form a
/// subsequence of the traversed paths.
pub proof fn lemma_chosen_order(policy: MatchPolicy, paths: Seq<Seq<char>>, kws: Seq<Seq<char>>)
    ensures
        is_subseq_of(
            chosen_of(policy, paths, kws).map_values(|m: MatchResultView| m.file_path),
            paths,
        ),
    decreases paths.len(),
{
    let f = |m: MatchResultView| m.file_path;
    if paths.len() == 0 {
        assert(chosen_of(policy, paths, kws).map_values(f).len() == 0);
    } else {
        lemma_chosen_order(policy, paths.drop_last(), kws);
        let rest = chosen_of(policy, paths.drop_last(), kws);
        match entry_match(policy, paths.last(), kws) {
            Some(m) => {
                let cur = rest.push(m);
                assert(chosen_of(policy, paths, kws) == cur);
                assert(cur.map_values(f) =~= rest.map_values(f).push(m.file_path));
                assert(m.file_path == paths.last());
                assert(cur.map_values(f).drop_last() =~= rest.map_values(f));
                assert(is_subseq_of(cur.map_values(f), paths));
            },
            None => {
                assert(chosen_of(policy, paths, kws) == rest);
                if rest.map_values(f).len() > 0 {
                    assert(is_subseq_of(rest.map_values(f), paths));
                }
            },
        }
    }
}

} // verus!
