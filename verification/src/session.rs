//! One user session: the configured directories, the latest traversal
//! result, and the latest chosen set, with the operations a surrounding
//! shell invokes on them. All state is passed explicitly; serializing
//! concurrent access is the shell's concern.

use crate::executor::action_named;
use crate::executor::op_of;
use crate::executor::parse_action;
use crate::executor::plan_ops;
use crate::executor::FileOp;
use crate::files::check_valid_path;
use crate::files::load_files;
use crate::matcher::chosen_of;
use crate::matcher::match_files;
use crate::matcher::parse_policy;
use crate::matcher::policy_named;
use crate::matcher::views_of;
use crate::matcher::MatchResult;
use crate::paths::is_direct_child;
use crate::paths::is_under;
use vstd::prelude::*;

verus! {

/// Session state: at most one target directory, one source directory,
/// one traversal result (in traversal order), and one chosen set. Each
/// is replaced wholesale, never merged.
pub struct Session {
    pub target_dir_path: Option<String>,
    pub current_dir_path: Option<String>,
    pub file_list: Vec<String>,
    pub chosen_files: Vec<MatchResult>,
}

impl Session {
    /// A fresh session: nothing configured, nothing traversed, nothing
    /// chosen.
    pub fn new() -> (r: Session)
        ensures
            r.target_dir_path is None,
            r.current_dir_path is None,
            r.file_list@.len() == 0,
            r.chosen_files@.len() == 0,
    {
        Session {
            target_dir_path: None,
            current_dir_path: None,
            file_list: Vec::new(),
            chosen_files: Vec::new(),
        }
    }

    /// Record a target directory, given whether it was seen on disk:
    /// a missing directory is rejected and changes nothing.
    pub fn record_target_folder(&mut self, target_path: String, present: bool) -> (r: Result<
        (),
        String,
    >)
        ensures
            r is Ok <==> present,
            present ==> final(self).target_dir_path == Some(target_path),
            !present ==> *final(self) == *old(self) && r->Err_0@
                == "target directory does not exist"@,
            final(self).current_dir_path == old(self).current_dir_path,
            final(self).file_list == old(self).file_list,
            final(self).chosen_files == old(self).chosen_files,
    {
        if present {
            self.target_dir_path = Some(target_path);
            Ok(())
        } else {
            Err(String::from_str("target directory does not exist"))
        }
    }

    /// Set the target directory after checking that it exists on disk.
    /// Whatever the disk answered, a rejection leaves the session as it
    /// was, and an acceptance changes only the target.
    pub fn set_target_folder(&mut self, target_path: String) -> (r: Result<(), String>)
        ensures
            r is Ok ==> final(self).target_dir_path == Some(target_path),
            r is Err ==> *final(self) == *old(self) && r->Err_0@
                == "target directory does not exist"@,
            final(self).current_dir_path == old(self).current_dir_path,
            final(self).file_list == old(self).file_list,
            final(self).chosen_files == old(self).chosen_files,
    {
        let present = check_valid_path(&target_path);
        self.record_target_folder(target_path, present)
    }

    /// Install a freshly traversed file list for a source directory,
    /// replacing the previous traversal wholesale, and report its size.
    pub fn install_file_list(&mut self, source_path: String, files: Vec<String>) -> (n: usize)
        ensures
            n == final(self).file_list@.len(),
            final(self).current_dir_path == Some(source_path),
            final(self).file_list == files,
            final(self).target_dir_path == old(self).target_dir_path,
            final(self).chosen_files == old(self).chosen_files,
    {
        self.current_dir_path = Some(source_path);
        self.file_list = files;
        self.file_list.len()
    }

    /// Configure the source directory: check it exists, parse the
    /// recursion identifier, traverse, and replace the traversal result,
    /// reporting how many files were found. On any error the session is
    /// unchanged. Every loaded path lies under the source root; without
    /// recursion each is the root or a direct child of it.
    pub fn set_source_folder(&mut self, source_path: String, recursive: &String) -> (r: Result<
        usize,
        String,
    >)
        ensures
            final(self).target_dir_path == old(self).target_dir_path,
            final(self).chosen_files == old(self).chosen_files,
            r is Err ==> *final(self) == *old(self),
            recursive@ != "recursive"@ && recursive@ != "unrecursive"@ ==> r is Err,
            r matches Ok(n) ==> {
                &&& n == final(self).file_list@.len()
                &&& final(self).current_dir_path == Some(source_path)
                &&& forall|i: int|
                    0 <= i < final(self).file_list@.len() ==> is_under(
                        source_path@,
                        (#[trigger] final(self).file_list@[i])@,
                    )
                &&& recursive@ == "unrecursive"@ ==> forall|i: int|
                    0 <= i < final(self).file_list@.len() ==> is_direct_child(
                        source_path@,
                        (#[trigger] final(self).file_list@[i])@,
                    )
            },
    {
        if !check_valid_path(&source_path) {
            return Err(String::from_str("source directory does not exist"));
        }
        let recurse = match parse_recursion(recursive) {
            Ok(b) => b,
            Err(e) => { return Err(e) },
        };
        match load_files(&source_path, recurse) {
            Ok(files) => Ok(self.install_file_list(source_path, files)),
            Err(reason) => {
                let mut msg = String::from_str("failed to load files: ");
                msg.append(reason.as_str());
                Err(msg)
            },
        }
    }

    /// Run a search: parse the search method, match every traversed
    /// file against the keywords, and replace the chosen set with the
    /// result, which is also returned. The chosen set is exactly the
    /// matching pass over the traversal result, in traversal order.
    pub fn search(&mut self, method: &String, keywords: &Vec<String>) -> (r: Result<
        Vec<MatchResult>,
        String,
    >)
        ensures
            final(self).target_dir_path == old(self).target_dir_path,
            final(self).current_dir_path == old(self).current_dir_path,
            final(self).file_list == old(self).file_list,
            match r {
                Ok(results) => {
                    &&& policy_named(method@) is Some
                    &&& views_of(results@) == chosen_of(
                        policy_named(method@)->Some_0,
                        old(self).file_list.deep_view(),
                        keywords.deep_view(),
                    )
                    &&& views_of(final(self).chosen_files@) == views_of(results@)
                },
                Err(e) => {
                    &&& policy_named(method@) is None
                    &&& *final(self) == *old(self)
                    &&& e@ == "unrecognized search method: "@ + method@
                },
            },
    {
        let policy = match parse_policy(method) {
            Ok(p) => p,
            Err(e) => { return Err(e) },
        };
        let results = match_files(policy, &self.file_list, keywords);
        let mut kept: Vec<MatchResult> = Vec::new();
        let mut i: usize = 0;
        while i < results.len()
            invariant
                i <= results@.len(),
                kept@.len() == i,
                forall|k: int| 0 <= k < i ==> (#[trigger] kept@[k])@ == results@[k]@,
            decreases results@.len() - i,
        {
            kept.push(results[i].duplicate());
            i = i + 1;
        }
        proof {
            assert(views_of(kept@) =~= views_of(results@));
        }
        self.chosen_files = kept;
        Ok(results)
    }

    /// Plan the execution of an action over the chosen set: one step per
    /// chosen file, in order, each placing the file's name under the
    /// target directory. Requires a target to have been set and the
    /// action identifier to be recognized; the session is never changed.
    pub fn plan_execution(&self, method: &String) -> (r: Result<Vec<FileOp>, String>)
        ensures
            self.target_dir_path is None ==> r is Err && r->Err_0@ == "target directory not set"@,
            self.target_dir_path is Some && action_named(method@) is None ==> r is Err
                && r->Err_0@ == "unrecognized action: "@ + method@,
            self.target_dir_path is Some && action_named(method@) is Some ==> r is Ok,
            r matches Ok(ops) ==> {
                &&& ops@.len() == self.chosen_files@.len()
                &&& forall|i: int|
                    0 <= i < ops@.len() ==> (#[trigger] ops@[i])@ == op_of(
                        action_named(method@)->Some_0,
                        self.target_dir_path->Some_0@,
                        self.chosen_files@[i]@,
                    )
            },
    {
        let target = match &self.target_dir_path {
            Some(t) => t,
            None => { return Err(String::from_str("target directory not set")) },
        };
        let action = match parse_action(method) {
            Ok(a) => a,
            Err(e) => { return Err(e) },
        };
        Ok(plan_ops(action, target, &self.chosen_files))
    }

    /// The target directory a shell should open: set, it is returned;
    /// unset, that is an error, and the session keeps its state either
    /// way.
    pub fn target_to_open(&self) -> (r: Result<String, String>)
        ensures
            match r {
                Ok(p) => self.target_dir_path is Some && p@ == self.target_dir_path->Some_0@,
                Err(e) => self.target_dir_path is None && e@ == "target directory not set"@,
            },
    {
        match &self.target_dir_path {
            Some(t) => Ok(t.clone()),
            None => Err(String::from_str("target directory not set")),
        }
    }
}

/// Whether a recursion identifier names recursive traversal; any other
/// value is a configuration error, not a default.
pub fn parse_recursion(s: &String) -> (r: Result<bool, String>)
    ensures
        match r {
            Ok(b) => (b <==> s@ == "recursive"@) && (!b <==> s@ == "unrecursive"@),
            Err(e) => s@ != "recursive"@ && s@ != "unrecursive"@ && e@
                == "unrecognized recursion value: "@ + s@,
        },
{
    proof {
        reveal_strlit("recursive");
        reveal_strlit("unrecursive");
        assert("recursive"@.len() == 9);
        assert("unrecursive"@.len() == 11);
    }
    let rec = String::from_str("recursive");
    if s.eq(&rec) {
        return Ok(true);
    }
    let unrec = String::from_str("unrecursive");
    if s.eq(&unrec) {
        return Ok(false);
    }
    let mut msg = String::from_str("unrecognized recursion value: ");
    msg.append(s.as_str());
    Err(msg)
}

} // verus!
