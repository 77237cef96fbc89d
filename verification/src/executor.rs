//! The executor: plan a bulk action over the chosen set, and account
//! for per-item outcomes with fail-fast abort and progress reporting.

use crate::matcher::MatchResult;
use crate::matcher::MatchResultView;
use crate::paths::join_path;
use crate::paths::join_under;
use crate::progress::percent_of;
use crate::progress::progress_percent;
use vstd::prelude::*;

verus! {

/// The bulk action applied to every matched file.
#[derive(Clone, Copy, PartialEq, Eq, Structural, Debug)]
pub enum BulkAction {
    /// Copy the file into the target directory, leaving the source.
    Copy,
    /// Move the file into the target directory.
    Move,
    /// Delete the file (a directory with all its contents).
    Delete,
}

/// The verb of an action as it appears in failure reports.
pub open spec fn action_word(action: BulkAction) -> Seq<char> {
    match action {
        BulkAction::Copy => "copy"@,
        BulkAction::Move => "move"@,
        BulkAction::Delete => "delete"@,
    }
}

/// The verb of an action as it appears in failure reports.
pub fn action_name(action: BulkAction) -> (r: &'static str)
    ensures
        r@ == action_word(action),
{
    match action {
        BulkAction::Copy => "copy",
        BulkAction::Move => "move",
        BulkAction::Delete => "delete",
    }
}

/// The action an identifier names, if recognized.
pub open spec fn action_named(s: Seq<char>) -> Option<BulkAction> {
    if s == "copy"@ {
        Some(BulkAction::Copy)
    } else if s == "move"@ {
        Some(BulkAction::Move)
    } else if s == "delete"@ {
        Some(BulkAction::Delete)
    } else {
        None
    }
}

/// Map an action identifier to its `BulkAction`; any other value is a
/// configuration error, not a default.
pub fn parse_action(s: &String) -> (r: Result<BulkAction, String>)
    ensures
        match r {
            Ok(a) => action_named(s@) == Some(a),
            Err(e) => action_named(s@) is None && e@ == "unrecognized action: "@ + s@,
        },
{
    proof {
        reveal_strlit("copy");
        reveal_strlit("move");
        reveal_strlit("delete");
        assert("copy"@[0] == 'c' && "move"@[0] == 'm');
        assert("copy"@ != "move"@);
    }
    let copy_word = String::from_str("copy");
    if s.eq(&copy_word) {
        return Ok(BulkAction::Copy);
    }
    let move_word = String::from_str("move");
    if s.eq(&move_word) {
        return Ok(BulkAction::Move);
    }
    let delete_word = String::from_str("delete");
    if s.eq(&delete_word) {
        return Ok(BulkAction::Delete);
    }
    let mut msg = String::from_str("unrecognized action: ");
    msg.append(s.as_str());
    Err(msg)
}

/// One planned step: apply `action` to the file at `source_path`; a
/// copy or a move places the result at `dest_path`, the file's name
/// under the target directory.
#[derive(Debug)]
pub struct FileOp {
    pub action: BulkAction,
    pub source_path: String,
    pub file_name: String,
    pub dest_path: String,
}

/// The mathematical content of a `FileOp`.
pub struct FileOpView {
    pub action: BulkAction,
    pub source_path: Seq<char>,
    pub file_name: Seq<char>,
    pub dest_path: Seq<char>,
}

impl View for FileOp {
    type V = FileOpView;

    open spec fn view(&self) -> FileOpView {
        FileOpView {
            action: self.action,
            source_path: self.source_path@,
            file_name: self.file_name@,
            dest_path: self.dest_path@,
        }
    }
}

/// The step planned for one match result under an action and a target
/// directory.
pub open spec fn op_of(action: BulkAction, target_dir: Seq<char>, m: MatchResultView) -> FileOpView {
    FileOpView {
        action,
        source_path: m.file_path,
        file_name: m.file_name,
        dest_path: join_path(target_dir, m.file_name),
    }
}

/// Plan the whole batch: one step per match result, in chosen-set order.
pub fn plan_ops(action: BulkAction, target_dir: &String, chosen: &Vec<MatchResult>) -> (r: Vec<
    FileOp,
>)
    ensures
        r@.len() == chosen@.len(),
        forall|i: int|
            0 <= i < r@.len() ==> (#[trigger] r@[i])@ == op_of(action, target_dir@, chosen@[i]@),
{
    let mut out: Vec<FileOp> = Vec::new();
    let mut i: usize = 0;
    while i < chosen.len()
        invariant
            i <= chosen@.len(),
            out@.len() == i,
            forall|k: int|
                0 <= k < i ==> (#[trigger] out@[k])@ == op_of(action, target_dir@, chosen@[k]@),
        decreases chosen@.len() - i,
    {
        let m = &chosen[i];
        let dest = join_under(target_dir, &m.file_name);
        out.push(
            FileOp {
                action,
                source_path: m.file_path.clone(),
                file_name: m.file_name.clone(),
                dest_path: dest,
            },
        );
        i = i + 1;
    }
    out
}

/// The report of a step that failed: the action, the offending path,
/// and the underlying reason.
pub open spec fn failure_report(action: BulkAction, source: Seq<char>, reason: Seq<char>) -> Seq<
    char,
> {
    "failed to "@ + action_word(action) + " "@ + source + ": "@ + reason
}

/// Compose the report of a failed step.
fn report_failure(op: &FileOp, reason: &String) -> (r: String)
    ensures
        r@ == failure_report(op@.action, op@.source_path, reason@),
{
    let mut msg = String::new();
    msg.append("failed to ");
    msg.append(action_name(op.action));
    msg.append(" ");
    msg.append(op.source_path.as_str());
    msg.append(": ");
    msg.append(reason.as_str());
    msg
}

/// The running state of one execute pass over a planned batch: how many
/// steps are done, out of how many, and whether the batch has aborted.
pub struct ExecRun {
    pub total: usize,
    pub completed: usize,
    pub failed: bool,
}

impl ExecRun {
    /// The count of completed steps never exceeds the total.
    pub open spec fn wf(&self) -> bool {
        self.completed <= self.total
    }

    /// The index of the next step to attempt: none once every step is
    /// done or the batch has aborted.
    pub open spec fn next_spec(&self) -> Option<int> {
        if self.failed || self.completed >= self.total {
            None
        } else {
            Some(self.completed as int)
        }
    }

    /// Start a run over a batch of `total` steps.
    pub fn start(total: usize) -> (r: ExecRun)
        ensures
            r.total == total,
            r.completed == 0,
            !r.failed,
            r.wf(),
    {
        ExecRun { total, completed: 0, failed: false }
    }

    /// The next step to attempt, if the run is neither done nor aborted.
    pub fn next_item(&self) -> (r: Option<usize>)
        ensures
            match r {
                Some(i) => self.next_spec() == Some(i as int),
                None => self.next_spec() is None,
            },
    {
        if self.failed || self.completed >= self.total {
            None
        } else {
            Some(self.completed)
        }
    }

    /// Record the outcome of the step just attempted. A success advances
    /// the count and reports the percentage reached; a failure aborts
    /// the whole remaining batch and reports the offending step.
    pub fn record(&mut self, op: &FileOp, outcome: Result<(), String>) -> (r: Result<i32, String>)
        requires
            old(self).wf(),
            !old(self).failed,
            old(self).completed < old(self).total,
        ensures
            final(self).wf(),
            final(self).total == old(self).total,
            match outcome {
                Ok(u) => {
                    &&& !final(self).failed
                    &&& final(self).completed == old(self).completed + 1
                    &&& r == Ok::<i32, String>(
                        percent_of(final(self).completed as int, final(self).total as int) as i32,
                    )
                },
                Err(reason) => {
                    &&& final(self).failed
                    &&& final(self).completed == old(self).completed
                    &&& r is Err
                    &&& r->Err_0@ == failure_report(op@.action, op@.source_path, reason@)
                },
            },
    {
        match outcome {
            Ok(()) => {
                self.completed = self.completed + 1;
                Ok(progress_percent(self.completed, self.total))
            },
            Err(reason) => {
                self.failed = true;
                Err(report_failure(op, &reason))
            },
        }
    }
}

/// Fail-fast: once a step has failed, the run offers no further step,
/// so no later item of the batch is ever attempted.
pub proof fn lemma_fail_fast(r: ExecRun)
    requires
        r.failed,
    ensures
        r.next_spec() is None,
{
}

} // verus!
