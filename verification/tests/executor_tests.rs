use file_triage::executor::parse_action;
use file_triage::executor::plan_ops;
use file_triage::executor::BulkAction;
use file_triage::executor::ExecRun;
use file_triage::executor::FileOp;
use file_triage::matcher::MatchResult;
use file_triage::progress::progress_percent;
use file_triage::progress::progress_sequence;
use file_triage::session::parse_recursion;
use file_triage::session::Session;

fn s(x: &str) -> String {
    x.to_string()
}

fn matched(path: &str, name: &str) -> MatchResult {
    MatchResult { file_path: s(path), file_name: s(name), keyword: s(name) }
}

#[test]
fn action_identifiers_parse_exactly() {
    assert!(matches!(parse_action(&s("copy")), Ok(BulkAction::Copy)));
    assert!(matches!(parse_action(&s("move")), Ok(BulkAction::Move)));
    assert!(matches!(parse_action(&s("delete")), Ok(BulkAction::Delete)));
    let e = parse_action(&s("rename")).unwrap_err();
    assert_eq!(e, "unrecognized action: rename");
}

#[test]
fn recursion_identifiers_parse_exactly() {
    assert!(matches!(parse_recursion(&s("recursive")), Ok(true)));
    assert!(matches!(parse_recursion(&s("unrecursive")), Ok(false)));
    let e = parse_recursion(&s("deep")).unwrap_err();
    assert_eq!(e, "unrecognized recursion value: deep");
}

#[test]
fn planned_steps_place_file_names_under_the_target() {
    let chosen = vec![matched("/src/a.txt", "a.txt"), matched("/src/d/b.txt", "b.txt")];
    let ops = plan_ops(BulkAction::Copy, &s("/target"), &chosen);
    assert_eq!(ops.len(), 2);
    assert_eq!(ops[0].source_path, "/src/a.txt");
    assert_eq!(ops[0].dest_path, "/target/a.txt");
    assert_eq!(ops[1].source_path, "/src/d/b.txt");
    assert_eq!(ops[1].dest_path, "/target/b.txt");
}

#[test]
fn percentages_are_normalized_integers() {
    assert_eq!(progress_percent(0, 0), 0);
    assert_eq!(progress_percent(0, 3), 0);
    assert_eq!(progress_percent(1, 3), 33);
    assert_eq!(progress_percent(2, 3), 66);
    assert_eq!(progress_percent(3, 3), 100);
}

#[test]
fn progress_stream_has_one_entry_per_item_monotone_ending_at_100() {
    assert_eq!(progress_sequence(4), vec![25, 50, 75, 100]);
    assert_eq!(progress_sequence(0), Vec::<i32>::new());
    let p = progress_sequence(7);
    assert_eq!(p.len(), 7);
    for w in p.windows(2) {
        assert!(w[0] <= w[1]);
    }
    assert_eq!(*p.last().unwrap(), 100);
}

#[test]
fn run_reports_rising_percentages_on_success() {
    let ops = plan_ops(BulkAction::Move, &s("/t"), &vec![
        matched("/s/a", "a"),
        matched("/s/b", "b"),
    ]);
    let mut run = ExecRun::start(ops.len());
    let i = run.next_item().unwrap();
    assert_eq!(i, 0);
    assert_eq!(run.record(&ops[i], Ok(())), Ok(50));
    let i = run.next_item().unwrap();
    assert_eq!(i, 1);
    assert_eq!(run.record(&ops[i], Ok(())), Ok(100));
    assert!(run.next_item().is_none());
}

#[test]
fn second_failure_aborts_batch_and_third_is_never_offered() {
    let chosen = vec![matched("/s/a.txt", "a.txt"), matched("/s/b.txt", "b.txt"), matched(
        "/s/c.txt",
        "c.txt",
    )];
    let ops = plan_ops(BulkAction::Copy, &s("/t"), &chosen);
    let mut run = ExecRun::start(ops.len());
    let i = run.next_item().unwrap();
    assert_eq!(run.record(&ops[i], Ok(())), Ok(33));
    let i = run.next_item().unwrap();
    assert_eq!(i, 1);
    let err = run.record(&ops[i], Err(s("target directory removed"))).unwrap_err();
    assert_eq!(err, "failed to copy /s/b.txt: target directory removed");
    assert!(run.next_item().is_none());
}

#[test]
fn failure_reports_name_the_action() {
    let op = FileOp {
        action: BulkAction::Delete,
        source_path: s("/s/x"),
        file_name: s("x"),
        dest_path: s("/t/x"),
    };
    let mut run = ExecRun::start(1);
    let err = run.record(&op, Err(s("permission denied"))).unwrap_err();
    assert_eq!(err, "failed to delete /s/x: permission denied");
}

#[test]
fn execution_needs_a_target_directory() {
    let session = Session::new();
    let e = session.plan_execution(&s("copy")).unwrap_err();
    assert_eq!(e, "target directory not set");
    assert_eq!(session.target_to_open().unwrap_err(), "target directory not set");
}

#[test]
fn execution_rejects_an_unrecognized_action() {
    let mut session = Session::new();
    session.record_target_folder(s("/t"), true).unwrap();
    let e = session.plan_execution(&s("shred")).unwrap_err();
    assert_eq!(e, "unrecognized action: shred");
}

#[test]
fn session_plans_over_the_chosen_set() {
    let mut session = Session::new();
    session.record_target_folder(s("/t"), true).unwrap();
    session.install_file_list(s("/src"), vec![s("/src/a.txt"), s("/src/b.txt")]);
    let found = session.search(&s("same"), &vec![s("a.txt")]).unwrap();
    assert_eq!(found.len(), 1);
    let ops = session.plan_execution(&s("copy")).unwrap();
    assert_eq!(ops.len(), 1);
    assert_eq!(ops[0].source_path, "/src/a.txt");
    assert_eq!(ops[0].dest_path, "/t/a.txt");
    assert_eq!(session.target_to_open().unwrap(), "/t");
}

#[test]
fn search_rejects_an_unrecognized_method() {
    let mut session = Session::new();
    session.install_file_list(s("/src"), vec![s("/src/a.txt")]);
    let e = session.search(&s("regex"), &vec![s("a")]).unwrap_err();
    assert_eq!(e, "unrecognized search method: regex");
    assert_eq!(session.chosen_files.len(), 0);
}

#[test]
fn rejected_target_changes_nothing() {
    let mut session = Session::new();
    let e = session.record_target_folder(s("/nowhere"), false).unwrap_err();
    assert_eq!(e, "target directory does not exist");
    assert!(session.target_dir_path.is_none());
}
