use file_triage::files::check_valid_path;
use file_triage::files::load_files;
use file_triage::matcher::MatchPolicy;
use file_triage::matcher::match_files;
use file_triage::session::Session;

fn s(x: &str) -> String {
    x.to_string()
}

fn make_file(dir: &std::path::Path, name: &str) -> tempfile::NamedTempFile {
    tempfile::Builder::new().prefix(name).rand_bytes(0).tempfile_in(dir).unwrap()
}

fn make_dir(dir: &std::path::Path, name: &str) -> tempfile::TempDir {
    tempfile::Builder::new().prefix(name).rand_bytes(0).tempdir_in(dir).unwrap()
}

#[test]
fn non_recursive_traversal_stays_at_depth_one() {
    let root = tempfile::tempdir().unwrap();
    let rootp = root.path().to_str().unwrap().to_string();
    let _a = make_file(root.path(), "a.txt");
    let sub = make_dir(root.path(), "sub");
    let _inner = make_file(sub.path(), "inner.txt");

    let got = load_files(&rootp, false).unwrap();
    assert_eq!(got, vec![format!("{}/a.txt", rootp)]);
    for p in &got {
        let cut = p.rfind('/').unwrap();
        assert_eq!(&p[..cut], rootp.as_str());
    }
}

#[test]
fn recursive_traversal_is_a_superset_of_the_non_recursive_one() {
    let root = tempfile::tempdir().unwrap();
    let rootp = root.path().to_str().unwrap().to_string();
    let _a = make_file(root.path(), "a.txt");
    let _b = make_file(root.path(), "b.txt");
    let sub = make_dir(root.path(), "sub");
    let _inner = make_file(sub.path(), "inner.txt");

    let flat = load_files(&rootp, false).unwrap();
    let deep = load_files(&rootp, true).unwrap();
    assert_eq!(flat.len(), 2);
    assert_eq!(deep.len(), 3);
    for p in &flat {
        assert!(deep.contains(p));
    }
    assert!(deep.contains(&format!("{}/sub/inner.txt", rootp)));
}

#[test]
fn missing_root_is_a_hard_error() {
    let root = tempfile::tempdir().unwrap();
    let gone = format!("{}/not-here", root.path().to_str().unwrap());
    assert!(load_files(&gone, false).is_err());
    assert!(load_files(&gone, true).is_err());
}

#[test]
fn path_validity_follows_the_disk() {
    let root = tempfile::tempdir().unwrap();
    let rootp = root.path().to_str().unwrap().to_string();
    assert!(check_valid_path(&rootp));
    assert!(!check_valid_path(&format!("{}/not-here", rootp)));
}

#[test]
fn traversed_files_feed_matching() {
    let root = tempfile::tempdir().unwrap();
    let rootp = root.path().to_str().unwrap().to_string();
    let _a = make_file(root.path(), "report.pdf");
    let _b = make_file(root.path(), "report.final.pdf");

    let files = load_files(&rootp, false).unwrap();
    let r = match_files(MatchPolicy::StemEqual, &files, &vec![s("report")]);
    assert_eq!(r.len(), 1);
    assert_eq!(r[0].file_name, "report.pdf");
    assert_eq!(r[0].file_path, format!("{}/report.pdf", rootp));
}

#[test]
fn session_configures_and_searches_a_real_directory() {
    let root = tempfile::tempdir().unwrap();
    let rootp = root.path().to_str().unwrap().to_string();
    let target = tempfile::tempdir().unwrap();
    let targetp = target.path().to_str().unwrap().to_string();
    let _a = make_file(root.path(), "img_001.png");
    let _b = make_file(root.path(), "profile.png");

    let mut session = Session::new();
    session.set_target_folder(targetp.clone()).unwrap();
    let n = session.set_source_folder(rootp.clone(), &s("unrecursive")).unwrap();
    assert_eq!(n, 2);
    let found = session.search(&s("include-name"), &vec![s("img")]).unwrap();
    assert_eq!(found.len(), 1);
    assert_eq!(found[0].file_name, "img_001.png");
    let ops = session.plan_execution(&s("copy")).unwrap();
    assert_eq!(ops.len(), 1);
    assert_eq!(ops[0].dest_path, format!("{}/img_001.png", targetp));
}

#[test]
fn session_rejects_missing_directories_and_bad_values() {
    let root = tempfile::tempdir().unwrap();
    let rootp = root.path().to_str().unwrap().to_string();
    let gone = format!("{}/not-here", rootp);

    let mut session = Session::new();
    let e = session.set_target_folder(gone.clone()).unwrap_err();
    assert_eq!(e, "target directory does not exist");
    let e = session.set_source_folder(gone.clone(), &s("unrecursive")).unwrap_err();
    assert_eq!(e, "source directory does not exist");
    let e = session.set_source_folder(rootp.clone(), &s("maybe")).unwrap_err();
    assert_eq!(e, "unrecognized recursion value: maybe");
    assert!(session.current_dir_path.is_none());
    assert_eq!(session.file_list.len(), 0);
}
