use ptnexus_runtime::error::BootstrapError;
use ptnexus_runtime::layout::{
    ensure_exists, is_runtime_root, log_file, plain_launcher, resolve_changelog_path,
    resolve_runtime_root, resolve_server_launcher, runtime_root_markers, server_launcher_probes,
    template_copy, template_probes,
};
use ptnexus_runtime::paths::{
    candidate_runtime_roots, dedup_paths, exe_name, normalized_path, join, push_layout_candidates, InstallDirs,
    PathSet,
};

fn s(x: &str) -> String {
    x.to_string()
}

fn no_dirs() -> InstallDirs {
    InstallDirs {
        exe_dir: None,
        exe_parent: None,
        app_exe_dir: None,
        app_exe_parent: None,
        resource_runtime: None,
        resource_runtime_parent: None,
        resource_up_runtime: None,
        resource_up_runtime_parent: None,
    }
}

fn fs_with(paths: &[String]) -> PathSet {
    let mut fs = PathSet::new();
    for p in paths {
        fs.insert(p.clone());
    }
    fs
}

#[test]
fn join_adds_one_separator() {
    assert_eq!(join("/opt/app", "server", false), "/opt/app/server");
    assert_eq!(join("/opt/app/", "server", false), "/opt/app/server");
    assert_eq!(join("", "server", false), "server");
    assert_eq!(join("C:\\app", "server", true), "C:\\app\\server");
    assert_eq!(join("C:\\app\\", "server", true), "C:\\app\\server");
}

#[test]
fn exe_name_by_platform() {
    assert_eq!(exe_name("updater", true), "updater.exe");
    assert_eq!(exe_name("updater", false), "updater");
}

#[test]
fn dedup_keeps_first_occurrence_order() {
    let r = dedup_paths(vec![s("/a"), s("/b"), s("/a"), s("/c"), s("/b")], false);
    assert_eq!(r, vec![s("/a"), s("/b"), s("/c")]);
    assert_eq!(dedup_paths(vec![], false), Vec::<String>::new());
}

#[test]
fn dedup_compares_normalized_paths() {
    let r = dedup_paths(
        vec![s("a/b"), s("a/./b"), s("a//b"), s("a/b/"), s("/a/b"), s("a/c")],
        false,
    );
    assert_eq!(r, vec![s("a/b"), s("/a/b"), s("a/c")]);
    let w = dedup_paths(vec![s("C:\\app\\rt"), s("C:/app/rt"), s("C:\\app\\rt\\")], true);
    assert_eq!(w, vec![s("C:\\app\\rt")]);
    let u = dedup_paths(vec![s("C:\\app"), s("C:/app")], false);
    assert_eq!(u.len(), 2);
}

#[test]
fn normalized_path_forms() {
    assert_eq!(normalized_path("a/./b//c/", false), "a/b/c");
    assert_eq!(normalized_path("/opt//app/.", false), "/opt/app");
    assert_eq!(normalized_path("/", false), "/");
    assert_eq!(normalized_path("", false), "");
    assert_eq!(normalized_path("../x", false), "../x");
    assert_eq!(normalized_path("C:\\a\\b", true), "C:/a/b");
}

#[test]
fn layout_candidates_flat_before_nested() {
    let mut c = vec![s("/x")];
    push_layout_candidates(&mut c, "/opt/app", false);
    assert_eq!(
        c,
        vec![s("/x"), s("/opt/app"), s("/opt/app/_up_"), s("/opt/app/runtime"), s("/opt/app/_up_/runtime")]
    );
}

#[test]
fn candidates_follow_discovery_order_without_repeats() {
    let mut d = no_dirs();
    d.exe_dir = Some(s("/opt/app"));
    d.exe_parent = Some(s("/opt"));
    d.app_exe_dir = Some(s("/opt/app"));
    d.app_exe_parent = Some(s("/opt"));
    d.resource_runtime = Some(s("/opt/app/runtime"));
    d.resource_runtime_parent = Some(s("/opt/app"));
    let c = candidate_runtime_roots(&d, false);
    assert_eq!(
        c,
        vec![
            s("/opt/app"),
            s("/opt/app/_up_"),
            s("/opt/app/runtime"),
            s("/opt/app/_up_/runtime"),
            s("/opt"),
            s("/opt/_up_"),
            s("/opt/runtime"),
            s("/opt/_up_/runtime"),
        ]
    );
}

#[test]
fn runtime_root_needs_all_three_markers() {
    let m = runtime_root_markers("/r", false);
    assert_eq!(m, vec![s("/r/updater/updater"), s("/r/batch/batch"), s("/r/server/dist/index.html")]);
    let full = fs_with(&m);
    assert!(is_runtime_root("/r", false, &full));
    let partial = fs_with(&m[..2]);
    assert!(!is_runtime_root("/r", false, &partial));
    let w = runtime_root_markers("C:\\r", true);
    assert_eq!(w[0], "C:\\r\\updater\\updater.exe");
}

#[test]
fn resolver_returns_first_valid_candidate() {
    let cands = vec![s("/a"), s("/b"), s("/c")];
    let mut all = runtime_root_markers("/b", false);
    all.extend(runtime_root_markers("/c", false));
    let fs = fs_with(&all);
    assert_eq!(resolve_runtime_root(&cands, false, &fs), Ok(s("/b")));
}

#[test]
fn resolver_lists_every_candidate_when_none_fits() {
    let cands = vec![s("/a"), s("/b")];
    let fs = fs_with(&[s("/a/updater/updater")]);
    match resolve_runtime_root(&cands, false, &fs) {
        Err(BootstrapError::RuntimeNotFound { checked }) => assert_eq!(checked, cands),
        other => panic!("unexpected {:?}", other),
    }
}

#[test]
fn server_launcher_prefers_standalone_executable() {
    let p = server_launcher_probes("/r/server", false);
    assert_eq!(p, vec![s("/r/server/server"), s("/r/server/python/python"), s("/r/server/app.py")]);
    let fs = fs_with(&p);
    let l = resolve_server_launcher("/r/server", false, &fs).unwrap();
    assert_eq!(l.program, "/r/server/server");
    assert!(l.args.is_empty());
    assert_eq!(l.workdir, "/r/server");
}

#[test]
fn server_launcher_falls_back_to_interpreter() {
    let fs = fs_with(&[s("/r/server/python/python"), s("/r/server/app.py")]);
    let l = resolve_server_launcher("/r/server", false, &fs).unwrap();
    assert_eq!(l.program, "/r/server/python/python");
    assert_eq!(l.args, vec![s("-u"), s("/r/server/app.py")]);
    assert_eq!(l.workdir, "/r/server");
}

#[test]
fn server_launcher_missing_names_both_forms() {
    let fs = fs_with(&[s("/r/server/python/python")]);
    match resolve_server_launcher("/r/server", false, &fs) {
        Err(BootstrapError::LauncherNotFound { executable, interpreter, entry }) => {
            assert_eq!(executable, "/r/server/server");
            assert_eq!(interpreter, "/r/server/python/python");
            assert_eq!(entry, "/r/server/app.py");
        }
        other => panic!("unexpected {:?}", other),
    }
}

#[test]
fn ensure_exists_names_missing_path() {
    let fs = fs_with(&[s("/r/batch/batch")]);
    assert_eq!(ensure_exists(&s("/r/batch/batch"), &fs), Ok(()));
    assert_eq!(
        ensure_exists(&s("/r/updater/updater"), &fs),
        Err(BootstrapError::MissingRuntimeFile { path: s("/r/updater/updater") })
    );
}

#[test]
fn changelog_defaults_to_first_candidate() {
    let mut d = no_dirs();
    d.exe_dir = Some(s("/opt/app"));
    let fs = PathSet::new();
    let r = resolve_changelog_path("/opt/app/runtime", &Some(s("/opt/app")), &d, &None, false, &fs);
    assert_eq!(r, "/opt/app/runtime/CHANGELOG.json");
}

#[test]
fn changelog_takes_first_existing_candidate() {
    let mut d = no_dirs();
    d.exe_dir = Some(s("/opt/app"));
    let fs = fs_with(&[s("/opt/app/_up_/CHANGELOG.json"), s("/res/CHANGELOG.json")]);
    let r = resolve_changelog_path(
        "/opt/app/runtime",
        &Some(s("/opt/app")),
        &d,
        &Some(s("/res/CHANGELOG.json")),
        false,
        &fs,
    );
    assert_eq!(r, "/opt/app/_up_/CHANGELOG.json");
}

#[test]
fn plain_launcher_runs_own_executable() {
    let l = plain_launcher("/r/batch", "batch", false);
    assert_eq!(l.program, "/r/batch/batch");
    assert!(l.args.is_empty());
    assert_eq!(l.workdir, "/r/batch");
    assert_eq!(plain_launcher("C:\\r\\batch", "batch", true).program, "C:\\r\\batch\\batch.exe");
}

#[test]
fn log_files_per_stream() {
    assert_eq!(log_file("/d/logs", "server", "stdout", false), "/d/logs/server.stdout.log");
    assert_eq!(log_file("/d/logs", "batch", "stderr", false), "/d/logs/batch.stderr.log");
}

#[test]
fn template_copied_once_never_overwritten() {
    let p = template_probes("/r", "/d", false);
    assert_eq!(
        p,
        vec![
            s("/r/data/runtime.env.example"),
            s("/r/_up_/runtime/data/runtime.env.example"),
            s("/d/runtime.env.example"),
        ]
    );
    let flat = fs_with(&[p[0].clone()]);
    assert_eq!(template_copy("/r", "/d", false, &flat), Some((p[0].clone(), p[2].clone())));
    let nested = fs_with(&[p[1].clone()]);
    assert_eq!(template_copy("/r", "/d", false, &nested), Some((p[1].clone(), p[2].clone())));
    let already = fs_with(&[p[0].clone(), p[2].clone()]);
    assert_eq!(template_copy("/r", "/d", false, &already), None);
    assert_eq!(template_copy("/r", "/d", false, &PathSet::new()), None);
}
