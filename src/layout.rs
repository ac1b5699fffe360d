use vstd::prelude::*;

use crate::error::BootstrapError;
use crate::paths::{
    dedup, dedup_paths, exe_file, exe_name, first_existing, first_root, join,
    lemma_dedup_head, path_join, runtime_root_markers_of, runtime_root_ok, InstallDirs, PathSet,
};

verus! {

/// The files whose presence marks `root` as a runtime root, for the host to probe.
pub fn runtime_root_markers(root: &str, windows: bool) -> (r: Vec<String>)
    ensures
        r.deep_view() == runtime_root_markers_of(root@, windows),
{
    let updater = join(
        join(root, "updater", windows).as_str(),
        exe_name("updater", windows).as_str(),
        windows,
    );
    let batch = join(
        join(root, "batch", windows).as_str(),
        exe_name("batch", windows).as_str(),
        windows,
    );
    let index = join(
        join(join(root, "server", windows).as_str(), "dist", windows).as_str(),
        "index.html",
        windows,
    );
    let r = vec![updater, batch, index];
    assert(r.deep_view() =~= runtime_root_markers_of(root@, windows));
    r
}

/// Whether `root` holds the updater and batch executables and the server's
/// `dist/index.html`.
pub fn is_runtime_root(root: &str, windows: bool, fs: &PathSet) -> (r: bool)
    ensures
        r == runtime_root_ok(root@, windows, fs@),
{
    let m = runtime_root_markers(root, windows);
    assert(m.deep_view().len() == 3);
    assert(m@.len() == 3);
    assert(m.deep_view()[0] == m[0]@ && m.deep_view()[1] == m[1]@ && m.deep_view()[2] == m[2]@);
    fs.contains(&m[0]) && fs.contains(&m[1]) && fs.contains(&m[2])
}

/// The first candidate that is a runtime root, or `RuntimeNotFound` listing
/// every candidate checked.
pub fn resolve_runtime_root(candidates: &Vec<String>, windows: bool, fs: &PathSet) -> (r: Result<
    String,
    BootstrapError,
>)
    ensures
        ({
            let c = candidates.deep_view();
            let k = first_root(c, windows, fs@, 0);
            match r {
                Ok(root) => k < c.len() && root@ == c[k],
                Err(BootstrapError::RuntimeNotFound { checked }) => k == c.len()
                    && checked.deep_view() == c,
                Err(_) => false,
            }
        }),
{
    let ghost c = candidates.deep_view();
    let mut i: usize = 0;
    while i < candidates.len()
        invariant
            i <= candidates.len(),
            c == candidates.deep_view(),
            first_root(c, windows, fs@, 0) == first_root(c, windows, fs@, i as int),
        decreases candidates.len() - i,
    {
        assert(c[i as int] == candidates[i as int]@);
        if is_runtime_root(candidates[i].as_str(), windows, fs) {
            return Ok(candidates[i].clone());
        }
        i = i + 1;
    }
    Err(BootstrapError::RuntimeNotFound { checked: candidates.clone() })
}

/// `Ok` when `path` exists, else `MissingRuntimeFile` naming it.
pub fn ensure_exists(path: &String, fs: &PathSet) -> (r: Result<(), BootstrapError>)
    ensures
        match r {
            Ok(()) => fs@.contains(path@),
            Err(BootstrapError::MissingRuntimeFile { path: p }) => !fs@.contains(path@) && p@
                == path@,
            Err(_) => false,
        },
{
    if fs.contains(path) {
        Ok(())
    } else {
        Err(BootstrapError::MissingRuntimeFile { path: path.clone() })
    }
}

/// How a service is started: program, its arguments and working directory.
#[derive(Debug, Clone, PartialEq, Eq)]
pub struct Launcher {
    pub program: String,
    pub args: Vec<String>,
    pub workdir: String,
}

pub open spec fn server_exe_of(server_dir: Seq<char>, windows: bool) -> Seq<char> {
    path_join(server_dir, exe_file("server"@, windows), windows)
}

pub open spec fn interpreter_of(server_dir: Seq<char>, windows: bool) -> Seq<char> {
    path_join(path_join(server_dir, "python"@, windows), exe_file("python"@, windows), windows)
}

pub open spec fn entry_of(server_dir: Seq<char>, windows: bool) -> Seq<char> {
    path_join(server_dir, "app.py"@, windows)
}

/// The files that decide how the server is launched, for the host to probe.
pub fn server_launcher_probes(server_dir: &str, windows: bool) -> (r: Vec<String>)
    ensures
        r.deep_view() == seq![
            server_exe_of(server_dir@, windows),
            interpreter_of(server_dir@, windows),
            entry_of(server_dir@, windows),
        ],
{
    let exe = join(server_dir, exe_name("server", windows).as_str(), windows);
    let py = join(
        join(server_dir, "python", windows).as_str(),
        exe_name("python", windows).as_str(),
        windows,
    );
    let entry = join(server_dir, "app.py", windows);
    let r = vec![exe, py, entry];
    assert(r.deep_view() =~= seq![
        server_exe_of(server_dir@, windows),
        interpreter_of(server_dir@, windows),
        entry_of(server_dir@, windows),
    ]);
    r
}

/// The server's launcher: its own executable when present, else the bundled
/// interpreter running `app.py` unbuffered, else `LauncherNotFound`.
pub fn resolve_server_launcher(server_dir: &str, windows: bool, fs: &PathSet) -> (r: Result<
    Launcher,
    BootstrapError,
>)
    ensures
        ({
            let exe = server_exe_of(server_dir@, windows);
            let py = interpreter_of(server_dir@, windows);
            let entry = entry_of(server_dir@, windows);
            match r {
                Ok(l) => l.workdir@ == server_dir@ && if fs@.contains(exe) {
                    l.program@ == exe && l.args.len() == 0
                } else {
                    fs@.contains(py) && fs@.contains(entry) && l.program@ == py
                        && l.args.deep_view() == seq!["-u"@, entry]
                },
                Err(BootstrapError::LauncherNotFound { executable, interpreter, entry: e }) => !fs@.contains(exe)
                    && !(fs@.contains(py) && fs@.contains(entry)) && executable@ == exe
                    && interpreter@ == py && e@ == entry,
                Err(_) => false,
            }
        }),
{
    let p = server_launcher_probes(server_dir, windows);
    assert(p.deep_view().len() == 3);
    assert(p@.len() == 3);
    assert(p.deep_view()[0] == p[0]@ && p.deep_view()[1] == p[1]@ && p.deep_view()[2] == p[2]@);
    if fs.contains(&p[0]) {
        return Ok(
            Launcher { program: p[0].clone(), args: Vec::new(), workdir: String::from_str(server_dir) },
        );
    }
    if fs.contains(&p[1]) && fs.contains(&p[2]) {
        let args = vec![String::from_str("-u"), p[2].clone()];
        assert(args.deep_view() =~= seq!["-u"@, entry_of(server_dir@, windows)]);
        return Ok(
            Launcher { program: p[1].clone(), args, workdir: String::from_str(server_dir) },
        );
    }
    Err(
        BootstrapError::LauncherNotFound {
            executable: p[0].clone(),
            interpreter: p[1].clone(),
            entry: p[2].clone(),
        },
    )
}

pub open spec fn changelog_at(dir: Seq<char>, windows: bool) -> Seq<char> {
    path_join(dir, "CHANGELOG.json"@, windows)
}

pub open spec fn changelog_pair(o: Option<String>, windows: bool) -> Seq<Seq<char>> {
    match o {
        Some(d) => seq![
            changelog_at(d@, windows),
            changelog_at(path_join(d@, "_up_"@, windows), windows),
        ],
        None => seq![],
    }
}

pub open spec fn opt_changelog(o: Option<String>, windows: bool) -> Seq<Seq<char>> {
    match o {
        Some(d) => seq![changelog_at(d@, windows)],
        None => seq![],
    }
}

pub open spec fn opt_path(o: Option<String>) -> Seq<Seq<char>> {
    match o {
        Some(p) => seq![p@],
        None => seq![],
    }
}

/// Every place the changelog may be, in priority order, before duplicates are removed.
pub open spec fn raw_changelog_candidates(
    runtime_root: Seq<char>,
    root_parent: Option<String>,
    d: InstallDirs,
    resource_changelog: Option<String>,
    windows: bool,
) -> Seq<Seq<char>> {
    seq![changelog_at(runtime_root, windows)] + opt_changelog(root_parent, windows)
        + changelog_pair(d.exe_dir, windows) + changelog_pair(d.exe_parent, windows)
        + changelog_pair(d.app_exe_dir, windows) + changelog_pair(d.app_exe_parent, windows)
        + opt_path(resource_changelog)
}

fn push_changelog_pair(c: &mut Vec<String>, o: &Option<String>, windows: bool)
    ensures
        final(c).deep_view() == old(c).deep_view() + changelog_pair(*o, windows),
{
    match o {
        Some(d) => {
            c.push(join(d.as_str(), "CHANGELOG.json", windows));
            let up = join(d.as_str(), "_up_", windows);
            c.push(join(up.as_str(), "CHANGELOG.json", windows));
        },
        None => {},
    }
    assert(final(c).deep_view() =~= old(c).deep_view() + changelog_pair(*o, windows));
}

/// Every place the changelog may be, in priority order, without repeats.
pub fn changelog_candidates(
    runtime_root: &str,
    root_parent: &Option<String>,
    dirs: &InstallDirs,
    resource_changelog: &Option<String>,
    windows: bool,
) -> (r: Vec<String>)
    ensures
        r.deep_view() == dedup(
            raw_changelog_candidates(runtime_root@, *root_parent, *dirs, *resource_changelog, windows),
            windows,
        ),
        r.len() > 0,
{
    let mut c: Vec<String> = Vec::new();
    c.push(join(runtime_root, "CHANGELOG.json", windows));
    match root_parent {
        Some(p) => {
            c.push(join(p.as_str(), "CHANGELOG.json", windows));
        },
        None => {},
    }
    assert(c.deep_view() =~= seq![changelog_at(runtime_root@, windows)] + opt_changelog(
        *root_parent,
        windows,
    ));
    push_changelog_pair(&mut c, &dirs.exe_dir, windows);
    push_changelog_pair(&mut c, &dirs.exe_parent, windows);
    push_changelog_pair(&mut c, &dirs.app_exe_dir, windows);
    push_changelog_pair(&mut c, &dirs.app_exe_parent, windows);
    let ghost before = c.deep_view();
    match resource_changelog {
        Some(p) => {
            c.push(p.clone());
        },
        None => {},
    }
    assert(c.deep_view() =~= before + opt_path(*resource_changelog));
    let ghost raw = raw_changelog_candidates(
        runtime_root@,
        *root_parent,
        *dirs,
        *resource_changelog,
        windows,
    );
    let r = dedup_paths(c, windows);
    proof {
        lemma_dedup_head(raw, windows);
    }
    r
}

/// The changelog path: the first candidate that exists, or else the first
/// candidate, since the file may be created later.
pub fn resolve_changelog_path(
    runtime_root: &str,
    root_parent: &Option<String>,
    dirs: &InstallDirs,
    resource_changelog: &Option<String>,
    windows: bool,
    fs: &PathSet,
) -> (r: String)
    ensures
        ({
            let c = dedup(
                raw_changelog_candidates(
                    runtime_root@,
                    *root_parent,
                    *dirs,
                    *resource_changelog,
                    windows,
                ),
                windows,
            );
            let k = first_existing(c, fs@, 0);
            c.len() > 0 && (if k < c.len() {
                r@ == c[k]
            } else {
                r@ == c[0]
            })
        }),
{
    let c = changelog_candidates(runtime_root, root_parent, dirs, resource_changelog, windows);
    let ghost cv = c.deep_view();
    let mut i: usize = 0;
    while i < c.len()
        invariant
            i <= c.len(),
            cv == c.deep_view(),
            cv == dedup(
                raw_changelog_candidates(
                    runtime_root@,
                    *root_parent,
                    *dirs,
                    *resource_changelog,
                    windows,
                ),
                windows,
            ),
            cv.len() > 0,
            first_existing(cv, fs@, 0) == first_existing(cv, fs@, i as int),
        decreases c.len() - i,
    {
        assert(cv[i as int] == c[i as int]@);
        if fs.contains(&c[i]) {
            return c[i].clone();
        }
        i = i + 1;
    }
    c[0].clone()
}

/// How batch and updater are started: their one executable, no arguments,
/// from their own directory.
pub fn plain_launcher(dir: &str, name: &str, windows: bool) -> (r: Launcher)
    ensures
        r.program@ == path_join(dir@, exe_file(name@, windows), windows),
        r.args.len() == 0,
        r.workdir@ == dir@,
{
    Launcher {
        program: join(dir, exe_name(name, windows).as_str(), windows),
        args: Vec::new(),
        workdir: String::from_str(dir),
    }
}

/// The log file of one output stream of a service: `<logs>/<name>.<stream>.log`.
pub fn log_file(logs_dir: &str, name: &str, stream: &str, windows: bool) -> (r: String)
    ensures
        r@ == path_join(logs_dir@, name@ + "."@ + stream@ + ".log"@, windows),
{
    let mut file = String::from_str(name);
    file.append(".");
    file.append(stream);
    file.append(".log");
    join(logs_dir, file.as_str(), windows)
}

pub open spec fn flat_template_of(root: Seq<char>, windows: bool) -> Seq<char> {
    path_join(path_join(root, "data"@, windows), "runtime.env.example"@, windows)
}

pub open spec fn nested_template_of(root: Seq<char>, windows: bool) -> Seq<char> {
    path_join(
        path_join(
            path_join(path_join(root, "_up_"@, windows), "runtime"@, windows),
            "data"@,
            windows,
        ),
        "runtime.env.example"@,
        windows,
    )
}

/// The bundled template, the user's copy of it, and the two places the
/// template may be bundled, for the host to probe.
pub fn template_probes(runtime_root: &str, data_dir: &str, windows: bool) -> (r: Vec<String>)
    ensures
        r.deep_view() == seq![
            flat_template_of(runtime_root@, windows),
            nested_template_of(runtime_root@, windows),
            path_join(data_dir@, "runtime.env.example"@, windows),
        ],
{
    let flat = join(join(runtime_root, "data", windows).as_str(), "runtime.env.example", windows);
    let up = join(join(runtime_root, "_up_", windows).as_str(), "runtime", windows);
    let nested = join(join(up.as_str(), "data", windows).as_str(), "runtime.env.example", windows);
    let local = join(data_dir, "runtime.env.example", windows);
    let r = vec![flat, nested, local];
    assert(r.deep_view() =~= seq![
        flat_template_of(runtime_root@, windows),
        nested_template_of(runtime_root@, windows),
        path_join(data_dir@, "runtime.env.example"@, windows),
    ]);
    r
}

/// The one-time template copy, as (from, to): the flat bundled template if
/// present, else the nested one, copied only when it exists and the user has
/// no copy yet. An existing user copy is never overwritten.
pub fn template_copy(runtime_root: &str, data_dir: &str, windows: bool, fs: &PathSet) -> (r: Option<
    (String, String),
>)
    ensures
        ({
            let flat = flat_template_of(runtime_root@, windows);
            let bundled = if fs@.contains(flat) {
                flat
            } else {
                nested_template_of(runtime_root@, windows)
            };
            let local = path_join(data_dir@, "runtime.env.example"@, windows);
            match r {
                Some((from, to)) => fs@.contains(bundled) && !fs@.contains(local) && from@ == bundled
                    && to@ == local,
                None => !(fs@.contains(bundled) && !fs@.contains(local)),
            }
        }),
{
    let p = template_probes(runtime_root, data_dir, windows);
    assert(p.deep_view().len() == 3);
    assert(p@.len() == 3);
    assert(p.deep_view()[0] == p[0]@ && p.deep_view()[1] == p[1]@ && p.deep_view()[2] == p[2]@);
    let bundled = if fs.contains(&p[0]) {
        p[0].clone()
    } else {
        p[1].clone()
    };
    if fs.contains(&bundled) && !fs.contains(&p[2]) {
        Some((bundled, p[2].clone()))
    } else {
        None
    }
}

} // verus!
