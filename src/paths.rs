use vstd::prelude::*;


verus! {

/// The separator written between two path components.
pub open spec fn sep_char(windows: bool) -> char {
    if windows {
        '\\'
    } else {
        '/'
    }
}

pub open spec fn is_sep(c: char, windows: bool) -> bool {
    c == '/' || (windows && c == '\\')
}

/// `base` joined with the relative component `part`, as `Path::join` does it:
/// no separator is added after an empty base or one that already ends in one.
pub open spec fn path_join(base: Seq<char>, part: Seq<char>, windows: bool) -> Seq<char> {
    if base.len() == 0 || is_sep(base.last(), windows) {
        base + part
    } else {
        base + seq![sep_char(windows)] + part
    }
}

/// The file name of an executable called `name` on the platform.
pub open spec fn exe_file(name: Seq<char>, windows: bool) -> Seq<char> {
    if windows {
        name + ".exe"@
    } else {
        name
    }
}

/// `out` with one more path component: empty components (from repeated or
/// trailing separators) and `.` components add nothing.
pub open spec fn push_component(out: Seq<char>, comp: Seq<char>) -> Seq<char> {
    if comp.len() == 0 || comp == seq!['.'] {
        out
    } else if out.len() == 0 {
        comp
    } else {
        out + seq!['/'] + comp
    }
}

/// The components of `s` from index `i` on, the current one starting at
/// `start`, appended to `out`.
pub open spec fn key_from(s: Seq<char>, windows: bool, i: int, start: int, out: Seq<char>) -> Seq<
    char,
>
    decreases s.len() - i,
{
    if i < 0 || i >= s.len() {
        push_component(out, s.subrange(start, s.len() as int))
    } else if is_sep(s[i], windows) {
        key_from(s, windows, i + 1, i + 1, push_component(out, s.subrange(start, i)))
    } else {
        key_from(s, windows, i + 1, start, out)
    }
}

/// The normalized form under which two paths count as the same: components
/// joined by `/`, without `.` components, repeated separators or a trailing
/// separator, and with a leading `/` for a path that starts at the root.
pub open spec fn path_key(p: Seq<char>, windows: bool) -> Seq<char> {
    let body = key_from(p, windows, 0, 0, seq![]);
    if p.len() > 0 && is_sep(p[0], windows) {
        seq!['/'] + body
    } else {
        body
    }
}

/// The normalized forms of the paths in `s`, in order.
pub open spec fn path_keys(s: Seq<Seq<char>>, windows: bool) -> Seq<Seq<char>> {
    s.map_values(|q: Seq<char>| path_key(q, windows))
}

/// Keeps the first path of each normalized form, in the order first seen.
pub open spec fn dedup(s: Seq<Seq<char>>, windows: bool) -> Seq<Seq<char>>
    decreases s.len(),
{
    if s.len() == 0 {
        seq![]
    } else {
        let p = dedup(s.drop_last(), windows);
        if path_keys(s.drop_last(), windows).contains(path_key(s.last(), windows)) {
            p
        } else {
            p.push(s.last())
        }
    }
}

/// The four places below `base` where a runtime may live: flat layouts first,
/// then the older nested `runtime/` layouts.
pub open spec fn layout_candidates(base: Seq<char>, windows: bool) -> Seq<Seq<char>> {
    seq![
        base,
        path_join(base, "_up_"@, windows),
        path_join(base, "runtime"@, windows),
        path_join(path_join(base, "_up_"@, windows), "runtime"@, windows),
    ]
}

/// Directories known to the host from which runtime candidates are derived.
/// A parent is given only where the directory it belongs to has one.
pub struct InstallDirs {
    /// Directory of the running executable.
    pub exe_dir: Option<String>,
    pub exe_parent: Option<String>,
    /// Executable directory as the shell reports it.
    pub app_exe_dir: Option<String>,
    pub app_exe_parent: Option<String>,
    /// `runtime` resolved against the resource directory.
    pub resource_runtime: Option<String>,
    pub resource_runtime_parent: Option<String>,
    /// `_up_/runtime` resolved against the resource directory.
    pub resource_up_runtime: Option<String>,
    pub resource_up_runtime_parent: Option<String>,
}

pub open spec fn opt_layout(o: Option<String>, windows: bool) -> Seq<Seq<char>> {
    match o {
        Some(b) => layout_candidates(b@, windows),
        None => seq![],
    }
}

pub open spec fn opt_one(o: Option<String>) -> Seq<Seq<char>> {
    match o {
        Some(b) => seq![b@],
        None => seq![],
    }
}

/// Every runtime candidate in priority order, before duplicates are removed.
pub open spec fn raw_runtime_candidates(d: InstallDirs, windows: bool) -> Seq<Seq<char>> {
    opt_layout(d.exe_dir, windows) + opt_layout(d.exe_parent, windows) + opt_layout(
        d.app_exe_dir,
        windows,
    ) + opt_layout(d.app_exe_parent, windows) + opt_one(d.resource_runtime) + opt_layout(
        d.resource_runtime_parent,
        windows,
    ) + opt_one(d.resource_up_runtime) + opt_layout(d.resource_up_runtime_parent, windows)
}

/// The paths known to exist: a snapshot of the file system taken by the host.
pub struct PathSet {
    pub paths: Vec<String>,
}

impl View for PathSet {
    type V = Set<Seq<char>>;

    open spec fn view(&self) -> Set<Seq<char>> {
        self.paths.deep_view().to_set()
    }
}

impl PathSet {
    pub fn new() -> (r: PathSet)
        ensures
            r@ == Set::<Seq<char>>::empty(),
    {
        let r = PathSet { paths: Vec::new() };
        assert(r@ =~= Set::<Seq<char>>::empty());
        r
    }

    /// Records that `p` exists.
    pub fn insert(&mut self, p: String)
        ensures
            final(self)@ == old(self)@.insert(p@),
    {
        self.paths.push(p);
        let ghost a = old(self).paths.deep_view();
        let ghost b = final(self).paths.deep_view();
        assert(b =~= a.push(p@));
        assert forall|x: Seq<char>| b.to_set().contains(x) == a.to_set().insert(p@).contains(x) by {
            if a.contains(x) {
                let i = choose|i: int| 0 <= i < a.len() && a[i] == x;
                assert(b[i] == x);
            }
            if b.contains(x) && x != p@ {
                let i = choose|i: int| 0 <= i < b.len() && b[i] == x;
                assert(a[i] == x);
            }
            assert(b[a.len() as int] == p@);
        }
        assert(final(self)@ =~= old(self)@.insert(p@));
    }

    /// Whether `p` is recorded as existing.
    pub fn contains(&self, p: &String) -> (r: bool)
        ensures
            r == self@.contains(p@),
    {
        contains_path(&self.paths, p)
    }
}

/// The three files whose presence marks a runtime root.
pub open spec fn runtime_root_markers_of(root: Seq<char>, windows: bool) -> Seq<Seq<char>> {
    seq![
        path_join(path_join(root, "updater"@, windows), exe_file("updater"@, windows), windows),
        path_join(path_join(root, "batch"@, windows), exe_file("batch"@, windows), windows),
        path_join(
            path_join(path_join(root, "server"@, windows), "dist"@, windows),
            "index.html"@,
            windows,
        ),
    ]
}

pub open spec fn runtime_root_ok(root: Seq<char>, windows: bool, fs: Set<Seq<char>>) -> bool {
    let m = runtime_root_markers_of(root, windows);
    fs.contains(m[0]) && fs.contains(m[1]) && fs.contains(m[2])
}

/// Index of the first runtime root in `s` at or after `i`, or the length of `s`.
pub open spec fn first_root(s: Seq<Seq<char>>, windows: bool, fs: Set<Seq<char>>, i: int) -> int
    decreases s.len() - i,
{
    if i < 0 || i >= s.len() {
        s.len() as int
    } else if runtime_root_ok(s[i], windows, fs) {
        i
    } else {
        first_root(s, windows, fs, i + 1)
    }
}

/// Index of the first path in `s` at or after `i` that exists, or the length of `s`.
pub open spec fn first_existing(s: Seq<Seq<char>>, fs: Set<Seq<char>>, i: int) -> int
    decreases s.len() - i,
{
    if i < 0 || i >= s.len() {
        s.len() as int
    } else if fs.contains(s[i]) {
        i
    } else {
        first_existing(s, fs, i + 1)
    }
}

proof fn lemma_push_contains(a: Seq<Seq<char>>, y: Seq<char>, x: Seq<char>)
    ensures
        a.push(y).contains(x) == (a.contains(x) || x == y),
{
    if a.contains(x) {
        let i = choose|i: int| 0 <= i < a.len() && a[i] == x;
        assert(a.push(y)[i] == x);
    }
    if a.push(y).contains(x) && x != y {
        let i = choose|i: int| 0 <= i < a.len() + 1 && a.push(y)[i] == x;
        if i < a.len() {
            assert(a[i] == x);
        }
    }
    assert(a.push(y)[a.len() as int] == y);
}

/// Deduplication keeps every normalized form that occurs.
pub proof fn lemma_dedup_keys(s: Seq<Seq<char>>, windows: bool, x: Seq<char>)
    ensures
        path_keys(dedup(s, windows), windows).contains(x) == path_keys(s, windows).contains(x),
    decreases s.len(),
{
    if s.len() > 0 {
        let p = s.drop_last();
        let y = path_key(s.last(), windows);
        lemma_dedup_keys(p, windows, x);
        assert(s =~= p.push(s.last()));
        assert(path_keys(s, windows) =~= path_keys(p, windows).push(y));
        lemma_push_contains(path_keys(p, windows), y, x);
        if !path_keys(p, windows).contains(y) {
            let q = dedup(p, windows);
            assert(path_keys(q.push(s.last()), windows) =~= path_keys(q, windows).push(y));
            lemma_push_contains(path_keys(q, windows), y, x);
        }
    }
}

/// The head of a non-empty list survives deduplication.
pub proof fn lemma_dedup_head(s: Seq<Seq<char>>, windows: bool)
    requires
        s.len() > 0,
    ensures
        dedup(s, windows).len() > 0,
        dedup(s, windows)[0] == s[0],
    decreases s.len(),
{
    if s.len() > 1 {
        let p = s.drop_last();
        lemma_dedup_head(p, windows);
    } else {
        assert(s.drop_last().len() == 0);
        assert(dedup(s.drop_last(), windows) =~= seq![]);
        assert(path_keys(s.drop_last(), windows) =~= seq![]);
    }
}

/// `base` joined with `part` (see `path_join`).
pub fn join(base: &str, part: &str, windows: bool) -> (r: String)
    ensures
        r@ == path_join(base@, part@, windows),
{
    proof {
        reveal_strlit("/");
        reveal_strlit("\\");
    }
    let mut r = String::from_str(base);
    let n = base.unicode_len();
    let need_sep = if n == 0 {
        false
    } else {
        let c = base.get_char(n - 1);
        !char_is_sep(c, windows)
    };
    if need_sep {
        if windows {
            r.append("\\");
        } else {
            r.append("/");
        }
    }
    r.append(part);
    r
}

/// The executable file name for `name`: with `.exe` on Windows, bare elsewhere.
pub fn exe_name(name: &str, windows: bool) -> (r: String)
    ensures
        r@ == exe_file(name@, windows),
{
    let mut r = String::from_str(name);
    if windows {
        r.append(".exe");
    }
    r
}

/// Whether `v` holds a path equal to `p`.
pub fn contains_path(v: &Vec<String>, p: &String) -> (r: bool)
    ensures
        r == v.deep_view().contains(p@),
{
    let mut i: usize = 0;
    while i < v.len()
        invariant
            i <= v.len(),
            forall|j: int| 0 <= j < i ==> v.deep_view()[j] != p@,
        decreases v.len() - i,
    {
        if v[i] == *p {
            assert(v.deep_view()[i as int] == p@);
            return true;
        }
        i = i + 1;
    }
    proof {
        if v.deep_view().contains(p@) {
            let j = choose|j: int| 0 <= j < v.deep_view().len() && v.deep_view()[j] == p@;
            assert(v.deep_view()[j] != p@);
        }
    }
    false
}

/// `out` with the component `comp` added (see `push_component`).
fn push_component_text(out: String, comp: &str) -> (r: String)
    ensures
        r@ == push_component(out@, comp@),
{
    proof {
        reveal_strlit("/");
        assert("/"@ =~= seq!['/']);
    }
    let n = comp.unicode_len();
    if n == 0 {
        return out;
    }
    if n == 1 && comp.get_char(0) == '.' {
        assert(comp@ =~= seq!['.']);
        return out;
    }
    assert(comp@ != seq!['.']);
    if out.as_str().unicode_len() == 0 {
        return String::from_str(comp);
    }
    let mut o = out;
    o.append("/");
    o.append(comp);
    o
}

/// Whether `c` separates path components on the platform.
pub fn char_is_sep(c: char, windows: bool) -> (r: bool)
    ensures
        r == is_sep(c, windows),
{
    c == '/' || (windows && c == '\\')
}

/// The normalized form of `p` (see `path_key`).
pub fn normalized_path(p: &str, windows: bool) -> (r: String)
    ensures
        r@ == path_key(p@, windows),
{
    let n = p.unicode_len();
    let mut out = String::new();
    let mut start: usize = 0;
    let mut i: usize = 0;
    while i < n
        invariant
            n == p@.len(),
            start <= i <= n,
            key_from(p@, windows, 0, 0, seq![]) == key_from(p@, windows, i as int, start as int, out@),
        decreases n - i,
    {
        if char_is_sep(p.get_char(i), windows) {
            out = push_component_text(out, p.substring_char(start, i));
            start = i + 1;
        }
        i = i + 1;
    }
    let body = push_component_text(out, p.substring_char(start, n));
    let rooted = n > 0 && char_is_sep(p.get_char(0), windows);
    if rooted {
        proof {
            reveal_strlit("/");
        }
        let mut r = String::from_str("/");
        r.append(body.as_str());
        r
    } else {
        body
    }
}

/// Removes paths whose normalized form was seen before, keeping the first
/// path of each form in its place.
pub fn dedup_paths(paths: Vec<String>, windows: bool) -> (r: Vec<String>)
    ensures
        r.deep_view() == dedup(paths.deep_view(), windows),
{
    let ghost all = paths.deep_view();
    let mut out: Vec<String> = Vec::new();
    let mut seen: Vec<String> = Vec::new();
    let mut i: usize = 0;
    while i < paths.len()
        invariant
            i <= paths.len(),
            all == paths.deep_view(),
            out.deep_view() == dedup(all.take(i as int), windows),
            seen.deep_view() == path_keys(out.deep_view(), windows),
        decreases paths.len() - i,
    {
        let p = paths[i].clone();
        let key = normalized_path(p.as_str(), windows);
        let ghost pre = all.take(i as int);
        let ghost next = all.take(i as int + 1);
        assert(next.drop_last() =~= pre);
        assert(next.last() == p@);
        proof {
            lemma_dedup_keys(pre, windows, key@);
        }
        if !contains_path(&seen, &key) {
            let ghost before = out.deep_view();
            let ghost seen_before = seen.deep_view();
            out.push(p);
            seen.push(key);
            assert(out.deep_view() =~= before.push(p@));
            assert(out.deep_view() =~= dedup(pre, windows).push(p@));
            assert(seen.deep_view() =~= seen_before.push(key@));
            assert(path_keys(out.deep_view(), windows) =~= path_keys(before, windows).push(key@));
        }
        i = i + 1;
    }
    assert(all.take(paths.len() as int) =~= all);
    out
}

/// Appends the four layout candidates below `base` to `candidates`.
pub fn push_layout_candidates(candidates: &mut Vec<String>, base: &str, windows: bool)
    ensures
        final(candidates).deep_view() == old(candidates).deep_view() + layout_candidates(
            base@,
            windows,
        ),
{
    let up = join(base, "_up_", windows);
    let nested = join(base, "runtime", windows);
    let up_nested = join(up.as_str(), "runtime", windows);
    candidates.push(String::from_str(base));
    candidates.push(up);
    candidates.push(nested);
    candidates.push(up_nested);
    assert(final(candidates).deep_view() =~= old(candidates).deep_view() + layout_candidates(
        base@,
        windows,
    ));
}

fn push_opt_layout(candidates: &mut Vec<String>, base: &Option<String>, windows: bool)
    ensures
        final(candidates).deep_view() == old(candidates).deep_view() + opt_layout(*base, windows),
{
    match base {
        Some(b) => push_layout_candidates(candidates, b.as_str(), windows),
        None => {
            assert(final(candidates).deep_view() =~= old(candidates).deep_view() + opt_layout(
                *base,
                windows,
            ));
        },
    }
}

fn push_opt_one(candidates: &mut Vec<String>, p: &Option<String>)
    ensures
        final(candidates).deep_view() == old(candidates).deep_view() + opt_one(*p),
{
    match p {
        Some(b) => {
            candidates.push(b.clone());
        },
        None => {},
    }
    assert(final(candidates).deep_view() =~= old(candidates).deep_view() + opt_one(*p));
}

/// All runtime root candidates in priority order, without repeats.
pub fn candidate_runtime_roots(dirs: &InstallDirs, windows: bool) -> (r: Vec<String>)
    ensures
        r.deep_view() == dedup(raw_runtime_candidates(*dirs, windows), windows),
{
    let mut c: Vec<String> = Vec::new();
    push_opt_layout(&mut c, &dirs.exe_dir, windows);
    push_opt_layout(&mut c, &dirs.exe_parent, windows);
    push_opt_layout(&mut c, &dirs.app_exe_dir, windows);
    push_opt_layout(&mut c, &dirs.app_exe_parent, windows);
    push_opt_one(&mut c, &dirs.resource_runtime);
    push_opt_layout(&mut c, &dirs.resource_runtime_parent, windows);
    push_opt_one(&mut c, &dirs.resource_up_runtime);
    push_opt_layout(&mut c, &dirs.resource_up_runtime_parent, windows);
    assert(c.deep_view() =~= raw_runtime_candidates(*dirs, windows));
    dedup_paths(c, windows)
}

} // verus!
