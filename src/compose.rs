use vstd::prelude::*;

use crate::env::EnvMap;
use crate::error::{BootstrapError, EnvLineError};
use crate::text::{
    find_char, find_char_from, is_blank, lemma_find_char_bounds, trim, trim_text,
};
use crate::paths::{exe_file, join, exe_name, path_join};

verus! {

/// Loopback host that every service binds.
pub open spec fn loopback() -> Seq<char> {
    "127.0.0.1"@
}

/// The computed defaults: fixed hosts and ports, paths below the data and
/// server directories, and the URLs that join the services.
pub open spec fn default_env(
    data_dir: Seq<char>,
    server_dir: Seq<char>,
    changelog: Seq<char>,
    windows: bool,
) -> Map<Seq<char>, Seq<char>> {
    let bdinfo = path_join(server_dir, "bdinfo"@, windows);
    let updates = path_join(data_dir, "updates"@, windows);
    Map::empty().insert("DEV_ENV"@, "false"@).insert("FLASK_DEBUG"@, "false"@).insert(
        "PYTHONUTF8"@,
        "1"@,
    ).insert("PYTHONPATH"@, server_dir).insert("SERVER_HOST"@, loopback()).insert(
        "SERVER_PORT"@,
        "5275"@,
    ).insert("UPDATER_PORT"@, "5274"@).insert("BATCH_PORT"@, "5276"@).insert(
        "BATCH_ENHANCER_PORT"@,
        "5276"@,
    ).insert("GO_SERVICE_URL"@, "http://127.0.0.1:5276"@).insert(
        "CORE_API_URL"@,
        "http://127.0.0.1:5275"@,
    ).insert("PTNEXUS_BASE_DIR"@, server_dir).insert("PTNEXUS_DATA_DIR"@, data_dir).insert(
        "PTNEXUS_STATIC_DIR"@,
        path_join(server_dir, "dist"@, windows),
    ).insert(
        "PTNEXUS_GLOBAL_MAPPINGS"@,
        path_join(path_join(server_dir, "configs"@, windows), "global_mappings.yaml"@, windows),
    ).insert("PTNEXUS_SITES_DATA_FILE"@, path_join(server_dir, "sites_data.json"@, windows)).insert(
        "PTNEXUS_BDINFO_DIR"@,
        bdinfo,
    ).insert("PTNEXUS_BDINFO_PATH"@, path_join(bdinfo, exe_file("BDInfo"@, windows), windows)).insert(
        "TEMP_DIR"@,
        path_join(data_dir, "tmp"@, windows),
    ).insert("CONFIG_FILE"@, path_join(data_dir, "config.json"@, windows)).insert(
        "UPDATE_DIR"@,
        updates,
    ).insert("REPO_DIR"@, path_join(updates, "repo"@, windows)).insert(
        "LOCAL_CONFIG_FILE"@,
        changelog,
    )
}

fn put(env: &mut EnvMap, key: &str, value: &str)
    requires
        old(env).wf(),
    ensures
        final(env).wf(),
        final(env)@ == old(env)@.insert(key@, value@),
{
    env.insert(String::from_str(key), String::from_str(value));
}

/// The default environment shared by all services.
pub fn build_runtime_env(data_dir: &str, server_dir: &str, changelog_path: &str, windows: bool) -> (r:
    EnvMap)
    ensures
        r.wf(),
        r@ == default_env(data_dir@, server_dir@, changelog_path@, windows),
{
    let mut env = EnvMap::new();
    let bdinfo = join(server_dir, "bdinfo", windows);
    let updates = join(data_dir, "updates", windows);
    put(&mut env, "DEV_ENV", "false");
    put(&mut env, "FLASK_DEBUG", "false");
    put(&mut env, "PYTHONUTF8", "1");
    put(&mut env, "PYTHONPATH", server_dir);
    put(&mut env, "SERVER_HOST", "127.0.0.1");
    put(&mut env, "SERVER_PORT", "5275");
    put(&mut env, "UPDATER_PORT", "5274");
    put(&mut env, "BATCH_PORT", "5276");
    put(&mut env, "BATCH_ENHANCER_PORT", "5276");
    put(&mut env, "GO_SERVICE_URL", "http://127.0.0.1:5276");
    put(&mut env, "CORE_API_URL", "http://127.0.0.1:5275");
    put(&mut env, "PTNEXUS_BASE_DIR", server_dir);
    put(&mut env, "PTNEXUS_DATA_DIR", data_dir);
    put(&mut env, "PTNEXUS_STATIC_DIR", join(server_dir, "dist", windows).as_str());
    put(
        &mut env,
        "PTNEXUS_GLOBAL_MAPPINGS",
        join(join(server_dir, "configs", windows).as_str(), "global_mappings.yaml", windows).as_str(),
    );
    put(&mut env, "PTNEXUS_SITES_DATA_FILE", join(server_dir, "sites_data.json", windows).as_str());
    put(&mut env, "PTNEXUS_BDINFO_DIR", bdinfo.as_str());
    put(
        &mut env,
        "PTNEXUS_BDINFO_PATH",
        join(bdinfo.as_str(), exe_name("BDInfo", windows).as_str(), windows).as_str(),
    );
    put(&mut env, "TEMP_DIR", join(data_dir, "tmp", windows).as_str());
    put(&mut env, "CONFIG_FILE", join(data_dir, "config.json", windows).as_str());
    put(&mut env, "UPDATE_DIR", updates.as_str());
    put(&mut env, "REPO_DIR", join(updates.as_str(), "repo", windows).as_str());
    put(&mut env, "LOCAL_CONFIG_FILE", changelog_path);
    env
}

/// Names that the host environment may override.
pub open spec fn host_override_names() -> Seq<Seq<char>> {
    seq![
        "DB_TYPE"@,
        "MYSQL_HOST"@,
        "MYSQL_PORT"@,
        "MYSQL_USER"@,
        "MYSQL_PASSWORD"@,
        "MYSQL_DATABASE"@,
        "POSTGRES_HOST"@,
        "POSTGRES_PORT"@,
        "POSTGRES_USER"@,
        "POSTGRES_PASSWORD"@,
        "POSTGRES_DATABASE"@,
        "SERVER_HOST"@,
        "SERVER_PORT"@,
        "BATCH_PORT"@,
        "UPDATER_PORT"@,
        "GO_SERVICE_URL"@,
        "CORE_API_URL"@,
    ]
}

/// The names that the host environment may override.
pub fn host_override_keys() -> (r: Vec<String>)
    ensures
        r.deep_view() == host_override_names(),
{
    let r = vec![
        String::from_str("DB_TYPE"),
        String::from_str("MYSQL_HOST"),
        String::from_str("MYSQL_PORT"),
        String::from_str("MYSQL_USER"),
        String::from_str("MYSQL_PASSWORD"),
        String::from_str("MYSQL_DATABASE"),
        String::from_str("POSTGRES_HOST"),
        String::from_str("POSTGRES_PORT"),
        String::from_str("POSTGRES_USER"),
        String::from_str("POSTGRES_PASSWORD"),
        String::from_str("POSTGRES_DATABASE"),
        String::from_str("SERVER_HOST"),
        String::from_str("SERVER_PORT"),
        String::from_str("BATCH_PORT"),
        String::from_str("UPDATER_PORT"),
        String::from_str("GO_SERVICE_URL"),
        String::from_str("CORE_API_URL"),
    ];
    assert(r.deep_view() =~= host_override_names());
    r
}

/// `m` after each name of `keys`, in order, took the ambient value where that
/// value is set and not blank.
pub open spec fn with_host_overrides(
    m: Map<Seq<char>, Seq<char>>,
    keys: Seq<Seq<char>>,
    ambient: Map<Seq<char>, Seq<char>>,
) -> Map<Seq<char>, Seq<char>>
    decreases keys.len(),
{
    if keys.len() == 0 {
        m
    } else {
        let before = with_host_overrides(m, keys.drop_last(), ambient);
        let k = keys.last();
        if ambient.contains_key(k) && !is_blank(ambient[k]) {
            before.insert(k, ambient[k])
        } else {
            before
        }
    }
}

/// Copies into `envs` each of `keys` that `ambient` sets to a non-blank value.
pub fn apply_host_env_overrides(envs: &mut EnvMap, keys: &Vec<String>, ambient: &EnvMap)
    requires
        old(envs).wf(),
        ambient.wf(),
    ensures
        final(envs).wf(),
        final(envs)@ == with_host_overrides(old(envs)@, keys.deep_view(), ambient@),
{
    let ghost ks = keys.deep_view();
    let mut i: usize = 0;
    while i < keys.len()
        invariant
            i <= keys.len(),
            ks == keys.deep_view(),
            envs.wf(),
            ambient.wf(),
            envs@ == with_host_overrides(old(envs)@, ks.take(i as int), ambient@),
        decreases keys.len() - i,
    {
        assert(ks.take(i as int + 1).drop_last() =~= ks.take(i as int));
        assert(ks.take(i as int + 1).last() == keys[i as int]@);
        match ambient.get(&keys[i]) {
            Some(v) => {
                let t = trim_text(v.as_str());
                if t.as_str().unicode_len() != 0 {
                    envs.insert(keys[i].clone(), v.clone());
                }
            },
            None => {},
        }
        i = i + 1;
    }
    assert(ks.take(keys.len() as int) =~= ks);
}

/// `v` without one pair of matching single or double quotes around it.
pub open spec fn unquote(v: Seq<char>) -> Seq<char> {
    if v.len() >= 2 && ((v[0] == '"' && v.last() == '"') || (v[0] == '\'' && v.last() == '\'')) {
        v.subrange(1, v.len() - 1)
    } else {
        v
    }
}

/// How one line of the override file reads: `None` for a blank line or a
/// comment, else an assignment or the reason it is malformed.
pub open spec fn parse_line(raw: Seq<char>) -> Option<Result<(Seq<char>, Seq<char>), EnvLineError>> {
    let t = trim(raw);
    if t.len() == 0 || t[0] == '#' {
        None
    } else {
        let p = find_char(t, '=', 0);
        if p >= t.len() {
            Some(Err(EnvLineError::MissingEquals))
        } else {
            let key = trim(t.subrange(0, p));
            if key.len() == 0 {
                Some(Err(EnvLineError::EmptyKey))
            } else {
                Some(Ok((key, unquote(trim(t.subrange(p + 1, t.len() as int))))))
            }
        }
    }
}

/// The lines of `s` that start at or after `i`, split at `\n` (a carriage
/// return before it stays and is trimmed away with the other whitespace).
pub open spec fn lines_from(s: Seq<char>, i: int) -> Seq<Seq<char>>
    decreases s.len() + 1 - i,
    via lines_from_decreases
{
    if i < 0 || i >= s.len() {
        seq![]
    } else {
        let e = find_char(s, '\n', i);
        seq![s.subrange(i, e)] + lines_from(s, e + 1)
    }
}

#[via_fn]
proof fn lines_from_decreases(s: Seq<char>, i: int) {
    if 0 <= i < s.len() {
        lemma_find_char_bounds(s, '\n', i);
    }
}

pub open spec fn lines(s: Seq<char>) -> Seq<Seq<char>> {
    lines_from(s, 0)
}

/// `m` after the lines of `ls` from `k` on, stopping at the first malformed
/// one, whose 1-based number and fault come second.
pub open spec fn merge_lines(m: Map<Seq<char>, Seq<char>>, ls: Seq<Seq<char>>, k: int) -> (Map<
    Seq<char>,
    Seq<char>,
>, Option<(int, EnvLineError)>)
    decreases ls.len() - k,
{
    if k < 0 || k >= ls.len() {
        (m, None)
    } else {
        match parse_line(ls[k]) {
            None => merge_lines(m, ls, k + 1),
            Some(Ok((key, value))) => merge_lines(m.insert(key, value), ls, k + 1),
            Some(Err(e)) => (m, Some((k + 1, e))),
        }
    }
}

/// `v` without a pair of matching quotes around it.
pub fn unquote_text(v: &str) -> (r: String)
    ensures
        r@ == unquote(v@),
{
    let n = v.unicode_len();
    if n >= 2 {
        let a = v.get_char(0);
        let b = v.get_char(n - 1);
        if (a == '"' && b == '"') || (a == '\'' && b == '\'') {
            return String::from_str(v.substring_char(1, n - 1));
        }
    }
    String::from_str(v)
}

/// Reads one line of the override file (see `parse_line`).
pub fn parse_env_line(raw: &str) -> (r: Option<Result<(String, String), EnvLineError>>)
    ensures
        match r {
            None => parse_line(raw@) is None,
            Some(Ok((k, v))) => parse_line(raw@) == Some(
                Ok::<(Seq<char>, Seq<char>), EnvLineError>((k@, v@)),
            ),
            Some(Err(e)) => parse_line(raw@) == Some(Err::<(Seq<char>, Seq<char>), EnvLineError>(e)),
        },
{
    let t = trim_text(raw);
    let n = t.as_str().unicode_len();
    if n == 0 || t.as_str().get_char(0) == '#' {
        return None;
    }
    let p = find_char_from(t.as_str(), '=', 0);
    if p == n {
        return Some(Err(EnvLineError::MissingEquals));
    }
    let key = trim_text(t.as_str().substring_char(0, p));
    if key.as_str().unicode_len() == 0 {
        return Some(Err(EnvLineError::EmptyKey));
    }
    let value = unquote_text(trim_text(t.as_str().substring_char(p + 1, n)).as_str());
    Some(Ok((key, value)))
}

/// Merges the text of the user override file into `envs`, line by line. A
/// malformed line stops the merge with its 1-based number; the lines before
/// it have been applied.
pub fn merge_env_file(envs: &mut EnvMap, content: &str) -> (r: Result<(), BootstrapError>)
    requires
        old(envs).wf(),
    ensures
        final(envs).wf(),
        ({
            let (m, fault) = merge_lines(old(envs)@, lines(content@), 0);
            &&& final(envs)@ == m
            &&& match fault {
                None => r is Ok,
                Some((line, problem)) => match r {
                    Err(BootstrapError::EnvFileMalformed { line: l, problem: p }) => l == line
                        && p == problem,
                    _ => false,
                },
            }
        }),
{
    let ghost s = content@;
    let ghost ls = lines(s);
    let n = content.unicode_len();
    let mut pos: usize = 0;
    let mut k: usize = 0;
    while pos < n
        invariant
            n == s.len(),
            s == content@,
            ls == lines(s),
            pos <= n,
            k <= pos,
            k <= ls.len(),
            envs.wf(),
            ls.subrange(k as int, ls.len() as int) == lines_from(s, pos as int),
            merge_lines(old(envs)@, ls, 0) == merge_lines(envs@, ls, k as int),
        decreases n - pos,
    {
        let e = find_char_from(content, '\n', pos);
        let line = content.substring_char(pos, e);
        proof {
            let rest = ls.subrange(k as int, ls.len() as int);
            assert(rest == seq![s.subrange(pos as int, e as int)] + lines_from(s, e + 1));
            assert(rest[0] == ls[k as int]);
            assert(ls.subrange(k + 1, ls.len() as int) =~= rest.drop_first());
            assert(rest.drop_first() =~= lines_from(s, e + 1));
        }
        match parse_env_line(line) {
            None => {},
            Some(Ok((key, value))) => {
                envs.insert(key, value);
            },
            Some(Err(problem)) => {
                return Err(BootstrapError::EnvFileMalformed { line: k + 1, problem });
            },
        }
        k = k + 1;
        if e < n {
            pos = e + 1;
        } else {
            pos = n;
        }
    }
    proof {
        assert(lines_from(s, pos as int) =~= seq![]);
        assert(ls.subrange(k as int, ls.len() as int).len() == 0);
    }
    Ok(())
}

/// The full environment: defaults, then the host overrides among
/// `host_override_names`, then the user override file (if there is one).
pub open spec fn composed_env(
    data_dir: Seq<char>,
    server_dir: Seq<char>,
    changelog: Seq<char>,
    windows: bool,
    ambient: Map<Seq<char>, Seq<char>>,
    file: Option<Seq<char>>,
) -> (Map<Seq<char>, Seq<char>>, Option<(int, EnvLineError)>) {
    let layered = with_host_overrides(
        default_env(data_dir, server_dir, changelog, windows),
        host_override_names(),
        ambient,
    );
    match file {
        Some(text) => merge_lines(layered, lines(text), 0),
        None => (layered, None),
    }
}

/// Builds the environment shared by all services from the three layers. The
/// result depends on the inputs alone.
pub fn compose_runtime_env(
    data_dir: &str,
    server_dir: &str,
    changelog_path: &str,
    windows: bool,
    ambient: &EnvMap,
    file: Option<&str>,
) -> (r: Result<EnvMap, BootstrapError>)
    requires
        ambient.wf(),
    ensures
        ({
            let (m, fault) = composed_env(
                data_dir@,
                server_dir@,
                changelog_path@,
                windows,
                ambient@,
                match file {
                    Some(t) => Some(t@),
                    None => None,
                },
            );
            match fault {
                None => r matches Ok(env) && env.wf() && env@ == m,
                Some((line, problem)) => match r {
                    Err(BootstrapError::EnvFileMalformed { line: l, problem: p }) => l == line
                        && p == problem,
                    _ => false,
                },
            }
        }),
{
    let mut env = build_runtime_env(data_dir, server_dir, changelog_path, windows);
    let keys = host_override_keys();
    apply_host_env_overrides(&mut env, &keys, ambient);
    match file {
        Some(text) => match merge_env_file(&mut env, text) {
            Ok(()) => Ok(env),
            Err(e) => Err(e),
        },
        None => Ok(env),
    }
}

} // verus!
