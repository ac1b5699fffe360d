use ptnexus_runtime::compose::{
    apply_host_env_overrides, build_runtime_env, compose_runtime_env, host_override_keys,
    merge_env_file, parse_env_line, unquote_text,
};
use ptnexus_runtime::env::EnvMap;
use ptnexus_runtime::error::{BootstrapError, EnvLineError};
use ptnexus_runtime::text::trim_text;

fn s(x: &str) -> String {
    x.to_string()
}

fn get(m: &EnvMap, k: &str) -> Option<String> {
    m.get(&s(k)).cloned()
}

fn pairs(m: &EnvMap) -> Vec<(String, String)> {
    (0..m.len()).map(|i| (m.key_at(i).clone(), m.value_at(i).clone())).collect()
}

#[test]
fn env_map_insert_replaces() {
    let mut m = EnvMap::new();
    m.insert(s("A"), s("1"));
    m.insert(s("B"), s("2"));
    m.insert(s("A"), s("3"));
    assert_eq!(m.len(), 2);
    assert_eq!(get(&m, "A"), Some(s("3")));
    assert_eq!(get(&m, "B"), Some(s("2")));
    assert_eq!(get(&m, "C"), None);
    assert_eq!(m.key_at(0), "A");
}

#[test]
fn defaults_hold_ports_paths_and_urls() {
    let m = build_runtime_env("/data", "/rt/server", "/rt/CHANGELOG.json", false);
    assert_eq!(m.len(), 23);
    assert_eq!(get(&m, "SERVER_HOST"), Some(s("127.0.0.1")));
    assert_eq!(get(&m, "SERVER_PORT"), Some(s("5275")));
    assert_eq!(get(&m, "BATCH_PORT"), Some(s("5276")));
    assert_eq!(get(&m, "UPDATER_PORT"), Some(s("5274")));
    assert_eq!(get(&m, "GO_SERVICE_URL"), Some(s("http://127.0.0.1:5276")));
    assert_eq!(get(&m, "CORE_API_URL"), Some(s("http://127.0.0.1:5275")));
    assert_eq!(get(&m, "PTNEXUS_STATIC_DIR"), Some(s("/rt/server/dist")));
    assert_eq!(
        get(&m, "PTNEXUS_GLOBAL_MAPPINGS"),
        Some(s("/rt/server/configs/global_mappings.yaml"))
    );
    assert_eq!(get(&m, "PTNEXUS_BDINFO_PATH"), Some(s("/rt/server/bdinfo/BDInfo")));
    assert_eq!(get(&m, "TEMP_DIR"), Some(s("/data/tmp")));
    assert_eq!(get(&m, "REPO_DIR"), Some(s("/data/updates/repo")));
    assert_eq!(get(&m, "LOCAL_CONFIG_FILE"), Some(s("/rt/CHANGELOG.json")));
    let w = build_runtime_env("C:\\data", "C:\\rt\\server", "C:\\rt\\CHANGELOG.json", true);
    assert_eq!(get(&w, "PTNEXUS_BDINFO_PATH"), Some(s("C:\\rt\\server\\bdinfo\\BDInfo.exe")));
}

#[test]
fn host_overrides_skip_blank_and_unlisted() {
    let mut m = build_runtime_env("/data", "/srv", "/c.json", false);
    let mut amb = EnvMap::new();
    amb.insert(s("SERVER_PORT"), s("6000"));
    amb.insert(s("BATCH_PORT"), s("   "));
    amb.insert(s("DEV_ENV"), s("true"));
    amb.insert(s("MYSQL_HOST"), s("db.local"));
    apply_host_env_overrides(&mut m, &host_override_keys(), &amb);
    assert_eq!(get(&m, "SERVER_PORT"), Some(s("6000")));
    assert_eq!(get(&m, "BATCH_PORT"), Some(s("5276")));
    assert_eq!(get(&m, "DEV_ENV"), Some(s("false")));
    assert_eq!(get(&m, "MYSQL_HOST"), Some(s("db.local")));
    assert_eq!(get(&m, "UPDATER_PORT"), Some(s("5274")));
}

#[test]
fn override_file_plain_assignment() {
    let mut m = EnvMap::new();
    assert_eq!(merge_env_file(&mut m, "KEY=value\n"), Ok(()));
    assert_eq!(get(&m, "KEY"), Some(s("value")));
}

#[test]
fn override_file_quotes_stripped() {
    let mut m = EnvMap::new();
    assert_eq!(merge_env_file(&mut m, "KEY=\"value with space\"\nOTHER='x y'\nHALF=\"open\n"), Ok(()));
    assert_eq!(get(&m, "KEY"), Some(s("value with space")));
    assert_eq!(get(&m, "OTHER"), Some(s("x y")));
    assert_eq!(get(&m, "HALF"), Some(s("\"open")));
}

#[test]
fn override_file_blank_and_comment_ignored() {
    let mut m = EnvMap::new();
    assert_eq!(merge_env_file(&mut m, "\n   \n# comment\n  # KEY=1\r\nA = b \r\n"), Ok(()));
    assert_eq!(m.len(), 1);
    assert_eq!(get(&m, "A"), Some(s("b")));
}

#[test]
fn override_file_missing_equals_cites_line() {
    let mut m = EnvMap::new();
    assert_eq!(
        merge_env_file(&mut m, "A=1\n\nbadline\nB=2\n"),
        Err(BootstrapError::EnvFileMalformed { line: 3, problem: EnvLineError::MissingEquals })
    );
    assert_eq!(get(&m, "A"), Some(s("1")));
    assert_eq!(get(&m, "B"), None);
}

#[test]
fn override_file_empty_key_fails() {
    let mut m = EnvMap::new();
    assert_eq!(
        merge_env_file(&mut m, "=value"),
        Err(BootstrapError::EnvFileMalformed { line: 1, problem: EnvLineError::EmptyKey })
    );
}

#[test]
fn override_file_value_may_hold_equals() {
    let mut m = EnvMap::new();
    assert_eq!(merge_env_file(&mut m, "URL=http://h/?a=b\nURL=last"), Ok(()));
    assert_eq!(get(&m, "URL"), Some(s("last")));
    assert_eq!(
        parse_env_line("  K = a=b "),
        Some(Ok((s("K"), s("a=b"))))
    );
}

#[test]
fn text_helpers() {
    assert_eq!(trim_text(" \t a b \u{3000}\n"), "a b");
    assert_eq!(trim_text("   "), "");
    assert_eq!(unquote_text("\"\""), "");
    assert_eq!(unquote_text("\""), "\"");
    assert_eq!(unquote_text("'a\""), "'a\"");
}

#[test]
fn composition_layers_and_determinism() {
    let mut amb = EnvMap::new();
    amb.insert(s("SERVER_PORT"), s("6000"));
    amb.insert(s("BATCH_PORT"), s(""));
    let file = "SERVER_PORT=7000\nEXTRA=1\n";
    let a = compose_runtime_env("/d", "/s", "/c", false, &amb, Some(file)).unwrap();
    let b = compose_runtime_env("/d", "/s", "/c", false, &amb, Some(file)).unwrap();
    assert_eq!(pairs(&a), pairs(&b));
    assert_eq!(get(&a, "SERVER_PORT"), Some(s("7000")));
    assert_eq!(get(&a, "BATCH_PORT"), Some(s("5276")));
    assert_eq!(get(&a, "EXTRA"), Some(s("1")));
    let c = compose_runtime_env("/d", "/s", "/c", false, &amb, None).unwrap();
    assert_eq!(get(&c, "SERVER_PORT"), Some(s("6000")));
    assert!(compose_runtime_env("/d", "/s", "/c", false, &amb, Some("oops")).is_err());
}
