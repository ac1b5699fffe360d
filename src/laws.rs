use vstd::prelude::*;

use crate::compose::{merge_lines, parse_line, with_host_overrides};
use crate::paths::{first_root, runtime_root_ok};
use crate::probe::{readiness_of, ProcessState, Readiness};
use crate::text::is_blank;

verus! {

/// Layout resolution picks the first candidate that satisfies the
/// three-file predicate; when none does, it has rejected every candidate.
pub proof fn lemma_first_root_is_first(c: Seq<Seq<char>>, windows: bool, fs: Set<Seq<char>>)
    ensures
        ({
            let k = first_root(c, windows, fs, 0);
            &&& 0 <= k <= c.len()
            &&& k < c.len() ==> runtime_root_ok(c[k], windows, fs)
            &&& forall|j: int| 0 <= j < k ==> !runtime_root_ok(#[trigger] c[j], windows, fs)
        }),
{
    lemma_first_root_from(c, windows, fs, 0);
}

proof fn lemma_first_root_from(c: Seq<Seq<char>>, windows: bool, fs: Set<Seq<char>>, i: int)
    requires
        0 <= i <= c.len(),
    ensures
        ({
            let k = first_root(c, windows, fs, i);
            &&& i <= k <= c.len()
            &&& k < c.len() ==> runtime_root_ok(c[k], windows, fs)
            &&& forall|j: int| i <= j < k ==> !runtime_root_ok(#[trigger] c[j], windows, fs)
        }),
    decreases c.len() - i,
{
    if i < c.len() && !runtime_root_ok(c[i], windows, fs) {
        lemma_first_root_from(c, windows, fs, i + 1);
    }
}

/// A host value overrides a default exactly when its name is on the list
/// and the value is set and not blank; otherwise the earlier value stays.
pub proof fn lemma_host_override_precedence(
    m: Map<Seq<char>, Seq<char>>,
    keys: Seq<Seq<char>>,
    ambient: Map<Seq<char>, Seq<char>>,
    k: Seq<char>,
)
    ensures
        ({
            let r = with_host_overrides(m, keys, ambient);
            if keys.contains(k) && ambient.contains_key(k) && !is_blank(ambient[k]) {
                r.contains_key(k) && r[k] == ambient[k]
            } else {
                r.contains_key(k) == m.contains_key(k) && (m.contains_key(k) ==> r[k] == m[k])
            }
        }),
    decreases keys.len(),
{
    if keys.len() > 0 {
        let p = keys.drop_last();
        lemma_host_override_precedence(m, p, ambient, k);
        assert(keys =~= p.push(keys.last()));
        if keys.contains(k) && !p.contains(k) {
            let i = choose|i: int| 0 <= i < keys.len() && keys[i] == k;
            if i < p.len() {
                assert(p[i] == k);
            }
        }
        if p.contains(k) {
            let i = choose|i: int| 0 <= i < p.len() && p[i] == k;
            assert(keys[i] == k);
        }
    }
}

/// The line assigns `key`, with the value `value`.
pub open spec fn assigns(line: Seq<char>, key: Seq<char>, value: Seq<char>) -> bool {
    parse_line(line) == Some(Ok::<(Seq<char>, Seq<char>), crate::error::EnvLineError>((key, value)))
}

/// The line assigns `key`, whatever the value.
pub open spec fn assigns_key(line: Seq<char>, key: Seq<char>) -> bool {
    match parse_line(line) {
        Some(Ok((k, _))) => k == key,
        _ => false,
    }
}

/// A name that no line of the override file assigns keeps its earlier value.
pub proof fn lemma_file_keeps_unassigned(
    m: Map<Seq<char>, Seq<char>>,
    ls: Seq<Seq<char>>,
    start: int,
    key: Seq<char>,
)
    requires
        0 <= start,
        forall|j: int| start <= j < ls.len() ==> !assigns_key(#[trigger] ls[j], key),
    ensures
        ({
            let r = merge_lines(m, ls, start).0;
            r.contains_key(key) == m.contains_key(key) && (m.contains_key(key) ==> r[key]
                == m[key])
        }),
    decreases ls.len() - start,
{
    if start < ls.len() {
        assert(!assigns_key(ls[start], key));
        match parse_line(ls[start]) {
            Some(Ok((k, v))) => lemma_file_keeps_unassigned(m.insert(k, v), ls, start + 1, key),
            None => lemma_file_keeps_unassigned(m, ls, start + 1, key),
            _ => {},
        }
    }
}

/// When the override file is well formed, the last line that assigns a name
/// decides its value, over every earlier layer.
pub proof fn lemma_file_last_assignment_wins(
    m: Map<Seq<char>, Seq<char>>,
    ls: Seq<Seq<char>>,
    start: int,
    j: int,
    key: Seq<char>,
    value: Seq<char>,
)
    requires
        0 <= start <= j < ls.len(),
        assigns(ls[j], key, value),
        forall|i: int| j < i < ls.len() ==> !assigns_key(#[trigger] ls[i], key),
        merge_lines(m, ls, start).1 is None,
    ensures
        merge_lines(m, ls, start).0.contains_key(key),
        merge_lines(m, ls, start).0[key] == value,
    decreases j - start,
{
    if start < j {
        match parse_line(ls[start]) {
            Some(Ok((k, v))) => lemma_file_last_assignment_wins(
                m.insert(k, v),
                ls,
                start + 1,
                j,
                key,
                value,
            ),
            None => lemma_file_last_assignment_wins(m, ls, start + 1, j, key, value),
            _ => {},
        }
    } else {
        lemma_file_keeps_unassigned(m.insert(key, value), ls, j + 1, key);
    }
}

/// A bound listener makes the service ready, whatever its process reports
/// and however long it has taken.
pub proof fn lemma_ready_when_listening(process: ProcessState, elapsed_ms: u64, timeout_ms: u64)
    ensures
        readiness_of(true, process, elapsed_ms, timeout_ms) == Readiness::Ready,
{
}

/// A process that has exited before its port opened is reported as exited,
/// never as timed out, whatever the time spent.
pub proof fn lemma_exit_is_not_timeout(elapsed_ms: u64, timeout_ms: u64)
    ensures
        readiness_of(false, ProcessState::Exited, elapsed_ms, timeout_ms) == Readiness::Exited,
{
}

} // verus!
