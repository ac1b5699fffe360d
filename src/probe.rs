use vstd::prelude::*;

use crate::text::{find_char, find_char_from, lemma_find_char_bounds};

verus! {

/// Pause between two readiness probes.
pub const POLL_INTERVAL_MS: u64 = 250;

/// Time a service is given to open its port.
pub const READY_TIMEOUT_MS: u64 = 30000;

/// Most lines of a service's error log quoted when it exits early.
pub const LOG_TAIL_LINES: usize = 40;

/// What a non-blocking look at a service's process found.
#[derive(Debug, Clone, Copy, PartialEq, Eq, Structural)]
pub enum ProcessState {
    Running,
    Exited,
    /// The state could not be queried.
    CheckFailed,
}

/// The readiness of one service; every state but `Polling` is final.
#[derive(Debug, Clone, Copy, PartialEq, Eq, Structural)]
pub enum Readiness {
    Polling,
    Ready,
    Exited,
    TimedOut,
    ProbeError,
}

/// One probe: an open port wins, then an exited or unreadable process, then
/// the time limit; otherwise keep polling.
pub open spec fn readiness_of(
    port_open: bool,
    process: ProcessState,
    elapsed_ms: u64,
    timeout_ms: u64,
) -> Readiness {
    if port_open {
        Readiness::Ready
    } else {
        match process {
            ProcessState::Exited => Readiness::Exited,
            ProcessState::CheckFailed => Readiness::ProbeError,
            ProcessState::Running => if elapsed_ms > timeout_ms {
                Readiness::TimedOut
            } else {
                Readiness::Polling
            },
        }
    }
}

/// Decides the outcome of one readiness probe (see `readiness_of`).
pub fn readiness_step(port_open: bool, process: ProcessState, elapsed_ms: u64, timeout_ms: u64) -> (r:
    Readiness)
    ensures
        r == readiness_of(port_open, process, elapsed_ms, timeout_ms),
{
    if port_open {
        return Readiness::Ready;
    }
    match process {
        ProcessState::Exited => Readiness::Exited,
        ProcessState::CheckFailed => Readiness::ProbeError,
        ProcessState::Running => {
            if elapsed_ms > timeout_ms {
                Readiness::TimedOut
            } else {
                Readiness::Polling
            }
        },
    }
}

/// A line without a final carriage return.
pub open spec fn strip_cr(l: Seq<char>) -> Seq<char> {
    if l.len() > 0 && l.last() == '\r' {
        l.drop_last()
    } else {
        l
    }
}

/// The lines of `s` from index `i` on, as `str::lines` gives them: split at
/// `\n`, with a `\r` just before that `\n` removed. A last line that no `\n`
/// ends keeps a final `\r`.
pub open spec fn log_lines_from(s: Seq<char>, i: int) -> Seq<Seq<char>>
    decreases s.len() + 1 - i,
    via log_lines_from_decreases
{
    if i < 0 || i >= s.len() {
        seq![]
    } else {
        let e = find_char(s, '\n', i);
        let raw = s.subrange(i, e);
        let line = if e < s.len() {
            strip_cr(raw)
        } else {
            raw
        };
        seq![line] + log_lines_from(s, e + 1)
    }
}

#[via_fn]
proof fn log_lines_from_decreases(s: Seq<char>, i: int) {
    if 0 <= i < s.len() {
        lemma_find_char_bounds(s, '\n', i);
    }
}

/// The lines of a log, as `str::lines` gives them.
pub open spec fn log_lines(s: Seq<char>) -> Seq<Seq<char>> {
    log_lines_from(s, 0)
}

/// Lines joined with `\n` between them.
pub open spec fn join_lines(ls: Seq<Seq<char>>) -> Seq<char>
    decreases ls.len(),
{
    if ls.len() == 0 {
        seq![]
    } else if ls.len() == 1 {
        ls[0]
    } else {
        join_lines(ls.drop_last()) + seq!['\n'] + ls.last()
    }
}

/// The last `n` lines of `s` (all of them if there are fewer), joined with `\n`.
pub open spec fn tail_of(s: Seq<char>, n: nat) -> Seq<char> {
    let ls = log_lines(s);
    let from = if ls.len() > n {
        ls.len() - n
    } else {
        0
    };
    join_lines(ls.subrange(from as int, ls.len() as int))
}

/// `l` without a final carriage return.
fn strip_cr_text(l: &str) -> (r: String)
    ensures
        r@ == strip_cr(l@),
{
    let n = l.unicode_len();
    if n > 0 && l.get_char(n - 1) == '\r' {
        String::from_str(l.substring_char(0, n - 1))
    } else {
        String::from_str(l)
    }
}

/// The lines of `s` (see `log_lines`).
pub fn split_log_lines(s: &str) -> (r: Vec<String>)
    ensures
        r.deep_view() == log_lines(s@),
{
    let n = s.unicode_len();
    let mut out: Vec<String> = Vec::new();
    let mut pos: usize = 0;
    while pos < n
        invariant
            n == s@.len(),
            pos <= n,
            log_lines(s@) == out.deep_view() + log_lines_from(s@, pos as int),
        decreases n - pos,
    {
        let e = find_char_from(s, '\n', pos);
        let raw = s.substring_char(pos, e);
        let line = if e < n {
            strip_cr_text(raw)
        } else {
            String::from_str(raw)
        };
        let ghost before = out.deep_view();
        out.push(line);
        proof {
            assert(log_lines_from(s@, pos as int) == seq![line@] + log_lines_from(s@, e + 1));
            assert(out.deep_view() =~= before.push(line@));
            assert(before + log_lines_from(s@, pos as int) =~= out.deep_view() + log_lines_from(
                s@,
                e + 1,
            ));
        }
        if e < n {
            pos = e + 1;
        } else {
            pos = n;
        }
    }
    proof {
        assert(log_lines_from(s@, pos as int) =~= seq![]);
        assert(out.deep_view() + log_lines_from(s@, pos as int) =~= out.deep_view());
    }
    out
}

/// Joins `ls[from..]` with `\n`.
fn join_from(ls: &Vec<String>, from: usize) -> (r: String)
    requires
        from <= ls.len(),
    ensures
        r@ == join_lines(ls.deep_view().subrange(from as int, ls.len() as int)),
{
    let ghost all = ls.deep_view();
    let mut r = String::new();
    let mut i: usize = from;
    assert(all.subrange(from as int, from as int) =~= seq![]);
    while i < ls.len()
        invariant
            from <= i <= ls.len(),
            all == ls.deep_view(),
            r@ == join_lines(all.subrange(from as int, i as int)),
        decreases ls.len() - i,
    {
        let ghost next = all.subrange(from as int, i + 1);
        assert(next.drop_last() =~= all.subrange(from as int, i as int));
        let ghost prev = r@;
        if i > from {
            proof {
                reveal_strlit("\n");
                assert("\n"@ =~= seq!['\n']);
            }
            r.append("\n");
        }
        r.append(ls[i].as_str());
        proof {
            assert(next.last() == ls[i as int]@);
            if i == from {
                assert(next.len() == 1);
                assert(r@ =~= next[0]);
            } else {
                assert(r@ =~= prev + seq!['\n'] + next.last());
            }
        }
        i = i + 1;
    }
    r
}

/// The last `max_lines` lines of a log's text, joined with `\n`.
pub fn log_tail(content: &str, max_lines: usize) -> (r: String)
    ensures
        r@ == tail_of(content@, max_lines as nat),
{
    let ls = split_log_lines(content);
    let from = if ls.len() > max_lines {
        ls.len() - max_lines
    } else {
        0
    };
    join_from(&ls, from)
}

} // verus!
