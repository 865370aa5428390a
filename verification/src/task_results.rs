//! What the application does when a background task ends: a server spawn, a benchmark
//! tuning run, a backend installation. The tasks themselves, and the waiting, are the
//! application's.
use vstd::prelude::*;
use vstd::string::StringExecFns;
use crate::loading::LoadingTracker;
use crate::logbook::LogLevel;
use crate::model_state::{entries_view, names_unique, ModelState, ModelStateView};
use crate::server_flow::{set_state, with_state};
use crate::text::{decimal_text, to_decimal};
use crate::types::LoadingPhase;

verus! {

// ───────────────────────── server spawn ─────────────────────────

/// The line logged when a server started on `port` as process `pid`.
pub open spec fn started_text(port: u16, pid: u32) -> Seq<char> {
    "Server started on port "@ + decimal_text(port as nat) + " (pid="@ + decimal_text(pid as nat) + ")"@
}

pub fn spawn_started_line(port: u16, pid: u32) -> (s: String)
    ensures
        s@ == started_text(port, pid),
{
    let mut s = String::from_str("Server started on port ");
    let p = to_decimal(port as u64);
    s.append(p.as_str());
    s.append(" (pid=");
    let q = to_decimal(pid as u64);
    s.append(q.as_str());
    s.append(")");
    s
}

/// A started server listens: that is the one phase seen, and the most recent.
pub fn mark_server_listening(tracker: &mut LoadingTracker)
    ensures
        final(tracker).phases.view() == set![LoadingPhase::ServerListening],
        final(tracker).last_active_phase == Some(LoadingPhase::ServerListening),
        final(tracker).load_progress == old(tracker).load_progress,
{
    tracker.phases.clear();
    tracker.phases.insert(LoadingPhase::ServerListening);
    tracker.last_active_phase = Some(LoadingPhase::ServerListening);
    assert(Set::<LoadingPhase>::empty().insert(LoadingPhase::ServerListening) =~= set![LoadingPhase::ServerListening]);
}

/// The line logged when the server could not start, for error `e` (the load then ends
/// as a crash: `logbook::reset_loading_state`).
pub fn spawn_failed_line(e: &str) -> (s: String)
    ensures
        s@ == "ERROR: Server failed: "@ + e@,
{
    let mut s = String::from_str("ERROR: Server failed: ");
    s.append(e);
    s
}

// ───────────────────────── benchmark tuning ─────────────────────────

/// How a benchmark tuning run of a model ended.
pub enum BenchOutcome {
    /// It ran and `count` configurations gave results.
    Completed { count: usize },
    /// It failed with this error.
    Failed(String),
}

/// What follows the end of a run.
pub struct BenchFinish {
    /// Lines to log, in order.
    pub lines: Vec<(String, LogLevel)>,
    /// The results are written to the benchmarks directory (there are some).
    pub save_results: bool,
    /// The selected model is unloaded from the running server.
    pub unload: Option<String>,
}

pub open spec fn completed_text(name: Seq<char>, count: usize) -> Seq<char> {
    "Benchmark tuning completed for "@ + name + " with "@ + decimal_text(count as nat) + " results"@
}

pub open spec fn no_results_text() -> Seq<char> {
    "No successful benchmark results were obtained. Check the Log (F6) for details on test failures."@
}

pub open spec fn bench_failed_text(e: Seq<char>) -> Seq<char> {
    "Benchmark tuning failed: "@ + e
}

pub open spec fn lines_view(v: Seq<(String, LogLevel)>) -> Seq<(Seq<char>, LogLevel)> {
    v.map_values(|l: (String, LogLevel)| (l.0@, l.1))
}

pub open spec fn str_opt(s: Option<&str>) -> Option<Seq<char>> {
    match s {
        Some(x) => Some(x@),
        None => None,
    }
}

/// Ends a benchmark tuning run of the model `name` (as the run named it), with `selected`
/// the model selected now: a completed run logs its result count (and warns when there
/// is none, else saves), makes the selected model available again and, while a server
/// runs, unloads it there; a failed run logs the error and marks the selected model
/// failed with it.
pub fn finish_bench_tune(
    states: &mut Vec<(String, ModelState)>,
    name: &str,
    selected: Option<&str>,
    outcome: &BenchOutcome,
    server_running: bool,
) -> (r: BenchFinish)
    ensures
        match outcome {
            BenchOutcome::Completed { count } => {
                &&& lines_view(r.lines@) == if *count == 0 {
                    seq![(completed_text(name@, *count), LogLevel::Info), (no_results_text(), LogLevel::Warning)]
                } else {
                    seq![(completed_text(name@, *count), LogLevel::Info)]
                }
                &&& r.save_results == (*count > 0)
                &&& entries_view(final(states)@) == match selected {
                    Some(s) => with_state(entries_view(old(states)@), s@, ModelStateView::Available),
                    None => entries_view(old(states)@),
                }
                &&& match r.unload {
                    Some(u) => server_running && selected is Some && u@ == str_opt(selected)->0,
                    None => !(server_running && selected is Some),
                }
            },
            BenchOutcome::Failed(e) => {
                &&& lines_view(r.lines@) == seq![(bench_failed_text(e@), LogLevel::Error)]
                &&& !r.save_results
                &&& r.unload is None
                &&& entries_view(final(states)@) == match selected {
                    Some(s) => with_state(entries_view(old(states)@), s@, ModelStateView::Failed { error: e@ }),
                    None => entries_view(old(states)@),
                }
            },
        },
        names_unique(entries_view(old(states)@)) ==> names_unique(entries_view(final(states)@)),
{
    let mut lines: Vec<(String, LogLevel)> = Vec::new();
    match outcome {
        BenchOutcome::Completed { count } => {
            let mut s = String::from_str("Benchmark tuning completed for ");
            s.append(name);
            s.append(" with ");
            let c = to_decimal(*count as u64);
            s.append(c.as_str());
            s.append(" results");
            lines.push((s, LogLevel::Info));
            if *count == 0 {
                lines.push((
                    String::from_str(
                        "No successful benchmark results were obtained. Check the Log (F6) for details on test failures.",
                    ),
                    LogLevel::Warning,
                ));
            }
            assert(lines_view(lines@) =~= if *count == 0 {
                seq![(completed_text(name@, *count), LogLevel::Info), (no_results_text(), LogLevel::Warning)]
            } else {
                seq![(completed_text(name@, *count), LogLevel::Info)]
            });
            let mut unload: Option<String> = None;
            if let Some(sel) = selected {
                set_state(states, sel, ModelState::Available);
                if server_running {
                    unload = Some(sel.to_string());
                }
            }
            BenchFinish { lines, save_results: *count > 0, unload }
        },
        BenchOutcome::Failed(e) => {
            let mut s = String::from_str("Benchmark tuning failed: ");
            s.append(e.as_str());
            lines.push((s, LogLevel::Error));
            assert(lines_view(lines@) =~= seq![(bench_failed_text(e@), LogLevel::Error)]);
            if let Some(sel) = selected {
                set_state(states, sel, ModelState::Failed { error: e.clone() });
            }
            BenchFinish { lines, save_results: false, unload: None }
        },
    }
}

// ───────────────────────── backend installation ─────────────────────────

/// The line logged when a backend installation ended: where the server binary is, or
/// the error.
pub fn backend_resolution_line(result: &Result<String, String>) -> (r: (String, LogLevel))
    ensures
        match result {
            Ok(path) => r.0@ == "Backend ready: "@ + path@ && r.1 == LogLevel::Info,
            Err(e) => r.0@ == "Backend installation failed: "@ + e@ && r.1 == LogLevel::Error,
        },
{
    match result {
        Ok(path) => {
            let mut s = String::from_str("Backend ready: ");
            s.append(path.as_str());
            (s, LogLevel::Info)
        },
        Err(e) => {
            let mut s = String::from_str("Backend installation failed: ");
            s.append(e.as_str());
            (s, LogLevel::Error)
        },
    }
}

} // verus!
