//! The application log: the most recent lines, at most `MAX_LOG_ENTRIES` of them, and what
//! a new line does to the model load in progress (its phases and counts, and a loading
//! error that fails the loading models).
use vstd::prelude::*;
use crate::loading::{details_read, dot_count, failure_text, loading_failure, phases_read, LoadingTracker, PhaseUpdate};
use crate::model_state::{
    entries_view, fail_loading_models, names_unique, failed_names, states_after_failure, ModelState, ModelStateView,
};
use crate::parsing::{loading_error_text, oom_text};
use crate::server_flow::names_view;
use crate::text::{lowercase_of, str_eq};
use crate::types::LoadingPhase;

verus! {

/// How serious a log line is.
#[derive(Debug, Clone, Copy, PartialEq, Eq, Structural)]
pub enum LogLevel {
    Info,
    Warning,
    Error,
}

/// One line of the log, with the time it was written.
#[derive(Debug)]
pub struct LogEntry {
    pub time: String,
    pub message: String,
    pub level: LogLevel,
}

pub struct EntryView {
    pub time: Seq<char>,
    pub message: Seq<char>,
    pub level: LogLevel,
}

impl View for LogEntry {
    type V = EntryView;

    open spec fn view(&self) -> EntryView {
        EntryView { time: self.time@, message: self.message@, level: self.level }
    }
}

/// The log keeps at most this many lines.
pub const MAX_LOG_ENTRIES: usize = 500;

pub open spec fn log_view(v: Seq<LogEntry>) -> Seq<EntryView> {
    v.map_values(|e: LogEntry| e@)
}

/// The log before a line is added: the oldest line goes when the log is full.
pub open spec fn trimmed(log: Seq<EntryView>) -> Seq<EntryView> {
    if log.len() >= MAX_LOG_ENTRIES { log.drop_first() } else { log }
}

/// The log after `e` is added.
pub open spec fn with_entry(log: Seq<EntryView>, e: EntryView) -> Seq<EntryView> {
    trimmed(log).push(e)
}

/// Drops the oldest line when the log is full.
pub fn trim_log(entries: &mut Vec<LogEntry>)
    ensures
        log_view(final(entries)@) == trimmed(log_view(old(entries)@)),
{
    if entries.len() >= MAX_LOG_ENTRIES {
        let ghost before = log_view(entries@);
        entries.remove(0);
        assert(log_view(entries@) =~= before.drop_first());
    }
}

/// Adds `entry` as the newest line, dropping the oldest when the log is full.
pub fn push_log_entry(entries: &mut Vec<LogEntry>, entry: LogEntry)
    ensures
        log_view(final(entries)@) == with_entry(log_view(old(entries)@), entry@),
{
    trim_log(entries);
    let ghost before = log_view(entries@);
    let ghost e = entry@;
    entries.push(entry);
    assert(log_view(entries@) =~= before.push(e));
}

/// `served` without the names in `gone`.
pub open spec fn without_names(served: Seq<Seq<char>>, gone: Seq<Seq<char>>) -> Seq<Seq<char>> {
    served.filter(|n: Seq<char>| !gone.contains(n))
}

fn contains_name(names: &Vec<String>, n: &str) -> (r: bool)
    ensures
        r == names_view(names@).contains(n@),
{
    let mut i: usize = 0;
    while i < names.len()
        invariant
            i <= names.len(),
            forall|j: int| 0 <= j < i ==> names@[j]@ != n@,
        decreases names.len() - i,
    {
        if str_eq(names[i].as_str(), n) {
            assert(names_view(names@)[i as int] == n@);
            return true;
        }
        i = i + 1;
    }
    assert(!names_view(names@).contains(n@)) by {
        if names_view(names@).contains(n@) {
            let j = choose|j: int| 0 <= j < names_view(names@).len() && names_view(names@)[j] == n@;
            assert(names@[j]@ == n@);
        }
    }
    false
}

/// Takes the names in `gone` out of the served models.
fn drop_served(served: &mut Vec<String>, gone: &Vec<String>)
    ensures
        names_view(final(served)@) == without_names(names_view(old(served)@), names_view(gone@)),
{
    let ghost os = names_view(served@);
    let ghost g = names_view(gone@);
    let mut kept: Vec<String> = Vec::new();
    let mut i: usize = 0;
    assert(os.take(0) == Seq::<Seq<char>>::empty());
    while i < served.len()
        invariant
            i <= served.len(),
            os == names_view(served@),
            g == names_view(gone@),
            names_view(kept@) == os.take(i as int).filter(|n: Seq<char>| !g.contains(n)),
        decreases served.len() - i,
    {
        assert(os.take(i + 1).drop_last() == os.take(i as int));
        assert(os.take(i + 1).last() == served@[i as int]@);
        proof {
            reveal(Seq::filter);
        }
        if !contains_name(gone, served[i].as_str()) {
            let ghost before = names_view(kept@);
            kept.push(served[i].clone());
            assert(names_view(kept@) =~= before.push(served@[i as int]@));
        }
        i = i + 1;
    }
    assert(os.take(os.len() as int) == os);
    *served = kept;
}

/// A tracker with no phase, no most recent phase and no counts.
pub open spec fn forgotten(t: LoadingTracker) -> bool {
    &&& t.phases.view() == Set::<LoadingPhase>::empty()
    &&& t.last_active_phase is None
    &&& t.load_progress.tensors_loaded == 0
    &&& t.load_progress.tensors_total is None
    &&& t.load_progress.layers_total is None
    &&& t.load_progress.layers_loaded is None
}

/// Ends a failed load: the tracker forgets it; every loading model, and on a crash every
/// loaded one, is marked failed with the last error message (or, without one, a message
/// stamped with the local time) and is no longer served; the loading spinner goes back
/// to its first position. Returns the failed names, in order, and their message. (The
/// progress bar's fraction and the timers are the application's.)
pub fn reset_loading_state(
    tracker: &mut LoadingTracker,
    spinner: &mut u8,
    states: &mut Vec<(String, ModelState)>,
    served: &mut Vec<String>,
    last_error: &Option<String>,
    is_crash: bool,
) -> (r: (Vec<String>, String))
    ensures
        forgotten(*final(tracker)),
        *final(spinner) == 0,
        last_error matches Some(e) ==> r.1@ == e@,
        last_error is None ==> exists|ts: Seq<char>| r.1@ == #[trigger] failure_text(false, ts),
        entries_view(final(states)@) == states_after_failure(entries_view(old(states)@), is_crash, r.1@),
        names_unique(entries_view(old(states)@)) ==> names_unique(entries_view(final(states)@)),
        names_view(r.0@) == failed_names(entries_view(old(states)@), is_crash),
        names_view(final(served)@) == without_names(
            names_view(old(served)@),
            failed_names(entries_view(old(states)@), is_crash),
        ),
{
    tracker.reset();
    *spinner = 0;
    let r = fail_loading_models(states, is_crash, last_error);
    assert(names_view(r.0@) =~= r.0@.map_values(|n: String| n@));
    drop_served(served, &r.0);
    r
}

/// Is some model loading?
pub open spec fn any_loading(s: Seq<(Seq<char>, ModelStateView)>) -> bool {
    exists|i: int| 0 <= i < s.len() && s[i].1 is Loading
}

fn entries_loading(states: &Vec<(String, ModelState)>) -> (r: bool)
    ensures
        r == any_loading(entries_view(states@)),
{
    let mut i: usize = 0;
    while i < states.len()
        invariant
            i <= states.len(),
            forall|j: int| 0 <= j < i ==> !(entries_view(states@)[j].1 is Loading),
        decreases states.len() - i,
    {
        if let ModelState::Loading = &states[i].1 {
            assert(entries_view(states@)[i as int].1 is Loading);
            return true;
        }
        i = i + 1;
    }
    false
}

/// A line that reports a loading error while a model is loading fails the load: the
/// error message (stamped with the local time, marked OOM for an out-of-memory line)
/// becomes the last error and `reset_loading_state` runs (not a crash). Returns the
/// failed names when it did; otherwise nothing changes.
pub fn detect_load_state(
    msg: &str,
    tracker: &mut LoadingTracker,
    spinner: &mut u8,
    states: &mut Vec<(String, ModelState)>,
    served: &mut Vec<String>,
    last_error: &mut Option<String>,
) -> (r: Option<Vec<String>>)
    ensures
        ({
            let lower = lowercase_of(msg@);
            if loading_error_text(lower) && any_loading(entries_view(old(states)@)) {
                &&& r is Some
                &&& forgotten(*final(tracker))
                &&& *final(spinner) == 0
                &&& *final(last_error) is Some
                &&& exists|ts: Seq<char>| (*final(last_error))->0@ == #[trigger] failure_text(oom_text(lower), ts)
                &&& entries_view(final(states)@) == states_after_failure(
                    entries_view(old(states)@),
                    false,
                    (*final(last_error))->0@,
                )
                &&& names_view(r->0@) == failed_names(entries_view(old(states)@), false)
                &&& names_view(final(served)@) == without_names(
                    names_view(old(served)@),
                    failed_names(entries_view(old(states)@), false),
                )
            } else {
                &&& r is None
                &&& *final(tracker) == *old(tracker)
                &&& *final(spinner) == *old(spinner)
                &&& *final(last_error) == *old(last_error)
                &&& final(states)@ == old(states)@
                &&& final(served)@ == old(served)@
            }
        }),
        names_unique(entries_view(old(states)@)) ==> names_unique(entries_view(final(states)@)),
{
    let failure = loading_failure(msg);
    match failure {
        Some(error_msg) => {
            if !entries_loading(states) {
                return None;
            }
            *last_error = Some(error_msg);
            let (failed, _) = reset_loading_state(tracker, spinner, states, served, last_error, false);
            Some(failed)
        },
        None => None,
    }
}

/// What a new log line did to the load, for the application's timers and display.
pub struct LineEffect {
    /// The most recent loading phase changed (its timer restarts).
    pub phase_changed: bool,
    /// The line failed the load: the names of the failed models.
    pub failed: Option<Vec<String>>,
}

/// Writes a line to the log at time `time`: the line is read for loading phases (a
/// loading step clears the last error) and, while tensors load, for counts; a loading
/// error fails the load (`detect_load_state`); the line is then kept as the newest, the
/// oldest going when the log is full.
pub fn add_log(
    entries: &mut Vec<LogEntry>,
    tracker: &mut LoadingTracker,
    spinner: &mut u8,
    states: &mut Vec<(String, ModelState)>,
    served: &mut Vec<String>,
    last_error: &mut Option<String>,
    message: String,
    level: LogLevel,
    time: String,
) -> (r: LineEffect)
    requires
        dot_count(message@) <= 200 ==> old(tracker).load_progress.tensors_loaded + dot_count(message@) <= u32::MAX,
    ensures
        log_view(final(entries)@) == with_entry(
            log_view(old(entries)@),
            EntryView { time: time@, message: message@, level },
        ),
        exists|mid: LoadingTracker, u: PhaseUpdate|
            #[trigger] phases_read(*old(tracker), mid, message@, u) && r.phase_changed == u.phase_changed && ({
                let lower = lowercase_of(message@);
                let err = if u.clears_error { None } else { *old(last_error) };
                if loading_error_text(lower) && any_loading(entries_view(old(states)@)) {
                    &&& r.failed is Some
                    &&& forgotten(*final(tracker))
                    &&& *final(spinner) == 0
                    &&& *final(last_error) is Some
                    &&& exists|ts: Seq<char>| (*final(last_error))->0@ == #[trigger] failure_text(oom_text(lower), ts)
                    &&& entries_view(final(states)@) == states_after_failure(
                        entries_view(old(states)@),
                        false,
                        (*final(last_error))->0@,
                    )
                    &&& names_view(r.failed->0@) == failed_names(entries_view(old(states)@), false)
                    &&& names_view(final(served)@) == without_names(
                        names_view(old(served)@),
                        failed_names(entries_view(old(states)@), false),
                    )
                } else {
                    &&& r.failed is None
                    &&& details_read(mid, *final(tracker), message@)
                    &&& *final(spinner) == *old(spinner)
                    &&& *final(last_error) == err
                    &&& final(states)@ == old(states)@
                    &&& final(served)@ == old(served)@
                }
            }),
        names_unique(entries_view(old(states)@)) ==> names_unique(entries_view(final(states)@)),
{
    let ghost before = *tracker;
    let u = tracker.detect_loading_phases(message.as_str());
    let ghost mid = *tracker;
    if u.clears_error {
        *last_error = None;
    }
    tracker.parse_loading_details(message.as_str());
    let failed = detect_load_state(message.as_str(), tracker, spinner, states, served, last_error);
    push_log_entry(entries, LogEntry { time, message, level });
    assert(phases_read(before, mid, message@, u));
    LineEffect { phase_changed: u.phase_changed, failed }
}

// ───────────────────────── laws ─────────────────────────

/// The log never holds more than `MAX_LOG_ENTRIES` lines.
pub proof fn law_log_stays_bounded(log: Seq<EntryView>, e: EntryView)
    requires
        log.len() <= MAX_LOG_ENTRIES,
    ensures
        with_entry(log, e).len() <= MAX_LOG_ENTRIES,
{
}

/// A new line is the newest; the lines before it are the most recent earlier lines, in
/// their order, and only a full log loses its oldest line.
pub proof fn law_newest_line_last(log: Seq<EntryView>, e: EntryView)
    ensures
        with_entry(log, e).last() == e,
        with_entry(log, e).len() == if log.len() >= MAX_LOG_ENTRIES { log.len() } else { log.len() + 1 },
        forall|i: int|
            0 <= i < with_entry(log, e).len() - 1 ==> #[trigger] with_entry(log, e)[i] == log[i + log.len() - (
            with_entry(log, e).len() - 1)],
{
}

/// After a failed load no model is loading, and after a crash none is left loaded either.
pub proof fn law_failure_leaves_nothing_loading(s: Seq<(Seq<char>, ModelStateView)>, is_crash: bool, error: Seq<char>)
    ensures
        !any_loading(states_after_failure(s, is_crash, error)),
        is_crash ==> forall|i: int|
            0 <= i < s.len() ==> !(#[trigger] states_after_failure(s, is_crash, error)[i].1 is Loaded),
{
}

/// A model that failed is no longer served, and a served model that did not fail still is.
pub proof fn law_failed_models_not_served(served: Seq<Seq<char>>, gone: Seq<Seq<char>>, n: Seq<char>)
    ensures
        gone.contains(n) ==> !without_names(served, gone).contains(n),
        served.contains(n) && !gone.contains(n) ==> without_names(served, gone).contains(n),
{
    broadcast use vstd::seq_lib::group_filter_ensures;
    let keep = |m: Seq<char>| !gone.contains(m);
    if gone.contains(n) && without_names(served, gone).contains(n) {
        let k = choose|k: int| 0 <= k < without_names(served, gone).len() && without_names(served, gone)[k] == n;
        assert(keep(without_names(served, gone)[k]));
    }
    if served.contains(n) && !gone.contains(n) {
        let k = choose|k: int| 0 <= k < served.len() && served[k] == n;
        assert(without_names(served, gone).contains(served[k]));
    }
}

} // verus!
