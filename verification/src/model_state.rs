//! The state of each local model (available, loading, loaded, failed, benchmarking) and
//! what the interface derives from it.
use vstd::prelude::*;
use vstd::string::StringExecFns;
use crate::clock::local_time_stamp;
use crate::loading::{failure_text, load_failure_message};

verus! {

/// The state of one model.
pub enum ModelState {
    Available,
    Loading,
    /// Served by a server on `port`, process `pid`.
    Loaded { port: u16, pid: u32 },
    Failed { error: String },
    Benchmarking,
}

pub enum ModelStateView {
    Available,
    Loading,
    Loaded { port: u16, pid: u32 },
    Failed { error: Seq<char> },
    Benchmarking,
}

impl ModelState {
    pub open spec fn view(&self) -> ModelStateView {
        match self {
            ModelState::Available => ModelStateView::Available,
            ModelState::Loading => ModelStateView::Loading,
            ModelState::Loaded { port, pid } => ModelStateView::Loaded { port: *port, pid: *pid },
            ModelState::Failed { error } => ModelStateView::Failed { error: error@ },
            ModelState::Benchmarking => ModelStateView::Benchmarking,
        }
    }
}

/// The text the status line shows for the selected model's state ("unloaded" when the
/// model has none, or no model is selected).
pub open spec fn state_text(state: Option<ModelStateView>) -> Seq<char> {
    match state {
        Some(ModelStateView::Available) => "available"@,
        Some(ModelStateView::Loading) => "loading"@,
        Some(ModelStateView::Loaded { .. }) => "loaded"@,
        Some(ModelStateView::Failed { error }) => "failed: "@ + error,
        Some(ModelStateView::Benchmarking) => "benchmarking"@,
        None => "unloaded"@,
    }
}

pub open spec fn opt_state_view(state: Option<&ModelState>) -> Option<ModelStateView> {
    match state {
        Some(s) => Some(s.view()),
        None => None,
    }
}

/// The status text of a model state (see `state_text`).
pub fn get_state_str(state: Option<&ModelState>) -> (r: String)
    ensures
        r@ == state_text(opt_state_view(state)),
{
    match state {
        Some(ModelState::Available) => String::from_str("available"),
        Some(ModelState::Loading) => String::from_str("loading"),
        Some(ModelState::Loaded { .. }) => String::from_str("loaded"),
        Some(ModelState::Failed { error }) => {
            let mut s = String::from_str("failed: ");
            s.append(error.as_str());
            s
        },
        Some(ModelState::Benchmarking) => String::from_str("benchmarking"),
        None => String::from_str("unloaded"),
    }
}

/// How far up the status sort puts a model: loaded first, then loading, then
/// benchmarking, then the rest.
pub open spec fn status_rank(state: Option<ModelStateView>) -> u8 {
    match state {
        Some(ModelStateView::Loaded { .. }) => 3,
        Some(ModelStateView::Loading) => 2,
        Some(ModelStateView::Benchmarking) => 1,
        _ => 0,
    }
}

/// The rank of a model state in the status sort (see `status_rank`).
pub fn status_priority(state: Option<&ModelState>) -> (r: u8)
    ensures
        r == status_rank(opt_state_view(state)),
{
    match state {
        Some(ModelState::Loaded { .. }) => 3,
        Some(ModelState::Loading) => 2,
        Some(ModelState::Benchmarking) => 1,
        _ => 0,
    }
}

/// Whether a model with this state is served.
pub fn is_model_loaded(state: Option<&ModelState>) -> (r: bool)
    ensures
        r == (opt_state_view(state) matches Some(ModelStateView::Loaded { .. })),
{
    matches!(state, Some(ModelState::Loaded { .. }))
}

/// Whether some model is loading.
pub fn is_loading(states: &Vec<ModelState>) -> (r: bool)
    ensures
        r == exists|i: int| 0 <= i < states@.len() && states@[i].view() is Loading,
{
    let mut i: usize = 0;
    while i < states.len()
        invariant
            i <= states.len(),
            forall|j: int| 0 <= j < i ==> !(states@[j].view() is Loading),
        decreases states.len() - i,
    {
        if let ModelState::Loading = &states[i] {
            return true;
        }
        i = i + 1;
    }
    false
}

/// Whether a model in state `s` fails when a load fails: a loading one always, a loaded
/// one on a crash.
pub open spec fn fails_on_failure(s: ModelStateView, is_crash: bool) -> bool {
    s is Loading || (is_crash && s is Loaded)
}

/// The state a model has after a failed load: the failing ones get the error message,
/// the rest keep theirs.
pub open spec fn after_failure(s: ModelStateView, is_crash: bool, error: Seq<char>) -> ModelStateView {
    if fails_on_failure(s, is_crash) { ModelStateView::Failed { error } } else { s }
}

/// Names and states of the models.
pub open spec fn entries_view(v: Seq<(String, ModelState)>) -> Seq<(Seq<char>, ModelStateView)> {
    v.map_values(|e: (String, ModelState)| (e.0@, e.1.view()))
}

/// Each model is listed once: the invariant of the model states, which every function
/// that changes them keeps.
pub open spec fn names_unique(s: Seq<(Seq<char>, ModelStateView)>) -> bool {
    forall|i: int, j: int| 0 <= i < j < s.len() ==> #[trigger] s[i].0 != #[trigger] s[j].0
}

/// The names of the models that fail, in order.
pub open spec fn failed_names(s: Seq<(Seq<char>, ModelStateView)>, is_crash: bool) -> Seq<Seq<char>>
    decreases s.len(),
{
    if s.len() == 0 {
        seq![]
    } else {
        let r = failed_names(s.drop_last(), is_crash);
        if fails_on_failure(s.last().1, is_crash) { r.push(s.last().0) } else { r }
    }
}

/// The models after a failed load (see `after_failure`).
pub open spec fn states_after_failure(s: Seq<(Seq<char>, ModelStateView)>, is_crash: bool, error: Seq<char>) -> Seq<(Seq<char>, ModelStateView)> {
    s.map_values(|e: (Seq<char>, ModelStateView)| (e.0, after_failure(e.1, is_crash, error)))
}

/// Marks the models that failed to load: every loading model, and on a crash every
/// loaded one, gets the last error message (or, without one, a message stamped with the
/// local time). Returns the names of the failed models, in order, which the application
/// removes from the list of served models, and the message they got.
pub fn fail_loading_models(
    states: &mut Vec<(String, ModelState)>,
    is_crash: bool,
    last_error: &Option<String>,
) -> (r: (Vec<String>, String))
    ensures
        last_error matches Some(e) ==> r.1@ == e@,
        last_error is None ==> exists|ts: Seq<char>| r.1@ == #[trigger] failure_text(false, ts),
        entries_view(final(states)@) == states_after_failure(entries_view(old(states)@), is_crash, r.1@),
        names_unique(entries_view(old(states)@)) ==> names_unique(entries_view(final(states)@)),
        r.0@.map_values(|n: String| n@) == failed_names(entries_view(old(states)@), is_crash),
{
    let error: String = match last_error {
        Some(e) => e.clone(),
        None => {
            let ts = local_time_stamp();
            load_failure_message(false, ts.as_str())
        },
    };
    let ghost old_view = entries_view(states@);
    let mut failed: Vec<String> = Vec::new();
    let mut i: usize = 0;
    assert(old_view.take(0) == Seq::<(Seq<char>, ModelStateView)>::empty());
    while i < states.len()
        invariant
            i <= states.len(),
            states@.len() == old_view.len(),
            entries_view(states@).skip(i as int) == old_view.skip(i as int),
            entries_view(states@).take(i as int) == states_after_failure(old_view.take(i as int), is_crash, error@),
            failed@.map_values(|n: String| n@) == failed_names(old_view.take(i as int), is_crash),
        decreases states.len() - i,
    {
        let ghost prev = entries_view(states@);
        assert(prev[i as int] == old_view.skip(i as int)[0]);
        assert(old_view.take(i + 1).drop_last() == old_view.take(i as int));
        assert(old_view.take(i + 1).last() == old_view[i as int]);
        let fails = match &states[i].1 {
            ModelState::Loading => true,
            ModelState::Loaded { .. } => is_crash,
            _ => false,
        };
        if fails {
            let name = states[i].0.clone();
            failed.push(name.clone());
            states.set(i, (name, ModelState::Failed { error: error.clone() }));
        }
        let ghost now = entries_view(states@);
        assert(now[i as int] == (old_view[i as int].0, after_failure(old_view[i as int].1, is_crash, error@)));
        assert(forall|j: int| 0 <= j < old_view.len() && j != i ==> now[j] == prev[j]);
        assert forall|j: int| i + 1 <= j < old_view.len() implies now[j] == old_view[j] by {
            assert(prev.skip(i as int)[j - i] == old_view.skip(i as int)[j - i]);
        }
        assert forall|j: int| 0 <= j < i implies now[j] == (old_view[j].0, after_failure(old_view[j].1, is_crash, error@)) by {
            assert(prev.take(i as int)[j] == states_after_failure(old_view.take(i as int), is_crash, error@)[j]);
        }
        assert(failed@.map_values(|n: String| n@) =~= failed_names(old_view.take(i + 1), is_crash));
        assert(now.skip(i + 1) =~= old_view.skip(i + 1));
        assert(now.take(i + 1) =~= states_after_failure(old_view.take(i + 1), is_crash, error@));
        i = i + 1;
    }
    assert(old_view.take(old_view.len() as int) == old_view);
    assert(entries_view(states@) =~= entries_view(states@).take(i as int));
    (failed, error)
}

// ───────────────────────── idleness ─────────────────────────

/// What tells the event loop whether it can wait longer for input.
#[derive(Debug, Clone, Copy, PartialEq, Eq, Structural)]
pub struct IdleInputs {
    pub downloading: bool,
    pub loading: bool,
    pub bench_tune_running: bool,
    pub spawn_task_running: bool,
    pub bench_tune_task_running: bool,
    pub pending_kill: bool,
    pub pending_api_load: bool,
    pub pending_api_unload: bool,
    pub backend_resolving: bool,
    pub backend_resolve_running: bool,
    /// Some visible scrolling text still moves.
    pub text_scroll_active: bool,
    /// A confirmation dialog is open.
    pub confirmation_open: bool,
}

/// The interface is idle when none of the above holds.
pub fn is_truly_idle(i: &IdleInputs) -> (r: bool)
    ensures
        r == !(i.downloading || i.loading || i.bench_tune_running || i.spawn_task_running
            || i.bench_tune_task_running || i.pending_kill || i.pending_api_load || i.pending_api_unload
            || i.backend_resolving || i.backend_resolve_running || i.text_scroll_active || i.confirmation_open),
{
    if i.downloading {
        return false;
    }
    if i.loading {
        return false;
    }
    if i.bench_tune_running {
        return false;
    }
    if i.spawn_task_running {
        return false;
    }
    if i.bench_tune_task_running {
        return false;
    }
    if i.pending_kill {
        return false;
    }
    if i.pending_api_load {
        return false;
    }
    if i.pending_api_unload {
        return false;
    }
    if i.backend_resolving {
        return false;
    }
    if i.backend_resolve_running {
        return false;
    }
    if i.text_scroll_active {
        return false;
    }
    if i.confirmation_open {
        return false;
    }
    true
}

} // verus!
