//! How the model states follow the server: a load completing, the server stopping or
//! exiting, a server starting, and what becomes of a queued load or unload.
use vstd::prelude::*;
use crate::model_state::{entries_view, names_unique, ModelState, ModelStateView};
use crate::server_settings::ServerMode;
use crate::text::str_eq;

verus! {

/// The entries the server itself puts in the list while it starts.
pub open spec fn is_server_entry(name: Seq<char>) -> bool {
    name == "llama-server"@ || name == "Router"@
}

/// The states once the server reports its models ready on `port`, process `pid`: every
/// loading model is loaded, but the server's own entries, which go.
pub open spec fn completed_states(s: Seq<(Seq<char>, ModelStateView)>, port: u16, pid: u32) -> Seq<(Seq<char>, ModelStateView)>
    decreases s.len(),
{
    if s.len() == 0 {
        seq![]
    } else {
        let r = completed_states(s.drop_last(), port, pid);
        let e = s.last();
        if e.1 is Loading {
            if is_server_entry(e.0) { r } else { r.push((e.0, ModelStateView::Loaded { port, pid })) }
        } else {
            r.push(e)
        }
    }
}

/// The list of served models after the completion: each newly loaded model is added
/// once, at the end.
pub open spec fn served_after_completion(s: Seq<(Seq<char>, ModelStateView)>, served: Seq<Seq<char>>) -> Seq<Seq<char>>
    decreases s.len(),
{
    if s.len() == 0 {
        served
    } else {
        let acc = served_after_completion(s.drop_last(), served);
        let e = s.last();
        if e.1 is Loading && !is_server_entry(e.0) && !acc.contains(e.0) { acc.push(e.0) } else { acc }
    }
}

pub open spec fn names_view(v: Seq<String>) -> Seq<Seq<char>> {
    v.map_values(|n: String| n@)
}

fn copy_state(s: &ModelState) -> (r: ModelState)
    ensures
        r.view() == s.view(),
{
    match s {
        ModelState::Available => ModelState::Available,
        ModelState::Loading => ModelState::Loading,
        ModelState::Loaded { port, pid } => ModelState::Loaded { port: *port, pid: *pid },
        ModelState::Failed { error } => ModelState::Failed { error: error.clone() },
        ModelState::Benchmarking => ModelState::Benchmarking,
    }
}

fn names_contain(names: &Vec<String>, name: &str) -> (r: bool)
    ensures
        r == names_view(names@).contains(name@),
{
    let mut i: usize = 0;
    while i < names.len()
        invariant
            i <= names.len(),
            forall|j: int| 0 <= j < i ==> names@[j]@ != name@,
        decreases names.len() - i,
    {
        if str_eq(names[i].as_str(), name) {
            assert(names_view(names@)[i as int] == name@);
            return true;
        }
        i = i + 1;
    }
    assert forall|j: int| 0 <= j < names_view(names@).len() implies names_view(names@)[j] != name@ by {
        assert(names_view(names@)[j] == names@[j]@);
    }
    false
}

/// The server reported its models ready (see `completed_states`); the newly loaded
/// models join `served` (see `served_after_completion`).
pub fn complete_loading(states: &mut Vec<(String, ModelState)>, served: &mut Vec<String>, port: u16, pid: u32)
    ensures
        entries_view(final(states)@) == completed_states(entries_view(old(states)@), port, pid),
        names_unique(entries_view(old(states)@)) ==> names_unique(entries_view(final(states)@)),
        names_view(final(served)@) == served_after_completion(entries_view(old(states)@), names_view(old(served)@)),
{
    let ghost ov = entries_view(states@);
    let ghost os = names_view(served@);
    let mut out: Vec<(String, ModelState)> = Vec::new();
    let mut i: usize = 0;
    assert(ov.take(0) == Seq::<(Seq<char>, ModelStateView)>::empty());
    while i < states.len()
        invariant
            i <= states.len(),
            ov == entries_view(states@),
            os == names_view(old(served)@),
            entries_view(out@) == completed_states(ov.take(i as int), port, pid),
            names_view(served@) == served_after_completion(ov.take(i as int), os),
        decreases states.len() - i,
    {
        assert(ov.take(i + 1).drop_last() == ov.take(i as int));
        assert(ov.take(i + 1).last() == ov[i as int]);
        assert(ov[i as int] == (states@[i as int].0@, states@[i as int].1.view()));
        let name = states[i].0.as_str();
        let ghost before_out = entries_view(out@);
        let ghost before_served = names_view(served@);
        match &states[i].1 {
            ModelState::Loading => {
                if !(str_eq(name, "llama-server") || str_eq(name, "Router")) {
                    out.push((states[i].0.clone(), ModelState::Loaded { port, pid }));
                    assert(entries_view(out@) =~= before_out.push((name@, ModelStateView::Loaded { port, pid })));
                    if !names_contain(served, name) {
                        served.push(states[i].0.clone());
                        assert(names_view(served@) =~= before_served.push(name@));
                    }
                }
            },
            other => {
                out.push((states[i].0.clone(), copy_state(other)));
                assert(entries_view(out@) =~= before_out.push(ov[i as int]));
            },
        }
        i = i + 1;
    }
    assert(ov.take(ov.len() as int) == ov);
    proof {
        if names_unique(ov) {
            lemma_completed_unique(ov, port, pid);
        }
    }
    *states = out;
}

/// Every model that was neither available nor failed is available again.
pub open spec fn stopped_states(s: Seq<(Seq<char>, ModelStateView)>) -> Seq<(Seq<char>, ModelStateView)> {
    s.map_values(|e: (Seq<char>, ModelStateView)|
        if e.1 is Available || e.1 is Failed { e } else { (e.0, ModelStateView::Available) })
}

/// The server was stopped: see `stopped_states` (the application also empties the list
/// of served models).
pub fn stop_server_states(states: &mut Vec<(String, ModelState)>)
    ensures
        entries_view(final(states)@) == stopped_states(entries_view(old(states)@)),
        names_unique(entries_view(old(states)@)) ==> names_unique(entries_view(final(states)@)),
{
    let ghost ov = entries_view(states@);
    let mut i: usize = 0;
    while i < states.len()
        invariant
            i <= states.len(),
            states@.len() == ov.len(),
            forall|j: int| 0 <= j < i ==> entries_view(states@)[j] == stopped_states(ov)[j],
            forall|j: int| i <= j < states@.len() ==> entries_view(states@)[j] == ov[j],
        decreases states.len() - i,
    {
        let ghost prev = entries_view(states@);
        let keep = match &states[i].1 {
            ModelState::Available | ModelState::Failed { .. } => true,
            _ => false,
        };
        if !keep {
            let name = states[i].0.clone();
            states.set(i, (name, ModelState::Available));
        }
        assert forall|j: int| 0 <= j < states@.len() && j != i implies entries_view(states@)[j] == prev[j] by {}
        i = i + 1;
    }
    assert(entries_view(states@) =~= stopped_states(ov));
}

/// Every model is available.
pub open spec fn all_available(s: Seq<(Seq<char>, ModelStateView)>) -> Seq<(Seq<char>, ModelStateView)> {
    s.map_values(|e: (Seq<char>, ModelStateView)| (e.0, ModelStateView::Available))
}

/// The server process exited: outside a benchmark tuning run every model is available
/// again (the application also forgets the loading progress).
pub fn server_exit_states(states: &mut Vec<(String, ModelState)>, bench_tune_running: bool)
    ensures
        entries_view(final(states)@) == (if bench_tune_running { entries_view(old(states)@) } else { all_available(entries_view(old(states)@)) }),
        names_unique(entries_view(old(states)@)) ==> names_unique(entries_view(final(states)@)),
{
    if bench_tune_running {
        return;
    }
    let ghost ov = entries_view(states@);
    let mut i: usize = 0;
    while i < states.len()
        invariant
            i <= states.len(),
            states@.len() == ov.len(),
            forall|j: int| 0 <= j < i ==> entries_view(states@)[j] == all_available(ov)[j],
            forall|j: int| i <= j < states@.len() ==> entries_view(states@)[j] == ov[j],
        decreases states.len() - i,
    {
        let ghost prev = entries_view(states@);
        let name = states[i].0.clone();
        states.set(i, (name, ModelState::Available));
        assert forall|j: int| 0 <= j < states@.len() && j != i implies entries_view(states@)[j] == prev[j] by {}
        i = i + 1;
    }
    assert(entries_view(states@) =~= all_available(ov));
}

/// `s` with `name` set to `v`: the entry replaced where the name is listed, else added.
pub open spec fn with_state(s: Seq<(Seq<char>, ModelStateView)>, name: Seq<char>, v: ModelStateView) -> Seq<(Seq<char>, ModelStateView)> {
    if exists|i: int| 0 <= i < s.len() && s[i].0 == name {
        s.map_values(|e: (Seq<char>, ModelStateView)| if e.0 == name { (e.0, v) } else { e })
    } else {
        s.push((name, v))
    }
}

/// Setting one model's state keeps each model listed once.
pub proof fn law_set_state_keeps_names_unique(s: Seq<(Seq<char>, ModelStateView)>, name: Seq<char>, v: ModelStateView)
    requires
        names_unique(s),
    ensures
        names_unique(with_state(s, name, v)),
{
    let t = with_state(s, name, v);
    if exists|i: int| 0 <= i < s.len() && s[i].0 == name {
        assert forall|i: int, j: int| 0 <= i < j < t.len() implies #[trigger] t[i].0 != #[trigger] t[j].0 by {
            assert(t[i].0 == s[i].0);
            assert(t[j].0 == s[j].0);
        }
    } else {
        assert forall|i: int, j: int| 0 <= i < j < t.len() implies #[trigger] t[i].0 != #[trigger] t[j].0 by {
            if j == s.len() {
                assert(t[i] == s[i]);
            } else {
                assert(t[i] == s[i]);
                assert(t[j] == s[j]);
            }
        }
    }
}

/// Completing a load keeps each model listed once: the names left are names of before.
pub proof fn lemma_completed_unique(s: Seq<(Seq<char>, ModelStateView)>, port: u16, pid: u32)
    requires
        names_unique(s),
    ensures
        names_unique(completed_states(s, port, pid)),
        forall|k: int| 0 <= k < completed_states(s, port, pid).len() ==>
            exists|i: int| 0 <= i < s.len() && s[i].0 == #[trigger] completed_states(s, port, pid)[k].0,
    decreases s.len(),
{
    if s.len() > 0 {
        let d = s.drop_last();
        assert(names_unique(d)) by {
            assert forall|i: int, j: int| 0 <= i < j < d.len() implies #[trigger] d[i].0 != #[trigger] d[j].0 by {
                assert(d[i] == s[i] && d[j] == s[j]);
            }
        }
        lemma_completed_unique(d, port, pid);
        let r = completed_states(d, port, pid);
        let c = completed_states(s, port, pid);
        let e = s.last();
        assert forall|k: int| 0 <= k < r.len() implies #[trigger] r[k].0 != e.0 by {
            let i = choose|i: int| 0 <= i < d.len() && d[i].0 == r[k].0;
            assert(d[i] == s[i]);
            assert(s[i].0 != s[s.len() - 1].0);
        }
        if c.len() == r.len() + 1 {
            assert forall|i: int, j: int| 0 <= i < j < c.len() implies #[trigger] c[i].0 != #[trigger] c[j].0 by {
                if j == r.len() {
                    assert(c[i] == r[i]);
                    assert(c[j].0 == e.0);
                } else {
                    assert(c[i] == r[i] && c[j] == r[j]);
                }
            }
            assert forall|k: int| 0 <= k < c.len() implies
                exists|i: int| 0 <= i < s.len() && s[i].0 == #[trigger] c[k].0 by {
                if k == r.len() {
                    assert(s[s.len() - 1].0 == c[k].0);
                } else {
                    assert(c[k] == r[k]);
                    let i = choose|i: int| 0 <= i < d.len() && d[i].0 == r[k].0;
                    assert(s[i] == d[i]);
                }
            }
        } else {
            assert(c == r);
            assert forall|k: int| 0 <= k < c.len() implies
                exists|i: int| 0 <= i < s.len() && s[i].0 == #[trigger] c[k].0 by {
                let i = choose|i: int| 0 <= i < d.len() && d[i].0 == r[k].0;
                assert(s[i] == d[i]);
            }
        }
    }
}

/// Sets the state of model `name` (see `with_state`).
pub fn set_state(states: &mut Vec<(String, ModelState)>, name: &str, v: ModelState)
    ensures
        entries_view(final(states)@) == with_state(entries_view(old(states)@), name@, v.view()),
        names_unique(entries_view(old(states)@)) ==> names_unique(entries_view(final(states)@)),
{
    let ghost ov = entries_view(states@);
    let ghost vv = v.view();
    let mut found = false;
    let mut i: usize = 0;
    while i < states.len()
        invariant
            i <= states.len(),
            states@.len() == ov.len(),
            vv == v.view(),
            found == exists|j: int| 0 <= j < i && ov[j].0 == name@,
            forall|j: int| 0 <= j < i ==> entries_view(states@)[j] == (if ov[j].0 == name@ { (ov[j].0, vv) } else { ov[j] }),
            forall|j: int| i <= j < states@.len() ==> entries_view(states@)[j] == ov[j],
        decreases states.len() - i,
    {
        let ghost prev = entries_view(states@);
        assert(prev[i as int] == ov[i as int]);
        assert(ov[i as int].0 == states@[i as int].0@);
        if str_eq(states[i].0.as_str(), name) {
            let n = states[i].0.clone();
            states.set(i, (n, copy_state(&v)));
            found = true;
            assert(ov[i as int].0 == name@);
            assert(entries_view(states@)[i as int] == (ov[i as int].0, vv));
        } else {
            assert(entries_view(states@)[i as int] == ov[i as int]);
            assert(!(exists|j: int| 0 <= j < i + 1 && ov[j].0 == name@) <==> !(exists|j: int| 0 <= j < i && ov[j].0 == name@)) by {
                if exists|j: int| 0 <= j < i + 1 && ov[j].0 == name@ {
                    let j = choose|j: int| 0 <= j < i + 1 && ov[j].0 == name@;
                    assert(j != i);
                }
            }
        }
        assert forall|j: int| 0 <= j < states@.len() && j != i implies entries_view(states@)[j] == prev[j] by {}
        assert forall|j: int| 0 <= j < i + 1 implies entries_view(states@)[j] == (if ov[j].0 == name@ { (ov[j].0, vv) } else { ov[j] }) by {
            if j < i {
                assert(entries_view(states@)[j] == prev[j]);
            }
        }
        i = i + 1;
    }
    if found {
        assert(entries_view(states@) =~= ov.map_values(|e: (Seq<char>, ModelStateView)| if e.0 == name@ { (e.0, vv) } else { e }));
    } else {
        let ghost before = entries_view(states@);
        assert(before =~= ov);
        states.push((String::from_str(name), v));
        assert(entries_view(states@) =~= ov.push((name@, vv)));
    }
}

/// The state a model gets when a server starts with it: benchmarking in the benchmark
/// modes, loading otherwise.
pub fn spawn_state(mode: ServerMode) -> (r: ModelState)
    ensures
        r.view() == (if mode == ServerMode::Bench || mode == ServerMode::BenchTune { ModelStateView::Benchmarking } else { ModelStateView::Loading }),
{
    if mode == ServerMode::Bench || mode == ServerMode::BenchTune {
        ModelState::Benchmarking
    } else {
        ModelState::Loading
    }
}

/// The name shown for a server start: the model's, or `Router` without a model.
pub fn spawn_display_name(model: Option<&str>) -> (r: String)
    ensures
        r@ == (match model { Some(m) => m@, None => "Router"@ }),
{
    match model {
        Some(m) => String::from_str(m),
        None => String::from_str("Router"),
    }
}

// ───────────────────────── queued loads and unloads ─────────────────────────

/// What becomes of a load queued for the running server.
#[derive(Debug, Clone, Copy, PartialEq, Eq, Structural)]
pub enum QueuedLoad {
    /// Nothing queued, or the server is not ready yet: keep waiting.
    Wait,
    /// Send the load request; the model is loading.
    Send,
    /// No server and none starting: forget the queued load.
    Drop,
}

/// A queued load is sent once the server listens (or has completed a load), dropped when
/// no server runs or starts.
pub open spec fn queued_load(queued: bool, server_running: bool, server_ready: bool, server_starting: bool) -> QueuedLoad {
    if !queued {
        QueuedLoad::Wait
    } else if server_running {
        if server_ready { QueuedLoad::Send } else { QueuedLoad::Wait }
    } else if !server_starting {
        QueuedLoad::Drop
    } else {
        QueuedLoad::Wait
    }
}

pub fn decide_queued_load(queued: bool, server_running: bool, server_ready: bool, server_starting: bool) -> (r: QueuedLoad)
    ensures
        r == queued_load(queued, server_running, server_ready, server_starting),
{
    if !queued {
        QueuedLoad::Wait
    } else if server_running {
        if server_ready { QueuedLoad::Send } else { QueuedLoad::Wait }
    } else if !server_starting {
        QueuedLoad::Drop
    } else {
        QueuedLoad::Wait
    }
}

/// What becomes of an unload queued (once its confirmation is answered).
#[derive(Debug, Clone, Copy, PartialEq, Eq, Structural)]
pub enum QueuedUnload {
    /// Nothing queued, or the confirmation is still shown.
    Wait,
    /// No server runs: the queued unload is forgotten.
    Drop,
    /// A server holding one model: stop it.
    KillServer,
    /// A router: ask it to unload the model (then stop it when none is left).
    RequestUnload,
}

pub open spec fn queued_unload(confirmation_shown: bool, queued: bool, server_running: bool, mode: ServerMode) -> QueuedUnload {
    if confirmation_shown || !queued {
        QueuedUnload::Wait
    } else if !server_running {
        QueuedUnload::Drop
    } else if mode == ServerMode::Normal {
        QueuedUnload::KillServer
    } else {
        QueuedUnload::RequestUnload
    }
}

pub fn decide_queued_unload(confirmation_shown: bool, queued: bool, server_running: bool, mode: ServerMode) -> (r: QueuedUnload)
    ensures
        r == queued_unload(confirmation_shown, queued, server_running, mode),
{
    if confirmation_shown || !queued {
        QueuedUnload::Wait
    } else if !server_running {
        QueuedUnload::Drop
    } else if mode == ServerMode::Normal {
        QueuedUnload::KillServer
    } else {
        QueuedUnload::RequestUnload
    }
}

/// The served models but `name`, in order.
pub open spec fn without(served: Seq<Seq<char>>, name: Seq<char>) -> Seq<Seq<char>> {
    served.filter(|n: Seq<char>| n != name)
}

/// The unloaded model is available again and no longer served.
pub fn finish_unload(states: &mut Vec<(String, ModelState)>, served: &mut Vec<String>, name: &str)
    ensures
        entries_view(final(states)@) == with_state(entries_view(old(states)@), name@, ModelStateView::Available),
        names_unique(entries_view(old(states)@)) ==> names_unique(entries_view(final(states)@)),
        names_view(final(served)@) == without(names_view(old(served)@), name@),
{
    set_state(states, name, ModelState::Available);
    let ghost os = names_view(served@);
    let mut kept: Vec<String> = Vec::new();
    let mut i: usize = 0;
    assert(os.take(0) == Seq::<Seq<char>>::empty());
    while i < served.len()
        invariant
            i <= served.len(),
            os == names_view(served@),
            names_view(kept@) == os.take(i as int).filter(|n: Seq<char>| n != name@),
        decreases served.len() - i,
    {
        assert(os.take(i + 1).drop_last() == os.take(i as int));
        assert(os.take(i + 1).last() == served@[i as int]@);
        proof {
            reveal(Seq::filter);
        }
        if !str_eq(served[i].as_str(), name) {
            let ghost before = names_view(kept@);
            kept.push(served[i].clone());
            assert(names_view(kept@) =~= before.push(served@[i as int]@));
        }
        i = i + 1;
    }
    assert(os.take(os.len() as int) == os);
    *served = kept;
}

/// After a router unloaded a model: it is stopped when it lists no model (`listed` is the
/// count it listed, when it answered) or no model is left served.
pub fn router_should_stop(listed: Option<usize>, none_served: bool) -> (r: bool)
    ensures
        r == (listed == Some(0usize) || none_served),
{
    match listed {
        Some(0) => true,
        _ => none_served,
    }
}


// ───────────────────────── laws ─────────────────────────

/// Once the server reports its models ready, no model is left loading, and every model
/// that was loading (but the server's own entries) is loaded on that server.
pub proof fn law_completion_leaves_nothing_loading(s: Seq<(Seq<char>, ModelStateView)>, port: u16, pid: u32)
    ensures
        forall|i: int| 0 <= i < completed_states(s, port, pid).len() ==> !(#[trigger] completed_states(s, port, pid)[i].1 is Loading),
        forall|i: int| 0 <= i < s.len() && s[i].1 is Loading && !is_server_entry(s[i].0) ==>
            #[trigger] completed_states(s, port, pid).contains((s[i].0, ModelStateView::Loaded { port, pid })),
    decreases s.len(),
{
    if s.len() > 0 {
        law_completion_leaves_nothing_loading(s.drop_last(), port, pid);
        let r = completed_states(s.drop_last(), port, pid);
        assert forall|i: int| 0 <= i < s.len() && s[i].1 is Loading && !is_server_entry(s[i].0) implies
            #[trigger] completed_states(s, port, pid).contains((s[i].0, ModelStateView::Loaded { port, pid })) by {
            let c = completed_states(s, port, pid);
            if i < s.len() - 1 {
                assert(s.drop_last()[i] == s[i]);
                assert(r.contains((s[i].0, ModelStateView::Loaded { port, pid })));
                let k = choose|k: int| 0 <= k < r.len() && r[k] == (s[i].0, ModelStateView::Loaded { port, pid });
                assert(c[k] == r[k]);
            } else {
                assert(c[c.len() - 1] == (s[i].0, ModelStateView::Loaded { port, pid }));
            }
        }
    }
}

/// The list of served models never lists a model twice after a completion, when it did
/// not before.
pub proof fn law_served_without_repeats(s: Seq<(Seq<char>, ModelStateView)>, served: Seq<Seq<char>>)
    requires
        served.no_duplicates(),
    ensures
        served_after_completion(s, served).no_duplicates(),
    decreases s.len(),
{
    if s.len() > 0 {
        law_served_without_repeats(s.drop_last(), served);
    }
}

/// After the server is stopped, every model is available or failed.
pub proof fn law_stop_leaves_nothing_running(s: Seq<(Seq<char>, ModelStateView)>, i: int)
    requires
        0 <= i < s.len(),
    ensures
        stopped_states(s)[i].1 is Available || stopped_states(s)[i].1 is Failed,
        stopped_states(s)[i].0 == s[i].0,
{
}

/// An unloaded model is no longer served, and the other served models stay.
pub proof fn law_unloaded_not_served(served: Seq<Seq<char>>, name: Seq<char>)
    ensures
        !without(served, name).contains(name),
        forall|i: int| 0 <= i < served.len() && served[i] != name ==> #[trigger] without(served, name).contains(served[i]),
{
    broadcast use vstd::seq_lib::group_filter_ensures;
    let w = without(served, name);
    if w.contains(name) {
        let k = choose|k: int| 0 <= k < w.len() && w[k] == name;
        assert(w[k] != name);
    }
    assert forall|i: int| 0 <= i < served.len() && served[i] != name implies #[trigger] w.contains(served[i]) by {
        served.lemma_filter_contains(|n: Seq<char>| n != name, i);
    }
}

} // verus!
