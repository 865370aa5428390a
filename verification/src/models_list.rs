//! The local models list: filtering by name, moving the selection through the sorted
//! list, sorting, and what loading or unloading the selected model comes to.
use vstd::prelude::*;
use crate::keys::{Key, KeyCode};
use crate::model_state::{ModelState, ModelStateView};
use crate::server_settings::ServerMode;
use crate::text::{chars_of, lowercase_of, pop_char, push_char, seq_contains, str_contains, str_eq, to_lowercase};
use crate::types::ModelsMode;

verus! {

// ───────────────────────── filtering ─────────────────────────

/// The positions of the models whose lower-cased name contains `filter_lower` (all of
/// them when it is empty), in order.
pub open spec fn filtered_indices(names: Seq<Seq<char>>, filter_lower: Seq<char>) -> Seq<usize>
    decreases names.len(),
{
    if names.len() == 0 {
        seq![]
    } else {
        let r = filtered_indices(names.drop_last(), filter_lower);
        if filter_lower.len() == 0 || seq_contains(lowercase_of(names.last()), filter_lower) {
            r.push((names.len() - 1) as usize)
        } else {
            r
        }
    }
}

/// The models whose display name contains the filter text, ignoring case, by position.
pub fn get_filtered_model_indices(names: &Vec<String>, filter: &str) -> (r: Vec<usize>)
    ensures
        r@ == filtered_indices(names.deep_view(), lowercase_of(filter@)),
{
    let f = to_lowercase(filter);
    let all = f.as_str().is_empty();
    let mut r: Vec<usize> = Vec::new();
    let mut i: usize = 0;
    assert(names.deep_view().take(0) == Seq::<Seq<char>>::empty());
    while i < names.len()
        invariant
            i <= names.len(),
            f@ == lowercase_of(filter@),
            all == (f@.len() == 0),
            r@ == filtered_indices(names.deep_view().take(i as int), f@),
        decreases names.len() - i,
    {
        let ghost dv = names.deep_view();
        assert(dv.take(i + 1).drop_last() == dv.take(i as int));
        assert(dv.take(i + 1).last() == names@[i as int]@);
        let keep = if all {
            true
        } else {
            let lower = to_lowercase(names[i].as_str());
            str_contains(lower.as_str(), f.as_str())
        };
        if keep {
            r.push(i);
        }
        i = i + 1;
    }
    assert(names.deep_view().take(names.len() as int) == names.deep_view());
    r
}

// ───────────────────────── moving the selection ─────────────────────────

/// The first position of `x` in `s`, or -1.
pub open spec fn first_index(s: Seq<usize>, x: usize) -> int
    decreases s.len(),
{
    if s.len() == 0 {
        -1
    } else if s[0] == x {
        0
    } else {
        let r = first_index(s.drop_first(), x);
        if r < 0 { -1 } else { r + 1 }
    }
}

pub proof fn lemma_first_index(s: Seq<usize>, x: usize)
    ensures
        -1 <= first_index(s, x) < s.len(),
        first_index(s, x) >= 0 ==> s[first_index(s, x)] == x && forall|j: int| 0 <= j < first_index(s, x) ==> s[j] != x,
        first_index(s, x) < 0 ==> forall|j: int| 0 <= j < s.len() ==> s[j] != x,
    decreases s.len(),
{
    if s.len() > 0 && s[0] != x {
        lemma_first_index(s.drop_first(), x);
        assert forall|j: int| 0 < j < s.len() implies s[j] == s.drop_first()[j - 1] by {}
    }
}

/// The model selected after Up (`up`) or Down in the sorted list, when the selection
/// moves: the neighbour of the selected model, or the first model when none (or one not
/// in the list) is selected. `None` when it stays.
pub open spec fn moved_selection(sorted: Seq<usize>, selected: Option<usize>, up: bool) -> Option<usize> {
    match selected {
        Some(idx) => {
            let pos = first_index(sorted, idx);
            if pos >= 0 {
                if up {
                    if pos > 0 { Some(sorted[pos - 1]) } else { None }
                } else {
                    if pos + 1 < sorted.len() { Some(sorted[pos + 1]) } else { None }
                }
            } else if sorted.len() > 0 {
                Some(sorted[0])
            } else {
                None
            }
        },
        None => if sorted.len() > 0 { Some(sorted[0]) } else { None },
    }
}

fn position_of(sorted: &Vec<usize>, x: usize) -> (r: Option<usize>)
    ensures
        match r {
            Some(p) => p as int == first_index(sorted@, x) && p < sorted@.len(),
            None => first_index(sorted@, x) < 0,
        },
{
    proof {
        lemma_first_index(sorted@, x);
    }
    let mut i: usize = 0;
    while i < sorted.len()
        invariant
            i <= sorted.len(),
            forall|j: int| 0 <= j < i ==> sorted@[j] != x,
            -1 <= first_index(sorted@, x) < sorted@.len(),
            first_index(sorted@, x) >= 0 ==> sorted@[first_index(sorted@, x)] == x && forall|j: int|
                0 <= j < first_index(sorted@, x) ==> sorted@[j] != x,
            first_index(sorted@, x) < 0 ==> forall|j: int| 0 <= j < sorted@.len() ==> sorted@[j] != x,
        decreases sorted.len() - i,
    {
        if sorted[i] == x {
            return Some(i);
        }
        i = i + 1;
    }
    None
}

/// Moves the selection of the models list (see `moved_selection`); returns the new
/// selection when it moved, for the application to show that model.
pub fn move_selection(sorted: &Vec<usize>, selected: Option<usize>, up: bool) -> (r: Option<usize>)
    ensures
        r == moved_selection(sorted@, selected, up),
{
    match selected {
        Some(idx) => match position_of(sorted, idx) {
            Some(pos) => {
                if up {
                    if pos > 0 { Some(sorted[pos - 1]) } else { None }
                } else {
                    if pos < sorted.len() - 1 { Some(sorted[pos + 1]) } else { None }
                }
            },
            None => if sorted.len() > 0 { Some(sorted[0]) } else { None },
        },
        None => if sorted.len() > 0 { Some(sorted[0]) } else { None },
    }
}

// ───────────────────────── the name filter ─────────────────────────

/// What a key does while the name filter is typed: Esc clears and closes it, Enter
/// closes it, characters and Backspace edit it. The flag tells whether the filter text
/// changed (the list must be rebuilt).
pub open spec fn filter_step(filter: Seq<char>, key: Key) -> (bool, Seq<char>, bool) {
    match key.code {
        KeyCode::Esc => (false, seq![], true),
        KeyCode::Enter => (false, filter, false),
        KeyCode::Char(c) => (true, filter.push(c), true),
        KeyCode::Backspace => (true, if filter.len() > 0 { filter.drop_last() } else { filter }, true),
        _ => (true, filter, false),
    }
}

/// Keys of the name filter of the models list (see `filter_step`).
pub fn handle_local_filter_key(filtering: &mut bool, local_filter: &mut String, key: Key) -> (changed: bool)
    requires
        *old(filtering),
    ensures
        (*final(filtering), final(local_filter)@, changed) == filter_step(old(local_filter)@, key),
{
    match key.code {
        KeyCode::Esc => {
            *filtering = false;
            *local_filter = String::new();
            true
        },
        KeyCode::Enter => {
            *filtering = false;
            false
        },
        KeyCode::Char(c) => {
            push_char(local_filter, c);
            true
        },
        KeyCode::Backspace => {
            pop_char(local_filter);
            true
        },
        _ => false,
    }
}

// ───────────────────────── loading and unloading ─────────────────────────

/// How the model server is doing when a model is to be loaded.
#[derive(Debug, Clone, Copy, PartialEq, Eq, Structural)]
pub enum ServerStatus {
    NotRunning,
    Healthy,
    /// A server runs but does not answer its health check.
    Unresponsive,
}

/// What loading the selected model comes to.
#[derive(Debug, Clone, Copy, PartialEq, Eq, Structural)]
pub enum LoadPlan {
    /// A backend is being installed: wait.
    WaitForBackend,
    AlreadyLoaded,
    /// Benchmark tuning mode: open its setup first.
    OpenBenchTuneSetup,
    /// Start a router server without a model, then load the model through its API.
    StartRouter,
    /// Start a server with the model.
    StartWithModel,
    /// As many models as concurrent predictions allow are loaded or loading.
    LimitReached { active: usize, max: u32 },
    /// Load the model through the running server's API.
    LoadViaApi,
}

/// The number of models loaded or loading.
pub open spec fn active_count(states: Seq<ModelStateView>) -> nat
    decreases states.len(),
{
    if states.len() == 0 {
        0
    } else {
        active_count(states.drop_last()) + if states.last() is Loaded || states.last() is Loading { 1nat } else { 0 }
    }
}

pub open spec fn states_view(v: Seq<ModelState>) -> Seq<ModelStateView> {
    v.map_values(|s: ModelState| s.view())
}

/// Counts the models loaded or loading.
pub fn count_active(states: &Vec<ModelState>) -> (n: usize)
    ensures
        n as nat == active_count(states_view(states@)),
{
    let ghost sv = states_view(states@);
    let mut n: usize = 0;
    let mut i: usize = 0;
    assert(sv.take(0) == Seq::<ModelStateView>::empty());
    while i < states.len()
        invariant
            i <= states.len(),
            sv == states_view(states@),
            n as nat == active_count(sv.take(i as int)),
            n <= i,
        decreases states.len() - i,
    {
        assert(sv.take(i + 1).drop_last() == sv.take(i as int));
        assert(sv.take(i + 1).last() == states@[i as int].view());
        match &states[i] {
            ModelState::Loaded { .. } | ModelState::Loading => {
                n = n + 1;
            },
            _ => {},
        }
        i = i + 1;
    }
    assert(sv.take(states@.len() as int) == sv);
    n
}

/// What loading the selected model comes to, and whether an unresponsive server is to
/// be stopped first.
pub open spec fn load_plan(
    backend_resolving: bool,
    already_loaded: bool,
    status: ServerStatus,
    mode: ServerMode,
    active: usize,
    max_concurrent: Option<u32>,
) -> (LoadPlan, bool) {
    if backend_resolving {
        (LoadPlan::WaitForBackend, false)
    } else if already_loaded {
        (LoadPlan::AlreadyLoaded, false)
    } else {
        let restart = status == ServerStatus::Unresponsive;
        if status != ServerStatus::Healthy {
            if mode == ServerMode::BenchTune {
                (LoadPlan::OpenBenchTuneSetup, restart)
            } else if mode == ServerMode::Router {
                (LoadPlan::StartRouter, restart)
            } else {
                (LoadPlan::StartWithModel, restart)
            }
        } else {
            match max_concurrent {
                Some(m) => if active as u32 >= m {
                    (LoadPlan::LimitReached { active, max: m }, false)
                } else {
                    (LoadPlan::LoadViaApi, false)
                },
                None => (LoadPlan::LoadViaApi, false),
            }
        }
    }
}

/// Decides how to load the selected model (see `load_plan`): `already_loaded` tells
/// whether it is loaded, `status` how the server answers, `active` how many models are
/// loaded or loading, `max_concurrent` the limit of concurrent predictions.
pub fn decide_load(
    backend_resolving: bool,
    already_loaded: bool,
    status: ServerStatus,
    mode: ServerMode,
    active: usize,
    max_concurrent: Option<u32>,
) -> (r: (LoadPlan, bool))
    ensures
        r == load_plan(backend_resolving, already_loaded, status, mode, active, max_concurrent),
{
    if backend_resolving {
        return (LoadPlan::WaitForBackend, false);
    }
    if already_loaded {
        return (LoadPlan::AlreadyLoaded, false);
    }
    let restart = status == ServerStatus::Unresponsive;
    if status != ServerStatus::Healthy {
        if mode == ServerMode::BenchTune {
            (LoadPlan::OpenBenchTuneSetup, restart)
        } else if mode == ServerMode::Router {
            (LoadPlan::StartRouter, restart)
        } else {
            (LoadPlan::StartWithModel, restart)
        }
    } else {
        match max_concurrent {
            Some(m) => {
                if active as u32 >= m {
                    (LoadPlan::LimitReached { active, max: m }, false)
                } else {
                    (LoadPlan::LoadViaApi, false)
                }
            },
            None => (LoadPlan::LoadViaApi, false),
        }
    }
}

/// What `u` (unload) comes to.
#[derive(Debug, Clone, Copy, PartialEq, Eq, Structural)]
pub enum UnloadPlan {
    /// Ask to confirm unloading the selected model.
    Confirm,
    /// Report that the selected model is not loaded.
    NotLoaded,
    /// Ask for a loaded model to be selected.
    SelectLoadedModel,
    /// Nothing to do (a router without a server).
    Nothing,
    /// Report that no model is loaded.
    NoModelLoaded,
}

pub open spec fn unload_plan(selected: Option<bool>, server_running: bool, mode: ServerMode) -> UnloadPlan {
    match selected {
        Some(loaded) => if loaded { UnloadPlan::Confirm } else { UnloadPlan::NotLoaded },
        None => if server_running {
            UnloadPlan::SelectLoadedModel
        } else if mode == ServerMode::Router {
            UnloadPlan::Nothing
        } else {
            UnloadPlan::NoModelLoaded
        },
    }
}

/// Decides what `u` does: `selected` is whether the selected model is loaded (`None`
/// when no model is selected).
pub fn decide_unload(selected: Option<bool>, server_running: bool, mode: ServerMode) -> (r: UnloadPlan)
    ensures
        r == unload_plan(selected, server_running, mode),
{
    match selected {
        Some(loaded) => if loaded { UnloadPlan::Confirm } else { UnloadPlan::NotLoaded },
        None => if server_running {
            UnloadPlan::SelectLoadedModel
        } else if mode == ServerMode::Router {
            UnloadPlan::Nothing
        } else {
            UnloadPlan::NoModelLoaded
        },
    }
}

// ───────────────────────── keys of the models panel ─────────────────────────

/// What a key on the models panel asks of the application.
#[derive(Debug, Clone, Copy, PartialEq, Eq, Structural)]
pub enum ModelsKeyAction {
    Nothing,
    /// The name filter text changed: the list is to be rebuilt.
    FilterChanged,
    /// The selection moved to another model.
    SelectionChanged,
    /// A backend is being installed: report that loading must wait.
    WaitForBackend,
    /// Load model `i` (see `decide_load`, after asking the server for its health).
    Load(usize),
    /// What `u` comes to for the selected model.
    Unload(UnloadPlan),
    /// Ask to confirm deleting model `i`.
    ConfirmDelete(usize),
    /// Report that no model is selected to delete.
    NothingToDelete,
    /// Ctrl+D outside the models panel: report where deleting works.
    DeleteFromModelsPanel,
}

/// The model selected, when it is one of the `count` models.
pub open spec fn selected_model(selected: Option<usize>, count: nat) -> Option<usize> {
    match selected {
        Some(i) => if i < count { Some(i) } else { None },
        None => None,
    }
}

/// The filter state, the selection and the action after a key on the models panel.
/// While the name filter is typed it takes every key (see `filter_step`). Otherwise `f`
/// opens the filter in the list and selects the first model passing it when none is
/// selected; Up and Down move through `sorted`; Enter or `l` (outside the files view)
/// loads the selected model; `u` unloads (see `unload_plan`, `selected_loaded` telling
/// whether the selected model is loaded); Delete on the models panel, or Ctrl+D, asks to
/// delete the selected model.
pub open spec fn models_key_step(
    filtering: bool,
    filter: Seq<char>,
    selected: Option<usize>,
    names: Seq<Seq<char>>,
    sorted: Seq<usize>,
    list_mode: bool,
    files_mode: bool,
    models_panel: bool,
    backend_resolving: bool,
    selected_loaded: bool,
    server_running: bool,
    mode: ServerMode,
    key: Key,
) -> (bool, Seq<char>, Option<usize>, ModelsKeyAction) {
    let code = key.code;
    if filtering {
        let (f, t, changed) = filter_step(filter, key);
        (f, t, selected, if changed { ModelsKeyAction::FilterChanged } else { ModelsKeyAction::Nothing })
    } else if code == KeyCode::Char('f') {
        if list_mode {
            let first = filtered_indices(names, lowercase_of(filter));
            if selected is None && first.len() > 0 {
                (true, filter, Some(first[0]), ModelsKeyAction::SelectionChanged)
            } else {
                (true, filter, selected, ModelsKeyAction::Nothing)
            }
        } else {
            (filtering, filter, selected, ModelsKeyAction::Nothing)
        }
    } else if code == KeyCode::Up || code == KeyCode::Char('k') || code == KeyCode::Down || code == KeyCode::Char('j') {
        let up = code == KeyCode::Up || code == KeyCode::Char('k');
        match moved_selection(sorted, selected, up) {
            Some(m) => (filtering, filter, Some(m), ModelsKeyAction::SelectionChanged),
            None => (filtering, filter, selected, ModelsKeyAction::Nothing),
        }
    } else if (code == KeyCode::Enter || code == KeyCode::Char('l')) && !files_mode {
        (filtering, filter, selected, if backend_resolving {
            ModelsKeyAction::WaitForBackend
        } else {
            match selected_model(selected, names.len()) {
                Some(i) => ModelsKeyAction::Load(i),
                None => ModelsKeyAction::Nothing,
            }
        })
    } else if code == KeyCode::Char('u') {
        let sel = match selected_model(selected, names.len()) {
            Some(_) => Some(selected_loaded),
            None => None,
        };
        (filtering, filter, selected, ModelsKeyAction::Unload(unload_plan(sel, server_running, mode)))
    } else if (code == KeyCode::Delete && models_panel) || (code == KeyCode::Char('d') && key.ctrl) {
        (filtering, filter, selected, if !models_panel {
            ModelsKeyAction::DeleteFromModelsPanel
        } else {
            match selected_model(selected, names.len()) {
                Some(i) => ModelsKeyAction::ConfirmDelete(i),
                None => ModelsKeyAction::NothingToDelete,
            }
        })
    } else {
        (filtering, filter, selected, ModelsKeyAction::Nothing)
    }
}

/// Keys of the models panel (see `models_key_step`): `names` are the display names of the
/// local models, `sorted` the list as shown (positions in `names`). The application
/// carries out the action.
pub fn handle_models_key(
    filtering: &mut bool,
    local_filter: &mut String,
    selected: &mut Option<usize>,
    names: &Vec<String>,
    sorted: &Vec<usize>,
    list_mode: bool,
    files_mode: bool,
    models_panel: bool,
    backend_resolving: bool,
    selected_loaded: bool,
    server_running: bool,
    mode: ServerMode,
    key: Key,
) -> (r: ModelsKeyAction)
    ensures
        (*final(filtering), final(local_filter)@, *final(selected), r) == models_key_step(
            *old(filtering),
            old(local_filter)@,
            *old(selected),
            names.deep_view(),
            sorted@,
            list_mode,
            files_mode,
            models_panel,
            backend_resolving,
            selected_loaded,
            server_running,
            mode,
            key,
        ),
{
    let code = key.code;
    let current = match *selected {
        Some(i) => if i < names.len() { Some(i) } else { None },
        None => None,
    };
    if *filtering {
        let changed = handle_local_filter_key(filtering, local_filter, key);
        if changed { ModelsKeyAction::FilterChanged } else { ModelsKeyAction::Nothing }
    } else if code == KeyCode::Char('f') {
        if list_mode {
            *filtering = true;
            if selected.is_none() {
                let first = get_filtered_model_indices(names, local_filter.as_str());
                if first.len() > 0 {
                    *selected = Some(first[0]);
                    return ModelsKeyAction::SelectionChanged;
                }
            }
        }
        ModelsKeyAction::Nothing
    } else if code == KeyCode::Up || code == KeyCode::Char('k') || code == KeyCode::Down || code == KeyCode::Char('j') {
        let up = code == KeyCode::Up || code == KeyCode::Char('k');
        match move_selection(sorted, *selected, up) {
            Some(m) => {
                *selected = Some(m);
                ModelsKeyAction::SelectionChanged
            },
            None => ModelsKeyAction::Nothing,
        }
    } else if (code == KeyCode::Enter || code == KeyCode::Char('l')) && !files_mode {
        if backend_resolving {
            ModelsKeyAction::WaitForBackend
        } else {
            match current {
                Some(i) => ModelsKeyAction::Load(i),
                None => ModelsKeyAction::Nothing,
            }
        }
    } else if code == KeyCode::Char('u') {
        let sel = match current {
            Some(_) => Some(selected_loaded),
            None => None,
        };
        ModelsKeyAction::Unload(decide_unload(sel, server_running, mode))
    } else if (code == KeyCode::Delete && models_panel) || (code == KeyCode::Char('d') && key.ctrl) {
        if !models_panel {
            ModelsKeyAction::DeleteFromModelsPanel
        } else {
            match current {
                Some(i) => ModelsKeyAction::ConfirmDelete(i),
                None => ModelsKeyAction::NothingToDelete,
            }
        }
    } else {
        ModelsKeyAction::Nothing
    }
}

// ───────────────────────── sorting ─────────────────────────

/// How a list is ordered: by text (the display name), by text latest first (a date
/// written in ISO 8601), or by a number per item, highest first (the state, the quality
/// rank, the context length, a download count). Ties keep the list order.
#[derive(Debug, Clone, Copy, PartialEq, Eq, Structural)]
pub enum SortOrder {
    ByName,
    ByNameDesc,
    ByRankDesc,
}

/// `a` comes before `b` in the order of strings: compared character by character (by
/// code point, which is also the order of their UTF-8 bytes), a proper prefix first.
pub open spec fn name_lt(a: Seq<char>, b: Seq<char>) -> bool
    decreases a.len(),
{
    if a.len() == 0 {
        b.len() > 0
    } else if b.len() == 0 {
        false
    } else if a[0] != b[0] {
        a[0] < b[0]
    } else {
        name_lt(a.drop_first(), b.drop_first())
    }
}

pub proof fn lemma_name_lt_total(a: Seq<char>, b: Seq<char>)
    ensures
        a != b ==> name_lt(a, b) || name_lt(b, a),
        !(name_lt(a, b) && name_lt(b, a)),
        !name_lt(a, a),
    decreases a.len(),
{
    if a.len() > 0 && b.len() > 0 && a[0] == b[0] {
        lemma_name_lt_total(a.drop_first(), b.drop_first());
        if a != b {
            assert(a.drop_first() != b.drop_first()) by {
                if a.drop_first() == b.drop_first() {
                    assert forall|k: int| 0 <= k < a.len() implies a[k] == b[k] by {
                        if k > 0 {
                            assert(a[k] == a.drop_first()[k - 1]);
                            assert(b[k] == b.drop_first()[k - 1]);
                        }
                    }
                    assert(a =~= b);
                }
            }
        }
    }
    if a.len() > 0 {
        lemma_name_lt_total(a.drop_first(), a.drop_first());
    }
    if a.len() == 0 && b.len() == 0 {
        assert(a =~= b);
    }
}

pub proof fn lemma_name_lt_transitive(a: Seq<char>, b: Seq<char>, c: Seq<char>)
    requires
        name_lt(a, b),
        name_lt(b, c),
    ensures
        name_lt(a, c),
    decreases a.len(),
{
    if a.len() > 0 && b.len() > 0 && c.len() > 0 && a[0] == b[0] && b[0] == c[0] {
        lemma_name_lt_transitive(a.drop_first(), b.drop_first(), c.drop_first());
    }
}

/// `a` comes before `b` (two different models) in the sorted list.
pub open spec fn precedes(order: SortOrder, names: Seq<Seq<char>>, ranks: Seq<u64>, a: usize, b: usize) -> bool {
    match order {
        SortOrder::ByName => name_lt(names[a as int], names[b as int]) || (names[a as int] == names[b as int] && a < b),
        SortOrder::ByNameDesc => name_lt(names[b as int], names[a as int]) || (names[a as int] == names[b as int] && a < b),
        SortOrder::ByRankDesc => ranks[a as int] > ranks[b as int] || (ranks[a as int] == ranks[b as int] && a < b),
    }
}

pub proof fn lemma_precedes_order(order: SortOrder, names: Seq<Seq<char>>, ranks: Seq<u64>, a: usize, b: usize, c: usize)
    ensures
        a != b ==> precedes(order, names, ranks, a, b) || precedes(order, names, ranks, b, a),
        !(precedes(order, names, ranks, a, b) && precedes(order, names, ranks, b, a)),
        precedes(order, names, ranks, a, b) && precedes(order, names, ranks, b, c) ==> precedes(order, names, ranks, a, c),
{
    lemma_name_lt_total(names[a as int], names[b as int]);
    if precedes(order, names, ranks, a, b) && precedes(order, names, ranks, b, c) && order == SortOrder::ByName {
        if name_lt(names[a as int], names[b as int]) && name_lt(names[b as int], names[c as int]) {
            lemma_name_lt_transitive(names[a as int], names[b as int], names[c as int]);
        }
    }
    if precedes(order, names, ranks, a, b) && precedes(order, names, ranks, b, c) && order == SortOrder::ByNameDesc {
        if name_lt(names[b as int], names[a as int]) && name_lt(names[c as int], names[b as int]) {
            lemma_name_lt_transitive(names[c as int], names[b as int], names[a as int]);
        }
    }
}

/// `s` lists the models in the sorted order.
pub open spec fn sorted_in(order: SortOrder, names: Seq<Seq<char>>, ranks: Seq<u64>, s: Seq<usize>) -> bool {
    forall|i: int, j: int| 0 <= i < j < s.len() ==> precedes(order, names, ranks, #[trigger] s[i], #[trigger] s[j])
}

fn name_lt_exec(a: &str, b: &str) -> (r: bool)
    ensures
        r == name_lt(a@, b@),
{
    let x = chars_of(a);
    let y = chars_of(b);
    let mut i: usize = 0;
    assert(x@.skip(0) == x@);
    assert(y@.skip(0) == y@);
    loop
        invariant
            x@ == a@,
            y@ == b@,
            i <= x.len(),
            i <= y.len(),
            name_lt(a@, b@) == name_lt(x@.skip(i as int), y@.skip(i as int)),
        decreases x.len() - i,
    {
        if i == x.len() {
            return i < y.len();
        }
        if i == y.len() {
            return false;
        }
        assert(x@.skip(i as int)[0] == x@[i as int]);
        assert(y@.skip(i as int)[0] == y@[i as int]);
        if x[i] != y[i] {
            return x[i] < y[i];
        }
        assert(x@.skip(i as int).drop_first() == x@.skip(i + 1));
        assert(y@.skip(i as int).drop_first() == y@.skip(i + 1));
        i = i + 1;
    }
}

fn precedes_exec(order: SortOrder, names: &Vec<String>, ranks: &Vec<u64>, a: usize, b: usize) -> (r: bool)
    requires
        a < names.len(),
        b < names.len(),
        order == SortOrder::ByRankDesc ==> a < ranks.len() && b < ranks.len(),
    ensures
        r == precedes(order, names.deep_view(), ranks@, a, b),
{
    match order {
        SortOrder::ByName => {
            let na = names[a].as_str();
            let nb = names[b].as_str();
            assert(names.deep_view()[a as int] == names@[a as int]@);
            assert(names.deep_view()[b as int] == names@[b as int]@);
            name_lt_exec(na, nb) || (str_eq(na, nb) && a < b)
        },
        SortOrder::ByNameDesc => {
            let na = names[a].as_str();
            let nb = names[b].as_str();
            assert(names.deep_view()[a as int] == names@[a as int]@);
            assert(names.deep_view()[b as int] == names@[b as int]@);
            name_lt_exec(nb, na) || (str_eq(na, nb) && a < b)
        },
        SortOrder::ByRankDesc => ranks[a] > ranks[b] || (ranks[a] == ranks[b] && a < b),
    }
}

/// Sorts strictly increasing positions of the models list (insertion, which keeps the
/// list order among equals).
pub(crate) fn sort_indices(indices: &Vec<usize>, order: SortOrder, names: &Vec<String>, ranks: &Vec<u64>) -> (out: Vec<usize>)
    requires
        forall|i: int, j: int| 0 <= i < j < indices@.len() ==> indices@[i] < indices@[j],
        forall|i: int| 0 <= i < indices@.len() ==> indices@[i] < names.len(),
        order == SortOrder::ByRankDesc ==> ranks.len() == names.len(),
    ensures
        sorted_in(order, names.deep_view(), ranks@, out@),
        out@.to_multiset() == indices@.to_multiset(),
{
    broadcast use vstd::seq_lib::group_to_multiset_ensures;
    let ghost nv = names.deep_view();
    let mut out: Vec<usize> = Vec::new();
    let mut i: usize = 0;
    assert(indices@.take(0) =~= Seq::<usize>::empty());
    while i < indices.len()
        invariant
            i <= indices.len(),
            nv == names.deep_view(),
            forall|a: int, b: int| 0 <= a < b < indices@.len() ==> indices@[a] < indices@[b],
            forall|a: int| 0 <= a < indices@.len() ==> indices@[a] < names.len(),
            order == SortOrder::ByRankDesc ==> ranks.len() == names.len(),
            sorted_in(order, nv, ranks@, out@),
            out@.to_multiset() == indices@.take(i as int).to_multiset(),
            forall|k: int| 0 <= k < out@.len() ==> out@[k] < names.len(),
            i < indices.len() ==> forall|k: int| 0 <= k < out@.len() ==> out@[k] < indices@[i as int],
        decreases indices.len() - i,
    {
        let x = indices[i];
        let mut p: usize = 0;
        while p < out.len() && precedes_exec(order, names, ranks, out[p], x)
            invariant
                p <= out.len(),
                x < names.len(),
                order == SortOrder::ByRankDesc ==> ranks.len() == names.len(),
                forall|k: int| 0 <= k < out@.len() ==> out@[k] < names.len(),
                forall|k: int| 0 <= k < p ==> precedes(order, nv, ranks@, #[trigger] out@[k], x),
                nv == names.deep_view(),
            decreases out.len() - p,
        {
            p = p + 1;
        }
        let ghost before = out@;
        proof {
            assert forall|k: int| p <= k < before.len() implies precedes(order, nv, ranks@, x, #[trigger] before[k]) by {
                lemma_precedes_order(order, nv, ranks@, before[p as int], x, before[k]);
                lemma_precedes_order(order, nv, ranks@, x, before[p as int], before[k]);
                assert(before[k] < x);
                assert(before[p as int] < x);
                if k > p {
                    assert(precedes(order, nv, ranks@, before[p as int], before[k]));
                }
            }
        }
        out.insert(p, x);
        proof {
            assert(out@ == before.insert(p as int, x));
            assert forall|a: int, b: int| 0 <= a < b < out@.len() implies precedes(order, nv, ranks@, #[trigger] out@[a], #[trigger] out@[b]) by {
                if a < p && b == p {
                } else if a == p {
                    assert(out@[b] == before[b - 1]);
                } else if b < p {
                    assert(out@[a] == before[a] && out@[b] == before[b]);
                } else if a < p && b > p {
                    assert(out@[a] == before[a] && out@[b] == before[b - 1]);
                } else {
                    assert(out@[a] == before[a - 1] && out@[b] == before[b - 1]);
                }
            }
            assert(indices@.take(i + 1) == indices@.take(i as int).push(x));
            vstd::seq_lib::to_multiset_insert(before, p as int, x);
            vstd::seq_lib::to_multiset_build(indices@.take(i as int), x);
            assert(out@.to_multiset() == before.to_multiset().insert(x));
            if i + 1 < indices.len() {
                assert(x < indices@[i + 1]);
                assert forall|k: int| 0 <= k < out@.len() implies out@[k] < indices@[i + 1] by {
                    if k < p {
                        assert(out@[k] == before[k]);
                    } else if k > p {
                        assert(out@[k] == before[k - 1]);
                    }
                }
            }
            assert forall|k: int| 0 <= k < out@.len() implies out@[k] < names.len() by {
                if k < p {
                    assert(out@[k] == before[k]);
                } else if k > p {
                    assert(out@[k] == before[k - 1]);
                }
            }
        }
        i = i + 1;
    }
    assert(indices@.take(indices@.len() as int) == indices@);
    out
}

/// The models list as shown: while the models panel shows the list, the models whose
/// name passes the filter (see `get_filtered_model_indices`), sorted by name or by
/// `ranks` (highest first), ties in list order; in any other mode of the panel
/// (search, files, benchmark tuning), none.
pub fn get_sorted_model_indices(
    models_mode: &ModelsMode,
    names: &Vec<String>,
    filter: &str,
    order: SortOrder,
    ranks: &Vec<u64>,
) -> (r: Vec<usize>)
    requires
        order == SortOrder::ByRankDesc ==> ranks.len() == names.len(),
    ensures
        models_mode is List ==> sorted_in(order, names.deep_view(), ranks@, r@)
            && r@.to_multiset() == filtered_indices(names.deep_view(), lowercase_of(filter@)).to_multiset(),
        !(models_mode is List) ==> r@.len() == 0,
{
    match models_mode {
        ModelsMode::List => sorted_model_list(names, filter, order, ranks),
        _ => Vec::new(),
    }
}

/// The models whose name passes the filter, sorted (see `get_sorted_model_indices`).
fn sorted_model_list(names: &Vec<String>, filter: &str, order: SortOrder, ranks: &Vec<u64>) -> (r: Vec<usize>)
    requires
        order == SortOrder::ByRankDesc ==> ranks.len() == names.len(),
    ensures
        sorted_in(order, names.deep_view(), ranks@, r@),
        r@.to_multiset() == filtered_indices(names.deep_view(), lowercase_of(filter@)).to_multiset(),
{
    let filtered = get_filtered_model_indices(names, filter);
    proof {
        assert(names.deep_view().len() == names.len());
        law_filtered_indices_increase(names.deep_view(), lowercase_of(filter@));
    }
    sort_indices(&filtered, order, names, ranks)
}

// ───────────────────────── laws ─────────────────────────

/// A moved selection is always a model of the list.
pub proof fn law_selection_moves_within_list(sorted: Seq<usize>, selected: Option<usize>, up: bool)
    ensures
        moved_selection(sorted, selected, up) matches Some(m) ==> sorted.contains(m),
{
    lemma_first_index(sorted, selected->0);
    if let Some(m) = moved_selection(sorted, selected, up) {
        let pos = first_index(sorted, selected->0);
        if selected is Some && pos >= 0 {
            if up {
                assert(sorted[pos - 1] == m);
            } else {
                assert(sorted[pos + 1] == m);
            }
        } else {
            assert(sorted[0] == m);
        }
    }
}

/// Down and then Up bring the selection back, where Down moved it and the list holds
/// each model once.
pub proof fn law_up_undoes_down(sorted: Seq<usize>, idx: usize)
    requires
        forall|i: int, j: int| 0 <= i < j < sorted.len() ==> sorted[i] != sorted[j],
        sorted.contains(idx),
        moved_selection(sorted, Some(idx), false) is Some,
    ensures
        moved_selection(sorted, moved_selection(sorted, Some(idx), false), true) == Some(idx),
{
    lemma_first_index(sorted, idx);
    let pos = first_index(sorted, idx);
    let k = choose|k: int| 0 <= k < sorted.len() && sorted[k] == idx;
    assert(pos >= 0);
    let next = sorted[pos + 1];
    lemma_first_index(sorted, next);
    assert(first_index(sorted, next) == pos + 1);
}

/// The filtered positions are increasing positions of the list.
pub proof fn law_filtered_indices_increase(names: Seq<Seq<char>>, filter_lower: Seq<char>)
    requires
        names.len() <= usize::MAX,
    ensures
        forall|i: int| 0 <= i < filtered_indices(names, filter_lower).len() ==> filtered_indices(names, filter_lower)[i]
            < names.len(),
        forall|i: int, j: int|
            0 <= i < j < filtered_indices(names, filter_lower).len() ==> filtered_indices(names, filter_lower)[i]
                < filtered_indices(names, filter_lower)[j],
    decreases names.len(),
{
    if names.len() > 0 {
        let r = filtered_indices(names.drop_last(), filter_lower);
        law_filtered_indices_increase(names.drop_last(), filter_lower);
        let n = (names.len() - 1) as usize;
        assert(n == names.len() - 1);
        assert(forall|i: int| 0 <= i < r.len() ==> r[i] < n);
        assert(forall|i: int| 0 <= i < r.len() ==> r.push(n)[i] == r[i]);
    }
}

/// With no filter text every model is shown (the empty text lower-cases to itself).
pub proof fn law_empty_filter_shows_all(names: Seq<Seq<char>>)
    ensures
        filtered_indices(names, seq![]).len() == names.len(),
        filtered_indices(names, lowercase_of(seq![])).len() == names.len(),
    decreases names.len(),
{
    assert(lowercase_of(Seq::<char>::empty()) =~= Seq::<char>::empty());
    if names.len() > 0 {
        law_empty_filter_shows_all(names.drop_last());
    }
}

/// A model that is loaded is never started again.
pub proof fn law_loaded_model_not_restarted(
    status: ServerStatus,
    mode: ServerMode,
    active: usize,
    max: Option<u32>,
)
    ensures
        load_plan(false, true, status, mode, active, max).0 == LoadPlan::AlreadyLoaded,
{
}

/// How a load is decided once no backend is being resolved and the model is not loaded:
/// a server that does not answer well is started (or restarted) whatever the limit; a
/// healthy one loads the model through its API unless a limit of concurrent predictions
/// is set and already reached, and only then (whatever the other inputs) is the limit
/// reported, with the count and the limit as they are.
pub proof fn law_load_limit_only_when_set_and_reached(
    backend_resolving: bool,
    already_loaded: bool,
    status: ServerStatus,
    mode: ServerMode,
    active: usize,
    max_concurrent: Option<u32>,
)
    ensures
        status == ServerStatus::Healthy && max_concurrent is None
            ==> load_plan(false, false, status, mode, active, max_concurrent) == (LoadPlan::LoadViaApi, false),
        status == ServerStatus::Healthy && (max_concurrent matches Some(m) && (active as u32) < m)
            ==> load_plan(false, false, status, mode, active, max_concurrent) == (LoadPlan::LoadViaApi, false),
        status == ServerStatus::Healthy && (max_concurrent matches Some(m) && (active as u32) >= m)
            ==> load_plan(false, false, status, mode, active, max_concurrent) == (LoadPlan::LimitReached { active, max: max_concurrent->0 }, false),
        load_plan(backend_resolving, already_loaded, status, mode, active, max_concurrent).0 matches LoadPlan::LimitReached { active: a, max: m }
            ==> !backend_resolving && !already_loaded && status == ServerStatus::Healthy && a == active
            && max_concurrent == Some(m) && (active as u32) >= m,
        status != ServerStatus::Healthy ==> !(load_plan(false, false, status, mode, active, max_concurrent).0 is LimitReached)
            && !(load_plan(false, false, status, mode, active, max_concurrent).0 is LoadViaApi),
{
}

/// The load plan before the limit: a backend being resolved is waited for first; then a
/// loaded model is reported as loaded; then a server that is not running or does not
/// answer is started for the model (the benchmark tuning setup in BenchTune mode, a
/// router in Router mode), restarting only an unresponsive one.
pub proof fn law_load_plan_order(
    backend_resolving: bool,
    already_loaded: bool,
    status: ServerStatus,
    mode: ServerMode,
    active: usize,
    max_concurrent: Option<u32>,
)
    ensures
        ({
            let (plan, restart) = load_plan(backend_resolving, already_loaded, status, mode, active, max_concurrent);
            &&& backend_resolving ==> plan == LoadPlan::WaitForBackend && !restart
            &&& !backend_resolving && already_loaded ==> plan == LoadPlan::AlreadyLoaded && !restart
            &&& !backend_resolving && !already_loaded && status != ServerStatus::Healthy ==> {
                &&& restart == (status == ServerStatus::Unresponsive)
                &&& mode == ServerMode::BenchTune ==> plan == LoadPlan::OpenBenchTuneSetup
                &&& mode == ServerMode::Router ==> plan == LoadPlan::StartRouter
                &&& (mode == ServerMode::Normal || mode == ServerMode::Bench) ==> plan == LoadPlan::StartWithModel
            }
            &&& status == ServerStatus::Healthy ==> !restart
        }),
{
}

} // verus!
