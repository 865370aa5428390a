//! Key handling of the server settings panel: host, backend, threads, batch threads,
//! server mode, API endpoint, dashboard and RPC workers.
use vstd::prelude::*;
use crate::keys::{Key, KeyCode};
use crate::text::str_eq;

verus! {

/// How the server runs.
#[derive(Debug, Clone, Copy, PartialEq, Eq, Structural)]
pub enum ServerMode {
    Normal,
    Bench,
    BenchTune,
    Router,
}

/// The mode Enter switches to: Normal, Bench and BenchTune in turn; Router goes back to
/// Normal.
pub open spec fn next_server_mode(m: ServerMode) -> ServerMode {
    match m {
        ServerMode::Normal => ServerMode::Bench,
        ServerMode::Bench => ServerMode::BenchTune,
        ServerMode::BenchTune => ServerMode::Normal,
        ServerMode::Router => ServerMode::Normal,
    }
}

/// The settings this panel changes.
#[derive(Debug, Clone, Copy, PartialEq, Eq, Structural)]
pub struct ServerSettings {
    pub threads: u32,
    pub threads_batch: u32,
    pub server_mode: ServerMode,
    pub api_endpoint_enabled: bool,
}

/// What the application does after a key of the server settings panel.
#[derive(Debug, Clone, Copy, PartialEq, Eq, Structural)]
pub enum ServerSettingsEffect {
    /// Open the host picker with the current network interfaces.
    OpenHostPicker,
    /// Open the backend picker with the available backends, at the current one.
    OpenBackendPicker,
    /// Open the dashboard settings with the configured values.
    OpenDashboardPicker,
    /// Open the RPC worker manager at its first row, with no line edited.
    OpenRpcManager,
    /// The settings changed: drop the cached rendering and re-estimate memory.
    MarkSettingsDirty,
    /// Save the shared settings to the configuration.
    SyncGlobalSettings,
}

/// The largest batch thread count Left/Right reach, and the cycle length of Enter.
pub const MAX_THREADS_BATCH: u32 = 64;
pub const THREADS_BATCH_CYCLE: u32 = 32;

/// Threads one lower, but at least 1.
pub open spec fn one_less(n: u32) -> u32 {
    if n > 1 { (n - 1) as u32 } else { 1 }
}

/// Threads one higher, but at most `max`.
pub open spec fn one_more(n: u32, max: u32) -> u32 {
    if n + 1 <= max { (n + 1) as u32 } else { max }
}

/// What a key does in the server settings panel: the new selected row, settings and
/// effects. `max_threads` is the machine's thread count; `server_running` tells whether
/// a server runs (the API endpoint cannot be switched then).
pub open spec fn server_settings_step(
    selected: usize,
    s: ServerSettings,
    key: Key,
    max_threads: u32,
    server_running: bool,
) -> (usize, ServerSettings, Seq<ServerSettingsEffect>) {
    let sync = seq![ServerSettingsEffect::SyncGlobalSettings];
    let changed = seq![ServerSettingsEffect::MarkSettingsDirty, ServerSettingsEffect::SyncGlobalSettings];
    match key.code {
        KeyCode::Enter => if selected == 0 {
            (selected, s, seq![ServerSettingsEffect::OpenHostPicker] + sync)
        } else if selected == 1 {
            (selected, s, seq![ServerSettingsEffect::OpenBackendPicker] + sync)
        } else if selected == 2 {
            (selected, ServerSettings { threads: (s.threads % max_threads + 1) as u32, ..s }, sync)
        } else if selected == 3 {
            (selected, ServerSettings { threads_batch: (s.threads_batch % THREADS_BATCH_CYCLE + 1) as u32, ..s }, sync)
        } else if selected == 4 {
            (selected, ServerSettings { server_mode: next_server_mode(s.server_mode), ..s }, sync)
        } else if selected == 5 {
            if server_running {
                (selected, s, sync)
            } else {
                (selected, ServerSettings { api_endpoint_enabled: !s.api_endpoint_enabled, ..s }, sync)
            }
        } else if selected == 6 {
            (selected, s, seq![ServerSettingsEffect::OpenDashboardPicker] + sync)
        } else if selected == 7 {
            (selected, s, seq![ServerSettingsEffect::OpenRpcManager] + sync)
        } else {
            (selected, s, sync)
        },
        KeyCode::Up | KeyCode::Char('k') => (if selected > 0 { (selected - 1) as usize } else { 0 }, s, seq![]),
        KeyCode::Down | KeyCode::Char('j') => ((selected + 1) as usize, s, seq![]),
        KeyCode::Left | KeyCode::Char('h') => if selected == 2 {
            (selected, ServerSettings { threads: one_less(s.threads), ..s }, changed)
        } else if selected == 3 {
            (selected, ServerSettings { threads_batch: one_less(s.threads_batch), ..s }, changed)
        } else {
            (selected, s, changed)
        },
        KeyCode::Right | KeyCode::Char('l') => if selected == 2 {
            (selected, ServerSettings { threads: one_more(s.threads, max_threads), ..s }, changed)
        } else if selected == 3 {
            (selected, ServerSettings { threads_batch: one_more(s.threads_batch, MAX_THREADS_BATCH), ..s }, changed)
        } else {
            (selected, s, changed)
        },
        _ => (selected, s, seq![]),
    }
}

/// Keys of the server settings panel: Up/Down choose a row; Enter opens the host,
/// backend, dashboard or RPC worker pickers, cycles the thread counts and the server
/// mode, or switches the API endpoint (not while a server runs); Left/Right lower or
/// raise the thread counts. Every change is saved.
pub fn handle_server_settings_key(
    selected: &mut usize,
    settings: &mut ServerSettings,
    key: Key,
    max_threads: u32,
    server_running: bool,
) -> (effects: Vec<ServerSettingsEffect>)
    requires
        key.code == KeyCode::Enter && *old(selected) == 2 ==> max_threads > 0,
        key.code == KeyCode::Down || key.code == KeyCode::Char('j') ==> *old(selected) < usize::MAX,
        (key.code == KeyCode::Right || key.code == KeyCode::Char('l')) && *old(selected) == 2 ==> old(settings).threads
            < u32::MAX,
    ensures
        (*final(selected), *final(settings), effects@) == server_settings_step(
            *old(selected),
            *old(settings),
            key,
            max_threads,
            server_running,
        ),
{
    let ghost expected = server_settings_step(*selected, *settings, key, max_threads, server_running);
    let mut effects: Vec<ServerSettingsEffect> = Vec::new();
    match key.code {
        KeyCode::Enter => {
            let idx = *selected;
            if idx == 0 {
                effects.push(ServerSettingsEffect::OpenHostPicker);
            } else if idx == 1 {
                effects.push(ServerSettingsEffect::OpenBackendPicker);
            } else if idx == 2 {
                settings.threads = (settings.threads % max_threads) + 1;
            } else if idx == 3 {
                settings.threads_batch = (settings.threads_batch % THREADS_BATCH_CYCLE) + 1;
            } else if idx == 4 {
                settings.server_mode = match settings.server_mode {
                    ServerMode::Normal => ServerMode::Bench,
                    ServerMode::Bench => ServerMode::BenchTune,
                    ServerMode::BenchTune => ServerMode::Normal,
                    ServerMode::Router => ServerMode::Normal,
                };
            } else if idx == 5 {
                if !server_running {
                    settings.api_endpoint_enabled = !settings.api_endpoint_enabled;
                }
            } else if idx == 6 {
                effects.push(ServerSettingsEffect::OpenDashboardPicker);
            } else if idx == 7 {
                effects.push(ServerSettingsEffect::OpenRpcManager);
            }
            effects.push(ServerSettingsEffect::SyncGlobalSettings);
        },
        KeyCode::Up | KeyCode::Char('k') => {
            *selected = selected.saturating_sub(1);
        },
        KeyCode::Down | KeyCode::Char('j') => {
            *selected = *selected + 1;
        },
        KeyCode::Left | KeyCode::Char('h') => {
            if *selected == 2 {
                let t = settings.threads.saturating_sub(1);
                settings.threads = if t > 1 { t } else { 1 };
            } else if *selected == 3 {
                let t = settings.threads_batch.saturating_sub(1);
                settings.threads_batch = if t > 1 { t } else { 1 };
            }
            effects.push(ServerSettingsEffect::MarkSettingsDirty);
            effects.push(ServerSettingsEffect::SyncGlobalSettings);
        },
        KeyCode::Right | KeyCode::Char('l') => {
            if *selected == 2 {
                let t = settings.threads + 1;
                settings.threads = if t < max_threads { t } else { max_threads };
            } else if *selected == 3 {
                let t = settings.threads_batch.saturating_add(1);
                settings.threads_batch = if t < MAX_THREADS_BATCH { t } else { MAX_THREADS_BATCH };
            }
            effects.push(ServerSettingsEffect::MarkSettingsDirty);
            effects.push(ServerSettingsEffect::SyncGlobalSettings);
        },
        _ => {},
    }
    proof {
        assert(effects@ =~= expected.2);
    }
    effects
}

/// Where the backend picker opens: the first entry for `backend` with the given build
/// tag (none for a backend without an installed build), else the first entry.
pub open spec fn backend_position(entries: Seq<(Seq<char>, Option<Seq<char>>)>, backend: Seq<char>, tag: Option<Seq<char>>) -> nat {
    if exists|i: int| 0 <= i < entries.len() && #[trigger] entries[i] == (backend, tag) {
        (choose|i: int| 0 <= i < entries.len() && #[trigger] entries[i] == (backend, tag)
            && forall|j: int| 0 <= j < i ==> entries[j] != (backend, tag)) as nat
    } else {
        0
    }
}

fn opt_str_eq(a: &Option<String>, b: &Option<String>) -> (r: bool)
    ensures
        r == (a.deep_view() == b.deep_view()),
{
    match (a, b) {
        (Some(x), Some(y)) => str_eq(x.as_str(), y.as_str()),
        (None, None) => true,
        _ => false,
    }
}

/// The position of the current backend build among the backend picker's entries
/// (see `backend_position`).
pub fn backend_picker_position(entries: &Vec<(String, Option<String>)>, backend: &str, tag: &Option<String>) -> (r: usize)
    ensures
        r as nat == backend_position(entries.deep_view(), backend@, tag.deep_view()),
{
    let ghost target = (backend@, tag.deep_view());
    let mut i: usize = 0;
    while i < entries.len()
        invariant
            i <= entries.len(),
            target == (backend@, tag.deep_view()),
            forall|j: int| 0 <= j < i ==> entries.deep_view()[j] != target,
        decreases entries.len() - i,
    {
        let same_backend = str_eq(entries[i].0.as_str(), backend);
        let same_tag = opt_str_eq(&entries[i].1, tag);
        let found = same_backend && same_tag;
        assert(same_backend == (entries@[i as int].0@ == backend@));
        assert(same_tag == (entries@[i as int].1.deep_view() == tag.deep_view()));
        let ghost dv = entries.deep_view();
        assert(dv.len() == entries@.len());
        assert(dv[i as int] == (entries@[i as int].0@, entries@[i as int].1.deep_view()));
        if found {
            proof {
                assert(dv[i as int] == target);
                assert(0 <= i < dv.len() && dv[i as int] == target && forall|j: int| 0 <= j < i ==> dv[j] != target);
                let p = choose|k: int| 0 <= k < dv.len() && #[trigger] dv[k] == target
                    && forall|j: int| 0 <= j < k ==> dv[j] != target;
                if p < i {
                    assert(dv[p] != target);
                } else if p > i {
                    assert(dv[i as int] != target);
                }
            }
            return i;
        }
        assert(dv[i as int] != target);
        i = i + 1;
    }
    0
}

// ───────────────────────── laws ─────────────────────────

/// The thread counts set from this panel stay between 1 and their limits.
pub proof fn law_threads_stay_in_range(selected: usize, s: ServerSettings, key: Key, max_threads: u32, running: bool)
    requires
        max_threads > 0,
        1 <= s.threads <= max_threads,
        1 <= s.threads_batch <= MAX_THREADS_BATCH,
    ensures
        ({
            let (_, t, _) = server_settings_step(selected, s, key, max_threads, running);
            1 <= t.threads <= max_threads && 1 <= t.threads_batch <= MAX_THREADS_BATCH
        }),
{
}

/// Enter on the server mode three times brings a Normal, Bench or BenchTune mode back.
pub proof fn law_mode_cycle_returns(m: ServerMode)
    requires
        m != ServerMode::Router,
    ensures
        next_server_mode(next_server_mode(next_server_mode(m))) == m,
{
}

/// While a server runs, the API endpoint switch does not move.
pub proof fn law_endpoint_fixed_while_running(selected: usize, s: ServerSettings, key: Key, max_threads: u32)
    ensures
        server_settings_step(selected, s, key, max_threads, true).1.api_endpoint_enabled == s.api_endpoint_enabled,
{
}

/// Left and Right on a thread row change that row's count alone, by one: Left lowers it
/// (not below 1), Right raises it (to at most the machine's threads for the threads
/// row, 64 for the batch threads row); on any other row they change no setting. The
/// selected row stays.
pub proof fn law_arrows_change_only_their_row(selected: usize, s: ServerSettings, key: Key, max_threads: u32, running: bool)
    requires
        key.code == KeyCode::Left || key.code == KeyCode::Right || key.code == KeyCode::Char('h')
            || key.code == KeyCode::Char('l'),
    ensures
        ({
            let (sel, t, _) = server_settings_step(selected, s, key, max_threads, running);
            let lower = key.code == KeyCode::Left || key.code == KeyCode::Char('h');
            &&& sel == selected
            &&& t.server_mode == s.server_mode
            &&& t.api_endpoint_enabled == s.api_endpoint_enabled
            &&& selected == 2 ==> t.threads_batch == s.threads_batch && t.threads == (if lower {
                if s.threads > 1 { s.threads - 1 } else { 1 }
            } else {
                if s.threads + 1 <= max_threads { s.threads + 1 } else { max_threads as int }
            })
            &&& selected == 3 ==> t.threads == s.threads && t.threads_batch == (if lower {
                if s.threads_batch > 1 { s.threads_batch - 1 } else { 1 }
            } else {
                if s.threads_batch + 1 <= 64 { s.threads_batch + 1 } else { 64 }
            })
            &&& selected != 2 && selected != 3 ==> t == s
        }),
{
}

/// Enter on a row changes that row's setting alone: the threads row cycles the threads,
/// the batch threads row the batch threads, the mode row the server mode, and the API
/// endpoint row switches the endpoint (not while a server runs); the other rows change no
/// setting.
pub proof fn law_enter_changes_only_its_row(selected: usize, s: ServerSettings, key: Key, max_threads: u32, running: bool)
    requires
        key.code == KeyCode::Enter,
    ensures
        ({
            let t = server_settings_step(selected, s, key, max_threads, running).1;
            &&& selected != 2 ==> t.threads == s.threads
            &&& selected != 3 ==> t.threads_batch == s.threads_batch
            &&& selected != 4 ==> t.server_mode == s.server_mode
            &&& (selected != 5 || running) ==> t.api_endpoint_enabled == s.api_endpoint_enabled
            &&& selected == 5 && !running ==> t.api_endpoint_enabled == !s.api_endpoint_enabled
        }),
{
}

/// Up and Down move between the rows (Up not above the first) and change no setting,
/// asking for nothing.
pub proof fn law_up_down_only_move(selected: usize, s: ServerSettings, key: Key, max_threads: u32, running: bool)
    requires
        key.code == KeyCode::Up || key.code == KeyCode::Down || key.code == KeyCode::Char('k')
            || key.code == KeyCode::Char('j'),
        key.code == KeyCode::Down || key.code == KeyCode::Char('j') ==> selected < usize::MAX,
    ensures
        ({
            let (sel, t, effects) = server_settings_step(selected, s, key, max_threads, running);
            let up = key.code == KeyCode::Up || key.code == KeyCode::Char('k');
            &&& t == s
            &&& effects.len() == 0
            &&& up ==> sel == (if selected > 0 { selected - 1 } else { 0 })
            &&& !up ==> sel == selected + 1
        }),
{
}

} // verus!
