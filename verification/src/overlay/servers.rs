//! Server option overlays: the llama-server options and the web search settings.
use vstd::prelude::*;
use vstd::string::StringExecFns;
use crate::editor::{after_backspace, after_insert};
use crate::keys::{Key, KeyCode};
use crate::nav::{wrap_field_picker, wrap_step};
use crate::overlay::{Action, ActionView, CheckStatusView, GlobalMode, ModeView, OverlayContext, WebSearchCheckStatus};
use crate::overlay::editors::{
    cursor_ok, edit_backspace, edit_end, edit_home, edit_insert, edit_left, edit_right, full_edit, opt_text,
};
use crate::overlay::simple::produced;
use crate::text::{decimal_text, parse_u16, parse_u32, parse_unsigned, str_eq, to_decimal};

verus! {

// ───────────────────────── llama-server options ─────────────────────────

/// The log levels, in the order Enter cycles through them.
pub open spec fn log_levels() -> Seq<Seq<char>> {
    seq!["error"@, "warn"@, "info"@, "trace"@, "debug"@]
}

/// The log level after `level` in the cycle, if `level` is one of them.
pub open spec fn next_log_level(level: Seq<char>) -> Option<Seq<char>> {
    if level == "error"@ {
        Some("warn"@)
    } else if level == "warn"@ {
        Some("info"@)
    } else if level == "info"@ {
        Some("trace"@)
    } else if level == "trace"@ {
        Some("debug"@)
    } else if level == "debug"@ {
        Some("error"@)
    } else {
        None
    }
}

fn next_log_level_exec(level: &str) -> (r: Option<&'static str>)
    ensures
        match next_log_level(level@) {
            Some(t) => r matches Some(s) && s@ == t,
            None => r is None,
        },
{
    if str_eq(level, "error") {
        Some("warn")
    } else if str_eq(level, "warn") {
        Some("info")
    } else if str_eq(level, "info") {
        Some("trace")
    } else if str_eq(level, "trace") {
        Some("debug")
    } else if str_eq(level, "debug") {
        Some("error")
    } else {
        None
    }
}

/// `n` raised to at least 1.
pub open spec fn at_least_one(n: nat) -> u32 {
    if n < 1 { 1 } else { n as u32 }
}

pub open spec fn llama_server_step(
    m: ModeView,
    key: Key,
    threads_now: u32,
    threads_batch_now: u32,
    mode_index: Option<usize>,
    mode_count: usize,
) -> (ModeView, Seq<ActionView>) {
    match m {
        ModeView::LlamaServerOptionsPicker {
            port,
            threads,
            threads_batch,
            log_level,
            selected_field,
            mode_picker_selected,
            editing,
            edit_buffer,
            edit_cursor_pos,
        } => {
            let with = |p: Seq<char>, t: u32, tb: u32, ll: Seq<char>, sel: i32, mps: usize, ed: bool, buf: Seq<char>, cur: usize|
                ModeView::LlamaServerOptionsPicker {
                    port: p,
                    threads: t,
                    threads_batch: tb,
                    log_level: ll,
                    selected_field: sel,
                    mode_picker_selected: mps,
                    editing: ed,
                    edit_buffer: buf,
                    edit_cursor_pos: cur,
                };
            let sel = selected_field;
            let code = key.code;
            if code == KeyCode::Enter {
                if editing {
                    let port_v = parse_unsigned(edit_buffer, u16::MAX as nat);
                    let num_v = parse_unsigned(edit_buffer, u32::MAX as nat);
                    if sel == -1 && port_v is Some {
                        (
                            with(edit_buffer, threads, threads_batch, log_level, sel, mode_picker_selected, false, edit_buffer, edit_cursor_pos),
                            seq![ActionView::SetServerPort(port_v->0 as u16), ActionView::SyncGlobalSettings],
                        )
                    } else if sel == 0 && num_v is Some {
                        let t = at_least_one(num_v->0);
                        (
                            with(port, t, threads_batch, log_level, sel, mode_picker_selected, false, edit_buffer, edit_cursor_pos),
                            seq![ActionView::SetThreads(t), ActionView::SyncGlobalSettings],
                        )
                    } else if sel == 1 && num_v is Some {
                        let t = at_least_one(num_v->0);
                        (
                            with(port, threads, t, log_level, sel, mode_picker_selected, false, edit_buffer, edit_cursor_pos),
                            seq![ActionView::SetThreadsBatch(t), ActionView::SyncGlobalSettings],
                        )
                    } else {
                        (
                            with(port, threads, threads_batch, log_level, sel, mode_picker_selected, false, edit_buffer, edit_cursor_pos),
                            seq![ActionView::SyncGlobalSettings],
                        )
                    }
                } else if sel == -1 {
                    (with(port, threads, threads_batch, log_level, sel, mode_picker_selected, true, port, port.len() as usize), seq![])
                } else if sel == 0 {
                    let t = decimal_text(threads_now as nat);
                    (with(port, threads, threads_batch, log_level, sel, mode_picker_selected, true, t, t.len() as usize), seq![])
                } else if sel == 1 {
                    let t = decimal_text(threads_batch_now as nat);
                    (with(port, threads, threads_batch, log_level, sel, mode_picker_selected, true, t, t.len() as usize), seq![])
                } else if sel == 2 {
                    let i: usize = match mode_index { Some(i) => i, None => 0 };
                    (with(port, threads, threads_batch, log_level, sel, i, editing, edit_buffer, edit_cursor_pos), seq![])
                } else if sel == 3 {
                    match next_log_level(log_level) {
                        Some(next) => (
                            with(port, threads, threads_batch, next, sel, mode_picker_selected, editing, edit_buffer, edit_cursor_pos),
                            seq![ActionView::SetLogLevel(next)],
                        ),
                        None => (m, seq![]),
                    }
                } else {
                    (m, seq![])
                }
            } else if (code == KeyCode::Up || code == KeyCode::Char('k')) && !editing {
                (
                    with(port, threads, threads_batch, log_level, wrap_step(sel as int, -1, 3, true) as i32, mode_picker_selected, editing, edit_buffer, edit_cursor_pos),
                    seq![],
                )
            } else if (code == KeyCode::Down || code == KeyCode::Char('j')) && !editing {
                (
                    with(port, threads, threads_batch, log_level, wrap_step(sel as int, -1, 3, false) as i32, mode_picker_selected, editing, edit_buffer, edit_cursor_pos),
                    seq![],
                )
            } else if (code == KeyCode::Right || code == KeyCode::Char('l')) && !editing && sel == 2 {
                    let i = ((mode_picker_selected + 1) % (mode_count as int)) as usize;
                    (
                        with(port, threads, threads_batch, log_level, sel, i, editing, edit_buffer, edit_cursor_pos),
                        seq![ActionView::SetServerMode(i), ActionView::SyncGlobalSettings],
                    )
            } else if (code == KeyCode::Left || code == KeyCode::Char('h')) && !editing && sel == 2 {
                    let i: usize = if mode_picker_selected == 0 { (mode_count - 1) as usize } else { (mode_picker_selected - 1) as usize };
                    (
                        with(port, threads, threads_batch, log_level, sel, i, editing, edit_buffer, edit_cursor_pos),
                        seq![ActionView::SetServerMode(i), ActionView::SyncGlobalSettings],
                    )
            } else if code == KeyCode::Esc {
                if editing {
                    (with(port, threads, threads_batch, log_level, sel, mode_picker_selected, false, seq![], edit_cursor_pos), seq![])
                } else {
                    (ModeView::Normal, seq![])
                }
            } else {
                if editing {
                    match full_edit(edit_buffer, edit_cursor_pos, key) {
                        Some((b, c)) => (
                            with(port, threads, threads_batch, log_level, sel, mode_picker_selected, editing, b, c as usize),
                            seq![],
                        ),
                        None => (m, seq![]),
                    }
                } else {
                    (m, seq![])
                }
            }
        },
        _ => (m, seq![]),
    }
}

fn char_count(s: &String) -> (n: usize)
    ensures
        n as nat == s@.len(),
{
    crate::text::chars_of(s.as_str()).len()
}

/// The llama-server options: Up/Down pick a field (port, threads, batch threads, server
/// mode, log level), Enter starts/commits editing a number or cycles the log level,
/// Left/Right change the server mode, Esc stops editing or closes.
pub struct LlamaServerPickerHandler;

impl LlamaServerPickerHandler {
    pub fn can_handle(&self, mode: &GlobalMode) -> (r: bool)
        ensures
            r == (mode.view() is LlamaServerOptionsPicker),
    {
        matches!(mode, GlobalMode::LlamaServerOptionsPicker { .. })
    }

    pub fn handle(&self, mode: &mut GlobalMode, key: Key, ctx: &OverlayContext) -> (acts: Vec<Action>)
        requires
            old(mode).view() matches ModeView::LlamaServerOptionsPicker { edit_buffer, edit_cursor_pos, mode_picker_selected, selected_field, editing, .. }
                ==> cursor_ok(edit_buffer, edit_cursor_pos) && mode_picker_selected < usize::MAX
                && (!editing && selected_field == 2 && (key.code == KeyCode::Left || key.code == KeyCode::Char('h'))
                    && mode_picker_selected > 0 ==> mode_picker_selected <= ctx.server_mode_count),
            ctx.server_mode_count > 0,
        ensures
            old(mode).view() is LlamaServerOptionsPicker ==> produced(
                *final(mode),
                acts@,
                llama_server_step(old(mode).view(), key, ctx.threads, ctx.threads_batch, ctx.server_mode_index, ctx.server_mode_count),
            ),
            !(old(mode).view() is LlamaServerOptionsPicker) ==> final(mode).view() == old(mode).view() && acts@.len() == 0,
    {
        let mut acts: Vec<Action> = Vec::new();
        let mut m = GlobalMode::Normal;
        std::mem::swap(&mut m, mode);
        match m {
            GlobalMode::LlamaServerOptionsPicker {
                port,
                threads,
                threads_batch,
                log_level,
                selected_field,
                mode_picker_selected,
                editing,
                edit_buffer,
                edit_cursor_pos,
            } => {
                let mut port = port;
                let mut threads = threads;
                let mut threads_batch = threads_batch;
                let mut log_level = log_level;
                let mut selected_field = selected_field;
                let mut mode_picker_selected = mode_picker_selected;
                let mut editing = editing;
                let mut edit_buffer = edit_buffer;
                let mut edit_cursor_pos = edit_cursor_pos;
                let code = key.code;
                if code == KeyCode::Enter {
                    if editing {
                        if selected_field == -1 {
                            if let Some(p) = parse_u16(edit_buffer.as_str()) {
                                acts.push(Action::SetServerPort(p));
                                port = edit_buffer.clone();
                            }
                        } else if selected_field == 0 {
                            if let Some(t) = parse_u32(edit_buffer.as_str()) {
                                let t = if t < 1 { 1 } else { t };
                                acts.push(Action::SetThreads(t));
                                threads = t;
                            }
                        } else if selected_field == 1 {
                            if let Some(tb) = parse_u32(edit_buffer.as_str()) {
                                let tb = if tb < 1 { 1 } else { tb };
                                acts.push(Action::SetThreadsBatch(tb));
                                threads_batch = tb;
                            }
                        }
                        editing = false;
                        acts.push(Action::SyncGlobalSettings);
                    } else if selected_field == -1 {
                        edit_buffer = port.clone();
                        editing = true;
                        edit_cursor_pos = char_count(&edit_buffer);
                    } else if selected_field == 0 {
                        edit_buffer = to_decimal(ctx.threads as u64);
                        editing = true;
                        edit_cursor_pos = char_count(&edit_buffer);
                    } else if selected_field == 1 {
                        edit_buffer = to_decimal(ctx.threads_batch as u64);
                        editing = true;
                        edit_cursor_pos = char_count(&edit_buffer);
                    } else if selected_field == 2 {
                        mode_picker_selected = match ctx.server_mode_index {
                            Some(i) => i,
                            None => 0,
                        };
                    } else if selected_field == 3 {
                        if let Some(next) = next_log_level_exec(log_level.as_str()) {
                            acts.push(Action::SetLogLevel(String::from_str(next)));
                            log_level = String::from_str(next);
                        }
                    }
                } else if (code == KeyCode::Up || code == KeyCode::Char('k')) && !editing {
                    wrap_field_picker(&mut selected_field, -1, 3, true);
                } else if (code == KeyCode::Down || code == KeyCode::Char('j')) && !editing {
                    wrap_field_picker(&mut selected_field, -1, 3, false);
                } else if (code == KeyCode::Right || code == KeyCode::Char('l')) && !editing && selected_field == 2 {
                    mode_picker_selected = (mode_picker_selected + 1) % ctx.server_mode_count;
                    acts.push(Action::SetServerMode(mode_picker_selected));
                    acts.push(Action::SyncGlobalSettings);
                } else if (code == KeyCode::Left || code == KeyCode::Char('h')) && !editing && selected_field == 2 {
                    mode_picker_selected = if mode_picker_selected == 0 {
                        ctx.server_mode_count - 1
                    } else {
                        mode_picker_selected - 1
                    };
                    acts.push(Action::SetServerMode(mode_picker_selected));
                    acts.push(Action::SyncGlobalSettings);
                } else if code == KeyCode::Esc {
                    if editing {
                        editing = false;
                        edit_buffer = String::new();
                    } else {
                        return acts;
                    }
                } else if editing {
                    match code {
                        KeyCode::Char(c) => edit_insert(&mut edit_buffer, &mut edit_cursor_pos, c),
                        KeyCode::Backspace => edit_backspace(&mut edit_buffer, &mut edit_cursor_pos),
                        KeyCode::Left => edit_left(&mut edit_buffer, &mut edit_cursor_pos),
                        KeyCode::Right => edit_right(&mut edit_buffer, &mut edit_cursor_pos),
                        KeyCode::Home => edit_home(&mut edit_buffer, &mut edit_cursor_pos),
                        KeyCode::End => edit_end(&mut edit_buffer, &mut edit_cursor_pos),
                        _ => {},
                    }
                }
                *mode = GlobalMode::LlamaServerOptionsPicker {
                    port,
                    threads,
                    threads_batch,
                    log_level,
                    selected_field,
                    mode_picker_selected,
                    editing,
                    edit_buffer,
                    edit_cursor_pos,
                };
            },
            other => {
                *mode = other;
            },
        }
        acts
    }
}

// ───────────────────────── web search ─────────────────────────

/// How many search engines the engine list offers.
pub const SEARCH_ENGINE_COUNT: usize = 1;

/// The supported search engine.
pub open spec fn searxng() -> Seq<char> {
    "searxng"@
}

/// Actions that start a health check of the configured engine, if it is enabled and has
/// an address.
pub open spec fn check_actions(enabled: bool, engine: Seq<char>, url: Seq<char>, api_key: Option<Seq<char>>) -> Seq<ActionView> {
    if enabled && url.len() > 0 {
        seq![ActionView::RequestRedraw, ActionView::StartWebSearchCheck { engine, engine_url: url, api_key }]
    } else {
        seq![]
    }
}

pub open spec fn web_search_step(m: ModeView, key: Key) -> (ModeView, Seq<ActionView>) {
    match m {
        ModeView::WebSearchPicker {
            enabled,
            engine,
            engine_url,
            api_key,
            selected_field,
            engine_picker_selected,
            editing,
            edit_buffer,
            edit_cursor_pos,
            check_status,
        } => {
            let with = |en: bool, eng: Seq<char>, url: Seq<char>, k: Option<Seq<char>>, sel: i32, eps: usize, ed: bool, buf: Seq<char>, cur: usize, st: Option<CheckStatusView>|
                ModeView::WebSearchPicker {
                    enabled: en,
                    engine: eng,
                    engine_url: url,
                    api_key: k,
                    selected_field: sel,
                    engine_picker_selected: eps,
                    editing: ed,
                    edit_buffer: buf,
                    edit_cursor_pos: cur,
                    check_status: st,
                };
            let sel = selected_field;
            let eps = engine_picker_selected;
            if sel < -1 {
                match key.code {
                    KeyCode::Enter | KeyCode::Char(' ') => if eps < 1 {
                        (
                            with(enabled, searxng(), engine_url, api_key, 0, eps, editing, edit_buffer, edit_cursor_pos, check_status),
                            seq![ActionView::SetWebSearchEngine(searxng())],
                        )
                    } else {
                        (with(enabled, engine, engine_url, api_key, 0, eps, editing, edit_buffer, edit_cursor_pos, check_status), seq![])
                    },
                    KeyCode::Up | KeyCode::Char('k') => (
                        with(enabled, engine, engine_url, api_key, sel, if eps > 0 { (eps - 1) as usize } else { 0 }, editing, edit_buffer, edit_cursor_pos, check_status),
                        seq![],
                    ),
                    KeyCode::Down | KeyCode::Char('j') => (
                        with(enabled, engine, engine_url, api_key, sel, 0, editing, edit_buffer, edit_cursor_pos, check_status),
                        seq![],
                    ),
                    KeyCode::Char(c) if '0' <= c <= '9' => (
                        with(enabled, engine, engine_url, api_key, sel, if c == '0' { 0 } else { eps }, editing, edit_buffer, edit_cursor_pos, check_status),
                        seq![],
                    ),
                    KeyCode::Esc => (with(enabled, engine, engine_url, api_key, 0, eps, editing, edit_buffer, edit_cursor_pos, check_status), seq![]),
                    _ => (m, seq![]),
                }
            } else {
                match key.code {
                    KeyCode::Enter => if editing {
                        if sel == 1 {
                            (
                                with(enabled, engine, edit_buffer, api_key, sel, eps, false, edit_buffer, edit_cursor_pos, check_status),
                                seq![ActionView::SetWebSearchEngineUrl(edit_buffer), ActionView::SyncGlobalSettings],
                            )
                        } else if sel == 2 {
                            (
                                with(enabled, engine, engine_url, opt_text(edit_buffer), sel, eps, false, edit_buffer, edit_cursor_pos, check_status),
                                seq![ActionView::SetWebSearchApiKey(opt_text(edit_buffer)), ActionView::SyncGlobalSettings],
                            )
                        } else {
                            (
                                with(enabled, engine, engine_url, api_key, sel, eps, false, edit_buffer, edit_cursor_pos, check_status),
                                seq![ActionView::SyncGlobalSettings],
                            )
                        }
                    } else if sel == -1 {
                        let en = !enabled;
                        let st = if en && engine_url.len() > 0 {
                            Some(CheckStatusView::Checking)
                        } else if en {
                            None
                        } else {
                            check_status
                        };
                        (
                            with(en, engine, engine_url, api_key, sel, eps, editing, edit_buffer, edit_cursor_pos, st),
                            seq![ActionView::SetWebSearchEnabled(en)] + check_actions(en, engine, engine_url, api_key)
                                + seq![ActionView::SyncGlobalSettings],
                        )
                    } else if sel == 0 {
                        (
                            with(enabled, engine, engine_url, api_key, -2i32, 0usize, editing, edit_buffer, edit_cursor_pos, check_status),
                            seq![ActionView::SyncGlobalSettings],
                        )
                    } else if sel == 1 {
                        (
                            with(enabled, engine, engine_url, api_key, sel, eps, true, engine_url, engine_url.len() as usize, None),
                            seq![ActionView::SyncGlobalSettings],
                        )
                    } else if sel == 2 {
                        let t = match api_key { Some(k) => k, None => seq![] };
                        (
                            with(enabled, engine, engine_url, api_key, sel, eps, true, t, t.len() as usize, None),
                            seq![ActionView::SyncGlobalSettings],
                        )
                    } else {
                        (m, seq![ActionView::SyncGlobalSettings])
                    },
                    KeyCode::Up | KeyCode::Char('k') => if !editing {
                        (with(enabled, engine, engine_url, api_key, wrap_step(sel as int, -1, 2, true) as i32, eps, editing, edit_buffer, edit_cursor_pos, check_status), seq![])
                    } else {
                        (m, seq![])
                    },
                    KeyCode::Down | KeyCode::Char('j') => if !editing {
                        (with(enabled, engine, engine_url, api_key, wrap_step(sel as int, -1, 2, false) as i32, eps, editing, edit_buffer, edit_cursor_pos, check_status), seq![])
                    } else {
                        (m, seq![])
                    },
                    KeyCode::Esc => if editing {
                        (with(enabled, engine, engine_url, api_key, sel, eps, false, seq![], edit_cursor_pos, check_status), seq![])
                    } else {
                        (ModeView::Normal, seq![])
                    },
                    KeyCode::Char('c') if !editing => if sel == -1 && enabled && engine_url.len() > 0 {
                        (
                            with(enabled, engine, engine_url, api_key, sel, eps, editing, edit_buffer, edit_cursor_pos, Some(CheckStatusView::Checking)),
                            check_actions(enabled, engine, engine_url, api_key),
                        )
                    } else {
                        (m, seq![])
                    },
                    _ => if editing {
                        match full_edit(edit_buffer, edit_cursor_pos, key) {
                            Some((b, c)) => (
                                with(enabled, engine, engine_url, api_key, sel, eps, editing, b, c as usize, check_status),
                                seq![],
                            ),
                            None => (m, seq![]),
                        }
                    } else {
                        (m, seq![])
                    },
                }
            }
        },
        _ => (m, seq![]),
    }
}

fn clone_opt(s: &Option<String>) -> (r: Option<String>)
    ensures
        r.deep_view() == s.deep_view(),
{
    match s {
        Some(t) => Some(t.clone()),
        None => None,
    }
}

fn opt_string(s: &String) -> (r: Option<String>)
    ensures
        r.deep_view() == opt_text(s@),
{
    if s.as_str().is_empty() { None } else { Some(s.clone()) }
}

/// The web search settings: Up/Down pick a field (enabled, engine, address, API key),
/// Enter toggles "enabled" (checking the engine), opens the engine list or
/// starts/commits editing, `c` re-checks, Esc stops editing or closes.
pub struct WebSearchPickerHandler;

impl WebSearchPickerHandler {
    pub fn can_handle(&self, mode: &GlobalMode) -> (r: bool)
        ensures
            r == (mode.view() is WebSearchPicker),
    {
        matches!(mode, GlobalMode::WebSearchPicker { .. })
    }

    pub fn handle(&self, mode: &mut GlobalMode, key: Key) -> (acts: Vec<Action>)
        requires
            old(mode).view() matches ModeView::WebSearchPicker { edit_buffer, edit_cursor_pos, engine_picker_selected, .. }
                ==> cursor_ok(edit_buffer, edit_cursor_pos) && engine_picker_selected < usize::MAX,
        ensures
            old(mode).view() is WebSearchPicker ==> produced(*final(mode), acts@, web_search_step(old(mode).view(), key)),
            !(old(mode).view() is WebSearchPicker) ==> final(mode).view() == old(mode).view() && acts@.len() == 0,
    {
        let mut acts: Vec<Action> = Vec::new();
        let mut m = GlobalMode::Normal;
        std::mem::swap(&mut m, mode);
        match m {
            GlobalMode::WebSearchPicker {
                enabled,
                engine,
                engine_url,
                api_key,
                selected_field,
                engine_picker_selected,
                editing,
                edit_buffer,
                edit_cursor_pos,
                check_status,
            } => {
                let mut enabled = enabled;
                let mut engine = engine;
                let mut engine_url = engine_url;
                let mut api_key = api_key;
                let mut selected_field = selected_field;
                let mut engine_picker_selected = engine_picker_selected;
                let mut editing = editing;
                let mut edit_buffer = edit_buffer;
                let mut edit_cursor_pos = edit_cursor_pos;
                let mut check_status = check_status;
                let code = key.code;
                if selected_field < -1 {
                    match code {
                        KeyCode::Enter | KeyCode::Char(' ') => {
                            if engine_picker_selected < SEARCH_ENGINE_COUNT {
                                engine = String::from_str("searxng");
                                acts.push(Action::SetWebSearchEngine(String::from_str("searxng")));
                            }
                            selected_field = 0;
                        },
                        KeyCode::Up | KeyCode::Char('k') => {
                            engine_picker_selected = engine_picker_selected.saturating_sub(1);
                        },
                        KeyCode::Down | KeyCode::Char('j') => {
                            let next = engine_picker_selected + 1;
                            let last: usize = SEARCH_ENGINE_COUNT - 1;
                            engine_picker_selected = if next < last { next } else { last };
                        },
                        KeyCode::Char(c) => {
                            if '0' <= c && c <= '9' {
                                let idx = (c as u32) - ('0' as u32);
                                if idx < SEARCH_ENGINE_COUNT as u32 {
                                    engine_picker_selected = idx as usize;
                                }
                            }
                        },
                        KeyCode::Esc => {
                            selected_field = 0;
                        },
                        _ => {},
                    }
                } else if code == KeyCode::Enter {
                    if editing {
                        if selected_field == 1 {
                            acts.push(Action::SetWebSearchEngineUrl(edit_buffer.clone()));
                            engine_url = edit_buffer.clone();
                        }
                        if selected_field == 2 {
                            acts.push(Action::SetWebSearchApiKey(opt_string(&edit_buffer)));
                            api_key = opt_string(&edit_buffer);
                        }
                        editing = false;
                        acts.push(Action::SyncGlobalSettings);
                    } else {
                        if selected_field == -1 {
                            enabled = !enabled;
                            acts.push(Action::SetWebSearchEnabled(enabled));
                            if enabled && !engine_url.as_str().is_empty() {
                                check_status = Some(WebSearchCheckStatus::Checking);
                                acts.push(Action::RequestRedraw);
                                acts.push(Action::StartWebSearchCheck {
                                    engine: engine.clone(),
                                    engine_url: engine_url.clone(),
                                    api_key: clone_opt(&api_key),
                                });
                            } else if enabled {
                                check_status = None;
                            }
                        } else if selected_field == 0 {
                            engine_picker_selected = 0;
                            selected_field = -2;
                        } else if selected_field == 1 {
                            edit_buffer = engine_url.clone();
                            editing = true;
                            edit_cursor_pos = char_count(&edit_buffer);
                            check_status = None;
                        } else if selected_field == 2 {
                            edit_buffer = match &api_key {
                                Some(k) => k.clone(),
                                None => String::new(),
                            };
                            editing = true;
                            edit_cursor_pos = char_count(&edit_buffer);
                            check_status = None;
                        }
                        acts.push(Action::SyncGlobalSettings);
                    }
                } else if code == KeyCode::Up || code == KeyCode::Char('k') {
                    if !editing {
                        wrap_field_picker(&mut selected_field, -1, 2, true);
                    }
                } else if code == KeyCode::Down || code == KeyCode::Char('j') {
                    if !editing {
                        wrap_field_picker(&mut selected_field, -1, 2, false);
                    }
                } else if code == KeyCode::Esc {
                    if editing {
                        editing = false;
                        edit_buffer = String::new();
                    } else {
                        return acts;
                    }
                } else if editing {
                    match code {
                        KeyCode::Char(c) => edit_insert(&mut edit_buffer, &mut edit_cursor_pos, c),
                        KeyCode::Backspace => edit_backspace(&mut edit_buffer, &mut edit_cursor_pos),
                        KeyCode::Left => edit_left(&mut edit_buffer, &mut edit_cursor_pos),
                        KeyCode::Right => edit_right(&mut edit_buffer, &mut edit_cursor_pos),
                        KeyCode::Home => edit_home(&mut edit_buffer, &mut edit_cursor_pos),
                        KeyCode::End => edit_end(&mut edit_buffer, &mut edit_cursor_pos),
                        _ => {},
                    }
                } else if code == KeyCode::Char('c') {
                    if selected_field == -1 && enabled && !engine_url.as_str().is_empty() {
                        check_status = Some(WebSearchCheckStatus::Checking);
                        acts.push(Action::RequestRedraw);
                        acts.push(Action::StartWebSearchCheck {
                            engine: engine.clone(),
                            engine_url: engine_url.clone(),
                            api_key: clone_opt(&api_key),
                        });
                    }
                }
                *mode = GlobalMode::WebSearchPicker {
                    enabled,
                    engine,
                    engine_url,
                    api_key,
                    selected_field,
                    engine_picker_selected,
                    editing,
                    edit_buffer,
                    edit_cursor_pos,
                    check_status,
                };
            },
            other => {
                *mode = other;
            },
        }
        acts
    }
}

} // verus!
