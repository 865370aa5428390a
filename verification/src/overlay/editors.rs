//! Overlays that edit text: the search box, the YaRN RoPE settings, the API endpoint
//! settings, the system prompt presets and the new-profile dialog.
use vstd::prelude::*;
use vstd::string::StringExecFns;
use crate::editor::{after_backspace, after_delete, after_end, after_home, after_insert, after_move_left, after_move_right, TextEditor};
use crate::keys::{Key, KeyCode};
use crate::nav::{nav_down, nav_up, picker_nav_down, picker_nav_up, wrap_field_picker, wrap_step};
use crate::overlay::{Action, ActionView, GlobalMode, ModeView, OverlayContext};
use crate::overlay::simple::produced;
use crate::text::{decimal_text, parse_u16, parse_unsigned, pop_char, push_char, str_eq, to_decimal};

verus! {

// ───────────────────────── shared editing steps ─────────────────────────

/// The cursor can move forward and step back over the text without leaving machine
/// integers or the text.
pub open spec fn cursor_ok(buf: Seq<char>, cur: usize) -> bool {
    cur < usize::MAX && cur <= buf.len()
}

pub fn edit_insert(buf: &mut String, cur: &mut usize, c: char)
    requires
        *old(cur) < usize::MAX,
    ensures
        (final(buf)@, *final(cur) as nat) == after_insert(old(buf)@, *old(cur) as nat, c),
{
    let mut e = TextEditor { buffer: buf, cursor: cur };
    e.insert_char(c);
}

pub fn edit_newline(buf: &mut String, cur: &mut usize)
    requires
        *old(cur) < usize::MAX,
    ensures
        (final(buf)@, *final(cur) as nat) == after_insert(old(buf)@, *old(cur) as nat, '\n'),
{
    let mut e = TextEditor { buffer: buf, cursor: cur };
    e.insert_newline();
}

pub fn edit_backspace(buf: &mut String, cur: &mut usize)
    requires
        *old(cur) == 0 || *old(cur) <= old(buf)@.len(),
    ensures
        (final(buf)@, *final(cur) as nat) == after_backspace(old(buf)@, *old(cur) as nat),
{
    let mut e = TextEditor { buffer: buf, cursor: cur };
    e.backspace();
}

pub fn edit_delete(buf: &mut String, cur: &mut usize)
    ensures
        (final(buf)@, *final(cur) as nat) == after_delete(old(buf)@, *old(cur) as nat),
{
    let mut e = TextEditor { buffer: buf, cursor: cur };
    e.delete();
}

pub fn edit_left(buf: &mut String, cur: &mut usize)
    ensures
        (final(buf)@, *final(cur) as nat) == after_move_left(old(buf)@, *old(cur) as nat),
{
    let mut e = TextEditor { buffer: buf, cursor: cur };
    e.move_left();
}

pub fn edit_right(buf: &mut String, cur: &mut usize)
    ensures
        (final(buf)@, *final(cur) as nat) == after_move_right(old(buf)@, *old(cur) as nat),
{
    let mut e = TextEditor { buffer: buf, cursor: cur };
    e.move_right();
}

pub fn edit_home(buf: &mut String, cur: &mut usize)
    ensures
        (final(buf)@, *final(cur) as nat) == after_home(old(buf)@, *old(cur) as nat),
{
    let mut e = TextEditor { buffer: buf, cursor: cur };
    e.home();
}

pub fn edit_end(buf: &mut String, cur: &mut usize)
    ensures
        (final(buf)@, *final(cur) as nat) == after_end(old(buf)@, *old(cur) as nat),
{
    let mut e = TextEditor { buffer: buf, cursor: cur };
    e.end();
}

/// Text and cursor after one of the full set of editing keys, or `None` for any other
/// key.
pub open spec fn full_edit(buf: Seq<char>, cur: usize, key: Key) -> Option<(Seq<char>, nat)> {
    match key.code {
        KeyCode::Char(c) => Some(after_insert(buf, cur as nat, c)),
        KeyCode::Backspace => Some(after_backspace(buf, cur as nat)),
        KeyCode::Left => Some(after_move_left(buf, cur as nat)),
        KeyCode::Right => Some(after_move_right(buf, cur as nat)),
        KeyCode::Home => Some(after_home(buf, cur as nat)),
        KeyCode::End => Some(after_end(buf, cur as nat)),
        _ => None,
    }
}

/// A text field's value: nothing when it is empty.
pub open spec fn opt_text(s: Seq<char>) -> Option<Seq<char>> {
    if s.len() == 0 { None } else { Some(s) }
}

fn opt_string(s: &String) -> (r: Option<String>)
    ensures
        r.deep_view() == opt_text(s@),
{
    if s.as_str().is_empty() { None } else { Some(s.clone()) }
}

fn char_count(s: &String) -> (n: usize)
    ensures
        n as nat == s@.len(),
{
    crate::text::chars_of(s.as_str()).len()
}

// ───────────────────────── search box ─────────────────────────

pub open spec fn search_input_step(m: ModeView, key: Key) -> (ModeView, Seq<ActionView>) {
    match m {
        ModeView::SearchInput { buffer, cursor_pos } => match key.code {
            KeyCode::Esc => (ModeView::Normal, seq![]),
            KeyCode::Enter => (ModeView::Normal, seq![ActionView::SubmitSearch(buffer)]),
            KeyCode::Delete => {
                let (b, c) = after_delete(buffer, cursor_pos as nat);
                (ModeView::SearchInput { buffer: b, cursor_pos: c as usize }, seq![ActionView::SetSearchInput(b)])
            },
            _ => match full_edit(buffer, cursor_pos, key) {
                Some((b, c)) => (ModeView::SearchInput { buffer: b, cursor_pos: c as usize }, seq![ActionView::SetSearchInput(b)]),
                None => (m, seq![ActionView::SetSearchInput(buffer)]),
            },
        },
        _ => (m, seq![]),
    }
}

/// The hub search box: typing edits the query, Enter searches, Esc closes it.
pub struct SearchInputHandler;

impl SearchInputHandler {
    pub fn can_handle(&self, mode: &GlobalMode) -> (r: bool)
        ensures
            r == (mode.view() is SearchInput),
    {
        matches!(mode, GlobalMode::SearchInput { .. })
    }

    pub fn handle(&self, mode: &mut GlobalMode, key: Key) -> (acts: Vec<Action>)
        requires
            old(mode).view() matches ModeView::SearchInput { buffer, cursor_pos } ==> cursor_ok(buffer, cursor_pos),
        ensures
            old(mode).view() is SearchInput ==> produced(*final(mode), acts@, search_input_step(old(mode).view(), key)),
            !(old(mode).view() is SearchInput) ==> final(mode).view() == old(mode).view() && acts@.len() == 0,
    {
        let mut acts: Vec<Action> = Vec::new();
        let mut m = GlobalMode::Normal;
        std::mem::swap(&mut m, mode);
        match m {
            GlobalMode::SearchInput { buffer, cursor_pos } => {
                let mut buffer = buffer;
                let mut cursor_pos = cursor_pos;
                match key.code {
                    KeyCode::Esc => {
                        return acts;
                    },
                    KeyCode::Enter => {
                        acts.push(Action::SubmitSearch(buffer));
                        return acts;
                    },
                    KeyCode::Char(c) => edit_insert(&mut buffer, &mut cursor_pos, c),
                    KeyCode::Backspace => edit_backspace(&mut buffer, &mut cursor_pos),
                    KeyCode::Delete => edit_delete(&mut buffer, &mut cursor_pos),
                    KeyCode::Left => edit_left(&mut buffer, &mut cursor_pos),
                    KeyCode::Right => edit_right(&mut buffer, &mut cursor_pos),
                    KeyCode::Home => edit_home(&mut buffer, &mut cursor_pos),
                    KeyCode::End => edit_end(&mut buffer, &mut cursor_pos),
                    _ => {},
                }
                acts.push(Action::SetSearchInput(buffer.clone()));
                *mode = GlobalMode::SearchInput { buffer, cursor_pos };
            },
            other => {
                *mode = other;
            },
        }
        acts
    }
}

// ───────────────────────── YaRN RoPE settings ─────────────────────────

/// The text `format!("{}", b)` gives for a boolean.
pub open spec fn bool_text(b: bool) -> Seq<char> {
    if b { "true"@ } else { "false"@ }
}

pub open spec fn yarn_step(m: ModeView, key: Key, yarn_enabled: bool) -> (ModeView, Seq<ActionView>) {
    match m {
        ModeView::YarnRoPESettings { scale, freq_base, freq_scale, selected_field, editing, edit_buffer, edit_cursor_pos } => {
            let same = |sel: i32, ed: bool, buf: Seq<char>, cur: usize, sc: Seq<char>, fb: Seq<char>, fs: Seq<char>|
                ModeView::YarnRoPESettings {
                    scale: sc,
                    freq_base: fb,
                    freq_scale: fs,
                    selected_field: sel,
                    editing: ed,
                    edit_buffer: buf,
                    edit_cursor_pos: cur,
                };
            match key.code {
                KeyCode::Enter => if editing {
                    if selected_field == 0 {
                        (same(selected_field, false, edit_buffer, edit_cursor_pos, edit_buffer, freq_base, freq_scale),
                            seq![ActionView::SetRopeScale(edit_buffer)])
                    } else if selected_field == 1 {
                        (same(selected_field, false, edit_buffer, edit_cursor_pos, scale, edit_buffer, freq_scale),
                            seq![ActionView::SetRopeFreqBase(edit_buffer)])
                    } else if selected_field == 2 {
                        (same(selected_field, false, edit_buffer, edit_cursor_pos, scale, freq_base, edit_buffer),
                            seq![ActionView::SetRopeFreqScale(edit_buffer)])
                    } else {
                        (same(selected_field, false, edit_buffer, edit_cursor_pos, scale, freq_base, freq_scale), seq![])
                    }
                } else if selected_field == -1 {
                    let t = bool_text(!yarn_enabled);
                    (same(-1i32, true, t, t.len() as usize, scale, freq_base, freq_scale),
                        seq![ActionView::SetRopeYarnEnabled(!yarn_enabled)])
                } else if selected_field == 0 {
                    (same(0i32, true, scale, scale.len() as usize, scale, freq_base, freq_scale), seq![])
                } else if selected_field == 1 {
                    (same(1i32, true, freq_base, freq_base.len() as usize, scale, freq_base, freq_scale), seq![])
                } else if selected_field == 2 {
                    (same(2i32, true, freq_scale, freq_scale.len() as usize, scale, freq_base, freq_scale), seq![])
                } else {
                    (m, seq![])
                },
                KeyCode::Char(' ') => if selected_field == -1 {
                    (m, seq![ActionView::SetRopeYarnEnabled(!yarn_enabled)])
                } else {
                    (m, seq![])
                },
                KeyCode::Up | KeyCode::Char('k') => if !editing {
                    (same(wrap_step(selected_field as int, -1, 2, true) as i32, editing, edit_buffer, edit_cursor_pos, scale, freq_base, freq_scale), seq![])
                } else {
                    (m, seq![])
                },
                KeyCode::Down | KeyCode::Char('j') => if !editing {
                    (same(wrap_step(selected_field as int, -1, 2, false) as i32, editing, edit_buffer, edit_cursor_pos, scale, freq_base, freq_scale), seq![])
                } else {
                    (m, seq![])
                },
                KeyCode::Esc => if editing {
                    (same(selected_field, false, seq![], edit_cursor_pos, scale, freq_base, freq_scale), seq![])
                } else {
                    (ModeView::Normal, seq![])
                },
                KeyCode::Char(c) if editing => {
                    let (b, cur) = after_insert(edit_buffer, edit_cursor_pos as nat, c);
                    (same(selected_field, editing, b, cur as usize, scale, freq_base, freq_scale), seq![])
                },
                KeyCode::Backspace if editing => {
                    let (b, cur) = after_backspace(edit_buffer, edit_cursor_pos as nat);
                    (same(selected_field, editing, b, cur as usize, scale, freq_base, freq_scale), seq![])
                },
                _ => (m, seq![]),
            }
        },
        _ => (m, seq![]),
    }
}

/// The YaRN RoPE settings: Up/Down pick a field (enabled, scale, base frequency, frequency
/// scale), Enter toggles "enabled" or starts/commits editing a value, space toggles
/// "enabled", Esc stops editing or closes.
pub struct YarnRoPESettingsHandler;

impl YarnRoPESettingsHandler {
    pub fn can_handle(&self, mode: &GlobalMode) -> (r: bool)
        ensures
            r == (mode.view() is YarnRoPESettings),
    {
        matches!(mode, GlobalMode::YarnRoPESettings { .. })
    }

    pub fn handle(&self, mode: &mut GlobalMode, key: Key, ctx: &OverlayContext) -> (acts: Vec<Action>)
        requires
            old(mode).view() matches ModeView::YarnRoPESettings { edit_buffer, edit_cursor_pos, .. } ==> cursor_ok(edit_buffer, edit_cursor_pos),
        ensures
            old(mode).view() is YarnRoPESettings ==> produced(*final(mode), acts@, yarn_step(old(mode).view(), key, ctx.rope_yarn_enabled)),
            !(old(mode).view() is YarnRoPESettings) ==> final(mode).view() == old(mode).view() && acts@.len() == 0,
    {
        let mut acts: Vec<Action> = Vec::new();
        let mut m = GlobalMode::Normal;
        std::mem::swap(&mut m, mode);
        match m {
            GlobalMode::YarnRoPESettings { scale, freq_base, freq_scale, selected_field, editing, edit_buffer, edit_cursor_pos } => {
                let mut scale = scale;
                let mut freq_base = freq_base;
                let mut freq_scale = freq_scale;
                let mut selected_field = selected_field;
                let mut editing = editing;
                let mut edit_buffer = edit_buffer;
                let mut edit_cursor_pos = edit_cursor_pos;
                match key.code {
                    KeyCode::Enter => {
                        if editing {
                            if selected_field == 0 {
                                acts.push(Action::SetRopeScale(edit_buffer.clone()));
                                scale = edit_buffer.clone();
                            } else if selected_field == 1 {
                                acts.push(Action::SetRopeFreqBase(edit_buffer.clone()));
                                freq_base = edit_buffer.clone();
                            } else if selected_field == 2 {
                                acts.push(Action::SetRopeFreqScale(edit_buffer.clone()));
                                freq_scale = edit_buffer.clone();
                            }
                            editing = false;
                        } else if selected_field == -1 {
                            let enabled = !ctx.rope_yarn_enabled;
                            acts.push(Action::SetRopeYarnEnabled(enabled));
                            editing = true;
                            edit_buffer = String::from_str(if enabled { "true" } else { "false" });
                            edit_cursor_pos = char_count(&edit_buffer);
                        } else if selected_field == 0 {
                            edit_buffer = scale.clone();
                            editing = true;
                            edit_cursor_pos = char_count(&edit_buffer);
                        } else if selected_field == 1 {
                            edit_buffer = freq_base.clone();
                            editing = true;
                            edit_cursor_pos = char_count(&edit_buffer);
                        } else if selected_field == 2 {
                            edit_buffer = freq_scale.clone();
                            editing = true;
                            edit_cursor_pos = char_count(&edit_buffer);
                        }
                    },
                    KeyCode::Char(' ') => {
                        if selected_field == -1 {
                            acts.push(Action::SetRopeYarnEnabled(!ctx.rope_yarn_enabled));
                        }
                    },
                    KeyCode::Up | KeyCode::Char('k') => {
                        if !editing {
                            wrap_field_picker(&mut selected_field, -1, 2, true);
                        }
                    },
                    KeyCode::Down | KeyCode::Char('j') => {
                        if !editing {
                            wrap_field_picker(&mut selected_field, -1, 2, false);
                        }
                    },
                    KeyCode::Esc => {
                        if editing {
                            editing = false;
                            edit_buffer = String::new();
                        } else {
                            return acts;
                        }
                    },
                    KeyCode::Char(c) => {
                        if editing {
                            edit_insert(&mut edit_buffer, &mut edit_cursor_pos, c);
                        }
                    },
                    KeyCode::Backspace => {
                        if editing {
                            edit_backspace(&mut edit_buffer, &mut edit_cursor_pos);
                        }
                    },
                    _ => {},
                }
                *mode = GlobalMode::YarnRoPESettings { scale, freq_base, freq_scale, selected_field, editing, edit_buffer, edit_cursor_pos };
            },
            other => {
                *mode = other;
            },
        }
        acts
    }
}

// ───────────────────────── API endpoint settings ─────────────────────────

/// Actions that commit the edited API endpoint field `sel` from `buf`.
pub open spec fn api_commit_actions(sel: i32, buf: Seq<char>, tls_enabled: bool) -> Seq<ActionView> {
    let port: Seq<ActionView> = if sel == 0 && parse_unsigned(buf, u16::MAX as nat) is Some {
        seq![ActionView::SetApiEndpointPort(parse_unsigned(buf, u16::MAX as nat)->0 as u16)]
    } else {
        seq![]
    };
    let key: Seq<ActionView> = if sel == 1 { seq![ActionView::SetApiEndpointKey(opt_text(buf))] } else { seq![] };
    let tls: Seq<ActionView> = if sel == 2 { seq![ActionView::SetServerTlsEnabled(!tls_enabled)] } else { seq![] };
    let cert: Seq<ActionView> = if sel == 3 { seq![ActionView::SetServerTlsCert(opt_text(buf))] } else { seq![] };
    let tls_key: Seq<ActionView> = if sel == 4 { seq![ActionView::SetServerTlsKey(opt_text(buf))] } else { seq![] };
    port + key + tls + cert + tls_key + seq![ActionView::SyncGlobalSettings]
}

pub open spec fn api_endpoint_step(m: ModeView, key: Key) -> (ModeView, Seq<ActionView>) {
    match m {
        ModeView::ApiEndpointPicker {
            enabled,
            port,
            api_key,
            tls_enabled,
            tls_cert,
            tls_key,
            selected_field,
            editing,
            edit_buffer,
            edit_cursor_pos,
        } => {
            let with = |en: bool, p: Seq<char>, k: Seq<char>, tls: bool, cert: Seq<char>, tk: Seq<char>, sel: i32, ed: bool, buf: Seq<char>, cur: usize|
                ModeView::ApiEndpointPicker {
                    enabled: en,
                    port: p,
                    api_key: k,
                    tls_enabled: tls,
                    tls_cert: cert,
                    tls_key: tk,
                    selected_field: sel,
                    editing: ed,
                    edit_buffer: buf,
                    edit_cursor_pos: cur,
                };
            match key.code {
                KeyCode::Enter => if editing {
                    let sel = selected_field;
                    let new_port = if sel == 0 && parse_unsigned(edit_buffer, u16::MAX as nat) is Some { edit_buffer } else { port };
                    (
                        with(
                            enabled,
                            new_port,
                            if sel == 1 { edit_buffer } else { api_key },
                            if sel == 2 { !tls_enabled } else { tls_enabled },
                            if sel == 3 { edit_buffer } else { tls_cert },
                            if sel == 4 { edit_buffer } else { tls_key },
                            sel,
                            false,
                            edit_buffer,
                            edit_cursor_pos,
                        ),
                        api_commit_actions(sel, edit_buffer, tls_enabled),
                    )
                } else if selected_field == -1 {
                    (
                        with(!enabled, port, api_key, tls_enabled, tls_cert, tls_key, selected_field, editing, edit_buffer, edit_cursor_pos),
                        seq![ActionView::SetApiEndpointEnabled(!enabled), ActionView::SyncGlobalSettings],
                    )
                } else if selected_field == 0 {
                    (with(enabled, port, api_key, tls_enabled, tls_cert, tls_key, 0, true, port, port.len() as usize), seq![])
                } else if selected_field == 1 {
                    (with(enabled, port, api_key, tls_enabled, tls_cert, tls_key, 1, true, api_key, api_key.len() as usize), seq![])
                } else if selected_field == 2 {
                    (
                        with(enabled, port, api_key, !tls_enabled, tls_cert, tls_key, selected_field, editing, edit_buffer, edit_cursor_pos),
                        seq![ActionView::SetServerTlsEnabled(!tls_enabled), ActionView::SyncGlobalSettings],
                    )
                } else if selected_field == 3 {
                    (with(enabled, port, api_key, tls_enabled, tls_cert, tls_key, 3, true, tls_cert, tls_cert.len() as usize), seq![])
                } else if selected_field == 4 {
                    (with(enabled, port, api_key, tls_enabled, tls_cert, tls_key, 4, true, tls_key, tls_key.len() as usize), seq![])
                } else {
                    (m, seq![])
                },
                KeyCode::Up | KeyCode::Char('k') => if !editing {
                    (with(enabled, port, api_key, tls_enabled, tls_cert, tls_key, wrap_step(selected_field as int, -1, 4, true) as i32, editing, edit_buffer, edit_cursor_pos), seq![])
                } else {
                    (m, seq![])
                },
                KeyCode::Down | KeyCode::Char('j') => if !editing {
                    (with(enabled, port, api_key, tls_enabled, tls_cert, tls_key, wrap_step(selected_field as int, -1, 4, false) as i32, editing, edit_buffer, edit_cursor_pos), seq![])
                } else {
                    (m, seq![])
                },
                KeyCode::Esc => if editing {
                    (with(enabled, port, api_key, tls_enabled, tls_cert, tls_key, selected_field, false, seq![], edit_cursor_pos), seq![])
                } else {
                    (ModeView::Normal, seq![])
                },
                _ => if editing {
                    match full_edit(edit_buffer, edit_cursor_pos, key) {
                        Some((b, c)) => (with(enabled, port, api_key, tls_enabled, tls_cert, tls_key, selected_field, editing, b, c as usize), seq![]),
                        None => (m, seq![]),
                    }
                } else {
                    (m, seq![])
                },
            }
        },
        _ => (m, seq![]),
    }
}

/// The API endpoint settings: Up/Down pick a field (enabled, port, key, TLS, certificate,
/// key file), Enter toggles a switch or starts/commits editing, Esc stops editing or
/// closes; while editing the usual keys edit the text.
pub struct ApiEndpointPickerHandler;

impl ApiEndpointPickerHandler {
    pub fn can_handle(&self, mode: &GlobalMode) -> (r: bool)
        ensures
            r == (mode.view() is ApiEndpointPicker),
    {
        matches!(mode, GlobalMode::ApiEndpointPicker { .. })
    }

    pub fn handle(&self, mode: &mut GlobalMode, key: Key) -> (acts: Vec<Action>)
        requires
            old(mode).view() matches ModeView::ApiEndpointPicker { edit_buffer, edit_cursor_pos, .. } ==> cursor_ok(edit_buffer, edit_cursor_pos),
        ensures
            old(mode).view() is ApiEndpointPicker ==> produced(*final(mode), acts@, api_endpoint_step(old(mode).view(), key)),
            !(old(mode).view() is ApiEndpointPicker) ==> final(mode).view() == old(mode).view() && acts@.len() == 0,
    {
        let mut acts: Vec<Action> = Vec::new();
        let mut m = GlobalMode::Normal;
        std::mem::swap(&mut m, mode);
        match m {
            GlobalMode::ApiEndpointPicker {
                enabled,
                port,
                api_key,
                tls_enabled,
                tls_cert,
                tls_key,
                selected_field,
                editing,
                edit_buffer,
                edit_cursor_pos,
            } => {
                let mut enabled = enabled;
                let mut port = port;
                let mut api_key = api_key;
                let mut tls_enabled = tls_enabled;
                let mut tls_cert = tls_cert;
                let mut tls_key = tls_key;
                let mut selected_field = selected_field;
                let mut editing = editing;
                let mut edit_buffer = edit_buffer;
                let mut edit_cursor_pos = edit_cursor_pos;
                match key.code {
                    KeyCode::Enter => {
                        if editing {
                            if selected_field == 0 {
                                if let Some(p) = parse_u16(edit_buffer.as_str()) {
                                    acts.push(Action::SetApiEndpointPort(p));
                                    port = edit_buffer.clone();
                                }
                            }
                            if selected_field == 1 {
                                acts.push(Action::SetApiEndpointKey(opt_string(&edit_buffer)));
                                api_key = edit_buffer.clone();
                            }
                            if selected_field == 2 {
                                tls_enabled = !tls_enabled;
                                acts.push(Action::SetServerTlsEnabled(tls_enabled));
                            }
                            if selected_field == 3 {
                                acts.push(Action::SetServerTlsCert(opt_string(&edit_buffer)));
                                tls_cert = edit_buffer.clone();
                            }
                            if selected_field == 4 {
                                acts.push(Action::SetServerTlsKey(opt_string(&edit_buffer)));
                                tls_key = edit_buffer.clone();
                            }
                            editing = false;
                            acts.push(Action::SyncGlobalSettings);
                        } else if selected_field == -1 {
                            enabled = !enabled;
                            acts.push(Action::SetApiEndpointEnabled(enabled));
                            acts.push(Action::SyncGlobalSettings);
                        } else if selected_field == 0 {
                            edit_buffer = port.clone();
                            editing = true;
                            edit_cursor_pos = char_count(&edit_buffer);
                        } else if selected_field == 1 {
                            edit_buffer = api_key.clone();
                            editing = true;
                            edit_cursor_pos = char_count(&edit_buffer);
                        } else if selected_field == 2 {
                            tls_enabled = !tls_enabled;
                            acts.push(Action::SetServerTlsEnabled(tls_enabled));
                            acts.push(Action::SyncGlobalSettings);
                        } else if selected_field == 3 {
                            edit_buffer = tls_cert.clone();
                            editing = true;
                            edit_cursor_pos = char_count(&edit_buffer);
                        } else if selected_field == 4 {
                            edit_buffer = tls_key.clone();
                            editing = true;
                            edit_cursor_pos = char_count(&edit_buffer);
                        }
                    },
                    KeyCode::Up | KeyCode::Char('k') => {
                        if !editing {
                            wrap_field_picker(&mut selected_field, -1, 4, true);
                        }
                    },
                    KeyCode::Down | KeyCode::Char('j') => {
                        if !editing {
                            wrap_field_picker(&mut selected_field, -1, 4, false);
                        }
                    },
                    KeyCode::Esc => {
                        if editing {
                            editing = false;
                            edit_buffer = String::new();
                        } else {
                            return acts;
                        }
                    },
                    KeyCode::Char(c) => {
                        if editing {
                            edit_insert(&mut edit_buffer, &mut edit_cursor_pos, c);
                        }
                    },
                    KeyCode::Backspace => {
                        if editing {
                            edit_backspace(&mut edit_buffer, &mut edit_cursor_pos);
                        }
                    },
                    KeyCode::Left => {
                        if editing {
                            edit_left(&mut edit_buffer, &mut edit_cursor_pos);
                        }
                    },
                    KeyCode::Right => {
                        if editing {
                            edit_right(&mut edit_buffer, &mut edit_cursor_pos);
                        }
                    },
                    KeyCode::Home => {
                        if editing {
                            edit_home(&mut edit_buffer, &mut edit_cursor_pos);
                        }
                    },
                    KeyCode::End => {
                        if editing {
                            edit_end(&mut edit_buffer, &mut edit_cursor_pos);
                        }
                    },
                    _ => {},
                }
                *mode = GlobalMode::ApiEndpointPicker {
                    enabled,
                    port,
                    api_key,
                    tls_enabled,
                    tls_cert,
                    tls_key,
                    selected_field,
                    editing,
                    edit_buffer,
                    edit_cursor_pos,
                };
            },
            other => {
                *mode = other;
            },
        }
        acts
    }
}

// ───────────────────────── system prompt presets ─────────────────────────

/// The presets that ship with the application and cannot be deleted.
pub open spec fn builtin_preset(name: Seq<char>) -> bool {
    name == "General"@ || name == "Coder"@ || name == "Thinker"@ || name == "Mathematician"@
}

fn is_builtin_preset(name: &str) -> (r: bool)
    ensures
        r == builtin_preset(name@),
{
    str_eq(name, "General") || str_eq(name, "Coder") || str_eq(name, "Thinker") || str_eq(name, "Mathematician")
}

/// Name given to the next user preset.
pub open spec fn new_preset_name(user_preset_count: usize) -> Seq<char> {
    "Custom "@ + decimal_text(user_preset_count as nat + 1)
}

pub open spec fn prompt_picker_step(m: ModeView, key: Key, preset_content: Option<Seq<char>>, user_preset_count: usize) -> (ModeView, Seq<ActionView>) {
    match m {
        ModeView::PromptPicker { entries, selected, editing, edit_buffer, edit_cursor_pos, confirm_delete } => {
            let with = |es: Seq<(Seq<char>, Seq<char>)>, sel: usize, ed: bool, buf: Seq<char>, cur: usize, cd: bool|
                ModeView::PromptPicker { entries: es, selected: sel, editing: ed, edit_buffer: buf, edit_cursor_pos: cur, confirm_delete: cd };
            if confirm_delete {
                match key.code {
                    KeyCode::Char('y') => if selected < entries.len() {
                        let name = entries[selected as int].0;
                        if builtin_preset(name) {
                            (with(entries, selected, editing, edit_buffer, edit_cursor_pos, false), seq![ActionView::RefuseBuiltinPresetDeletion])
                        } else {
                            let rest = entries.remove(selected as int);
                            let sel = if selected >= rest.len() && selected > 0 { (rest.len() - 1) as usize } else { selected };
                            (with(rest, sel, editing, edit_buffer, edit_cursor_pos, false), seq![ActionView::DeletePreset(name)])
                        }
                    } else {
                        (with(entries, selected, editing, edit_buffer, edit_cursor_pos, false), seq![])
                    },
                    KeyCode::Char('n') | KeyCode::Esc => (with(entries, selected, editing, edit_buffer, edit_cursor_pos, false), seq![]),
                    _ => (m, seq![]),
                }
            } else if editing {
                match key.code {
                    KeyCode::Enter => {
                        let (b, c) = after_insert(edit_buffer, edit_cursor_pos as nat, '\n');
                        (with(entries, selected, editing, b, c as usize, confirm_delete), seq![])
                    },
                    KeyCode::Char('s') if key.ctrl => (
                        with(entries, selected, false, edit_buffer, edit_cursor_pos, confirm_delete),
                        if selected < entries.len() {
                            seq![ActionView::SavePreset { name: entries[selected as int].0, content: edit_buffer }]
                        } else {
                            seq![ActionView::PresetSaveFailed]
                        },
                    ),
                    KeyCode::Char(c) => {
                        let (b, cur) = after_insert(edit_buffer, edit_cursor_pos as nat, c);
                        (with(entries, selected, editing, b, cur as usize, confirm_delete), seq![])
                    },
                    KeyCode::Backspace => {
                        let (b, cur) = after_backspace(edit_buffer, edit_cursor_pos as nat);
                        (with(entries, selected, editing, b, cur as usize, confirm_delete), seq![])
                    },
                    KeyCode::Esc => (with(entries, selected, false, edit_buffer, edit_cursor_pos, confirm_delete), seq![]),
                    _ => (m, seq![]),
                }
            } else {
                match key.code {
                    KeyCode::Up | KeyCode::Char('k') => (with(entries, nav_up(selected as nat) as usize, editing, edit_buffer, edit_cursor_pos, confirm_delete), seq![]),
                    KeyCode::Down | KeyCode::Char('j') => (
                        with(entries, nav_down(selected as nat, entries.len()) as usize, editing, edit_buffer, edit_cursor_pos, confirm_delete),
                        seq![],
                    ),
                    KeyCode::Enter => if selected < entries.len() {
                        (ModeView::Normal, seq![ActionView::SelectPreset(entries[selected as int].0)])
                    } else {
                        (m, seq![])
                    },
                    KeyCode::Char('e') => (
                        with(
                            entries,
                            selected,
                            true,
                            if selected < entries.len() {
                                match preset_content { Some(t) => t, None => seq![] }
                            } else {
                                edit_buffer
                            },
                            0,
                            confirm_delete,
                        ),
                        seq![],
                    ),
                    KeyCode::Char('>') | KeyCode::Char('n') => {
                        let name = new_preset_name(user_preset_count);
                        let es = entries.push((name, "User-defined preset"@));
                        (with(es, (es.len() - 1) as usize, true, seq![], 0, confirm_delete), seq![ActionView::CreatePreset(name)])
                    },
                    KeyCode::Char('d') => if selected < entries.len() && builtin_preset(entries[selected as int].0) {
                        (m, seq![ActionView::RefuseBuiltinPresetDeletion])
                    } else {
                        (with(entries, selected, editing, edit_buffer, edit_cursor_pos, true), seq![])
                    },
                    KeyCode::Esc => (ModeView::Normal, seq![]),
                    _ => (m, seq![]),
                }
            }
        },
        _ => (m, seq![]),
    }
}

/// The system prompt preset picker. In the list: arrows move, Enter uses the preset, `e`
/// edits it, `>`/`n` create a new one, `d` asks to delete it (not a built-in one), Esc
/// closes. While editing: Enter types a line break, Ctrl+S saves, Esc stops. While
/// asking to delete: `y` deletes, `n`/Esc keep it.
pub struct PromptPickerHandler;

impl PromptPickerHandler {
    pub fn name(&self) -> (r: &'static str)
        ensures
            r@ == "PromptPicker"@,
    {
        "PromptPicker"
    }

    pub fn can_handle(&self, mode: &GlobalMode) -> (r: bool)
        ensures
            r == (mode.view() is PromptPicker),
    {
        matches!(mode, GlobalMode::PromptPicker { .. })
    }

    pub fn handle(&self, mode: &mut GlobalMode, key: Key, ctx: &OverlayContext) -> (acts: Vec<Action>)
        requires
            old(mode).view() matches ModeView::PromptPicker { entries, selected, edit_buffer, edit_cursor_pos, .. } ==> cursor_ok(edit_buffer, edit_cursor_pos)
                && selected < usize::MAX && entries.len() < usize::MAX,
            ctx.user_preset_count < usize::MAX,
        ensures
            old(mode).view() is PromptPicker ==> produced(
                *final(mode),
                acts@,
                prompt_picker_step(old(mode).view(), key, ctx.selected_preset_content.deep_view(), ctx.user_preset_count),
            ),
            !(old(mode).view() is PromptPicker) ==> final(mode).view() == old(mode).view() && acts@.len() == 0,
    {
        let mut acts: Vec<Action> = Vec::new();
        let mut m = GlobalMode::Normal;
        std::mem::swap(&mut m, mode);
        match m {
            GlobalMode::PromptPicker { entries, selected, editing, edit_buffer, edit_cursor_pos, confirm_delete } => {
                let mut entries = entries;
                let mut selected = selected;
                let mut editing = editing;
                let mut edit_buffer = edit_buffer;
                let mut edit_cursor_pos = edit_cursor_pos;
                let mut confirm_delete = confirm_delete;
                if confirm_delete {
                    match key.code {
                        KeyCode::Char('y') => {
                            if selected < entries.len() {
                                let name = entries[selected].0.clone();
                                if is_builtin_preset(name.as_str()) {
                                    acts.push(Action::RefuseBuiltinPresetDeletion);
                                } else {
                                    let ghost before = entries.deep_view();
                                    entries.remove(selected);
                                    assert(entries.deep_view() =~= before.remove(selected as int));
                                    if selected >= entries.len() && selected > 0 {
                                        selected = entries.len() - 1;
                                    }
                                    acts.push(Action::DeletePreset(name));
                                }
                            }
                            confirm_delete = false;
                        },
                        KeyCode::Char('n') | KeyCode::Esc => {
                            confirm_delete = false;
                        },
                        _ => {},
                    }
                } else if editing {
                    match key.code {
                        KeyCode::Enter => edit_newline(&mut edit_buffer, &mut edit_cursor_pos),
                        KeyCode::Char('s') if key.ctrl => {
                            if selected < entries.len() {
                                let name = entries[selected].0.clone();
                                acts.push(Action::SavePreset { name, content: edit_buffer.clone() });
                            } else {
                                acts.push(Action::PresetSaveFailed);
                            }
                            editing = false;
                        },
                        KeyCode::Char(c) => edit_insert(&mut edit_buffer, &mut edit_cursor_pos, c),
                        KeyCode::Backspace => edit_backspace(&mut edit_buffer, &mut edit_cursor_pos),
                        KeyCode::Esc => {
                            editing = false;
                        },
                        _ => {},
                    }
                } else {
                    match key.code {
                        KeyCode::Up | KeyCode::Char('k') => picker_nav_up(&mut selected),
                        KeyCode::Down | KeyCode::Char('j') => picker_nav_down(&mut selected, entries.len()),
                        KeyCode::Enter => {
                            if selected < entries.len() {
                                let name = entries[selected].0.clone();
                                acts.push(Action::SelectPreset(name));
                                return acts;
                            }
                        },
                        KeyCode::Char('e') => {
                            editing = true;
                            edit_cursor_pos = 0;
                            if selected < entries.len() {
                                edit_buffer = match &ctx.selected_preset_content {
                                    Some(t) => t.clone(),
                                    None => String::new(),
                                };
                            }
                        },
                        KeyCode::Char('>') | KeyCode::Char('n') => {
                            let mut name = String::from_str("Custom ");
                            let number = to_decimal((ctx.user_preset_count + 1) as u64);
                            name.append(number.as_str());
                            acts.push(Action::CreatePreset(name.clone()));
                            let ghost before = entries.deep_view();
                            entries.push((name, String::from_str("User-defined preset")));
                            assert(entries.deep_view() =~= before.push((new_preset_name(ctx.user_preset_count), "User-defined preset"@)));
                            selected = entries.len() - 1;
                            editing = true;
                            edit_cursor_pos = 0;
                            edit_buffer = String::new();
                        },
                        KeyCode::Char('d') => {
                            if selected < entries.len() && is_builtin_preset(entries[selected].0.as_str()) {
                                acts.push(Action::RefuseBuiltinPresetDeletion);
                            } else {
                                confirm_delete = true;
                            }
                        },
                        KeyCode::Esc => {
                            return acts;
                        },
                        _ => {},
                    }
                }
                *mode = GlobalMode::PromptPicker { entries, selected, editing, edit_buffer, edit_cursor_pos, confirm_delete };
            },
            other => {
                *mode = other;
            },
        }
        acts
    }
}

// ───────────────────────── new settings profile ─────────────────────────

/// UTF-8 length of a text, as `str::len` reports it.
pub open spec fn byte_len(s: Seq<char>) -> usize {
    vstd::utf8::encode_utf8(s).len() as usize
}

pub open spec fn profile_create_step(m: ModeView, key: Key) -> (ModeView, Seq<ActionView>) {
    match m {
        ModeView::ProfileCreate { name, description, editing, edit_buffer, edit_cursor_pos, field } => {
            let with = |n: Seq<char>, d: Seq<char>, ed: bool, buf: Seq<char>, cur: usize, f: usize|
                ModeView::ProfileCreate { name: n, description: d, editing: ed, edit_buffer: buf, edit_cursor_pos: cur, field: f };
            match key.code {
                KeyCode::Tab => {
                    let nf: usize = if field == 0 { 1 } else { 0 };
                    if editing {
                        if field == 0 {
                            (with(edit_buffer, description, true, seq![], 0, nf), seq![])
                        } else {
                            (with(name, edit_buffer, true, seq![], 0, nf), seq![])
                        }
                    } else {
                        (with(name, description, true, edit_buffer, edit_cursor_pos, nf), seq![])
                    }
                },
                KeyCode::Enter => if editing {
                    if field == 0 {
                        (with(edit_buffer, description, true, seq![], 0, 1), seq![])
                    } else {
                        (with(name, edit_buffer, editing, seq![], 0, field), seq![ActionView::SaveProfile])
                    }
                } else if field == 0 {
                    (with(name, description, true, edit_buffer, edit_cursor_pos, 1), seq![])
                } else {
                    (m, seq![ActionView::SaveProfile])
                },
                KeyCode::Esc => (m, seq![ActionView::OpenModelSettingsPicker]),
                KeyCode::Backspace => if editing && edit_buffer.len() > 0 {
                    let b = edit_buffer.drop_last();
                    (with(name, description, editing, b, byte_len(b), field), seq![])
                } else if editing {
                    if field == 0 {
                        (with(seq![], description, false, edit_buffer, edit_cursor_pos, field), seq![])
                    } else {
                        (with(name, seq![], false, edit_buffer, edit_cursor_pos, field), seq![])
                    }
                } else {
                    (m, seq![])
                },
                KeyCode::Char(c) if editing => {
                    let b = edit_buffer.push(c);
                    (with(name, description, editing, b, byte_len(b), field), seq![])
                },
                _ => (m, seq![]),
            }
        },
        _ => (m, seq![]),
    }
}

/// The new settings profile dialog: Tab switches between name and description, Enter
/// commits a field (saving after the description), Backspace erases (or clears an empty
/// field), Esc goes back to the profile picker; characters are typed.
pub struct ProfileCreateHandler;

impl ProfileCreateHandler {
    pub fn can_handle(&self, mode: &GlobalMode) -> (r: bool)
        ensures
            r == (mode.view() is ProfileCreate),
    {
        matches!(mode, GlobalMode::ProfileCreate { .. })
    }

    pub fn handle(&self, mode: &mut GlobalMode, key: Key) -> (acts: Vec<Action>)
        ensures
            old(mode).view() is ProfileCreate ==> produced(*final(mode), acts@, profile_create_step(old(mode).view(), key)),
            !(old(mode).view() is ProfileCreate) ==> final(mode).view() == old(mode).view() && acts@.len() == 0,
    {
        let mut acts: Vec<Action> = Vec::new();
        let mut m = GlobalMode::Normal;
        std::mem::swap(&mut m, mode);
        match m {
            GlobalMode::ProfileCreate { name, description, editing, edit_buffer, edit_cursor_pos, field } => {
                let mut name = name;
                let mut description = description;
                let mut editing = editing;
                let mut edit_buffer = edit_buffer;
                let mut edit_cursor_pos = edit_cursor_pos;
                let mut field = field;
                match key.code {
                    KeyCode::Tab => {
                        if editing {
                            if field == 0 {
                                name = edit_buffer;
                            } else {
                                description = edit_buffer;
                            }
                            edit_buffer = String::new();
                            edit_cursor_pos = 0;
                        }
                        field = if field == 0 { 1 } else { 0 };
                        editing = true;
                    },
                    KeyCode::Enter => {
                        if editing {
                            if field == 0 {
                                name = edit_buffer;
                                edit_buffer = String::new();
                                edit_cursor_pos = 0;
                                field = 1;
                                editing = true;
                            } else {
                                description = edit_buffer;
                                edit_buffer = String::new();
                                edit_cursor_pos = 0;
                                acts.push(Action::SaveProfile);
                            }
                        } else if field == 0 {
                            field = 1;
                            editing = true;
                        } else {
                            acts.push(Action::SaveProfile);
                        }
                    },
                    KeyCode::Esc => {
                        acts.push(Action::OpenModelSettingsPicker);
                    },
                    KeyCode::Backspace => {
                        if editing && !edit_buffer.as_str().is_empty() {
                            pop_char(&mut edit_buffer);
                            edit_cursor_pos = edit_buffer.as_str().len();
                        } else if editing {
                            if field == 0 {
                                name = String::new();
                            } else {
                                description = String::new();
                            }
                            editing = false;
                        }
                    },
                    KeyCode::Char(c) => {
                        if editing {
                            push_char(&mut edit_buffer, c);
                            edit_cursor_pos = edit_buffer.as_str().len();
                        }
                    },
                    _ => {},
                }
                *mode = GlobalMode::ProfileCreate { name, description, editing, edit_buffer, edit_cursor_pos, field };
            },
            other => {
                *mode = other;
            },
        }
        acts
    }
}

} // verus!
