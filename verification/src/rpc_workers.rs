//! The RPC worker manager: a list of remote llama.cpp RPC workers that can be selected,
//! added, edited and removed, with a one-line editor for `[name,] address[, port]`.
use vstd::prelude::*;
use crate::editor::{after_clamped_right, after_delete, after_insert, after_loose_backspace, clamped_right, loose_backspace};
use crate::keys::{Key, KeyCode};
use crate::overlay::editors::byte_len;
use crate::text::{
    append_chars, chars_of, decimal_text, lemma_split_nonempty, parse_u16, parse_u32, parse_unsigned, split_seq,
    split_str, string_of, to_decimal, trim, trim_str,
};

verus! {

/// One RPC worker of the configuration.
pub struct RpcWorker {
    pub selected: bool,
    pub name: String,
    pub ip: String,
    pub port: u16,
}

/// The values of an RPC worker, with texts as character sequences.
#[verifier::ext_equal]
pub struct RpcWorkerView {
    pub selected: bool,
    pub name: Seq<char>,
    pub ip: Seq<char>,
    pub port: u16,
}

impl RpcWorker {
    pub open spec fn view(&self) -> RpcWorkerView {
        RpcWorkerView { selected: self.selected, name: self.name@, ip: self.ip@, port: self.port }
    }
}

/// The worker list and its editor: the selected row, the worker being edited (an index
/// past the end adds one), the edited line and the cursor in it.
pub struct RpcWorkersEditor {
    pub rpc_workers: Vec<RpcWorker>,
    pub rpc_workers_selected_idx: usize,
    pub editing_rpc_worker: Option<usize>,
    pub settings_edit_buffer: String,
    pub edit_cursor_pos: usize,
}

#[verifier::ext_equal]
pub struct RpcWorkersView {
    pub workers: Seq<RpcWorkerView>,
    pub selected_idx: usize,
    pub editing: Option<usize>,
    pub buffer: Seq<char>,
    pub cursor: usize,
}

impl RpcWorkersEditor {
    pub open spec fn view(&self) -> RpcWorkersView {
        RpcWorkersView {
            workers: self.rpc_workers@.map_values(|w: RpcWorker| w.view()),
            selected_idx: self.rpc_workers_selected_idx,
            editing: self.editing_rpc_worker,
            buffer: self.settings_edit_buffer@,
            cursor: self.edit_cursor_pos,
        }
    }
}

/// What the application does after a key of the worker manager.
pub enum RpcWorkersEffect {
    LogError(String),
    LogInfo(String),
    /// Save the configuration (the worker list changed).
    SaveConfig,
    /// Leave the worker manager.
    CloseOverlay,
}

pub enum RpcWorkersEffectView {
    LogError(Seq<char>),
    LogInfo(Seq<char>),
    SaveConfig,
    CloseOverlay,
}

impl RpcWorkersEffect {
    pub open spec fn view(&self) -> RpcWorkersEffectView {
        match self {
            RpcWorkersEffect::LogError(m) => RpcWorkersEffectView::LogError(m@),
            RpcWorkersEffect::LogInfo(m) => RpcWorkersEffectView::LogInfo(m@),
            RpcWorkersEffect::SaveConfig => RpcWorkersEffectView::SaveConfig,
            RpcWorkersEffect::CloseOverlay => RpcWorkersEffectView::CloseOverlay,
        }
    }
}

/// The port a worker gets when the line names none.
pub const DEFAULT_RPC_PORT: &'static str = "50052";

/// The fields of an edited line, each trimmed.
pub open spec fn trimmed_fields(text: Seq<char>) -> Seq<Seq<char>> {
    split_seq(text, ',').map_values(|f: Seq<char>| trim(f))
}

/// Name, address and port text of an edited line: `address`, `address, port`,
/// `name, address` (when the second field is no port number) or `name, address, port`;
/// the port defaults to 50052. Any other number of fields gives no address and port 0.
pub open spec fn entry_fields(text: Seq<char>) -> (Seq<char>, Seq<char>, Seq<char>) {
    let p = trimmed_fields(text);
    if p.len() == 1 {
        (seq![], p[0], DEFAULT_RPC_PORT@)
    } else if p.len() == 2 {
        if parse_unsigned(p[1], u16::MAX as nat) is Some {
            (seq![], p[0], p[1])
        } else {
            (p[0], p[1], DEFAULT_RPC_PORT@)
        }
    } else if p.len() == 3 {
        (p[0], p[1], p[2])
    } else {
        (seq![], seq![], "0"@)
    }
}

/// The number a port text reads as (0 when it is no number).
pub open spec fn port_number(port_text: Seq<char>) -> nat {
    match parse_unsigned(port_text, u32::MAX as nat) {
        Some(v) => v,
        None => 0,
    }
}

/// A usable port: 1 to 65535.
pub open spec fn port_ok(port_text: Seq<char>) -> bool {
    1 <= port_number(port_text) <= 65535
}

/// The line shown when a worker is edited: `name, address, port`.
pub open spec fn worker_line(w: RpcWorkerView) -> Seq<char> {
    w.name + ", "@ + w.ip + ", "@ + decimal_text(w.port as nat)
}

/// The editor with the line closed.
pub open spec fn closed_line(s: RpcWorkersView) -> RpcWorkersView {
    RpcWorkersView { editing: None, buffer: seq![], cursor: 0, ..s }
}

/// Enter on the worker line: the line, if not empty, becomes a selected worker (replacing
/// the edited one, or added) when its address is an IP address (`ip_valid`) and its port
/// is usable; otherwise the fault is logged. The line closes either way.
pub open spec fn commit_line(s: RpcWorkersView, ip_valid: bool) -> (RpcWorkersView, Seq<RpcWorkersEffectView>) {
    let closed = closed_line(s);
    if s.buffer.len() == 0 {
        (closed, seq![])
    } else {
        let (name, ip, port_text) = entry_fields(s.buffer);
        if !ip_valid {
            (closed, seq![RpcWorkersEffectView::LogError("Invalid IP address: "@ + ip)])
        } else if !port_ok(port_text) {
            (closed, seq![RpcWorkersEffectView::LogError("Invalid port (1-65535): "@ + port_text)])
        } else {
            let w = RpcWorkerView { selected: true, name, ip, port: port_number(port_text) as u16 };
            let workers = match s.editing {
                Some(idx) => if idx < s.workers.len() { s.workers.update(idx as int, w) } else { s.workers.push(w) },
                None => s.workers,
            };
            (
                RpcWorkersView { workers, ..closed },
                seq![RpcWorkersEffectView::SaveConfig, RpcWorkersEffectView::LogInfo("RPC worker saved."@)],
            )
        }
    }
}

/// What a key does in the worker manager. `ip_valid` tells whether the address field of
/// the edited line (the middle of `entry_fields`) is an IP address.
pub open spec fn rpc_workers_step(s: RpcWorkersView, key: Key, ip_valid: bool) -> (RpcWorkersView, Seq<RpcWorkersEffectView>) {
    if s.editing is Some {
        line_step(s, key, ip_valid)
    } else {
        list_step(s, key)
    }
}

/// What a key does while the worker line is edited.
pub open spec fn line_step(s: RpcWorkersView, key: Key, ip_valid: bool) -> (RpcWorkersView, Seq<RpcWorkersEffectView>) {
        match key.code {
            KeyCode::Enter => commit_line(s, ip_valid),
            KeyCode::Esc => (closed_line(s), seq![]),
            KeyCode::Char(c) => {
                let (b, cur) = after_insert(s.buffer, s.cursor as nat, c);
                (RpcWorkersView { buffer: b, cursor: cur as usize, ..s }, seq![])
            },
            KeyCode::Backspace => {
                let (b, cur) = after_loose_backspace(s.buffer, s.cursor as nat);
                (RpcWorkersView { buffer: b, cursor: cur as usize, ..s }, seq![])
            },
            KeyCode::Delete => {
                let (b, cur) = after_delete(s.buffer, s.cursor as nat);
                (RpcWorkersView { buffer: b, cursor: cur as usize, ..s }, seq![])
            },
            KeyCode::Left => (RpcWorkersView { cursor: if s.cursor > 0 { (s.cursor - 1) as usize } else { 0 }, ..s }, seq![]),
            KeyCode::Right => {
                let (b, cur) = after_clamped_right(s.buffer, s.cursor as nat);
                (RpcWorkersView { cursor: cur as usize, ..s }, seq![])
            },
            _ => (s, seq![]),
        }
}

/// What a key does in the worker list.
pub open spec fn list_step(s: RpcWorkersView, key: Key) -> (RpcWorkersView, Seq<RpcWorkersEffectView>) {
    let len = s.workers.len();
    let sel = s.selected_idx;
        match key.code {
            KeyCode::Esc => (s, seq![RpcWorkersEffectView::CloseOverlay]),
            KeyCode::Up | KeyCode::Char('k') => (RpcWorkersView { selected_idx: if sel > 0 { (sel - 1) as usize } else { 0 }, ..s }, seq![]),
            KeyCode::Down | KeyCode::Char('j') => if len > 0 {
                (RpcWorkersView { selected_idx: if sel + 1 < len { (sel + 1) as usize } else { (len - 1) as usize }, ..s }, seq![])
            } else {
                (s, seq![])
            },
            KeyCode::Char(' ') => if sel < len {
                let w = s.workers[sel as int];
                (
                    RpcWorkersView { workers: s.workers.update(sel as int, RpcWorkerView { selected: !w.selected, ..w }), ..s },
                    seq![RpcWorkersEffectView::SaveConfig],
                )
            } else {
                (s, seq![])
            },
            KeyCode::Char('n') => (RpcWorkersView { editing: Some(len as usize), buffer: seq![], cursor: 0, ..s }, seq![]),
            KeyCode::Char('e') => if sel < len {
                let line = worker_line(s.workers[sel as int]);
                (RpcWorkersView { editing: Some(sel), buffer: line, cursor: byte_len(line), ..s }, seq![])
            } else {
                (s, seq![])
            },
            KeyCode::Char('d') => if len > 0 {
                let rest = s.workers.remove(sel as int);
                let nsel: usize = if sel >= rest.len() && rest.len() > 0 { (rest.len() - 1) as usize } else { sel };
                (RpcWorkersView { workers: rest, selected_idx: nsel, ..s }, seq![RpcWorkersEffectView::SaveConfig])
            } else {
                (s, seq![])
            },
            _ => (s, seq![]),
        }
}

/// What the keys need: room to move the cursor and the selection on, an existing worker
/// under the selection for `d`, and some text for a Backspace with the cursor past it.
pub open spec fn rpc_key_ok(s: RpcWorkersView, key: Key) -> bool {
    &&& s.editing is Some ==> s.cursor < usize::MAX
    &&& s.editing is Some && key.code == KeyCode::Backspace && s.cursor > 0 ==> s.buffer.len() > 0
    &&& s.editing is None && (key.code == KeyCode::Down || key.code == KeyCode::Char('j')) ==> s.selected_idx < usize::MAX
    &&& s.editing is None && key.code == KeyCode::Char('d') && s.workers.len() > 0 ==> s.selected_idx < s.workers.len()
}

/// Name, address and port text of an edited worker line (see `entry_fields`). The
/// application checks the address with these before handing a key to the manager.
pub fn rpc_entry_fields(text: &str) -> (r: (String, String, String))
    ensures
        (r.0@, r.1@, r.2@) == entry_fields(text@),
{
    let raw = split_str(text, ',');
    let mut parts: Vec<String> = Vec::new();
    let mut i: usize = 0;
    while i < raw.len()
        invariant
            i <= raw.len(),
            raw@.len() == split_seq(text@, ',').len(),
            forall|j: int| 0 <= j < raw@.len() ==> #[trigger] raw@[j]@ == split_seq(text@, ',')[j],
            parts@.len() == i,
            forall|j: int| 0 <= j < i ==> #[trigger] parts@[j]@ == trim(split_seq(text@, ',')[j]),
        decreases raw.len() - i,
    {
        let t = trim_str(raw[i].as_str());
        parts.push(t);
        i = i + 1;
    }
    let ghost p = trimmed_fields(text@);
    assert(p.len() == parts@.len());
    assert(forall|j: int| 0 <= j < p.len() ==> #[trigger] parts@[j]@ == p[j]);
    if parts.len() == 1 {
        (String::new(), parts[0].clone(), String::from_str(DEFAULT_RPC_PORT))
    } else if parts.len() == 2 {
        if parse_u16(parts[1].as_str()).is_some() {
            (String::new(), parts[0].clone(), parts[1].clone())
        } else {
            (parts[0].clone(), parts[1].clone(), String::from_str(DEFAULT_RPC_PORT))
        }
    } else if parts.len() == 3 {
        (parts[0].clone(), parts[1].clone(), parts[2].clone())
    } else {
        (String::new(), String::new(), String::from_str("0"))
    }
}

fn concat_str(a: &str, b: &str) -> (r: String)
    ensures
        r@ == a@ + b@,
{
    let mut v: Vec<char> = Vec::new();
    append_chars(&mut v, a);
    append_chars(&mut v, b);
    assert(v@ == a@ + b@);
    string_of(v.as_slice())
}

fn worker_line_exec(w: &RpcWorker) -> (r: String)
    ensures
        r@ == worker_line(w.view()),
{
    let mut v: Vec<char> = Vec::new();
    append_chars(&mut v, w.name.as_str());
    append_chars(&mut v, ", ");
    append_chars(&mut v, w.ip.as_str());
    append_chars(&mut v, ", ");
    let port = to_decimal(w.port as u64);
    append_chars(&mut v, port.as_str());
    string_of(v.as_slice())
}

fn clone_worker(w: &RpcWorker) -> (r: RpcWorker)
    ensures
        r.view() == w.view(),
{
    RpcWorker { selected: w.selected, name: w.name.clone(), ip: w.ip.clone(), port: w.port }
}

/// Keys of the RPC worker manager. In the list: Up/Down choose a worker, Space selects or
/// deselects it, `n` adds one, `e` edits it, `d` removes it, Esc leaves. On the line:
/// characters, Backspace, Delete and Left/Right edit it, Enter saves the worker, Esc
/// drops the line. `ip_valid` tells whether the address field of the line is an IP
/// address (the application checks it on `rpc_entry_fields` of the line).
pub fn handle_rpc_workers_key(editor: &mut RpcWorkersEditor, key: Key, ip_valid: bool) -> (effects: Vec<RpcWorkersEffect>)
    requires
        rpc_key_ok(old(editor).view(), key),
    ensures
        (final(editor).view(), effects@.map_values(|e: RpcWorkersEffect| e.view())) == rpc_workers_step(
            old(editor).view(),
            key,
            ip_valid,
        ),
{
    if editor.editing_rpc_worker.is_some() {
        handle_line_key(editor, key, ip_valid)
    } else {
        handle_list_key(editor, key)
    }
}

fn handle_line_key(editor: &mut RpcWorkersEditor, key: Key, ip_valid: bool) -> (effects: Vec<RpcWorkersEffect>)
    requires
        old(editor).editing_rpc_worker is Some,
        rpc_key_ok(old(editor).view(), key),
    ensures
        (final(editor).view(), effects@.map_values(|e: RpcWorkersEffect| e.view())) == line_step(old(editor).view(), key, ip_valid),
{
    let ghost s = editor.view();
    let ghost expected = line_step(s, key, ip_valid);
    let mut effects: Vec<RpcWorkersEffect> = Vec::new();
    match key.code {
        KeyCode::Enter => {
            if !editor.settings_edit_buffer.as_str().is_empty() {
                let (name, ip, port_text) = rpc_entry_fields(editor.settings_edit_buffer.as_str());
                if !ip_valid {
                    effects.push(RpcWorkersEffect::LogError(concat_str("Invalid IP address: ", ip.as_str())));
                } else {
                    let port: u32 = match parse_u32(port_text.as_str()) {
                        Some(p) => p,
                        None => 0,
                    };
                    if !(port > 0 && port <= 65535) {
                        effects.push(
                            RpcWorkersEffect::LogError(concat_str("Invalid port (1-65535): ", port_text.as_str())),
                        );
                    } else {
                        let worker = RpcWorker { selected: true, name, ip, port: port as u16 };
                        if let Some(idx) = editor.editing_rpc_worker {
                            if idx < editor.rpc_workers.len() {
                                editor.rpc_workers.set(idx, worker);
                            } else {
                                editor.rpc_workers.push(worker);
                            }
                        }
                        effects.push(RpcWorkersEffect::SaveConfig);
                        effects.push(RpcWorkersEffect::LogInfo(String::from_str("RPC worker saved.")));
                    }
                }
            }
            editor.editing_rpc_worker = None;
            editor.settings_edit_buffer = String::new();
            editor.edit_cursor_pos = 0;
        },
        KeyCode::Esc => {
            editor.editing_rpc_worker = None;
            editor.settings_edit_buffer = String::new();
            editor.edit_cursor_pos = 0;
        },
        KeyCode::Char(c) => {
            crate::overlay::editors::edit_insert(&mut editor.settings_edit_buffer, &mut editor.edit_cursor_pos, c);
        },
        KeyCode::Backspace => {
            loose_backspace(&mut editor.settings_edit_buffer, &mut editor.edit_cursor_pos);
        },
        KeyCode::Delete => {
            crate::overlay::editors::edit_delete(&mut editor.settings_edit_buffer, &mut editor.edit_cursor_pos);
        },
        KeyCode::Left => {
            editor.edit_cursor_pos = editor.edit_cursor_pos.saturating_sub(1);
        },
        KeyCode::Right => {
            clamped_right(&editor.settings_edit_buffer, &mut editor.edit_cursor_pos);
        },
        _ => {},
    }
    proof {
        assert(editor.view().workers =~= expected.0.workers);
        assert(editor.view() =~= expected.0);
        assert(effects@.map_values(|e: RpcWorkersEffect| e.view()) =~= expected.1);
    }
    effects
}

fn handle_list_key(editor: &mut RpcWorkersEditor, key: Key) -> (effects: Vec<RpcWorkersEffect>)
    requires
        old(editor).editing_rpc_worker is None,
        rpc_key_ok(old(editor).view(), key),
    ensures
        (final(editor).view(), effects@.map_values(|e: RpcWorkersEffect| e.view())) == list_step(old(editor).view(), key),
{
    let ghost s = editor.view();
    let ghost expected = list_step(s, key);
    let mut effects: Vec<RpcWorkersEffect> = Vec::new();
    let len = editor.rpc_workers.len();
    match key.code {
        KeyCode::Esc => {
            effects.push(RpcWorkersEffect::CloseOverlay);
        },
        KeyCode::Up | KeyCode::Char('k') => {
            editor.rpc_workers_selected_idx = editor.rpc_workers_selected_idx.saturating_sub(1);
        },
        KeyCode::Down | KeyCode::Char('j') => {
            if len > 0 {
                let next = editor.rpc_workers_selected_idx + 1;
                editor.rpc_workers_selected_idx = if next < len - 1 { next } else { len - 1 };
            }
        },
        KeyCode::Char(' ') => {
            let sel = editor.rpc_workers_selected_idx;
            if sel < len {
                let w = clone_worker(&editor.rpc_workers[sel]);
                let toggled = RpcWorker { selected: !w.selected, name: w.name, ip: w.ip, port: w.port };
                editor.rpc_workers.set(sel, toggled);
                effects.push(RpcWorkersEffect::SaveConfig);
            }
        },
        KeyCode::Char('n') => {
            editor.editing_rpc_worker = Some(len);
            editor.settings_edit_buffer = String::new();
            editor.edit_cursor_pos = 0;
        },
        KeyCode::Char('e') => {
            let sel = editor.rpc_workers_selected_idx;
            if sel < len {
                let line = worker_line_exec(&editor.rpc_workers[sel]);
                editor.editing_rpc_worker = Some(sel);
                editor.edit_cursor_pos = line.as_str().len();
                editor.settings_edit_buffer = line;
            }
        },
        KeyCode::Char('d') => {
            if len > 0 {
                let sel = editor.rpc_workers_selected_idx;
                editor.rpc_workers.remove(sel);
                let rest = editor.rpc_workers.len();
                if sel >= rest && rest > 0 {
                    editor.rpc_workers_selected_idx = rest - 1;
                }
                effects.push(RpcWorkersEffect::SaveConfig);
            }
        },
        _ => {},
    }
    proof {
        assert(editor.view().workers =~= expected.0.workers);
        assert(editor.view() =~= expected.0);
        assert(effects@.map_values(|e: RpcWorkersEffect| e.view()) =~= expected.1);
    }
    effects
}

// ───────────────────────── laws ─────────────────────────

/// A worker line that is saved ends up in the list: at the edited position, or after
/// the others when a new worker was being added.
pub proof fn law_saved_worker_is_listed(s: RpcWorkersView, key: Key)
    requires
        s.editing matches Some(idx) && idx <= s.workers.len(),
        key.code == KeyCode::Enter,
        s.buffer.len() > 0,
        port_ok(entry_fields(s.buffer).2),
    ensures
        ({
            let (name, ip, port_text) = entry_fields(s.buffer);
            let after = rpc_workers_step(s, key, true).0;
            let idx = s.editing->0;
            &&& after.editing is None
            &&& after.workers[idx as int] == (RpcWorkerView {
                selected: true,
                name,
                ip,
                port: port_number(port_text) as u16,
            })
            &&& after.workers.len() == if idx < s.workers.len() { s.workers.len() } else { s.workers.len() + 1 }
        }),
{
}

/// A line with an address that is no IP address, or an unusable port, changes no worker
/// and is reported as an error.
pub proof fn law_invalid_line_changes_nothing(s: RpcWorkersView, key: Key, ip_valid: bool)
    requires
        s.editing is Some,
        key.code == KeyCode::Enter,
        s.buffer.len() > 0,
        !ip_valid || !port_ok(entry_fields(s.buffer).2),
    ensures
        rpc_workers_step(s, key, ip_valid).0.workers == s.workers,
        rpc_workers_step(s, key, ip_valid).1.len() == 1,
        rpc_workers_step(s, key, ip_valid).1[0] is LogError,
{
}

/// Esc on the line drops it and leaves the list as it was.
pub proof fn law_escape_keeps_workers(s: RpcWorkersView, key: Key, ip_valid: bool)
    requires
        s.editing is Some,
        key.code == KeyCode::Esc,
    ensures
        rpc_workers_step(s, key, ip_valid).0 == closed_line(s),
        rpc_workers_step(s, key, ip_valid).1.len() == 0,
{
}

/// In the list, the selection stays on an existing worker whenever there is one.
pub proof fn law_selection_stays_on_a_worker(s: RpcWorkersView, key: Key, ip_valid: bool)
    requires
        s.editing is None,
        s.selected_idx < s.workers.len(),
    ensures
        ({
            let after = rpc_workers_step(s, key, ip_valid).0;
            after.workers.len() > 0 ==> after.selected_idx < after.workers.len()
        }),
{
}

} // verus!
