//! The benchmark tuning setup overlay: choosing the parameters to test, editing the
//! prompt, the chat template arguments, the number of predicted tokens and iterations,
//! and starting the run.
//!
//! The ranges of the numeric parameters (minimum, maximum, step) are decimals the
//! application keeps; the setup asks it to show or to set them through its actions.
use vstd::prelude::*;
use crate::editor::{after_backspace, after_delete, after_insert, TextEditor};
use crate::keys::{Key, KeyCode};
use crate::overlay::{GlobalMode, ModeView};
use crate::text::{
    byte_length, char_at_byte, char_index_at_byte, insert_char_at, lemma_char_at_byte_bound, lemma_char_at_byte_within, parse_u32, parse_unsigned,
    pop_char, push_char, remove_char_at, str_eq, to_decimal, decimal_text, utf8_len,
};
use crate::types::EditState;

verus! {

/// A parameter the tuning run can vary.
#[derive(Debug)]
pub struct BenchParam {
    pub name: String,
    pub enabled: bool,
    /// The named values of a parameter chosen among variants; empty for a numeric range.
    pub variants: Vec<String>,
    /// For `spec_type`: the variant chosen (the whole part of the range's minimum).
    pub choice: usize,
}

pub struct BenchParamView {
    pub name: Seq<char>,
    pub enabled: bool,
    pub variants: Seq<Seq<char>>,
    pub choice: usize,
}

impl View for BenchParam {
    type V = BenchParamView;

    open spec fn view(&self) -> BenchParamView {
        BenchParamView { name: self.name@, enabled: self.enabled, variants: self.variants.deep_view(), choice: self.choice }
    }
}

pub open spec fn params_view(v: Seq<BenchParam>) -> Seq<BenchParamView> {
    v.map_values(|p: BenchParam| p@)
}

/// The run being set up, but for the numeric ranges.
#[derive(Debug)]
pub struct BenchSetupConfig {
    pub prompt: String,
    pub chat_template_kwargs: Option<String>,
    pub n_predict: u32,
    pub num_iterations: u32,
    /// Every parameter is tuned (otherwise only the runtime ones).
    pub full_mode: bool,
    pub params: Vec<BenchParam>,
}

/// What the setup asks of the application.
#[derive(Debug, Clone, Copy, PartialEq, Eq, Structural)]
pub enum BenchSetupAction {
    Nothing,
    /// Start editing the range of parameter `i`: put its minimum, as `to_string` writes
    /// it, in the edit text (see `set_param_text`).
    StartRangeEdit(usize),
    /// Show field `field` of parameter `param`'s range in the edit text: the minimum (0)
    /// or maximum (1) with two decimals, the step (2) as `to_string` writes it.
    ShowRangeField { param: usize, field: i32 },
    /// Read the committed text as a decimal into field `field` (0 minimum, 1 maximum,
    /// 2 step, when above zero) of parameter `param`'s range, then fix the range (see
    /// `FixRange`).
    CommitRange { param: usize, field: i32 },
    /// Fix parameter `i`'s range: a minimum above the maximum becomes the maximum, a step
    /// at or below zero becomes the maximum less the minimum.
    FixRange(usize),
    /// Close the setup and start a server for the selected model, with this configuration.
    Start,
}

/// The answer to a key: the action and, for `CommitRange`, the text typed.
#[derive(Debug)]
pub struct BenchSetupOutcome {
    pub action: BenchSetupAction,
    pub committed: Option<String>,
}

/// The setup, its configuration and the shared editing state, as plain values.
pub struct SetupView {
    pub open: bool,
    pub selected_idx: usize,
    pub editing_param: bool,
    pub field: i32,
    pub param_buf: Seq<char>,
    pub param_cursor: usize,
    pub mode_selection: usize,
    pub editing_prompt: bool,
    pub editing_kwargs: bool,
    pub cursor: usize,
    pub editing_n_predict: bool,
    pub n_predict_buf: Seq<char>,
    pub editing_iters: bool,
    pub iters_buf: Seq<char>,
    pub prompt: Seq<char>,
    pub kwargs: Option<Seq<char>>,
    pub n_predict: u32,
    pub num_iterations: u32,
    pub full_mode: bool,
    pub params: Seq<BenchParamView>,
}

pub open spec fn opt_text(o: Option<String>) -> Option<Seq<char>> {
    match o {
        Some(s) => Some(s@),
        None => None,
    }
}

pub open spec fn or_empty(o: Option<Seq<char>>) -> Seq<char> {
    match o {
        Some(s) => s,
        None => Seq::empty(),
    }
}

/// The position of the first parameter from `i` on named `name`, or -1.
pub open spec fn find_param(params: Seq<BenchParamView>, name: Seq<char>, i: nat) -> int
    decreases params.len() - i,
{
    if i >= params.len() {
        -1
    } else if params[i as int].name == name {
        i as int
    } else {
        find_param(params, name, i + 1)
    }
}

/// Speculative decoding is off: the `spec_type` parameter (if any) has its first variant.
pub open spec fn spec_off(params: Seq<BenchParamView>) -> bool {
    let k = find_param(params, "spec_type"@, 0);
    k < 0 || params[k].choice == 0
}

/// Parameter `i` can be edited or switched: `spec_type` cannot, nor `draft_tokens` while
/// speculative decoding is off.
pub open spec fn changeable(params: Seq<BenchParamView>, i: int) -> bool {
    params[i].name != "spec_type"@ && !(params[i].name == "draft_tokens"@ && spec_off(params))
}

/// The text edited by the shared cursor: the prompt, else the chat template arguments.
pub open spec fn edited_text(s: SetupView) -> Seq<char> {
    if s.editing_prompt { s.prompt } else { or_empty(s.kwargs) }
}

/// The variant code for variant `i`: the field holds -(i + 2).
pub open spec fn variant_code(i: int) -> i32 {
    (-(i + 2)) as i32
}

/// Alt with m, p, n, i or c: the mode, and the editing of the prompt, the predicted
/// tokens, the iterations and the chat template arguments, each on or off.
pub open spec fn alt_step(s: SetupView, key: Key) -> Option<SetupView> {
    if key.code == KeyCode::Char('m') && key.alt {
        let m: usize = if s.mode_selection == 0 { 1 } else { 0 };
        Some(SetupView { mode_selection: m, full_mode: m != 0, ..s })
    } else if key.code == KeyCode::Char('p') && key.alt {
        Some(if !s.editing_prompt {
            SetupView { editing_prompt: true, cursor: utf8_len(s.prompt) as usize, ..s }
        } else {
            SetupView { editing_prompt: false, ..s }
        })
    } else if key.code == KeyCode::Char('n') && key.alt {
        Some(if !s.editing_n_predict {
            SetupView { editing_n_predict: true, n_predict_buf: decimal_text(s.n_predict as nat), ..s }
        } else {
            SetupView { editing_n_predict: false, ..s }
        })
    } else if key.code == KeyCode::Char('i') && key.alt {
        Some(if !s.editing_iters {
            SetupView { editing_iters: true, iters_buf: decimal_text(s.num_iterations as nat), ..s }
        } else {
            SetupView { editing_iters: false, ..s }
        })
    } else if key.code == KeyCode::Char('c') && key.alt {
        Some(if !s.editing_kwargs {
            SetupView { editing_kwargs: true, cursor: utf8_len(or_empty(s.kwargs)) as usize, ..s }
        } else {
            SetupView { editing_kwargs: false, ..s }
        })
    } else {
        None
    }
}

/// No text is being edited.
pub open spec fn idle(s: SetupView) -> bool {
    !s.editing_prompt && !s.editing_kwargs && !s.editing_n_predict && !s.editing_iters && !s.editing_param
}

/// `e` with nothing edited: edit the selected parameter, by variant or by range.
pub open spec fn edit_step(s: SetupView) -> (SetupView, BenchSetupAction) {
    if s.selected_idx < s.params.len() && changeable(s.params, s.selected_idx as int) {
        if s.params[s.selected_idx as int].variants.len() > 0 {
            (SetupView { editing_param: true, field: -1i32, param_buf: Seq::empty(), ..s }, BenchSetupAction::Nothing)
        } else {
            (SetupView { editing_param: true, field: 0i32, ..s }, BenchSetupAction::StartRangeEdit(s.selected_idx))
        }
    } else {
        (s, BenchSetupAction::Nothing)
    }
}

/// Up, `k` or Left: back one byte in the text edited, else the previous parameter. Down,
/// `j` or Right: on one byte (up to the end), else the next parameter (up to the last).
pub open spec fn move_step(s: SetupView, back: bool) -> SetupView {
    if s.editing_prompt || s.editing_kwargs {
        if back {
            SetupView { cursor: (if s.cursor > 0 { s.cursor - 1 } else { 0 }) as usize, ..s }
        } else {
            let len: int = utf8_len(edited_text(s)) as int;
            SetupView { cursor: (if s.cursor + 1 < len { s.cursor + 1 } else { len }) as usize, ..s }
        }
    } else if back {
        SetupView { selected_idx: (if s.selected_idx > 0 { s.selected_idx - 1 } else { 0 }) as usize, ..s }
    } else {
        let last: int = if s.params.len() > 0 { s.params.len() - 1 } else { 0 };
        SetupView { selected_idx: (if s.selected_idx + 1 < last { s.selected_idx + 1 } else { last }) as usize, ..s }
    }
}

/// The range parameter being edited (as opposed to one chosen among variants).
pub open spec fn editing_range(s: SetupView) -> bool {
    s.editing_param && s.params[s.selected_idx as int].variants.len() == 0
}

pub open spec fn editing_variants(s: SetupView) -> bool {
    s.editing_param && s.params[s.selected_idx as int].variants.len() > 0
}

/// The text edited by the shared cursor with `c` typed at the cursor (a byte offset at
/// which a character starts), and the chat template arguments set when they were unset.
pub open spec fn typed_into_text(s: SetupView, c: char) -> SetupView {
    let t = edited_text(s);
    let k = char_at_byte(t, s.cursor as int);
    let t2 = t.take(k).push(c) + t.skip(k);
    if s.editing_prompt {
        SetupView { prompt: t2, cursor: (s.cursor + 1) as usize, ..s }
    } else {
        SetupView { kwargs: Some(t2), cursor: (s.cursor + 1) as usize, ..s }
    }
}

/// The text edited by the shared cursor without the character starting at byte `b`.
pub open spec fn removed_from_text(s: SetupView, b: int) -> SetupView {
    let t = edited_text(s);
    let t2 = t.remove(char_at_byte(t, b));
    if s.editing_prompt {
        SetupView { prompt: t2, ..s }
    } else {
        SetupView { kwargs: Some(t2), ..s }
    }
}

/// Space: typed into the text edited (when the cursor is within it), else switches the
/// selected parameter on or off when it can change.
pub open spec fn space_step(s: SetupView) -> SetupView {
    if s.editing_prompt || s.editing_kwargs {
        let s1 = if s.editing_prompt { s } else { SetupView { kwargs: Some(or_empty(s.kwargs)), ..s } };
        if s.cursor <= utf8_len(edited_text(s1)) { typed_into_text(s1, ' ') } else { s1 }
    } else if s.selected_idx < s.params.len() && changeable(s.params, s.selected_idx as int) {
        let p = s.params[s.selected_idx as int];
        SetupView { params: s.params.update(s.selected_idx as int, BenchParamView { enabled: !p.enabled, ..p }), ..s }
    } else {
        s
    }
}

/// The characters a range value may hold.
pub open spec fn range_char(c: char) -> bool {
    ('0' <= c <= '9') || c == '.' || c == '-' || c == 'e' || c == 'E'
}

/// Another character: into the range value edited, a digit choosing a variant, the
/// text edited, or the digits of the predicted tokens or iterations.
pub open spec fn char_step(s: SetupView, c: char) -> SetupView {
    if editing_range(s) {
        if range_char(c) {
            let (b, k) = after_insert(s.param_buf, s.param_cursor as nat, c);
            SetupView { param_buf: b, param_cursor: k as usize, ..s }
        } else {
            s
        }
    } else if editing_variants(s) {
        let n = s.params[s.selected_idx as int].variants.len();
        if '0' <= c <= '9' && (c as u32 - '0' as u32) < n {
            SetupView { field: variant_code(c as u32 - '0' as u32), ..s }
        } else {
            s
        }
    } else if s.editing_prompt || s.editing_kwargs {
        let s1 = if s.editing_prompt { s } else { SetupView { kwargs: Some(or_empty(s.kwargs)), ..s } };
        typed_into_text(s1, c)
    } else if s.editing_n_predict {
        if '0' <= c <= '9' { SetupView { n_predict_buf: s.n_predict_buf.push(c), ..s } } else { s }
    } else if s.editing_iters && '0' <= c <= '9' {
        SetupView { iters_buf: s.iters_buf.push(c), ..s }
    } else {
        s
    }
}

/// Backspace: in the range value, the text edited (the character before the cursor),
/// the digits being typed, else back to the previous parameter.
pub open spec fn backspace_step(s: SetupView) -> SetupView {
    if s.editing_param {
        let (b, k) = after_backspace(s.param_buf, s.param_cursor as nat);
        SetupView { param_buf: b, param_cursor: k as usize, ..s }
    } else if s.editing_prompt || s.editing_kwargs {
        let s1 = if s.editing_prompt { s } else { SetupView { kwargs: Some(or_empty(s.kwargs)), ..s } };
        if s.cursor > 0 {
            SetupView { cursor: (s.cursor - 1) as usize, ..removed_from_text(s1, s.cursor - 1) }
        } else {
            s1
        }
    } else if s.editing_n_predict {
        SetupView { n_predict_buf: if s.n_predict_buf.len() > 0 { s.n_predict_buf.drop_last() } else { s.n_predict_buf }, ..s }
    } else if s.editing_iters {
        SetupView { iters_buf: if s.iters_buf.len() > 0 { s.iters_buf.drop_last() } else { s.iters_buf }, ..s }
    } else {
        SetupView { selected_idx: (if s.selected_idx > 0 { s.selected_idx - 1 } else { 0 }) as usize, ..s }
    }
}

/// Delete: the character under the cursor of the range value or of the text edited, or
/// the last digit typed.
pub open spec fn delete_step(s: SetupView) -> SetupView {
    if s.editing_param {
        let (b, k) = after_delete(s.param_buf, s.param_cursor as nat);
        SetupView { param_buf: b, param_cursor: k as usize, ..s }
    } else if s.editing_prompt || s.editing_kwargs {
        let s1 = if s.editing_prompt { s } else { SetupView { kwargs: Some(or_empty(s.kwargs)), ..s } };
        if s.cursor < utf8_len(edited_text(s1)) { removed_from_text(s1, s.cursor as int) } else { s1 }
    } else if s.editing_n_predict {
        SetupView { n_predict_buf: if s.n_predict_buf.len() > 0 { s.n_predict_buf.drop_last() } else { s.n_predict_buf }, ..s }
    } else if s.editing_iters {
        SetupView { iters_buf: if s.iters_buf.len() > 0 { s.iters_buf.drop_last() } else { s.iters_buf }, ..s }
    } else {
        s
    }
}

pub open spec fn clamp_u32(v: nat, lo: u32, hi: u32) -> u32 {
    if v < lo { lo } else if v > hi { hi } else { v as u32 }
}

/// The parameters after `spec_type` (at `i`) moves to its next variant: back at the
/// first variant (speculative decoding off), every `draft_tokens` parameter is switched
/// off.
pub open spec fn next_spec_choice(params: Seq<BenchParamView>, i: int) -> Seq<BenchParamView> {
    let p = params[i];
    let next = ((p.choice + 1) % (p.variants.len() as int)) as usize;
    let updated = params.update(i, BenchParamView { choice: next, ..p });
    updated.map_values(|q: BenchParamView|
        if next == 0 && q.name == "draft_tokens"@ { BenchParamView { enabled: false, ..q } } else { q })
}

/// Enter: moves to the next variant (or commits the range value) of the parameter
/// edited, ends the editing of the texts, reads the predicted tokens (kept within
/// 1..=16384) or the iterations (within 1..=100), moves `spec_type` to its next
/// variant; otherwise starts the run when a model is selected.
pub open spec fn enter_step(s: SetupView, model_selected: bool) -> (SetupView, BenchSetupAction, Option<Seq<char>>) {
    if s.editing_param {
        if s.params[s.selected_idx as int].variants.len() > 0 {
            let n = s.params[s.selected_idx as int].variants.len();
            (SetupView { field: variant_code(1int % (n as int)), ..s }, BenchSetupAction::FixRange(s.selected_idx), None)
        } else {
            (SetupView { editing_param: false, param_buf: Seq::empty(), ..s },
             BenchSetupAction::CommitRange { param: s.selected_idx, field: s.field }, Some(s.param_buf))
        }
    } else if s.editing_prompt {
        (SetupView { editing_prompt: false, ..s }, BenchSetupAction::Nothing, None)
    } else if s.editing_kwargs {
        (SetupView { editing_kwargs: false, ..s }, BenchSetupAction::Nothing, None)
    } else if s.editing_n_predict {
        let n = match parse_unsigned(s.n_predict_buf, u32::MAX as nat) { Some(v) => clamp_u32(v, 1, 16384), None => s.n_predict };
        (SetupView { n_predict: n, editing_n_predict: false, ..s }, BenchSetupAction::Nothing, None)
    } else if s.editing_iters {
        let n = match parse_unsigned(s.iters_buf, u32::MAX as nat) { Some(v) => clamp_u32(v, 1, 100), None => s.num_iterations };
        (SetupView { num_iterations: n, editing_iters: false, ..s }, BenchSetupAction::Nothing, None)
    } else if s.selected_idx < s.params.len() && s.params[s.selected_idx as int].name == "spec_type"@ {
        (SetupView { params: next_spec_choice(s.params, s.selected_idx as int), ..s }, BenchSetupAction::Nothing, None)
    } else if model_selected {
        (SetupView { open: false, ..s }, BenchSetupAction::Start, None)
    } else {
        (s, BenchSetupAction::Nothing, None)
    }
}

/// Esc: ends the editing under way (the range value first), else closes the setup.
pub open spec fn esc_step(s: SetupView) -> SetupView {
    if s.editing_param {
        SetupView { editing_param: false, param_buf: Seq::empty(), ..s }
    } else if s.editing_prompt {
        SetupView { editing_prompt: false, ..s }
    } else if s.editing_kwargs {
        SetupView { editing_kwargs: false, ..s }
    } else if s.editing_n_predict {
        SetupView { editing_n_predict: false, ..s }
    } else if s.editing_iters {
        SetupView { editing_iters: false, ..s }
    } else {
        SetupView { open: false, ..s }
    }
}

/// Space, another character, Backspace, Delete, Enter, Esc.
pub open spec fn text_key_step(s: SetupView, key: Key, model_selected: bool) -> (SetupView, BenchSetupAction, Option<Seq<char>>) {
    let code = key.code;
    if code == KeyCode::Char(' ') {
        (space_step(s), BenchSetupAction::Nothing, None)
    } else if code is Char {
        (char_step(s, code->Char_0), BenchSetupAction::Nothing, None)
    } else if code == KeyCode::Backspace {
        (backspace_step(s), BenchSetupAction::Nothing, None)
    } else if code == KeyCode::Delete {
        (delete_step(s), BenchSetupAction::Nothing, None)
    } else if code == KeyCode::Enter {
        enter_step(s, model_selected)
    } else if code == KeyCode::Esc {
        (esc_step(s), BenchSetupAction::Nothing, None)
    } else {
        (s, BenchSetupAction::Nothing, None)
    }
}

/// A key other than the Alt shortcuts: `e`, the moves, Tab and Shift+Tab through the
/// range fields, `+` and `-` through the variants, then the text keys.
pub open spec fn plain_key_step(s: SetupView, key: Key, model_selected: bool) -> (SetupView, BenchSetupAction, Option<Seq<char>>) {
    let code = key.code;
    if code == KeyCode::Char('e') && idle(s) {
        let (t, a) = edit_step(s);
        (t, a, None)
    } else if code == KeyCode::Up || code == KeyCode::Char('k') || code == KeyCode::Left {
        (move_step(s, true), BenchSetupAction::Nothing, None)
    } else if code == KeyCode::Down || code == KeyCode::Char('j') || code == KeyCode::Right {
        (move_step(s, false), BenchSetupAction::Nothing, None)
    } else if code == KeyCode::Tab || code == KeyCode::BackTab {
        if editing_range(s) {
            let f: i32 = if code == KeyCode::Tab {
                if s.field >= 2 { 2 } else { (s.field + 1) as i32 }
            } else {
                if s.field <= 0 { 2 } else { (s.field - 1) as i32 }
            };
            (SetupView { field: f, ..s }, BenchSetupAction::ShowRangeField { param: s.selected_idx, field: f }, None)
        } else {
            (s, BenchSetupAction::Nothing, None)
        }
    } else if (code == KeyCode::Char('+') || code == KeyCode::Char('-')) && editing_variants(s) {
        let n = s.params[s.selected_idx as int].variants.len() as int;
        let next = if code == KeyCode::Char('+') { 1int % n } else { (n - 1) % n };
        (SetupView { field: variant_code(next), ..s }, BenchSetupAction::Nothing, None)
    } else {
        text_key_step(s, key, model_selected)
    }
}

/// A key in the setup: the setup after it (closed when `open` is false), the action and
/// the text committed.
pub open spec fn setup_step(s: SetupView, key: Key, model_selected: bool) -> (SetupView, BenchSetupAction, Option<Seq<char>>) {
    match alt_step(s, key) {
        Some(t) => (t, BenchSetupAction::Nothing, None),
        None => plain_key_step(s, key, model_selected),
    }
}

// ───────────────────────── the handler ─────────────────────────

/// The fields of the setup overlay.
struct SetupFields {
    selected_idx: usize,
    editing_param: bool,
    field: i32,
    param_buf: String,
    param_cursor: usize,
    mode_selection: usize,
    editing_prompt: bool,
    editing_kwargs: bool,
}

spec fn view_of(f: SetupFields, cfg: BenchSetupConfig, e: EditState) -> SetupView {
    SetupView {
        open: true,
        selected_idx: f.selected_idx,
        editing_param: f.editing_param,
        field: f.field,
        param_buf: f.param_buf@,
        param_cursor: f.param_cursor,
        mode_selection: f.mode_selection,
        editing_prompt: f.editing_prompt,
        editing_kwargs: f.editing_kwargs,
        cursor: e.edit_cursor_pos,
        editing_n_predict: e.editing_n_predict,
        n_predict_buf: e.n_predict_edit_buffer@,
        editing_iters: e.editing_iters,
        iters_buf: e.iters_edit_buffer@,
        prompt: cfg.prompt@,
        kwargs: opt_text(cfg.chat_template_kwargs),
        n_predict: cfg.n_predict,
        num_iterations: cfg.num_iterations,
        full_mode: cfg.full_mode,
        params: params_view(cfg.params@),
    }
}

/// The parts of the editing state the setup does not touch.
pub open spec fn others_kept(a: EditState, b: EditState) -> bool {
    &&& b.tags_editing == a.tags_editing
    &&& b.tags_edit_buffer@ == a.tags_edit_buffer@
    &&& b.tags_selected_idx == a.tags_selected_idx
    &&& b.tags_insert_mode == a.tags_insert_mode
    &&& b.editing_preset == a.editing_preset
}

/// The states and keys the setup accepts: the text lengths fit a `usize`; the parameter
/// edited exists; typing or erasing in the prompt or the chat template arguments happens
/// at a byte where a character starts (a `String` cannot be cut elsewhere); stepping
/// through the variants (`+`, `-`, Enter) starts from a field of -2 or more, where the
/// step counts from the first variant (the index of a later variant does not survive
/// the conversion the step makes), with a variant count that fits `i32`; `spec_type`
/// has variants to cycle through.
#[verifier::opaque]
pub open spec fn setup_key_ok(s: SetupView, key: Key) -> bool {
    let code = key.code;
    let t = edited_text(s);
    let text_edit = (s.editing_prompt || s.editing_kwargs) && !s.editing_param;
    &&& utf8_len(s.prompt) < usize::MAX
    &&& utf8_len(or_empty(s.kwargs)) < usize::MAX
    &&& s.editing_param ==> s.selected_idx < s.params.len()
    &&& s.editing_param ==> s.param_cursor < usize::MAX && (s.param_cursor == 0 || s.param_cursor <= s.param_buf.len())
    &&& (s.editing_param && s.params[s.selected_idx as int].variants.len() > 0
        && (code == KeyCode::Char('+') || code == KeyCode::Char('-') || code == KeyCode::Enter)) ==> s.field >= -2
        && s.params[s.selected_idx as int].variants.len() < 0x7fff_0000
    &&& (code == KeyCode::Char(' ') && (s.editing_prompt || s.editing_kwargs) && s.cursor <= utf8_len(t)) ==> char_at_byte(t, s.cursor as int) >= 0
    &&& (code is Char && code != KeyCode::Char(' ') && text_edit && !(key.alt && (code == KeyCode::Char('m') || code == KeyCode::Char('p') || code == KeyCode::Char('n') || code == KeyCode::Char('i') || code == KeyCode::Char('c')))
        && code != KeyCode::Char('k') && code != KeyCode::Char('j')) ==> char_at_byte(t, s.cursor as int) >= 0
    &&& (code == KeyCode::Backspace && text_edit && s.cursor > 0) ==> 0 <= char_at_byte(t, s.cursor - 1) < t.len()
    &&& (code == KeyCode::Delete && text_edit && s.cursor < utf8_len(t)) ==> 0 <= char_at_byte(t, s.cursor as int) < t.len()
    &&& (code == KeyCode::Enter && !s.editing_param && !s.editing_prompt && !s.editing_kwargs && !s.editing_n_predict && !s.editing_iters
        && s.selected_idx < s.params.len() && s.params[s.selected_idx as int].name == "spec_type"@) ==>
        s.params[s.selected_idx as int].variants.len() > 0 && s.params[s.selected_idx as int].choice < usize::MAX
}

fn text_byte_len(cfg: &BenchSetupConfig, prompt: bool) -> (r: usize)
    requires
        utf8_len(cfg.prompt@) < usize::MAX,
        utf8_len(or_empty(opt_text(cfg.chat_template_kwargs))) < usize::MAX,
    ensures
        r as nat == utf8_len(if prompt { cfg.prompt@ } else { or_empty(opt_text(cfg.chat_template_kwargs)) }),
{
    if prompt {
        byte_length(cfg.prompt.as_str())
    } else {
        match &cfg.chat_template_kwargs {
            Some(k) => byte_length(k.as_str()),
            None => {
                proof { assert(utf8_len(Seq::<char>::empty()) == 0); }
                0
            },
        }
    }
}

fn find_param_exec(params: &Vec<BenchParam>, name: &str) -> (r: Option<usize>)
    ensures
        match r {
            Some(k) => k as int == find_param(params_view(params@), name@, 0) && k < params@.len(),
            None => find_param(params_view(params@), name@, 0) < 0,
        },
{
    let ghost pv = params_view(params@);
    let mut i: usize = 0;
    while i < params.len()
        invariant
            i <= params.len(),
            pv == params_view(params@),
            find_param(pv, name@, 0) == find_param(pv, name@, i as nat),
        decreases params.len() - i,
    {
        assert(pv[i as int].name == params@[i as int].name@);
        if str_eq(params[i].name.as_str(), name) {
            return Some(i);
        }
        i = i + 1;
    }
    None
}

fn spec_off_exec(params: &Vec<BenchParam>) -> (r: bool)
    ensures
        r == spec_off(params_view(params@)),
{
    match find_param_exec(params, "spec_type") {
        Some(k) => params[k].choice == 0,
        None => true,
    }
}

fn changeable_exec(params: &Vec<BenchParam>, i: usize) -> (r: bool)
    requires
        i < params.len(),
    ensures
        r == changeable(params_view(params@), i as int),
{
    let name = params[i].name.as_str();
    !str_eq(name, "spec_type") && !(str_eq(name, "draft_tokens") && spec_off_exec(params))
}


fn alt_exec(f: &mut SetupFields, cfg: &mut BenchSetupConfig, e: &mut EditState, key: Key) -> (r: bool)
    requires
        utf8_len(old(cfg).prompt@) < usize::MAX,
        utf8_len(or_empty(opt_text(old(cfg).chat_template_kwargs))) < usize::MAX,
    ensures
        r == alt_step(view_of(*old(f), *old(cfg), *old(e)), key) is Some,
        r ==> view_of(*final(f), *final(cfg), *final(e)) == alt_step(view_of(*old(f), *old(cfg), *old(e)), key)->0,
        !r ==> view_of(*final(f), *final(cfg), *final(e)) == view_of(*old(f), *old(cfg), *old(e)),
        others_kept(*old(e), *final(e)),
{
    let code = key.code;
    if !key.alt {
        return false;
    }
    if code == KeyCode::Char('m') {
        f.mode_selection = if f.mode_selection == 0 { 1 } else { 0 };
        cfg.full_mode = f.mode_selection != 0;
    } else if code == KeyCode::Char('p') {
        f.editing_prompt = !f.editing_prompt;
        if f.editing_prompt {
            e.edit_cursor_pos = text_byte_len(cfg, true);
        }
    } else if code == KeyCode::Char('n') {
        e.editing_n_predict = !e.editing_n_predict;
        if e.editing_n_predict {
            e.n_predict_edit_buffer = to_decimal(cfg.n_predict as u64);
        }
    } else if code == KeyCode::Char('i') {
        e.editing_iters = !e.editing_iters;
        if e.editing_iters {
            e.iters_edit_buffer = to_decimal(cfg.num_iterations as u64);
        }
    } else if code == KeyCode::Char('c') {
        f.editing_kwargs = !f.editing_kwargs;
        if f.editing_kwargs {
            e.edit_cursor_pos = text_byte_len(cfg, false);
        }
    } else {
        return false;
    }
    true
}

fn edit_exec(f: &mut SetupFields, cfg: &BenchSetupConfig, e: &EditState) -> (r: BenchSetupAction)
    ensures
        ({
            let (t, a) = edit_step(view_of(*old(f), *cfg, *e));
            &&& r == a
            &&& view_of(*final(f), *cfg, *e) == t
        }),
{
    let i = f.selected_idx;
    if i < cfg.params.len() && changeable_exec(&cfg.params, i) {
        proof {
            assert(params_view(cfg.params@)[i as int].variants.len() == cfg.params@[i as int].variants@.len());
        }
        if cfg.params[i].variants.len() > 0 {
            f.editing_param = true;
            f.field = -1;
            f.param_buf = String::new();
            BenchSetupAction::Nothing
        } else {
            f.editing_param = true;
            f.field = 0;
            BenchSetupAction::StartRangeEdit(i)
        }
    } else {
        BenchSetupAction::Nothing
    }
}

fn move_exec(f: &mut SetupFields, cfg: &BenchSetupConfig, e: &mut EditState, back: bool)
    requires
        utf8_len(cfg.prompt@) < usize::MAX,
        utf8_len(or_empty(opt_text(cfg.chat_template_kwargs))) < usize::MAX,
    ensures
        view_of(*final(f), *cfg, *final(e)) == move_step(view_of(*old(f), *cfg, *old(e)), back),
        others_kept(*old(e), *final(e)),
{
    if f.editing_prompt || f.editing_kwargs {
        if back {
            if e.edit_cursor_pos > 0 {
                e.edit_cursor_pos = e.edit_cursor_pos - 1;
            }
        } else {
            let len = text_byte_len(cfg, f.editing_prompt);
            e.edit_cursor_pos = if e.edit_cursor_pos < len && len - e.edit_cursor_pos > 1 { e.edit_cursor_pos + 1 } else { len };
        }
    } else if back {
        if f.selected_idx > 0 {
            f.selected_idx = f.selected_idx - 1;
        }
    } else {
        let n = cfg.params.len();
        proof {
            assert(params_view(cfg.params@).len() == n);
        }
        let last: usize = if n > 0 { n - 1 } else { 0 };
        f.selected_idx = if f.selected_idx < last && last - f.selected_idx > 1 { f.selected_idx + 1 } else { last };
    }
}


/// Makes the chat template arguments a text when they are unset.
fn ensure_kwargs(cfg: &mut BenchSetupConfig)
    ensures
        opt_text(final(cfg).chat_template_kwargs) == Some(or_empty(opt_text(old(cfg).chat_template_kwargs))),
        final(cfg).prompt@ == old(cfg).prompt@,
        final(cfg).n_predict == old(cfg).n_predict,
        final(cfg).num_iterations == old(cfg).num_iterations,
        final(cfg).full_mode == old(cfg).full_mode,
        params_view(final(cfg).params@) == params_view(old(cfg).params@),
{
    if cfg.chat_template_kwargs.is_none() {
        cfg.chat_template_kwargs = Some(String::new());
    }
}

fn type_exec(f: &SetupFields, cfg: &mut BenchSetupConfig, e: &mut EditState, c: char)
    requires
        f.editing_prompt || old(cfg).chat_template_kwargs is Some,
        char_at_byte(edited_text(view_of(*f, *old(cfg), *old(e))), old(e).edit_cursor_pos as int) >= 0,
        old(e).edit_cursor_pos < usize::MAX,
    ensures
        view_of(*f, *final(cfg), *final(e)) == typed_into_text(view_of(*f, *old(cfg), *old(e)), c),
        others_kept(*old(e), *final(e)),
{
    let ghost s = view_of(*f, *cfg, *e);
    let pos = e.edit_cursor_pos;
    if f.editing_prompt {
        match char_index_at_byte(cfg.prompt.as_str(), pos) {
            Some(k) => {
                proof { lemma_char_at_byte_bound(cfg.prompt@, pos as int); }
                cfg.prompt = insert_char_at(cfg.prompt.as_str(), k, c);
            },
            None => {},
        }
    } else {
        let mut kw = String::new();
        match &cfg.chat_template_kwargs {
            Some(t) => {
                match char_index_at_byte(t.as_str(), pos) {
                    Some(k) => {
                        proof { lemma_char_at_byte_bound(t@, pos as int); }
                        kw = insert_char_at(t.as_str(), k, c);
                    },
                    None => {},
                }
            },
            None => {},
        }
        cfg.chat_template_kwargs = Some(kw);
    }
    e.edit_cursor_pos = pos + 1;
}

fn remove_exec(f: &SetupFields, cfg: &mut BenchSetupConfig, b: usize)
    requires
        f.editing_prompt || old(cfg).chat_template_kwargs is Some,
        0 <= char_at_byte(if f.editing_prompt { old(cfg).prompt@ } else { or_empty(opt_text(old(cfg).chat_template_kwargs)) }, b as int)
            < (if f.editing_prompt { old(cfg).prompt@ } else { or_empty(opt_text(old(cfg).chat_template_kwargs)) }).len(),
    ensures
        ({
            let t = if f.editing_prompt { old(cfg).prompt@ } else { or_empty(opt_text(old(cfg).chat_template_kwargs)) };
            let t2 = t.remove(char_at_byte(t, b as int));
            &&& f.editing_prompt ==> final(cfg).prompt@ == t2 && opt_text(final(cfg).chat_template_kwargs) == opt_text(old(cfg).chat_template_kwargs)
            &&& !f.editing_prompt ==> final(cfg).prompt@ == old(cfg).prompt@ && opt_text(final(cfg).chat_template_kwargs) == Some(t2)
        }),
        final(cfg).n_predict == old(cfg).n_predict,
        final(cfg).num_iterations == old(cfg).num_iterations,
        final(cfg).full_mode == old(cfg).full_mode,
        params_view(final(cfg).params@) == params_view(old(cfg).params@),
{
    if f.editing_prompt {
        match char_index_at_byte(cfg.prompt.as_str(), b) {
            Some(k) => {
                cfg.prompt = remove_char_at(cfg.prompt.as_str(), k);
            },
            None => {},
        }
    } else {
        let mut kw = String::new();
        match &cfg.chat_template_kwargs {
            Some(t) => {
                match char_index_at_byte(t.as_str(), b) {
                    Some(k) => {
                        kw = remove_char_at(t.as_str(), k);
                    },
                    None => {},
                }
            },
            None => {},
        }
        cfg.chat_template_kwargs = Some(kw);
    }
}


fn toggle_param(cfg: &mut BenchSetupConfig, i: usize)
    requires
        i < old(cfg).params.len(),
    ensures
        ({
            let pv = params_view(old(cfg).params@);
            params_view(final(cfg).params@) == pv.update(i as int, BenchParamView { enabled: !pv[i as int].enabled, ..pv[i as int] })
        }),
        final(cfg).prompt@ == old(cfg).prompt@,
        opt_text(final(cfg).chat_template_kwargs) == opt_text(old(cfg).chat_template_kwargs),
        final(cfg).n_predict == old(cfg).n_predict,
        final(cfg).num_iterations == old(cfg).num_iterations,
        final(cfg).full_mode == old(cfg).full_mode,
{
    let ghost before = cfg.params@;
    let mut p = cfg.params.remove(i);
    p.enabled = !p.enabled;
    cfg.params.insert(i, p);
    proof {
        let pv = params_view(before);
        assert(params_view(cfg.params@) =~= pv.update(i as int, BenchParamView { enabled: !pv[i as int].enabled, ..pv[i as int] })) by {
            assert forall|k: int| 0 <= k < cfg.params@.len() implies params_view(cfg.params@)[k] == pv.update(i as int, BenchParamView { enabled: !pv[i as int].enabled, ..pv[i as int] })[k] by {
                if k < i {
                    assert(cfg.params@[k] == before[k]);
                } else if k > i {
                    assert(cfg.params@[k] == before[k]);
                }
            }
        }
    }
}

fn space_exec(f: &SetupFields, cfg: &mut BenchSetupConfig, e: &mut EditState, key: Key)
    requires
        key.code == KeyCode::Char(' '),
        setup_key_ok(view_of(*f, *old(cfg), *old(e)), key),
    ensures
        view_of(*f, *final(cfg), *final(e)) == space_step(view_of(*f, *old(cfg), *old(e))),
        others_kept(*old(e), *final(e)),
{
    reveal(setup_key_ok);
    let ghost s = view_of(*f, *cfg, *e);
    if f.editing_prompt || f.editing_kwargs {
        if !f.editing_prompt {
            ensure_kwargs(cfg);
        }
        let len = text_byte_len(cfg, f.editing_prompt);
        if e.edit_cursor_pos <= len {
            proof {
                assert(utf8_len(edited_text(s)) < usize::MAX);
            }
            type_exec(f, cfg, e, ' ');
        }
    } else if f.selected_idx < cfg.params.len() && changeable_exec(&cfg.params, f.selected_idx) {
        toggle_param(cfg, f.selected_idx);
    }
}

fn char_exec(f: &mut SetupFields, cfg: &mut BenchSetupConfig, e: &mut EditState, key: Key, c: char)
    requires
        key.code == KeyCode::Char(c),
        c != ' ',
        !(key.alt && (c == 'm' || c == 'p' || c == 'n' || c == 'i' || c == 'c')),
        c != 'k',
        c != 'j',
        setup_key_ok(view_of(*old(f), *old(cfg), *old(e)), key),
    ensures
        view_of(*final(f), *final(cfg), *final(e)) == char_step(view_of(*old(f), *old(cfg), *old(e)), c),
        others_kept(*old(e), *final(e)),
{
    reveal(setup_key_ok);
    let ghost s = view_of(*f, *cfg, *e);
    if f.editing_param {
        let i = f.selected_idx;
        proof {
            assert(params_view(cfg.params@)[i as int].variants.len() == cfg.params@[i as int].variants@.len());
        }
        if cfg.params[i].variants.len() == 0 {
            if ('0' <= c && c <= '9') || c == '.' || c == '-' || c == 'e' || c == 'E' {
                let mut ed = TextEditor { buffer: &mut f.param_buf, cursor: &mut f.param_cursor };
                ed.insert_char(c);
            }
        } else {
            if '0' <= c && c <= '9' {
                let d = (c as u32) - ('0' as u32);
                if (d as usize) < cfg.params[i].variants.len() {
                    f.field = -((d as i32) + 2);
                }
            }
        }
    } else if f.editing_prompt || f.editing_kwargs {
        if !f.editing_prompt {
            ensure_kwargs(cfg);
        }
        proof {
            lemma_char_at_byte_within(edited_text(s), e.edit_cursor_pos as int);
        }
        type_exec(f, cfg, e, c);
    } else if e.editing_n_predict {
        if '0' <= c && c <= '9' {
            push_char(&mut e.n_predict_edit_buffer, c);
        }
    } else if e.editing_iters && '0' <= c && c <= '9' {
        push_char(&mut e.iters_edit_buffer, c);
    }
}


fn backspace_exec(f: &mut SetupFields, cfg: &mut BenchSetupConfig, e: &mut EditState, key: Key)
    requires
        key.code == KeyCode::Backspace,
        setup_key_ok(view_of(*old(f), *old(cfg), *old(e)), key),
    ensures
        view_of(*final(f), *final(cfg), *final(e)) == backspace_step(view_of(*old(f), *old(cfg), *old(e))),
        others_kept(*old(e), *final(e)),
{
    reveal(setup_key_ok);
    if f.editing_param {
        let mut ed = TextEditor { buffer: &mut f.param_buf, cursor: &mut f.param_cursor };
        ed.backspace();
    } else if f.editing_prompt || f.editing_kwargs {
        if !f.editing_prompt {
            ensure_kwargs(cfg);
        }
        let pos = e.edit_cursor_pos;
        if pos > 0 {
            remove_exec(f, cfg, pos - 1);
            e.edit_cursor_pos = pos - 1;
        }
    } else if e.editing_n_predict {
        pop_char(&mut e.n_predict_edit_buffer);
    } else if e.editing_iters {
        pop_char(&mut e.iters_edit_buffer);
    } else if f.selected_idx > 0 {
        f.selected_idx = f.selected_idx - 1;
    }
}

fn delete_exec(f: &mut SetupFields, cfg: &mut BenchSetupConfig, e: &mut EditState, key: Key)
    requires
        key.code == KeyCode::Delete,
        setup_key_ok(view_of(*old(f), *old(cfg), *old(e)), key),
    ensures
        view_of(*final(f), *final(cfg), *final(e)) == delete_step(view_of(*old(f), *old(cfg), *old(e))),
        others_kept(*old(e), *final(e)),
{
    reveal(setup_key_ok);
    if f.editing_param {
        let mut ed = TextEditor { buffer: &mut f.param_buf, cursor: &mut f.param_cursor };
        ed.delete();
    } else if f.editing_prompt || f.editing_kwargs {
        if !f.editing_prompt {
            ensure_kwargs(cfg);
        }
        let len = text_byte_len(cfg, f.editing_prompt);
        if e.edit_cursor_pos < len {
            remove_exec(f, cfg, e.edit_cursor_pos);
        }
    } else if e.editing_n_predict {
        pop_char(&mut e.n_predict_edit_buffer);
    } else if e.editing_iters {
        pop_char(&mut e.iters_edit_buffer);
    }
}

fn clamp_u32_exec(v: u32, lo: u32, hi: u32) -> (r: u32)
    ensures
        r == clamp_u32(v as nat, lo, hi),
{
    if v < lo { lo } else if v > hi { hi } else { v }
}

fn next_spec_choice_exec(cfg: &mut BenchSetupConfig, i: usize)
    requires
        i < old(cfg).params.len(),
        old(cfg).params@[i as int].variants@.len() > 0,
        old(cfg).params@[i as int].choice < usize::MAX,
    ensures
        params_view(final(cfg).params@) == next_spec_choice(params_view(old(cfg).params@), i as int),
        final(cfg).prompt@ == old(cfg).prompt@,
        opt_text(final(cfg).chat_template_kwargs) == opt_text(old(cfg).chat_template_kwargs),
        final(cfg).n_predict == old(cfg).n_predict,
        final(cfg).num_iterations == old(cfg).num_iterations,
        final(cfg).full_mode == old(cfg).full_mode,
{
    let ghost pv = params_view(cfg.params@);
    let ghost orig = cfg.params@;
    let mut p = cfg.params.remove(i);
    let n = p.variants.len();
    let next = (p.choice + 1) % n;
    p.choice = next;
    cfg.params.insert(i, p);
    let ghost updated = pv.update(i as int, BenchParamView { choice: next, ..pv[i as int] });
    assert(params_view(cfg.params@) =~= updated) by {
        assert forall|k: int| 0 <= k < cfg.params@.len() implies params_view(cfg.params@)[k] == updated[k] by {
            if k != i {
                assert(cfg.params@[k] == orig[k]);
            }
        }
    }
    if next == 0 {
        let mut k: usize = 0;
        while k < cfg.params.len()
            invariant
                k <= cfg.params.len(),
                cfg.params@.len() == updated.len(),
                forall|j: int| 0 <= j < k ==> params_view(cfg.params@)[j] == (if updated[j].name == "draft_tokens"@ {
                    BenchParamView { enabled: false, ..updated[j] } } else { updated[j] }),
                forall|j: int| k <= j < cfg.params@.len() ==> params_view(cfg.params@)[j] == updated[j],
                cfg.prompt@ == old(cfg).prompt@,
                opt_text(cfg.chat_template_kwargs) == opt_text(old(cfg).chat_template_kwargs),
                cfg.n_predict == old(cfg).n_predict,
                cfg.num_iterations == old(cfg).num_iterations,
                cfg.full_mode == old(cfg).full_mode,
            decreases cfg.params.len() - k,
        {
            let ghost before = cfg.params@;
            assert(params_view(before)[k as int] == updated[k as int]);
            assert(params_view(before)[k as int].name == before[k as int].name@);
            if str_eq(cfg.params[k].name.as_str(), "draft_tokens") {
                let mut q = cfg.params.remove(k);
                q.enabled = false;
                cfg.params.insert(k, q);
                assert forall|j: int| 0 <= j < cfg.params@.len() && j != k implies cfg.params@[j] == before[j] by {}
                assert forall|j: int| 0 <= j < k implies params_view(cfg.params@)[j] == (if updated[j].name == "draft_tokens"@ {
                    BenchParamView { enabled: false, ..updated[j] } } else { updated[j] }) by {
                    assert(params_view(cfg.params@)[j] == params_view(before)[j]);
                }
                assert forall|j: int| k < j < cfg.params@.len() implies params_view(cfg.params@)[j] == updated[j] by {
                    assert(params_view(cfg.params@)[j] == params_view(before)[j]);
                }
            }
            k = k + 1;
        }
        assert(params_view(cfg.params@) =~= next_spec_choice(pv, i as int));
    } else {
        assert(params_view(cfg.params@) =~= next_spec_choice(pv, i as int));
    }
}


fn enter_exec(f: &mut SetupFields, cfg: &mut BenchSetupConfig, e: &mut EditState, key: Key, model_selected: bool) -> (r: (BenchSetupAction, Option<String>, bool))
    requires
        key.code == KeyCode::Enter,
        setup_key_ok(view_of(*old(f), *old(cfg), *old(e)), key),
    ensures
        ({
            let (t, a, c) = enter_step(view_of(*old(f), *old(cfg), *old(e)), model_selected);
            &&& r.0 == a
            &&& opt_text(r.1) == c
            &&& r.2 == t.open
            &&& view_of(*final(f), *final(cfg), *final(e)) == SetupView { open: true, ..t }
        }),
        others_kept(*old(e), *final(e)),
{
    reveal(setup_key_ok);
    if f.editing_param {
        let i = f.selected_idx;
        proof {
            assert(params_view(cfg.params@)[i as int].variants.len() == cfg.params@[i as int].variants@.len());
        }
        let n = cfg.params[i].variants.len();
        if n > 0 {
            let next = 1 % n;
            f.field = -((next as i32) + 2);
            (BenchSetupAction::FixRange(i), None, true)
        } else {
            let mut taken = String::new();
            std::mem::swap(&mut taken, &mut f.param_buf);
            f.editing_param = false;
            (BenchSetupAction::CommitRange { param: i, field: f.field }, Some(taken), true)
        }
    } else if f.editing_prompt {
        f.editing_prompt = false;
        (BenchSetupAction::Nothing, None, true)
    } else if f.editing_kwargs {
        f.editing_kwargs = false;
        (BenchSetupAction::Nothing, None, true)
    } else if e.editing_n_predict {
        match parse_u32(e.n_predict_edit_buffer.as_str()) {
            Some(v) => {
                cfg.n_predict = clamp_u32_exec(v, 1, 16384);
            },
            None => {},
        }
        e.editing_n_predict = false;
        (BenchSetupAction::Nothing, None, true)
    } else if e.editing_iters {
        match parse_u32(e.iters_edit_buffer.as_str()) {
            Some(v) => {
                cfg.num_iterations = clamp_u32_exec(v, 1, 100);
            },
            None => {},
        }
        e.editing_iters = false;
        (BenchSetupAction::Nothing, None, true)
    } else if f.selected_idx < cfg.params.len() && str_eq(cfg.params[f.selected_idx].name.as_str(), "spec_type") {
        proof {
            let i = f.selected_idx as int;
            assert(params_view(cfg.params@)[i].name == cfg.params@[i].name@);
            assert(params_view(cfg.params@)[i].variants.len() == cfg.params@[i].variants@.len());
        }
        next_spec_choice_exec(cfg, f.selected_idx);
        (BenchSetupAction::Nothing, None, true)
    } else if model_selected {
        (BenchSetupAction::Start, None, false)
    } else {
        (BenchSetupAction::Nothing, None, true)
    }
}

proof fn lemma_text_steps_keep_open(s: SetupView, c: char)
    ensures
        space_step(s).open == s.open,
        char_step(s, c).open == s.open,
        backspace_step(s).open == s.open,
        delete_step(s).open == s.open,
{
}

#[verifier::spinoff_prover]
fn text_key_exec(f: &mut SetupFields, cfg: &mut BenchSetupConfig, e: &mut EditState, key: Key, model_selected: bool) -> (r: (BenchSetupAction, Option<String>, bool))
    requires
        setup_key_ok(view_of(*old(f), *old(cfg), *old(e)), key),
        !(key.alt && (key.code == KeyCode::Char('m') || key.code == KeyCode::Char('p') || key.code == KeyCode::Char('n')
            || key.code == KeyCode::Char('i') || key.code == KeyCode::Char('c'))),
        key.code != KeyCode::Char('k'),
        key.code != KeyCode::Char('j'),
    ensures
        ({
            let (t, a, c) = text_key_step(view_of(*old(f), *old(cfg), *old(e)), key, model_selected);
            &&& r.0 == a
            &&& opt_text(r.1) == c
            &&& r.2 == t.open
            &&& view_of(*final(f), *final(cfg), *final(e)) == SetupView { open: true, ..t }
        }),
        others_kept(*old(e), *final(e)),
{
    let code = key.code;
    proof {
        let c = match code { KeyCode::Char(c) => c, _ => ' ' };
        lemma_text_steps_keep_open(view_of(*f, *cfg, *e), c);
    }
    if code == KeyCode::Char(' ') {
        space_exec(f, cfg, e, key);
        (BenchSetupAction::Nothing, None, true)
    } else if let KeyCode::Char(c) = code {
        char_exec(f, cfg, e, key, c);
        (BenchSetupAction::Nothing, None, true)
    } else if code == KeyCode::Backspace {
        backspace_exec(f, cfg, e, key);
        (BenchSetupAction::Nothing, None, true)
    } else if code == KeyCode::Delete {
        delete_exec(f, cfg, e, key);
        (BenchSetupAction::Nothing, None, true)
    } else if code == KeyCode::Enter {
        enter_exec(f, cfg, e, key, model_selected)
    } else if code == KeyCode::Esc {
        if f.editing_param {
            f.editing_param = false;
            f.param_buf = String::new();
        } else if f.editing_prompt {
            f.editing_prompt = false;
        } else if f.editing_kwargs {
            f.editing_kwargs = false;
        } else if e.editing_n_predict {
            e.editing_n_predict = false;
        } else if e.editing_iters {
            e.editing_iters = false;
        } else {
            return (BenchSetupAction::Nothing, None, false);
        }
        (BenchSetupAction::Nothing, None, true)
    } else {
        (BenchSetupAction::Nothing, None, true)
    }
}

fn plain_key_exec(f: &mut SetupFields, cfg: &mut BenchSetupConfig, e: &mut EditState, key: Key, model_selected: bool) -> (r: (BenchSetupAction, Option<String>, bool))
    requires
        setup_key_ok(view_of(*old(f), *old(cfg), *old(e)), key),
        alt_step(view_of(*old(f), *old(cfg), *old(e)), key) is None,
    ensures
        ({
            let (t, a, c) = plain_key_step(view_of(*old(f), *old(cfg), *old(e)), key, model_selected);
            &&& r.0 == a
            &&& opt_text(r.1) == c
            &&& r.2 == t.open
            &&& view_of(*final(f), *final(cfg), *final(e)) == SetupView { open: true, ..t }
        }),
        others_kept(*old(e), *final(e)),
{
    reveal(setup_key_ok);
    let code = key.code;
    if code == KeyCode::Char('e') && !f.editing_prompt && !f.editing_kwargs && !e.editing_n_predict && !e.editing_iters && !f.editing_param {
        let a = edit_exec(f, cfg, e);
        (a, None, true)
    } else if code == KeyCode::Up || code == KeyCode::Char('k') || code == KeyCode::Left {
        move_exec(f, cfg, e, true);
        (BenchSetupAction::Nothing, None, true)
    } else if code == KeyCode::Down || code == KeyCode::Char('j') || code == KeyCode::Right {
        move_exec(f, cfg, e, false);
        (BenchSetupAction::Nothing, None, true)
    } else if code == KeyCode::Tab || code == KeyCode::BackTab {
        if f.editing_param {
            let i = f.selected_idx;
            proof {
                assert(params_view(cfg.params@)[i as int].variants.len() == cfg.params@[i as int].variants@.len());
            }
            if cfg.params[i].variants.len() == 0 {
                let nf: i32 = if code == KeyCode::Tab {
                    if f.field >= 2 { 2 } else { f.field + 1 }
                } else {
                    if f.field <= 0 { 2 } else { f.field - 1 }
                };
                f.field = nf;
                return (BenchSetupAction::ShowRangeField { param: i, field: nf }, None, true);
            }
        }
        (BenchSetupAction::Nothing, None, true)
    } else if (code == KeyCode::Char('+') || code == KeyCode::Char('-')) && f.editing_param && {
        proof {
            assert(params_view(cfg.params@)[f.selected_idx as int].variants.len() == cfg.params@[f.selected_idx as int].variants@.len());
        }
        cfg.params[f.selected_idx].variants.len() > 0
    } {
        let n = cfg.params[f.selected_idx].variants.len();
        let next = if code == KeyCode::Char('+') { 1 % n } else { (n - 1) % n };
        f.field = -((next as i32) + 2);
        (BenchSetupAction::Nothing, None, true)
    } else {
        text_key_exec(f, cfg, e, key, model_selected)
    }
}

fn step_exec(f: &mut SetupFields, cfg: &mut BenchSetupConfig, e: &mut EditState, key: Key, model_selected: bool) -> (r: (BenchSetupAction, Option<String>, bool))
    requires
        setup_key_ok(view_of(*old(f), *old(cfg), *old(e)), key),
    ensures
        ({
            let (t, a, c) = setup_step(view_of(*old(f), *old(cfg), *old(e)), key, model_selected);
            &&& r.0 == a
            &&& opt_text(r.1) == c
            &&& r.2 == t.open
            &&& view_of(*final(f), *final(cfg), *final(e)) == SetupView { open: true, ..t }
        }),
        others_kept(*old(e), *final(e)),
{
    proof {
        reveal(setup_key_ok);
    }
    if alt_exec(f, cfg, e, key) {
        return (BenchSetupAction::Nothing, None, true);
    }
    plain_key_exec(f, cfg, e, key, model_selected)
}

/// The setup as the overlay `m` holds it, with the configuration and editing state; a
/// closed setup (any other overlay) has its own fields at rest.
pub open spec fn mode_setup(m: ModeView, cfg: BenchSetupConfig, e: EditState) -> SetupView {
    let base = SetupView {
        open: false,
        selected_idx: 0,
        editing_param: false,
        field: 0,
        param_buf: Seq::empty(),
        param_cursor: 0,
        mode_selection: 0,
        editing_prompt: false,
        editing_kwargs: false,
        cursor: e.edit_cursor_pos,
        editing_n_predict: e.editing_n_predict,
        n_predict_buf: e.n_predict_edit_buffer@,
        editing_iters: e.editing_iters,
        iters_buf: e.iters_edit_buffer@,
        prompt: cfg.prompt@,
        kwargs: opt_text(cfg.chat_template_kwargs),
        n_predict: cfg.n_predict,
        num_iterations: cfg.num_iterations,
        full_mode: cfg.full_mode,
        params: params_view(cfg.params@),
    };
    match m {
        ModeView::BenchTuneSetup {
            selected_idx,
            editing_param,
            editing_param_field,
            param_edit_buffer,
            param_edit_cursor_pos,
            bench_mode_selection,
            editing_prompt,
            editing_kwargs,
        } => SetupView {
            open: true,
            selected_idx,
            editing_param,
            field: editing_param_field,
            param_buf: param_edit_buffer,
            param_cursor: param_edit_cursor_pos,
            mode_selection: bench_mode_selection,
            editing_prompt,
            editing_kwargs,
            ..base
        },
        _ => base,
    }
}

/// `t` once the overlay is closed: its own fields at rest.
pub open spec fn closed(t: SetupView) -> SetupView {
    SetupView {
        open: false,
        selected_idx: 0,
        editing_param: false,
        field: 0,
        param_buf: Seq::empty(),
        param_cursor: 0,
        mode_selection: 0,
        editing_prompt: false,
        editing_kwargs: false,
        ..t
    }
}

/// Keys of the benchmark tuning setup (see `setup_step`). `model_selected` tells whether
/// a model is selected to run with. The setup closes on Esc (nothing being edited) and on
/// starting the run; the application carries out the action.
pub fn handle_bench_tune_setup_key(
    mode: &mut GlobalMode,
    config: &mut BenchSetupConfig,
    edit: &mut EditState,
    key: Key,
    model_selected: bool,
) -> (r: BenchSetupOutcome)
    requires
        old(mode).view() is BenchTuneSetup ==> setup_key_ok(mode_setup(old(mode).view(), *old(config), *old(edit)), key),
    ensures
        old(mode).view() is BenchTuneSetup ==> ({
            let (t, a, c) = setup_step(mode_setup(old(mode).view(), *old(config), *old(edit)), key, model_selected);
            &&& r.action == a
            &&& opt_text(r.committed) == c
            &&& mode_setup(final(mode).view(), *final(config), *final(edit)) == (if t.open { t } else { closed(t) })
            &&& (t.open ==> final(mode).view() is BenchTuneSetup)
            &&& (!t.open ==> final(mode).view() is Normal)
        }),
        !(old(mode).view() is BenchTuneSetup) ==> final(mode).view() == old(mode).view() && r.action == BenchSetupAction::Nothing
            && r.committed is None && view_of_config_kept(*old(config), *final(config)) && *final(edit) == *old(edit),
        others_kept(*old(edit), *final(edit)),
{
    let mut m = GlobalMode::Normal;
    std::mem::swap(&mut m, mode);
    match m {
        GlobalMode::BenchTuneSetup {
            selected_idx,
            editing_param,
            editing_param_field,
            param_edit_buffer,
            param_edit_cursor_pos,
            bench_mode_selection,
            editing_prompt,
            editing_kwargs,
        } => {
            let mut f = SetupFields {
                selected_idx,
                editing_param,
                field: editing_param_field,
                param_buf: param_edit_buffer,
                param_cursor: param_edit_cursor_pos,
                mode_selection: bench_mode_selection,
                editing_prompt,
                editing_kwargs,
            };
            let (action, committed, open) = step_exec(&mut f, config, edit, key, model_selected);
            if open {
                *mode = GlobalMode::BenchTuneSetup {
                    selected_idx: f.selected_idx,
                    editing_param: f.editing_param,
                    editing_param_field: f.field,
                    param_edit_buffer: f.param_buf,
                    param_edit_cursor_pos: f.param_cursor,
                    bench_mode_selection: f.mode_selection,
                    editing_prompt: f.editing_prompt,
                    editing_kwargs: f.editing_kwargs,
                };
            }
            BenchSetupOutcome { action, committed }
        },
        other => {
            *mode = other;
            BenchSetupOutcome { action: BenchSetupAction::Nothing, committed: None }
        },
    }
}

/// The configuration is left as it was.
pub open spec fn view_of_config_kept(a: BenchSetupConfig, b: BenchSetupConfig) -> bool {
    &&& b.prompt@ == a.prompt@
    &&& opt_text(b.chat_template_kwargs) == opt_text(a.chat_template_kwargs)
    &&& b.n_predict == a.n_predict
    &&& b.num_iterations == a.num_iterations
    &&& b.full_mode == a.full_mode
    &&& params_view(b.params@) == params_view(a.params@)
}

/// Puts `text` (a range value the application wrote) in the setup's edit text, with the
/// cursor at its byte length, as the setup does after `StartRangeEdit` and
/// `ShowRangeField`.
pub fn set_param_text(mode: &mut GlobalMode, text: String)
    requires
        utf8_len(text@) <= usize::MAX,
    ensures
        old(mode).view() matches ModeView::BenchTuneSetup {
            selected_idx, editing_param, editing_param_field, bench_mode_selection, editing_prompt, editing_kwargs, ..
        } ==> final(mode).view() == (ModeView::BenchTuneSetup {
            selected_idx,
            editing_param,
            editing_param_field,
            param_edit_buffer: text@,
            param_edit_cursor_pos: utf8_len(text@) as usize,
            bench_mode_selection,
            editing_prompt,
            editing_kwargs,
        }),
        !(old(mode).view() is BenchTuneSetup) ==> final(mode).view() == old(mode).view(),
{
    let mut m = GlobalMode::Normal;
    std::mem::swap(&mut m, mode);
    match m {
        GlobalMode::BenchTuneSetup {
            selected_idx,
            editing_param,
            editing_param_field,
            param_edit_buffer: _,
            param_edit_cursor_pos: _,
            bench_mode_selection,
            editing_prompt,
            editing_kwargs,
        } => {
            let len = byte_length(text.as_str());
            *mode = GlobalMode::BenchTuneSetup {
                selected_idx,
                editing_param,
                editing_param_field,
                param_edit_buffer: text,
                param_edit_cursor_pos: len,
                bench_mode_selection,
                editing_prompt,
                editing_kwargs,
            };
        },
        other => {
            *mode = other;
        },
    }
}


// ───────────────────────── laws ─────────────────────────

/// A parameter is edited only while it exists: whatever key is pressed, the parameter
/// list keeps its length and the selection stays on a parameter while one is edited.
pub proof fn law_edited_param_exists(s: SetupView, key: Key, model_selected: bool)
    requires
        setup_key_ok(s, key),
        s.editing_param ==> s.selected_idx < s.params.len(),
    ensures
        ({
            let t = setup_step(s, key, model_selected).0;
            &&& t.params.len() == s.params.len()
            &&& t.editing_param ==> t.selected_idx < t.params.len()
        }),
{
    reveal(setup_key_ok);
}

/// With nothing being edited, Esc closes the setup.
pub proof fn law_escape_closes_when_idle(s: SetupView, key: Key, model_selected: bool)
    requires
        idle(s),
        key.code == KeyCode::Esc,
    ensures
        !setup_step(s, key, model_selected).0.open,
        setup_step(s, key, model_selected).1 == BenchSetupAction::Nothing,
{
}

/// Alt+M twice gives the mode selection back, and the run mode always follows it.
pub proof fn law_mode_toggle(s: SetupView)
    requires
        s.mode_selection <= 1,
    ensures
        ({
            let alt_m = Key { code: KeyCode::Char('m'), ctrl: false, alt: true, shift: false };
            let once = setup_step(s, alt_m, false).0;
            let twice = setup_step(once, alt_m, false).0;
            &&& once.full_mode == (once.mode_selection != 0)
            &&& twice.mode_selection == s.mode_selection
            &&& twice.full_mode == (s.mode_selection != 0)
        }),
{
}

/// When Enter brings `spec_type` back to its first variant (speculative decoding off),
/// every `draft_tokens` parameter is switched off.
pub proof fn law_spec_off_disables_draft_tokens(params: Seq<BenchParamView>, i: int, j: int)
    requires
        0 <= i < params.len(),
        0 <= j < params.len(),
        params[i].variants.len() > 0,
        (params[i].choice + 1) % (params[i].variants.len() as int) == 0,
        params[j].name == "draft_tokens"@,
    ensures
        !next_spec_choice(params, i)[j].enabled,
        next_spec_choice(params, i)[i].choice == 0,
{
    let p = params[i];
    let next = ((p.choice + 1) % (p.variants.len() as int)) as usize;
    let updated = params.update(i, BenchParamView { choice: next, ..p });
    assert(next == 0);
    if i == j {
        assert(updated[j].name == "draft_tokens"@);
    }
}

} // verus!
