//! Keys of the model settings panel: moving through the fields, the shortcuts, the fields
//! with a behaviour of their own (toggles, pickers, the GPU layers), and typing a value.
use vstd::prelude::*;
use crate::keys::{Key, KeyCode};
use crate::text::{pop_char, push_char, str_eq, to_decimal, decimal_text};

verus! {

/// How many model layers go to the GPU.
#[derive(Debug, Clone, Copy, PartialEq, Eq, Structural)]
pub enum GpuLayersMode {
    /// Let the server decide.
    Auto,
    Specific(u32),
    All,
}

/// `total` kept within 1..=256.
pub open spec fn clamp_layers(total: u32) -> u32 {
    if total < 1 { 1 } else if total > 256 { 256 } else { total }
}

/// Left on the GPU layers field: from Auto to the model's layer count (1..=256), down to
/// 0, then Auto; from All to the layer count.
pub open spec fn gpu_left(mode: GpuLayersMode, total: u32) -> GpuLayersMode {
    match mode {
        GpuLayersMode::Auto => GpuLayersMode::Specific(clamp_layers(total)),
        GpuLayersMode::Specific(n) => if n == 0 {
            GpuLayersMode::Auto
        } else {
            GpuLayersMode::Specific((n - 1) as u32)
        },
        GpuLayersMode::All => GpuLayersMode::Specific(clamp_layers(total)),
    }
}

/// Right on the GPU layers field: Auto, 1, 2, ... up to the model's layer count, All,
/// then Auto again.
pub open spec fn gpu_right(mode: GpuLayersMode, total: u32) -> GpuLayersMode {
    match mode {
        GpuLayersMode::Auto => GpuLayersMode::Specific(1),
        GpuLayersMode::Specific(n) => if n == total {
            GpuLayersMode::All
        } else {
            GpuLayersMode::Specific((n + 1) as u32)
        },
        GpuLayersMode::All => GpuLayersMode::Auto,
    }
}

fn clamp_layers_exec(total: u32) -> (r: u32)
    ensures
        r == clamp_layers(total),
{
    if total < 1 { 1 } else if total > 256 { 256 } else { total }
}

/// A setting Enter switches on or off.
#[derive(Debug, Clone, Copy, PartialEq, Eq, Structural)]
pub enum BoolSetting {
    Mlock,
    FlashAttn,
    KvCacheOffload,
    UniformCache,
    RopeYarn,
}

/// What the application does after a key on the settings panel.
#[derive(Debug, Clone, Copy, PartialEq, Eq, Structural)]
pub enum SettingsAction {
    Nothing,
    /// Ctrl+S: save the settings of the model.
    Save,
    /// Ctrl+R with unsaved changes: ask before resetting.
    ConfirmReset,
    /// Ctrl+R without changes: reset to the defaults.
    ResetToDefaults,
    OpenProfilePicker,
    /// Ctrl+E: the field's own toggle.
    ToggleField,
    OpenPromptPicker,
    Toggle(BoolSetting),
    NextCacheTypeK,
    NextCacheTypeV,
    OpenMaxConcurrentPicker,
    OpenTags,
    OpenYarnSettings,
    OpenSpecTypePicker,
    /// Step the selected field's value up or down.
    Adjust { up: bool },
    /// Apply the typed text (in `SettingsOutcome::applied`) to the selected field.
    ApplyEdit,
}

/// Where the settings panel stands: the selected field, the scroll, the typed text.
#[derive(Debug)]
pub struct SettingsCursor {
    pub selected_idx: usize,
    pub scroll_offset: usize,
    pub edit_buffer: String,
}

/// The answer to a key: the action, the typed text to apply, and whether the panel is
/// drawn anew, the VRAM estimate computed anew, and the global settings synchronised.
#[derive(Debug)]
pub struct SettingsOutcome {
    pub action: SettingsAction,
    pub applied: Option<String>,
    pub redraw: bool,
    pub recalc_vram: bool,
    pub sync_global: bool,
}

/// The panel and the answer after a key, as plain values.
pub struct SettingsStep {
    pub idx: usize,
    pub scroll: usize,
    pub buf: Seq<char>,
    pub gpu: GpuLayersMode,
    pub action: SettingsAction,
    pub applied: Option<Seq<char>>,
    pub redraw: bool,
    pub recalc_vram: bool,
    pub sync_global: bool,
}

pub open spec fn step_of(
    idx: usize,
    scroll: usize,
    buf: Seq<char>,
    gpu: GpuLayersMode,
    action: SettingsAction,
    redraw: bool,
    recalc_vram: bool,
    sync_global: bool,
) -> SettingsStep {
    SettingsStep { idx, scroll, buf, gpu, action, applied: None, redraw, recalc_vram, sync_global }
}

pub open spec fn ctrl_on(key: Key, c: char) -> bool {
    key.code == KeyCode::Char(c) && key.ctrl
}

pub open spec fn last_index(count: usize) -> int {
    if count > 0 { count - 1 } else { 0 }
}

/// The moves through the fields (`count` of them); typed text is dropped first.
pub open spec fn nav_step(idx: usize, scroll: usize, buf: Seq<char>, gpu: GpuLayersMode, count: usize, key: Key) -> Option<SettingsStep> {
    let code = key.code;
    let typed = buf.len() > 0;
    if code == KeyCode::Up || code == KeyCode::Char('k') {
        Some(if typed { step_of(idx, scroll, Seq::empty(), gpu, SettingsAction::Nothing, true, false, false) }
        else { step_of((if idx >= 1 { idx - 1 } else { 0 }) as usize, scroll, buf, gpu, SettingsAction::Nothing, true, false, false) })
    } else if code == KeyCode::Down || code == KeyCode::Char('j') {
        Some(if typed { step_of(idx, scroll, Seq::empty(), gpu, SettingsAction::Nothing, true, false, false) }
        else { step_of((if idx + 1 < last_index(count) { idx + 1 } else { last_index(count) }) as usize, scroll, buf, gpu, SettingsAction::Nothing, true, false, false) })
    } else if (code == KeyCode::PageDown || code == KeyCode::Char('d')) && key.ctrl {
        Some(if typed { step_of(idx, scroll, Seq::empty(), gpu, SettingsAction::Nothing, true, false, false) }
        else { step_of((if idx + 10 < last_index(count) { idx + 10 } else { last_index(count) }) as usize, scroll, buf, gpu, SettingsAction::Nothing, true, false, false) })
    } else if (code == KeyCode::PageUp || code == KeyCode::Char('u')) && key.ctrl {
        Some(if typed { step_of(idx, scroll, Seq::empty(), gpu, SettingsAction::Nothing, true, false, false) }
        else { step_of((if idx >= 10 { idx - 10 } else { 0 }) as usize, scroll, buf, gpu, SettingsAction::Nothing, true, false, false) })
    } else if code == KeyCode::PageDown {
        let moved: int = if idx + 5 > usize::MAX { usize::MAX as int } else { idx + 5 };
        Some(step_of(
            (if moved >= count { last_index(count) } else { moved }) as usize,
            (if scroll + 5 > usize::MAX { usize::MAX as int } else { scroll + 5 }) as usize,
            buf, gpu, SettingsAction::Nothing, true, false, false))
    } else if code == KeyCode::PageUp {
        Some(step_of(
            (if idx >= 5 { idx - 5 } else { 0 }) as usize,
            (if scroll >= 5 { scroll - 5 } else { 0 }) as usize,
            buf, gpu, SettingsAction::Nothing, true, false, false))
    } else {
        None
    }
}

/// The shortcuts: Ctrl+S saves, Ctrl+R resets (asking first when there are unsaved
/// changes), Ctrl+P opens the profiles, Ctrl+E runs the field's own toggle.
pub open spec fn shortcut_step(idx: usize, scroll: usize, buf: Seq<char>, gpu: GpuLayersMode, has_field: bool, dirty: bool, key: Key) -> Option<SettingsStep> {
    if ctrl_on(key, 's') {
        Some(step_of(idx, scroll, buf, gpu, SettingsAction::Save, false, false, false))
    } else if ctrl_on(key, 'r') {
        Some(step_of(idx, scroll, buf, gpu, if dirty { SettingsAction::ConfirmReset } else { SettingsAction::ResetToDefaults }, false, false, false))
    } else if ctrl_on(key, 'p') {
        Some(step_of(idx, scroll, buf, gpu, SettingsAction::OpenProfilePicker, false, false, false))
    } else if ctrl_on(key, 'e') {
        Some(step_of(idx, scroll, buf, gpu, if has_field { SettingsAction::ToggleField } else { SettingsAction::Nothing }, true, true, true))
    } else {
        None
    }
}

/// Enter on a field that opens a picker or switches a setting, with nothing typed.
pub open spec fn enter_action(field: Seq<char>) -> Option<(SettingsAction, bool)> {
    if field == "flash_attn"@ {
        Some((SettingsAction::Toggle(BoolSetting::FlashAttn), true))
    } else if field == "kv_cache_offload"@ {
        Some((SettingsAction::Toggle(BoolSetting::KvCacheOffload), true))
    } else if field == "cache_type_k"@ {
        Some((SettingsAction::NextCacheTypeK, true))
    } else if field == "cache_type_v"@ {
        Some((SettingsAction::NextCacheTypeV, true))
    } else if field == "uniform_cache"@ {
        Some((SettingsAction::Toggle(BoolSetting::UniformCache), true))
    } else if field == "max_concurrent_predictions"@ {
        Some((SettingsAction::OpenMaxConcurrentPicker, false))
    } else if field == "tags"@ {
        Some((SettingsAction::OpenTags, false))
    } else if field == "rope_yarn_enabled"@ {
        Some((SettingsAction::Toggle(BoolSetting::RopeYarn), false))
    } else if field == "yarn_params"@ {
        Some((SettingsAction::OpenYarnSettings, false))
    } else if field == "is_mtp"@ {
        Some((SettingsAction::OpenSpecTypePicker, false))
    } else {
        None
    }
}

/// Typing and the remaining keys: Left or Backspace erase a typed character or step the
/// value down, Right steps it up, digits, `-` and one `.` are typed, Enter applies the
/// typed text, Esc drops it. Stepping or applying the number of concurrent predictions
/// also synchronises the global settings.
pub open spec fn generic_step(idx: usize, scroll: usize, buf: Seq<char>, gpu: GpuLayersMode, field: Option<Seq<char>>, key: Key) -> SettingsStep {
    let code = key.code;
    let typed = buf.len() > 0;
    let maxc = field == Some("max_concurrent_predictions"@);
    if code == KeyCode::Left || code == KeyCode::Backspace {
        if typed {
            step_of(idx, scroll, buf.drop_last(), gpu, SettingsAction::Nothing, true, false, false)
        } else if field is Some {
            step_of(idx, scroll, buf, gpu, SettingsAction::Adjust { up: false }, true, true, maxc)
        } else {
            step_of(idx, scroll, buf, gpu, SettingsAction::Nothing, true, false, false)
        }
    } else if code == KeyCode::Right {
        step_of(idx, scroll, buf, gpu, if field is Some { SettingsAction::Adjust { up: true } } else { SettingsAction::Nothing }, true, true, maxc)
    } else if code matches KeyCode::Char(c) && ('0' <= c <= '9' || c == '-') {
        step_of(idx, scroll, buf.push(code->Char_0), gpu, SettingsAction::Nothing, false, false, false)
    } else if code == KeyCode::Char('.') {
        step_of(idx, scroll, if buf.contains('.') { buf } else { buf.push('.') }, gpu, SettingsAction::Nothing, false, false, false)
    } else if code == KeyCode::Enter {
        if typed {
            if field is Some {
                SettingsStep { applied: Some(buf), ..step_of(idx, scroll, Seq::empty(), gpu, SettingsAction::ApplyEdit, true, true, maxc) }
            } else {
                step_of(idx, scroll, Seq::empty(), gpu, SettingsAction::Nothing, true, true, maxc)
            }
        } else {
            step_of(idx, scroll, buf, gpu, SettingsAction::Nothing, true, false, false)
        }
    } else if code == KeyCode::Esc {
        if typed {
            step_of(idx, scroll, Seq::empty(), gpu, SettingsAction::Nothing, true, true, false)
        } else {
            step_of(idx, scroll, buf, gpu, SettingsAction::Nothing, false, false, false)
        }
    } else {
        step_of(idx, scroll, buf, gpu, SettingsAction::Nothing, false, false, false)
    }
}

/// The fields with a behaviour of their own, then the generic keys. On the GPU layers
/// field typed text is dropped first and the key then goes to the generic keys; with
/// nothing typed, Enter types the layer count (or picks the model's layer count), and
/// Left and Right step through `gpu_left` and `gpu_right`.
pub open spec fn field_step(
    idx: usize,
    scroll: usize,
    buf: Seq<char>,
    gpu: GpuLayersMode,
    field: Option<Seq<char>>,
    total: u32,
    key: Key,
) -> SettingsStep {
    let code = key.code;
    let enter_empty = code == KeyCode::Enter && buf.len() == 0;
    if field == Some("system_prompt_preset_name"@) && enter_empty {
        step_of(idx, scroll, buf, gpu, SettingsAction::OpenPromptPicker, false, false, false)
    } else if field == Some("mlock"@) && enter_empty {
        step_of(idx, scroll, buf, gpu, SettingsAction::Toggle(BoolSetting::Mlock), true, true, false)
    } else if field == Some("gpu_layers_mode"@) && buf.len() > 0 {
        generic_step(idx, scroll, Seq::empty(), gpu, field, key)
    } else if field == Some("gpu_layers_mode"@) && code == KeyCode::Enter {
        match gpu {
            GpuLayersMode::Specific(n) => step_of(idx, scroll, decimal_text(n as nat), gpu, SettingsAction::Nothing, false, false, false),
            _ => step_of(idx, scroll, buf, GpuLayersMode::Specific(clamp_layers(total)), SettingsAction::Nothing, true, true, false),
        }
    } else if field == Some("gpu_layers_mode"@) && code == KeyCode::Left {
        step_of(idx, scroll, buf, gpu_left(gpu, total), SettingsAction::Nothing, true, true, false)
    } else if field == Some("gpu_layers_mode"@) && code == KeyCode::Right {
        step_of(idx, scroll, buf, gpu_right(gpu, total), SettingsAction::Nothing, true, true, false)
    } else if enter_empty && field is Some && enter_action(field->0) is Some {
        let (action, recalc) = enter_action(field->0)->0;
        step_of(idx, scroll, buf, gpu, action, true, recalc, false)
    } else {
        generic_step(idx, scroll, buf, gpu, field, key)
    }
}

/// A key on the settings panel: the moves first, then the shortcuts, then the fields.
pub open spec fn settings_step(
    idx: usize,
    scroll: usize,
    buf: Seq<char>,
    gpu: GpuLayersMode,
    field: Option<Seq<char>>,
    count: usize,
    total: u32,
    dirty: bool,
    key: Key,
) -> SettingsStep {
    match nav_step(idx, scroll, buf, gpu, count, key) {
        Some(s) => s,
        None => match shortcut_step(idx, scroll, buf, gpu, field is Some, dirty, key) {
            Some(s) => s,
            None => field_step(idx, scroll, buf, gpu, field, total, key),
        },
    }
}


/// The panel after the key and the outcome are those `step` describes.
pub open spec fn follows(step: SettingsStep, cursor: SettingsCursor, gpu: GpuLayersMode, r: SettingsOutcome) -> bool {
    &&& cursor.selected_idx == step.idx
    &&& cursor.scroll_offset == step.scroll
    &&& cursor.edit_buffer@ == step.buf
    &&& gpu == step.gpu
    &&& r.action == step.action
    &&& (match r.applied {
        Some(t) => step.applied == Some(t@),
        None => step.applied is None,
    })
    &&& r.redraw == step.redraw
    &&& r.recalc_vram == step.recalc_vram
    &&& r.sync_global == step.sync_global
}

/// The selected field's id, as text.
pub open spec fn field_view(field: Option<&str>) -> Option<Seq<char>> {
    match field {
        Some(f) => Some(f@),
        None => None,
    }
}

fn outcome(action: SettingsAction, redraw: bool, recalc_vram: bool, sync_global: bool) -> (r: SettingsOutcome)
    ensures
        r.action == action,
        r.applied is None,
        r.redraw == redraw,
        r.recalc_vram == recalc_vram,
        r.sync_global == sync_global,
{
    SettingsOutcome { action, applied: None, redraw, recalc_vram, sync_global }
}

fn clear_buffer(cursor: &mut SettingsCursor)
    ensures
        final(cursor).edit_buffer@ == Seq::<char>::empty(),
        final(cursor).selected_idx == old(cursor).selected_idx,
        final(cursor).scroll_offset == old(cursor).scroll_offset,
{
    cursor.edit_buffer = String::new();
}

fn is_field(field: Option<&str>, name: &str) -> (r: bool)
    ensures
        r == (field matches Some(f) && f@ == name@),
{
    match field {
        Some(f) => str_eq(f, name),
        None => false,
    }
}

fn buffer_has_dot(buf: &str) -> (r: bool)
    ensures
        r == buf@.contains('.'),
{
    let v = crate::text::chars_of(buf);
    let mut i: usize = 0;
    while i < v.len()
        invariant
            v@ == buf@,
            i <= v.len(),
            forall|j: int| 0 <= j < i ==> v@[j] != '.',
        decreases v.len() - i,
    {
        if v[i] == '.' {
            return true;
        }
        i = i + 1;
    }
    false
}

fn generic_exec(cursor: &mut SettingsCursor, gpu: GpuLayersMode, field: Option<&str>, key: Key) -> (r: SettingsOutcome)
    ensures
        follows(
            generic_step(old(cursor).selected_idx, old(cursor).scroll_offset, old(cursor).edit_buffer@, gpu, field_view(field), key),
            *final(cursor),
            gpu,
            r,
        ),
{
    let code = key.code;
    let typed = !cursor.edit_buffer.as_str().is_empty();
    proof {
        assert(typed == (cursor.edit_buffer@.len() > 0));
    }
    let maxc = is_field(field, "max_concurrent_predictions");
    if code == KeyCode::Left || code == KeyCode::Backspace {
        if typed {
            pop_char(&mut cursor.edit_buffer);
            outcome(SettingsAction::Nothing, true, false, false)
        } else if field.is_some() {
            outcome(SettingsAction::Adjust { up: false }, true, true, maxc)
        } else {
            outcome(SettingsAction::Nothing, true, false, false)
        }
    } else if code == KeyCode::Right {
        outcome(if field.is_some() { SettingsAction::Adjust { up: true } } else { SettingsAction::Nothing }, true, true, maxc)
    } else if let KeyCode::Char(c) = code {
        if ('0' <= c && c <= '9') || c == '-' {
            push_char(&mut cursor.edit_buffer, c);
        } else if c == '.' {
            if !buffer_has_dot(cursor.edit_buffer.as_str()) {
                push_char(&mut cursor.edit_buffer, '.');
            }
        }
        outcome(SettingsAction::Nothing, false, false, false)
    } else if code == KeyCode::Enter {
        if typed {
            let mut taken = String::new();
            std::mem::swap(&mut taken, &mut cursor.edit_buffer);
            if field.is_some() {
                SettingsOutcome { action: SettingsAction::ApplyEdit, applied: Some(taken), redraw: true, recalc_vram: true, sync_global: maxc }
            } else {
                outcome(SettingsAction::Nothing, true, true, maxc)
            }
        } else {
            outcome(SettingsAction::Nothing, true, false, false)
        }
    } else if code == KeyCode::Esc {
        if typed {
            clear_buffer(cursor);
            outcome(SettingsAction::Nothing, true, true, false)
        } else {
            outcome(SettingsAction::Nothing, false, false, false)
        }
    } else {
        outcome(SettingsAction::Nothing, false, false, false)
    }
}


fn enter_action_exec(field: &str) -> (r: Option<(SettingsAction, bool)>)
    ensures
        r == enter_action(field@),
{
    if str_eq(field, "flash_attn") {
        Some((SettingsAction::Toggle(BoolSetting::FlashAttn), true))
    } else if str_eq(field, "kv_cache_offload") {
        Some((SettingsAction::Toggle(BoolSetting::KvCacheOffload), true))
    } else if str_eq(field, "cache_type_k") {
        Some((SettingsAction::NextCacheTypeK, true))
    } else if str_eq(field, "cache_type_v") {
        Some((SettingsAction::NextCacheTypeV, true))
    } else if str_eq(field, "uniform_cache") {
        Some((SettingsAction::Toggle(BoolSetting::UniformCache), true))
    } else if str_eq(field, "max_concurrent_predictions") {
        Some((SettingsAction::OpenMaxConcurrentPicker, false))
    } else if str_eq(field, "tags") {
        Some((SettingsAction::OpenTags, false))
    } else if str_eq(field, "rope_yarn_enabled") {
        Some((SettingsAction::Toggle(BoolSetting::RopeYarn), false))
    } else if str_eq(field, "yarn_params") {
        Some((SettingsAction::OpenYarnSettings, false))
    } else if str_eq(field, "is_mtp") {
        Some((SettingsAction::OpenSpecTypePicker, false))
    } else {
        None
    }
}

/// Right on the GPU layers field would count past the largest `u32`.
pub open spec fn gpu_right_overflows(gpu: GpuLayersMode, total: u32) -> bool {
    gpu matches GpuLayersMode::Specific(n) && n != total && n == u32::MAX
}

fn field_exec(cursor: &mut SettingsCursor, gpu: &mut GpuLayersMode, field: Option<&str>, total: u32, key: Key) -> (r: SettingsOutcome)
    requires
        key.code == KeyCode::Right && field_view(field) == Some("gpu_layers_mode"@) ==> !gpu_right_overflows(*old(gpu), total),
    ensures
        follows(
            field_step(old(cursor).selected_idx, old(cursor).scroll_offset, old(cursor).edit_buffer@, *old(gpu), field_view(field), total, key),
            *final(cursor),
            *final(gpu),
            r,
        ),
{
    let code = key.code;
    let empty = cursor.edit_buffer.as_str().is_empty();
    let enter_empty = code == KeyCode::Enter && empty;
    let is_gpu = is_field(field, "gpu_layers_mode");
    if is_field(field, "system_prompt_preset_name") && enter_empty {
        outcome(SettingsAction::OpenPromptPicker, false, false, false)
    } else if is_field(field, "mlock") && enter_empty {
        outcome(SettingsAction::Toggle(BoolSetting::Mlock), true, true, false)
    } else if is_gpu && !empty {
        clear_buffer(cursor);
        generic_exec(cursor, *gpu, field, key)
    } else if is_gpu && code == KeyCode::Enter {
        match *gpu {
            GpuLayersMode::Specific(n) => {
                cursor.edit_buffer = to_decimal(n as u64);
                outcome(SettingsAction::Nothing, false, false, false)
            },
            _ => {
                *gpu = GpuLayersMode::Specific(clamp_layers_exec(total));
                outcome(SettingsAction::Nothing, true, true, false)
            },
        }
    } else if is_gpu && code == KeyCode::Left {
        let total_clamped = clamp_layers_exec(total);
        *gpu = match *gpu {
            GpuLayersMode::Auto => GpuLayersMode::Specific(total_clamped),
            GpuLayersMode::Specific(n) => if n == 0 { GpuLayersMode::Auto } else { GpuLayersMode::Specific(n - 1) },
            GpuLayersMode::All => GpuLayersMode::Specific(total_clamped),
        };
        outcome(SettingsAction::Nothing, true, true, false)
    } else if is_gpu && code == KeyCode::Right {
        *gpu = match *gpu {
            GpuLayersMode::Auto => GpuLayersMode::Specific(1),
            GpuLayersMode::Specific(n) => if n == total { GpuLayersMode::All } else { GpuLayersMode::Specific(n + 1) },
            GpuLayersMode::All => GpuLayersMode::Auto,
        };
        outcome(SettingsAction::Nothing, true, true, false)
    } else {
        let chosen = match field {
            Some(f) => if enter_empty { enter_action_exec(f) } else { None },
            None => None,
        };
        match chosen {
            Some((action, recalc)) => outcome(action, true, recalc, false),
            None => generic_exec(cursor, *gpu, field, key),
        }
    }
}

fn nav_exec(cursor: &mut SettingsCursor, count: usize, key: Key) -> (r: Option<SettingsOutcome>)
    ensures
        match nav_step(old(cursor).selected_idx, old(cursor).scroll_offset, old(cursor).edit_buffer@, GpuLayersMode::Auto, count, key) {
            Some(st) => r matches Some(o) && follows(st, *final(cursor), GpuLayersMode::Auto, o),
            None => r is None && final(cursor).selected_idx == old(cursor).selected_idx
                && final(cursor).scroll_offset == old(cursor).scroll_offset
                && final(cursor).edit_buffer@ == old(cursor).edit_buffer@,
        },
{
    let code = key.code;
    let typed = !cursor.edit_buffer.as_str().is_empty();
    let idx = cursor.selected_idx;
    let last: usize = if count > 0 { count - 1 } else { 0 };
    if code == KeyCode::Up || code == KeyCode::Char('k') {
        if typed {
            clear_buffer(cursor);
        } else {
            cursor.selected_idx = if idx >= 1 { idx - 1 } else { 0 };
        }
    } else if code == KeyCode::Down || code == KeyCode::Char('j') {
        if typed {
            clear_buffer(cursor);
        } else {
            cursor.selected_idx = if idx < last && last - idx > 1 { idx + 1 } else { last };
        }
    } else if (code == KeyCode::PageDown || code == KeyCode::Char('d')) && key.ctrl {
        if typed {
            clear_buffer(cursor);
        } else {
            cursor.selected_idx = if idx < last && last - idx > 10 { idx + 10 } else { last };
        }
    } else if (code == KeyCode::PageUp || code == KeyCode::Char('u')) && key.ctrl {
        if typed {
            clear_buffer(cursor);
        } else {
            cursor.selected_idx = if idx >= 10 { idx - 10 } else { 0 };
        }
    } else if code == KeyCode::PageDown {
        let moved: usize = if idx > usize::MAX - 5 { usize::MAX } else { idx + 5 };
        let scroll = cursor.scroll_offset;
        cursor.scroll_offset = if scroll > usize::MAX - 5 { usize::MAX } else { scroll + 5 };
        cursor.selected_idx = if moved >= count { last } else { moved };
    } else if code == KeyCode::PageUp {
        let scroll = cursor.scroll_offset;
        cursor.scroll_offset = if scroll >= 5 { scroll - 5 } else { 0 };
        cursor.selected_idx = if idx >= 5 { idx - 5 } else { 0 };
    } else {
        return None;
    }
    Some(outcome(SettingsAction::Nothing, true, false, false))
}

/// Keys of the model settings panel (see `settings_step`): `field_id` is the id of the
/// selected field among the `field_count` shown, `total_layers` the layer count of the
/// model, `dirty` whether the settings differ from those saved. The application carries
/// out the returned action on the selected field.
pub fn handle_settings_key(
    cursor: &mut SettingsCursor,
    gpu_layers: &mut GpuLayersMode,
    key: Key,
    field_id: Option<&str>,
    field_count: usize,
    total_layers: u32,
    dirty: bool,
) -> (r: SettingsOutcome)
    requires
        key.code == KeyCode::Right && field_view(field_id) == Some("gpu_layers_mode"@) ==> !gpu_right_overflows(*old(gpu_layers), total_layers),
    ensures
        follows(
            settings_step(
                old(cursor).selected_idx,
                old(cursor).scroll_offset,
                old(cursor).edit_buffer@,
                *old(gpu_layers),
                field_view(field_id),
                field_count,
                total_layers,
                dirty,
                key,
            ),
            *final(cursor),
            *final(gpu_layers),
            r,
        ),
{
    let ghost g = *gpu_layers;
    proof {
        assert(nav_step(cursor.selected_idx, cursor.scroll_offset, cursor.edit_buffer@, g, field_count, key) is Some
            == nav_step(cursor.selected_idx, cursor.scroll_offset, cursor.edit_buffer@, GpuLayersMode::Auto, field_count, key) is Some);
    }
    match nav_exec(cursor, field_count, key) {
        Some(o) => return o,
        None => {},
    }
    let code = key.code;
    if key.ctrl && code == KeyCode::Char('s') {
        outcome(SettingsAction::Save, false, false, false)
    } else if key.ctrl && code == KeyCode::Char('r') {
        outcome(if dirty { SettingsAction::ConfirmReset } else { SettingsAction::ResetToDefaults }, false, false, false)
    } else if key.ctrl && code == KeyCode::Char('p') {
        outcome(SettingsAction::OpenProfilePicker, false, false, false)
    } else if key.ctrl && code == KeyCode::Char('e') {
        outcome(if field_id.is_some() { SettingsAction::ToggleField } else { SettingsAction::Nothing }, true, true, true)
    } else {
        field_exec(cursor, gpu_layers, field_id, total_layers, key)
    }
}


// ───────────────────────── laws ─────────────────────────

/// Text typed into a field: digits, `-` and `.`, with one `.` at most.
pub open spec fn number_draft(buf: Seq<char>) -> bool {
    &&& forall|i: int| 0 <= i < buf.len() ==> ('0' <= #[trigger] buf[i] <= '9' || buf[i] == '-' || buf[i] == '.')
    &&& forall|i: int, j: int| 0 <= i < j < buf.len() ==> !(#[trigger] buf[i] == '.' && #[trigger] buf[j] == '.')
}

proof fn lemma_decimal_text_digits(n: nat)
    ensures
        forall|i: int| 0 <= i < decimal_text(n).len() ==> '0' <= #[trigger] decimal_text(n)[i] <= '9',
    decreases n,
{
    let d = n % 10;
    assert('0' <= crate::text::digit_char(d) <= '9') by {
        assert(d < 10);
        assert((d + '0' as nat) as u32 == d + 48);
    }
    if n >= 10 {
        lemma_decimal_text_digits(n / 10);
        let t = decimal_text(n / 10);
        assert(decimal_text(n) == t.push(crate::text::digit_char(d)));
        assert forall|i: int| 0 <= i < decimal_text(n).len() implies '0' <= #[trigger] decimal_text(n)[i] <= '9' by {
            if i < t.len() {
                assert(decimal_text(n)[i] == t[i]);
            }
        }
    } else {
        assert(d == n);
        assert(decimal_text(n) == seq![crate::text::digit_char(n)]);
    }
}

/// Whatever key is pressed, the selection stays on one of the fields shown.
pub proof fn law_settings_selection_in_range(
    idx: usize,
    scroll: usize,
    buf: Seq<char>,
    gpu: GpuLayersMode,
    field: Option<Seq<char>>,
    count: usize,
    total: u32,
    dirty: bool,
    key: Key,
)
    requires
        idx < count,
    ensures
        settings_step(idx, scroll, buf, gpu, field, count, total, dirty, key).idx < count,
{
}

/// Whatever key is pressed, the typed text stays a number being written: digits, `-`
/// and at most one `.`.
pub proof fn law_typed_text_stays_a_number(
    idx: usize,
    scroll: usize,
    buf: Seq<char>,
    gpu: GpuLayersMode,
    field: Option<Seq<char>>,
    count: usize,
    total: u32,
    dirty: bool,
    key: Key,
)
    requires
        number_draft(buf),
    ensures
        number_draft(settings_step(idx, scroll, buf, gpu, field, count, total, dirty, key).buf),
{
    let out = settings_step(idx, scroll, buf, gpu, field, count, total, dirty, key).buf;
    if let GpuLayersMode::Specific(n) = gpu {
        lemma_decimal_text_digits(n as nat);
    }
    if key.code == KeyCode::Char('.') && !buf.contains('.') {
        assert forall|i: int, j: int| 0 <= i < j < buf.push('.').len() implies !(#[trigger] buf.push('.')[i] == '.' && #[trigger] buf.push('.')[j] == '.') by {
            if j == buf.len() {
                assert(buf[i] == buf.push('.')[i]);
                if buf[i] == '.' {
                    assert(buf.contains('.'));
                }
            }
        }
    }
}

/// On the GPU layers field, Left undoes Right below the model's layer count.
pub proof fn law_gpu_left_undoes_right(n: u32, total: u32)
    requires
        n != total,
        n < u32::MAX,
    ensures
        gpu_left(gpu_right(GpuLayersMode::Specific(n), total), total) == GpuLayersMode::Specific(n),
{
}

/// On the GPU layers field, Right undoes Left from 1 to the model's layer count.
pub proof fn law_gpu_right_undoes_left(n: u32, total: u32)
    requires
        1 <= n <= total,
    ensures
        gpu_right(gpu_left(GpuLayersMode::Specific(n), total), total) == GpuLayersMode::Specific(n),
{
}

/// From All, Right goes to Auto and Left to the model's layer count.
pub proof fn law_gpu_all_neighbours(total: u32)
    ensures
        gpu_right(GpuLayersMode::All, total) == GpuLayersMode::Auto,
        gpu_left(GpuLayersMode::All, total) == GpuLayersMode::Specific(clamp_layers(total)),
        1 <= clamp_layers(total) <= 256,
{
}

} // verus!
