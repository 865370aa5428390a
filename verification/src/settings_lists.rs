//! Key handling of the two list panels beside the settings: the system prompt presets
//! (with an editor for a preset's text) and the settings profiles.
//!
//! The lists themselves (built-in entries first, then the user's) stay with the
//! application's configuration; the handlers read them and ask for the changes as
//! effects. Where the application's answer decides the next state (how long the list is
//! after adding or removing an entry), a second function takes that answer.
use vstd::prelude::*;
use crate::editor::{
    after_clamped_right, after_delete, after_insert, after_loose_backspace, clamped_right, loose_backspace,
};
use crate::keys::{Key, KeyCode};
use crate::overlay::editors::{edit_delete, edit_insert, edit_newline};
use crate::text::{append_chars, chars_of, decimal_text, string_of, to_decimal};

verus! {

/// One entry of the presets list, as the panel reads it.
pub struct PresetEntry {
    pub name: String,
    pub content: String,
}

/// The presets panel: the preset being edited (if any), its text and cursor, the
/// selected row and the scroll offset.
pub struct PresetsPanel {
    pub editing_preset: Option<usize>,
    pub settings_edit_buffer: String,
    pub edit_cursor_pos: usize,
    pub settings_selected_idx: usize,
    pub system_prompt_presets_scroll_offset: usize,
}

#[verifier::ext_equal]
pub struct PresetsPanelView {
    pub editing: Option<usize>,
    pub buffer: Seq<char>,
    pub cursor: usize,
    pub selected: usize,
    pub scroll: usize,
}

impl PresetsPanel {
    pub open spec fn view(&self) -> PresetsPanelView {
        PresetsPanelView {
            editing: self.editing_preset,
            buffer: self.settings_edit_buffer@,
            cursor: self.edit_cursor_pos,
            selected: self.settings_selected_idx,
            scroll: self.system_prompt_presets_scroll_offset,
        }
    }
}

/// What the application does after a key of the presets or profiles panel.
pub enum ListEffect {
    /// Store this text as the content of the named preset (when the store has it).
    SavePresetContent { name: String, content: String },
    /// Make the named preset the one the settings use.
    ApplyPreset(String),
    /// Add a user preset with this name, a stock description and no text.
    CreatePreset(String),
    DeletePreset(String),
    /// Apply the profile at this position of the profiles list.
    ApplyProfile(usize),
    /// Save the current settings as a new profile with this name.
    SaveCurrentAsProfile(String),
    /// Delete the user profile at this position of the profiles list.
    DeleteProfile(usize),
    LogInfo(String),
    /// Save the configuration (logging a failure).
    SaveConfig,
    /// Give the focus to the LLM settings panel.
    FocusLlmSettings,
}

pub enum ListEffectView {
    SavePresetContent { name: Seq<char>, content: Seq<char> },
    ApplyPreset(Seq<char>),
    CreatePreset(Seq<char>),
    DeletePreset(Seq<char>),
    ApplyProfile(usize),
    SaveCurrentAsProfile(Seq<char>),
    DeleteProfile(usize),
    LogInfo(Seq<char>),
    SaveConfig,
    FocusLlmSettings,
}

impl ListEffect {
    pub open spec fn view(&self) -> ListEffectView {
        match self {
            ListEffect::SavePresetContent { name, content } => ListEffectView::SavePresetContent {
                name: name@,
                content: content@,
            },
            ListEffect::ApplyPreset(n) => ListEffectView::ApplyPreset(n@),
            ListEffect::CreatePreset(n) => ListEffectView::CreatePreset(n@),
            ListEffect::DeletePreset(n) => ListEffectView::DeletePreset(n@),
            ListEffect::ApplyProfile(i) => ListEffectView::ApplyProfile(*i),
            ListEffect::SaveCurrentAsProfile(n) => ListEffectView::SaveCurrentAsProfile(n@),
            ListEffect::DeleteProfile(i) => ListEffectView::DeleteProfile(*i),
            ListEffect::LogInfo(m) => ListEffectView::LogInfo(m@),
            ListEffect::SaveConfig => ListEffectView::SaveConfig,
            ListEffect::FocusLlmSettings => ListEffectView::FocusLlmSettings,
        }
    }
}

pub open spec fn effects_view(v: Seq<ListEffect>) -> Seq<ListEffectView> {
    v.map_values(|e: ListEffect| e.view())
}

/// The name of the next user preset: "Custom" and one more than the user presets.
pub open spec fn new_preset_name(user_count: usize) -> Seq<char> {
    "Custom "@ + decimal_text(user_count as nat + 1)
}

/// What a key does while a preset's text is edited (`names[i]` is the name of entry `i`).
pub open spec fn preset_edit_step(s: PresetsPanelView, key: Key, names: Seq<Seq<char>>) -> (PresetsPanelView, Seq<ListEffectView>) {
    match key.code {
        KeyCode::Esc => (PresetsPanelView { editing: None, ..s }, seq![]),
        KeyCode::Enter => {
            let (b, c) = after_insert(s.buffer, s.cursor as nat, '\n');
            (PresetsPanelView { buffer: b, cursor: c as usize, ..s }, seq![])
        },
        KeyCode::Char('s') if key.ctrl => {
            let idx = s.editing->0;
            let save = if idx < names.len() {
                seq![ListEffectView::SavePresetContent { name: names[idx as int], content: s.buffer }]
            } else {
                seq![]
            };
            (
                PresetsPanelView { editing: None, ..s },
                save + seq![ListEffectView::LogInfo("Saved preset"@), ListEffectView::SaveConfig],
            )
        },
        KeyCode::Char(c) => {
            let (b, cur) = after_insert(s.buffer, s.cursor as nat, c);
            (PresetsPanelView { buffer: b, cursor: cur as usize, ..s }, seq![])
        },
        KeyCode::Backspace => {
            let (b, cur) = after_loose_backspace(s.buffer, s.cursor as nat);
            (PresetsPanelView { buffer: b, cursor: cur as usize, ..s }, seq![])
        },
        KeyCode::Delete => {
            let (b, cur) = after_delete(s.buffer, s.cursor as nat);
            (PresetsPanelView { buffer: b, cursor: cur as usize, ..s }, seq![])
        },
        KeyCode::Left => (PresetsPanelView { cursor: if s.cursor > 0 { (s.cursor - 1) as usize } else { 0 }, ..s }, seq![]),
        KeyCode::Right => {
            let (b, cur) = after_clamped_right(s.buffer, s.cursor as nat);
            (PresetsPanelView { cursor: cur as usize, ..s }, seq![])
        },
        _ => (s, seq![]),
    }
}

/// What a key does in the presets list: `names`/`contents` are the entries, the first
/// `builtin_count` of them built in; `user_count` is the number of user presets.
pub open spec fn preset_list_step(
    s: PresetsPanelView,
    key: Key,
    names: Seq<Seq<char>>,
    contents: Seq<Seq<char>>,
    builtin_count: usize,
    user_count: usize,
) -> (PresetsPanelView, Seq<ListEffectView>) {
    let total = names.len();
    let sel = s.selected;
    match key.code {
        KeyCode::Up | KeyCode::Char('k') => (PresetsPanelView { selected: if sel > 0 { (sel - 1) as usize } else { 0 }, ..s }, seq![]),
        KeyCode::Down | KeyCode::Char('j') => if total > 0 {
            (PresetsPanelView { selected: if sel + 1 < total { (sel + 1) as usize } else { (total - 1) as usize }, ..s }, seq![])
        } else {
            (s, seq![])
        },
        KeyCode::PageUp => (PresetsPanelView { scroll: if s.scroll >= 5 { (s.scroll - 5) as usize } else { 0 }, ..s }, seq![]),
        KeyCode::PageDown => (
            PresetsPanelView { scroll: if s.scroll + 5 <= usize::MAX { (s.scroll + 5) as usize } else { usize::MAX }, ..s },
            seq![],
        ),
        KeyCode::Enter => if sel < total {
            (
                s,
                seq![
                    ListEffectView::ApplyPreset(names[sel as int]),
                    ListEffectView::FocusLlmSettings,
                    ListEffectView::LogInfo("Applied preset: "@ + names[sel as int]),
                ],
            )
        } else {
            (s, seq![])
        },
        KeyCode::Char('e') => if sel < total {
            let text = contents[sel as int];
            (PresetsPanelView { buffer: text, cursor: text.len() as usize, editing: Some(sel), ..s }, seq![])
        } else {
            (s, seq![])
        },
        KeyCode::Char('n') => (s, seq![ListEffectView::CreatePreset(new_preset_name(user_count))]),
        KeyCode::Char('d') => if sel >= builtin_count {
            (
                s,
                seq![
                    ListEffectView::DeletePreset(names[sel as int]),
                    ListEffectView::LogInfo("Deleted preset: "@ + names[sel as int]),
                    ListEffectView::SaveConfig,
                ],
            )
        } else {
            (s, seq![])
        },
        KeyCode::Esc => (s, seq![ListEffectView::FocusLlmSettings]),
        _ => (s, seq![]),
    }
}

/// What a key does in the presets panel.
pub open spec fn presets_step(
    s: PresetsPanelView,
    key: Key,
    names: Seq<Seq<char>>,
    contents: Seq<Seq<char>>,
    builtin_count: usize,
    user_count: usize,
) -> (PresetsPanelView, Seq<ListEffectView>) {
    if s.editing is Some {
        preset_edit_step(s, key, names)
    } else {
        preset_list_step(s, key, names, contents, builtin_count, user_count)
    }
}

pub open spec fn entry_names(entries: Seq<PresetEntry>) -> Seq<Seq<char>> {
    entries.map_values(|e: PresetEntry| e.name@)
}

pub open spec fn entry_contents(entries: Seq<PresetEntry>) -> Seq<Seq<char>> {
    entries.map_values(|e: PresetEntry| e.content@)
}

/// What the presets keys need: room for the cursor and the selection to move on, some
/// text for a Backspace with the cursor past it, and an existing entry for `d`.
pub open spec fn presets_key_ok(s: PresetsPanelView, key: Key, total: nat, builtin_count: usize, user_count: usize) -> bool {
    &&& s.editing is Some ==> s.cursor < usize::MAX
    &&& s.editing is Some && key.code == KeyCode::Backspace && s.cursor > 0 ==> s.buffer.len() > 0
    &&& s.editing is None && (key.code == KeyCode::Down || key.code == KeyCode::Char('j')) ==> s.selected < usize::MAX
    &&& s.editing is None && key.code == KeyCode::Char('d') && s.selected >= builtin_count ==> s.selected < total
    &&& s.editing is None && key.code == KeyCode::Char('n') ==> user_count < u64::MAX
}

fn concat_str(a: &str, b: &str) -> (r: String)
    ensures
        r@ == a@ + b@,
{
    let mut v: Vec<char> = Vec::new();
    append_chars(&mut v, a);
    append_chars(&mut v, b);
    string_of(v.as_slice())
}

/// Keys of the system prompt presets panel. In the list: Up/Down choose, PageUp/PageDown
/// scroll, Enter applies the preset, `e` edits its text, `n` adds a user preset (then
/// `preset_created`), `d` deletes a user preset (then `preset_deleted`), Esc returns to
/// the settings. While editing: characters, Enter (a line break), Backspace, Delete and
/// Left/Right edit; Ctrl+S saves the text; Esc stops editing.
pub fn handle_system_prompt_presets_key(
    panel: &mut PresetsPanel,
    key: Key,
    presets: &Vec<PresetEntry>,
    builtin_count: usize,
    user_count: usize,
) -> (effects: Vec<ListEffect>)
    requires
        presets_key_ok(old(panel).view(), key, presets@.len(), builtin_count, user_count),
    ensures
        (final(panel).view(), effects_view(effects@)) == presets_step(
            old(panel).view(),
            key,
            entry_names(presets@),
            entry_contents(presets@),
            builtin_count,
            user_count,
        ),
{
    let ghost s = panel.view();
    let ghost expected = presets_step(s, key, entry_names(presets@), entry_contents(presets@), builtin_count, user_count);
    let mut effects: Vec<ListEffect> = Vec::new();
    if let Some(idx) = panel.editing_preset {
        match key.code {
            KeyCode::Esc => {
                panel.editing_preset = None;
            },
            KeyCode::Enter => {
                edit_newline(&mut panel.settings_edit_buffer, &mut panel.edit_cursor_pos);
            },
            KeyCode::Char(c) => {
                if c == 's' && key.ctrl {
                    if idx < presets.len() {
                        effects.push(ListEffect::SavePresetContent {
                            name: presets[idx].name.clone(),
                            content: panel.settings_edit_buffer.clone(),
                        });
                    }
                    panel.editing_preset = None;
                    effects.push(ListEffect::LogInfo(String::from_str("Saved preset")));
                    effects.push(ListEffect::SaveConfig);
                } else {
                    edit_insert(&mut panel.settings_edit_buffer, &mut panel.edit_cursor_pos, c);
                }
            },
            KeyCode::Backspace => {
                loose_backspace(&mut panel.settings_edit_buffer, &mut panel.edit_cursor_pos);
            },
            KeyCode::Delete => {
                edit_delete(&mut panel.settings_edit_buffer, &mut panel.edit_cursor_pos);
            },
            KeyCode::Left => {
                panel.edit_cursor_pos = panel.edit_cursor_pos.saturating_sub(1);
            },
            KeyCode::Right => {
                clamped_right(&panel.settings_edit_buffer, &mut panel.edit_cursor_pos);
            },
            _ => {},
        }
    } else {
        let total = presets.len();
        let sel = panel.settings_selected_idx;
        match key.code {
            KeyCode::Up | KeyCode::Char('k') => {
                panel.settings_selected_idx = sel.saturating_sub(1);
            },
            KeyCode::Down | KeyCode::Char('j') => {
                if total > 0 {
                    let next = sel + 1;
                    panel.settings_selected_idx = if next < total - 1 { next } else { total - 1 };
                }
            },
            KeyCode::PageUp => {
                panel.system_prompt_presets_scroll_offset = panel.system_prompt_presets_scroll_offset.saturating_sub(5);
            },
            KeyCode::PageDown => {
                panel.system_prompt_presets_scroll_offset = panel.system_prompt_presets_scroll_offset.saturating_add(5);
            },
            KeyCode::Enter => {
                if sel < total {
                    let name = presets[sel].name.clone();
                    effects.push(ListEffect::ApplyPreset(name.clone()));
                    effects.push(ListEffect::FocusLlmSettings);
                    effects.push(ListEffect::LogInfo(concat_str("Applied preset: ", name.as_str())));
                }
            },
            KeyCode::Char('e') => {
                if sel < total {
                    panel.settings_edit_buffer = presets[sel].content.clone();
                    panel.edit_cursor_pos = chars_of(panel.settings_edit_buffer.as_str()).len();
                    panel.editing_preset = Some(sel);
                }
            },
            KeyCode::Char('n') => {
                let number = to_decimal(user_count as u64 + 1);
                effects.push(ListEffect::CreatePreset(concat_str("Custom ", number.as_str())));
            },
            KeyCode::Char('d') => {
                if sel >= builtin_count {
                    let name = presets[sel].name.clone();
                    effects.push(ListEffect::DeletePreset(name.clone()));
                    effects.push(ListEffect::LogInfo(concat_str("Deleted preset: ", name.as_str())));
                    effects.push(ListEffect::SaveConfig);
                }
            },
            KeyCode::Esc => {
                effects.push(ListEffect::FocusLlmSettings);
            },
            _ => {},
        }
    }
    proof {
        assert(panel.view() =~= expected.0);
        assert(effects_view(effects@) =~= expected.1);
    }
    effects
}

/// After a new user preset was stored and the list holds `new_total` entries: the last
/// entry is selected and its (empty) text opened for editing.
pub fn preset_created(panel: &mut PresetsPanel, new_total: usize)
    requires
        new_total > 0,
    ensures
        final(panel).view() == (PresetsPanelView {
            editing: Some((new_total - 1) as usize),
            buffer: seq![],
            cursor: 0,
            selected: (new_total - 1) as usize,
            ..old(panel).view()
        }),
{
    panel.settings_selected_idx = new_total - 1;
    panel.settings_edit_buffer = String::new();
    panel.edit_cursor_pos = 0;
    panel.editing_preset = Some(panel.settings_selected_idx);
}

/// After a preset was deleted and the list holds `new_total` entries: the selection is
/// kept within the list.
pub fn preset_deleted(panel: &mut PresetsPanel, new_total: usize)
    ensures
        ({
            let last: usize = if new_total > 0 { (new_total - 1) as usize } else { 0 };
            final(panel).view() == (PresetsPanelView {
                selected: if old(panel).settings_selected_idx <= last { old(panel).settings_selected_idx } else { last },
                ..old(panel).view()
            })
        }),
{
    let last = new_total.saturating_sub(1);
    if panel.settings_selected_idx > last {
        panel.settings_selected_idx = last;
    }
}

// ───────────────────────── settings profiles ─────────────────────────

/// The profiles panel: the selected row and the scroll offset.
#[derive(Debug, Clone, Copy, PartialEq, Eq, Structural)]
pub struct ProfilesPanel {
    pub settings_selected_idx: usize,
    pub profiles_scroll_offset: usize,
}

/// The name a profile saved from the panel gets.
pub const NEW_PROFILE_NAME: &'static str = "New Profile";

/// What a key does in the profiles list of `total` entries.
pub open spec fn profiles_step(s: ProfilesPanel, key: Key, total: nat) -> (ProfilesPanel, Seq<ListEffectView>) {
    let sel = s.settings_selected_idx;
    match key.code {
        KeyCode::Up | KeyCode::Char('k') => (ProfilesPanel { settings_selected_idx: if sel > 0 { (sel - 1) as usize } else { 0 }, ..s }, seq![]),
        KeyCode::Down | KeyCode::Char('j') => if total > 0 {
            (ProfilesPanel { settings_selected_idx: if sel + 1 < total { (sel + 1) as usize } else { (total - 1) as usize }, ..s }, seq![])
        } else {
            (s, seq![])
        },
        KeyCode::PageUp => (
            ProfilesPanel { profiles_scroll_offset: if s.profiles_scroll_offset >= 5 { (s.profiles_scroll_offset - 5) as usize } else { 0 }, ..s },
            seq![],
        ),
        KeyCode::PageDown => (
            ProfilesPanel {
                profiles_scroll_offset: if s.profiles_scroll_offset + 5 <= usize::MAX { (s.profiles_scroll_offset + 5) as usize } else { usize::MAX },
                ..s
            },
            seq![],
        ),
        KeyCode::Enter => if sel < total {
            (s, seq![ListEffectView::ApplyProfile(sel), ListEffectView::FocusLlmSettings])
        } else {
            (s, seq![])
        },
        KeyCode::Char('s') => (s, seq![ListEffectView::SaveCurrentAsProfile(NEW_PROFILE_NAME@), ListEffectView::FocusLlmSettings]),
        KeyCode::Char('d') => (s, seq![ListEffectView::DeleteProfile(sel)]),
        KeyCode::Esc => (s, seq![ListEffectView::FocusLlmSettings]),
        _ => (s, seq![]),
    }
}

/// Keys of the settings profiles panel: Up/Down choose, PageUp/PageDown scroll, Enter
/// applies the profile, `s` saves the current settings as a profile, `d` deletes a user
/// profile (then `profile_deleted`), Esc returns to the settings.
pub fn handle_profiles_key(panel: &mut ProfilesPanel, key: Key, total: usize) -> (effects: Vec<ListEffect>)
    requires
        (key.code == KeyCode::Down || key.code == KeyCode::Char('j')) ==> old(panel).settings_selected_idx < usize::MAX,
    ensures
        (*final(panel), effects_view(effects@)) == profiles_step(*old(panel), key, total as nat),
{
    let ghost expected = profiles_step(*panel, key, total as nat);
    let mut effects: Vec<ListEffect> = Vec::new();
    let sel = panel.settings_selected_idx;
    match key.code {
        KeyCode::Up | KeyCode::Char('k') => {
            panel.settings_selected_idx = sel.saturating_sub(1);
        },
        KeyCode::Down | KeyCode::Char('j') => {
            if total > 0 {
                let next = sel + 1;
                panel.settings_selected_idx = if next < total - 1 { next } else { total - 1 };
            }
        },
        KeyCode::PageUp => {
            panel.profiles_scroll_offset = panel.profiles_scroll_offset.saturating_sub(5);
        },
        KeyCode::PageDown => {
            panel.profiles_scroll_offset = panel.profiles_scroll_offset.saturating_add(5);
        },
        KeyCode::Enter => {
            if sel < total {
                effects.push(ListEffect::ApplyProfile(sel));
                effects.push(ListEffect::FocusLlmSettings);
            }
        },
        KeyCode::Char('s') => {
            effects.push(ListEffect::SaveCurrentAsProfile(String::from_str(NEW_PROFILE_NAME)));
            effects.push(ListEffect::FocusLlmSettings);
        },
        KeyCode::Char('d') => {
            effects.push(ListEffect::DeleteProfile(sel));
        },
        KeyCode::Esc => {
            effects.push(ListEffect::FocusLlmSettings);
        },
        _ => {},
    }
    proof {
        assert(effects_view(effects@) =~= expected.1);
    }
    effects
}

/// After the application was asked to delete a profile: when it did, and the list now
/// holds `new_total` entries, the selection comes back within the list.
pub fn profile_deleted(panel: &mut ProfilesPanel, deleted: bool, new_total: usize)
    ensures
        *final(panel) == (ProfilesPanel {
            settings_selected_idx: if deleted && new_total > 0 && old(panel).settings_selected_idx >= new_total {
                (new_total - 1) as usize
            } else {
                old(panel).settings_selected_idx
            },
            ..*old(panel)
        }),
{
    if deleted && new_total > 0 && panel.settings_selected_idx >= new_total {
        panel.settings_selected_idx = new_total - 1;
    }
}

} // verus!
