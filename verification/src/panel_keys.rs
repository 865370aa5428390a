//! Key handling of the log panel, the README panel and the tags editor.
use vstd::prelude::*;
use crate::keys::{Key, KeyCode};
use crate::panels::PanelState;
use crate::text::{pop_char, push_char, trim, trim_str};
use crate::types::{ActivePanel, EditState, LogState, ModelsMode, PickerState};

verus! {

// ───────────────────────── log panel ─────────────────────────

/// Whether the log should follow new lines after scrolling to `offset`: it does once the
/// offset reaches the last five lines.
pub open spec fn at_log_tail(offset: nat, total: nat) -> bool {
    offset >= if total >= 5 { total - 5 } else { 0 }
}

/// Keys of the log panel: Enter expands and Esc collapses it, `f` toggles following,
/// `g`/Home jump to the top, `G`/End follow the tail, arrows and PageUp/PageDown scroll.
pub fn handle_log_key(log: &mut LogState, key: Key)
    requires
        key.code == KeyCode::Down || key.code == KeyCode::Char('j') ==> old(log).log_scroll_offset < usize::MAX,
        key.code == KeyCode::PageDown ==> old(log).log_scroll_offset <= usize::MAX - 15,
    ensures
        final(log).log_total_lines == old(log).log_total_lines,
        ({
            let o = *old(log);
            let f = *final(log);
            match key.code {
                KeyCode::Enter if !o.log_expanded => f == (LogState { log_expanded: true, ..o }),
                KeyCode::Esc if o.log_expanded => f == (LogState { log_expanded: false, ..o }),
                KeyCode::Char('f') => f == (LogState { log_follow: !o.log_follow, ..o }),
                KeyCode::Char('g') | KeyCode::Home => f == (LogState { log_scroll_offset: 0, log_follow: false, ..o }),
                KeyCode::Char('G') | KeyCode::End => f == (LogState { log_follow: true, ..o }),
                KeyCode::Up | KeyCode::Char('k') => f == (LogState {
                    log_scroll_offset: if o.log_scroll_offset > 0 { (o.log_scroll_offset - 1) as usize } else { 0 },
                    log_follow: false,
                    ..o
                }),
                KeyCode::Down | KeyCode::Char('j') => f == (LogState {
                    log_scroll_offset: (o.log_scroll_offset + 1) as usize,
                    log_follow: at_log_tail(o.log_scroll_offset as nat + 1, o.log_total_lines as nat),
                    ..o
                }),
                KeyCode::PageUp => f == (LogState {
                    log_scroll_offset: if o.log_scroll_offset >= 15 { (o.log_scroll_offset - 15) as usize } else { 0 },
                    log_follow: false,
                    ..o
                }),
                KeyCode::PageDown => f == (LogState {
                    log_scroll_offset: (o.log_scroll_offset + 15) as usize,
                    log_follow: o.log_follow || at_log_tail(o.log_scroll_offset as nat + 15, o.log_total_lines as nat),
                    ..o
                }),
                _ => f == o,
            }
        }),
{
    match key.code {
        KeyCode::Enter if !log.log_expanded => {
            log.log_expanded = true;
        },
        KeyCode::Esc if log.log_expanded => {
            log.log_expanded = false;
        },
        KeyCode::Char('f') => {
            log.log_follow = !log.log_follow;
        },
        KeyCode::Char('g') | KeyCode::Home => {
            log.log_scroll_offset = 0;
            log.log_follow = false;
        },
        KeyCode::Char('G') | KeyCode::End => {
            log.log_follow = true;
        },
        KeyCode::Up | KeyCode::Char('k') => {
            log.log_scroll_offset = log.log_scroll_offset.saturating_sub(1);
            log.log_follow = false;
        },
        KeyCode::Down | KeyCode::Char('j') => {
            log.log_scroll_offset = log.log_scroll_offset + 1;
            log.log_follow = log.log_scroll_offset >= log.log_total_lines.saturating_sub(5);
        },
        KeyCode::PageUp => {
            log.log_scroll_offset = log.log_scroll_offset.saturating_sub(15);
            log.log_follow = false;
        },
        KeyCode::PageDown => {
            log.log_scroll_offset = log.log_scroll_offset + 15;
            if log.log_scroll_offset >= log.log_total_lines.saturating_sub(5) {
                log.log_follow = true;
            }
        },
        _ => {},
    }
}

/// Mouse wheel over the log: scrolls one line and follows once the tail is reached.
pub fn handle_log_scroll(log: &mut LogState, scroll_up: bool)
    requires
        !scroll_up ==> old(log).log_scroll_offset < usize::MAX,
    ensures
        final(log).log_scroll_offset as int == if scroll_up {
            if old(log).log_scroll_offset > 0 { old(log).log_scroll_offset - 1 } else { 0 }
        } else {
            old(log).log_scroll_offset + 1
        },
        final(log).log_follow == at_log_tail(final(log).log_scroll_offset as nat, old(log).log_total_lines as nat),
        final(log).log_expanded == old(log).log_expanded,
        final(log).log_total_lines == old(log).log_total_lines,
{
    if scroll_up {
        log.log_scroll_offset = log.log_scroll_offset.saturating_sub(1);
    } else {
        log.log_scroll_offset = log.log_scroll_offset + 1;
    }
    log.log_follow = log.log_scroll_offset >= log.log_total_lines.saturating_sub(5);
}

// ───────────────────────── README panel ─────────────────────────

/// Keys of the README panel: Esc (while searching or browsing files) and Left/`h` give
/// focus back to the models list; Up/`k` and Down/`j` scroll.
pub fn handle_readme_key(models_mode: &ModelsMode, panels: &mut PanelState, picker: &mut PickerState, key: Key)
    ensures
        final(panels).panel_visibility == old(panels).panel_visibility,
        final(panels).active_panel == match key.code {
            KeyCode::Esc if (models_mode is Search || models_mode is Files) => ActivePanel::Models,
            KeyCode::Left | KeyCode::Char('h') => ActivePanel::Models,
            _ => old(panels).active_panel,
        },
        final(picker).readme_scroll_offset as int == match key.code {
            KeyCode::Up | KeyCode::Char('k') => if old(picker).readme_scroll_offset > 0 {
                old(picker).readme_scroll_offset - 1
            } else {
                0
            },
            KeyCode::Down | KeyCode::Char('j') => if old(picker).readme_scroll_offset < usize::MAX {
                old(picker).readme_scroll_offset + 1
            } else {
                usize::MAX as int
            },
            _ => old(picker).readme_scroll_offset as int,
        },
        final(picker).host_picker_selected == old(picker).host_picker_selected,
        final(picker).prompt_picker_selected == old(picker).prompt_picker_selected,
        final(picker).profile_picker_selected == old(picker).profile_picker_selected,
{
    match key.code {
        KeyCode::Esc => {
            if matches!(models_mode, ModelsMode::Search { .. }) {
                panels.active_panel = ActivePanel::Models;
            }
            if matches!(models_mode, ModelsMode::Files { .. }) {
                panels.active_panel = ActivePanel::Models;
            }
        },
        KeyCode::Left | KeyCode::Char('h') => {
            panels.active_panel = ActivePanel::Models;
        },
        KeyCode::Up | KeyCode::Char('k') => {
            picker.readme_scroll_offset = picker.readme_scroll_offset.saturating_sub(1);
        },
        KeyCode::Down | KeyCode::Char('j') => {
            picker.readme_scroll_offset = picker.readme_scroll_offset.saturating_add(1);
        },
        _ => {},
    }
}

// ───────────────────────── tags editor ─────────────────────────

/// The tags editor as the key handler sees it.
pub struct TagsView {
    pub editing: bool,
    pub buffer: Seq<char>,
    pub selected: Option<usize>,
    pub insert_mode: bool,
    pub tags: Seq<Seq<char>>,
}

pub open spec fn tags_view(edit: EditState, tags: Seq<Seq<char>>) -> TagsView {
    TagsView {
        editing: edit.tags_editing,
        buffer: edit.tags_edit_buffer@,
        selected: edit.tags_selected_idx,
        insert_mode: edit.tags_insert_mode,
        tags,
    }
}

/// The editor closed, with the tags kept.
pub open spec fn tags_closed(v: TagsView) -> TagsView {
    TagsView { editing: false, buffer: seq![], selected: None, insert_mode: false, tags: v.tags }
}

/// Index of the last tag (0 when there is none).
pub open spec fn last_tag(v: TagsView) -> usize {
    if v.tags.len() > 0 { (v.tags.len() - 1) as usize } else { 0 }
}

/// The key would index a tag that does not exist, or step past the largest index.
pub open spec fn tags_key_fails(v: TagsView, key: Key) -> bool {
    match v.selected {
        Some(idx) => {
            ||| (key.code == KeyCode::Enter && !v.insert_mode && v.buffer.len() > 0
                && trim(v.buffer).len() == 0 && idx >= v.tags.len())
            ||| ((key.code == KeyCode::Char('e') || key.code == KeyCode::Char('i')) && !v.insert_mode
                && idx >= v.tags.len())
            ||| ((key.code == KeyCode::Down || key.code == KeyCode::Char('j')) && !v.insert_mode
                && idx == usize::MAX)
        },
        None => false,
    }
}

/// One key in the tags editor: the editor afterwards, whether the settings rendering is
/// stale, and whether the settings edit buffer is cleared.
///
/// Esc closes the editor. Enter adds the typed tag (trimmed, if not blank) in insert
/// mode, replaces the selected tag with the trimmed text (a blank text deletes it), or
/// closes the editor. Arrows move the selection (leaving insert mode); `e`/`i` load the
/// selected tag for editing; `d`/Delete delete it; `a` starts a new tag; Tab switches
/// between inserting and selecting; other characters are typed.
pub open spec fn tags_step(v: TagsView, key: Key) -> (TagsView, bool, bool) {
    match key.code {
        KeyCode::Esc => (tags_closed(v), true, false),
        KeyCode::Enter => {
            if v.insert_mode && v.buffer.len() > 0 {
                let t = trim(v.buffer);
                (
                    TagsView {
                        buffer: seq![],
                        insert_mode: false,
                        selected: None,
                        tags: if t.len() > 0 { v.tags.push(t) } else { v.tags },
                        ..v
                    },
                    true,
                    false,
                )
            } else if !v.insert_mode {
                match v.selected {
                    Some(idx) => {
                        let t = trim(v.buffer);
                        let tags = if v.buffer.len() == 0 {
                            v.tags
                        } else if t.len() == 0 {
                            v.tags.remove(idx as int)
                        } else if idx < v.tags.len() {
                            v.tags.update(idx as int, t)
                        } else {
                            v.tags
                        };
                        (TagsView { buffer: seq![], selected: None, insert_mode: false, tags, ..v }, true, false)
                    },
                    None => (tags_closed(v), true, false),
                }
            } else {
                (tags_closed(v), true, false)
            }
        },
        KeyCode::Up | KeyCode::Char('k') => {
            let selected = if v.insert_mode {
                Some(last_tag(v))
            } else {
                match v.selected {
                    Some(idx) => Some(if idx > 0 { (idx - 1) as usize } else { 0 }),
                    None => Some(last_tag(v)),
                }
            };
            (TagsView { buffer: seq![], insert_mode: false, selected, ..v }, false, false)
        },
        KeyCode::Down | KeyCode::Char('j') => {
            if v.insert_mode {
                (TagsView { buffer: seq![], insert_mode: false, selected: Some(last_tag(v)), ..v }, false, false)
            } else {
                match v.selected {
                    Some(idx) => {
                        let next = if idx + 1 < last_tag(v) { (idx + 1) as usize } else { last_tag(v) };
                        (TagsView { buffer: seq![], selected: Some(next), ..v }, false, false)
                    },
                    None => if v.tags.len() > 0 {
                        (TagsView { buffer: seq![], selected: Some(0), ..v }, false, false)
                    } else {
                        (TagsView { buffer: seq![], insert_mode: true, ..v }, false, false)
                    },
                }
            }
        },
        KeyCode::Char('e') | KeyCode::Char('i') => {
            match v.selected {
                Some(idx) if !v.insert_mode => (TagsView { buffer: v.tags[idx as int], ..v }, false, false),
                _ => (v, false, false),
            }
        },
        KeyCode::Char('d') | KeyCode::Delete => {
            match v.selected {
                Some(idx) if !v.insert_mode && idx < v.tags.len() => (
                    TagsView { tags: v.tags.remove(idx as int), selected: None, buffer: seq![], insert_mode: false, ..v },
                    true,
                    false,
                ),
                _ => (v, false, false),
            }
        },
        KeyCode::Char('a') => (TagsView { insert_mode: true, selected: None, buffer: seq![], ..v }, false, false),
        KeyCode::Char(c) => (TagsView { buffer: v.buffer.push(c), ..v }, false, false),
        KeyCode::Backspace => {
            if v.buffer.len() > 0 {
                (TagsView { buffer: v.buffer.drop_last(), ..v }, false, false)
            } else if !v.insert_mode {
                match v.selected {
                    Some(idx) => (TagsView { selected: Some(if idx > 0 { (idx - 1) as usize } else { 0 }), ..v }, false, false),
                    None => (v, false, false),
                }
            } else {
                (v, false, false)
            }
        },
        KeyCode::Tab => {
            if v.insert_mode {
                (
                    TagsView {
                        insert_mode: false,
                        selected: if v.tags.len() > 0 { Some(last_tag(v)) } else { v.selected },
                        ..v
                    },
                    false,
                    true,
                )
            } else {
                (TagsView { insert_mode: true, selected: None, ..v }, false, true)
            }
        },
        _ => (v, false, false),
    }
}

fn clear_string(s: &mut String)
    ensures
        final(s)@ == Seq::<char>::empty(),
{
    *s = String::new();
}

/// Keys of the tags editor. Returns whether the settings rendering is now stale. The
/// other editors' state (cursor, token-count and iterations buffers and flags, the
/// preset being edited) is left as it was.
pub fn handle_tags_key(edit: &mut EditState, tags: &mut Vec<String>, settings_edit_buffer: &mut String, key: Key) -> (render_stale: bool)
    requires
        !tags_key_fails(tags_view(*old(edit), old(tags).deep_view()), key),
    ensures
        ({
            let (v, stale, clear_settings) = tags_step(tags_view(*old(edit), old(tags).deep_view()), key);
            &&& tags_view(*final(edit), final(tags).deep_view()) == v
            &&& render_stale == stale
            &&& final(settings_edit_buffer)@ == if clear_settings { seq![] } else { old(settings_edit_buffer)@ }
        }),
        final(edit).edit_cursor_pos == old(edit).edit_cursor_pos,
        final(edit).editing_preset == old(edit).editing_preset,
        final(edit).editing_n_predict == old(edit).editing_n_predict,
        final(edit).n_predict_edit_buffer@ == old(edit).n_predict_edit_buffer@,
        final(edit).editing_iters == old(edit).editing_iters,
        final(edit).iters_edit_buffer@ == old(edit).iters_edit_buffer@,
{
    let ghost v = tags_view(*edit, tags.deep_view());
    let selected = edit.tags_selected_idx;
    let insert_mode = edit.tags_insert_mode;
    let buf_empty = edit.tags_edit_buffer.as_str().is_empty();
    let mut stale = false;
    match key.code {
        KeyCode::Esc => {
            edit.tags_editing = false;
            clear_string(&mut edit.tags_edit_buffer);
            edit.tags_selected_idx = None;
            edit.tags_insert_mode = false;
            stale = true;
        },
        KeyCode::Enter => {
            if insert_mode && !buf_empty {
                let new_tag = trim_str(edit.tags_edit_buffer.as_str());
                if !new_tag.as_str().is_empty() {
                    tags.push(new_tag);
                    assert(tags.deep_view() =~= v.tags.push(trim(v.buffer)));
                }
                clear_string(&mut edit.tags_edit_buffer);
                edit.tags_insert_mode = false;
                edit.tags_selected_idx = None;
                stale = true;
            } else if !insert_mode {
                if let Some(idx) = selected {
                    if !buf_empty {
                        let trimmed = trim_str(edit.tags_edit_buffer.as_str());
                        if trimmed.as_str().is_empty() {
                            tags.remove(idx);
                            assert(tags.deep_view() =~= v.tags.remove(idx as int));
                        } else if idx < tags.len() {
                            tags.set(idx, trimmed);
                            assert(tags.deep_view() =~= v.tags.update(idx as int, trim(v.buffer)));
                        }
                    }
                    clear_string(&mut edit.tags_edit_buffer);
                    edit.tags_selected_idx = None;
                    edit.tags_insert_mode = false;
                    stale = true;
                } else {
                    edit.tags_editing = false;
                    clear_string(&mut edit.tags_edit_buffer);
                    edit.tags_selected_idx = None;
                    edit.tags_insert_mode = false;
                    stale = true;
                }
            } else {
                edit.tags_editing = false;
                clear_string(&mut edit.tags_edit_buffer);
                edit.tags_selected_idx = None;
                edit.tags_insert_mode = false;
                stale = true;
            }
        },
        KeyCode::Up | KeyCode::Char('k') => {
            clear_string(&mut edit.tags_edit_buffer);
            if insert_mode {
                edit.tags_insert_mode = false;
                edit.tags_selected_idx = Some(tags.len().saturating_sub(1));
            } else if let Some(idx) = selected {
                edit.tags_selected_idx = Some(idx.saturating_sub(1));
            } else {
                edit.tags_selected_idx = Some(tags.len().saturating_sub(1));
            }
        },
        KeyCode::Down | KeyCode::Char('j') => {
            clear_string(&mut edit.tags_edit_buffer);
            if insert_mode {
                edit.tags_insert_mode = false;
                edit.tags_selected_idx = Some(tags.len().saturating_sub(1));
            } else if let Some(idx) = selected {
                let next = idx + 1;
                let last = tags.len().saturating_sub(1);
                edit.tags_selected_idx = Some(if next < last { next } else { last });
            } else if tags.len() > 0 {
                edit.tags_selected_idx = Some(0);
            } else {
                edit.tags_insert_mode = true;
            }
        },
        KeyCode::Char('e') | KeyCode::Char('i') => {
            if !insert_mode {
                if let Some(idx) = selected {
                    edit.tags_edit_buffer = tags[idx].clone();
                }
            }
        },
        KeyCode::Char('d') | KeyCode::Delete => {
            if !insert_mode {
                if let Some(idx) = selected {
                    if idx < tags.len() {
                        tags.remove(idx);
                        assert(tags.deep_view() =~= v.tags.remove(idx as int));
                        edit.tags_selected_idx = None;
                        clear_string(&mut edit.tags_edit_buffer);
                        edit.tags_insert_mode = false;
                        stale = true;
                    }
                }
            }
        },
        KeyCode::Char('a') => {
            edit.tags_insert_mode = true;
            edit.tags_selected_idx = None;
            clear_string(&mut edit.tags_edit_buffer);
        },
        KeyCode::Char(c) => {
            push_char(&mut edit.tags_edit_buffer, c);
        },
        KeyCode::Backspace => {
            if !buf_empty {
                pop_char(&mut edit.tags_edit_buffer);
            } else if !insert_mode {
                if let Some(idx) = selected {
                    edit.tags_selected_idx = Some(idx.saturating_sub(1));
                }
            }
        },
        KeyCode::Tab => {
            if insert_mode {
                edit.tags_insert_mode = false;
                if tags.len() > 0 {
                    edit.tags_selected_idx = Some(tags.len().saturating_sub(1));
                }
            } else {
                edit.tags_insert_mode = true;
                edit.tags_selected_idx = None;
            }
            clear_string(settings_edit_buffer);
        },
        _ => {},
    }
    stale
}

// ───────────────────────── laws ─────────────────────────

/// Typing a tag name and pressing Enter in insert mode appends the trimmed name, unless
/// it is blank.
pub proof fn law_enter_adds_typed_tag(v: TagsView)
    requires
        v.insert_mode,
        v.buffer.len() > 0,
    ensures
        tags_step(v, Key { code: KeyCode::Enter, ctrl: false, alt: false, shift: false }).0.tags == if trim(v.buffer).len() > 0 {
            v.tags.push(trim(v.buffer))
        } else {
            v.tags
        },
{
}

/// Esc always closes the editor, keeping the tags as they are.
pub proof fn law_esc_keeps_tags(v: TagsView, key: Key)
    requires
        key.code == KeyCode::Esc,
    ensures
        !tags_step(v, key).0.editing,
        tags_step(v, key).0.tags == v.tags,
{
}

} // verus!
