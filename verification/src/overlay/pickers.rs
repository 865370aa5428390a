//! List pickers: hosts, backends, speculative decoding types, settings profiles,
//! profiles and chat templates.
use vstd::prelude::*;
use vstd::string::StringExecFns;
use crate::keys::{Key, KeyCode};
use crate::nav::{nav_down, nav_up, picker_nav_down, picker_nav_up};
use crate::overlay::{Action, ActionView, GlobalMode, ModeView};
use crate::overlay::simple::produced;
use crate::text::str_eq;
use crate::types::ConfirmationKind;

verus! {

/// The key moves a list selection (Up/`k` or Down/`j`).
pub open spec fn is_up(key: Key) -> bool {
    key.code == KeyCode::Up || key.code == KeyCode::Char('k')
}

pub open spec fn is_down(key: Key) -> bool {
    key.code == KeyCode::Down || key.code == KeyCode::Char('j')
}

// ───────────────────────── hosts ─────────────────────────

pub open spec fn host_picker_step(m: ModeView, key: Key) -> (ModeView, Seq<ActionView>) {
    match m {
        ModeView::HostPicker { entries, selected } => if is_up(key) {
            (ModeView::HostPicker { entries, selected: nav_up(selected as nat) as usize }, seq![])
        } else if is_down(key) {
            (ModeView::HostPicker { entries, selected: nav_down(selected as nat, entries.len()) as usize }, seq![])
        } else {
            match key.code {
                KeyCode::Enter => if selected < entries.len() {
                    (ModeView::Normal, seq![ActionView::SetHost(entries[selected as int].0), ActionView::SyncGlobalSettings])
                } else {
                    (m, seq![])
                },
                KeyCode::Char('d') => (m, seq![ActionView::RefreshHostPicker]),
                KeyCode::Esc => (ModeView::Normal, seq![]),
                KeyCode::Char('h') if key.ctrl => (ModeView::Normal, seq![]),
                _ => (m, seq![]),
            }
        },
        _ => (m, seq![]),
    }
}

/// The server host picker: arrows move, Enter uses the host, `d` re-detects the
/// interfaces, Esc/Ctrl+H close it.
pub struct HostPickerHandler;

impl HostPickerHandler {
    pub fn can_handle(&self, mode: &GlobalMode) -> (r: bool)
        ensures
            r == (mode.view() is HostPicker),
    {
        matches!(mode, GlobalMode::HostPicker { .. })
    }

    pub fn handle(&self, mode: &mut GlobalMode, key: Key) -> (acts: Vec<Action>)
        requires
            old(mode).view() matches ModeView::HostPicker { selected, .. } ==> selected < usize::MAX,
        ensures
            old(mode).view() is HostPicker ==> produced(*final(mode), acts@, host_picker_step(old(mode).view(), key)),
            !(old(mode).view() is HostPicker) ==> final(mode).view() == old(mode).view() && acts@.len() == 0,
    {
        let mut acts: Vec<Action> = Vec::new();
        let mut m = GlobalMode::Normal;
        std::mem::swap(&mut m, mode);
        match m {
            GlobalMode::HostPicker { entries, selected } => {
                let mut selected = selected;
                match key.code {
                    KeyCode::Up | KeyCode::Char('k') => picker_nav_up(&mut selected),
                    KeyCode::Down | KeyCode::Char('j') => picker_nav_down(&mut selected, entries.len()),
                    KeyCode::Enter => {
                        if selected < entries.len() {
                            let ip = entries[selected].0.clone();
                            acts.push(Action::SetHost(ip));
                            acts.push(Action::SyncGlobalSettings);
                            return acts;
                        }
                    },
                    KeyCode::Char('d') => {
                        acts.push(Action::RefreshHostPicker);
                    },
                    KeyCode::Esc => {
                        return acts;
                    },
                    KeyCode::Char('h') if key.ctrl => {
                        return acts;
                    },
                    _ => {},
                }
                *mode = GlobalMode::HostPicker { entries, selected };
            },
            other => {
                *mode = other;
            },
        }
        acts
    }
}

/// The host picker after re-detecting the interfaces: the fresh entries, first one
/// selected.
pub fn refreshed_host_picker(entries: Vec<(String, String)>) -> (m: GlobalMode)
    ensures
        m.view() == (ModeView::HostPicker { entries: entries.deep_view(), selected: 0 }),
{
    GlobalMode::HostPicker { entries, selected: 0 }
}

/// The host picker's entries: localhost and all interfaces first, then each detected
/// interface (`(name, address)`) as `(address, name)`, without the two addresses
/// already listed.
pub open spec fn host_entries(interfaces: Seq<(Seq<char>, Seq<char>)>) -> Seq<(Seq<char>, Seq<char>)> {
    seq![("127.0.0.1"@, "localhost"@), ("0.0.0.0"@, "All interfaces"@)] + interface_entries(interfaces)
}

pub open spec fn interface_entries(interfaces: Seq<(Seq<char>, Seq<char>)>) -> Seq<(Seq<char>, Seq<char>)>
    decreases interfaces.len(),
{
    if interfaces.len() == 0 {
        seq![]
    } else {
        let r = interface_entries(interfaces.drop_last());
        let (name, ip) = interfaces.last();
        if ip == "127.0.0.1"@ || ip == "0.0.0.0"@ { r } else { r.push((ip, name)) }
    }
}

/// Builds the host picker's entries from the detected interfaces (see `host_entries`).
pub fn host_picker_entries(interfaces: &Vec<(String, String)>) -> (r: Vec<(String, String)>)
    ensures
        r.deep_view() == host_entries(interfaces.deep_view()),
{
    let mut r: Vec<(String, String)> = Vec::new();
    r.push((String::from_str("127.0.0.1"), String::from_str("localhost")));
    r.push((String::from_str("0.0.0.0"), String::from_str("All interfaces")));
    let ghost iv = interfaces.deep_view();
    let ghost head = r.deep_view();
    assert(head =~= seq![("127.0.0.1"@, "localhost"@), ("0.0.0.0"@, "All interfaces"@)]);
    let mut i: usize = 0;
    assert(iv.take(0) =~= Seq::<(Seq<char>, Seq<char>)>::empty());
    while i < interfaces.len()
        invariant
            i <= interfaces.len(),
            iv == interfaces.deep_view(),
            head =~= seq![("127.0.0.1"@, "localhost"@), ("0.0.0.0"@, "All interfaces"@)],
            r.deep_view() =~= head + interface_entries(iv.take(i as int)),
        decreases interfaces.len() - i,
    {
        assert(iv.take(i + 1).drop_last() =~= iv.take(i as int));
        assert(iv.take(i + 1).last() == (interfaces@[i as int].0@, interfaces@[i as int].1@));
        let name = &interfaces[i].0;
        let ip = &interfaces[i].1;
        let ghost prev = r.deep_view();
        if !(str_eq(ip.as_str(), "127.0.0.1") || str_eq(ip.as_str(), "0.0.0.0")) {
            let entry = (ip.clone(), name.clone());
            r.push(entry);
            assert(r.deep_view() =~= prev.push((ip@, name@)));
            assert(head + interface_entries(iv.take(i + 1)) =~= (head + interface_entries(iv.take(i as int))).push((ip@, name@)));
        }
        i = i + 1;
    }
    assert(iv.take(iv.len() as int) =~= iv);
    r
}

// ───────────────────────── backends ─────────────────────────

pub open spec fn backend_picker_step(m: ModeView, key: Key) -> (ModeView, Seq<ActionView>) {
    match m {
        ModeView::BackendPicker { entries, selected } => if key.code == KeyCode::Esc {
            (ModeView::Normal, seq![])
        } else if is_up(key) {
            (ModeView::BackendPicker { entries, selected: nav_up(selected as nat) as usize }, seq![])
        } else if is_down(key) {
            (ModeView::BackendPicker { entries, selected: nav_down(selected as nat, entries.len()) as usize }, seq![])
        } else {
            match key.code {
                KeyCode::Enter => (
                    ModeView::Normal,
                    seq![
                        ActionView::SelectBackend { backend: entries[selected as int].0, tag: entries[selected as int].1 },
                        ActionView::SyncGlobalSettings,
                    ],
                ),
                KeyCode::Char('d') | KeyCode::Delete => if selected < entries.len() && entries[selected as int].1 is Some {
                    let slug = entries[selected as int].0;
                    let tag = entries[selected as int].1->0;
                    (
                        ModeView::Confirmation {
                            selected: false,
                            kind: ConfirmationKind::DeleteBackend,
                            display_name: slug + " ("@ + tag + ")"@,
                            detail: Some(slug + ":"@ + tag),
                        },
                        seq![],
                    )
                } else {
                    (m, seq![])
                },
                KeyCode::Char('h') if key.ctrl => (ModeView::Normal, seq![]),
                _ => (m, seq![]),
            }
        },
        _ => (m, seq![]),
    }
}

/// The backend picker: arrows move, Enter uses the backend build (installing it if
/// needed), `d`/Delete ask to delete an installed build, Esc/Ctrl+H close it.
pub struct BackendPickerHandler;

impl BackendPickerHandler {
    pub fn can_handle(&self, mode: &GlobalMode) -> (r: bool)
        ensures
            r == (mode.view() is BackendPicker),
    {
        matches!(mode, GlobalMode::BackendPicker { .. })
    }

    pub fn handle(&self, mode: &mut GlobalMode, key: Key) -> (acts: Vec<Action>)
        requires
            old(mode).view() matches ModeView::BackendPicker { entries, selected } ==> selected < usize::MAX
                && (key.code == KeyCode::Enter ==> selected < entries.len()),
        ensures
            old(mode).view() is BackendPicker ==> produced(*final(mode), acts@, backend_picker_step(old(mode).view(), key)),
            !(old(mode).view() is BackendPicker) ==> final(mode).view() == old(mode).view() && acts@.len() == 0,
    {
        let mut acts: Vec<Action> = Vec::new();
        let mut m = GlobalMode::Normal;
        std::mem::swap(&mut m, mode);
        match m {
            GlobalMode::BackendPicker { entries, selected } => {
                let mut selected = selected;
                match key.code {
                    KeyCode::Esc => {
                        return acts;
                    },
                    KeyCode::Up | KeyCode::Char('k') => picker_nav_up(&mut selected),
                    KeyCode::Down | KeyCode::Char('j') => picker_nav_down(&mut selected, entries.len()),
                    KeyCode::Enter => {
                        let backend = entries[selected].0.clone();
                        let tag = match &entries[selected].1 {
                            Some(t) => Some(t.clone()),
                            None => None,
                        };
                        acts.push(Action::SelectBackend { backend, tag });
                        acts.push(Action::SyncGlobalSettings);
                        return acts;
                    },
                    KeyCode::Char('d') | KeyCode::Delete => {
                        if selected < entries.len() {
                            if let Some(tag) = &entries[selected].1 {
                                let slug = entries[selected].0.as_str();
                                let mut display_name = String::from_str(slug);
                                display_name.append(" (");
                                display_name.append(tag.as_str());
                                display_name.append(")");
                                let mut detail = String::from_str(slug);
                                detail.append(":");
                                detail.append(tag.as_str());
                                *mode = GlobalMode::Confirmation {
                                    selected: false,
                                    kind: ConfirmationKind::DeleteBackend,
                                    display_name,
                                    detail: Some(detail),
                                };
                                return acts;
                            }
                        }
                    },
                    KeyCode::Char('h') if key.ctrl => {
                        return acts;
                    },
                    _ => {},
                }
                *mode = GlobalMode::BackendPicker { entries, selected };
            },
            other => {
                *mode = other;
            },
        }
        acts
    }
}

// ───────────────────────── speculative decoding type ─────────────────────────

pub open spec fn spec_type_step(m: ModeView, key: Key) -> (ModeView, Seq<ActionView>) {
    match m {
        ModeView::SpecTypePicker { entries, selected } => if key.code == KeyCode::Enter {
            let e = entries[selected as int];
            (
                ModeView::Normal,
                seq![ActionView::SetSpecType(if e == "Off"@ { seq![] } else { e }), ActionView::MarkSettingsDirty(false)],
            )
        } else if is_up(key) {
            (ModeView::SpecTypePicker { entries, selected: nav_up(selected as nat) as usize }, seq![])
        } else if is_down(key) {
            (ModeView::SpecTypePicker { entries, selected: nav_down(selected as nat, entries.len()) as usize }, seq![])
        } else if key.code == KeyCode::Esc {
            (ModeView::Normal, seq![])
        } else {
            (m, seq![])
        },
        _ => (m, seq![]),
    }
}

/// The speculative decoding picker: Enter uses the type ("Off" turns it off), arrows
/// move, Esc closes it.
pub struct SpecTypePickerHandler;

impl SpecTypePickerHandler {
    pub fn can_handle(&self, mode: &GlobalMode) -> (r: bool)
        ensures
            r == (mode.view() is SpecTypePicker),
    {
        matches!(mode, GlobalMode::SpecTypePicker { .. })
    }

    pub fn handle(&self, mode: &mut GlobalMode, key: Key) -> (acts: Vec<Action>)
        requires
            old(mode).view() matches ModeView::SpecTypePicker { entries, selected } ==> selected < usize::MAX
                && (key.code == KeyCode::Enter ==> selected < entries.len()),
        ensures
            old(mode).view() is SpecTypePicker ==> produced(*final(mode), acts@, spec_type_step(old(mode).view(), key)),
            !(old(mode).view() is SpecTypePicker) ==> final(mode).view() == old(mode).view() && acts@.len() == 0,
    {
        let mut acts: Vec<Action> = Vec::new();
        let mut m = GlobalMode::Normal;
        std::mem::swap(&mut m, mode);
        match m {
            GlobalMode::SpecTypePicker { entries, selected } => {
                let mut selected = selected;
                match key.code {
                    KeyCode::Enter => {
                        let entry = entries[selected].clone();
                        let value = if str_eq(entry.as_str(), "Off") { String::new() } else { entry };
                        acts.push(Action::SetSpecType(value));
                        acts.push(Action::MarkSettingsDirty(false));
                        return acts;
                    },
                    KeyCode::Up | KeyCode::Char('k') => picker_nav_up(&mut selected),
                    KeyCode::Down | KeyCode::Char('j') => picker_nav_down(&mut selected, entries.len()),
                    KeyCode::Esc => {
                        return acts;
                    },
                    _ => {},
                }
                *mode = GlobalMode::SpecTypePicker { entries, selected };
            },
            other => {
                *mode = other;
            },
        }
        acts
    }
}

// ───────────────────────── settings profiles ─────────────────────────

pub open spec fn model_settings_step(m: ModeView, key: Key) -> (ModeView, Seq<ActionView>) {
    match m {
        ModeView::ModelSettingsPicker { entries, selected } => if is_up(key) {
            (ModeView::ModelSettingsPicker { entries, selected: nav_up(selected as nat) as usize }, seq![])
        } else if is_down(key) {
            (ModeView::ModelSettingsPicker { entries, selected: nav_down(selected as nat, entries.len()) as usize }, seq![])
        } else {
            match key.code {
                KeyCode::Enter => if selected < entries.len() {
                    if selected == 0 {
                        (
                            ModeView::ProfileCreate {
                                name: seq![],
                                description: seq![],
                                editing: true,
                                edit_buffer: seq![],
                                edit_cursor_pos: 0,
                                field: 0,
                            },
                            seq![],
                        )
                    } else {
                        (ModeView::Normal, seq![ActionView::ApplySettingsProfile(entries[selected as int].0)])
                    }
                } else {
                    (m, seq![])
                },
                KeyCode::Char('d') => if 0 < selected < entries.len() && entries[selected as int].0 != "Default"@ {
                    (
                        ModeView::Confirmation {
                            selected: false,
                            kind: ConfirmationKind::DeleteSettingsProfile,
                            display_name: entries[selected as int].0,
                            detail: None,
                        },
                        seq![],
                    )
                } else {
                    (m, seq![])
                },
                KeyCode::Esc => (ModeView::Normal, seq![]),
                _ => (m, seq![]),
            }
        },
        _ => (m, seq![]),
    }
}

/// The settings profile picker: arrows move, Enter applies a profile (the first line
/// creates a new one), `d` asks to delete one (not "Default"), Esc closes it.
pub struct ModelSettingsPickerHandler;

impl ModelSettingsPickerHandler {
    pub fn can_handle(&self, mode: &GlobalMode) -> (r: bool)
        ensures
            r == (mode.view() is ModelSettingsPicker),
    {
        matches!(mode, GlobalMode::ModelSettingsPicker { .. })
    }

    pub fn handle(&self, mode: &mut GlobalMode, key: Key) -> (acts: Vec<Action>)
        requires
            old(mode).view() matches ModeView::ModelSettingsPicker { selected, .. } ==> selected < usize::MAX,
        ensures
            old(mode).view() is ModelSettingsPicker ==> produced(*final(mode), acts@, model_settings_step(old(mode).view(), key)),
            !(old(mode).view() is ModelSettingsPicker) ==> final(mode).view() == old(mode).view() && acts@.len() == 0,
    {
        let mut acts: Vec<Action> = Vec::new();
        let mut m = GlobalMode::Normal;
        std::mem::swap(&mut m, mode);
        match m {
            GlobalMode::ModelSettingsPicker { entries, selected } => {
                let mut selected = selected;
                match key.code {
                    KeyCode::Up | KeyCode::Char('k') => picker_nav_up(&mut selected),
                    KeyCode::Down | KeyCode::Char('j') => picker_nav_down(&mut selected, entries.len()),
                    KeyCode::Enter => {
                        if selected < entries.len() {
                            if selected == 0 {
                                *mode = GlobalMode::ProfileCreate {
                                    name: String::new(),
                                    description: String::new(),
                                    editing: true,
                                    edit_buffer: String::new(),
                                    edit_cursor_pos: 0,
                                    field: 0,
                                };
                            } else {
                                let name = entries[selected].0.clone();
                                acts.push(Action::ApplySettingsProfile(name));
                            }
                            return acts;
                        }
                    },
                    KeyCode::Char('d') => {
                        if selected > 0 && selected < entries.len() {
                            if !str_eq(entries[selected].0.as_str(), "Default") {
                                let name = entries[selected].0.clone();
                                *mode = GlobalMode::Confirmation {
                                    selected: false,
                                    kind: ConfirmationKind::DeleteSettingsProfile,
                                    display_name: name,
                                    detail: None,
                                };
                                return acts;
                            }
                        }
                    },
                    KeyCode::Esc => {
                        return acts;
                    },
                    _ => {},
                }
                *mode = GlobalMode::ModelSettingsPicker { entries, selected };
            },
            other => {
                *mode = other;
            },
        }
        acts
    }
}

// ───────────────────────── profiles ─────────────────────────

pub open spec fn profile_picker_step(m: ModeView, key: Key) -> (ModeView, Seq<ActionView>) {
    match m {
        ModeView::ProfilePicker { entries, selected } => if is_up(key) {
            (ModeView::ProfilePicker { entries, selected: nav_up(selected as nat) as usize }, seq![])
        } else if is_down(key) {
            (ModeView::ProfilePicker { entries, selected: nav_down(selected as nat, entries.len()) as usize }, seq![])
        } else {
            match key.code {
                KeyCode::Enter => if selected < entries.len() {
                    (ModeView::Normal, seq![ActionView::ApplyProfile(entries[selected as int].0)])
                } else {
                    (ModeView::Normal, seq![])
                },
                KeyCode::Esc => (ModeView::Normal, seq![]),
                _ => (m, seq![]),
            }
        },
        _ => (m, seq![]),
    }
}

/// The profile picker: arrows move, Enter applies the profile and closes, Esc closes.
pub struct ProfilePickerHandler;

impl ProfilePickerHandler {
    pub fn name(&self) -> (r: &'static str)
        ensures
            r@ == "ProfilePicker"@,
    {
        "ProfilePicker"
    }

    pub fn can_handle(&self, mode: &GlobalMode) -> (r: bool)
        ensures
            r == (mode.view() is ProfilePicker),
    {
        matches!(mode, GlobalMode::ProfilePicker { .. })
    }

    pub fn handle(&self, mode: &mut GlobalMode, key: Key) -> (acts: Vec<Action>)
        requires
            old(mode).view() matches ModeView::ProfilePicker { selected, .. } ==> selected < usize::MAX,
        ensures
            old(mode).view() is ProfilePicker ==> produced(*final(mode), acts@, profile_picker_step(old(mode).view(), key)),
            !(old(mode).view() is ProfilePicker) ==> final(mode).view() == old(mode).view() && acts@.len() == 0,
    {
        let mut acts: Vec<Action> = Vec::new();
        let mut m = GlobalMode::Normal;
        std::mem::swap(&mut m, mode);
        match m {
            GlobalMode::ProfilePicker { entries, selected } => {
                let mut selected = selected;
                match key.code {
                    KeyCode::Up | KeyCode::Char('k') => picker_nav_up(&mut selected),
                    KeyCode::Down | KeyCode::Char('j') => picker_nav_down(&mut selected, entries.len()),
                    KeyCode::Enter => {
                        if selected < entries.len() {
                            let name = entries[selected].0.clone();
                            acts.push(Action::ApplyProfile(name));
                        }
                        return acts;
                    },
                    KeyCode::Esc => {
                        return acts;
                    },
                    _ => {},
                }
                *mode = GlobalMode::ProfilePicker { entries, selected };
            },
            other => {
                *mode = other;
            },
        }
        acts
    }
}

// ───────────────────────── chat templates ─────────────────────────

/// The chat template setting for a picked entry.
pub open spec fn template_choice(entry: Seq<char>, custom: Seq<char>) -> ActionView {
    if entry == "Auto (detect)"@ {
        ActionView::SetChatTemplate { auto: true, template: None }
    } else if entry == "None"@ {
        ActionView::SetChatTemplate { auto: false, template: None }
    } else if entry == "Custom..."@ {
        ActionView::SetChatTemplate { auto: false, template: if custom.len() == 0 { None } else { Some(custom) } }
    } else {
        ActionView::SetChatTemplate { auto: false, template: Some(entry) }
    }
}

pub open spec fn chat_template_step(m: ModeView, key: Key) -> (ModeView, Seq<ActionView>) {
    match m {
        ModeView::ChatTemplatePicker { entries, selected, edit_buffer } => match key.code {
            KeyCode::Enter => (
                ModeView::Normal,
                seq![template_choice(entries[selected as int], edit_buffer), ActionView::MarkSettingsDirty(false)],
            ),
            KeyCode::Up => (ModeView::ChatTemplatePicker { entries, selected: nav_up(selected as nat) as usize, edit_buffer }, seq![]),
            KeyCode::Down => (
                ModeView::ChatTemplatePicker { entries, selected: nav_down(selected as nat, entries.len()) as usize, edit_buffer },
                seq![],
            ),
            KeyCode::Esc => (ModeView::Normal, seq![]),
            _ => (m, seq![]),
        },
        _ => (m, seq![]),
    }
}

/// The chat template picker: Enter uses the template (automatic, none, the typed custom
/// one or a named one), Up/Down move, Esc closes it.
pub struct ChatTemplatePickerHandler;

impl ChatTemplatePickerHandler {
    pub fn name(&self) -> (r: &'static str)
        ensures
            r@ == "ChatTemplatePicker"@,
    {
        "ChatTemplatePicker"
    }

    pub fn can_handle(&self, mode: &GlobalMode) -> (r: bool)
        ensures
            r == (mode.view() is ChatTemplatePicker),
    {
        matches!(mode, GlobalMode::ChatTemplatePicker { .. })
    }

    pub fn handle(&self, mode: &mut GlobalMode, key: Key) -> (acts: Vec<Action>)
        requires
            old(mode).view() matches ModeView::ChatTemplatePicker { entries, selected, .. } ==> selected < usize::MAX
                && (key.code == KeyCode::Enter ==> selected < entries.len()),
        ensures
            old(mode).view() is ChatTemplatePicker ==> produced(*final(mode), acts@, chat_template_step(old(mode).view(), key)),
            !(old(mode).view() is ChatTemplatePicker) ==> final(mode).view() == old(mode).view() && acts@.len() == 0,
    {
        let mut acts: Vec<Action> = Vec::new();
        let mut m = GlobalMode::Normal;
        std::mem::swap(&mut m, mode);
        match m {
            GlobalMode::ChatTemplatePicker { entries, selected, edit_buffer } => {
                let mut selected = selected;
                match key.code {
                    KeyCode::Enter => {
                        let entry = entries[selected].as_str();
                        let choice = if str_eq(entry, "Auto (detect)") {
                            Action::SetChatTemplate { auto: true, template: None }
                        } else if str_eq(entry, "None") {
                            Action::SetChatTemplate { auto: false, template: None }
                        } else if str_eq(entry, "Custom...") {
                            Action::SetChatTemplate {
                                auto: false,
                                template: if edit_buffer.as_str().is_empty() { None } else { Some(edit_buffer.clone()) },
                            }
                        } else {
                            Action::SetChatTemplate { auto: false, template: Some(entries[selected].clone()) }
                        };
                        acts.push(choice);
                        acts.push(Action::MarkSettingsDirty(false));
                        return acts;
                    },
                    KeyCode::Up => {
                        selected = selected.saturating_sub(1);
                    },
                    KeyCode::Down => {
                        let next = selected + 1;
                        let last = entries.len().saturating_sub(1);
                        selected = if next < last { next } else { last };
                    },
                    KeyCode::Esc => {
                        return acts;
                    },
                    _ => {},
                }
                *mode = GlobalMode::ChatTemplatePicker { entries, selected, edit_buffer };
            },
            other => {
                *mode = other;
            },
        }
        acts
    }
}

pub open spec fn chat_template_file_step(m: ModeView, key: Key) -> (ModeView, Seq<ActionView>) {
    match m {
        ModeView::ChatTemplateFilePicker { entries, selected } => match key.code {
            KeyCode::Enter => if entries.len() == 0 {
                (ModeView::Normal, seq![ActionView::ReopenChatTemplatePicker { no_files: true }])
            } else {
                (
                    ModeView::Normal,
                    seq![
                        ActionView::SetChatTemplate { auto: false, template: Some(entries[selected as int].1) },
                        ActionView::MarkSettingsDirty(false),
                    ],
                )
            },
            KeyCode::Up | KeyCode::Char('k') => (ModeView::ChatTemplateFilePicker { entries, selected: nav_up(selected as nat) as usize }, seq![]),
            KeyCode::Down | KeyCode::Char('j') => (
                ModeView::ChatTemplateFilePicker { entries, selected: nav_down(selected as nat, entries.len()) as usize },
                seq![],
            ),
            KeyCode::Esc => (ModeView::Normal, seq![ActionView::ReopenChatTemplatePicker { no_files: false }]),
            _ => (m, seq![]),
        },
        _ => (m, seq![]),
    }
}

/// The chat template file picker: Enter uses the file (or, with no files, goes back to
/// the template picker after a warning), arrows move, Esc goes back to the template
/// picker.
pub struct ChatTemplateFilePickerHandler;

impl ChatTemplateFilePickerHandler {
    pub fn can_handle(&self, mode: &GlobalMode) -> (r: bool)
        ensures
            r == (mode.view() is ChatTemplateFilePicker),
    {
        matches!(mode, GlobalMode::ChatTemplateFilePicker { .. })
    }

    pub fn handle(&self, mode: &mut GlobalMode, key: Key) -> (acts: Vec<Action>)
        requires
            old(mode).view() matches ModeView::ChatTemplateFilePicker { entries, selected } ==> selected < usize::MAX
                && (key.code == KeyCode::Enter && entries.len() > 0 ==> selected < entries.len()),
        ensures
            old(mode).view() is ChatTemplateFilePicker ==> produced(*final(mode), acts@, chat_template_file_step(old(mode).view(), key)),
            !(old(mode).view() is ChatTemplateFilePicker) ==> final(mode).view() == old(mode).view() && acts@.len() == 0,
    {
        let mut acts: Vec<Action> = Vec::new();
        let mut m = GlobalMode::Normal;
        std::mem::swap(&mut m, mode);
        match m {
            GlobalMode::ChatTemplateFilePicker { entries, selected } => {
                let mut selected = selected;
                match key.code {
                    KeyCode::Enter => {
                        if entries.len() == 0 {
                            acts.push(Action::ReopenChatTemplatePicker { no_files: true });
                            return acts;
                        }
                        let path = entries[selected].1.clone();
                        acts.push(Action::SetChatTemplate { auto: false, template: Some(path) });
                        acts.push(Action::MarkSettingsDirty(false));
                        return acts;
                    },
                    KeyCode::Up | KeyCode::Char('k') => picker_nav_up(&mut selected),
                    KeyCode::Down | KeyCode::Char('j') => picker_nav_down(&mut selected, entries.len()),
                    KeyCode::Esc => {
                        acts.push(Action::ReopenChatTemplatePicker { no_files: false });
                        return acts;
                    },
                    _ => {},
                }
                *mode = GlobalMode::ChatTemplateFilePicker { entries, selected };
            },
            other => {
                *mode = other;
            },
        }
        acts
    }
}

// ───────────────────────── laws ─────────────────────────

/// Esc closes every list picker without asking the application for anything but, in the
/// template file picker, going back to the template picker.
pub proof fn law_esc_closes_pickers(m: ModeView, key: Key)
    requires
        key.code == KeyCode::Esc,
    ensures
        m is HostPicker ==> host_picker_step(m, key) == (ModeView::Normal, Seq::<ActionView>::empty()),
        m is BackendPicker ==> backend_picker_step(m, key) == (ModeView::Normal, Seq::<ActionView>::empty()),
        m is SpecTypePicker ==> spec_type_step(m, key) == (ModeView::Normal, Seq::<ActionView>::empty()),
        m is ModelSettingsPicker ==> model_settings_step(m, key) == (ModeView::Normal, Seq::<ActionView>::empty()),
        m is ProfilePicker ==> profile_picker_step(m, key) == (ModeView::Normal, Seq::<ActionView>::empty()),
        m is ChatTemplatePicker ==> chat_template_step(m, key) == (ModeView::Normal, Seq::<ActionView>::empty()),
{
    assert(seq![] =~= Seq::<ActionView>::empty());
}

/// Moving through a list picker keeps a valid selection valid.
pub proof fn law_picker_selection_stays_valid(m: ModeView, key: Key)
    requires
        m matches ModeView::HostPicker { entries, selected } && selected < entries.len(),
        is_up(key) || is_down(key),
    ensures
        host_picker_step(m, key).0 matches ModeView::HostPicker { entries, selected } && selected < entries.len(),
{
}

} // verus!
