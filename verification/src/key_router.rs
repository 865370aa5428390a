//! Where a key press goes: the global shortcuts first (some of them open overlays), then
//! the overlay shown, the tags editor, the shortcuts of the normal mode, the mode of the
//! models panel, and finally the focused panel.
use vstd::prelude::*;
use crate::keys::{Key, KeyCode};
use crate::overlay::{GlobalMode, ModeView};
use crate::search::SearchResults;
use crate::text::chars_of;
use crate::types::{ActivePanel, ConfirmationKind, LogState, ModelsMode, PendingEvent};
use vstd::string::StringExecFns;

verus! {

/// What the models panel shows.
#[derive(Debug, Clone, Copy, PartialEq, Eq, Structural)]
pub enum ModelsModeKind {
    List,
    Search,
    Files,
    BenchTune,
}

/// The state of the selected download, where the downloads list has a selection.
#[derive(Debug, Clone, Copy, PartialEq, Eq, Structural)]
pub enum DownloadStatusKind {
    Downloading,
    Paused,
    /// Finished, failed, pausing or any other state.
    Other,
}

/// What the routing reads of the application.
#[derive(Debug, Clone, Copy, PartialEq, Eq, Structural)]
pub struct KeyContext {
    /// No overlay is shown.
    pub global_mode_normal: bool,
    /// The overlay shown is one the overlay registry handles.
    pub overlay_handled: bool,
    pub models_mode: ModelsModeKind,
    pub active_panel: ActivePanel,
    pub tags_editing: bool,
    /// Number of downloads listed, the selected one, and its state.
    pub download_count: usize,
    pub download_selected: Option<usize>,
    pub selected_download_status: DownloadStatusKind,
    /// Number of loaded models.
    pub loaded_count: usize,
    pub log_expanded: bool,
    pub filtering_local: bool,
    /// A benchmark runs in Bench mode on a running server.
    pub stoppable_benchmark: bool,
    pub bench_output_open: bool,
    pub panel_help: bool,
}

/// Where a key goes, and what it does when it is a shortcut.
#[derive(Debug, Clone, Copy, PartialEq, Eq, Structural)]
pub enum KeyRoute {
    OpenSearchInput,
    OpenDashboardUrl,
    ToggleExpertMode,
    ExplainGguf,
    OpenProfilePicker,
    CycleLanguage,
    ShowOnboarding,
    /// The overlay registry takes the key.
    Overlay,
    TagsKey,
    OpenTags,
    PauseDownload(usize),
    ResumeDownload(usize),
    /// `p` on a download that is neither running nor paused: nothing happens.
    DownloadUnchanged,
    CancelDownload(usize),
    /// Ask to confirm quitting (models are loaded).
    ConfirmExit,
    Quit,
    CollapseLog,
    StopBenchmark,
    FocusNext,
    FocusPrev,
    TogglePanelHelp,
    FocusModels,
    /// Toggle panel `index`, focusing `target` if shown; refused while a server runs
    /// when `require_no_server`.
    FkeyToggle { index: u8, target: Option<ActivePanel>, require_no_server: bool },
    /// Show panel `index` and focus `panel` (refused while a server runs when
    /// `require_no_server`).
    FkeyShow { index: u8, panel: ActivePanel, require_no_server: bool },
    ShowAllPanels,
    ShrinkLeft,
    GrowLeft,
    KillServer,
    ShowCommandLine,
    StartSearch,
    OpenAbout,
    SearchKey,
    FilesKey,
    BenchOutputKey,
    BenchTuneKey,
    CloseHelp,
    HelpDown,
    HelpUp,
    ServerSettingsKey,
    /// Ctrl+S while searching: the next sort of the results.
    CycleSearchSort,
    /// Ctrl+S in the list: the next sort of the list, then save the settings.
    CycleListSortAndSave,
    /// Ctrl+S elsewhere: save the settings.
    SaveSettings,
    ModelsKey,
    LogKey,
    SettingsKey,
    ProfilesKey,
    PresetsKey,
    ReadmeKey,
    DownloadsKey,
    Nothing,
}

pub open spec fn ctrl_char(key: Key, c: char) -> bool {
    key.code == KeyCode::Char(c) && key.ctrl
}

/// The global shortcuts checked before any overlay.
pub open spec fn early_route(cx: KeyContext, key: Key) -> Option<KeyRoute> {
    if cx.global_mode_normal && cx.models_mode == ModelsModeKind::Search && key.code == KeyCode::Char('/') && !key.ctrl {
        Some(KeyRoute::OpenSearchInput)
    } else if ctrl_char(key, 'u') {
        Some(KeyRoute::OpenDashboardUrl)
    } else if ctrl_char(key, 'x') {
        Some(KeyRoute::ToggleExpertMode)
    } else if ctrl_char(key, 'g') {
        Some(KeyRoute::ExplainGguf)
    } else if ctrl_char(key, 'p') {
        Some(KeyRoute::OpenProfilePicker)
    } else if ctrl_char(key, 'l') {
        Some(KeyRoute::CycleLanguage)
    } else if ctrl_char(key, 'o') {
        Some(KeyRoute::ShowOnboarding)
    } else if cx.overlay_handled {
        Some(KeyRoute::Overlay)
    } else if cx.tags_editing {
        Some(KeyRoute::TagsKey)
    } else if cx.active_panel == ActivePanel::LlmSettings && key.code == KeyCode::Char('t') {
        Some(KeyRoute::OpenTags)
    } else {
        None
    }
}

/// The shortcuts of the normal mode; `None` when the key goes on to the panels.
pub open spec fn shortcut_route(cx: KeyContext, key: Key) -> Option<KeyRoute> {
    let code = key.code;
    if code == KeyCode::Char('p') {
        if cx.download_count > 0 && cx.download_selected is Some {
            let idx = cx.download_selected->0;
            match cx.selected_download_status {
                DownloadStatusKind::Downloading => Some(KeyRoute::PauseDownload(idx)),
                DownloadStatusKind::Paused => Some(KeyRoute::ResumeDownload(idx)),
                DownloadStatusKind::Other => Some(KeyRoute::DownloadUnchanged),
            }
        } else {
            None
        }
    } else if code == KeyCode::Char('c') && key.alt {
        if cx.download_count > 0 {
            Some(KeyRoute::CancelDownload(match cx.download_selected { Some(i) => i, None => 0 }))
        } else {
            None
        }
    } else if code == KeyCode::Char('c') && key.ctrl {
        if cx.loaded_count > 0 { Some(KeyRoute::ConfirmExit) } else { Some(KeyRoute::Quit) }
    } else if code == KeyCode::Esc {
        if cx.log_expanded && !cx.filtering_local {
            Some(KeyRoute::CollapseLog)
        } else if cx.stoppable_benchmark {
            Some(KeyRoute::StopBenchmark)
        } else {
            None
        }
    } else if code == KeyCode::Tab {
        if cx.global_mode_normal {
            if key.shift { Some(KeyRoute::FocusPrev) } else { Some(KeyRoute::FocusNext) }
        } else {
            None
        }
    } else if code == KeyCode::Char('h') && key.ctrl && !key.shift {
        Some(KeyRoute::TogglePanelHelp)
    } else if code == KeyCode::F(1) {
        Some(KeyRoute::FocusModels)
    } else if code == KeyCode::F(2) {
        Some(KeyRoute::FkeyToggle { index: 1, target: Some(ActivePanel::ServerSettings), require_no_server: true })
    } else if code == KeyCode::F(3) {
        Some(KeyRoute::FkeyToggle { index: 2, target: Some(ActivePanel::ModelInfo), require_no_server: false })
    } else if code == KeyCode::F(4) {
        Some(KeyRoute::FkeyToggle { index: 3, target: Some(ActivePanel::LlmSettings), require_no_server: false })
    } else if code == KeyCode::F(5) {
        Some(KeyRoute::FkeyToggle { index: 4, target: None, require_no_server: false })
    } else if code == KeyCode::F(6) {
        Some(KeyRoute::FkeyToggle { index: 5, target: Some(ActivePanel::Log), require_no_server: false })
    } else if code == KeyCode::Left && key.shift {
        Some(KeyRoute::ShrinkLeft)
    } else if code == KeyCode::Right && key.shift {
        Some(KeyRoute::GrowLeft)
    } else if code == KeyCode::F(7) && key.ctrl {
        Some(KeyRoute::FkeyShow { index: 0, panel: ActivePanel::Models, require_no_server: false })
    } else if code == KeyCode::F(8) && key.ctrl {
        Some(KeyRoute::FkeyShow { index: 1, panel: ActivePanel::ServerSettings, require_no_server: true })
    } else if code == KeyCode::F(9) && key.ctrl {
        Some(KeyRoute::FkeyShow { index: 3, panel: ActivePanel::LlmSettings, require_no_server: false })
    } else if code == KeyCode::F(10) {
        Some(KeyRoute::ShowAllPanels)
    } else if code == KeyCode::Char('k') && key.ctrl && key.alt {
        Some(KeyRoute::KillServer)
    } else if code == KeyCode::F(9) {
        Some(KeyRoute::ShowAllPanels)
    } else if code == KeyCode::Char('k') && key.ctrl {
        Some(KeyRoute::ShowCommandLine)
    } else if code == KeyCode::Char('/') {
        Some(KeyRoute::StartSearch)
    } else if code == KeyCode::Char('A') {
        Some(KeyRoute::OpenAbout)
    } else {
        None
    }
}

/// Where the key goes after the shortcuts: the mode of the models panel, the help, the
/// server settings, Ctrl+S, then the focused panel.
pub open spec fn panel_route(cx: KeyContext, key: Key) -> KeyRoute {
    let readme_keeps = cx.active_panel == ActivePanel::SearchReadme && key.code != KeyCode::Enter;
    if cx.models_mode == ModelsModeKind::Search && !readme_keeps {
        KeyRoute::SearchKey
    } else if cx.models_mode == ModelsModeKind::Files && !readme_keeps {
        KeyRoute::FilesKey
    } else if cx.bench_output_open {
        KeyRoute::BenchOutputKey
    } else if cx.models_mode == ModelsModeKind::BenchTune {
        KeyRoute::BenchTuneKey
    } else if cx.panel_help && !cx.filtering_local {
        if key.code == KeyCode::Esc {
            KeyRoute::CloseHelp
        } else if key.code == KeyCode::Char('j') || key.code == KeyCode::Down {
            KeyRoute::HelpDown
        } else if key.code == KeyCode::Char('k') || key.code == KeyCode::Up {
            KeyRoute::HelpUp
        } else {
            KeyRoute::Nothing
        }
    } else if cx.active_panel == ActivePanel::ServerSettings {
        KeyRoute::ServerSettingsKey
    } else if ctrl_char(key, 's') {
        if cx.models_mode == ModelsModeKind::Search {
            KeyRoute::CycleSearchSort
        } else if cx.models_mode == ModelsModeKind::List {
            KeyRoute::CycleListSortAndSave
        } else {
            KeyRoute::SaveSettings
        }
    } else {
        match cx.active_panel {
            ActivePanel::Models => KeyRoute::ModelsKey,
            ActivePanel::Log => KeyRoute::LogKey,
            ActivePanel::LlmSettings => KeyRoute::SettingsKey,
            ActivePanel::Profiles => KeyRoute::ProfilesKey,
            ActivePanel::SystemPromptPresets => KeyRoute::PresetsKey,
            ActivePanel::SearchReadme => KeyRoute::ReadmeKey,
            ActivePanel::Downloads => KeyRoute::DownloadsKey,
            _ => KeyRoute::Nothing,
        }
    }
}

/// Where a key press goes.
pub open spec fn key_route(cx: KeyContext, key: Key) -> KeyRoute {
    match early_route(cx, key) {
        Some(r) => r,
        None => match shortcut_route(cx, key) {
            Some(r) => r,
            None => panel_route(cx, key),
        },
    }
}

fn early_route_exec(cx: &KeyContext, key: Key) -> (r: Option<KeyRoute>)
    ensures
        r == early_route(*cx, key),
{
    let code = key.code;
    if cx.global_mode_normal && cx.models_mode == ModelsModeKind::Search && code == KeyCode::Char('/') && !key.ctrl {
        Some(KeyRoute::OpenSearchInput)
    } else if key.ctrl && code == KeyCode::Char('u') {
        Some(KeyRoute::OpenDashboardUrl)
    } else if key.ctrl && code == KeyCode::Char('x') {
        Some(KeyRoute::ToggleExpertMode)
    } else if key.ctrl && code == KeyCode::Char('g') {
        Some(KeyRoute::ExplainGguf)
    } else if key.ctrl && code == KeyCode::Char('p') {
        Some(KeyRoute::OpenProfilePicker)
    } else if key.ctrl && code == KeyCode::Char('l') {
        Some(KeyRoute::CycleLanguage)
    } else if key.ctrl && code == KeyCode::Char('o') {
        Some(KeyRoute::ShowOnboarding)
    } else if cx.overlay_handled {
        Some(KeyRoute::Overlay)
    } else if cx.tags_editing {
        Some(KeyRoute::TagsKey)
    } else if cx.active_panel == ActivePanel::LlmSettings && code == KeyCode::Char('t') {
        Some(KeyRoute::OpenTags)
    } else {
        None
    }
}

fn shortcut_route_exec(cx: &KeyContext, key: Key) -> (r: Option<KeyRoute>)
    ensures
        r == shortcut_route(*cx, key),
{
    let code = key.code;
    if code == KeyCode::Char('p') {
        if cx.download_count > 0 && cx.download_selected.is_some() {
            let idx = match cx.download_selected {
                Some(i) => i,
                None => 0,
            };
            match cx.selected_download_status {
                DownloadStatusKind::Downloading => Some(KeyRoute::PauseDownload(idx)),
                DownloadStatusKind::Paused => Some(KeyRoute::ResumeDownload(idx)),
                DownloadStatusKind::Other => Some(KeyRoute::DownloadUnchanged),
            }
        } else {
            None
        }
    } else if code == KeyCode::Char('c') && key.alt {
        if cx.download_count > 0 {
            Some(KeyRoute::CancelDownload(match cx.download_selected {
                Some(i) => i,
                None => 0,
            }))
        } else {
            None
        }
    } else if code == KeyCode::Char('c') && key.ctrl {
        if cx.loaded_count > 0 {
            Some(KeyRoute::ConfirmExit)
        } else {
            Some(KeyRoute::Quit)
        }
    } else if code == KeyCode::Esc {
        if cx.log_expanded && !cx.filtering_local {
            Some(KeyRoute::CollapseLog)
        } else if cx.stoppable_benchmark {
            Some(KeyRoute::StopBenchmark)
        } else {
            None
        }
    } else if code == KeyCode::Tab {
        if cx.global_mode_normal {
            if key.shift {
                Some(KeyRoute::FocusPrev)
            } else {
                Some(KeyRoute::FocusNext)
            }
        } else {
            None
        }
    } else if code == KeyCode::Char('h') && key.ctrl && !key.shift {
        Some(KeyRoute::TogglePanelHelp)
    } else if code == KeyCode::F(1) {
        Some(KeyRoute::FocusModels)
    } else if code == KeyCode::F(2) {
        Some(KeyRoute::FkeyToggle { index: 1, target: Some(ActivePanel::ServerSettings), require_no_server: true })
    } else if code == KeyCode::F(3) {
        Some(KeyRoute::FkeyToggle { index: 2, target: Some(ActivePanel::ModelInfo), require_no_server: false })
    } else if code == KeyCode::F(4) {
        Some(KeyRoute::FkeyToggle { index: 3, target: Some(ActivePanel::LlmSettings), require_no_server: false })
    } else if code == KeyCode::F(5) {
        Some(KeyRoute::FkeyToggle { index: 4, target: None, require_no_server: false })
    } else if code == KeyCode::F(6) {
        Some(KeyRoute::FkeyToggle { index: 5, target: Some(ActivePanel::Log), require_no_server: false })
    } else if code == KeyCode::Left && key.shift {
        Some(KeyRoute::ShrinkLeft)
    } else if code == KeyCode::Right && key.shift {
        Some(KeyRoute::GrowLeft)
    } else if code == KeyCode::F(7) && key.ctrl {
        Some(KeyRoute::FkeyShow { index: 0, panel: ActivePanel::Models, require_no_server: false })
    } else if code == KeyCode::F(8) && key.ctrl {
        Some(KeyRoute::FkeyShow { index: 1, panel: ActivePanel::ServerSettings, require_no_server: true })
    } else if code == KeyCode::F(9) && key.ctrl {
        Some(KeyRoute::FkeyShow { index: 3, panel: ActivePanel::LlmSettings, require_no_server: false })
    } else if code == KeyCode::F(10) {
        Some(KeyRoute::ShowAllPanels)
    } else if code == KeyCode::Char('k') && key.ctrl && key.alt {
        Some(KeyRoute::KillServer)
    } else if code == KeyCode::F(9) {
        Some(KeyRoute::ShowAllPanels)
    } else if code == KeyCode::Char('k') && key.ctrl {
        Some(KeyRoute::ShowCommandLine)
    } else if code == KeyCode::Char('/') {
        Some(KeyRoute::StartSearch)
    } else if code == KeyCode::Char('A') {
        Some(KeyRoute::OpenAbout)
    } else {
        None
    }
}

fn panel_route_exec(cx: &KeyContext, key: Key) -> (r: KeyRoute)
    ensures
        r == panel_route(*cx, key),
{
    let code = key.code;
    let readme_keeps = cx.active_panel == ActivePanel::SearchReadme && code != KeyCode::Enter;
    if cx.models_mode == ModelsModeKind::Search && !readme_keeps {
        KeyRoute::SearchKey
    } else if cx.models_mode == ModelsModeKind::Files && !readme_keeps {
        KeyRoute::FilesKey
    } else if cx.bench_output_open {
        KeyRoute::BenchOutputKey
    } else if cx.models_mode == ModelsModeKind::BenchTune {
        KeyRoute::BenchTuneKey
    } else if cx.panel_help && !cx.filtering_local {
        if code == KeyCode::Esc {
            KeyRoute::CloseHelp
        } else if code == KeyCode::Char('j') || code == KeyCode::Down {
            KeyRoute::HelpDown
        } else if code == KeyCode::Char('k') || code == KeyCode::Up {
            KeyRoute::HelpUp
        } else {
            KeyRoute::Nothing
        }
    } else if cx.active_panel == ActivePanel::ServerSettings {
        KeyRoute::ServerSettingsKey
    } else if key.ctrl && code == KeyCode::Char('s') {
        if cx.models_mode == ModelsModeKind::Search {
            KeyRoute::CycleSearchSort
        } else if cx.models_mode == ModelsModeKind::List {
            KeyRoute::CycleListSortAndSave
        } else {
            KeyRoute::SaveSettings
        }
    } else {
        match cx.active_panel {
            ActivePanel::Models => KeyRoute::ModelsKey,
            ActivePanel::Log => KeyRoute::LogKey,
            ActivePanel::LlmSettings => KeyRoute::SettingsKey,
            ActivePanel::Profiles => KeyRoute::ProfilesKey,
            ActivePanel::SystemPromptPresets => KeyRoute::PresetsKey,
            ActivePanel::SearchReadme => KeyRoute::ReadmeKey,
            ActivePanel::Downloads => KeyRoute::DownloadsKey,
            _ => KeyRoute::Nothing,
        }
    }
}

/// Decides where a key press goes (see `key_route`): the application then carries out
/// the shortcut, or hands the key to the overlay or panel named.
pub fn handle_key(cx: &KeyContext, key: Key) -> (r: KeyRoute)
    ensures
        r == key_route(*cx, key),
{
    match early_route_exec(cx, key) {
        Some(r) => r,
        None => match shortcut_route_exec(cx, key) {
            Some(r) => r,
            None => panel_route_exec(cx, key),
        },
    }
}

/// The interface language after Ctrl+L: French, then Italian, then English, in turn.
pub open spec fn next_language(current: Seq<char>) -> Seq<char> {
    if current == "fr"@ { "it"@ } else if current == "it"@ { "en"@ } else { "fr"@ }
}

/// The language Ctrl+L switches to (see `next_language`).
pub fn cycle_language(current: &str) -> (r: &'static str)
    ensures
        r@ == next_language(current@),
{
    if crate::text::str_eq(current, "fr") {
        "it"
    } else if crate::text::str_eq(current, "it") {
        "en"
    } else {
        "fr"
    }
}

// ───────────────────────── what the shortcuts do ─────────────────────────

/// The interface state the plain shortcuts change: the focused panel, the left panels'
/// width in percent, the panel help and its scroll offset, the expert mode of the
/// settings panel and its selected field.
#[derive(Debug, Clone, Copy, PartialEq, Eq, Structural)]
pub struct ShortcutState {
    pub active_panel: ActivePanel,
    pub left_pct: u16,
    pub panel_help: bool,
    pub panel_help_offset: usize,
    pub expert_mode: bool,
    pub settings_selected_idx: usize,
}

/// The state after a shortcut route, the settings panel listing `expert_fields` fields in
/// expert mode and `basic_fields` otherwise:
/// - Shift+Left / Shift+Right narrow or widen the left panels by one point, within 20
///   to 80;
/// - Ctrl+X flips the expert mode and keeps the selected field within the fields now
///   listed (the last one, or the first when none is);
/// - Ctrl+H shows or hides the panel help, from its top when shown; Esc hides it, Down
///   and Up scroll it (without passing either end of the offsets);
/// - F1 focuses the models panel;
/// - every other route leaves this state.
pub open spec fn shortcut_after(route: KeyRoute, s: ShortcutState, expert_fields: nat, basic_fields: nat) -> ShortcutState {
    match route {
        KeyRoute::ShrinkLeft => ShortcutState {
            left_pct: if s.left_pct <= 21 { 20 } else { (s.left_pct - 1) as u16 },
            ..s
        },
        KeyRoute::GrowLeft => ShortcutState {
            left_pct: if s.left_pct >= 79 { 80 } else { (s.left_pct + 1) as u16 },
            ..s
        },
        KeyRoute::ToggleExpertMode => {
            let n = if !s.expert_mode { expert_fields } else { basic_fields };
            ShortcutState {
                expert_mode: !s.expert_mode,
                settings_selected_idx: if s.settings_selected_idx >= n {
                    if n > 0 { (n - 1) as usize } else { 0 }
                } else {
                    s.settings_selected_idx
                },
                ..s
            }
        },
        KeyRoute::TogglePanelHelp => ShortcutState {
            panel_help: !s.panel_help,
            panel_help_offset: if !s.panel_help { 0 } else { s.panel_help_offset },
            ..s
        },
        KeyRoute::CloseHelp => ShortcutState { panel_help: false, ..s },
        KeyRoute::HelpDown => ShortcutState {
            panel_help_offset: if s.panel_help_offset == usize::MAX { s.panel_help_offset } else { (s.panel_help_offset + 1) as usize },
            ..s
        },
        KeyRoute::HelpUp => ShortcutState {
            panel_help_offset: if s.panel_help_offset == 0 { 0 } else { (s.panel_help_offset - 1) as usize },
            ..s
        },
        KeyRoute::FocusModels => ShortcutState { active_panel: ActivePanel::Models, ..s },
        _ => s,
    }
}

/// The line Ctrl+X logs, for the expert mode it turned on or off.
pub open spec fn expert_mode_log(enabled: bool) -> Seq<char> {
    if enabled { "Expert mode: ENABLED"@ } else { "Expert mode: DISABLED"@ }
}

/// Carries out a shortcut route on `s` (see `shortcut_after`). After Ctrl+X it returns the
/// line to log (the settings view is then redrawn); after any other route, nothing.
pub fn apply_shortcut(route: KeyRoute, s: &mut ShortcutState, expert_fields: usize, basic_fields: usize) -> (log: Option<String>)
    ensures
        *final(s) == shortcut_after(route, *old(s), expert_fields as nat, basic_fields as nat),
        route == KeyRoute::ToggleExpertMode ==> (log matches Some(t) && t@ == expert_mode_log(final(s).expert_mode)),
        route != KeyRoute::ToggleExpertMode ==> log is None,
{
    match route {
        KeyRoute::ShrinkLeft => {
            let p = s.left_pct.saturating_sub(1);
            s.left_pct = if p < 20 { 20 } else { p };
            None
        },
        KeyRoute::GrowLeft => {
            let p = s.left_pct.saturating_add(1);
            s.left_pct = if p > 80 { 80 } else { p };
            None
        },
        KeyRoute::ToggleExpertMode => {
            s.expert_mode = !s.expert_mode;
            let n = if s.expert_mode { expert_fields } else { basic_fields };
            if s.settings_selected_idx >= n {
                s.settings_selected_idx = n.saturating_sub(1);
            }
            let text = if s.expert_mode {
                String::from_str("Expert mode: ENABLED")
            } else {
                String::from_str("Expert mode: DISABLED")
            };
            Some(text)
        },
        KeyRoute::TogglePanelHelp => {
            s.panel_help = !s.panel_help;
            if s.panel_help {
                s.panel_help_offset = 0;
            }
            None
        },
        KeyRoute::CloseHelp => {
            s.panel_help = false;
            None
        },
        KeyRoute::HelpDown => {
            s.panel_help_offset = s.panel_help_offset.saturating_add(1);
            None
        },
        KeyRoute::HelpUp => {
            s.panel_help_offset = s.panel_help_offset.saturating_sub(1);
            None
        },
        KeyRoute::FocusModels => {
            s.active_panel = ActivePanel::Models;
            None
        },
        _ => None,
    }
}

/// Esc while a benchmark runs on the server (`StopBenchmark`): the application gives up
/// its server handle, logs the message `log.stopping_benchmark`, and asks for the server
/// to be killed.
pub fn stop_benchmark(server_handle_held: &mut bool) -> (r: (PendingEvent, &'static str))
    ensures
        !*final(server_handle_held),
        r.0 is KillHandle,
        r.1@ == "log.stopping_benchmark"@,
{
    *server_handle_held = false;
    (PendingEvent::KillHandle, "log.stopping_benchmark")
}

/// `/` in the search view (`OpenSearchInput`): the search box opens on the text last
/// searched for (empty when none), the cursor after its last character.
pub fn open_search_input(search_input: &Option<String>) -> (m: GlobalMode)
    ensures
        m.view() == (ModeView::SearchInput {
            buffer: match search_input { Some(t) => t@, None => Seq::empty() },
            cursor_pos: match search_input { Some(t) => t@.len() as usize, None => 0 },
        }),
{
    match search_input {
        Some(t) => {
            let buffer = t.clone();
            let n = chars_of(buffer.as_str()).len();
            GlobalMode::SearchInput { buffer, cursor_pos: n }
        },
        None => GlobalMode::SearchInput { buffer: String::new(), cursor_pos: 0 },
    }
}

/// `/` elsewhere (`StartSearch`): a new search starts. The models panel shows empty
/// results (in the hub's order, first page, more to be had) with its README, and takes
/// the focus; the search box opens empty; the last search text is forgotten; the log
/// stops being expanded; and the two right-hand panels (bits 4 and 5) are hidden.
pub fn start_search(
    models_mode: &mut ModelsMode,
    mode: &mut GlobalMode,
    active_panel: &mut ActivePanel,
    search_input: &mut Option<String>,
    log: &mut LogState,
    panel_visibility: &mut u8,
)
    ensures
        *final(models_mode) matches ModelsMode::Search { results, show_readme } && show_readme
            && results.query@ == Seq::<char>::empty() && results.hits@.len() == 0
            && results.sort_by == crate::search::SearchSort::Relevance && results.selected == Some(0usize)
            && results.page == 0 && !results.loading && results.has_more,
        final(mode).view() == (ModeView::SearchInput { buffer: Seq::empty(), cursor_pos: 0 }),
        *final(active_panel) == ActivePanel::Models,
        *final(search_input) is None,
        !final(log).log_expanded,
        final(log).log_scroll_offset == old(log).log_scroll_offset,
        final(log).log_follow == old(log).log_follow,
        final(log).log_total_lines == old(log).log_total_lines,
        *final(panel_visibility) == *old(panel_visibility) & 0xCFu8,
{
    *active_panel = ActivePanel::Models;
    *models_mode = ModelsMode::Search { results: SearchResults::start(), show_readme: true };
    *search_input = None;
    *mode = GlobalMode::SearchInput { buffer: String::new(), cursor_pos: 0 };
    log.log_expanded = false;
    *panel_visibility = *panel_visibility & 0xCFu8;
}

// ───────────────────────── laws ─────────────────────────

/// No shortcut takes the left panels' width out of 20 to 80 percent; and after Ctrl+X
/// the selected field is one of the fields now listed, when any is.
pub proof fn law_shortcuts_keep_split_and_field(route: KeyRoute, s: ShortcutState, expert_fields: nat, basic_fields: nat)
    requires
        20 <= s.left_pct <= 80,
    ensures
        20 <= shortcut_after(route, s, expert_fields, basic_fields).left_pct <= 80,
        route == KeyRoute::ToggleExpertMode ==> ({
            let t = shortcut_after(route, s, expert_fields, basic_fields);
            let n = if t.expert_mode { expert_fields } else { basic_fields };
            n > 0 ==> t.settings_selected_idx < n
        }),
{
}

/// The global shortcuts work whatever is shown: Ctrl with u, x, g, p, l or o opens the
/// dashboard addresses, toggles expert mode, explains the GGUF name, opens the profile
/// picker, switches the language or shows the first-start guide, in every context (an
/// overlay, an editor or any panel).
pub proof fn law_global_shortcuts_work_everywhere(cx: KeyContext, key: Key)
    requires
        key.ctrl,
    ensures
        key.code == KeyCode::Char('u') ==> key_route(cx, key) == KeyRoute::OpenDashboardUrl,
        key.code == KeyCode::Char('x') ==> key_route(cx, key) == KeyRoute::ToggleExpertMode,
        key.code == KeyCode::Char('g') ==> key_route(cx, key) == KeyRoute::ExplainGguf,
        key.code == KeyCode::Char('p') ==> key_route(cx, key) == KeyRoute::OpenProfilePicker,
        key.code == KeyCode::Char('l') ==> key_route(cx, key) == KeyRoute::CycleLanguage,
        key.code == KeyCode::Char('o') ==> key_route(cx, key) == KeyRoute::ShowOnboarding,
{
}

/// Tab moves the focus only when no overlay is shown and no editor takes the key: it
/// goes forward, and backward with Shift.
pub proof fn law_tab_moves_focus_in_normal_mode(cx: KeyContext, key: Key)
    requires
        key.code == KeyCode::Tab,
        !key.ctrl,
        !cx.overlay_handled,
        !cx.tags_editing,
    ensures
        cx.global_mode_normal ==> key_route(cx, key) == (if key.shift { KeyRoute::FocusPrev } else { KeyRoute::FocusNext }),
        !cx.global_mode_normal ==> key_route(cx, key) != KeyRoute::FocusPrev && key_route(cx, key) != KeyRoute::FocusNext,
{
}

/// While an overlay the registry handles is shown, every key but the global shortcuts
/// (Ctrl with u, x, g, p, l or o) goes to it.
pub proof fn law_overlay_takes_plain_keys(cx: KeyContext, key: Key)
    requires
        cx.overlay_handled,
        !cx.global_mode_normal,
        !key.ctrl,
    ensures
        key_route(cx, key) == KeyRoute::Overlay,
{
}

/// The overlay after a route: `ConfirmExit` opens the Exit confirmation with "No"
/// preselected, no model name and no detail; every other route leaves it.
pub open spec fn mode_after_route(route: KeyRoute, mode: ModeView) -> ModeView {
    if route == KeyRoute::ConfirmExit {
        ModeView::Confirmation { selected: false, kind: ConfirmationKind::Exit, display_name: Seq::empty(), detail: None }
    } else {
        mode
    }
}

/// Whether the program runs on after a route: `Quit` stops it, every other route (the
/// Exit confirmation included) leaves it running as it was.
pub open spec fn running_after_route(route: KeyRoute, running: bool) -> bool {
    if route == KeyRoute::Quit { false } else { running }
}

/// Carries out the routes that end the program or ask to (see `mode_after_route` and
/// `running_after_route`); the application carries out the other routes.
pub fn apply_quit_route(route: KeyRoute, mode: &mut GlobalMode, running: &mut bool)
    ensures
        final(mode).view() == mode_after_route(route, old(mode).view()),
        *final(running) == running_after_route(route, *old(running)),
{
    match route {
        KeyRoute::ConfirmExit => {
            *mode = GlobalMode::Confirmation {
                selected: false,
                kind: ConfirmationKind::Exit,
                display_name: String::new(),
                detail: None,
            };
        },
        KeyRoute::Quit => {
            *running = false;
        },
        _ => {},
    }
}

/// With a model loaded, Ctrl+C (taken by no overlay or editor) opens the Exit
/// confirmation with "No" preselected and the program keeps running; with none loaded it
/// stops the program.
pub proof fn law_ctrl_c_asks_when_a_model_is_loaded(cx: KeyContext, key: Key, mode: ModeView, running: bool)
    requires
        key.code == KeyCode::Char('c'),
        key.ctrl,
        !key.alt,
        !cx.overlay_handled,
        !cx.tags_editing,
    ensures
        cx.loaded_count > 0 ==> mode_after_route(key_route(cx, key), mode) == (ModeView::Confirmation {
            selected: false,
            kind: ConfirmationKind::Exit,
            display_name: Seq::empty(),
            detail: None,
        }) && running_after_route(key_route(cx, key), running) == running,
        cx.loaded_count == 0 ==> !running_after_route(key_route(cx, key), running)
            && mode_after_route(key_route(cx, key), mode) == mode,
{
    law_ctrl_c_quits_or_asks(cx, key);
}

/// Ctrl+C always ends in quitting or in asking to, once no overlay or editor takes it.
pub proof fn law_ctrl_c_quits_or_asks(cx: KeyContext, key: Key)
    requires
        key.code == KeyCode::Char('c'),
        key.ctrl,
        !key.alt,
        !cx.overlay_handled,
        !cx.tags_editing,
    ensures
        key_route(cx, key) == (if cx.loaded_count > 0 { KeyRoute::ConfirmExit } else { KeyRoute::Quit }),
{
}

/// Three Ctrl+L presses bring every supported language back.
pub proof fn law_language_cycle(current: Seq<char>)
    requires
        current == "fr"@ || current == "it"@ || current == "en"@,
    ensures
        next_language(next_language(next_language(current))) == current,
{
    reveal_strlit("fr");
    reveal_strlit("it");
    reveal_strlit("en");
}

/// A plain key that no overlay, editor, help, shortcut or special mode of the models
/// panel takes goes to the focused panel: the models list, the log, the LLM settings,
/// the profiles, the system prompt presets, the README, the downloads list or the server
/// settings each get their own route, and the active-model and model-information panels
/// take no keys.
pub proof fn law_focused_panel_gets_plain_keys(cx: KeyContext, key: Key)
    requires
        !cx.overlay_handled,
        !cx.tags_editing,
        cx.models_mode == ModelsModeKind::List,
        !cx.bench_output_open,
        !cx.panel_help,
        !key.ctrl,
        !key.alt,
        !key.shift,
        key.code != KeyCode::Esc,
        key.code != KeyCode::Tab,
        !(key.code is F),
        key.code != KeyCode::Char('/'),
        key.code != KeyCode::Char('A'),
        key.code != KeyCode::Char('p'),
        key.code != KeyCode::Char('t'),
    ensures
        cx.active_panel == ActivePanel::Models ==> key_route(cx, key) == KeyRoute::ModelsKey,
        cx.active_panel == ActivePanel::Log ==> key_route(cx, key) == KeyRoute::LogKey,
        cx.active_panel == ActivePanel::LlmSettings ==> key_route(cx, key) == KeyRoute::SettingsKey,
        cx.active_panel == ActivePanel::Profiles ==> key_route(cx, key) == KeyRoute::ProfilesKey,
        cx.active_panel == ActivePanel::SystemPromptPresets ==> key_route(cx, key) == KeyRoute::PresetsKey,
        cx.active_panel == ActivePanel::SearchReadme ==> key_route(cx, key) == KeyRoute::ReadmeKey,
        cx.active_panel == ActivePanel::Downloads ==> key_route(cx, key) == KeyRoute::DownloadsKey,
        cx.active_panel == ActivePanel::ServerSettings ==> key_route(cx, key) == KeyRoute::ServerSettingsKey,
        cx.active_panel == ActivePanel::ActiveModel || cx.active_panel == ActivePanel::ModelInfo
            ==> key_route(cx, key) == KeyRoute::Nothing,
{
}

/// While the panel help is shown over the models list (and no local filter is typed),
/// Esc closes it, Down or `j` scrolls it down and Up or `k` up, and other plain keys do
/// nothing.
pub proof fn law_panel_help_takes_its_keys(cx: KeyContext, key: Key)
    requires
        !cx.overlay_handled,
        !cx.tags_editing,
        cx.models_mode == ModelsModeKind::List,
        !cx.bench_output_open,
        cx.panel_help,
        !cx.filtering_local,
        !cx.log_expanded,
        !cx.stoppable_benchmark,
        !key.ctrl,
        !key.alt,
        !key.shift,
    ensures
        key.code == KeyCode::Esc ==> key_route(cx, key) == KeyRoute::CloseHelp,
        key.code == KeyCode::Down || key.code == KeyCode::Char('j') ==> key_route(cx, key) == KeyRoute::HelpDown,
        key.code == KeyCode::Up || key.code == KeyCode::Char('k') ==> key_route(cx, key) == KeyRoute::HelpUp,
        key.code == KeyCode::Char('x') || key.code == KeyCode::Enter ==> key_route(cx, key) == KeyRoute::Nothing,
{
}

/// Ctrl+S over the models list re-sorts the list and saves the settings, unless the
/// help, the server settings, an overlay or an editor takes it.
pub proof fn law_ctrl_s_sorts_the_list(cx: KeyContext, key: Key)
    requires
        !cx.overlay_handled,
        !cx.tags_editing,
        cx.models_mode == ModelsModeKind::List,
        !cx.bench_output_open,
        !cx.panel_help,
        cx.active_panel != ActivePanel::ServerSettings,
        key.code == KeyCode::Char('s'),
        key.ctrl,
    ensures
        key_route(cx, key) == KeyRoute::CycleListSortAndSave,
{
}

} // verus!
