//! Modal overlays: the global mode that covers all panels, the requests its key
//! handlers make of the application, and the handlers themselves.
//!
//! A handler takes the current mode and a key, and gives the next mode together with
//! the list of actions the application has to carry out (saving settings, writing a
//! file, spawning a check...). The handlers decide; the application acts.
use vstd::prelude::*;
use crate::keys::Key;
use crate::types::ConfirmationKind;

pub mod simple;
pub mod pickers;
pub mod editors;
pub mod servers;
pub mod registry;

verus! {

/// Outcome of a web-search health check started from the web-search overlay.
#[derive(Debug)]
pub enum WebSearchCheckStatus {
    Checking,
    Passed,
    Failed(String),
}

/// The global mode: an overlay covering all panels, or none.
#[allow(inconsistent_fields)]
pub enum GlobalMode {
    Normal,
    CmdLine { cmd_line: String },
    HostPicker {
        /// (ip, interface name)
        entries: Vec<(String, String)>,
        selected: usize,
    },
    BackendPicker {
        /// (backend slug, tag of an installed build)
        entries: Vec<(String, Option<String>)>,
        selected: usize,
    },
    Confirmation { selected: bool, kind: ConfirmationKind, display_name: String, detail: Option<String> },
    RpcManager,
    About,
    MaxConcurrentPicker { value: String },
    SpecTypePicker { entries: Vec<String>, selected: usize },
    YarnRoPESettings {
        scale: String,
        freq_base: String,
        freq_scale: String,
        /// -1 = enabled, 0 = scale, 1 = freq_base, 2 = freq_scale
        selected_field: i32,
        editing: bool,
        edit_buffer: String,
        edit_cursor_pos: usize,
    },
    BenchTuneSetup {
        selected_idx: usize,
        editing_param: bool,
        editing_param_field: i32,
        param_edit_buffer: String,
        param_edit_cursor_pos: usize,
        bench_mode_selection: usize,
        editing_prompt: bool,
        editing_kwargs: bool,
    },
    PromptPicker {
        /// (name, description)
        entries: Vec<(String, String)>,
        selected: usize,
        editing: bool,
        edit_buffer: String,
        edit_cursor_pos: usize,
        confirm_delete: bool,
    },
    ProfilePicker {
        /// (name, description)
        entries: Vec<(String, String)>,
        selected: usize,
    },
    DashboardUrl {
        host: String,
        ws_port: String,
        api_port: String,
        llm_port: String,
        auth_key: String,
        ws_enabled: bool,
        tls_enabled: bool,
    },
    SearchInput { buffer: String, cursor_pos: usize },
    Onboarding { step: usize },
    GgufNaming { filename: String },
    ApiEndpointPicker {
        enabled: bool,
        port: String,
        api_key: String,
        tls_enabled: bool,
        tls_cert: String,
        tls_key: String,
        /// -1 = enabled, 0 = port, 1 = key, 2 = TLS, 3 = certificate, 4 = key file
        selected_field: i32,
        editing: bool,
        edit_buffer: String,
        edit_cursor_pos: usize,
    },
    ModelSettingsPicker {
        /// (name, description); entry 0 is the "+ New profile" line
        entries: Vec<(String, String)>,
        selected: usize,
    },
    ProfileCreate {
        name: String,
        description: String,
        editing: bool,
        edit_buffer: String,
        edit_cursor_pos: usize,
        /// 0 = name, 1 = description
        field: usize,
    },
    LlamaServerOptionsPicker {
        port: String,
        threads: u32,
        threads_batch: u32,
        log_level: String,
        /// -1 = port, 0 = threads, 1 = batch threads, 2 = server mode, 3 = log level
        selected_field: i32,
        mode_picker_selected: usize,
        editing: bool,
        edit_buffer: String,
        edit_cursor_pos: usize,
    },
    WebSearchPicker {
        enabled: bool,
        engine: String,
        engine_url: String,
        api_key: Option<String>,
        /// -2 = engine sub-picker, -1 = enabled, 0 = engine, 1 = URL, 2 = API key
        selected_field: i32,
        engine_picker_selected: usize,
        editing: bool,
        edit_buffer: String,
        edit_cursor_pos: usize,
        check_status: Option<WebSearchCheckStatus>,
    },
    ChatTemplatePicker { entries: Vec<String>, selected: usize, edit_buffer: String },
    ChatTemplateFilePicker {
        /// (display name, path)
        entries: Vec<(String, String)>,
        selected: usize,
    },
}

/// The values a mode holds, with texts as character sequences.
#[allow(inconsistent_fields)]
pub enum ModeView {
    Normal,
    CmdLine { cmd_line: Seq<char> },
    HostPicker { entries: Seq<(Seq<char>, Seq<char>)>, selected: usize },
    BackendPicker { entries: Seq<(Seq<char>, Option<Seq<char>>)>, selected: usize },
    Confirmation { selected: bool, kind: ConfirmationKind, display_name: Seq<char>, detail: Option<Seq<char>> },
    RpcManager,
    About,
    MaxConcurrentPicker { value: Seq<char> },
    SpecTypePicker { entries: Seq<Seq<char>>, selected: usize },
    YarnRoPESettings {
        scale: Seq<char>,
        freq_base: Seq<char>,
        freq_scale: Seq<char>,
        selected_field: i32,
        editing: bool,
        edit_buffer: Seq<char>,
        edit_cursor_pos: usize,
    },
    BenchTuneSetup {
        selected_idx: usize,
        editing_param: bool,
        editing_param_field: i32,
        param_edit_buffer: Seq<char>,
        param_edit_cursor_pos: usize,
        bench_mode_selection: usize,
        editing_prompt: bool,
        editing_kwargs: bool,
    },
    PromptPicker {
        entries: Seq<(Seq<char>, Seq<char>)>,
        selected: usize,
        editing: bool,
        edit_buffer: Seq<char>,
        edit_cursor_pos: usize,
        confirm_delete: bool,
    },
    ProfilePicker { entries: Seq<(Seq<char>, Seq<char>)>, selected: usize },
    DashboardUrl {
        host: Seq<char>,
        ws_port: Seq<char>,
        api_port: Seq<char>,
        llm_port: Seq<char>,
        auth_key: Seq<char>,
        ws_enabled: bool,
        tls_enabled: bool,
    },
    SearchInput { buffer: Seq<char>, cursor_pos: usize },
    Onboarding { step: usize },
    GgufNaming { filename: Seq<char> },
    ApiEndpointPicker {
        enabled: bool,
        port: Seq<char>,
        api_key: Seq<char>,
        tls_enabled: bool,
        tls_cert: Seq<char>,
        tls_key: Seq<char>,
        selected_field: i32,
        editing: bool,
        edit_buffer: Seq<char>,
        edit_cursor_pos: usize,
    },
    ModelSettingsPicker { entries: Seq<(Seq<char>, Seq<char>)>, selected: usize },
    ProfileCreate {
        name: Seq<char>,
        description: Seq<char>,
        editing: bool,
        edit_buffer: Seq<char>,
        edit_cursor_pos: usize,
        field: usize,
    },
    LlamaServerOptionsPicker {
        port: Seq<char>,
        threads: u32,
        threads_batch: u32,
        log_level: Seq<char>,
        selected_field: i32,
        mode_picker_selected: usize,
        editing: bool,
        edit_buffer: Seq<char>,
        edit_cursor_pos: usize,
    },
    WebSearchPicker {
        enabled: bool,
        engine: Seq<char>,
        engine_url: Seq<char>,
        api_key: Option<Seq<char>>,
        selected_field: i32,
        engine_picker_selected: usize,
        editing: bool,
        edit_buffer: Seq<char>,
        edit_cursor_pos: usize,
        check_status: Option<CheckStatusView>,
    },
    ChatTemplatePicker { entries: Seq<Seq<char>>, selected: usize, edit_buffer: Seq<char> },
    ChatTemplateFilePicker { entries: Seq<(Seq<char>, Seq<char>)>, selected: usize },
}

pub enum CheckStatusView {
    Checking,
    Passed,
    Failed(Seq<char>),
}

impl WebSearchCheckStatus {
    pub open spec fn view(self) -> CheckStatusView {
        match self {
            WebSearchCheckStatus::Checking => CheckStatusView::Checking,
            WebSearchCheckStatus::Passed => CheckStatusView::Passed,
            WebSearchCheckStatus::Failed(e) => CheckStatusView::Failed(e@),
        }
    }
}

pub open spec fn status_view(s: Option<WebSearchCheckStatus>) -> Option<CheckStatusView> {
    match s {
        Some(st) => Some(st.view()),
        None => None,
    }
}

impl GlobalMode {
    /// The values this mode holds.
    pub open spec fn view(self) -> ModeView {
        match self {
            GlobalMode::Normal => ModeView::Normal,
            GlobalMode::CmdLine { cmd_line } => ModeView::CmdLine { cmd_line: cmd_line@ },
            GlobalMode::HostPicker { entries, selected } => ModeView::HostPicker { entries: entries.deep_view(), selected },
            GlobalMode::BackendPicker { entries, selected } => ModeView::BackendPicker { entries: entries.deep_view(), selected },
            GlobalMode::Confirmation { selected, kind, display_name, detail } => ModeView::Confirmation {
                selected,
                kind,
                display_name: display_name@,
                detail: detail.deep_view(),
            },
            GlobalMode::RpcManager => ModeView::RpcManager,
            GlobalMode::About => ModeView::About,
            GlobalMode::MaxConcurrentPicker { value } => ModeView::MaxConcurrentPicker { value: value@ },
            GlobalMode::SpecTypePicker { entries, selected } => ModeView::SpecTypePicker { entries: entries.deep_view(), selected },
            GlobalMode::YarnRoPESettings { scale, freq_base, freq_scale, selected_field, editing, edit_buffer, edit_cursor_pos } =>
                ModeView::YarnRoPESettings {
                    scale: scale@,
                    freq_base: freq_base@,
                    freq_scale: freq_scale@,
                    selected_field,
                    editing,
                    edit_buffer: edit_buffer@,
                    edit_cursor_pos,
                },
            GlobalMode::BenchTuneSetup {
                selected_idx,
                editing_param,
                editing_param_field,
                param_edit_buffer,
                param_edit_cursor_pos,
                bench_mode_selection,
                editing_prompt,
                editing_kwargs,
            } => ModeView::BenchTuneSetup {
                selected_idx,
                editing_param,
                editing_param_field,
                param_edit_buffer: param_edit_buffer@,
                param_edit_cursor_pos,
                bench_mode_selection,
                editing_prompt,
                editing_kwargs,
            },
            GlobalMode::PromptPicker { entries, selected, editing, edit_buffer, edit_cursor_pos, confirm_delete } =>
                ModeView::PromptPicker {
                    entries: entries.deep_view(),
                    selected,
                    editing,
                    edit_buffer: edit_buffer@,
                    edit_cursor_pos,
                    confirm_delete,
                },
            GlobalMode::ProfilePicker { entries, selected } => ModeView::ProfilePicker { entries: entries.deep_view(), selected },
            GlobalMode::DashboardUrl { host, ws_port, api_port, llm_port, auth_key, ws_enabled, tls_enabled } =>
                ModeView::DashboardUrl {
                    host: host@,
                    ws_port: ws_port@,
                    api_port: api_port@,
                    llm_port: llm_port@,
                    auth_key: auth_key@,
                    ws_enabled,
                    tls_enabled,
                },
            GlobalMode::SearchInput { buffer, cursor_pos } => ModeView::SearchInput { buffer: buffer@, cursor_pos },
            GlobalMode::Onboarding { step } => ModeView::Onboarding { step },
            GlobalMode::GgufNaming { filename } => ModeView::GgufNaming { filename: filename@ },
            GlobalMode::ApiEndpointPicker {
                enabled,
                port,
                api_key,
                tls_enabled,
                tls_cert,
                tls_key,
                selected_field,
                editing,
                edit_buffer,
                edit_cursor_pos,
            } => ModeView::ApiEndpointPicker {
                enabled,
                port: port@,
                api_key: api_key@,
                tls_enabled,
                tls_cert: tls_cert@,
                tls_key: tls_key@,
                selected_field,
                editing,
                edit_buffer: edit_buffer@,
                edit_cursor_pos,
            },
            GlobalMode::ModelSettingsPicker { entries, selected } => ModeView::ModelSettingsPicker {
                entries: entries.deep_view(),
                selected,
            },
            GlobalMode::ProfileCreate { name, description, editing, edit_buffer, edit_cursor_pos, field } =>
                ModeView::ProfileCreate {
                    name: name@,
                    description: description@,
                    editing,
                    edit_buffer: edit_buffer@,
                    edit_cursor_pos,
                    field,
                },
            GlobalMode::LlamaServerOptionsPicker {
                port,
                threads,
                threads_batch,
                log_level,
                selected_field,
                mode_picker_selected,
                editing,
                edit_buffer,
                edit_cursor_pos,
            } => ModeView::LlamaServerOptionsPicker {
                port: port@,
                threads,
                threads_batch,
                log_level: log_level@,
                selected_field,
                mode_picker_selected,
                editing,
                edit_buffer: edit_buffer@,
                edit_cursor_pos,
            },
            GlobalMode::WebSearchPicker {
                enabled,
                engine,
                engine_url,
                api_key,
                selected_field,
                engine_picker_selected,
                editing,
                edit_buffer,
                edit_cursor_pos,
                check_status,
            } => ModeView::WebSearchPicker {
                enabled,
                engine: engine@,
                engine_url: engine_url@,
                api_key: api_key.deep_view(),
                selected_field,
                engine_picker_selected,
                editing,
                edit_buffer: edit_buffer@,
                edit_cursor_pos,
                check_status: status_view(check_status),
            },
            GlobalMode::ChatTemplatePicker { entries, selected, edit_buffer } => ModeView::ChatTemplatePicker {
                entries: entries.deep_view(),
                selected,
                edit_buffer: edit_buffer@,
            },
            GlobalMode::ChatTemplateFilePicker { entries, selected } => ModeView::ChatTemplateFilePicker {
                entries: entries.deep_view(),
                selected,
            },
        }
    }
}

/// Something a handler asks the application to do.
pub enum Action {
    /// Write this shell script to the command export file and log the outcome.
    ExportCommandScript(String),
    /// Carry out the confirmed operation.
    Confirm { kind: ConfirmationKind, display_name: String, detail: Option<String> },
    /// Re-open the backend picker with fresh entries, near this selection.
    ReopenBackendPicker { selected_hint: Option<usize> },
    /// Forget the API unload that was waiting for confirmation.
    ClearPendingUnload,
    /// Set the maximum of concurrent predictions.
    SetMaxConcurrent(u32),
    /// Drop the cached settings rendering (and re-estimate VRAM if `true`).
    MarkSettingsDirty(bool),
    /// Save the shared settings to the configuration.
    SyncGlobalSettings,
    SetSpecType(String),
    SetHost(String),
    /// Replace the host picker's entries with the current network interfaces.
    RefreshHostPicker,
    /// Start a hub search for this query.
    SubmitSearch(String),
    /// Remember this search text.
    SetSearchInput(String),
    /// Parse and set the RoPE scale from this text.
    SetRopeScale(String),
    SetRopeFreqBase(String),
    SetRopeFreqScale(String),
    SetRopeYarnEnabled(bool),
    /// Apply the settings profile with this name.
    ApplySettingsProfile(String),
    /// Apply the profile with this name, if it exists.
    ApplyProfile(String),
    /// Mark onboarding as done and save.
    CompleteOnboarding,
    SetApiEndpointEnabled(bool),
    SetApiEndpointPort(u16),
    SetApiEndpointKey(Option<String>),
    SetServerTlsEnabled(bool),
    SetServerTlsCert(Option<String>),
    SetServerTlsKey(Option<String>),
    /// Use this backend build (installing it first if needed).
    SelectBackend { backend: String, tag: Option<String> },
    /// Show the chat template picker again (after logging that no template files exist,
    /// if `no_files`).
    ReopenChatTemplatePicker { no_files: bool },
    /// Use this chat template: automatic detection, or the given template (or none).
    SetChatTemplate { auto: bool, template: Option<String> },
    /// Copy the dashboard addresses to the clipboard.
    CopyDashboardUrls {
        host: String,
        ws_port: String,
        api_port: String,
        llm_port: String,
        auth_key: String,
        tls_enabled: bool,
    },
    SetServerPort(u16),
    SetThreads(u32),
    SetThreadsBatch(u32),
    /// Switch to the server mode at this index of the mode list.
    SetServerMode(usize),
    SetLogLevel(String),
    /// Save the profile being created; on success re-open the settings profile picker.
    SaveProfile,
    OpenModelSettingsPicker,
    SetWebSearchEngine(String),
    SetWebSearchEngineUrl(String),
    SetWebSearchApiKey(Option<String>),
    SetWebSearchEnabled(bool),
    /// Check that the search engine answers.
    StartWebSearchCheck { engine: String, engine_url: String, api_key: Option<String> },
    RequestRedraw,
    /// Log that built-in presets cannot be deleted.
    RefuseBuiltinPresetDeletion,
    DeletePreset(String),
    /// Save this content into the named preset and log the outcome.
    SavePreset { name: String, content: String },
    /// Use the named system prompt preset.
    SelectPreset(String),
    /// Create a user preset with this name.
    CreatePreset(String),
    /// Log that no preset was selected to save.
    PresetSaveFailed,
    /// Hand this key to the RPC worker list editor.
    RpcWorkersKey(Key),
    /// Hand this key to the benchmark tuning setup editor.
    BenchTuneSetupKey(Key),
}

/// The values an action carries, with texts as character sequences.
pub enum ActionView {
    ExportCommandScript(Seq<char>),
    Confirm { kind: ConfirmationKind, display_name: Seq<char>, detail: Option<Seq<char>> },
    ReopenBackendPicker { selected_hint: Option<usize> },
    ClearPendingUnload,
    SetMaxConcurrent(u32),
    MarkSettingsDirty(bool),
    SyncGlobalSettings,
    SetSpecType(Seq<char>),
    SetHost(Seq<char>),
    RefreshHostPicker,
    SubmitSearch(Seq<char>),
    SetSearchInput(Seq<char>),
    SetRopeScale(Seq<char>),
    SetRopeFreqBase(Seq<char>),
    SetRopeFreqScale(Seq<char>),
    SetRopeYarnEnabled(bool),
    ApplySettingsProfile(Seq<char>),
    ApplyProfile(Seq<char>),
    CompleteOnboarding,
    SetApiEndpointEnabled(bool),
    SetApiEndpointPort(u16),
    SetApiEndpointKey(Option<Seq<char>>),
    SetServerTlsEnabled(bool),
    SetServerTlsCert(Option<Seq<char>>),
    SetServerTlsKey(Option<Seq<char>>),
    SelectBackend { backend: Seq<char>, tag: Option<Seq<char>> },
    ReopenChatTemplatePicker { no_files: bool },
    SetChatTemplate { auto: bool, template: Option<Seq<char>> },
    CopyDashboardUrls {
        host: Seq<char>,
        ws_port: Seq<char>,
        api_port: Seq<char>,
        llm_port: Seq<char>,
        auth_key: Seq<char>,
        tls_enabled: bool,
    },
    SetServerPort(u16),
    SetThreads(u32),
    SetThreadsBatch(u32),
    SetServerMode(usize),
    SetLogLevel(Seq<char>),
    SaveProfile,
    OpenModelSettingsPicker,
    SetWebSearchEngine(Seq<char>),
    SetWebSearchEngineUrl(Seq<char>),
    SetWebSearchApiKey(Option<Seq<char>>),
    SetWebSearchEnabled(bool),
    StartWebSearchCheck { engine: Seq<char>, engine_url: Seq<char>, api_key: Option<Seq<char>> },
    RequestRedraw,
    RefuseBuiltinPresetDeletion,
    DeletePreset(Seq<char>),
    SavePreset { name: Seq<char>, content: Seq<char> },
    SelectPreset(Seq<char>),
    CreatePreset(Seq<char>),
    PresetSaveFailed,
    RpcWorkersKey(Key),
    BenchTuneSetupKey(Key),
}

impl Action {
    /// The values this action carries.
    pub open spec fn view(self) -> ActionView {
        match self {
            Action::ExportCommandScript(s) => ActionView::ExportCommandScript(s@),
            Action::Confirm { kind, display_name, detail } => ActionView::Confirm {
                kind,
                display_name: display_name@,
                detail: detail.deep_view(),
            },
            Action::ReopenBackendPicker { selected_hint } => ActionView::ReopenBackendPicker { selected_hint },
            Action::ClearPendingUnload => ActionView::ClearPendingUnload,
            Action::SetMaxConcurrent(n) => ActionView::SetMaxConcurrent(n),
            Action::MarkSettingsDirty(b) => ActionView::MarkSettingsDirty(b),
            Action::SyncGlobalSettings => ActionView::SyncGlobalSettings,
            Action::SetSpecType(s) => ActionView::SetSpecType(s@),
            Action::SetHost(s) => ActionView::SetHost(s@),
            Action::RefreshHostPicker => ActionView::RefreshHostPicker,
            Action::SubmitSearch(s) => ActionView::SubmitSearch(s@),
            Action::SetSearchInput(s) => ActionView::SetSearchInput(s@),
            Action::SetRopeScale(s) => ActionView::SetRopeScale(s@),
            Action::SetRopeFreqBase(s) => ActionView::SetRopeFreqBase(s@),
            Action::SetRopeFreqScale(s) => ActionView::SetRopeFreqScale(s@),
            Action::SetRopeYarnEnabled(b) => ActionView::SetRopeYarnEnabled(b),
            Action::ApplySettingsProfile(s) => ActionView::ApplySettingsProfile(s@),
            Action::ApplyProfile(s) => ActionView::ApplyProfile(s@),
            Action::CompleteOnboarding => ActionView::CompleteOnboarding,
            Action::SetApiEndpointEnabled(b) => ActionView::SetApiEndpointEnabled(b),
            Action::SetApiEndpointPort(p) => ActionView::SetApiEndpointPort(p),
            Action::SetApiEndpointKey(k) => ActionView::SetApiEndpointKey(k.deep_view()),
            Action::SetServerTlsEnabled(b) => ActionView::SetServerTlsEnabled(b),
            Action::SetServerTlsCert(c) => ActionView::SetServerTlsCert(c.deep_view()),
            Action::SetServerTlsKey(k) => ActionView::SetServerTlsKey(k.deep_view()),
            Action::SelectBackend { backend, tag } => ActionView::SelectBackend { backend: backend@, tag: tag.deep_view() },
            Action::ReopenChatTemplatePicker { no_files } => ActionView::ReopenChatTemplatePicker { no_files },
            Action::SetChatTemplate { auto, template } => ActionView::SetChatTemplate { auto, template: template.deep_view() },
            Action::CopyDashboardUrls { host, ws_port, api_port, llm_port, auth_key, tls_enabled } =>
                ActionView::CopyDashboardUrls {
                    host: host@,
                    ws_port: ws_port@,
                    api_port: api_port@,
                    llm_port: llm_port@,
                    auth_key: auth_key@,
                    tls_enabled,
                },
            Action::SetServerPort(p) => ActionView::SetServerPort(p),
            Action::SetThreads(t) => ActionView::SetThreads(t),
            Action::SetThreadsBatch(t) => ActionView::SetThreadsBatch(t),
            Action::SetServerMode(i) => ActionView::SetServerMode(i),
            Action::SetLogLevel(s) => ActionView::SetLogLevel(s@),
            Action::SaveProfile => ActionView::SaveProfile,
            Action::OpenModelSettingsPicker => ActionView::OpenModelSettingsPicker,
            Action::SetWebSearchEngine(s) => ActionView::SetWebSearchEngine(s@),
            Action::SetWebSearchEngineUrl(s) => ActionView::SetWebSearchEngineUrl(s@),
            Action::SetWebSearchApiKey(k) => ActionView::SetWebSearchApiKey(k.deep_view()),
            Action::SetWebSearchEnabled(b) => ActionView::SetWebSearchEnabled(b),
            Action::StartWebSearchCheck { engine, engine_url, api_key } => ActionView::StartWebSearchCheck {
                engine: engine@,
                engine_url: engine_url@,
                api_key: api_key.deep_view(),
            },
            Action::RequestRedraw => ActionView::RequestRedraw,
            Action::RefuseBuiltinPresetDeletion => ActionView::RefuseBuiltinPresetDeletion,
            Action::DeletePreset(s) => ActionView::DeletePreset(s@),
            Action::SavePreset { name, content } => ActionView::SavePreset { name: name@, content: content@ },
            Action::SelectPreset(s) => ActionView::SelectPreset(s@),
            Action::CreatePreset(s) => ActionView::CreatePreset(s@),
            Action::PresetSaveFailed => ActionView::PresetSaveFailed,
            Action::RpcWorkersKey(k) => ActionView::RpcWorkersKey(k),
            Action::BenchTuneSetupKey(k) => ActionView::BenchTuneSetupKey(k),
        }
    }
}

/// The values a list of actions carries.
pub open spec fn actions_view(v: Seq<Action>) -> Seq<ActionView> {
    v.map_values(|a: Action| a.view())
}

/// What the handlers read of the application besides the mode.
pub struct OverlayContext {
    /// Whether YaRN RoPE scaling is on in the current settings.
    pub rope_yarn_enabled: bool,
    /// Threads and batch threads in the current settings.
    pub threads: u32,
    pub threads_batch: u32,
    /// Position of the current server mode in the list of server modes, if it is there.
    pub server_mode_index: Option<usize>,
    /// Number of server modes.
    pub server_mode_count: usize,
    /// Content of the preset selected in the prompt picker, if it exists.
    pub selected_preset_content: Option<String>,
    /// Number of user-defined presets.
    pub user_preset_count: usize,
}

} // verus!
