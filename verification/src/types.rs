//! Small state types of the user interface: panels, modes, confirmation kinds, loading
//! phases and the plain sub-states of the application.
use vstd::prelude::*;
use crate::search::SearchResults;

verus! {

/// `std::time::Instant`, a reading of the monotonic clock; carried, never inspected.
#[verifier::external_type_specification]
#[verifier::external_body]
pub struct ExInstant(std::time::Instant);

/// Which panel has focus.
#[derive(Debug, Clone, Copy, PartialEq, Eq, Structural)]
pub enum ActivePanel {
    Models,
    Log,
    ServerSettings,
    LlmSettings,
    Profiles,
    SystemPromptPresets,
    SearchReadme,
    ActiveModel,
    ModelInfo,
    Downloads,
}

impl Default for ActivePanel {
    /// The models list has focus by default.
    fn default() -> (r: Self)
        ensures
            r == ActivePanel::Models,
    {
        ActivePanel::Models
    }
}

/// What a confirmation dialog confirms.
#[derive(Debug, Clone, Copy, PartialEq, Eq, Structural)]
pub enum ConfirmationKind {
    Exit,
    Reset,
    Delete,
    Unload,
    DeleteBackend,
    DeleteSettingsProfile,
}

/// Phase of model loading, in the order a server goes through them.
#[derive(Debug, Clone, Copy, PartialEq, Eq, Hash, Structural)]
pub enum LoadingPhase {
    ServerStarting,
    LoadingModel,
    LoadingMeta,
    LoadingTensors,
    ServerListening,
    Complete,
}

/// The text shown for each loading phase.
pub open spec fn phase_label(p: LoadingPhase) -> Seq<char> {
    match p {
        LoadingPhase::ServerStarting => "Server starting..."@,
        LoadingPhase::LoadingModel => "Loading model weights..."@,
        LoadingPhase::LoadingMeta => "Loading metadata..."@,
        LoadingPhase::LoadingTensors => "Loading tensors..."@,
        LoadingPhase::ServerListening => "Server listening..."@,
        LoadingPhase::Complete => "Ready"@,
    }
}

impl LoadingPhase {
    /// The text shown for this phase.
    pub fn label(&self) -> (r: &'static str)
        ensures
            r@ == phase_label(*self),
    {
        match self {
            LoadingPhase::ServerStarting => "Server starting...",
            LoadingPhase::LoadingModel => "Loading model weights...",
            LoadingPhase::LoadingMeta => "Loading metadata...",
            LoadingPhase::LoadingTensors => "Loading tensors...",
            LoadingPhase::ServerListening => "Server listening...",
            LoadingPhase::Complete => "Ready",
        }
    }
}

/// Mode of the models panel, with the values the panel logic reads.
#[derive(Debug)]
pub enum ModelsMode {
    /// The list of local models.
    List,
    /// Searching a model hub: the results, and whether the README panel is shown.
    Search { results: SearchResults, show_readme: bool },
    /// The downloadable files of one model.
    Files { model_id: String, selected_idx: Option<usize> },
    /// A benchmark tuning run.
    BenchTune,
}

/// An operation the key handlers hand to the main loop.
pub enum PendingEvent {
    /// Download `filename` of hub model `model_id` from `url` into `subdir`.
    Download { model_id: String, filename: String, url: String, file_size: u64, subdir: String },
    /// Delete the model file at `path`.
    Deletion { path: String },
    /// Delete the installed build `tag` of the backend with this slug.
    BackendDeletion { backend: String, tag: String },
    /// Start a server, with the model at this position of the models list or without one
    /// (router mode), and the current settings.
    Spawn { model: Option<usize> },
    /// Stop the server whose handle the application holds.
    KillHandle,
    /// Search the hub for `query`, from result `offset` on.
    Search { query: String, offset: u32 },
}

/// A text that scrolls sideways when it does not fit: its offset, when it last moved,
/// its direction, how long it rests at an end, how far it can go, and whether it is shown.
pub struct TextScrollState {
    pub offset: usize,
    pub last_tick: std::time::Instant,
    pub direction: i8,
    pub hold_count: u8,
    pub max_offset: usize,
    pub visible: bool,
}

impl TextScrollState {
    /// The text is shown and has room to move.
    pub fn is_moving(&self) -> (r: bool)
        ensures
            r == (self.visible && self.max_offset > 0),
    {
        self.visible && self.max_offset > 0
    }
}

/// Some shown text still scrolls.
pub fn any_text_scroll_moving(scrolls: &Vec<TextScrollState>) -> (r: bool)
    ensures
        r == exists|i: int| 0 <= i < scrolls@.len() && scrolls@[i].visible && #[trigger] scrolls@[i].max_offset > 0,
{
    let mut i: usize = 0;
    while i < scrolls.len()
        invariant
            i <= scrolls.len(),
            forall|j: int| 0 <= j < i ==> !(scrolls@[j].visible && #[trigger] scrolls@[j].max_offset > 0),
        decreases scrolls.len() - i,
    {
        if scrolls[i].is_moving() {
            return true;
        }
        i = i + 1;
    }
    false
}

/// The log panel's state.
pub struct LogState {
    pub log_expanded: bool,
    pub log_scroll_offset: usize,
    pub log_follow: bool,
    pub log_total_lines: usize,
}

/// Editing state of the settings side panels (tags modal and friends).
pub struct EditState {
    pub edit_cursor_pos: usize,
    pub editing_n_predict: bool,
    pub n_predict_edit_buffer: String,
    pub editing_iters: bool,
    pub iters_edit_buffer: String,
    pub tags_editing: bool,
    pub tags_edit_buffer: String,
    pub tags_selected_idx: Option<usize>,
    pub tags_insert_mode: bool,
    pub editing_preset: Option<usize>,
}

/// Selections and scroll offsets of the pickers.
pub struct PickerState {
    pub host_picker_entries: Vec<(String, String)>,
    pub host_picker_selected: usize,
    /// Backend entries: the backend's slug and, for an installed build, its tag.
    pub backend_picker_entries: Vec<(String, Option<String>)>,
    pub backend_picker_selected: usize,
    pub prompt_picker_entries: Vec<(String, String)>,
    pub prompt_picker_selected: usize,
    pub profile_picker_entries: Vec<(String, String)>,
    pub profile_picker_selected: usize,
    pub profiles_scroll_offset: usize,
    pub system_prompt_presets_scroll_offset: usize,
    pub rpc_workers_selected_idx: usize,
    pub editing_rpc_worker: Option<usize>,
    pub rpc_workers_scroll_offset: usize,
    pub readme_scroll_offset: usize,
}

} // verus!
