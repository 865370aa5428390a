//! The overlay registry: the handlers that take keys while an overlay is shown, asked in
//! a fixed order; the first that can handle the current mode gets the key.
use vstd::prelude::*;
use crate::keys::{Key, KeyCode};
use crate::overlay::{Action, ActionView, GlobalMode, ModeView, OverlayContext};
use crate::text::chars_of;
use crate::overlay::editors::{
    api_endpoint_step, cursor_ok, prompt_picker_step, search_input_step, yarn_step, ApiEndpointPickerHandler,
    PromptPickerHandler, SearchInputHandler, YarnRoPESettingsHandler,
};
use crate::overlay::pickers::{
    backend_picker_step, chat_template_file_step, chat_template_step, host_picker_step, profile_picker_step,
    spec_type_step, BackendPickerHandler, ChatTemplateFilePickerHandler, ChatTemplatePickerHandler,
    HostPickerHandler, ProfilePickerHandler, SpecTypePickerHandler,
};
use crate::overlay::servers::{web_search_step, WebSearchPickerHandler};
use crate::overlay::simple::{
    about_step, cmd_line_step, confirmation_step, dashboard_url_step, gguf_naming_step, max_concurrent_step,
    onboarding_step, produced, AboutHandler, BenchTuneSetupHandler, CmdLineHandler, ConfirmationHandler,
    DashboardUrlHandler, GgufNamingHandler, MaxConcurrentPickerHandler, OnboardingHandler, RpcManagerHandler,
};

verus! {

/// The registered overlay handlers.
#[derive(Clone, Copy, PartialEq, Eq, Structural)]
pub enum OverlayKind {
    Onboarding,
    CmdLine,
    About,
    SearchInput,
    ApiEndpointPicker,
    SpecTypePicker,
    ChatTemplatePicker,
    ChatTemplateFilePicker,
    YarnRoPESettings,
    DashboardUrl,
    HostPicker,
    ProfilePicker,
    PromptPicker,
    BenchTuneSetup,
    BackendPicker,
    MaxConcurrentPicker,
    Confirmation,
    RpcManager,
    GgufNaming,
    WebSearchPicker,
}

/// The order in which the handlers are asked.
pub open spec fn registry_order() -> Seq<OverlayKind> {
    seq![
        OverlayKind::Onboarding,
        OverlayKind::CmdLine,
        OverlayKind::About,
        OverlayKind::SearchInput,
        OverlayKind::ApiEndpointPicker,
        OverlayKind::SpecTypePicker,
        OverlayKind::ChatTemplatePicker,
        OverlayKind::ChatTemplateFilePicker,
        OverlayKind::YarnRoPESettings,
        OverlayKind::DashboardUrl,
        OverlayKind::HostPicker,
        OverlayKind::ProfilePicker,
        OverlayKind::PromptPicker,
        OverlayKind::BenchTuneSetup,
        OverlayKind::BackendPicker,
        OverlayKind::MaxConcurrentPicker,
        OverlayKind::Confirmation,
        OverlayKind::RpcManager,
        OverlayKind::GgufNaming,
        OverlayKind::WebSearchPicker,
    ]
}

/// Whether the handler of this kind takes keys in mode `m`.
pub open spec fn handles(kind: OverlayKind, m: ModeView) -> bool {
    match kind {
        OverlayKind::Onboarding => m is Onboarding,
        OverlayKind::CmdLine => m is CmdLine,
        OverlayKind::About => m is About,
        OverlayKind::SearchInput => m is SearchInput,
        OverlayKind::ApiEndpointPicker => m is ApiEndpointPicker,
        OverlayKind::SpecTypePicker => m is SpecTypePicker,
        OverlayKind::ChatTemplatePicker => m is ChatTemplatePicker,
        OverlayKind::ChatTemplateFilePicker => m is ChatTemplateFilePicker,
        OverlayKind::YarnRoPESettings => m is YarnRoPESettings,
        OverlayKind::DashboardUrl => m is DashboardUrl,
        OverlayKind::HostPicker => m is HostPicker,
        OverlayKind::ProfilePicker => m is ProfilePicker,
        OverlayKind::PromptPicker => m is PromptPicker,
        OverlayKind::BenchTuneSetup => m is BenchTuneSetup,
        OverlayKind::BackendPicker => m is BackendPicker,
        OverlayKind::MaxConcurrentPicker => m is MaxConcurrentPicker,
        OverlayKind::Confirmation => m is Confirmation,
        OverlayKind::RpcManager => m is RpcManager,
        OverlayKind::GgufNaming => m is GgufNaming,
        OverlayKind::WebSearchPicker => m is WebSearchPicker,
    }
}

/// What the handler of this kind does with `key` in mode `m`.
pub open spec fn kind_step(kind: OverlayKind, m: ModeView, key: Key, ctx: OverlayContext) -> (ModeView, Seq<ActionView>) {
    match kind {
        OverlayKind::Onboarding => onboarding_step(m, key),
        OverlayKind::CmdLine => cmd_line_step(m, key),
        OverlayKind::About => about_step(m, key),
        OverlayKind::SearchInput => search_input_step(m, key),
        OverlayKind::ApiEndpointPicker => api_endpoint_step(m, key),
        OverlayKind::SpecTypePicker => spec_type_step(m, key),
        OverlayKind::ChatTemplatePicker => chat_template_step(m, key),
        OverlayKind::ChatTemplateFilePicker => chat_template_file_step(m, key),
        OverlayKind::YarnRoPESettings => yarn_step(m, key, ctx.rope_yarn_enabled),
        OverlayKind::DashboardUrl => dashboard_url_step(m, key),
        OverlayKind::HostPicker => host_picker_step(m, key),
        OverlayKind::ProfilePicker => profile_picker_step(m, key),
        OverlayKind::PromptPicker => prompt_picker_step(
            m,
            key,
            ctx.selected_preset_content.deep_view(),
            ctx.user_preset_count,
        ),
        OverlayKind::BenchTuneSetup => (m, seq![ActionView::BenchTuneSetupKey(key)]),
        OverlayKind::BackendPicker => backend_picker_step(m, key),
        OverlayKind::MaxConcurrentPicker => max_concurrent_step(m, key),
        OverlayKind::Confirmation => confirmation_step(m, key),
        OverlayKind::RpcManager => (m, seq![ActionView::RpcWorkersKey(key)]),
        OverlayKind::GgufNaming => gguf_naming_step(m, key),
        OverlayKind::WebSearchPicker => web_search_step(m, key),
    }
}

/// The registered handler that takes keys in mode `m`, if any.
pub open spec fn handler_for(m: ModeView) -> Option<OverlayKind> {
    if exists|i: int| 0 <= i < registry_order().len() && handles(#[trigger] registry_order()[i], m) {
        Some(registry_order()[first_handler(m)])
    } else {
        None
    }
}

/// The position of the first registered handler that takes keys in mode `m`.
pub open spec fn first_handler(m: ModeView) -> int {
    choose|i: int|
        0 <= i < registry_order().len() && handles(#[trigger] registry_order()[i], m)
            && forall|j: int| 0 <= j < i ==> !handles(#[trigger] registry_order()[j], m)
}

/// What the registry does with `key` in mode `m`: nothing (`None`) when no registered
/// handler takes that mode, else the step of the first handler that does.
pub open spec fn overlay_step(m: ModeView, key: Key, ctx: OverlayContext) -> Option<(ModeView, Seq<ActionView>)> {
    match handler_for(m) {
        Some(kind) => Some(kind_step(kind, m, key, ctx)),
        None => None,
    }
}

/// What the handlers need of the mode and the key: cursors inside their texts, list
/// selections that can still move, and a valid selection where Enter picks an entry.
pub open spec fn overlay_ready(m: ModeView, key: Key, ctx: OverlayContext) -> bool {
    &&& m matches ModeView::Onboarding { step } ==> step < usize::MAX
    &&& m matches ModeView::HostPicker { selected, .. } ==> selected < usize::MAX
    &&& m matches ModeView::BackendPicker { entries, selected } ==> selected < usize::MAX
        && (key.code == KeyCode::Enter ==> selected < entries.len())
    &&& m matches ModeView::SpecTypePicker { entries, selected } ==> selected < usize::MAX
        && (key.code == KeyCode::Enter ==> selected < entries.len())
    &&& m matches ModeView::ProfilePicker { selected, .. } ==> selected < usize::MAX
    &&& m matches ModeView::ChatTemplatePicker { entries, selected, .. } ==> selected < usize::MAX
        && (key.code == KeyCode::Enter ==> selected < entries.len())
    &&& m matches ModeView::ChatTemplateFilePicker { entries, selected } ==> selected < usize::MAX
        && (key.code == KeyCode::Enter && entries.len() > 0 ==> selected < entries.len())
    &&& m matches ModeView::SearchInput { buffer, cursor_pos } ==> cursor_ok(buffer, cursor_pos)
    &&& m matches ModeView::YarnRoPESettings { edit_buffer, edit_cursor_pos, .. } ==> cursor_ok(
        edit_buffer,
        edit_cursor_pos,
    )
    &&& m matches ModeView::ApiEndpointPicker { edit_buffer, edit_cursor_pos, .. } ==> cursor_ok(
        edit_buffer,
        edit_cursor_pos,
    )
    &&& m matches ModeView::PromptPicker { entries, selected, edit_buffer, edit_cursor_pos, .. } ==> cursor_ok(
        edit_buffer,
        edit_cursor_pos,
    ) && selected < usize::MAX && entries.len() < usize::MAX && ctx.user_preset_count < usize::MAX
    &&& m matches ModeView::WebSearchPicker { edit_buffer, edit_cursor_pos, engine_picker_selected, .. } ==> cursor_ok(
        edit_buffer,
        edit_cursor_pos,
    ) && engine_picker_selected < usize::MAX
}

/// The handlers asked, in order, for each key while an overlay is shown.
pub struct OverlayRegistry {
    handlers: Vec<OverlayKind>,
}

impl OverlayRegistry {
    #[verifier::type_invariant]
    spec fn in_order(self) -> bool {
        self.handlers@ == registry_order()
    }

    /// The handlers in the order they are asked.
    pub closed spec fn handlers(self) -> Seq<OverlayKind> {
        self.handlers@
    }

    pub fn new() -> (r: OverlayRegistry)
        ensures
            r.handlers() == registry_order(),
    {
        let handlers: Vec<OverlayKind> = vec![
            OverlayKind::Onboarding,
            OverlayKind::CmdLine,
            OverlayKind::About,
            OverlayKind::SearchInput,
            OverlayKind::ApiEndpointPicker,
            OverlayKind::SpecTypePicker,
            OverlayKind::ChatTemplatePicker,
            OverlayKind::ChatTemplateFilePicker,
            OverlayKind::YarnRoPESettings,
            OverlayKind::DashboardUrl,
            OverlayKind::HostPicker,
            OverlayKind::ProfilePicker,
            OverlayKind::PromptPicker,
            OverlayKind::BenchTuneSetup,
            OverlayKind::BackendPicker,
            OverlayKind::MaxConcurrentPicker,
            OverlayKind::Confirmation,
            OverlayKind::RpcManager,
            OverlayKind::GgufNaming,
            OverlayKind::WebSearchPicker,
        ];
        assert(handlers@ == registry_order());
        OverlayRegistry { handlers }
    }

    /// Hands `key` to the first handler that can handle the current mode. Returns the
    /// actions it asks for, or `None` (leaving the mode as it is) when no overlay
    /// handler takes this mode.
    pub fn dispatch(&self, mode: &mut GlobalMode, key: Key, ctx: &OverlayContext) -> (r: Option<Vec<Action>>)
        requires
            overlay_ready(old(mode).view(), key, *ctx),
        ensures
            match overlay_step(old(mode).view(), key, *ctx) {
                Some(step) => r matches Some(acts) && produced(*final(mode), acts@, step),
                None => r is None && final(mode).view() == old(mode).view(),
            },
    {
        proof {
            use_type_invariant(self);
        }
        let ghost m = mode.view();
        let mut i: usize = 0;
        while i < self.handlers.len()
            invariant
                self.handlers@ == registry_order(),
                0 <= i <= self.handlers@.len(),
                *mode == *old(mode),
                m == old(mode).view(),
                overlay_ready(m, key, *ctx),
                forall|j: int| 0 <= j < i ==> !handles(#[trigger] registry_order()[j], m),
            decreases self.handlers@.len() - i,
        {
            let kind = self.handlers[i];
            if can_handle(kind, mode) {
                proof {
                    assert(handles(registry_order()[i as int], m));
                    let f = first_handler(m);
                    assert(0 <= f < registry_order().len() && handles(registry_order()[f], m)
                        && forall|j: int| 0 <= j < f ==> !handles(#[trigger] registry_order()[j], m));
                    if f < i as int {
                    } else if f > i as int {
                        assert(!handles(registry_order()[i as int], m));
                    }
                    assert(handler_for(m) == Some(kind));
                }
                let acts = handle(kind, mode, key, ctx);
                return Some(acts);
            }
            i = i + 1;
        }
        proof {
            assert(handler_for(m) is None);
        }
        None
    }
}

fn cursor_fits(buf: &String, cur: usize) -> (r: bool)
    ensures
        r == cursor_ok(buf@, cur),
{
    cur < usize::MAX && cur <= chars_of(buf.as_str()).len()
}

/// Whether the mode and the key meet what the handlers need (see `overlay_ready`); the
/// application tests this before dispatching a key.
pub fn is_ready(mode: &GlobalMode, key: Key, ctx: &OverlayContext) -> (r: bool)
    ensures
        r == overlay_ready(mode.view(), key, *ctx),
{
    let enter = key.code == KeyCode::Enter;
    match mode {
        GlobalMode::Onboarding { step } => *step < usize::MAX,
        GlobalMode::HostPicker { selected, .. } => *selected < usize::MAX,
        GlobalMode::BackendPicker { entries, selected } => *selected < usize::MAX && (!enter || *selected < entries.len()),
        GlobalMode::SpecTypePicker { entries, selected } => *selected < usize::MAX && (!enter || *selected < entries.len()),
        GlobalMode::ProfilePicker { selected, .. } => *selected < usize::MAX,
        GlobalMode::ChatTemplatePicker { entries, selected, .. } => *selected < usize::MAX && (!enter || *selected
            < entries.len()),
        GlobalMode::ChatTemplateFilePicker { entries, selected } => *selected < usize::MAX && (!(enter && entries.len()
            > 0) || *selected < entries.len()),
        GlobalMode::SearchInput { buffer, cursor_pos } => cursor_fits(buffer, *cursor_pos),
        GlobalMode::YarnRoPESettings { edit_buffer, edit_cursor_pos, .. } => cursor_fits(edit_buffer, *edit_cursor_pos),
        GlobalMode::ApiEndpointPicker { edit_buffer, edit_cursor_pos, .. } => cursor_fits(edit_buffer, *edit_cursor_pos),
        GlobalMode::PromptPicker { entries, selected, edit_buffer, edit_cursor_pos, .. } => cursor_fits(
            edit_buffer,
            *edit_cursor_pos,
        ) && *selected < usize::MAX && entries.len() < usize::MAX && ctx.user_preset_count < usize::MAX,
        GlobalMode::WebSearchPicker { edit_buffer, edit_cursor_pos, engine_picker_selected, .. } => cursor_fits(
            edit_buffer,
            *edit_cursor_pos,
        ) && *engine_picker_selected < usize::MAX,
        _ => true,
    }
}

fn can_handle(kind: OverlayKind, mode: &GlobalMode) -> (r: bool)
    ensures
        r == handles(kind, mode.view()),
{
    match kind {
        OverlayKind::Onboarding => OnboardingHandler.can_handle(mode),
        OverlayKind::CmdLine => CmdLineHandler.can_handle(mode),
        OverlayKind::About => AboutHandler.can_handle(mode),
        OverlayKind::SearchInput => SearchInputHandler.can_handle(mode),
        OverlayKind::ApiEndpointPicker => ApiEndpointPickerHandler.can_handle(mode),
        OverlayKind::SpecTypePicker => SpecTypePickerHandler.can_handle(mode),
        OverlayKind::ChatTemplatePicker => ChatTemplatePickerHandler.can_handle(mode),
        OverlayKind::ChatTemplateFilePicker => ChatTemplateFilePickerHandler.can_handle(mode),
        OverlayKind::YarnRoPESettings => YarnRoPESettingsHandler.can_handle(mode),
        OverlayKind::DashboardUrl => DashboardUrlHandler.can_handle(mode),
        OverlayKind::HostPicker => HostPickerHandler.can_handle(mode),
        OverlayKind::ProfilePicker => ProfilePickerHandler.can_handle(mode),
        OverlayKind::PromptPicker => PromptPickerHandler.can_handle(mode),
        OverlayKind::BenchTuneSetup => BenchTuneSetupHandler.can_handle(mode),
        OverlayKind::BackendPicker => BackendPickerHandler.can_handle(mode),
        OverlayKind::MaxConcurrentPicker => MaxConcurrentPickerHandler.can_handle(mode),
        OverlayKind::Confirmation => ConfirmationHandler.can_handle(mode),
        OverlayKind::RpcManager => RpcManagerHandler.can_handle(mode),
        OverlayKind::GgufNaming => GgufNamingHandler.can_handle(mode),
        OverlayKind::WebSearchPicker => WebSearchPickerHandler.can_handle(mode),
    }
}

fn handle(kind: OverlayKind, mode: &mut GlobalMode, key: Key, ctx: &OverlayContext) -> (acts: Vec<Action>)
    requires
        handles(kind, old(mode).view()),
        overlay_ready(old(mode).view(), key, *ctx),
    ensures
        produced(*final(mode), acts@, kind_step(kind, old(mode).view(), key, *ctx)),
{
    match kind {
        OverlayKind::Onboarding => OnboardingHandler.handle(mode, key),
        OverlayKind::CmdLine => CmdLineHandler.handle(mode, key),
        OverlayKind::About => AboutHandler.handle(mode, key),
        OverlayKind::SearchInput => SearchInputHandler.handle(mode, key),
        OverlayKind::ApiEndpointPicker => ApiEndpointPickerHandler.handle(mode, key),
        OverlayKind::SpecTypePicker => SpecTypePickerHandler.handle(mode, key),
        OverlayKind::ChatTemplatePicker => ChatTemplatePickerHandler.handle(mode, key),
        OverlayKind::ChatTemplateFilePicker => ChatTemplateFilePickerHandler.handle(mode, key),
        OverlayKind::YarnRoPESettings => YarnRoPESettingsHandler.handle(mode, key, ctx),
        OverlayKind::DashboardUrl => DashboardUrlHandler.handle(mode, key),
        OverlayKind::HostPicker => HostPickerHandler.handle(mode, key),
        OverlayKind::ProfilePicker => ProfilePickerHandler.handle(mode, key),
        OverlayKind::PromptPicker => PromptPickerHandler.handle(mode, key, ctx),
        OverlayKind::BenchTuneSetup => BenchTuneSetupHandler.handle(mode, key),
        OverlayKind::BackendPicker => BackendPickerHandler.handle(mode, key),
        OverlayKind::MaxConcurrentPicker => MaxConcurrentPickerHandler.handle(mode, key),
        OverlayKind::Confirmation => ConfirmationHandler.handle(mode, key),
        OverlayKind::RpcManager => RpcManagerHandler.handle(mode, key),
        OverlayKind::GgufNaming => GgufNamingHandler.handle(mode, key),
        OverlayKind::WebSearchPicker => WebSearchPickerHandler.handle(mode, key),
    }
}

} // verus!
