//! The help shown for each panel: a title, a description, and the keys and fields with
//! what they do. Messages are named by their translation key and translated, with the
//! highlight style, by the application.
use vstd::prelude::*;
use crate::types::ActivePanel;

verus! {

/// A piece of help text: a message named by its translation key, or text as written.
#[derive(Debug, Clone, Copy, PartialEq, Eq)]
pub enum HelpPiece {
    Msg(&'static str),
    Literal(&'static str),
}

/// What follows the highlighted label of a help line.
#[derive(Debug, Clone, Copy, PartialEq, Eq)]
pub enum HelpTail {
    /// Two spaces and the translation of this message.
    Msg(&'static str),
    /// This text, as written.
    Literal(&'static str),
    /// The API endpoint port, in decimal.
    ApiPort(u16),
    /// Two spaces, the part before `·` of the translated numeric typing hint
    /// (`panel.help.llm.type_numeric`, trimmed), then `  ·  ^F7/8/9 ` and the translated
    /// navigation hint (`panel.help.llm.navigate`).
    NumericTyping,
}

/// One line of help.
#[derive(Debug, Clone, Copy, PartialEq, Eq)]
pub enum HelpLine {
    /// A highlighted line.
    Title(HelpPiece),
    Blank,
    /// A plain line.
    Text(HelpPiece),
    /// A highlighted label (a key or a field's name) and what it does.
    Bind { label: &'static str, tail: HelpTail },
}

pub enum HelpPieceView {
    Msg(Seq<char>),
    Literal(Seq<char>),
}

pub enum HelpTailView {
    Msg(Seq<char>),
    Literal(Seq<char>),
    ApiPort(u16),
    NumericTyping,
}

pub enum HelpLineView {
    Title(HelpPieceView),
    Blank,
    Text(HelpPieceView),
    Bind { label: Seq<char>, tail: HelpTailView },
}

impl View for HelpPiece {
    type V = HelpPieceView;

    open spec fn view(&self) -> HelpPieceView {
        match self {
            HelpPiece::Msg(k) => HelpPieceView::Msg(k@),
            HelpPiece::Literal(t) => HelpPieceView::Literal(t@),
        }
    }
}

impl View for HelpTail {
    type V = HelpTailView;

    open spec fn view(&self) -> HelpTailView {
        match self {
            HelpTail::Msg(k) => HelpTailView::Msg(k@),
            HelpTail::Literal(t) => HelpTailView::Literal(t@),
            HelpTail::ApiPort(p) => HelpTailView::ApiPort(*p),
            HelpTail::NumericTyping => HelpTailView::NumericTyping,
        }
    }
}

impl View for HelpLine {
    type V = HelpLineView;

    open spec fn view(&self) -> HelpLineView {
        match self {
            HelpLine::Title(p) => HelpLineView::Title(p@),
            HelpLine::Blank => HelpLineView::Blank,
            HelpLine::Text(p) => HelpLineView::Text(p@),
            HelpLine::Bind { label, tail } => HelpLineView::Bind { label: label@, tail: tail@ },
        }
    }
}

pub open spec fn lines_view(v: Seq<HelpLine>) -> Seq<HelpLineView> {
    v.map_values(|l: HelpLine| l@)
}

/// The help of the Models panel.
pub open spec fn help_models() -> Seq<HelpLineView> {
    seq![
        HelpLineView::Title(HelpPieceView::Msg("panel.title.models"@)),
        HelpLineView::Blank,
        HelpLineView::Text(HelpPieceView::Msg("panel.help.models.description"@)),
        HelpLineView::Blank,
        HelpLineView::Bind { label: "j / k / Arrow keys"@, tail: HelpTailView::Msg("panel.help.models.navigate"@) },
        HelpLineView::Bind { label: "↵ / l"@, tail: HelpTailView::Msg("panel.help.models.load"@) },
        HelpLineView::Bind { label: "u"@, tail: HelpTailView::Msg("panel.help.models.unload"@) },
        HelpLineView::Bind { label: "^D / Del"@, tail: HelpTailView::Msg("panel.help.models.delete"@) },
        HelpLineView::Blank,
        HelpLineView::Text(HelpPieceView::Msg("panel.help.models.search_mode"@)),
        HelpLineView::Bind { label: "↵"@, tail: HelpTailView::Msg("panel.help.models.search_execute"@) },
        HelpLineView::Bind { label: "⎋"@, tail: HelpTailView::Msg("panel.help.models.search_exit"@) },
        HelpLineView::Bind { label: "l"@, tail: HelpTailView::Msg("panel.help.models.view_files"@) },
        HelpLineView::Bind { label: "S"@, tail: HelpTailView::Msg("panel.help.models.cycle_sort"@) },
        HelpLineView::Bind { label: "B"@, tail: HelpTailView::Msg("panel.help.models.back_page"@) },
        HelpLineView::Bind { label: "Down at bottom"@, tail: HelpTailView::Msg("panel.help.models.load_more"@) },
        HelpLineView::Bind { label: "R"@, tail: HelpTailView::Msg("panel.help.models.readme"@) },
        HelpLineView::Blank,
        HelpLineView::Bind { label: "Shift+← / →"@, tail: HelpTailView::Msg("panel.help.models.resize"@) },
        HelpLineView::Bind { label: "Mouse drag on border"@, tail: HelpTailView::Msg("panel.help.models.resize_mouse"@) },
        HelpLineView::Blank,
        HelpLineView::Bind { label: "Shift+a"@, tail: HelpTailView::Msg("panel.help.models.about"@) },
    ]
}

/// The help of the Log panel.
pub open spec fn help_log() -> Seq<HelpLineView> {
    seq![
        HelpLineView::Title(HelpPieceView::Msg("panel.title.log"@)),
        HelpLineView::Blank,
        HelpLineView::Text(HelpPieceView::Msg("panel.help.log.description"@)),
        HelpLineView::Blank,
        HelpLineView::Bind { label: "j / k / Arrow keys"@, tail: HelpTailView::Msg("panel.help.log.scroll"@) },
        HelpLineView::Bind { label: "f"@, tail: HelpTailView::Msg("panel.help.log.toggle_follow"@) },
        HelpLineView::Bind { label: "g"@, tail: HelpTailView::Msg("panel.help.log.jump_top"@) },
        HelpLineView::Bind { label: "G"@, tail: HelpTailView::Msg("panel.help.log.jump_bottom"@) },
        HelpLineView::Bind { label: "↵"@, tail: HelpTailView::Msg("panel.help.log.expand"@) },
        HelpLineView::Bind { label: "⎋"@, tail: HelpTailView::Msg("panel.help.log.collapse"@) },
        HelpLineView::Blank,
        HelpLineView::Bind { label: "Shift+a"@, tail: HelpTailView::Msg("panel.help.models.about"@) },
    ]
}

/// The help of the ServerSettings panel.
pub open spec fn help_server(api_port: u16) -> Seq<HelpLineView> {
    seq![
        HelpLineView::Title(HelpPieceView::Msg("panel.title.server"@)),
        HelpLineView::Blank,
        HelpLineView::Text(HelpPieceView::Msg("panel.help.server.description"@)),
        HelpLineView::Blank,
        HelpLineView::Bind { label: "j / k"@, tail: HelpTailView::Msg("panel.help.server.select"@) },
        HelpLineView::Bind { label: "↵"@, tail: HelpTailView::Msg("panel.help.server.toggle"@) },
        HelpLineView::Bind { label: "Left / Right"@, tail: HelpTailView::Msg("panel.help.server.adjust"@) },
        HelpLineView::Blank,
        HelpLineView::Bind { label: "Host"@, tail: HelpTailView::Msg("panel.help.server.host_desc"@) },
        HelpLineView::Bind { label: "Backend"@, tail: HelpTailView::Msg("panel.help.server.backend_desc"@) },
        HelpLineView::Bind { label: "Threads"@, tail: HelpTailView::Msg("panel.help.server.threads_desc"@) },
        HelpLineView::Bind { label: "Threads Batch"@, tail: HelpTailView::Msg("panel.help.server.threads_batch_desc"@) },
        HelpLineView::Bind { label: "Mode"@, tail: HelpTailView::Msg("panel.help.server.mode_desc"@) },
        HelpLineView::Bind { label: "API Endpoint"@, tail: HelpTailView::Msg("panel.help.server.api_endpoint_desc"@) },
        HelpLineView::Bind { label: "API Port"@, tail: HelpTailView::ApiPort(api_port) },
        HelpLineView::Blank,
        HelpLineView::Bind { label: "⇥ Panels"@, tail: HelpTailView::Msg("panel.help.server.switch_panels"@) },
        HelpLineView::Bind { label: "Shift+a"@, tail: HelpTailView::Msg("panel.help.models.about"@) },
    ]
}

/// The help of the LlmSettings panel.
pub open spec fn help_llm() -> Seq<HelpLineView> {
    seq![
        HelpLineView::Title(HelpPieceView::Msg("panel.title.llm"@)),
        HelpLineView::Blank,
        HelpLineView::Text(HelpPieceView::Msg("panel.help.llm.description"@)),
        HelpLineView::Blank,
        HelpLineView::Bind { label: "j / k"@, tail: HelpTailView::Msg("panel.help.llm.navigate"@) },
        HelpLineView::Bind { label: "↵"@, tail: HelpTailView::Msg("panel.help.llm.apply"@) },
        HelpLineView::Bind { label: "Left / Right"@, tail: HelpTailView::Msg("panel.help.llm.adjust"@) },
        HelpLineView::Bind { label: "0-9, -, ."@, tail: HelpTailView::NumericTyping },
        HelpLineView::Bind { label: "⎋"@, tail: HelpTailView::Msg("panel.help.llm.cancel_edit"@) },
        HelpLineView::Blank,
        HelpLineView::Bind { label: "^S"@, tail: HelpTailView::Msg("panel.help.llm.save"@) },
        HelpLineView::Bind { label: "^R"@, tail: HelpTailView::Msg("panel.help.llm.reset"@) },
        HelpLineView::Bind { label: "^E"@, tail: HelpTailView::Msg("panel.help.llm.toggle"@) },
        HelpLineView::Bind { label: "^X"@, tail: HelpTailView::Msg("panel.help.llm.expert_mode"@) },
        HelpLineView::Blank,
        HelpLineView::Title(HelpPieceView::Literal("--- Loading ---"@)),
        HelpLineView::Bind { label: "Context"@, tail: HelpTailView::Msg("field.help.context_length"@) },
        HelpLineView::Bind { label: "Prompt"@, tail: HelpTailView::Msg("field.help.system_prompt_preset_name"@) },
        HelpLineView::Bind { label: "Keep in memory"@, tail: HelpTailView::Msg("field.help.mlock"@) },
        HelpLineView::Blank,
        HelpLineView::Title(HelpPieceView::Literal("--- GPU Offload ---"@)),
        HelpLineView::Bind { label: "GPU Layers"@, tail: HelpTailView::Msg("field.help.gpu_layers_mode"@) },
        HelpLineView::Bind { label: "Auto Chat Template"@, tail: HelpTailView::Msg("field.help.auto_chat_template"@) },
        HelpLineView::Bind { label: "Flash Attention"@, tail: HelpTailView::Msg("field.help.flash_attn"@) },
        HelpLineView::Bind { label: "KV Cache Offload"@, tail: HelpTailView::Msg("field.help.kv_cache_offload"@) },
        HelpLineView::Bind { label: "Cache Type K / V"@, tail: HelpTailView::Msg("field.help.cache_type_k"@) },
        HelpLineView::Bind { label: "Active Experts"@, tail: HelpTailView::Msg("field.help.expert_count"@) },
        HelpLineView::Blank,
        HelpLineView::Title(HelpPieceView::Literal("--- Evaluation ---"@)),
        HelpLineView::Bind { label: "Eval Batch"@, tail: HelpTailView::Msg("field.help.batch_size"@) },
        HelpLineView::Bind { label: "Unified KV"@, tail: HelpTailView::Msg("field.help.uniform_cache"@) },
        HelpLineView::Bind { label: "Max Concurrent Pred"@, tail: HelpTailView::Msg("field.help.max_concurrent_predictions"@) },
        HelpLineView::Bind { label: "Cache Reuse"@, tail: HelpTailView::Msg("field.help.cache_reuse"@) },
        HelpLineView::Bind { label: "SWA Full Cache"@, tail: HelpTailView::Msg("field.help.swa_full"@) },
        HelpLineView::Blank,
        HelpLineView::Title(HelpPieceView::Literal("--- Sampling ---"@)),
        HelpLineView::Bind { label: "Seed"@, tail: HelpTailView::Msg("field.help.seed"@) },
        HelpLineView::Bind { label: "Temp"@, tail: HelpTailView::Msg("field.help.temperature"@) },
        HelpLineView::Bind { label: "Top-k"@, tail: HelpTailView::Msg("field.help.top_k"@) },
        HelpLineView::Bind { label: "Top-p"@, tail: HelpTailView::Msg("field.help.top_p"@) },
        HelpLineView::Bind { label: "Min P"@, tail: HelpTailView::Msg("field.help.min_p"@) },
        HelpLineView::Bind { label: "Max Tokens"@, tail: HelpTailView::Msg("field.help.max_tokens"@) },
        HelpLineView::Blank,
        HelpLineView::Title(HelpPieceView::Literal("--- Repetition ---"@)),
        HelpLineView::Bind { label: "Repeat Penalty"@, tail: HelpTailView::Msg("field.help.repeat_penalty"@) },
        HelpLineView::Bind { label: "Repeat Last N"@, tail: HelpTailView::Msg("field.help.repeat_last_n"@) },
        HelpLineView::Bind { label: "Presence Penalty"@, tail: HelpTailView::Msg("field.help.presence_penalty"@) },
        HelpLineView::Bind { label: "Freq Penalty"@, tail: HelpTailView::Msg("field.help.frequency_penalty"@) },
        HelpLineView::Blank,
        HelpLineView::Title(HelpPieceView::Literal("--- Tags ---"@)),
        HelpLineView::Bind { label: "Tags"@, tail: HelpTailView::Msg("field.help.tags"@) },
        HelpLineView::Blank,
        HelpLineView::Title(HelpPieceView::Literal("--- Backend ---"@)),
        HelpLineView::Bind { label: "LLama.cpp Version"@, tail: HelpTailView::Msg("field.help.backend_version"@) },
        HelpLineView::Blank,
        HelpLineView::Title(HelpPieceView::Literal("--- Yarn RoPE ---"@)),
        HelpLineView::Bind { label: "Yarn RoPE"@, tail: HelpTailView::Msg("field.help.rope_yarn_enabled"@) },
        HelpLineView::Bind { label: "Yarn Params"@, tail: HelpTailView::Msg("field.help.yarn_params"@) },
        HelpLineView::Blank,
        HelpLineView::Title(HelpPieceView::Literal("--- Speculative Decoding ---"@)),
        HelpLineView::Bind { label: "Spec Type"@, tail: HelpTailView::Msg("field.help.spec_type"@) },
        HelpLineView::Bind { label: "Spec Draft N Max"@, tail: HelpTailView::Msg("field.help.draft_tokens"@) },
        HelpLineView::Blank,
        HelpLineView::Title(HelpPieceView::Literal("--- Ultra Expert: Loading ---"@)),
        HelpLineView::Bind { label: "Threads Batch"@, tail: HelpTailView::Msg("field.help.threads_batch"@) },
        HelpLineView::Bind { label: "UBatch Size"@, tail: HelpTailView::Msg("field.help.ubatch_size"@) },
        HelpLineView::Bind { label: "Keep"@, tail: HelpTailView::Msg("field.help.keep"@) },
        HelpLineView::Bind { label: "MMap"@, tail: HelpTailView::Msg("field.help.mmap"@) },
        HelpLineView::Bind { label: "NUMA"@, tail: HelpTailView::Msg("field.help.numa"@) },
        HelpLineView::Blank,
        HelpLineView::Title(HelpPieceView::Literal("--- Ultra Expert: GPU ---"@)),
        HelpLineView::Bind { label: "Split Mode"@, tail: HelpTailView::Msg("field.help.split_mode"@) },
        HelpLineView::Bind { label: "Tensor Split"@, tail: HelpTailView::Msg("field.help.tensor_split"@) },
        HelpLineView::Bind { label: "Main GPU"@, tail: HelpTailView::Msg("field.help.main_gpu"@) },
        HelpLineView::Bind { label: "Fit"@, tail: HelpTailView::Msg("field.help.fit"@) },
        HelpLineView::Bind { label: "LoRA"@, tail: HelpTailView::Msg("field.help.lora"@) },
        HelpLineView::Bind { label: "LoRA Scaled"@, tail: HelpTailView::Msg("field.help.lora_scaled"@) },
        HelpLineView::Bind { label: "RPC"@, tail: HelpTailView::Msg("field.help.rpc"@) },
        HelpLineView::Bind { label: "Embedding"@, tail: HelpTailView::Msg("field.help.embedding"@) },
        HelpLineView::Blank,
        HelpLineView::Title(HelpPieceView::Literal("--- Ultra Expert: Sampling ---"@)),
        HelpLineView::Bind { label: "Typical P"@, tail: HelpTailView::Msg("field.help.typical_p"@) },
        HelpLineView::Bind { label: "Mirostat"@, tail: HelpTailView::Msg("field.help.mirostat"@) },
        HelpLineView::Bind { label: "Mirostat LR"@, tail: HelpTailView::Msg("field.help.mirostat_lr"@) },
        HelpLineView::Bind { label: "Mirostat Ent"@, tail: HelpTailView::Msg("field.help.mirostat_ent"@) },
        HelpLineView::Bind { label: "Ignore EOS"@, tail: HelpTailView::Msg("field.help.ignore_eos"@) },
        HelpLineView::Bind { label: "Samplers"@, tail: HelpTailView::Msg("field.help.samplers"@) },
        HelpLineView::Blank,
        HelpLineView::Title(HelpPieceView::Literal("--- Ultra Expert: DRY ---"@)),
        HelpLineView::Bind { label: "DRY Multiplier"@, tail: HelpTailView::Msg("field.help.dry_multiplier"@) },
        HelpLineView::Bind { label: "DRY Base"@, tail: HelpTailView::Msg("field.help.dry_base"@) },
        HelpLineView::Bind { label: "DRY Allowed Length"@, tail: HelpTailView::Msg("field.help.dry_allowed_length"@) },
        HelpLineView::Bind { label: "DRY Penalty Last N"@, tail: HelpTailView::Msg("field.help.dry_penalty_last_n"@) },
        HelpLineView::Blank,
        HelpLineView::Title(HelpPieceView::Literal("--- Ultra Expert: Server ---"@)),
        HelpLineView::Bind { label: "Cache Prompt"@, tail: HelpTailView::Msg("field.help.cache_prompt"@) },
        HelpLineView::Bind { label: "WebUI"@, tail: HelpTailView::Msg("field.help.webui"@) },
        HelpLineView::Blank,
        HelpLineView::Bind { label: "Shift+a"@, tail: HelpTailView::Msg("panel.help.models.about"@) },
    ]
}

/// The help of the ActiveModel panel.
pub open spec fn help_active_model() -> Seq<HelpLineView> {
    seq![
        HelpLineView::Title(HelpPieceView::Msg("panel.title.active"@)),
        HelpLineView::Blank,
        HelpLineView::Text(HelpPieceView::Msg("panel.help.active.description"@)),
        HelpLineView::Blank,
        HelpLineView::Text(HelpPieceView::Msg("panel.help.active.show_metrics"@)),
        HelpLineView::Blank,
        HelpLineView::Bind { label: "⇥ Panels"@, tail: HelpTailView::Msg("panel.help.server.switch_panels"@) },
        HelpLineView::Bind { label: "Shift+a"@, tail: HelpTailView::Msg("panel.help.models.about"@) },
    ]
}

/// The help of the ModelInfo panel.
pub open spec fn help_model_info() -> Seq<HelpLineView> {
    seq![
        HelpLineView::Title(HelpPieceView::Msg("panel.title.model_info"@)),
        HelpLineView::Blank,
        HelpLineView::Text(HelpPieceView::Literal("GGUF metadata for the selected model."@)),
        HelpLineView::Blank,
        HelpLineView::Text(HelpPieceView::Literal("Displays file name, size, architecture, layers, and training context."@)),
        HelpLineView::Blank,
        HelpLineView::Bind { label: "^G"@, tail: HelpTailView::Literal("  GGUF filename explanation (works from any panel)"@) },
        HelpLineView::Blank,
        HelpLineView::Title(HelpPieceView::Literal("--- GGUF Naming Reference ---"@)),
        HelpLineView::Bind { label: "Q4/Q5/Q6/Q8"@, tail: HelpTailView::Literal("  Quantization bit depth (4-8 bits)"@) },
        HelpLineView::Bind { label: "K"@, tail: HelpTailView::Literal("  K-quant: block-wise quantization with double-quantized scales"@) },
        HelpLineView::Bind { label: "S/M/L"@, tail: HelpTailView::Literal("  Size variant: Small < Medium < Large (quality vs file size)"@) },
        HelpLineView::Bind { label: "UD"@, tail: HelpTailView::Literal("  Unsloth Dynamic 2.0: KL-divergence calibrated quantization"@) },
        HelpLineView::Bind { label: "35B"@, tail: HelpTailView::Literal("  Total parameters (e.g., 35 Billion)"@) },
        HelpLineView::Bind { label: "A3B"@, tail: HelpTailView::Literal("  Active parameters in MoE (only 3B computed per token)"@) },
        HelpLineView::Blank,
        HelpLineView::Bind { label: "⇥ Panels"@, tail: HelpTailView::Msg("panel.help.server.switch_panels"@) },
        HelpLineView::Bind { label: "Shift+a"@, tail: HelpTailView::Msg("panel.help.models.about"@) },
    ]
}

/// The help of the Profiles panel.
pub open spec fn help_profiles() -> Seq<HelpLineView> {
    seq![
        HelpLineView::Title(HelpPieceView::Msg("panel.title.profiles"@)),
        HelpLineView::Blank,
        HelpLineView::Text(HelpPieceView::Msg("panel.help.profiles.description"@)),
        HelpLineView::Blank,
        HelpLineView::Bind { label: "j / k"@, tail: HelpTailView::Msg("panel.help.profiles.select"@) },
        HelpLineView::Bind { label: "↵"@, tail: HelpTailView::Msg("panel.help.profiles.apply"@) },
        HelpLineView::Bind { label: "s"@, tail: HelpTailView::Msg("panel.help.profiles.save"@) },
        HelpLineView::Bind { label: "d"@, tail: HelpTailView::Msg("panel.help.profiles.delete"@) },
        HelpLineView::Bind { label: "⎋"@, tail: HelpTailView::Msg("panel.help.profiles.back"@) },
    ]
}

/// The help of the SystemPromptPresets panel.
pub open spec fn help_system_prompt_presets() -> Seq<HelpLineView> {
    seq![
        HelpLineView::Title(HelpPieceView::Literal("SYSTEM PROMPT PRESETS"@)),
        HelpLineView::Blank,
        HelpLineView::Text(HelpPieceView::Msg("panel.help.presets.description"@)),
        HelpLineView::Blank,
        HelpLineView::Bind { label: "j / k"@, tail: HelpTailView::Msg("panel.help.presets.select"@) },
        HelpLineView::Bind { label: "↵"@, tail: HelpTailView::Msg("panel.help.presets.apply"@) },
        HelpLineView::Bind { label: "e"@, tail: HelpTailView::Msg("panel.help.presets.edit"@) },
        HelpLineView::Bind { label: "n"@, tail: HelpTailView::Msg("panel.help.presets.create"@) },
        HelpLineView::Bind { label: "⎋"@, tail: HelpTailView::Msg("panel.help.profiles.back"@) },
    ]
}

/// The help of the SearchReadme panel.
pub open spec fn help_search_readme() -> Seq<HelpLineView> {
    seq![
        HelpLineView::Title(HelpPieceView::Msg("panel.title.readme"@)),
        HelpLineView::Blank,
        HelpLineView::Text(HelpPieceView::Msg("panel.help.readme.description"@)),
        HelpLineView::Blank,
        HelpLineView::Bind { label: "j / k / Arrow keys"@, tail: HelpTailView::Msg("panel.help.readme.scroll"@) },
        HelpLineView::Bind { label: "h / l"@, tail: HelpTailView::Msg("panel.help.readme.scroll_horizontal"@) },
        HelpLineView::Bind { label: "↵"@, tail: HelpTailView::Msg("panel.help.readme.expand"@) },
        HelpLineView::Bind { label: "⎋"@, tail: HelpTailView::Msg("panel.help.readme.collapse"@) },
    ]
}

/// The help of the Downloads panel.
pub open spec fn help_downloads() -> Seq<HelpLineView> {
    seq![
        HelpLineView::Title(HelpPieceView::Msg("panel.title.downloads"@)),
        HelpLineView::Blank,
        HelpLineView::Text(HelpPieceView::Msg("panel.help.downloads.description"@)),
        HelpLineView::Blank,
        HelpLineView::Bind { label: "j / k / Arrow keys"@, tail: HelpTailView::Msg("panel.help.downloads.select"@) },
        HelpLineView::Bind { label: "p"@, tail: HelpTailView::Msg("panel.help.downloads.pause"@) },
        HelpLineView::Bind { label: "Alt+C"@, tail: HelpTailView::Msg("panel.help.downloads.cancel"@) },
        HelpLineView::Blank,
        HelpLineView::Bind { label: "⇥ Panels"@, tail: HelpTailView::Msg("panel.help.server.switch_panels"@) },
    ]
}

/// The help lines of `panel`; `api_port` is the API endpoint port the server settings
/// help shows.
pub open spec fn panel_help(panel: ActivePanel, api_port: u16) -> Seq<HelpLineView> {
    match panel {
        ActivePanel::Models => help_models(),
        ActivePanel::Log => help_log(),
        ActivePanel::ServerSettings => help_server(api_port),
        ActivePanel::LlmSettings => help_llm(),
        ActivePanel::ActiveModel => help_active_model(),
        ActivePanel::ModelInfo => help_model_info(),
        ActivePanel::Profiles => help_profiles(),
        ActivePanel::SystemPromptPresets => help_system_prompt_presets(),
        ActivePanel::SearchReadme => help_search_readme(),
        ActivePanel::Downloads => help_downloads(),
    }
}

/// The help shown for `panel` (see `panel_help`).
pub fn panel_help_lines(panel: ActivePanel, api_port: u16) -> (r: Vec<HelpLine>)
    ensures
        lines_view(r@) == panel_help(panel, api_port),
{
    match panel {
        ActivePanel::Models => {
            let r = vec![
                HelpLine::Title(HelpPiece::Msg("panel.title.models")),
                HelpLine::Blank,
                HelpLine::Text(HelpPiece::Msg("panel.help.models.description")),
                HelpLine::Blank,
                HelpLine::Bind { label: "j / k / Arrow keys", tail: HelpTail::Msg("panel.help.models.navigate") },
                HelpLine::Bind { label: "↵ / l", tail: HelpTail::Msg("panel.help.models.load") },
                HelpLine::Bind { label: "u", tail: HelpTail::Msg("panel.help.models.unload") },
                HelpLine::Bind { label: "^D / Del", tail: HelpTail::Msg("panel.help.models.delete") },
                HelpLine::Blank,
                HelpLine::Text(HelpPiece::Msg("panel.help.models.search_mode")),
                HelpLine::Bind { label: "↵", tail: HelpTail::Msg("panel.help.models.search_execute") },
                HelpLine::Bind { label: "⎋", tail: HelpTail::Msg("panel.help.models.search_exit") },
                HelpLine::Bind { label: "l", tail: HelpTail::Msg("panel.help.models.view_files") },
                HelpLine::Bind { label: "S", tail: HelpTail::Msg("panel.help.models.cycle_sort") },
                HelpLine::Bind { label: "B", tail: HelpTail::Msg("panel.help.models.back_page") },
                HelpLine::Bind { label: "Down at bottom", tail: HelpTail::Msg("panel.help.models.load_more") },
                HelpLine::Bind { label: "R", tail: HelpTail::Msg("panel.help.models.readme") },
                HelpLine::Blank,
                HelpLine::Bind { label: "Shift+← / →", tail: HelpTail::Msg("panel.help.models.resize") },
                HelpLine::Bind { label: "Mouse drag on border", tail: HelpTail::Msg("panel.help.models.resize_mouse") },
                HelpLine::Blank,
                HelpLine::Bind { label: "Shift+a", tail: HelpTail::Msg("panel.help.models.about") },
            ];
            assert(lines_view(r@) =~= help_models());
            r
        },
        ActivePanel::Log => {
            let r = vec![
                HelpLine::Title(HelpPiece::Msg("panel.title.log")),
                HelpLine::Blank,
                HelpLine::Text(HelpPiece::Msg("panel.help.log.description")),
                HelpLine::Blank,
                HelpLine::Bind { label: "j / k / Arrow keys", tail: HelpTail::Msg("panel.help.log.scroll") },
                HelpLine::Bind { label: "f", tail: HelpTail::Msg("panel.help.log.toggle_follow") },
                HelpLine::Bind { label: "g", tail: HelpTail::Msg("panel.help.log.jump_top") },
                HelpLine::Bind { label: "G", tail: HelpTail::Msg("panel.help.log.jump_bottom") },
                HelpLine::Bind { label: "↵", tail: HelpTail::Msg("panel.help.log.expand") },
                HelpLine::Bind { label: "⎋", tail: HelpTail::Msg("panel.help.log.collapse") },
                HelpLine::Blank,
                HelpLine::Bind { label: "Shift+a", tail: HelpTail::Msg("panel.help.models.about") },
            ];
            assert(lines_view(r@) =~= help_log());
            r
        },
        ActivePanel::ServerSettings => {
            let r = vec![
                HelpLine::Title(HelpPiece::Msg("panel.title.server")),
                HelpLine::Blank,
                HelpLine::Text(HelpPiece::Msg("panel.help.server.description")),
                HelpLine::Blank,
                HelpLine::Bind { label: "j / k", tail: HelpTail::Msg("panel.help.server.select") },
                HelpLine::Bind { label: "↵", tail: HelpTail::Msg("panel.help.server.toggle") },
                HelpLine::Bind { label: "Left / Right", tail: HelpTail::Msg("panel.help.server.adjust") },
                HelpLine::Blank,
                HelpLine::Bind { label: "Host", tail: HelpTail::Msg("panel.help.server.host_desc") },
                HelpLine::Bind { label: "Backend", tail: HelpTail::Msg("panel.help.server.backend_desc") },
                HelpLine::Bind { label: "Threads", tail: HelpTail::Msg("panel.help.server.threads_desc") },
                HelpLine::Bind { label: "Threads Batch", tail: HelpTail::Msg("panel.help.server.threads_batch_desc") },
                HelpLine::Bind { label: "Mode", tail: HelpTail::Msg("panel.help.server.mode_desc") },
                HelpLine::Bind { label: "API Endpoint", tail: HelpTail::Msg("panel.help.server.api_endpoint_desc") },
                HelpLine::Bind { label: "API Port", tail: HelpTail::ApiPort(api_port) },
                HelpLine::Blank,
                HelpLine::Bind { label: "⇥ Panels", tail: HelpTail::Msg("panel.help.server.switch_panels") },
                HelpLine::Bind { label: "Shift+a", tail: HelpTail::Msg("panel.help.models.about") },
            ];
            assert(lines_view(r@) =~= help_server(api_port));
            r
        },
        ActivePanel::LlmSettings => {
            let r = vec![
                HelpLine::Title(HelpPiece::Msg("panel.title.llm")),
                HelpLine::Blank,
                HelpLine::Text(HelpPiece::Msg("panel.help.llm.description")),
                HelpLine::Blank,
                HelpLine::Bind { label: "j / k", tail: HelpTail::Msg("panel.help.llm.navigate") },
                HelpLine::Bind { label: "↵", tail: HelpTail::Msg("panel.help.llm.apply") },
                HelpLine::Bind { label: "Left / Right", tail: HelpTail::Msg("panel.help.llm.adjust") },
                HelpLine::Bind { label: "0-9, -, .", tail: HelpTail::NumericTyping },
                HelpLine::Bind { label: "⎋", tail: HelpTail::Msg("panel.help.llm.cancel_edit") },
                HelpLine::Blank,
                HelpLine::Bind { label: "^S", tail: HelpTail::Msg("panel.help.llm.save") },
                HelpLine::Bind { label: "^R", tail: HelpTail::Msg("panel.help.llm.reset") },
                HelpLine::Bind { label: "^E", tail: HelpTail::Msg("panel.help.llm.toggle") },
                HelpLine::Bind { label: "^X", tail: HelpTail::Msg("panel.help.llm.expert_mode") },
                HelpLine::Blank,
                HelpLine::Title(HelpPiece::Literal("--- Loading ---")),
                HelpLine::Bind { label: "Context", tail: HelpTail::Msg("field.help.context_length") },
                HelpLine::Bind { label: "Prompt", tail: HelpTail::Msg("field.help.system_prompt_preset_name") },
                HelpLine::Bind { label: "Keep in memory", tail: HelpTail::Msg("field.help.mlock") },
                HelpLine::Blank,
                HelpLine::Title(HelpPiece::Literal("--- GPU Offload ---")),
                HelpLine::Bind { label: "GPU Layers", tail: HelpTail::Msg("field.help.gpu_layers_mode") },
                HelpLine::Bind { label: "Auto Chat Template", tail: HelpTail::Msg("field.help.auto_chat_template") },
                HelpLine::Bind { label: "Flash Attention", tail: HelpTail::Msg("field.help.flash_attn") },
                HelpLine::Bind { label: "KV Cache Offload", tail: HelpTail::Msg("field.help.kv_cache_offload") },
                HelpLine::Bind { label: "Cache Type K / V", tail: HelpTail::Msg("field.help.cache_type_k") },
                HelpLine::Bind { label: "Active Experts", tail: HelpTail::Msg("field.help.expert_count") },
                HelpLine::Blank,
                HelpLine::Title(HelpPiece::Literal("--- Evaluation ---")),
                HelpLine::Bind { label: "Eval Batch", tail: HelpTail::Msg("field.help.batch_size") },
                HelpLine::Bind { label: "Unified KV", tail: HelpTail::Msg("field.help.uniform_cache") },
                HelpLine::Bind { label: "Max Concurrent Pred", tail: HelpTail::Msg("field.help.max_concurrent_predictions") },
                HelpLine::Bind { label: "Cache Reuse", tail: HelpTail::Msg("field.help.cache_reuse") },
                HelpLine::Bind { label: "SWA Full Cache", tail: HelpTail::Msg("field.help.swa_full") },
                HelpLine::Blank,
                HelpLine::Title(HelpPiece::Literal("--- Sampling ---")),
                HelpLine::Bind { label: "Seed", tail: HelpTail::Msg("field.help.seed") },
                HelpLine::Bind { label: "Temp", tail: HelpTail::Msg("field.help.temperature") },
                HelpLine::Bind { label: "Top-k", tail: HelpTail::Msg("field.help.top_k") },
                HelpLine::Bind { label: "Top-p", tail: HelpTail::Msg("field.help.top_p") },
                HelpLine::Bind { label: "Min P", tail: HelpTail::Msg("field.help.min_p") },
                HelpLine::Bind { label: "Max Tokens", tail: HelpTail::Msg("field.help.max_tokens") },
                HelpLine::Blank,
                HelpLine::Title(HelpPiece::Literal("--- Repetition ---")),
                HelpLine::Bind { label: "Repeat Penalty", tail: HelpTail::Msg("field.help.repeat_penalty") },
                HelpLine::Bind { label: "Repeat Last N", tail: HelpTail::Msg("field.help.repeat_last_n") },
                HelpLine::Bind { label: "Presence Penalty", tail: HelpTail::Msg("field.help.presence_penalty") },
                HelpLine::Bind { label: "Freq Penalty", tail: HelpTail::Msg("field.help.frequency_penalty") },
                HelpLine::Blank,
                HelpLine::Title(HelpPiece::Literal("--- Tags ---")),
                HelpLine::Bind { label: "Tags", tail: HelpTail::Msg("field.help.tags") },
                HelpLine::Blank,
                HelpLine::Title(HelpPiece::Literal("--- Backend ---")),
                HelpLine::Bind { label: "LLama.cpp Version", tail: HelpTail::Msg("field.help.backend_version") },
                HelpLine::Blank,
                HelpLine::Title(HelpPiece::Literal("--- Yarn RoPE ---")),
                HelpLine::Bind { label: "Yarn RoPE", tail: HelpTail::Msg("field.help.rope_yarn_enabled") },
                HelpLine::Bind { label: "Yarn Params", tail: HelpTail::Msg("field.help.yarn_params") },
                HelpLine::Blank,
                HelpLine::Title(HelpPiece::Literal("--- Speculative Decoding ---")),
                HelpLine::Bind { label: "Spec Type", tail: HelpTail::Msg("field.help.spec_type") },
                HelpLine::Bind { label: "Spec Draft N Max", tail: HelpTail::Msg("field.help.draft_tokens") },
                HelpLine::Blank,
                HelpLine::Title(HelpPiece::Literal("--- Ultra Expert: Loading ---")),
                HelpLine::Bind { label: "Threads Batch", tail: HelpTail::Msg("field.help.threads_batch") },
                HelpLine::Bind { label: "UBatch Size", tail: HelpTail::Msg("field.help.ubatch_size") },
                HelpLine::Bind { label: "Keep", tail: HelpTail::Msg("field.help.keep") },
                HelpLine::Bind { label: "MMap", tail: HelpTail::Msg("field.help.mmap") },
                HelpLine::Bind { label: "NUMA", tail: HelpTail::Msg("field.help.numa") },
                HelpLine::Blank,
                HelpLine::Title(HelpPiece::Literal("--- Ultra Expert: GPU ---")),
                HelpLine::Bind { label: "Split Mode", tail: HelpTail::Msg("field.help.split_mode") },
                HelpLine::Bind { label: "Tensor Split", tail: HelpTail::Msg("field.help.tensor_split") },
                HelpLine::Bind { label: "Main GPU", tail: HelpTail::Msg("field.help.main_gpu") },
                HelpLine::Bind { label: "Fit", tail: HelpTail::Msg("field.help.fit") },
                HelpLine::Bind { label: "LoRA", tail: HelpTail::Msg("field.help.lora") },
                HelpLine::Bind { label: "LoRA Scaled", tail: HelpTail::Msg("field.help.lora_scaled") },
                HelpLine::Bind { label: "RPC", tail: HelpTail::Msg("field.help.rpc") },
                HelpLine::Bind { label: "Embedding", tail: HelpTail::Msg("field.help.embedding") },
                HelpLine::Blank,
                HelpLine::Title(HelpPiece::Literal("--- Ultra Expert: Sampling ---")),
                HelpLine::Bind { label: "Typical P", tail: HelpTail::Msg("field.help.typical_p") },
                HelpLine::Bind { label: "Mirostat", tail: HelpTail::Msg("field.help.mirostat") },
                HelpLine::Bind { label: "Mirostat LR", tail: HelpTail::Msg("field.help.mirostat_lr") },
                HelpLine::Bind { label: "Mirostat Ent", tail: HelpTail::Msg("field.help.mirostat_ent") },
                HelpLine::Bind { label: "Ignore EOS", tail: HelpTail::Msg("field.help.ignore_eos") },
                HelpLine::Bind { label: "Samplers", tail: HelpTail::Msg("field.help.samplers") },
                HelpLine::Blank,
                HelpLine::Title(HelpPiece::Literal("--- Ultra Expert: DRY ---")),
                HelpLine::Bind { label: "DRY Multiplier", tail: HelpTail::Msg("field.help.dry_multiplier") },
                HelpLine::Bind { label: "DRY Base", tail: HelpTail::Msg("field.help.dry_base") },
                HelpLine::Bind { label: "DRY Allowed Length", tail: HelpTail::Msg("field.help.dry_allowed_length") },
                HelpLine::Bind { label: "DRY Penalty Last N", tail: HelpTail::Msg("field.help.dry_penalty_last_n") },
                HelpLine::Blank,
                HelpLine::Title(HelpPiece::Literal("--- Ultra Expert: Server ---")),
                HelpLine::Bind { label: "Cache Prompt", tail: HelpTail::Msg("field.help.cache_prompt") },
                HelpLine::Bind { label: "WebUI", tail: HelpTail::Msg("field.help.webui") },
                HelpLine::Blank,
                HelpLine::Bind { label: "Shift+a", tail: HelpTail::Msg("panel.help.models.about") },
            ];
            assert(lines_view(r@) =~= help_llm());
            r
        },
        ActivePanel::ActiveModel => {
            let r = vec![
                HelpLine::Title(HelpPiece::Msg("panel.title.active")),
                HelpLine::Blank,
                HelpLine::Text(HelpPiece::Msg("panel.help.active.description")),
                HelpLine::Blank,
                HelpLine::Text(HelpPiece::Msg("panel.help.active.show_metrics")),
                HelpLine::Blank,
                HelpLine::Bind { label: "⇥ Panels", tail: HelpTail::Msg("panel.help.server.switch_panels") },
                HelpLine::Bind { label: "Shift+a", tail: HelpTail::Msg("panel.help.models.about") },
            ];
            assert(lines_view(r@) =~= help_active_model());
            r
        },
        ActivePanel::ModelInfo => {
            let r = vec![
                HelpLine::Title(HelpPiece::Msg("panel.title.model_info")),
                HelpLine::Blank,
                HelpLine::Text(HelpPiece::Literal("GGUF metadata for the selected model.")),
                HelpLine::Blank,
                HelpLine::Text(HelpPiece::Literal("Displays file name, size, architecture, layers, and training context.")),
                HelpLine::Blank,
                HelpLine::Bind { label: "^G", tail: HelpTail::Literal("  GGUF filename explanation (works from any panel)") },
                HelpLine::Blank,
                HelpLine::Title(HelpPiece::Literal("--- GGUF Naming Reference ---")),
                HelpLine::Bind { label: "Q4/Q5/Q6/Q8", tail: HelpTail::Literal("  Quantization bit depth (4-8 bits)") },
                HelpLine::Bind { label: "K", tail: HelpTail::Literal("  K-quant: block-wise quantization with double-quantized scales") },
                HelpLine::Bind { label: "S/M/L", tail: HelpTail::Literal("  Size variant: Small < Medium < Large (quality vs file size)") },
                HelpLine::Bind { label: "UD", tail: HelpTail::Literal("  Unsloth Dynamic 2.0: KL-divergence calibrated quantization") },
                HelpLine::Bind { label: "35B", tail: HelpTail::Literal("  Total parameters (e.g., 35 Billion)") },
                HelpLine::Bind { label: "A3B", tail: HelpTail::Literal("  Active parameters in MoE (only 3B computed per token)") },
                HelpLine::Blank,
                HelpLine::Bind { label: "⇥ Panels", tail: HelpTail::Msg("panel.help.server.switch_panels") },
                HelpLine::Bind { label: "Shift+a", tail: HelpTail::Msg("panel.help.models.about") },
            ];
            assert(lines_view(r@) =~= help_model_info());
            r
        },
        ActivePanel::Profiles => {
            let r = vec![
                HelpLine::Title(HelpPiece::Msg("panel.title.profiles")),
                HelpLine::Blank,
                HelpLine::Text(HelpPiece::Msg("panel.help.profiles.description")),
                HelpLine::Blank,
                HelpLine::Bind { label: "j / k", tail: HelpTail::Msg("panel.help.profiles.select") },
                HelpLine::Bind { label: "↵", tail: HelpTail::Msg("panel.help.profiles.apply") },
                HelpLine::Bind { label: "s", tail: HelpTail::Msg("panel.help.profiles.save") },
                HelpLine::Bind { label: "d", tail: HelpTail::Msg("panel.help.profiles.delete") },
                HelpLine::Bind { label: "⎋", tail: HelpTail::Msg("panel.help.profiles.back") },
            ];
            assert(lines_view(r@) =~= help_profiles());
            r
        },
        ActivePanel::SystemPromptPresets => {
            let r = vec![
                HelpLine::Title(HelpPiece::Literal("SYSTEM PROMPT PRESETS")),
                HelpLine::Blank,
                HelpLine::Text(HelpPiece::Msg("panel.help.presets.description")),
                HelpLine::Blank,
                HelpLine::Bind { label: "j / k", tail: HelpTail::Msg("panel.help.presets.select") },
                HelpLine::Bind { label: "↵", tail: HelpTail::Msg("panel.help.presets.apply") },
                HelpLine::Bind { label: "e", tail: HelpTail::Msg("panel.help.presets.edit") },
                HelpLine::Bind { label: "n", tail: HelpTail::Msg("panel.help.presets.create") },
                HelpLine::Bind { label: "⎋", tail: HelpTail::Msg("panel.help.profiles.back") },
            ];
            assert(lines_view(r@) =~= help_system_prompt_presets());
            r
        },
        ActivePanel::SearchReadme => {
            let r = vec![
                HelpLine::Title(HelpPiece::Msg("panel.title.readme")),
                HelpLine::Blank,
                HelpLine::Text(HelpPiece::Msg("panel.help.readme.description")),
                HelpLine::Blank,
                HelpLine::Bind { label: "j / k / Arrow keys", tail: HelpTail::Msg("panel.help.readme.scroll") },
                HelpLine::Bind { label: "h / l", tail: HelpTail::Msg("panel.help.readme.scroll_horizontal") },
                HelpLine::Bind { label: "↵", tail: HelpTail::Msg("panel.help.readme.expand") },
                HelpLine::Bind { label: "⎋", tail: HelpTail::Msg("panel.help.readme.collapse") },
            ];
            assert(lines_view(r@) =~= help_search_readme());
            r
        },
        ActivePanel::Downloads => {
            let r = vec![
                HelpLine::Title(HelpPiece::Msg("panel.title.downloads")),
                HelpLine::Blank,
                HelpLine::Text(HelpPiece::Msg("panel.help.downloads.description")),
                HelpLine::Blank,
                HelpLine::Bind { label: "j / k / Arrow keys", tail: HelpTail::Msg("panel.help.downloads.select") },
                HelpLine::Bind { label: "p", tail: HelpTail::Msg("panel.help.downloads.pause") },
                HelpLine::Bind { label: "Alt+C", tail: HelpTail::Msg("panel.help.downloads.cancel") },
                HelpLine::Blank,
                HelpLine::Bind { label: "⇥ Panels", tail: HelpTail::Msg("panel.help.server.switch_panels") },
            ];
            assert(lines_view(r@) =~= help_downloads());
            r
        },
    }
}

} // verus!
