//! Editing the model settings by field number: a typed value (`apply_numeric_setting`) or a
//! step left or right (`adjust_setting`).
//!
//! Field numbers: 1 context, 3 GPU layers, 4 flash attention, 5 KV cache offload, 6 and 7
//! the K and V cache types, 8 active experts, 9 eval batch, 10 unified KV cache, 11 max
//! concurrent predictions, 12 seed, 13 temperature, 14 top-k, 15 top-p, 16 min-p, 17 max
//! tokens, 18 repeat penalty, 19 repeat last N, 20 presence and 21 frequency penalty.
//! The whole-number and on/off fields change here; the fractional ones (13, 15, 16, 18,
//! 20, 21) and the cache types (whose list the application owns) are handed back.
use vstd::prelude::*;
use crate::settings_panel::GpuLayersMode;
use crate::text::{parse_i32, parse_i32_spec, parse_u32, parse_unsigned};

verus! {

/// The model settings that these functions change in place.
#[derive(Debug, Clone, Copy, PartialEq, Eq, Structural)]
pub struct NumericSettings {
    pub context_length: u32,
    pub gpu_layers_mode: GpuLayersMode,
    pub flash_attn: bool,
    pub kv_cache_offload: bool,
    pub expert_count: i32,
    pub batch_size: u32,
    pub uniform_cache: bool,
    pub max_concurrent_predictions: Option<u32>,
    pub seed: i32,
    pub top_k: i32,
    pub max_tokens: Option<u32>,
    pub repeat_last_n: i32,
}

/// A fractional setting, kept by the application.
#[derive(Debug, Clone, Copy, PartialEq, Eq, Structural)]
pub enum FractionSetting {
    Temperature,
    TopP,
    MinP,
    RepeatPenalty,
    PresencePenalty,
    FrequencyPenalty,
}

/// Which cache type field.
#[derive(Debug, Clone, Copy, PartialEq, Eq, Structural)]
pub enum CacheSide {
    K,
    V,
}

/// What remains for the application after an edit.
#[derive(Debug, Clone, Copy, PartialEq, Eq, Structural)]
pub enum SettingChange {
    /// Nothing: the change, if any, was made in place.
    Done,
    /// The typed whole number `percent` gives the fractional setting `percent / 100`,
    /// clamped to the setting's range.
    Percent { field: FractionSetting, percent: i32 },
    /// The fractional setting moves by `delta` times 0.05, clamped to its range.
    Nudge { field: FractionSetting, delta: i32 },
    /// The cache type moves to the next (`forward`) or previous type; an unset one
    /// starts from F16.
    CacheType { side: CacheSide, forward: bool },
}

/// The fractional setting at field `idx`, if it is one.
pub open spec fn fraction_at(idx: usize) -> Option<FractionSetting> {
    if idx == 13 {
        Some(FractionSetting::Temperature)
    } else if idx == 15 {
        Some(FractionSetting::TopP)
    } else if idx == 16 {
        Some(FractionSetting::MinP)
    } else if idx == 18 {
        Some(FractionSetting::RepeatPenalty)
    } else if idx == 20 {
        Some(FractionSetting::PresencePenalty)
    } else if idx == 21 {
        Some(FractionSetting::FrequencyPenalty)
    } else {
        None
    }
}

fn fraction_at_exec(idx: usize) -> (r: Option<FractionSetting>)
    ensures
        r == fraction_at(idx),
{
    if idx == 13 {
        Some(FractionSetting::Temperature)
    } else if idx == 15 {
        Some(FractionSetting::TopP)
    } else if idx == 16 {
        Some(FractionSetting::MinP)
    } else if idx == 18 {
        Some(FractionSetting::RepeatPenalty)
    } else if idx == 20 {
        Some(FractionSetting::PresencePenalty)
    } else if idx == 21 {
        Some(FractionSetting::FrequencyPenalty)
    } else {
        None
    }
}

pub open spec fn max_of(a: int, b: int) -> int {
    if a >= b { a } else { b }
}

/// `v` kept within `lo..=hi`, as `clamp` does.
pub open spec fn clamp_to(v: int, lo: int, hi: int) -> int {
    if v < lo { lo } else if v > hi { hi } else { v }
}

/// A context length capped at the model's trained context, when that is known (not 0).
pub open spec fn cap_context(v: int, max_context: u32) -> int {
    if max_context > 0 && v > max_context { max_context as int } else { v }
}

/// The settings after typing `buf` into field `idx` (a text that does not parse leaves
/// them as they were).
pub open spec fn typed_settings(s: NumericSettings, idx: usize, buf: Seq<char>, max_context: u32) -> NumericSettings {
    let u = parse_unsigned(buf, u32::MAX as nat);
    let i = parse_i32_spec(buf);
    if idx == 1 && u is Some {
        NumericSettings { context_length: cap_context(max_of(u->0 as int, 128), max_context) as u32, ..s }
    } else if idx == 3 && i is Some {
        NumericSettings {
            gpu_layers_mode: if i->0 < 0 { GpuLayersMode::All } else { GpuLayersMode::Specific(i->0 as u32) },
            ..s
        }
    } else if idx == 8 && i is Some {
        NumericSettings { expert_count: clamp_to(i->0, -1, 99) as i32, ..s }
    } else if idx == 9 && u is Some {
        NumericSettings { batch_size: max_of(u->0 as int, 1) as u32, ..s }
    } else if idx == 10 && u is Some {
        NumericSettings { uniform_cache: u->0 != 0, ..s }
    } else if idx == 11 && u is Some {
        NumericSettings { max_concurrent_predictions: Some(clamp_to(u->0 as int, 1, 10) as u32), ..s }
    } else if idx == 12 && i is Some {
        NumericSettings { seed: i->0 as i32, ..s }
    } else if idx == 14 && i is Some {
        NumericSettings { top_k: max_of(i->0, 0) as i32, ..s }
    } else if idx == 17 && i is Some {
        NumericSettings { max_tokens: if i->0 == 0 { None } else { Some(i->0 as u32) }, ..s }
    } else if idx == 19 && i is Some {
        NumericSettings { repeat_last_n: max_of(i->0, 0) as i32, ..s }
    } else {
        s
    }
}

/// What typing `buf` into field `idx` leaves to the application.
pub open spec fn typed_change(idx: usize, buf: Seq<char>) -> SettingChange {
    match (fraction_at(idx), parse_i32_spec(buf)) {
        (Some(field), Some(v)) => SettingChange::Percent { field, percent: v as i32 },
        _ => SettingChange::Done,
    }
}

/// Applies the number typed into field `idx` (see `typed_settings` and `typed_change`):
/// the context length is at least 128 and at most the model's trained context
/// `max_context` (when known); a negative GPU layer count means all layers; active experts
/// stay within -1..=99, the batch at least 1, concurrent predictions within 1..=10, top-k
/// and repeat-last-N at least 0; 0 max tokens means no limit.
pub fn apply_numeric_setting(
    settings: &mut NumericSettings,
    idx: usize,
    buf: &str,
    _max_threads: u32,
    max_context: u32,
) -> (r: SettingChange)
    ensures
        *final(settings) == typed_settings(*old(settings), idx, buf@, max_context),
        r == typed_change(idx, buf@),
{
    let u = parse_u32(buf);
    let i = parse_i32(buf);
    if idx == 1 {
        if let Some(v) = u {
            let mut val = if v < 128 { 128 } else { v };
            if max_context > 0 && val > max_context {
                val = max_context;
            }
            settings.context_length = val;
        }
    } else if idx == 3 {
        if let Some(v) = i {
            settings.gpu_layers_mode = if v < 0 { GpuLayersMode::All } else { GpuLayersMode::Specific(v as u32) };
        }
    } else if idx == 8 {
        if let Some(v) = i {
            settings.expert_count = if v < -1 { -1 } else if v > 99 { 99 } else { v };
        }
    } else if idx == 9 {
        if let Some(v) = u {
            settings.batch_size = if v < 1 { 1 } else { v };
        }
    } else if idx == 10 {
        if let Some(v) = u {
            settings.uniform_cache = v != 0;
        }
    } else if idx == 11 {
        if let Some(v) = u {
            settings.max_concurrent_predictions = Some(if v < 1 { 1 } else if v > 10 { 10 } else { v });
        }
    } else if idx == 12 {
        if let Some(v) = i {
            settings.seed = v;
        }
    } else if idx == 14 {
        if let Some(v) = i {
            settings.top_k = if v < 0 { 0 } else { v };
        }
    } else if idx == 17 {
        if let Some(v) = i {
            settings.max_tokens = if v == 0 { None } else { Some(v as u32) };
        }
    } else if idx == 19 {
        if let Some(v) = i {
            settings.repeat_last_n = if v < 0 { 0 } else { v };
        }
    }
    match (fraction_at_exec(idx), i) {
        (Some(field), Some(v)) => SettingChange::Percent { field, percent: v },
        _ => SettingChange::Done,
    }
}

pub open spec fn fits_i32(v: int) -> bool {
    i32::MIN <= v <= i32::MAX
}

/// The arithmetic of a step stays within `i32`, where the step counts (out of range it
/// would overflow).
pub open spec fn step_fits(s: NumericSettings, idx: usize, delta: i32) -> bool {
    if idx == 1 {
        fits_i32(delta * 128) && fits_i32((s.context_length as i32) + delta * 128)
    } else if idx == 3 {
        !(delta == 1 && s.gpu_layers_mode == GpuLayersMode::Specific(u32::MAX))
    } else if idx == 8 {
        fits_i32(s.expert_count + delta)
    } else if idx == 9 {
        fits_i32(delta * 64) && fits_i32((s.batch_size as i32) + delta * 64)
    } else if idx == 11 {
        s.max_concurrent_predictions matches Some(n) ==> fits_i32((n as i32) + delta)
    } else if idx == 12 {
        fits_i32(s.seed + delta)
    } else if idx == 14 {
        fits_i32(s.top_k + delta)
    } else if idx == 17 {
        let current = match s.max_tokens { Some(n) => n, None => 2048u32 };
        fits_i32(delta * 16) && fits_i32((current as i32) + delta * 16)
    } else if idx == 19 {
        fits_i32(s.repeat_last_n + delta)
    } else {
        true
    }
}

/// The GPU layers after a step: right (+1) goes Auto, 1, 2, ... and All back to Auto;
/// left (-1) goes from a count down to 0 and then Auto, from Auto to All, and from All to
/// the model's layer count (at most 256; 256 when unknown). Other steps change nothing.
pub open spec fn gpu_step(mode: GpuLayersMode, delta: i32, total_layers: u32) -> GpuLayersMode {
    if delta == 1 {
        match mode {
            GpuLayersMode::Auto => GpuLayersMode::Specific(1),
            GpuLayersMode::Specific(n) => GpuLayersMode::Specific((n + 1) as u32),
            GpuLayersMode::All => GpuLayersMode::Auto,
        }
    } else if delta == -1 {
        match mode {
            GpuLayersMode::Auto => GpuLayersMode::All,
            GpuLayersMode::Specific(n) => if n == 0 { GpuLayersMode::Auto } else { GpuLayersMode::Specific((n - 1) as u32) },
            GpuLayersMode::All => GpuLayersMode::Specific(
                if total_layers > 0 { if total_layers < 256 { total_layers } else { 256 } } else { 256 },
            ),
        }
    } else {
        mode
    }
}

/// The settings after a step of `delta` on field `idx`.
pub open spec fn stepped_settings(s: NumericSettings, idx: usize, delta: i32, max_context: u32, total_layers: u32) -> NumericSettings {
    if idx == 1 {
        NumericSettings {
            context_length: cap_context(max_of((s.context_length as i32) + delta * 128, 128), max_context) as u32,
            ..s
        }
    } else if idx == 3 {
        NumericSettings { gpu_layers_mode: gpu_step(s.gpu_layers_mode, delta, total_layers), ..s }
    } else if idx == 4 {
        NumericSettings { flash_attn: !s.flash_attn, ..s }
    } else if idx == 5 {
        NumericSettings { kv_cache_offload: !s.kv_cache_offload, ..s }
    } else if idx == 8 {
        NumericSettings { expert_count: clamp_to(s.expert_count + delta, -1, 99) as i32, ..s }
    } else if idx == 9 {
        NumericSettings { batch_size: max_of((s.batch_size as i32) + delta * 64, 1) as u32, ..s }
    } else if idx == 10 {
        NumericSettings { uniform_cache: !s.uniform_cache, ..s }
    } else if idx == 11 {
        NumericSettings {
            max_concurrent_predictions: Some(
                match s.max_concurrent_predictions {
                    Some(n) => clamp_to((n as i32) + delta, 1, 10) as u32,
                    None => 1u32,
                },
            ),
            ..s
        }
    } else if idx == 12 {
        NumericSettings { seed: max_of(s.seed + delta, -1) as i32, ..s }
    } else if idx == 14 {
        NumericSettings { top_k: max_of(s.top_k + delta, 1) as i32, ..s }
    } else if idx == 17 {
        let current = match s.max_tokens { Some(n) => n, None => 2048u32 };
        NumericSettings { max_tokens: Some(max_of((current as i32) + delta * 16, 16) as u32), ..s }
    } else if idx == 19 {
        NumericSettings { repeat_last_n: (s.repeat_last_n + delta) as i32, ..s }
    } else {
        s
    }
}

/// What a step of `delta` on field `idx` leaves to the application.
pub open spec fn step_change(idx: usize, delta: i32) -> SettingChange {
    if idx == 6 {
        SettingChange::CacheType { side: CacheSide::K, forward: delta > 0 }
    } else if idx == 7 {
        SettingChange::CacheType { side: CacheSide::V, forward: delta > 0 }
    } else {
        match fraction_at(idx) {
            Some(field) => SettingChange::Nudge { field, delta },
            None => SettingChange::Done,
        }
    }
}

fn gpu_step_exec(mode: GpuLayersMode, delta: i32, total_layers: u32) -> (r: GpuLayersMode)
    requires
        !(delta == 1 && mode == GpuLayersMode::Specific(u32::MAX)),
    ensures
        r == gpu_step(mode, delta, total_layers),
{
    if delta == 1 {
        match mode {
            GpuLayersMode::Auto => GpuLayersMode::Specific(1),
            GpuLayersMode::Specific(n) => GpuLayersMode::Specific(n + 1),
            GpuLayersMode::All => GpuLayersMode::Auto,
        }
    } else if delta == -1 {
        match mode {
            GpuLayersMode::Auto => GpuLayersMode::All,
            GpuLayersMode::Specific(n) => if n == 0 { GpuLayersMode::Auto } else { GpuLayersMode::Specific(n - 1) },
            GpuLayersMode::All => {
                let n = if total_layers > 0 { if total_layers < 256 { total_layers } else { 256 } } else { 256 };
                GpuLayersMode::Specific(n)
            },
        }
    } else {
        mode
    }
}

/// Moves field `idx` one step of `delta` (see `stepped_settings` and `step_change`): the
/// context by 128 (at least 128, at most the trained context `max_context` when known),
/// the batch by 64 (at least 1), max tokens by 16 from 2048 when unset (at least 16),
/// the other numbers by one within their ranges; the on/off fields switch.
pub fn adjust_setting(
    settings: &mut NumericSettings,
    idx: usize,
    delta: i32,
    _max_threads: u32,
    max_context: u32,
    total_layers: u32,
) -> (r: SettingChange)
    requires
        step_fits(*old(settings), idx, delta),
    ensures
        *final(settings) == stepped_settings(*old(settings), idx, delta, max_context, total_layers),
        r == step_change(idx, delta),
{
    if idx == 1 {
        let c: i32 = settings.context_length as i32;
        let raw: i32 = c + delta * 128;
        let mut val: u32 = if raw < 128 { 128 } else { raw as u32 };
        if max_context > 0 && val > max_context {
            val = max_context;
        }
        settings.context_length = val;
    } else if idx == 3 {
        settings.gpu_layers_mode = gpu_step_exec(settings.gpu_layers_mode, delta, total_layers);
    } else if idx == 4 {
        settings.flash_attn = !settings.flash_attn;
    } else if idx == 5 {
        settings.kv_cache_offload = !settings.kv_cache_offload;
    } else if idx == 6 {
        return SettingChange::CacheType { side: CacheSide::K, forward: delta > 0 };
    } else if idx == 7 {
        return SettingChange::CacheType { side: CacheSide::V, forward: delta > 0 };
    } else if idx == 8 {
        let v: i32 = settings.expert_count + delta;
        settings.expert_count = if v < -1 { -1 } else if v > 99 { 99 } else { v };
    } else if idx == 9 {
        let b: i32 = settings.batch_size as i32;
        let raw: i32 = b + delta * 64;
        settings.batch_size = if raw < 1 { 1 } else { raw as u32 };
    } else if idx == 10 {
        settings.uniform_cache = !settings.uniform_cache;
    } else if idx == 11 {
        match settings.max_concurrent_predictions {
            Some(n) => {
                let v: i32 = (n as i32) + delta;
                settings.max_concurrent_predictions = Some(if v < 1 { 1 } else if v > 10 { 10 } else { v as u32 });
            },
            None => {
                settings.max_concurrent_predictions = Some(1);
            },
        }
    } else if idx == 12 {
        let v: i32 = settings.seed + delta;
        settings.seed = if v < -1 { -1 } else { v };
    } else if idx == 14 {
        let v: i32 = settings.top_k + delta;
        settings.top_k = if v < 1 { 1 } else { v };
    } else if idx == 17 {
        let current: u32 = match settings.max_tokens {
            Some(n) => n,
            None => 2048,
        };
        let raw: i32 = (current as i32) + delta * 16;
        settings.max_tokens = Some(if raw < 16 { 16 } else { raw as u32 });
    } else if idx == 19 {
        settings.repeat_last_n = settings.repeat_last_n + delta;
    }
    match fraction_at_exec(idx) {
        Some(field) => SettingChange::Nudge { field, delta },
        None => SettingChange::Done,
    }
}

// ───────────────────────── laws ─────────────────────────

/// After a step the clamped fields are in range: active experts within -1..=99,
/// concurrent predictions within 1..=10, the batch at least 1, top-k at least 1, the seed
/// at least -1, max tokens at least 16, and the context at least 128 unless the trained
/// context is smaller, and at most the trained context when that is known.
pub proof fn law_steps_keep_ranges(s: NumericSettings, idx: usize, delta: i32, max_context: u32, total_layers: u32)
    requires
        step_fits(s, idx, delta),
    ensures
        ({
            let t = stepped_settings(s, idx, delta, max_context, total_layers);
            &&& idx == 8 ==> -1 <= t.expert_count <= 99
            &&& idx == 11 ==> (t.max_concurrent_predictions matches Some(n) && 1 <= n <= 10)
            &&& idx == 9 ==> t.batch_size >= 1
            &&& idx == 14 ==> t.top_k >= 1
            &&& idx == 12 ==> t.seed >= -1
            &&& idx == 17 ==> (t.max_tokens matches Some(n) && n >= 16)
            &&& idx == 1 && (max_context == 0 || max_context >= 128) ==> t.context_length >= 128
            &&& idx == 1 && max_context > 0 ==> t.context_length <= max_context
        }),
{
}

/// A typed value lands in range the same way (or, when it does not parse, nothing
/// changes), and typing into one field leaves the others.
pub proof fn law_typed_values_keep_ranges(s: NumericSettings, idx: usize, buf: Seq<char>, max_context: u32)
    ensures
        ({
            let t = typed_settings(s, idx, buf, max_context);
            &&& idx == 8 ==> -1 <= t.expert_count <= 99 || t == s
            &&& idx == 11 ==> (t.max_concurrent_predictions matches Some(n) && 1 <= n <= 10) || t == s
            &&& idx == 9 ==> t.batch_size >= 1 || t == s
            &&& idx == 14 ==> t.top_k >= 0 || t == s
            &&& idx == 1 && max_context > 0 ==> t.context_length <= max_context || t == s
            &&& idx != 1 ==> t.context_length == s.context_length
            &&& idx != 3 ==> t.gpu_layers_mode == s.gpu_layers_mode
        }),
{
}

} // verus!
