use llm_manager::setting_steps::{
    adjust_setting, apply_numeric_setting, CacheSide, FractionSetting, NumericSettings, SettingChange,
};
use llm_manager::settings_panel::GpuLayersMode;

fn base() -> NumericSettings {
    NumericSettings {
        context_length: 4096,
        gpu_layers_mode: GpuLayersMode::Auto,
        flash_attn: false,
        kv_cache_offload: true,
        expert_count: 0,
        batch_size: 512,
        uniform_cache: false,
        max_concurrent_predictions: None,
        seed: -1,
        top_k: 40,
        max_tokens: None,
        repeat_last_n: 64,
    }
}

#[test]
fn typed_context_is_raised_to_128_and_capped_by_training() {
    let mut s = base();
    assert_eq!(apply_numeric_setting(&mut s, 1, "64", 8, 0), SettingChange::Done);
    assert_eq!(s.context_length, 128);
    apply_numeric_setting(&mut s, 1, "100000", 8, 32768);
    assert_eq!(s.context_length, 32768);
    apply_numeric_setting(&mut s, 1, "abc", 8, 32768);
    assert_eq!(s.context_length, 32768);
}

#[test]
fn typed_gpu_layers_negative_means_all() {
    let mut s = base();
    apply_numeric_setting(&mut s, 3, "-1", 8, 0);
    assert_eq!(s.gpu_layers_mode, GpuLayersMode::All);
    apply_numeric_setting(&mut s, 3, "33", 8, 0);
    assert_eq!(s.gpu_layers_mode, GpuLayersMode::Specific(33));
}

#[test]
fn typed_values_are_clamped() {
    let mut s = base();
    apply_numeric_setting(&mut s, 8, "500", 8, 0);
    assert_eq!(s.expert_count, 99);
    apply_numeric_setting(&mut s, 8, "-7", 8, 0);
    assert_eq!(s.expert_count, -1);
    apply_numeric_setting(&mut s, 9, "0", 8, 0);
    assert_eq!(s.batch_size, 1);
    apply_numeric_setting(&mut s, 11, "42", 8, 0);
    assert_eq!(s.max_concurrent_predictions, Some(10));
    apply_numeric_setting(&mut s, 14, "-3", 8, 0);
    assert_eq!(s.top_k, 0);
    apply_numeric_setting(&mut s, 19, "-3", 8, 0);
    assert_eq!(s.repeat_last_n, 0);
    apply_numeric_setting(&mut s, 12, "+77", 8, 0);
    assert_eq!(s.seed, 77);
    apply_numeric_setting(&mut s, 10, "2", 8, 0);
    assert!(s.uniform_cache);
}

#[test]
fn typed_zero_max_tokens_means_unlimited() {
    let mut s = base();
    apply_numeric_setting(&mut s, 17, "256", 8, 0);
    assert_eq!(s.max_tokens, Some(256));
    apply_numeric_setting(&mut s, 17, "0", 8, 0);
    assert_eq!(s.max_tokens, None);
}

#[test]
fn typed_fraction_is_handed_back_as_percent() {
    let mut s = base();
    let before = s;
    assert_eq!(
        apply_numeric_setting(&mut s, 13, "-70", 8, 0),
        SettingChange::Percent { field: FractionSetting::Temperature, percent: -70 }
    );
    assert_eq!(s, before);
    assert_eq!(apply_numeric_setting(&mut s, 21, "x", 8, 0), SettingChange::Done);
}

#[test]
fn step_moves_context_by_128() {
    let mut s = base();
    adjust_setting(&mut s, 1, 1, 8, 0, 0);
    assert_eq!(s.context_length, 4224);
    s.context_length = 200;
    adjust_setting(&mut s, 1, -1, 8, 0, 0);
    assert_eq!(s.context_length, 128);
    s.context_length = 8192;
    adjust_setting(&mut s, 1, 1, 8, 4096, 0);
    assert_eq!(s.context_length, 4096);
}

#[test]
fn step_walks_gpu_layers() {
    let mut s = base();
    adjust_setting(&mut s, 3, 1, 8, 0, 30);
    assert_eq!(s.gpu_layers_mode, GpuLayersMode::Specific(1));
    adjust_setting(&mut s, 3, -1, 8, 0, 30);
    assert_eq!(s.gpu_layers_mode, GpuLayersMode::Specific(0));
    adjust_setting(&mut s, 3, -1, 8, 0, 30);
    assert_eq!(s.gpu_layers_mode, GpuLayersMode::Auto);
    adjust_setting(&mut s, 3, -1, 8, 0, 30);
    assert_eq!(s.gpu_layers_mode, GpuLayersMode::All);
    adjust_setting(&mut s, 3, -1, 8, 0, 30);
    assert_eq!(s.gpu_layers_mode, GpuLayersMode::Specific(30));
    s.gpu_layers_mode = GpuLayersMode::All;
    adjust_setting(&mut s, 3, -1, 8, 0, 0);
    assert_eq!(s.gpu_layers_mode, GpuLayersMode::Specific(256));
    adjust_setting(&mut s, 3, 1, 8, 0, 0);
    assert_eq!(s.gpu_layers_mode, GpuLayersMode::Specific(257));
    s.gpu_layers_mode = GpuLayersMode::All;
    adjust_setting(&mut s, 3, 1, 8, 0, 0);
    assert_eq!(s.gpu_layers_mode, GpuLayersMode::Auto);
}

#[test]
fn step_toggles_and_hands_back_cache_types() {
    let mut s = base();
    adjust_setting(&mut s, 4, 1, 8, 0, 0);
    assert!(s.flash_attn);
    adjust_setting(&mut s, 5, -1, 8, 0, 0);
    assert!(!s.kv_cache_offload);
    adjust_setting(&mut s, 10, 1, 8, 0, 0);
    assert!(s.uniform_cache);
    assert_eq!(
        adjust_setting(&mut s, 6, -1, 8, 0, 0),
        SettingChange::CacheType { side: CacheSide::K, forward: false }
    );
    assert_eq!(
        adjust_setting(&mut s, 7, 1, 8, 0, 0),
        SettingChange::CacheType { side: CacheSide::V, forward: true }
    );
    assert_eq!(
        adjust_setting(&mut s, 18, 1, 8, 0, 0),
        SettingChange::Nudge { field: FractionSetting::RepeatPenalty, delta: 1 }
    );
}

#[test]
fn step_keeps_numbers_in_range() {
    let mut s = base();
    s.expert_count = 99;
    adjust_setting(&mut s, 8, 1, 8, 0, 0);
    assert_eq!(s.expert_count, 99);
    s.batch_size = 10;
    adjust_setting(&mut s, 9, -1, 8, 0, 0);
    assert_eq!(s.batch_size, 1);
    adjust_setting(&mut s, 11, 1, 8, 0, 0);
    assert_eq!(s.max_concurrent_predictions, Some(1));
    adjust_setting(&mut s, 11, 1, 8, 0, 0);
    assert_eq!(s.max_concurrent_predictions, Some(2));
    adjust_setting(&mut s, 12, -1, 8, 0, 0);
    assert_eq!(s.seed, -1);
    s.top_k = 1;
    adjust_setting(&mut s, 14, -1, 8, 0, 0);
    assert_eq!(s.top_k, 1);
    adjust_setting(&mut s, 17, -1, 8, 0, 0);
    assert_eq!(s.max_tokens, Some(2032));
    adjust_setting(&mut s, 19, -1, 8, 0, 0);
    assert_eq!(s.repeat_last_n, 63);
}
