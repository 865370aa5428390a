use llm_manager::keys::{Key, KeyCode};
use llm_manager::settings_panel::{handle_settings_key, BoolSetting, GpuLayersMode, SettingsAction, SettingsCursor};

fn cursor(idx: usize, buf: &str) -> SettingsCursor {
    SettingsCursor { selected_idx: idx, scroll_offset: 0, edit_buffer: buf.to_string() }
}

fn press(c: &mut SettingsCursor, gpu: &mut GpuLayersMode, key: Key, field: Option<&str>) -> llm_manager::settings_panel::SettingsOutcome {
    handle_settings_key(c, gpu, key, field, 20, 32, false)
}

#[test]
fn down_and_up_move_within_fields() {
    let mut c = cursor(18, "");
    let mut g = GpuLayersMode::Auto;
    let o = press(&mut c, &mut g, Key::plain(KeyCode::Down), Some("threads"));
    assert_eq!(c.selected_idx, 19);
    assert!(o.redraw && !o.recalc_vram);
    press(&mut c, &mut g, Key::plain(KeyCode::Char('j')), Some("threads"));
    assert_eq!(c.selected_idx, 19);
    press(&mut c, &mut g, Key::plain(KeyCode::Up), Some("threads"));
    assert_eq!(c.selected_idx, 18);
    c.selected_idx = 0;
    press(&mut c, &mut g, Key::plain(KeyCode::Char('k')), Some("threads"));
    assert_eq!(c.selected_idx, 0);
}

#[test]
fn moving_drops_typed_text_first() {
    let mut c = cursor(3, "12");
    let mut g = GpuLayersMode::Auto;
    press(&mut c, &mut g, Key::plain(KeyCode::Down), Some("threads"));
    assert_eq!(c.selected_idx, 3);
    assert_eq!(c.edit_buffer, "");
}

#[test]
fn page_keys() {
    let mut c = cursor(12, "");
    let mut g = GpuLayersMode::Auto;
    press(&mut c, &mut g, Key::with_ctrl(KeyCode::Char('d')), None);
    assert_eq!(c.selected_idx, 19);
    press(&mut c, &mut g, Key::with_ctrl(KeyCode::Char('u')), None);
    assert_eq!(c.selected_idx, 9);
    press(&mut c, &mut g, Key::plain(KeyCode::PageDown), None);
    assert_eq!((c.selected_idx, c.scroll_offset), (14, 5));
    press(&mut c, &mut g, Key::plain(KeyCode::PageDown), None);
    assert_eq!((c.selected_idx, c.scroll_offset), (19, 10));
    press(&mut c, &mut g, Key::plain(KeyCode::PageDown), None);
    assert_eq!((c.selected_idx, c.scroll_offset), (19, 15));
    press(&mut c, &mut g, Key::plain(KeyCode::PageUp), None);
    assert_eq!((c.selected_idx, c.scroll_offset), (14, 10));
}

#[test]
fn shortcuts() {
    let mut c = cursor(0, "");
    let mut g = GpuLayersMode::Auto;
    assert_eq!(press(&mut c, &mut g, Key::with_ctrl(KeyCode::Char('s')), Some("threads")).action, SettingsAction::Save);
    assert_eq!(press(&mut c, &mut g, Key::with_ctrl(KeyCode::Char('r')), Some("threads")).action, SettingsAction::ResetToDefaults);
    let o = handle_settings_key(&mut c, &mut g, Key::with_ctrl(KeyCode::Char('r')), Some("threads"), 20, 32, true);
    assert_eq!(o.action, SettingsAction::ConfirmReset);
    assert_eq!(press(&mut c, &mut g, Key::with_ctrl(KeyCode::Char('p')), None).action, SettingsAction::OpenProfilePicker);
    let o = press(&mut c, &mut g, Key::with_ctrl(KeyCode::Char('e')), Some("threads"));
    assert_eq!(o.action, SettingsAction::ToggleField);
    assert!(o.sync_global && o.recalc_vram);
}

#[test]
fn enter_on_special_fields() {
    let mut c = cursor(0, "");
    let mut g = GpuLayersMode::Auto;
    let enter = Key::plain(KeyCode::Enter);
    assert_eq!(press(&mut c, &mut g, enter, Some("mlock")).action, SettingsAction::Toggle(BoolSetting::Mlock));
    assert_eq!(press(&mut c, &mut g, enter, Some("flash_attn")).action, SettingsAction::Toggle(BoolSetting::FlashAttn));
    assert_eq!(press(&mut c, &mut g, enter, Some("system_prompt_preset_name")).action, SettingsAction::OpenPromptPicker);
    assert_eq!(press(&mut c, &mut g, enter, Some("cache_type_v")).action, SettingsAction::NextCacheTypeV);
    let o = press(&mut c, &mut g, enter, Some("max_concurrent_predictions"));
    assert_eq!(o.action, SettingsAction::OpenMaxConcurrentPicker);
    assert!(!o.recalc_vram);
    assert_eq!(press(&mut c, &mut g, enter, Some("is_mtp")).action, SettingsAction::OpenSpecTypePicker);
    assert_eq!(press(&mut c, &mut g, enter, Some("tags")).action, SettingsAction::OpenTags);
    assert_eq!(press(&mut c, &mut g, enter, Some("threads")).action, SettingsAction::Nothing);
}

#[test]
fn gpu_layers_cycle() {
    let mut c = cursor(0, "");
    let mut g = GpuLayersMode::Auto;
    let f = Some("gpu_layers_mode");
    let right = Key::plain(KeyCode::Right);
    let left = Key::plain(KeyCode::Left);
    handle_settings_key(&mut c, &mut g, right, f, 20, 2, false);
    assert_eq!(g, GpuLayersMode::Specific(1));
    handle_settings_key(&mut c, &mut g, right, f, 20, 2, false);
    assert_eq!(g, GpuLayersMode::Specific(2));
    handle_settings_key(&mut c, &mut g, right, f, 20, 2, false);
    assert_eq!(g, GpuLayersMode::All);
    handle_settings_key(&mut c, &mut g, right, f, 20, 2, false);
    assert_eq!(g, GpuLayersMode::Auto);
    handle_settings_key(&mut c, &mut g, left, f, 20, 300, false);
    assert_eq!(g, GpuLayersMode::Specific(256));
    g = GpuLayersMode::Specific(1);
    handle_settings_key(&mut c, &mut g, left, f, 20, 2, false);
    assert_eq!(g, GpuLayersMode::Specific(0));
    handle_settings_key(&mut c, &mut g, left, f, 20, 2, false);
    assert_eq!(g, GpuLayersMode::Auto);
    g = GpuLayersMode::All;
    handle_settings_key(&mut c, &mut g, left, f, 20, 0, false);
    assert_eq!(g, GpuLayersMode::Specific(1));
}

#[test]
fn gpu_layers_enter_types_count_or_picks_model_layers() {
    let mut c = cursor(0, "");
    let mut g = GpuLayersMode::Specific(17);
    let f = Some("gpu_layers_mode");
    let enter = Key::plain(KeyCode::Enter);
    press(&mut c, &mut g, enter, f);
    assert_eq!(c.edit_buffer, "17");
    g = GpuLayersMode::Auto;
    c.edit_buffer.clear();
    press(&mut c, &mut g, enter, f);
    assert_eq!(g, GpuLayersMode::Specific(32));
    c.edit_buffer = "5".to_string();
    press(&mut c, &mut g, Key::plain(KeyCode::Char('7')), f);
    assert_eq!(c.edit_buffer, "7");
}

#[test]
fn typing_and_applying_a_value() {
    let mut c = cursor(0, "");
    let mut g = GpuLayersMode::Auto;
    let f = Some("max_concurrent_predictions");
    for ch in ['4', '.', '.', '5', '-'] {
        press(&mut c, &mut g, Key::plain(KeyCode::Char(ch)), f);
    }
    assert_eq!(c.edit_buffer, "4.5-");
    press(&mut c, &mut g, Key::plain(KeyCode::Backspace), f);
    assert_eq!(c.edit_buffer, "4.5");
    press(&mut c, &mut g, Key::plain(KeyCode::Char('x')), f);
    assert_eq!(c.edit_buffer, "4.5");
    let o = press(&mut c, &mut g, Key::plain(KeyCode::Enter), f);
    assert_eq!(o.action, SettingsAction::ApplyEdit);
    assert_eq!(o.applied.as_deref(), Some("4.5"));
    assert!(o.sync_global && o.recalc_vram && o.redraw);
    assert_eq!(c.edit_buffer, "");
}

#[test]
fn stepping_and_escape() {
    let mut c = cursor(0, "");
    let mut g = GpuLayersMode::Auto;
    let o = press(&mut c, &mut g, Key::plain(KeyCode::Left), Some("threads"));
    assert_eq!(o.action, SettingsAction::Adjust { up: false });
    assert!(!o.sync_global);
    let o = press(&mut c, &mut g, Key::plain(KeyCode::Right), Some("max_concurrent_predictions"));
    assert_eq!(o.action, SettingsAction::Adjust { up: true });
    assert!(o.sync_global);
    c.edit_buffer = "9".to_string();
    let o = press(&mut c, &mut g, Key::plain(KeyCode::Esc), Some("threads"));
    assert_eq!(c.edit_buffer, "");
    assert!(o.recalc_vram);
    let o = press(&mut c, &mut g, Key::plain(KeyCode::Esc), Some("threads"));
    assert!(!o.redraw);
}
