use llm_manager::bench::{handle_bench_tune_key, handle_bench_tune_output_key, BenchTuneState};
use llm_manager::files_view::{download_event, handle_files_key, FilesEffect};
use llm_manager::keys::{Key, KeyCode};
use llm_manager::nav::{picker_nav_down, picker_nav_up, wrap_field_picker};
use llm_manager::panel_keys::{handle_log_key, handle_log_scroll};
use llm_manager::panels::{handle_fkey_show_all, handle_fkey_toggle, PanelState, ALL_PANELS, LOG_PANEL};
use llm_manager::rpc_workers::{handle_rpc_workers_key, rpc_entry_fields, RpcWorker, RpcWorkersEditor, RpcWorkersEffect};
use llm_manager::server_settings::{
    backend_picker_position, handle_server_settings_key, ServerMode, ServerSettings, ServerSettingsEffect,
};
use llm_manager::settings_lists::{
    handle_profiles_key, handle_system_prompt_presets_key, preset_created, preset_deleted, profile_deleted, ListEffect,
    PresetEntry, PresetsPanel, ProfilesPanel,
};
use llm_manager::types::{ActivePanel, LogState, ModelsMode, PendingEvent};

fn key(code: KeyCode) -> Key {
    Key::plain(code)
}

fn log_state(offset: usize, total: usize) -> LogState {
    LogState { log_expanded: false, log_scroll_offset: offset, log_follow: false, log_total_lines: total }
}

#[test]
fn picker_navigation() {
    let mut s = 0usize;
    picker_nav_up(&mut s);
    assert_eq!(s, 0);
    picker_nav_down(&mut s, 3);
    picker_nav_down(&mut s, 3);
    picker_nav_down(&mut s, 3);
    assert_eq!(s, 2);
    let mut f = -1i32;
    wrap_field_picker(&mut f, -1, 3, true);
    assert_eq!(f, 3);
    wrap_field_picker(&mut f, -1, 3, false);
    assert_eq!(f, -1);
}

#[test]
fn log_scrolling_follows_at_the_tail() {
    let mut log = log_state(0, 20);
    handle_log_key(&mut log, key(KeyCode::PageDown));
    assert_eq!(log.log_scroll_offset, 15);
    assert!(log.log_follow);
    handle_log_key(&mut log, key(KeyCode::Up));
    assert_eq!(log.log_scroll_offset, 14);
    assert!(!log.log_follow);
    handle_log_key(&mut log, key(KeyCode::Char('G')));
    assert!(log.log_follow);
    handle_log_key(&mut log, key(KeyCode::Home));
    assert_eq!((log.log_scroll_offset, log.log_follow), (0, false));
    handle_log_scroll(&mut log, false);
    assert_eq!(log.log_scroll_offset, 1);
    assert!(!log.log_follow);
}

#[test]
fn toggling_the_log_panel_off_collapses_it() {
    let mut p = PanelState { active_panel: ActivePanel::Models, panel_visibility: ALL_PANELS };
    let mut log = log_state(0, 0);
    log.log_expanded = true;
    assert!(handle_fkey_toggle(&mut p, &mut log, LOG_PANEL, Some(ActivePanel::Log), false, false));
    assert!(!p.is_panel_visible(LOG_PANEL));
    assert!(!log.log_expanded);
    assert!(handle_fkey_toggle(&mut p, &mut log, LOG_PANEL, Some(ActivePanel::Log), false, false));
    assert_eq!(p.panel_visibility, ALL_PANELS);
    assert_eq!(p.active_panel, ActivePanel::Log);
    assert!(!handle_fkey_toggle(&mut p, &mut log, 1, None, true, true));
    p.panel_visibility = 0;
    handle_fkey_show_all(&mut p, &mut log);
    assert_eq!(p.panel_visibility, 0b111111);
}

#[test]
fn focus_cycles_through_visible_panels() {
    let mut p = PanelState { active_panel: ActivePanel::Models, panel_visibility: ALL_PANELS };
    let mode = ModelsMode::List;
    let v = p.get_visible_panels(&mode, false, false);
    assert_eq!(v, vec![ActivePanel::Models, ActivePanel::ServerSettings, ActivePanel::LlmSettings, ActivePanel::Log]);
    p.focus_next(&mode, false, false);
    assert_eq!(p.active_panel, ActivePanel::ServerSettings);
    p.focus_prev(&mode, false, false);
    assert_eq!(p.active_panel, ActivePanel::Models);
    p.focus_prev(&mode, false, false);
    assert_eq!(p.active_panel, ActivePanel::Log);
    let running = p.get_visible_panels(&mode, true, true);
    assert_eq!(running, vec![ActivePanel::Models, ActivePanel::LlmSettings, ActivePanel::Log, ActivePanel::Downloads]);
}

fn bench() -> BenchTuneState {
    BenchTuneState {
        bench_tune_output_view: Some(0),
        bench_tune_output_index: 0,
        bench_tune_output_scroll: 4,
        bench_tune_output_h_scroll: 2,
        bench_tune_result_row: 0,
    }
}

#[test]
fn bench_outputs_step_across_results() {
    let counts = vec![2usize, 0, 3];
    let mut s = bench();
    handle_bench_tune_output_key(&mut s, key(KeyCode::Right), &counts);
    assert_eq!((s.bench_tune_output_view, s.bench_tune_output_index), (Some(0), 1));
    assert_eq!((s.bench_tune_output_scroll, s.bench_tune_output_h_scroll), (0, 0));
    handle_bench_tune_output_key(&mut s, key(KeyCode::Right), &counts);
    assert_eq!((s.bench_tune_output_view, s.bench_tune_output_index), (Some(1), 0));
    handle_bench_tune_output_key(&mut s, key(KeyCode::Right), &counts);
    assert_eq!((s.bench_tune_output_view, s.bench_tune_output_index), (Some(2), 0));
    handle_bench_tune_output_key(&mut s, key(KeyCode::Left), &counts);
    assert_eq!((s.bench_tune_output_view, s.bench_tune_output_index), (Some(1), 0));
    handle_bench_tune_output_key(&mut s, key(KeyCode::Left), &counts);
    assert_eq!((s.bench_tune_output_view, s.bench_tune_output_index), (Some(0), 1));
    handle_bench_tune_output_key(&mut s, key(KeyCode::PageUp), &counts);
    assert_eq!(s.bench_tune_output_scroll, 0);
    handle_bench_tune_output_key(&mut s, key(KeyCode::Esc), &counts);
    assert_eq!(s.bench_tune_output_view, None);
}

#[test]
fn bench_results_open_only_results_with_outputs() {
    let counts = vec![0usize, 2];
    let mut s = bench();
    s.bench_tune_output_view = None;
    assert!(!handle_bench_tune_key(&mut s, key(KeyCode::Enter), &counts));
    assert_eq!(s.bench_tune_output_view, None);
    handle_bench_tune_key(&mut s, key(KeyCode::Down), &counts);
    handle_bench_tune_key(&mut s, key(KeyCode::Down), &counts);
    assert_eq!(s.bench_tune_result_row, 1);
    handle_bench_tune_key(&mut s, key(KeyCode::Enter), &counts);
    assert_eq!(s.bench_tune_output_view, Some(1));
    assert!(handle_bench_tune_key(&mut s, key(KeyCode::Esc), &counts));
}

fn editor(workers: Vec<RpcWorker>) -> RpcWorkersEditor {
    RpcWorkersEditor {
        rpc_workers: workers,
        rpc_workers_selected_idx: 0,
        editing_rpc_worker: None,
        settings_edit_buffer: String::new(),
        edit_cursor_pos: 0,
    }
}

fn worker(name: &str, ip: &str, port: u16) -> RpcWorker {
    RpcWorker { selected: true, name: name.to_string(), ip: ip.to_string(), port }
}

#[test]
fn rpc_entry_field_forms() {
    let f = |s: &str| {
        let (a, b, c) = rpc_entry_fields(s);
        (a, b, c)
    };
    assert_eq!(f("10.0.0.5"), ("".to_string(), "10.0.0.5".to_string(), "50052".to_string()));
    assert_eq!(f(" 10.0.0.5 , 6000"), ("".to_string(), "10.0.0.5".to_string(), "6000".to_string()));
    assert_eq!(f("gpu1, 10.0.0.5"), ("gpu1".to_string(), "10.0.0.5".to_string(), "50052".to_string()));
    assert_eq!(f("gpu1,10.0.0.5,7000"), ("gpu1".to_string(), "10.0.0.5".to_string(), "7000".to_string()));
    assert_eq!(f("a,b,c,d"), ("".to_string(), "".to_string(), "0".to_string()));
}

fn is_ipv4(s: &str) -> bool {
    let parts: Vec<&str> = s.split('.').collect();
    parts.len() == 4 && parts.iter().all(|p| p.parse::<u8>().is_ok())
}

#[test]
fn adding_an_rpc_worker() {
    let mut e = editor(vec![]);
    handle_rpc_workers_key(&mut e, key(KeyCode::Char('n')), false);
    assert_eq!(e.editing_rpc_worker, Some(0));
    for c in "box, 192.168.0.9, 50053".chars() {
        handle_rpc_workers_key(&mut e, key(KeyCode::Char(c)), false);
    }
    let (_, ip, _) = rpc_entry_fields(&e.settings_edit_buffer);
    let valid = is_ipv4(&ip);
    let effects = handle_rpc_workers_key(&mut e, key(KeyCode::Enter), valid);
    assert!(matches!(&effects[..], [RpcWorkersEffect::SaveConfig, RpcWorkersEffect::LogInfo(m)] if m == "RPC worker saved."));
    assert_eq!(e.rpc_workers.len(), 1);
    assert_eq!(e.rpc_workers[0].name, "box");
    assert_eq!(e.rpc_workers[0].ip, "192.168.0.9");
    assert_eq!(e.rpc_workers[0].port, 50053);
    assert!(e.rpc_workers[0].selected);
    assert_eq!(e.editing_rpc_worker, None);
    assert_eq!(e.settings_edit_buffer, "");
}

#[test]
fn invalid_rpc_lines_are_reported() {
    let mut e = editor(vec![]);
    e.editing_rpc_worker = Some(0);
    e.settings_edit_buffer = "nonsense".to_string();
    let effects = handle_rpc_workers_key(&mut e, key(KeyCode::Enter), false);
    assert!(matches!(&effects[..], [RpcWorkersEffect::LogError(m)] if m == "Invalid IP address: nonsense"));
    e.editing_rpc_worker = Some(0);
    e.settings_edit_buffer = "10.0.0.1, 70000".to_string();
    let (_, ip, _) = rpc_entry_fields(&e.settings_edit_buffer);
    assert_eq!(ip, "70000");
    let effects = handle_rpc_workers_key(&mut e, key(KeyCode::Enter), false);
    assert!(matches!(&effects[..], [RpcWorkersEffect::LogError(m)] if m == "Invalid IP address: 70000"));
    e.editing_rpc_worker = Some(0);
    e.settings_edit_buffer = "w, 10.0.0.1, 0".to_string();
    let effects = handle_rpc_workers_key(&mut e, key(KeyCode::Enter), true);
    assert!(matches!(&effects[..], [RpcWorkersEffect::LogError(m)] if m == "Invalid port (1-65535): 0"));
    assert!(e.rpc_workers.is_empty());
}

#[test]
fn editing_an_rpc_worker_replaces_it() {
    let mut e = editor(vec![worker("a", "10.0.0.1", 50052), worker("b", "10.0.0.2", 50052)]);
    handle_rpc_workers_key(&mut e, key(KeyCode::Down), false);
    handle_rpc_workers_key(&mut e, key(KeyCode::Char('e')), false);
    assert_eq!(e.settings_edit_buffer, "b, 10.0.0.2, 50052");
    assert_eq!(e.edit_cursor_pos, 18);
    handle_rpc_workers_key(&mut e, key(KeyCode::Backspace), false);
    handle_rpc_workers_key(&mut e, key(KeyCode::Char('3')), false);
    handle_rpc_workers_key(&mut e, key(KeyCode::Enter), true);
    assert_eq!(e.rpc_workers.len(), 2);
    assert_eq!(e.rpc_workers[1].port, 50053);
}

#[test]
fn rpc_worker_list_keys() {
    let mut e = editor(vec![worker("a", "10.0.0.1", 1), worker("b", "10.0.0.2", 2)]);
    let fx = handle_rpc_workers_key(&mut e, key(KeyCode::Char(' ')), false);
    assert!(matches!(&fx[..], [RpcWorkersEffect::SaveConfig]));
    assert!(!e.rpc_workers[0].selected);
    e.rpc_workers_selected_idx = 1;
    handle_rpc_workers_key(&mut e, key(KeyCode::Char('d')), false);
    assert_eq!(e.rpc_workers.len(), 1);
    assert_eq!(e.rpc_workers_selected_idx, 0);
    let fx = handle_rpc_workers_key(&mut e, key(KeyCode::Esc), false);
    assert!(matches!(&fx[..], [RpcWorkersEffect::CloseOverlay]));
}

#[test]
fn rpc_cursor_past_a_multibyte_line() {
    let mut e = editor(vec![worker("é", "10.0.0.1", 7)]);
    handle_rpc_workers_key(&mut e, key(KeyCode::Char('e')), false);
    assert_eq!(e.settings_edit_buffer, "é, 10.0.0.1, 7");
    assert_eq!(e.edit_cursor_pos, 15);
    handle_rpc_workers_key(&mut e, key(KeyCode::Right), false);
    assert_eq!(e.edit_cursor_pos, 14);
}

fn presets() -> Vec<PresetEntry> {
    vec![
        PresetEntry { name: "Default".to_string(), content: "You are helpful.".to_string() },
        PresetEntry { name: "Custom 1".to_string(), content: "Be brief.".to_string() },
    ]
}

fn presets_panel() -> PresetsPanel {
    PresetsPanel {
        editing_preset: None,
        settings_edit_buffer: String::new(),
        edit_cursor_pos: 0,
        settings_selected_idx: 0,
        system_prompt_presets_scroll_offset: 0,
    }
}

#[test]
fn applying_a_preset() {
    let mut p = presets_panel();
    let fx = handle_system_prompt_presets_key(&mut p, key(KeyCode::Enter), &presets(), 1, 1);
    match &fx[..] {
        [ListEffect::ApplyPreset(n), ListEffect::FocusLlmSettings, ListEffect::LogInfo(m)] => {
            assert_eq!(n, "Default");
            assert_eq!(m, "Applied preset: Default");
        },
        _ => panic!("unexpected effects"),
    }
}

#[test]
fn editing_and_saving_a_preset() {
    let mut p = presets_panel();
    p.settings_selected_idx = 1;
    handle_system_prompt_presets_key(&mut p, key(KeyCode::Char('e')), &presets(), 1, 1);
    assert_eq!(p.editing_preset, Some(1));
    assert_eq!(p.edit_cursor_pos, 9);
    handle_system_prompt_presets_key(&mut p, key(KeyCode::Enter), &presets(), 1, 1);
    handle_system_prompt_presets_key(&mut p, key(KeyCode::Char('!')), &presets(), 1, 1);
    assert_eq!(p.settings_edit_buffer, "Be brief.\n!");
    let fx = handle_system_prompt_presets_key(&mut p, Key::with_ctrl(KeyCode::Char('s')), &presets(), 1, 1);
    match &fx[..] {
        [ListEffect::SavePresetContent { name, content }, ListEffect::LogInfo(m), ListEffect::SaveConfig] => {
            assert_eq!(name, "Custom 1");
            assert_eq!(content, "Be brief.\n!");
            assert_eq!(m, "Saved preset");
        },
        _ => panic!("unexpected effects"),
    }
    assert_eq!(p.editing_preset, None);
}

#[test]
fn creating_and_deleting_presets() {
    let mut p = presets_panel();
    let fx = handle_system_prompt_presets_key(&mut p, key(KeyCode::Char('n')), &presets(), 1, 1);
    assert!(matches!(&fx[..], [ListEffect::CreatePreset(n)] if n == "Custom 2"));
    preset_created(&mut p, 3);
    assert_eq!((p.settings_selected_idx, p.editing_preset, p.edit_cursor_pos), (2, Some(2), 0));
    let mut p = presets_panel();
    let fx = handle_system_prompt_presets_key(&mut p, key(KeyCode::Char('d')), &presets(), 1, 1);
    assert!(fx.is_empty());
    p.settings_selected_idx = 1;
    let fx = handle_system_prompt_presets_key(&mut p, key(KeyCode::Char('d')), &presets(), 1, 1);
    assert!(matches!(&fx[..], [ListEffect::DeletePreset(n), ListEffect::LogInfo(_), ListEffect::SaveConfig] if n == "Custom 1"));
    preset_deleted(&mut p, 1);
    assert_eq!(p.settings_selected_idx, 0);
}

#[test]
fn profiles_panel_keys() {
    let mut p = ProfilesPanel { settings_selected_idx: 0, profiles_scroll_offset: 3 };
    handle_profiles_key(&mut p, key(KeyCode::Down), 3);
    handle_profiles_key(&mut p, key(KeyCode::Down), 3);
    handle_profiles_key(&mut p, key(KeyCode::Down), 3);
    assert_eq!(p.settings_selected_idx, 2);
    handle_profiles_key(&mut p, key(KeyCode::PageUp), 3);
    assert_eq!(p.profiles_scroll_offset, 0);
    let fx = handle_profiles_key(&mut p, key(KeyCode::Char('s')), 3);
    assert!(matches!(&fx[..], [ListEffect::SaveCurrentAsProfile(n), ListEffect::FocusLlmSettings] if n == "New Profile"));
    let fx = handle_profiles_key(&mut p, key(KeyCode::Char('d')), 3);
    assert!(matches!(&fx[..], [ListEffect::DeleteProfile(2)]));
    profile_deleted(&mut p, true, 2);
    assert_eq!(p.settings_selected_idx, 1);
}

fn server() -> ServerSettings {
    ServerSettings { threads: 8, threads_batch: 32, server_mode: ServerMode::Normal, api_endpoint_enabled: false }
}

#[test]
fn server_settings_thread_counts() {
    let mut sel = 2usize;
    let mut s = server();
    handle_server_settings_key(&mut sel, &mut s, key(KeyCode::Enter), 8, false);
    assert_eq!(s.threads, 1);
    handle_server_settings_key(&mut sel, &mut s, key(KeyCode::Left), 8, false);
    assert_eq!(s.threads, 1);
    for _ in 0..10 {
        handle_server_settings_key(&mut sel, &mut s, key(KeyCode::Right), 8, false);
    }
    assert_eq!(s.threads, 8);
    sel = 3;
    let fx = handle_server_settings_key(&mut sel, &mut s, key(KeyCode::Enter), 8, false);
    assert_eq!(s.threads_batch, 1);
    assert_eq!(fx, vec![ServerSettingsEffect::SyncGlobalSettings]);
    let fx = handle_server_settings_key(&mut sel, &mut s, key(KeyCode::Char('l')), 8, false);
    assert_eq!(fx, vec![ServerSettingsEffect::MarkSettingsDirty, ServerSettingsEffect::SyncGlobalSettings]);
    assert_eq!(s.threads_batch, 2);
}

#[test]
fn server_settings_mode_endpoint_and_pickers() {
    let mut sel = 4usize;
    let mut s = server();
    for expected in [ServerMode::Bench, ServerMode::BenchTune, ServerMode::Normal] {
        handle_server_settings_key(&mut sel, &mut s, key(KeyCode::Enter), 8, false);
        assert_eq!(s.server_mode, expected);
    }
    s.server_mode = ServerMode::Router;
    handle_server_settings_key(&mut sel, &mut s, key(KeyCode::Enter), 8, false);
    assert_eq!(s.server_mode, ServerMode::Normal);
    sel = 5;
    handle_server_settings_key(&mut sel, &mut s, key(KeyCode::Enter), 8, true);
    assert!(!s.api_endpoint_enabled);
    handle_server_settings_key(&mut sel, &mut s, key(KeyCode::Enter), 8, false);
    assert!(s.api_endpoint_enabled);
    sel = 7;
    let fx = handle_server_settings_key(&mut sel, &mut s, key(KeyCode::Enter), 8, false);
    assert_eq!(fx, vec![ServerSettingsEffect::OpenRpcManager, ServerSettingsEffect::SyncGlobalSettings]);
    handle_server_settings_key(&mut sel, &mut s, key(KeyCode::Down), 8, false);
    assert_eq!(sel, 8);
}

#[test]
fn backend_picker_opens_at_the_current_build() {
    let entries = vec![
        ("cpu".to_string(), None),
        ("vulkan".to_string(), Some("b1".to_string())),
        ("vulkan".to_string(), Some("b2".to_string())),
    ];
    assert_eq!(backend_picker_position(&entries, "vulkan", &Some("b2".to_string())), 2);
    assert_eq!(backend_picker_position(&entries, "cpu", &None), 0);
    assert_eq!(backend_picker_position(&entries, "cuda", &None), 0);
}

#[test]
fn file_list_keys() {
    let files = vec!["a.gguf".to_string(), "b.gguf".to_string()];
    let downloading = vec![("org/m".to_string(), "b.gguf".to_string())];
    let mut sel = None;
    let mut result = Some(5);
    handle_files_key(&mut sel, &mut result, key(KeyCode::Up), "org/m", &files, 3, &downloading);
    assert_eq!(sel, Some(0));
    let fx = handle_files_key(&mut sel, &mut result, key(KeyCode::Enter), "org/m", &files, 3, &downloading);
    assert_eq!(fx, vec![FilesEffect::Download(0)]);
    handle_files_key(&mut sel, &mut result, key(KeyCode::Down), "org/m", &files, 3, &downloading);
    handle_files_key(&mut sel, &mut result, key(KeyCode::Down), "org/m", &files, 3, &downloading);
    assert_eq!(sel, Some(1));
    let fx = handle_files_key(&mut sel, &mut result, key(KeyCode::Enter), "org/m", &files, 3, &downloading);
    assert_eq!(fx, vec![FilesEffect::AlreadyDownloading]);
    let fx = handle_files_key(&mut sel, &mut result, key(KeyCode::Char('x')), "org/m", &files, 3, &downloading);
    assert_eq!(fx, vec![FilesEffect::FetchReadme]);
    let fx = handle_files_key(&mut sel, &mut result, key(KeyCode::Esc), "org/m", &files, 3, &downloading);
    assert_eq!(fx, vec![FilesEffect::BackToSearch]);
    assert_eq!(result, Some(0));
}

#[test]
fn download_requests_carry_the_file() {
    let e = download_event("org/m", &("m-Q4.gguf".to_string(), 1234, "https://x/m-Q4.gguf".to_string()));
    match e {
        PendingEvent::Download { model_id, filename, url, file_size, subdir } => {
            assert_eq!(model_id, "org/m");
            assert_eq!(filename, "m-Q4.gguf");
            assert_eq!(url, "https://x/m-Q4.gguf");
            assert_eq!(file_size, 1234);
            assert_eq!(subdir, "org/m");
        },
        _ => panic!("not a download"),
    }
}
