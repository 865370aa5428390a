use llm_manager::downloads::{remove_deleted_model, model_is_downloaded, name_matches_exec, normalize_separators, DiscoveredModel};
use llm_manager::keys::{Key, KeyCode};
use llm_manager::loading::{load_failure_message, loading_failure, LoadingTracker};
use llm_manager::model_state::{
    fail_loading_models, get_state_str, is_loading, is_model_loaded, is_truly_idle, status_priority, IdleInputs,
    ModelState,
};
use llm_manager::models_list::{
    count_active, decide_load, decide_unload, get_filtered_model_indices, get_sorted_model_indices,
    handle_local_filter_key, move_selection, LoadPlan, ServerStatus, SortOrder, UnloadPlan,
};
use llm_manager::mouse::{handle_mouse, mouse_ready, MouseEffect, MouseKind, MouseUi, Rect, ResizeState, ScreenAreas};
use llm_manager::parsing::{is_loading_error, is_oom_error};
use llm_manager::server_settings::ServerMode;
use llm_manager::settings_sync::{common_fields_changed, execute_confirmation, sync_config_common_fields, sync_global_settings, sync_model_cache_fields, CommonFields, GlobalSync, ConfirmOutcome};
use llm_manager::types::{any_text_scroll_moving, ActivePanel, ConfirmationKind, LoadingPhase, LogState, ModelsMode, PendingEvent, TextScrollState};

fn model(name: &str) -> DiscoveredModel {
    DiscoveredModel {
        path: format!("/models/{}", name),
        name: name.to_string(),
        file_size: 1,
        display_name: name.to_string(),
        pipeline_tag: None,
        capabilities: vec![],
    }
}

#[test]
fn downloaded_by_repository_prefix() {
    let local = vec![model("Qwen3.6-27B-Q3_K_S.gguf")];
    assert!(model_is_downloaded(&local, "unsloth/Qwen3.6-27B-MTP-GGUF"));
    assert!(!model_is_downloaded(&local, "unsloth/Llama-3-8B-GGUF"));
}

#[test]
fn downloaded_by_exact_name_ignoring_case_and_separators() {
    let local = vec![model("my_model.GGUF")];
    assert!(model_is_downloaded(&local, "someone/My-Model"));
    assert!(!model_is_downloaded(&[], "someone/My-Model"));
}

#[test]
fn short_prefixes_do_not_match() {
    assert!(!name_matches_exec("qwen-7b-q4.gguf", "qwen-14b"));
    assert!(name_matches_exec("abcdefgh-q4", "abcdefgh-extra"));
    assert_eq!(normalize_separators("a_b__c"), "a-b--c");
}

#[test]
fn loading_errors_are_recognized() {
    assert!(is_loading_error("ERROR: model not found"));
    assert!(is_loading_error("llama: failed to load model"));
    assert!(is_loading_error("ggml_vulkan: vk::SystemError"));
    assert!(!is_loading_error("loading tensor 3 of 10"));
    assert!(is_oom_error("CUDA error: out of memory"));
    assert!(is_oom_error("ErrorOutOfDeviceMemory"));
    assert!(!is_oom_error("error: bad magic"));
}

#[test]
fn failure_messages() {
    assert_eq!(load_failure_message(false, "2024-01-02 03:04:05"), "Last Failed to load a model (2024-01-02 03:04:05)");
    assert_eq!(load_failure_message(true, "t"), "Last Failed to load a model (OOM - t)");
    let m = loading_failure("CUDA error: out of memory").unwrap();
    assert!(m.starts_with("Last Failed to load a model (OOM - "));
    assert!(m.ends_with(")"));
    assert_eq!(m.len(), "Last Failed to load a model (OOM - 2024-01-02 03:04:05)".len());
    assert!(loading_failure("all good").is_none());
}

#[test]
fn loading_phases_from_server_lines() {
    let mut t = LoadingTracker::new();
    let u = t.detect_loading_phases("main: build = 1 (llama.cpp server)");
    assert!(u.phase_changed);
    assert_eq!(t.last_active_phase, Some(LoadingPhase::ServerStarting));
    let u = t.detect_loading_phases("llama_model_loader: loaded meta data with 30 key-value pairs");
    assert!(u.clears_error);
    assert_eq!(t.last_active_phase, Some(LoadingPhase::LoadingMeta));
    t.detect_loading_phases("load_tensors: load tensors: CPU");
    assert!(t.phases.contains(LoadingPhase::LoadingTensors));
    t.parse_loading_details("loading tensor 12 of 345");
    assert_eq!(t.load_progress.tensors_loaded, 12);
    assert_eq!(t.load_progress.tensors_total, Some(345));
    t.parse_loading_details("offloaded 20/33 layers to GPU");
    assert_eq!(t.load_progress.layers_loaded, Some(20));
    assert_eq!(t.load_progress.layers_total, Some(33));
    let u = t.detect_loading_phases("main: server listening on http://127.0.0.1:8080");
    assert_eq!(t.last_active_phase, Some(LoadingPhase::ServerListening));
    assert!(u.phase_changed);
    assert_eq!(t.phases.len(), 5);
    t.reset();
    assert!(t.phases.is_empty());
    assert_eq!(LoadingPhase::Complete.label(), "Ready");
}

#[test]
fn progress_dots_count_tensors_while_the_total_is_unknown() {
    let mut t = LoadingTracker::new();
    t.detect_loading_phases("load tensors: starting");
    t.parse_loading_details(".......");
    assert_eq!(t.load_progress.tensors_loaded, 7);
    t.parse_loading_details("offloading 32 repeating layers to GPU");
    assert_eq!(t.load_progress.layers_total, Some(32));
}

#[test]
fn model_states() {
    let failed = ModelState::Failed { error: "boom".to_string() };
    assert_eq!(get_state_str(Some(&failed)), "failed: boom");
    assert_eq!(get_state_str(Some(&ModelState::Loaded { port: 1, pid: 2 })), "loaded");
    assert_eq!(get_state_str(None), "unloaded");
    assert_eq!(status_priority(Some(&ModelState::Loading)), 2);
    assert_eq!(status_priority(Some(&ModelState::Benchmarking)), 1);
    assert_eq!(status_priority(None), 0);
    assert!(is_model_loaded(Some(&ModelState::Loaded { port: 1, pid: 2 })));
    assert!(!is_model_loaded(Some(&ModelState::Loading)));
    assert!(is_loading(&vec![ModelState::Available, ModelState::Loading]));
    assert!(!is_loading(&vec![ModelState::Available]));
    assert_eq!(count_active(&vec![ModelState::Loading, ModelState::Available, ModelState::Loaded { port: 1, pid: 1 }]), 2);
}

#[test]
fn failed_loads_mark_loading_models_and_on_a_crash_loaded_ones() {
    let mut states = vec![
        ("a".to_string(), ModelState::Loading),
        ("b".to_string(), ModelState::Loaded { port: 1, pid: 2 }),
        ("c".to_string(), ModelState::Available),
    ];
    let (names, error) = fail_loading_models(&mut states, false, &Some("bad".to_string()));
    assert_eq!(names, vec!["a".to_string()]);
    assert_eq!(error, "bad");
    assert!(matches!(&states[0].1, ModelState::Failed { error } if error == "bad"));
    assert!(matches!(states[1].1, ModelState::Loaded { .. }));
    let (names, error) = fail_loading_models(&mut states, true, &None);
    assert_eq!(names, vec!["b".to_string()]);
    assert!(error.starts_with("Last Failed to load a model ("));
    assert!(matches!(states[2].1, ModelState::Available));
}

#[test]
fn idleness() {
    let quiet = IdleInputs {
        downloading: false,
        loading: false,
        bench_tune_running: false,
        spawn_task_running: false,
        bench_tune_task_running: false,
        pending_kill: false,
        pending_api_load: false,
        pending_api_unload: false,
        backend_resolving: false,
        backend_resolve_running: false,
        text_scroll_active: false,
        confirmation_open: false,
    };
    assert!(is_truly_idle(&quiet));
    assert!(!is_truly_idle(&IdleInputs { confirmation_open: true, ..quiet }));
    let scroll = TextScrollState {
        offset: 0,
        last_tick: std::time::Instant::now(),
        direction: 1,
        hold_count: 0,
        max_offset: 3,
        visible: true,
    };
    assert!(any_text_scroll_moving(&vec![scroll]));
    assert!(!any_text_scroll_moving(&vec![]));
}

fn names() -> Vec<String> {
    vec!["Qwen-B".to_string(), "llama".to_string(), "qwen-a".to_string(), "Mistral".to_string()]
}

#[test]
fn filtering_models_by_name() {
    assert_eq!(get_filtered_model_indices(&names(), "QWEN"), vec![0, 2]);
    assert_eq!(get_filtered_model_indices(&names(), ""), vec![0, 1, 2, 3]);
    assert_eq!(get_filtered_model_indices(&names(), "zzz"), Vec::<usize>::new());
}

#[test]
fn sorting_models() {
    assert_eq!(get_sorted_model_indices(&ModelsMode::List, &names(), "", SortOrder::ByName, &vec![]), vec![3, 0, 1, 2]);
    let ranks = vec![1u64, 3, 1, 0];
    assert_eq!(get_sorted_model_indices(&ModelsMode::List, &names(), "", SortOrder::ByRankDesc, &ranks), vec![1, 0, 2, 3]);
    assert_eq!(get_sorted_model_indices(&ModelsMode::List, &names(), "qwen", SortOrder::ByRankDesc, &ranks), vec![0, 2]);
    let mut expected: Vec<usize> = (0..names().len()).collect();
    expected.sort_by(|&a, &b| names()[a].cmp(&names()[b]));
    assert_eq!(get_sorted_model_indices(&ModelsMode::List, &names(), "", SortOrder::ByName, &vec![]), expected);
}

#[test]
fn the_sorted_list_is_empty_outside_list_mode() {
    assert_eq!(get_sorted_model_indices(&ModelsMode::BenchTune, &names(), "", SortOrder::ByName, &vec![]), Vec::<usize>::new());
    let files = ModelsMode::Files { model_id: "a/b".to_string(), selected_idx: None };
    assert_eq!(get_sorted_model_indices(&files, &names(), "qwen", SortOrder::ByName, &vec![]), Vec::<usize>::new());
}

#[test]
fn moving_through_the_sorted_list() {
    let sorted = vec![3usize, 0, 1];
    assert_eq!(move_selection(&sorted, Some(0), true), Some(3));
    assert_eq!(move_selection(&sorted, Some(3), true), None);
    assert_eq!(move_selection(&sorted, Some(0), false), Some(1));
    assert_eq!(move_selection(&sorted, Some(1), false), None);
    assert_eq!(move_selection(&sorted, Some(9), false), Some(3));
    assert_eq!(move_selection(&sorted, None, true), Some(3));
    assert_eq!(move_selection(&vec![], None, true), None);
}

#[test]
fn name_filter_keys() {
    let mut on = true;
    let mut f = String::from("qw");
    assert!(handle_local_filter_key(&mut on, &mut f, Key::plain(KeyCode::Char('e'))));
    assert_eq!(f, "qwe");
    assert!(handle_local_filter_key(&mut on, &mut f, Key::plain(KeyCode::Backspace)));
    assert_eq!(f, "qw");
    assert!(!handle_local_filter_key(&mut on, &mut f, Key::plain(KeyCode::Enter)));
    assert!(!on);
    on = true;
    assert!(handle_local_filter_key(&mut on, &mut f, Key::plain(KeyCode::Esc)));
    assert_eq!(f, "");
    assert!(!on);
}

#[test]
fn load_plans() {
    assert_eq!(decide_load(true, false, ServerStatus::Healthy, ServerMode::Normal, 0, None), (LoadPlan::WaitForBackend, false));
    assert_eq!(decide_load(false, true, ServerStatus::Healthy, ServerMode::Normal, 0, None), (LoadPlan::AlreadyLoaded, false));
    assert_eq!(decide_load(false, false, ServerStatus::NotRunning, ServerMode::Normal, 0, None), (LoadPlan::StartWithModel, false));
    assert_eq!(decide_load(false, false, ServerStatus::Unresponsive, ServerMode::Router, 0, None), (LoadPlan::StartRouter, true));
    assert_eq!(
        decide_load(false, false, ServerStatus::NotRunning, ServerMode::BenchTune, 0, None),
        (LoadPlan::OpenBenchTuneSetup, false)
    );
    assert_eq!(
        decide_load(false, false, ServerStatus::Healthy, ServerMode::Router, 2, Some(2)),
        (LoadPlan::LimitReached { active: 2, max: 2 }, false)
    );
    assert_eq!(decide_load(false, false, ServerStatus::Healthy, ServerMode::Router, 1, Some(2)), (LoadPlan::LoadViaApi, false));
}

#[test]
fn unload_plans() {
    assert_eq!(decide_unload(Some(true), true, ServerMode::Normal), UnloadPlan::Confirm);
    assert_eq!(decide_unload(Some(false), true, ServerMode::Normal), UnloadPlan::NotLoaded);
    assert_eq!(decide_unload(None, true, ServerMode::Normal), UnloadPlan::SelectLoadedModel);
    assert_eq!(decide_unload(None, false, ServerMode::Router), UnloadPlan::Nothing);
    assert_eq!(decide_unload(None, false, ServerMode::Normal), UnloadPlan::NoModelLoaded);
}

fn common() -> CommonFields {
    CommonFields {
        host: "127.0.0.1".to_string(),
        port: 8080,
        backend: "vulkan".to_string(),
        api_endpoint_enabled: false,
        api_endpoint_port: 8000,
        api_endpoint_key: None,
        llama_cpp_version_cpu: None,
        llama_cpp_version_vulkan: Some("b5000".to_string()),
        llama_cpp_version_rocm: None,
        llama_cpp_version_rocm_lemonade: None,
        llama_cpp_version_cuda: None,
        webui: true,
        cache_prompt: true,
    }
}

#[test]
fn common_settings_sync() {
    let a = common();
    let mut b = CommonFields { port: 9090, llama_cpp_version_vulkan: None, ..common() };
    assert!(common_fields_changed(&a, &b));
    sync_config_common_fields(&mut b, &a);
    assert!(!common_fields_changed(&a, &b));
    assert_eq!(b.port, 8080);
    assert_eq!(b.llama_cpp_version_vulkan.as_deref(), Some("b5000"));
}

#[test]
fn model_cache_sync_copies_common_settings() {
    let a = CommonFields { host: "0.0.0.0".to_string(), webui: false, ..common() };
    let mut cache = common();
    sync_model_cache_fields(&mut cache, &a);
    assert_eq!(cache.host, "0.0.0.0");
    assert!(!cache.webui);
    assert!(!common_fields_changed(&a, &cache));
}

#[test]
fn confirmed_dialogs() {
    assert!(matches!(execute_confirmation(ConfirmationKind::Exit, "x", &None, &known()), ConfirmOutcome::Quit));
    match execute_confirmation(ConfirmationKind::Delete, "m", &Some("/models/m.gguf".to_string()), &known()) {
        ConfirmOutcome::DeleteModel { event: Some(PendingEvent::Deletion { path }), log } => {
            assert_eq!(path, "/models/m.gguf");
            assert_eq!(log, "Deleting model m (config moved to unused)...");
        },
        _ => panic!("no deletion"),
    }
    match execute_confirmation(ConfirmationKind::DeleteBackend, "vulkan (b1)", &Some("vulkan:b1:2".to_string()), &known()) {
        ConfirmOutcome::DeleteBackend(Some(PendingEvent::BackendDeletion { backend, tag })) => {
            assert_eq!(backend, "vulkan");
            assert_eq!(tag, "b1");
        },
        _ => panic!("no backend deletion"),
    }
    assert!(matches!(
        execute_confirmation(ConfirmationKind::DeleteBackend, "x", &Some("nocolon".to_string()), &known()),
        ConfirmOutcome::DeleteBackend(None)
    ));
    assert!(matches!(execute_confirmation(ConfirmationKind::Unload, "m", &None, &known()), ConfirmOutcome::Unload(n) if n == "m"));
}

fn known() -> Vec<String> {
    vec!["cpu".to_string(), "vulkan".to_string(), "cuda".to_string()]
}

#[test]
fn deleting_a_build_of_an_unknown_backend_only_warns() {
    match execute_confirmation(ConfirmationKind::DeleteBackend, "x", &Some("metal:b9".to_string()), &known()) {
        ConfirmOutcome::UnknownBackend(slug) => assert_eq!(slug, "metal"),
        _ => panic!("expected a warning"),
    }
}

fn rect(x: u16, y: u16, width: u16, height: u16) -> Rect {
    Rect { x, y, width, height }
}

fn areas() -> ScreenAreas {
    ScreenAreas {
        expanded_log: rect(0, 1, 100, 39),
        top: rect(0, 1, 100, 24),
        top_left: rect(0, 1, 50, 24),
        top_right: rect(50, 1, 50, 24),
        models: rect(0, 1, 50, 18),
        log: rect(0, 30, 100, 10),
        log_downloads: rect(0, 33, 100, 7),
        downloads_only: rect(0, 30, 100, 7),
    }
}

fn ui() -> MouseUi {
    MouseUi {
        active_panel: ActivePanel::Models,
        left_pct: 50,
        resize_state: None,
        settings_scroll_offset: 2,
        profiles_scroll_offset: 0,
        system_prompt_presets_scroll_offset: 0,
    }
}

fn log() -> LogState {
    LogState { log_expanded: false, log_scroll_offset: 0, log_follow: false, log_total_lines: 100 }
}

#[test]
fn clicks_focus_panels() {
    let (mut l, mut u) = (log(), ui());
    handle_mouse(&mut l, &mut u, MouseKind::LeftDown, 70, 5, &areas(), false, false);
    assert_eq!(u.active_panel, ActivePanel::ServerSettings);
    handle_mouse(&mut l, &mut u, MouseKind::LeftDown, 70, 5, &areas(), false, false);
    assert_eq!(u.active_panel, ActivePanel::LlmSettings);
    handle_mouse(&mut l, &mut u, MouseKind::ScrollUp, 70, 5, &areas(), false, false);
    assert_eq!(u.settings_scroll_offset, 1);
    handle_mouse(&mut l, &mut u, MouseKind::LeftDown, 10, 5, &areas(), false, false);
    assert_eq!(u.active_panel, ActivePanel::Models);
    handle_mouse(&mut l, &mut u, MouseKind::ScrollDown, 10, 35, &areas(), false, false);
    assert_eq!(u.active_panel, ActivePanel::Log);
    assert_eq!(l.log_scroll_offset, 1);
    let fx = handle_mouse(&mut l, &mut u, MouseKind::ScrollDown, 10, 35, &areas(), true, false);
    assert_eq!(fx, vec![MouseEffect::DownloadsSelectNext]);
}

#[test]
fn dragging_the_border_resizes_by_at_most_five_points() {
    let (mut l, mut u) = (log(), ui());
    handle_mouse(&mut l, &mut u, MouseKind::LeftDown, 49, 10, &areas(), false, false);
    assert_eq!(u.resize_state, Some(ResizeState { start_x: 49, start_pct: 50, container: areas().top }));
    handle_mouse(&mut l, &mut u, MouseKind::Drag, 52, 10, &areas(), false, false);
    assert_eq!(u.left_pct, 53);
    handle_mouse(&mut l, &mut u, MouseKind::Drag, 90, 10, &areas(), false, false);
    assert_eq!(u.left_pct, 55);
    handle_mouse(&mut l, &mut u, MouseKind::Drag, 0, 10, &areas(), false, false);
    assert_eq!(u.left_pct, 45);
    handle_mouse(&mut l, &mut u, MouseKind::Drag, 47, 10, &areas(), false, false);
    assert_eq!(u.left_pct, 48);
    handle_mouse(&mut l, &mut u, MouseKind::LeftUp, 47, 10, &areas(), false, false);
    assert_eq!(u.resize_state, None);
    handle_mouse(&mut l, &mut u, MouseKind::ScrollDown, 48, 10, &areas(), false, false);
    assert_eq!(u.left_pct, 49);
}

#[test]
fn expanded_log_takes_the_mouse() {
    let mut l = log();
    l.log_expanded = true;
    let mut u = ui();
    handle_mouse(&mut l, &mut u, MouseKind::LeftDown, 70, 5, &areas(), false, false);
    assert_eq!(u.active_panel, ActivePanel::Log);
}

#[test]
fn deleting_the_last_model_moves_the_selection_back() {
    let mut models = vec![model("a.gguf"), model("b.gguf"), model("c.gguf")];
    let mut selected = Some(2);
    assert!(remove_deleted_model(&mut models, "/models/c.gguf", &mut selected));
    assert_eq!(models.len(), 2);
    assert_eq!(selected, Some(1));
}

#[test]
fn deleting_another_model_keeps_the_selection() {
    let mut models = vec![model("a.gguf"), model("b.gguf")];
    let mut selected = Some(0);
    assert!(remove_deleted_model(&mut models, "/models/b.gguf", &mut selected));
    assert_eq!(selected, Some(0));
    assert_eq!(models[0].name, "a.gguf");
    let mut none: Option<usize> = None;
    assert!(!remove_deleted_model(&mut models, "/models/x.gguf", &mut none));
    assert_eq!(models.len(), 1);
}

#[test]
fn deleting_the_only_model_clears_the_selection() {
    let mut models = vec![model("a.gguf")];
    let mut selected = Some(0);
    assert!(remove_deleted_model(&mut models, "/models/a.gguf", &mut selected));
    assert!(models.is_empty());
    assert_eq!(selected, None);
}

#[test]
fn global_settings_are_saved_only_when_they_differ() {
    let shown = common();
    let mut defaults = common();
    let mut mode = ServerMode::Normal;
    let mut router_max: u32 = 4;
    let mut cache = CommonFields { port: 1, ..common() };
    let r = sync_global_settings(&mut defaults, &mut mode, &mut router_max, &shown, ServerMode::Normal, 4, true, &mut cache);
    assert_eq!(r, GlobalSync::Unchanged);
    assert_eq!(cache.port, 1);

    let shown = CommonFields { port: 9999, ..common() };
    let r = sync_global_settings(&mut defaults, &mut mode, &mut router_max, &shown, ServerMode::Router, 2, true, &mut cache);
    assert_eq!(r, GlobalSync::Saved { with_model: true });
    assert_eq!(defaults.port, 9999);
    assert_eq!(mode, ServerMode::Router);
    assert_eq!(router_max, 2);
    assert_eq!(cache.port, 9999);

    let r = sync_global_settings(&mut defaults, &mut mode, &mut router_max, &shown, ServerMode::Normal, 2, false, &mut cache);
    assert_eq!(r, GlobalSync::Saved { with_model: false });
    assert_eq!(mode, ServerMode::Normal);
}

#[test]
fn mouse_ready_accepts_rows_and_columns_past_the_i16_range() {
    // Far below the screen: the original reads the row as a negative i16 and ignores it.
    assert!(mouse_ready(&log(), &ui(), MouseKind::LeftDown, 10, 40000, &areas(), false));
    assert!(mouse_ready(&log(), &ui(), MouseKind::ScrollDown, 40000, 40000, &areas(), false));
}

#[test]
fn mouse_ready_refuses_a_scroll_that_would_overflow_the_offset() {
    let mut l = log();
    l.log_scroll_offset = usize::MAX;
    assert!(!mouse_ready(&l, &ui(), MouseKind::ScrollDown, 10, 35, &areas(), false));
    assert!(mouse_ready(&l, &ui(), MouseKind::ScrollUp, 10, 35, &areas(), false));
}

#[test]
fn mouse_ready_refuses_a_drag_over_an_empty_container() {
    let mut u = ui();
    u.resize_state = Some(ResizeState { start_x: 50, start_pct: 50, container: rect(0, 1, 0, 24) });
    assert!(!mouse_ready(&log(), &u, MouseKind::Drag, 60, 5, &areas(), false));
    u.resize_state = Some(ResizeState { start_x: 50, start_pct: 50, container: rect(0, 1, 100, 24) });
    assert!(mouse_ready(&log(), &u, MouseKind::Drag, 60, 5, &areas(), false));
}
