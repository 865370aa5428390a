use llm_manager::keys::{Key, KeyCode};
use llm_manager::overlay::editors::SearchInputHandler;
use llm_manager::overlay::pickers::{BackendPickerHandler, HostPickerHandler};
use llm_manager::overlay::registry::OverlayRegistry;
use llm_manager::overlay::servers::{LlamaServerPickerHandler, WebSearchPickerHandler};
use llm_manager::overlay::simple::{
    dashboard_urls, AboutHandler, BenchTuneSetupHandler, CmdLineHandler, ConfirmationHandler, GgufNamingHandler,
    MaxConcurrentPickerHandler, OnboardingHandler, RpcManagerHandler,
};
use llm_manager::overlay::{Action, GlobalMode, OverlayContext, WebSearchCheckStatus};
use llm_manager::types::ConfirmationKind;

fn key(code: KeyCode) -> Key {
    Key::plain(code)
}

fn ctx() -> OverlayContext {
    OverlayContext {
        rope_yarn_enabled: false,
        threads: 8,
        threads_batch: 4,
        server_mode_index: Some(1),
        server_mode_count: 4,
        selected_preset_content: None,
        user_preset_count: 0,
    }
}

#[test]
fn about_closes_on_esc_only() {
    let mut m = GlobalMode::About;
    assert!(AboutHandler.handle(&mut m, key(KeyCode::Char('x'))).is_empty());
    assert!(matches!(m, GlobalMode::About));
    AboutHandler.handle(&mut m, key(KeyCode::Esc));
    assert!(matches!(m, GlobalMode::Normal));
    assert_eq!(AboutHandler.name(), "About");
}

#[test]
fn cmd_line_exports_a_script() {
    let mut m = GlobalMode::CmdLine { cmd_line: "llama-server -m x.gguf".to_string() };
    let acts = CmdLineHandler.handle(&mut m, key(KeyCode::Char('e')));
    assert_eq!(acts.len(), 1);
    match &acts[0] {
        Action::ExportCommandScript(s) => {
            assert_eq!(s, "#!/bin/bash\n# Exported from llm-manager\n\nllama-server -m x.gguf\n");
        },
        _ => panic!("expected an export"),
    }
    CmdLineHandler.handle(&mut m, key(KeyCode::Esc));
    assert!(matches!(m, GlobalMode::Normal));
}

#[test]
fn confirmation_yes_confirms_and_closes() {
    let mut m = GlobalMode::Confirmation {
        selected: false,
        kind: ConfirmationKind::Exit,
        display_name: "x".to_string(),
        detail: None,
    };
    let acts = ConfirmationHandler.handle(&mut m, key(KeyCode::Char('y')));
    assert!(matches!(m, GlobalMode::Normal));
    assert!(matches!(&acts[..], [Action::Confirm { kind: ConfirmationKind::Exit, .. }]));
}

#[test]
fn confirmation_enter_on_no_cancels() {
    let mut m = GlobalMode::Confirmation {
        selected: false,
        kind: ConfirmationKind::Unload,
        display_name: "m".to_string(),
        detail: None,
    };
    let acts = ConfirmationHandler.handle(&mut m, key(KeyCode::Enter));
    assert!(matches!(m, GlobalMode::Normal));
    assert!(matches!(&acts[..], [Action::ClearPendingUnload]));
}

#[test]
fn confirmation_tab_twice_gives_the_dialog_back() {
    let mut m = GlobalMode::Confirmation {
        selected: false,
        kind: ConfirmationKind::Reset,
        display_name: "m".to_string(),
        detail: None,
    };
    assert!(ConfirmationHandler.handle(&mut m, key(KeyCode::Tab)).is_empty());
    assert!(matches!(m, GlobalMode::Confirmation { selected: true, .. }));
    ConfirmationHandler.handle(&mut m, key(KeyCode::Tab));
    assert!(matches!(m, GlobalMode::Confirmation { selected: false, .. }));
}

#[test]
fn backend_deletion_reopens_the_picker_at_the_kept_position() {
    let mut m = GlobalMode::Confirmation {
        selected: true,
        kind: ConfirmationKind::DeleteBackend,
        display_name: "vulkan (b1)".to_string(),
        detail: Some("vulkan:b1:3".to_string()),
    };
    let acts = ConfirmationHandler.handle(&mut m, key(KeyCode::Enter));
    assert!(matches!(
        &acts[..],
        [Action::Confirm { kind: ConfirmationKind::DeleteBackend, .. }, Action::ReopenBackendPicker { selected_hint: Some(3) }]
    ));
}

#[test]
fn max_concurrent_takes_three_digits_and_clamps() {
    let mut m = GlobalMode::MaxConcurrentPicker { value: String::new() };
    for c in ['4', 'x', '2', '7', '9'] {
        MaxConcurrentPickerHandler.handle(&mut m, key(KeyCode::Char(c)));
    }
    match &m {
        GlobalMode::MaxConcurrentPicker { value } => assert_eq!(value, "427"),
        _ => panic!("picker closed"),
    }
    let acts = MaxConcurrentPickerHandler.handle(&mut m, key(KeyCode::Enter));
    assert!(matches!(m, GlobalMode::Normal));
    assert!(matches!(
        &acts[..],
        [
            Action::SetMaxConcurrent(10),
            Action::SyncGlobalSettings,
            Action::MarkSettingsDirty(true),
            Action::MarkSettingsDirty(false)
        ]
    ));
}

#[test]
fn max_concurrent_zero_becomes_one() {
    let mut m = GlobalMode::MaxConcurrentPicker { value: "0".to_string() };
    let acts = MaxConcurrentPickerHandler.handle(&mut m, key(KeyCode::Enter));
    assert!(matches!(acts[0], Action::SetMaxConcurrent(1)));
}

#[test]
fn max_concurrent_empty_value_only_refreshes() {
    let mut m = GlobalMode::MaxConcurrentPicker { value: String::new() };
    let acts = MaxConcurrentPickerHandler.handle(&mut m, key(KeyCode::Enter));
    assert!(matches!(&acts[..], [Action::MarkSettingsDirty(false)]));
}

#[test]
fn onboarding_walks_forward_and_finishes() {
    let mut m = GlobalMode::Onboarding { step: 0 };
    OnboardingHandler.handle(&mut m, key(KeyCode::Left));
    assert!(matches!(m, GlobalMode::Onboarding { step: 0 }));
    for _ in 0..7 {
        assert!(OnboardingHandler.handle(&mut m, key(KeyCode::Enter)).is_empty());
    }
    assert!(matches!(m, GlobalMode::Onboarding { step: 7 }));
    let acts = OnboardingHandler.handle(&mut m, key(KeyCode::Right));
    assert!(matches!(m, GlobalMode::Normal));
    assert!(matches!(&acts[..], [Action::CompleteOnboarding]));
}

#[test]
fn gguf_naming_closes_on_enter() {
    let mut m = GlobalMode::GgufNaming { filename: "a.gguf".to_string() };
    GgufNamingHandler.handle(&mut m, key(KeyCode::Enter));
    assert!(matches!(m, GlobalMode::Normal));
}

#[test]
fn dashboard_addresses() {
    assert_eq!(
        dashboard_urls("192.168.1.2", "myhost", "8765", "8080", "8081", "", false),
        "http://192.168.1.2:8080\nhttp://192.168.1.2:8081\nhttp://myhost:8765/dashboard"
    );
    assert_eq!(
        dashboard_urls("h", "h", "1", "2", "3", "k3y", true),
        "https://h:2\nhttp://h:3\nhttps://h:1/dashboard?auth=k3y"
    );
}

#[test]
fn host_picker_selects_a_host() {
    let mut m = GlobalMode::HostPicker {
        entries: vec![("127.0.0.1".to_string(), "lo".to_string()), ("10.0.0.2".to_string(), "eth0".to_string())],
        selected: 0,
    };
    HostPickerHandler.handle(&mut m, key(KeyCode::Down));
    HostPickerHandler.handle(&mut m, key(KeyCode::Down));
    assert!(matches!(m, GlobalMode::HostPicker { selected: 1, .. }));
    let acts = HostPickerHandler.handle(&mut m, key(KeyCode::Enter));
    assert!(matches!(m, GlobalMode::Normal));
    match &acts[..] {
        [Action::SetHost(h), Action::SyncGlobalSettings] => assert_eq!(h, "10.0.0.2"),
        _ => panic!("unexpected actions"),
    }
}

#[test]
fn backend_picker_asks_before_deleting_a_build() {
    let mut m = GlobalMode::BackendPicker {
        entries: vec![("cpu".to_string(), None), ("vulkan".to_string(), Some("b5000".to_string()))],
        selected: 1,
    };
    assert!(BackendPickerHandler.handle(&mut m, key(KeyCode::Char('d'))).is_empty());
    match &m {
        GlobalMode::Confirmation { kind, display_name, detail, selected } => {
            assert_eq!(*kind, ConfirmationKind::DeleteBackend);
            assert_eq!(display_name, "vulkan (b5000)");
            assert_eq!(detail.as_deref(), Some("vulkan:b5000"));
            assert!(!selected);
        },
        _ => panic!("no confirmation"),
    }
}

#[test]
fn search_input_edits_and_submits() {
    let mut m = GlobalMode::SearchInput { buffer: String::new(), cursor_pos: 0 };
    for c in "qwen".chars() {
        SearchInputHandler.handle(&mut m, key(KeyCode::Char(c)));
    }
    SearchInputHandler.handle(&mut m, key(KeyCode::Backspace));
    let acts = SearchInputHandler.handle(&mut m, key(KeyCode::Enter));
    assert!(matches!(m, GlobalMode::Normal));
    match &acts[..] {
        [Action::SubmitSearch(q)] => assert_eq!(q, "qwe"),
        _ => panic!("no search"),
    }
}

fn web_search(selected_field: i32, enabled: bool, url: &str) -> GlobalMode {
    GlobalMode::WebSearchPicker {
        enabled,
        engine: "searxng".to_string(),
        engine_url: url.to_string(),
        api_key: None,
        selected_field,
        engine_picker_selected: 0,
        editing: false,
        edit_buffer: String::new(),
        edit_cursor_pos: 0,
        check_status: None,
    }
}

#[test]
fn enabling_web_search_starts_a_check() {
    let mut m = web_search(-1, false, "http://localhost:8888");
    let acts = WebSearchPickerHandler.handle(&mut m, key(KeyCode::Enter));
    assert!(matches!(
        &acts[..],
        [
            Action::SetWebSearchEnabled(true),
            Action::RequestRedraw,
            Action::StartWebSearchCheck { .. },
            Action::SyncGlobalSettings
        ]
    ));
    assert!(matches!(m, GlobalMode::WebSearchPicker { enabled: true, check_status: Some(WebSearchCheckStatus::Checking), .. }));
}

#[test]
fn enabling_web_search_without_address_checks_nothing() {
    let mut m = web_search(-1, false, "");
    let acts = WebSearchPickerHandler.handle(&mut m, key(KeyCode::Enter));
    assert!(matches!(&acts[..], [Action::SetWebSearchEnabled(true), Action::SyncGlobalSettings]));
    assert!(matches!(m, GlobalMode::WebSearchPicker { check_status: None, .. }));
}

#[test]
fn web_search_address_is_edited_and_committed() {
    let mut m = web_search(1, true, "http://a");
    WebSearchPickerHandler.handle(&mut m, key(KeyCode::Enter));
    assert!(matches!(m, GlobalMode::WebSearchPicker { editing: true, edit_cursor_pos: 8, .. }));
    WebSearchPickerHandler.handle(&mut m, key(KeyCode::Char('b')));
    let acts = WebSearchPickerHandler.handle(&mut m, key(KeyCode::Enter));
    match &acts[..] {
        [Action::SetWebSearchEngineUrl(u), Action::SyncGlobalSettings] => assert_eq!(u, "http://ab"),
        _ => panic!("unexpected actions"),
    }
}

#[test]
fn web_search_fields_wrap_around() {
    let mut m = web_search(-1, true, "");
    WebSearchPickerHandler.handle(&mut m, key(KeyCode::Up));
    assert!(matches!(m, GlobalMode::WebSearchPicker { selected_field: 2, .. }));
    WebSearchPickerHandler.handle(&mut m, key(KeyCode::Down));
    assert!(matches!(m, GlobalMode::WebSearchPicker { selected_field: -1, .. }));
}

#[test]
fn web_search_engine_list_picks_searxng() {
    let mut m = web_search(0, true, "");
    WebSearchPickerHandler.handle(&mut m, key(KeyCode::Enter));
    assert!(matches!(m, GlobalMode::WebSearchPicker { selected_field: -2, .. }));
    let acts = WebSearchPickerHandler.handle(&mut m, key(KeyCode::Char(' ')));
    assert!(matches!(m, GlobalMode::WebSearchPicker { selected_field: 0, .. }));
    match &acts[..] {
        [Action::SetWebSearchEngine(e)] => assert_eq!(e, "searxng"),
        _ => panic!("unexpected actions"),
    }
}

fn llama(selected_field: i32) -> GlobalMode {
    GlobalMode::LlamaServerOptionsPicker {
        port: "8080".to_string(),
        threads: 8,
        threads_batch: 4,
        log_level: "info".to_string(),
        selected_field,
        mode_picker_selected: 0,
        editing: false,
        edit_buffer: String::new(),
        edit_cursor_pos: 0,
    }
}

#[test]
fn llama_server_log_level_cycles() {
    let mut m = llama(3);
    let acts = LlamaServerPickerHandler.handle(&mut m, key(KeyCode::Enter), &ctx());
    match &acts[..] {
        [Action::SetLogLevel(l)] => assert_eq!(l, "trace"),
        _ => panic!("unexpected actions"),
    }
    let mut m = GlobalMode::LlamaServerOptionsPicker {
        port: "8080".to_string(),
        threads: 8,
        threads_batch: 4,
        log_level: "debug".to_string(),
        selected_field: 3,
        mode_picker_selected: 0,
        editing: false,
        edit_buffer: String::new(),
        edit_cursor_pos: 0,
    };
    LlamaServerPickerHandler.handle(&mut m, key(KeyCode::Enter), &ctx());
    match &m {
        GlobalMode::LlamaServerOptionsPicker { log_level, .. } => assert_eq!(log_level, "error"),
        _ => panic!("closed"),
    }
}

#[test]
fn llama_server_threads_are_edited_at_least_one() {
    let mut m = llama(0);
    LlamaServerPickerHandler.handle(&mut m, key(KeyCode::Enter), &ctx());
    match &m {
        GlobalMode::LlamaServerOptionsPicker { edit_buffer, editing, edit_cursor_pos, .. } => {
            assert_eq!(edit_buffer, "8");
            assert!(*editing);
            assert_eq!(*edit_cursor_pos, 1);
        },
        _ => panic!("closed"),
    }
    LlamaServerPickerHandler.handle(&mut m, key(KeyCode::Backspace), &ctx());
    LlamaServerPickerHandler.handle(&mut m, key(KeyCode::Char('0')), &ctx());
    let acts = LlamaServerPickerHandler.handle(&mut m, key(KeyCode::Enter), &ctx());
    assert!(matches!(&acts[..], [Action::SetThreads(1), Action::SyncGlobalSettings]));
}

#[test]
fn llama_server_mode_moves_left_with_wrap() {
    let mut m = llama(2);
    let acts = LlamaServerPickerHandler.handle(&mut m, key(KeyCode::Left), &ctx());
    assert!(matches!(&acts[..], [Action::SetServerMode(3), Action::SyncGlobalSettings]));
    let acts = LlamaServerPickerHandler.handle(&mut m, key(KeyCode::Char('l')), &ctx());
    assert!(matches!(&acts[..], [Action::SetServerMode(0), Action::SyncGlobalSettings]));
}

#[test]
fn forwarding_overlays_hand_their_keys_on() {
    let mut m = GlobalMode::RpcManager;
    let acts = RpcManagerHandler.handle(&mut m, key(KeyCode::Char('n')));
    assert!(matches!(&acts[..], [Action::RpcWorkersKey(k)] if k.code == KeyCode::Char('n')));
    assert!(BenchTuneSetupHandler.handle(&mut m, key(KeyCode::Esc)).is_empty());
}

#[test]
fn registry_dispatches_to_the_overlay_shown() {
    let reg = OverlayRegistry::new();
    let mut m = GlobalMode::About;
    assert!(reg.dispatch(&mut m, key(KeyCode::Esc), &ctx()).is_some());
    assert!(matches!(m, GlobalMode::Normal));
    assert!(reg.dispatch(&mut m, key(KeyCode::Esc), &ctx()).is_none());
    let mut lm = llama(0);
    assert!(reg.dispatch(&mut lm, key(KeyCode::Esc), &ctx()).is_none());
    assert!(matches!(lm, GlobalMode::LlamaServerOptionsPicker { .. }));
}
