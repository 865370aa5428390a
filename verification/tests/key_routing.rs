use llm_manager::key_router::{apply_quit_route, cycle_language, handle_key, DownloadStatusKind, KeyContext, KeyRoute, ModelsModeKind};
use llm_manager::keys::{Key, KeyCode};
use llm_manager::overlay::GlobalMode;
use llm_manager::types::{ActivePanel, ConfirmationKind};

fn idle() -> KeyContext {
    KeyContext {
        global_mode_normal: true,
        overlay_handled: false,
        models_mode: ModelsModeKind::List,
        active_panel: ActivePanel::Models,
        tags_editing: false,
        download_count: 0,
        download_selected: None,
        selected_download_status: DownloadStatusKind::Other,
        loaded_count: 0,
        log_expanded: false,
        filtering_local: false,
        stoppable_benchmark: false,
        bench_output_open: false,
        panel_help: false,
    }
}

#[test]
fn ctrl_c_quits_when_nothing_is_loaded() {
    assert_eq!(handle_key(&idle(), Key::with_ctrl(KeyCode::Char('c'))), KeyRoute::Quit);
}

#[test]
fn ctrl_c_asks_when_a_model_is_loaded() {
    let mut cx = idle();
    cx.loaded_count = 2;
    assert_eq!(handle_key(&cx, Key::with_ctrl(KeyCode::Char('c'))), KeyRoute::ConfirmExit);
}

#[test]
fn overlay_takes_plain_keys_but_not_global_shortcuts() {
    let mut cx = idle();
    cx.global_mode_normal = false;
    cx.overlay_handled = true;
    assert_eq!(handle_key(&cx, Key::plain(KeyCode::Char('q'))), KeyRoute::Overlay);
    assert_eq!(handle_key(&cx, Key::plain(KeyCode::Esc)), KeyRoute::Overlay);
    assert_eq!(handle_key(&cx, Key::with_ctrl(KeyCode::Char('l'))), KeyRoute::CycleLanguage);
    assert_eq!(handle_key(&cx, Key::with_ctrl(KeyCode::Char('u'))), KeyRoute::OpenDashboardUrl);
}

#[test]
fn p_pauses_or_resumes_the_selected_download() {
    let mut cx = idle();
    cx.download_count = 3;
    cx.download_selected = Some(1);
    cx.selected_download_status = DownloadStatusKind::Downloading;
    assert_eq!(handle_key(&cx, Key::plain(KeyCode::Char('p'))), KeyRoute::PauseDownload(1));
    cx.selected_download_status = DownloadStatusKind::Paused;
    assert_eq!(handle_key(&cx, Key::plain(KeyCode::Char('p'))), KeyRoute::ResumeDownload(1));
    cx.selected_download_status = DownloadStatusKind::Other;
    assert_eq!(handle_key(&cx, Key::plain(KeyCode::Char('p'))), KeyRoute::DownloadUnchanged);
}

#[test]
fn alt_c_cancels_the_selected_download() {
    let mut cx = idle();
    cx.download_count = 2;
    cx.download_selected = Some(1);
    let key = Key { code: KeyCode::Char('c'), ctrl: false, alt: true, shift: false };
    assert_eq!(handle_key(&cx, key), KeyRoute::CancelDownload(1));
    cx.download_count = 0;
    cx.download_selected = None;
    assert_eq!(handle_key(&cx, key), KeyRoute::ModelsKey);
}

#[test]
fn tab_and_shift_tab_move_focus() {
    let cx = idle();
    assert_eq!(handle_key(&cx, Key::plain(KeyCode::Tab)), KeyRoute::FocusNext);
    // A terminal's BackTab is no Tab: it goes on to the focused panel.
    assert_eq!(handle_key(&cx, Key::plain(KeyCode::BackTab)), KeyRoute::ModelsKey);
    let shifted = Key { code: KeyCode::Tab, ctrl: false, alt: false, shift: true };
    assert_eq!(handle_key(&cx, shifted), KeyRoute::FocusPrev);
}

#[test]
fn function_keys_toggle_and_show_panels() {
    let cx = idle();
    assert_eq!(handle_key(&cx, Key::plain(KeyCode::F(1))), KeyRoute::FocusModels);
    assert_eq!(
        handle_key(&cx, Key::plain(KeyCode::F(2))),
        KeyRoute::FkeyToggle { index: 1, target: Some(ActivePanel::ServerSettings), require_no_server: true }
    );
    assert_eq!(
        handle_key(&cx, Key::plain(KeyCode::F(5))),
        KeyRoute::FkeyToggle { index: 4, target: None, require_no_server: false }
    );
    assert_eq!(
        handle_key(&cx, Key::with_ctrl(KeyCode::F(9))),
        KeyRoute::FkeyShow { index: 3, panel: ActivePanel::LlmSettings, require_no_server: false }
    );
    assert_eq!(handle_key(&cx, Key::plain(KeyCode::F(9))), KeyRoute::ShowAllPanels);
    assert_eq!(handle_key(&cx, Key::plain(KeyCode::F(10))), KeyRoute::ShowAllPanels);
}

#[test]
fn ctrl_k_shows_command_line_and_ctrl_alt_k_kills() {
    let cx = idle();
    assert_eq!(handle_key(&cx, Key::with_ctrl(KeyCode::Char('k'))), KeyRoute::ShowCommandLine);
    let kill = Key { code: KeyCode::Char('k'), ctrl: true, alt: true, shift: false };
    assert_eq!(handle_key(&cx, kill), KeyRoute::KillServer);
}

#[test]
fn escape_collapses_log_before_stopping_benchmark() {
    let mut cx = idle();
    cx.log_expanded = true;
    cx.stoppable_benchmark = true;
    assert_eq!(handle_key(&cx, Key::plain(KeyCode::Esc)), KeyRoute::CollapseLog);
    cx.log_expanded = false;
    assert_eq!(handle_key(&cx, Key::plain(KeyCode::Esc)), KeyRoute::StopBenchmark);
}

#[test]
fn ctrl_s_depends_on_models_mode() {
    let mut cx = idle();
    assert_eq!(handle_key(&cx, Key::with_ctrl(KeyCode::Char('s'))), KeyRoute::CycleListSortAndSave);
    cx.models_mode = ModelsModeKind::BenchTune;
    cx.active_panel = ActivePanel::Log;
    assert_eq!(handle_key(&cx, Key::with_ctrl(KeyCode::Char('s'))), KeyRoute::BenchTuneKey);
}

#[test]
fn search_mode_takes_keys_unless_readme_is_focused() {
    let mut cx = idle();
    cx.models_mode = ModelsModeKind::Search;
    assert_eq!(handle_key(&cx, Key::plain(KeyCode::Char('j'))), KeyRoute::SearchKey);
    cx.active_panel = ActivePanel::SearchReadme;
    assert_eq!(handle_key(&cx, Key::plain(KeyCode::Char('j'))), KeyRoute::ReadmeKey);
    assert_eq!(handle_key(&cx, Key::plain(KeyCode::Enter)), KeyRoute::SearchKey);
}

#[test]
fn focused_panel_gets_the_rest() {
    let mut cx = idle();
    cx.active_panel = ActivePanel::Downloads;
    assert_eq!(handle_key(&cx, Key::plain(KeyCode::Char('j'))), KeyRoute::DownloadsKey);
    cx.active_panel = ActivePanel::ModelInfo;
    assert_eq!(handle_key(&cx, Key::plain(KeyCode::Char('j'))), KeyRoute::Nothing);
    cx.active_panel = ActivePanel::ServerSettings;
    assert_eq!(handle_key(&cx, Key::plain(KeyCode::Char('j'))), KeyRoute::ServerSettingsKey);
}

#[test]
fn panel_help_scrolls_and_closes() {
    let mut cx = idle();
    cx.panel_help = true;
    assert_eq!(handle_key(&cx, Key::plain(KeyCode::Esc)), KeyRoute::CloseHelp);
    assert_eq!(handle_key(&cx, Key::plain(KeyCode::Down)), KeyRoute::HelpDown);
    assert_eq!(handle_key(&cx, Key::plain(KeyCode::Char('k'))), KeyRoute::HelpUp);
    assert_eq!(handle_key(&cx, Key::plain(KeyCode::Char('x'))), KeyRoute::Nothing);
}

#[test]
fn t_opens_tags_in_settings() {
    let mut cx = idle();
    cx.active_panel = ActivePanel::LlmSettings;
    assert_eq!(handle_key(&cx, Key::plain(KeyCode::Char('t'))), KeyRoute::OpenTags);
    cx.tags_editing = true;
    assert_eq!(handle_key(&cx, Key::plain(KeyCode::Char('t'))), KeyRoute::TagsKey);
}

#[test]
fn language_cycles_through_three() {
    assert_eq!(cycle_language("fr"), "it");
    assert_eq!(cycle_language("it"), "en");
    assert_eq!(cycle_language("en"), "fr");
    assert_eq!(cycle_language("de"), "fr");
    assert_eq!(cycle_language(cycle_language(cycle_language("it"))), "it");
}

#[test]
fn ctrl_c_with_a_model_loaded_opens_the_exit_dialog_and_keeps_running() {
    let mut cx = idle();
    cx.loaded_count = 1;
    let route = handle_key(&cx, Key::with_ctrl(KeyCode::Char('c')));
    let mut mode = GlobalMode::Normal;
    let mut running = true;
    apply_quit_route(route, &mut mode, &mut running);
    assert!(running);
    match mode {
        GlobalMode::Confirmation { selected, kind, display_name, detail } => {
            assert!(!selected);
            assert_eq!(kind, ConfirmationKind::Exit);
            assert_eq!(display_name, "");
            assert_eq!(detail, None);
        },
        _ => panic!("expected the exit confirmation"),
    }
}

#[test]
fn ctrl_c_with_nothing_loaded_stops_the_program() {
    let route = handle_key(&idle(), Key::with_ctrl(KeyCode::Char('c')));
    let mut mode = GlobalMode::Normal;
    let mut running = true;
    apply_quit_route(route, &mut mode, &mut running);
    assert!(!running);
    assert!(matches!(mode, GlobalMode::Normal));
}

#[test]
fn other_routes_leave_mode_and_running_alone() {
    let mut mode = GlobalMode::Normal;
    let mut running = true;
    apply_quit_route(KeyRoute::FocusNext, &mut mode, &mut running);
    assert!(running);
    assert!(matches!(mode, GlobalMode::Normal));
}
