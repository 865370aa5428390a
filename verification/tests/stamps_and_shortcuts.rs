use llm_manager::clock::{format_stamp, instant_from_epoch_offset, LocalFields};
use llm_manager::key_router::{apply_shortcut, open_search_input, start_search, stop_benchmark, KeyRoute, ShortcutState};
use llm_manager::keys::{Key, KeyCode};
use llm_manager::loading::LoadingTracker;
use llm_manager::overlay::GlobalMode;
use llm_manager::search::{SearchEffect, SearchResults, SearchSort};
use llm_manager::templates::jinja_entry;
use llm_manager::panel_keys::handle_tags_key;
use llm_manager::types::{ActivePanel, EditState, LoadingPhase, LogState, ModelsMode, PendingEvent};

fn fields(year: i32, month: u32, day: u32, hour: u32, minute: u32, second: u32) -> LocalFields {
    LocalFields { year, month, day, hour, minute, second, nanosecond: 0 }
}

fn chrono_text(year: i32, month: u32, day: u32, hour: u32, minute: u32, second: u32) -> String {
    chrono::NaiveDate::from_ymd_opt(year, month, day)
        .unwrap()
        .and_hms_opt(hour, minute, second)
        .unwrap()
        .format("%Y-%m-%d %H:%M:%S")
        .to_string()
}

#[test]
fn stamps_are_written_as_chrono_writes_them() {
    for (y, mo, d, h, mi, s) in [(2024, 3, 7, 9, 5, 2), (1969, 12, 31, 23, 59, 59), (999, 1, 1, 0, 0, 0), (12345, 6, 30, 12, 0, 1), (-5, 2, 28, 1, 2, 3)] {
        assert_eq!(format_stamp(&fields(y, mo, d, h, mi, s)), chrono_text(y, mo, d, h, mi, s));
    }
}

#[test]
fn stamps_have_exact_texts() {
    assert_eq!(format_stamp(&fields(2024, 3, 7, 9, 5, 2)), "2024-03-07 09:05:02");
    assert_eq!(format_stamp(&fields(999, 1, 1, 0, 0, 0)), "0999-01-01 00:00:00");
    assert_eq!(format_stamp(&fields(12345, 6, 30, 12, 0, 1)), "+12345-06-30 12:00:01");
    assert_eq!(format_stamp(&fields(-5, 2, 28, 1, 2, 3)), "-0005-02-28 01:02:03");
}

#[test]
fn a_leap_second_is_shown_as_second_sixty() {
    let mut f = fields(2016, 12, 31, 23, 59, 59);
    f.nanosecond = 1_000_000_000;
    assert_eq!(format_stamp(&f), "2016-12-31 23:59:60");
}

#[test]
fn instants_before_the_epoch_count_back() {
    assert_eq!(instant_from_epoch_offset(false, 90, 5), Some((90, 5)));
    assert_eq!(instant_from_epoch_offset(true, 90, 0), Some((-90, 0)));
    assert_eq!(instant_from_epoch_offset(true, 90, 250_000_000), Some((-91, 750_000_000)));
    assert_eq!(instant_from_epoch_offset(false, u64::MAX, 0), None);
    assert_eq!(instant_from_epoch_offset(true, 1u64 << 63, 0), Some((i64::MIN, 0)));
    assert_eq!(instant_from_epoch_offset(true, 1u64 << 63, 1), None);
}

fn shortcuts() -> ShortcutState {
    ShortcutState {
        active_panel: ActivePanel::Log,
        left_pct: 50,
        panel_help: false,
        panel_help_offset: 4,
        expert_mode: false,
        settings_selected_idx: 20,
    }
}

#[test]
fn shift_arrows_resize_the_left_panels_within_bounds() {
    let mut s = shortcuts();
    apply_shortcut(KeyRoute::GrowLeft, &mut s, 30, 10);
    assert_eq!(s.left_pct, 51);
    s.left_pct = 80;
    apply_shortcut(KeyRoute::GrowLeft, &mut s, 30, 10);
    assert_eq!(s.left_pct, 80);
    s.left_pct = 20;
    apply_shortcut(KeyRoute::ShrinkLeft, &mut s, 30, 10);
    assert_eq!(s.left_pct, 20);
    s.left_pct = 35;
    apply_shortcut(KeyRoute::ShrinkLeft, &mut s, 30, 10);
    assert_eq!(s.left_pct, 34);
}

#[test]
fn ctrl_x_flips_expert_mode_and_keeps_the_field_listed() {
    let mut s = shortcuts();
    let line = apply_shortcut(KeyRoute::ToggleExpertMode, &mut s, 30, 10);
    assert!(s.expert_mode);
    assert_eq!(s.settings_selected_idx, 20);
    assert_eq!(line.as_deref(), Some("Expert mode: ENABLED"));
    let line = apply_shortcut(KeyRoute::ToggleExpertMode, &mut s, 30, 10);
    assert!(!s.expert_mode);
    assert_eq!(s.settings_selected_idx, 9);
    assert_eq!(line.as_deref(), Some("Expert mode: DISABLED"));
}

#[test]
fn panel_help_opens_at_the_top_and_scrolls() {
    let mut s = shortcuts();
    assert_eq!(apply_shortcut(KeyRoute::TogglePanelHelp, &mut s, 30, 10), None);
    assert!(s.panel_help);
    assert_eq!(s.panel_help_offset, 0);
    apply_shortcut(KeyRoute::HelpUp, &mut s, 30, 10);
    assert_eq!(s.panel_help_offset, 0);
    apply_shortcut(KeyRoute::HelpDown, &mut s, 30, 10);
    assert_eq!(s.panel_help_offset, 1);
    apply_shortcut(KeyRoute::CloseHelp, &mut s, 30, 10);
    assert!(!s.panel_help);
    apply_shortcut(KeyRoute::FocusModels, &mut s, 30, 10);
    assert_eq!(s.active_panel, ActivePanel::Models);
    let before = s;
    apply_shortcut(KeyRoute::OpenAbout, &mut s, 30, 10);
    assert_eq!(s, before);
}

#[test]
fn slash_opens_the_search_box_on_the_last_text() {
    match open_search_input(&Some("qwén".to_string())) {
        GlobalMode::SearchInput { buffer, cursor_pos } => {
            assert_eq!(buffer, "qwén");
            assert_eq!(cursor_pos, 4);
        },
        _ => panic!("expected the search box"),
    }
    assert!(matches!(open_search_input(&None), GlobalMode::SearchInput { cursor_pos: 0, .. }));
}

#[test]
fn slash_elsewhere_starts_a_new_search() {
    let mut models_mode = ModelsMode::List;
    let mut mode = GlobalMode::Normal;
    let mut active = ActivePanel::Log;
    let mut input = Some("old".to_string());
    let mut log = LogState { log_expanded: true, log_scroll_offset: 3, log_follow: false, log_total_lines: 9 };
    let mut vis: u8 = 0b111111;
    start_search(&mut models_mode, &mut mode, &mut active, &mut input, &mut log, &mut vis);
    match models_mode {
        ModelsMode::Search { results, show_readme } => {
            assert!(show_readme);
            assert_eq!(results.query, "");
            assert_eq!(results.sort_by, SearchSort::Relevance);
            assert_eq!(results.selected, Some(0));
            assert!(results.has_more);
        },
        _ => panic!("expected the search view"),
    }
    assert!(matches!(mode, GlobalMode::SearchInput { cursor_pos: 0, .. }));
    assert_eq!(active, ActivePanel::Models);
    assert_eq!(input, None);
    assert!(!log.log_expanded);
    assert_eq!(log.log_scroll_offset, 3);
    assert_eq!(vis, 0b001111);
}

fn caps(groups: &[Option<&str>]) -> Option<Vec<Option<String>>> {
    Some(groups.iter().map(|g| g.map(|t| t.to_string())).collect())
}

#[test]
fn phase_matches_are_recorded_from_the_pattern_results() {
    let mut t = LoadingTracker::new();
    let u = t.apply_phase_matches(true, false, false, false, false);
    assert!(u.phase_changed);
    assert!(!u.clears_error);
    assert_eq!(t.last_active_phase, Some(LoadingPhase::ServerStarting));
    let u = t.apply_phase_matches(true, true, true, false, false);
    assert!(u.clears_error);
    assert_eq!(t.last_active_phase, Some(LoadingPhase::LoadingMeta));
    assert!(t.phases.contains(LoadingPhase::LoadingModel));
    assert_eq!(t.phases.len(), 3);
}

#[test]
fn detail_captures_set_the_counts() {
    let mut t = LoadingTracker::new();
    t.apply_phase_matches(false, false, false, true, false);
    t.apply_detail_captures("x", &caps(&[Some("loading tensor 12 of 345"), Some("12"), Some("345")]), &None, &None);
    assert_eq!(t.load_progress.tensors_loaded, 12);
    assert_eq!(t.load_progress.tensors_total, Some(345));
    t.apply_detail_captures("..", &None, &caps(&[Some("offloading 32"), Some("32")]), &caps(&[Some("offloaded 8/33 layers"), Some("8"), Some("33")]));
    assert_eq!(t.load_progress.layers_loaded, Some(8));
    assert_eq!(t.load_progress.layers_total, Some(33));
    assert_eq!(t.load_progress.tensors_loaded, 12);
}

#[test]
fn detail_captures_are_ignored_before_tensors_load() {
    let mut t = LoadingTracker::new();
    t.apply_detail_captures("x", &caps(&[Some("t"), Some("12"), Some("345")]), &None, &None);
    assert_eq!(t.load_progress.tensors_loaded, 0);
    assert_eq!(t.load_progress.tensors_total, None);
}

#[test]
fn paging_offsets_read_the_page_as_u32() {
    let mut r = SearchResults::start();
    r.selected = None;
    r.page = (1usize << 32) + 3;
    let mut vis = 0u8;
    assert_eq!(r.handle_search_key(Key::with_ctrl(KeyCode::Char('B')), true, &mut vis), SearchEffect::LoadPage { offset: 100 });
    assert_eq!(r.page, (1usize << 32) + 2);
}

#[test]
fn template_entries_name_files_below_the_directory() {
    assert_eq!(
        jinja_entry("/t", "/t", "/t/chat.jinja", "chat.jinja", '/'),
        Some(("chat.jinja".to_string(), "/t/chat.jinja".to_string()))
    );
    assert_eq!(
        jinja_entry("/t", "/t/qwen", "/t/qwen/a.jinja", "a.jinja", '/'),
        Some(("qwen/a.jinja".to_string(), "/t/qwen/a.jinja".to_string()))
    );
    assert_eq!(
        jinja_entry("C:\\t", "C:\\t\\qwen", "C:\\t\\qwen\\a.jinja", "a.jinja", '\\'),
        Some(("qwen/a.jinja".to_string(), "C:\\t\\qwen\\a.jinja".to_string()))
    );
    assert_eq!(jinja_entry("/t", "/t", "/t/.jinja", ".jinja", '/'), None);
    assert_eq!(jinja_entry("/t", "/t", "/t/notes.txt", "notes.txt", '/'), None);
}

#[test]
fn esc_during_a_benchmark_gives_up_the_server_and_kills_it() {
    let mut held = true;
    let (event, message) = stop_benchmark(&mut held);
    assert!(!held);
    assert!(matches!(event, PendingEvent::KillHandle));
    assert_eq!(message, "log.stopping_benchmark");
}

#[test]
fn the_tags_editor_leaves_the_other_editors_alone() {
    let mut e = EditState {
        edit_cursor_pos: 3,
        editing_n_predict: true,
        n_predict_edit_buffer: "128".to_string(),
        editing_iters: false,
        iters_edit_buffer: "5".to_string(),
        tags_editing: true,
        tags_edit_buffer: String::new(),
        tags_selected_idx: None,
        tags_insert_mode: true,
        editing_preset: Some(1),
    };
    let mut tags = vec!["a".to_string()];
    let mut settings_buffer = "x".to_string();
    handle_tags_key(&mut e, &mut tags, &mut settings_buffer, Key::plain(KeyCode::Char('b')));
    assert_eq!(e.tags_edit_buffer, "b");
    assert!(e.editing_n_predict);
    assert_eq!(e.n_predict_edit_buffer, "128");
    assert!(!e.editing_iters);
    assert_eq!(e.iters_edit_buffer, "5");
    assert_eq!(e.edit_cursor_pos, 3);
    assert_eq!(e.editing_preset, Some(1));
}
