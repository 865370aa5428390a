use llm_manager::mouse::{handle_mouse, MouseKind, MouseUi, Rect};
use llm_manager::screen_layout::{screen_areas, screen_constraints, LayoutConstraint};
use llm_manager::types::{ActivePanel, LogState};

fn ui() -> MouseUi {
    MouseUi {
        active_panel: ActivePanel::Models,
        left_pct: 50,
        resize_state: None,
        settings_scroll_offset: 0,
        profiles_scroll_offset: 0,
        system_prompt_presets_scroll_offset: 0,
    }
}

fn log() -> LogState {
    LogState { log_expanded: false, log_scroll_offset: 0, log_follow: false, log_total_lines: 10 }
}

#[test]
fn the_screen_is_split_into_panels() {
    let a = screen_areas(Rect { x: 0, y: 0, width: 100, height: 40 }, 50, 5);
    assert_eq!(a.top.y, 1);
    assert_eq!((a.top.x, a.top.width), (0, 100));
    assert_eq!(a.top_left.x, 0);
    assert_eq!(a.top_left.width + a.top_right.width, 100);
    assert_eq!(a.top_right.x, a.top_left.width);
    assert_eq!(a.top.height + 1 + 5 + a.log.height, 40);
    assert!(a.log.height >= 5);
    assert_eq!(a.expanded_log, Rect { x: 0, y: 1, width: 100, height: 39 });
    assert_eq!(a.downloads_only.y, a.log.y);
    assert_eq!(a.models.y, a.top.y);
}

#[test]
fn the_split_follows_the_left_share_within_bounds() {
    let wide = screen_areas(Rect { x: 0, y: 0, width: 100, height: 40 }, 95, 5);
    assert_eq!(wide.top_left.width, 80);
    let narrow = screen_areas(Rect { x: 0, y: 0, width: 100, height: 40 }, 5, 5);
    assert_eq!(narrow.top_left.width, 20);
}

#[test]
fn clicks_on_computed_areas_focus_panels() {
    let a = screen_areas(Rect { x: 0, y: 0, width: 100, height: 40 }, 50, 5);
    let (mut l, mut u) = (log(), ui());
    handle_mouse(&mut l, &mut u, MouseKind::LeftDown, 80, 3, &a, false, false);
    assert_eq!(u.active_panel, ActivePanel::ServerSettings);
    handle_mouse(&mut l, &mut u, MouseKind::LeftDown, 10, 39, &a, false, false);
    assert_eq!(u.active_panel, ActivePanel::Log);
}

#[test]
fn far_rows_and_columns_are_handled() {
    let a = screen_areas(Rect { x: 0, y: 0, width: 100, height: 40 }, 50, 5);
    let (mut l, mut u) = (log(), ui());
    let fx = handle_mouse(&mut l, &mut u, MouseKind::LeftDown, 40000, 40000, &a, false, false);
    assert!(fx.is_empty());
    assert_eq!(u.active_panel, ActivePanel::Models);
    assert_eq!(u.resize_state, None);
}

#[test]
fn the_layout_asks_for_the_screen_constraints() {
    let c = screen_constraints(95, 6);
    assert_eq!(c.rows, vec![LayoutConstraint::Length(1), LayoutConstraint::Fill(1), LayoutConstraint::Length(5), LayoutConstraint::Min(5)]);
    assert_eq!(c.cols, vec![LayoutConstraint::Fill(80), LayoutConstraint::Fill(20)]);
    assert_eq!(c.left, vec![LayoutConstraint::Min(5), LayoutConstraint::Length(6)]);
    assert_eq!(c.bottom, vec![LayoutConstraint::Fill(1), LayoutConstraint::Length(7)]);
    assert_eq!(c.downloads, vec![LayoutConstraint::Length(7)]);
    assert_eq!(c.expanded, vec![LayoutConstraint::Length(1), LayoutConstraint::Fill(1)]);
    assert_eq!(screen_constraints(30, 3).cols, vec![LayoutConstraint::Fill(30), LayoutConstraint::Fill(70)]);
}

#[test]
fn every_area_lies_within_the_one_it_was_cut_from() {
    let a = screen_areas(Rect { x: 0, y: 0, width: 120, height: 50 }, 35, 8);
    assert!(a.top_left.x + a.top_left.width <= a.top_right.x);
    assert!(a.top_right.x + a.top_right.width <= 120);
    assert!(a.models.y + a.models.height <= a.top_left.y + a.top_left.height);
    assert!(a.log_downloads.y >= a.log.y && a.log_downloads.y + a.log_downloads.height == a.log.y + a.log.height);
    assert_eq!(a.log_downloads.height, 7);
    assert_eq!(a.downloads_only, Rect { x: 0, y: a.log.y, width: 120, height: 7 });
}
