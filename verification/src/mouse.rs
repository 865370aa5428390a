//! Mouse handling: which panel a click or a wheel turn lands on, and the dragging of the
//! border between the left and right panels.
//!
//! The screen areas come from the application's layout (status bar, top panels split
//! at `left_pct` percent, active model, log, downloads); the functions here decide.
use vstd::prelude::*;
use crate::panel_keys::{at_log_tail, handle_log_scroll};
use crate::types::{ActivePanel, LogState};

verus! {

/// A screen rectangle: its top-left corner and its size, in cells.
#[derive(Debug, Clone, Copy, PartialEq, Eq, Structural)]
pub struct Rect {
    pub x: u16,
    pub y: u16,
    pub width: u16,
    pub height: u16,
}

/// `a + b`, stopping at the largest `u16`.
pub open spec fn sat_add_u16(a: u16, b: u16) -> u16 {
    if a + b > u16::MAX { u16::MAX } else { (a + b) as u16 }
}

impl Rect {
    /// The column just right of the rectangle.
    pub open spec fn right(self) -> u16 {
        sat_add_u16(self.x, self.width)
    }

    /// The row just below the rectangle.
    pub open spec fn bottom(self) -> u16 {
        sat_add_u16(self.y, self.height)
    }

    /// The cell (`col`, `row`) lies in the rectangle.
    pub open spec fn holds(self, col: u16, row: u16) -> bool {
        self.x <= col < self.right() && self.y <= row < self.bottom()
    }

    pub fn contains(&self, col: u16, row: u16) -> (r: bool)
        ensures
            r == self.holds(col, row),
    {
        let right = self.x.saturating_add(self.width);
        let bottom = self.y.saturating_add(self.height);
        col >= self.x && col < right && row >= self.y && row < bottom
    }
}

/// What the mouse did.
#[derive(Debug, Clone, Copy, PartialEq, Eq, Structural)]
pub enum MouseKind {
    LeftDown,
    LeftUp,
    /// Moved with a button held.
    Drag,
    ScrollUp,
    ScrollDown,
    /// Anything else (other buttons, plain moves).
    Other,
}

/// A border drag in progress: where it started and the split it started from.
#[derive(Debug, Clone, Copy, PartialEq, Eq, Structural)]
pub struct ResizeState {
    pub start_x: u16,
    pub start_pct: u16,
    pub container: Rect,
}

/// The screen areas of the current layout. With the log expanded only `expanded_log`
/// counts; otherwise `top` is split into `top_left` (models and model info, of which
/// `models` is the list) and `top_right` (settings), `log` is the bottom area, whose
/// lower part `log_downloads` shows the downloads while downloading, and
/// `downloads_only` is the downloads list when the log is not shown.
#[derive(Debug, Clone, Copy, PartialEq, Eq, Structural)]
pub struct ScreenAreas {
    pub expanded_log: Rect,
    pub top: Rect,
    pub top_left: Rect,
    pub top_right: Rect,
    pub models: Rect,
    pub log: Rect,
    pub log_downloads: Rect,
    pub downloads_only: Rect,
}

/// The parts of the interface state the mouse changes.
#[derive(Debug, Clone, Copy, PartialEq, Eq, Structural)]
pub struct MouseUi {
    pub active_panel: ActivePanel,
    /// Width of the left panels, in percent.
    pub left_pct: u16,
    pub resize_state: Option<ResizeState>,
    pub settings_scroll_offset: usize,
    pub profiles_scroll_offset: usize,
    pub system_prompt_presets_scroll_offset: usize,
}

/// What the application does besides: move the downloads list selection.
#[derive(Debug, Clone, Copy, PartialEq, Eq, Structural)]
pub enum MouseEffect {
    DownloadsSelectPrevious,
    DownloadsSelectNext,
}

/// `v` brought within `lo..=hi`.
pub open spec fn clamp(v: int, lo: int, hi: int) -> int {
    if v < lo { lo } else if v > hi { hi } else { v }
}

/// `v` as an `as i16` cast reads it (two's complement: above 32767 it wraps to a
/// negative number).
pub open spec fn as_i16(v: u16) -> int {
    if v <= 32767 { v as int } else { v - 65536 }
}

pub open spec fn fits_i16(v: int) -> bool {
    -32768 <= v <= 32767
}

pub open spec fn abs_int(v: int) -> int {
    if v < 0 { -v } else { v }
}

/// Integer division rounding toward zero (as Rust's `/` on signed integers).
pub open spec fn div_toward_zero(a: int, b: int) -> int {
    let q = abs_int(a) / abs_int(b);
    if (a < 0) != (b < 0) { -q } else { q }
}

/// The columns dragged since the drag started, as the `i16` arithmetic counts them.
pub open spec fn drag_dx(rs: ResizeState, x: u16) -> int {
    as_i16(x) - as_i16(rs.start_x)
}

/// The change of width a drag to column `x` asks for, in percent points (at most 5).
pub open spec fn drag_delta(rs: ResizeState, x: u16) -> int {
    clamp(div_toward_zero(drag_dx(rs, x) * 100, as_i16(rs.container.width)), -5, 5)
}

/// The `i16` arithmetic of a drag to column `x` neither overflows nor divides by zero.
pub open spec fn drag_fits(rs: ResizeState, x: u16) -> bool {
    &&& fits_i16(drag_dx(rs, x))
    &&& fits_i16(drag_dx(rs, x) * 100)
    &&& as_i16(rs.container.width) != 0
    &&& fits_i16(as_i16(rs.start_pct) + drag_delta(rs, x))
}

/// The left panels' width while dragging the border to column `x`: the start width
/// plus the dragged distance in percent of the container, by at most 5 points, within
/// 20 to 80 percent (all of it read as `i16`, as the drag computes it).
pub open spec fn dragged_pct(rs: ResizeState, x: u16) -> u16 {
    clamp(as_i16(rs.start_pct) + drag_delta(rs, x), 20, 80) as u16
}

/// The log after a wheel turn over it (up or down one line, following at the tail).
pub open spec fn log_scrolled(log: LogState, up: bool) -> LogState {
    let off: usize = if up {
        if log.log_scroll_offset > 0 { (log.log_scroll_offset - 1) as usize } else { 0 }
    } else {
        (log.log_scroll_offset + 1) as usize
    };
    LogState {
        log_scroll_offset: off,
        log_follow: at_log_tail(off as nat, log.log_total_lines as nat),
        ..log
    }
}

/// The panel a click on the right side gives: it switches between the LLM and server
/// settings (staying on the LLM settings while a server runs); the profiles, presets and
/// README panels keep the focus; from elsewhere it goes to the server settings, or the
/// LLM settings while a server runs.
pub open spec fn right_click_panel(p: ActivePanel, server_running: bool) -> ActivePanel {
    match p {
        ActivePanel::LlmSettings => if server_running { ActivePanel::LlmSettings } else { ActivePanel::ServerSettings },
        ActivePanel::ServerSettings => ActivePanel::LlmSettings,
        ActivePanel::Profiles => ActivePanel::Profiles,
        ActivePanel::SystemPromptPresets => ActivePanel::SystemPromptPresets,
        ActivePanel::SearchReadme => ActivePanel::SearchReadme,
        _ => if server_running { ActivePanel::LlmSettings } else { ActivePanel::ServerSettings },
    }
}

/// A wheel turn over the right side scrolls the focused settings list by one line.
pub open spec fn right_scrolled(ui: MouseUi, up: bool) -> MouseUi {
    let step = |v: usize| if up {
        if v > 0 { (v - 1) as usize } else { 0 }
    } else {
        if v < usize::MAX { (v + 1) as usize } else { v }
    };
    match ui.active_panel {
        ActivePanel::LlmSettings => MouseUi { settings_scroll_offset: step(ui.settings_scroll_offset), ..ui },
        ActivePanel::Profiles => MouseUi { profiles_scroll_offset: step(ui.profiles_scroll_offset), ..ui },
        ActivePanel::SystemPromptPresets => MouseUi {
            system_prompt_presets_scroll_offset: step(ui.system_prompt_presets_scroll_offset),
            ..ui
        },
        _ => ui,
    }
}

/// `v - 1`, stopping at 0.
pub open spec fn sat_sub1(v: u16) -> u16 {
    if v >= 1 { (v - 1) as u16 } else { 0 }
}

/// How far column `x` is from the border column (the left side's last column), as the
/// `i16` arithmetic counts it.
pub open spec fn border_dx(areas: ScreenAreas, x: u16) -> int {
    as_i16(x) - as_i16(sat_sub1(areas.top_left.right()))
}

/// The cell (`x`, `y`) is on the border between the left and right panels: within two
/// columns of the left side's last column, on a row of the top area (rows and columns
/// read as `i16`).
pub open spec fn on_border(areas: ScreenAreas, x: u16, y: u16) -> bool {
    &&& -2 <= border_dx(areas, x) <= 2
    &&& as_i16(areas.top.y) <= as_i16(y) <= as_i16(sat_sub1(areas.top.bottom()))
}

/// What a mouse event at (`x`, `y`) does to the log, the interface state, and which
/// effects it asks for.
pub open spec fn mouse_step(
    log: LogState,
    ui: MouseUi,
    kind: MouseKind,
    x: u16,
    y: u16,
    areas: ScreenAreas,
    downloading: bool,
    server_running: bool,
) -> (LogState, MouseUi, Seq<MouseEffect>) {
    let none = Seq::<MouseEffect>::empty();
    if log.log_expanded {
        if areas.expanded_log.holds(x, y) {
            match kind {
                MouseKind::LeftDown => (log, MouseUi { active_panel: ActivePanel::Log, ..ui }, none),
                MouseKind::ScrollUp => (log_scrolled(log, true), ui, none),
                MouseKind::ScrollDown => (log_scrolled(log, false), ui, none),
                _ => (log, ui, none),
            }
        } else {
            (log, ui, none)
        }
    } else if ui.resize_state is Some {
        match kind {
            MouseKind::Drag => (log, MouseUi { left_pct: dragged_pct(ui.resize_state->0, x), ..ui }, none),
            MouseKind::LeftUp => (log, MouseUi { resize_state: None, ..ui }, none),
            _ => (log, ui, none),
        }
    } else if areas.log.holds(x, y) {
        if downloading && areas.log_downloads.holds(x, y) {
            match kind {
                MouseKind::LeftDown => (log, MouseUi { active_panel: ActivePanel::Downloads, ..ui }, none),
                MouseKind::ScrollUp => (log, ui, seq![MouseEffect::DownloadsSelectPrevious]),
                MouseKind::ScrollDown => (log, ui, seq![MouseEffect::DownloadsSelectNext]),
                _ => (log, ui, none),
            }
        } else {
            match kind {
                MouseKind::LeftDown => (log, MouseUi { active_panel: ActivePanel::Log, ..ui }, none),
                MouseKind::ScrollUp => (log_scrolled(log, true), MouseUi { active_panel: ActivePanel::Log, ..ui }, none),
                MouseKind::ScrollDown => (log_scrolled(log, false), MouseUi { active_panel: ActivePanel::Log, ..ui }, none),
                _ => (log, ui, none),
            }
        }
    } else {
        let (ui2, done) = if areas.top.holds(x, y) {
            if on_border(areas, x, y) {
                (
                    match kind {
                        MouseKind::LeftDown => MouseUi {
                            resize_state: Some(ResizeState { start_x: x, start_pct: ui.left_pct, container: areas.top }),
                            ..ui
                        },
                        MouseKind::LeftUp => MouseUi { resize_state: None, ..ui },
                        MouseKind::ScrollUp => MouseUi { left_pct: clamp(ui.left_pct - 1, 20, ui.left_pct as int) as u16, ..ui },
                        MouseKind::ScrollDown => MouseUi { left_pct: clamp(ui.left_pct + 1, ui.left_pct as int, 80) as u16, ..ui },
                        _ => ui,
                    },
                    true,
                )
            } else if areas.top_right.holds(x, y) {
                (
                    match kind {
                        MouseKind::LeftDown => MouseUi {
                            active_panel: right_click_panel(ui.active_panel, server_running),
                            ..ui
                        },
                        MouseKind::ScrollUp => right_scrolled(ui, true),
                        MouseKind::ScrollDown => right_scrolled(ui, false),
                        _ => ui,
                    },
                    true,
                )
            } else if areas.top_left.holds(x, y) && areas.models.holds(x, y) && kind == MouseKind::LeftDown {
                (MouseUi { active_panel: ActivePanel::Models, ..ui }, false)
            } else {
                (ui, false)
            }
        } else {
            (ui, false)
        };
        if done {
            (log, ui2, none)
        } else if downloading && areas.downloads_only.holds(x, y) {
            match kind {
                MouseKind::LeftDown => (log, MouseUi { active_panel: ActivePanel::Downloads, ..ui2 }, none),
                MouseKind::ScrollUp => (log, ui2, seq![MouseEffect::DownloadsSelectPrevious]),
                MouseKind::ScrollDown => (log, ui2, seq![MouseEffect::DownloadsSelectNext]),
                _ => (log, ui2, none),
            }
        } else {
            (log, ui2, none)
        }
    }
}

/// The wheel turns the log down: over the expanded log, or over the log area (but not
/// its downloads part while downloading) when no drag is under way.
pub open spec fn scrolls_log_down(log: LogState, ui: MouseUi, kind: MouseKind, x: u16, y: u16, areas: ScreenAreas, downloading: bool) -> bool {
    &&& kind == MouseKind::ScrollDown
    &&& if log.log_expanded {
        areas.expanded_log.holds(x, y)
    } else {
        ui.resize_state is None && areas.log.holds(x, y) && !(downloading && areas.log_downloads.holds(x, y))
    }
}

/// What a mouse event needs, where the handling would otherwise overflow: room for the
/// log to scroll down; a border test whose `i16` distance fits (and has an absolute
/// value); and a drag whose `i16` arithmetic fits (see `drag_fits`).
pub open spec fn mouse_ok(log: LogState, ui: MouseUi, kind: MouseKind, x: u16, y: u16, areas: ScreenAreas, downloading: bool) -> bool {
    &&& scrolls_log_down(log, ui, kind, x, y, areas, downloading) ==> log.log_scroll_offset < usize::MAX
    &&& !log.log_expanded && ui.resize_state is None && !areas.log.holds(x, y) && areas.top.holds(x, y)
        ==> -32767 <= border_dx(areas, x) <= 32767
    &&& !log.log_expanded && kind == MouseKind::Drag ==> (ui.resize_state matches Some(rs) ==> drag_fits(rs, x))
}

/// `a / b` rounding toward zero.
fn div_toward_zero_exec(a: i32, b: i32) -> (q: i32)
    requires
        b != 0,
        -40000 <= a <= 40000,
        -40000 <= b <= 40000,
    ensures
        q as int == div_toward_zero(a as int, b as int),
{
    let ua: u32 = if a < 0 { (0 - a) as u32 } else { a as u32 };
    let ub: u32 = if b < 0 { (0 - b) as u32 } else { b as u32 };
    let uq: u32 = ua / ub;
    assert(uq <= ua) by (nonlinear_arith)
        requires
            ub >= 1,
            uq == ua / ub,
    ;
    if (a < 0) != (b < 0) { 0 - (uq as i32) } else { uq as i32 }
}

fn drag_pct(rs: &ResizeState, x: u16) -> (p: u16)
    requires
        drag_fits(*rs, x),
    ensures
        p == dragged_pct(*rs, x),
{
    let dx: i32 = as_i16_exec(x) - as_i16_exec(rs.start_x);
    let q = div_toward_zero_exec(dx * 100, as_i16_exec(rs.container.width));
    let delta: i32 = if q < -5 { -5 } else if q > 5 { 5 } else { q };
    let v: i32 = as_i16_exec(rs.start_pct) + delta;
    let c: i32 = if v < 20 { 20 } else if v > 80 { 80 } else { v };
    c as u16
}

fn scroll_step(v: usize, up: bool) -> (r: usize)
    ensures
        r == (if up {
            if v > 0 { (v - 1) as usize } else { 0 }
        } else {
            if v < usize::MAX { (v + 1) as usize } else { v }
        }),
{
    if up { v.saturating_sub(1) } else { v.saturating_add(1) }
}

fn as_i16_exec(v: u16) -> (r: i32)
    ensures
        r as int == as_i16(v),
{
    if v <= 32767 { v as i32 } else { v as i32 - 65536 }
}

fn drag_fits_exec(rs: &ResizeState, x: u16) -> (r: bool)
    ensures
        r == drag_fits(*rs, x),
{
    let dx: i32 = as_i16_exec(x) - as_i16_exec(rs.start_x);
    if dx < -32768 || dx > 32767 {
        return false;
    }
    let a: i32 = dx * 100;
    if a < -32768 || a > 32767 {
        return false;
    }
    let w = as_i16_exec(rs.container.width);
    if w == 0 {
        return false;
    }
    let q = div_toward_zero_exec(a, w);
    let delta: i32 = if q < -5 { -5 } else if q > 5 { 5 } else { q };
    let v: i32 = as_i16_exec(rs.start_pct) + delta;
    -32768 <= v && v <= 32767
}

/// Whether `handle_mouse` can take this event (see `mouse_ok`).
pub fn mouse_ready(log: &LogState, ui: &MouseUi, kind: MouseKind, x: u16, y: u16, areas: &ScreenAreas, downloading: bool) -> (r: bool)
    ensures
        r == mouse_ok(*log, *ui, kind, x, y, *areas, downloading),
{
    let scrolls_down = kind == MouseKind::ScrollDown && if log.log_expanded {
        areas.expanded_log.contains(x, y)
    } else {
        ui.resize_state.is_none() && areas.log.contains(x, y) && !(downloading && areas.log_downloads.contains(x, y))
    };
    if scrolls_down && log.log_scroll_offset == usize::MAX {
        return false;
    }
    if !log.log_expanded && ui.resize_state.is_none() && !areas.log.contains(x, y) && areas.top.contains(x, y) {
        let right = areas.top_left.x.saturating_add(areas.top_left.width);
        let dx: i32 = as_i16_exec(x) - as_i16_exec(right.saturating_sub(1));
        if dx < -32767 || dx > 32767 {
            return false;
        }
    }
    if !log.log_expanded && kind == MouseKind::Drag {
        if let Some(rs) = &ui.resize_state {
            return drag_fits_exec(rs, x);
        }
    }
    true
}

/// Handles a mouse event at column `x`, row `y`: clicks focus the panel under the
/// pointer, the wheel scrolls it, and dragging the border between the left and right
/// panels resizes them (20 to 80 percent, at most 5 points per move).
pub fn handle_mouse(
    log: &mut LogState,
    ui: &mut MouseUi,
    kind: MouseKind,
    x: u16,
    y: u16,
    areas: &ScreenAreas,
    downloading: bool,
    server_running: bool,
) -> (effects: Vec<MouseEffect>)
    requires
        mouse_ok(*old(log), *old(ui), kind, x, y, *areas, downloading),
    ensures
        (*final(log), *final(ui), effects@) == mouse_step(*old(log), *old(ui), kind, x, y, *areas, downloading, server_running),
{
    let ghost expected = mouse_step(*log, *ui, kind, x, y, *areas, downloading, server_running);
    let mut effects: Vec<MouseEffect> = Vec::new();
    if log.log_expanded {
        if areas.expanded_log.contains(x, y) {
            match kind {
                MouseKind::LeftDown => {
                    ui.active_panel = ActivePanel::Log;
                },
                MouseKind::ScrollUp => {
                    handle_log_scroll(log, true);
                },
                MouseKind::ScrollDown => {
                    handle_log_scroll(log, false);
                },
                _ => {},
            }
        }
        proof {
            assert(effects@ =~= expected.2);
        }
        return effects;
    }
    if let Some(rs) = ui.resize_state {
        match kind {
            MouseKind::Drag => {
                ui.left_pct = drag_pct(&rs, x);
            },
            MouseKind::LeftUp => {
                ui.resize_state = None;
            },
            _ => {},
        }
        proof {
            assert(effects@ =~= expected.2);
        }
        return effects;
    }
    if areas.log.contains(x, y) {
        if downloading && areas.log_downloads.contains(x, y) {
            match kind {
                MouseKind::LeftDown => {
                    ui.active_panel = ActivePanel::Downloads;
                },
                MouseKind::ScrollUp => {
                    effects.push(MouseEffect::DownloadsSelectPrevious);
                },
                MouseKind::ScrollDown => {
                    effects.push(MouseEffect::DownloadsSelectNext);
                },
                _ => {},
            }
            proof {
                assert(effects@ =~= expected.2);
            }
            return effects;
        }
        match kind {
            MouseKind::LeftDown => {
                ui.active_panel = ActivePanel::Log;
            },
            MouseKind::ScrollUp => {
                handle_log_scroll(log, true);
                ui.active_panel = ActivePanel::Log;
            },
            MouseKind::ScrollDown => {
                handle_log_scroll(log, false);
                ui.active_panel = ActivePanel::Log;
            },
            _ => {},
        }
        proof {
            assert(effects@ =~= expected.2);
        }
        return effects;
    }
    if areas.top.contains(x, y) {
        let right = areas.top_left.x.saturating_add(areas.top_left.width);
        let border_x = right.saturating_sub(1);
        let border_y_end = areas.top.y.saturating_add(areas.top.height).saturating_sub(1);
        let dx: i32 = as_i16_exec(x) - as_i16_exec(border_x);
        let yi = as_i16_exec(y);
        let border = -2 <= dx && dx <= 2 && yi >= as_i16_exec(areas.top.y) && yi <= as_i16_exec(border_y_end);
        if border {
            match kind {
                MouseKind::LeftDown => {
                    ui.resize_state = Some(ResizeState { start_x: x, start_pct: ui.left_pct, container: areas.top });
                },
                MouseKind::Drag => {},
                MouseKind::LeftUp => {
                    ui.resize_state = None;
                },
                MouseKind::ScrollUp => {
                    let p = ui.left_pct.saturating_sub(1);
                    ui.left_pct = if p > 20 { p } else { 20 };
                },
                MouseKind::ScrollDown => {
                    let p = ui.left_pct.saturating_add(1);
                    ui.left_pct = if p < 80 { p } else { 80 };
                },
                _ => {},
            }
            proof {
                assert(effects@ =~= expected.2);
            }
            return effects;
        }
        if areas.top_right.contains(x, y) {
            match kind {
                MouseKind::LeftDown => {
                    ui.active_panel = match ui.active_panel {
                        ActivePanel::LlmSettings => if server_running {
                            ActivePanel::LlmSettings
                        } else {
                            ActivePanel::ServerSettings
                        },
                        ActivePanel::ServerSettings => ActivePanel::LlmSettings,
                        ActivePanel::Profiles => ActivePanel::Profiles,
                        ActivePanel::SystemPromptPresets => ActivePanel::SystemPromptPresets,
                        ActivePanel::SearchReadme => ActivePanel::SearchReadme,
                        _ => if server_running {
                            ActivePanel::LlmSettings
                        } else {
                            ActivePanel::ServerSettings
                        },
                    };
                },
                MouseKind::ScrollUp | MouseKind::ScrollDown => {
                    let up = kind == MouseKind::ScrollUp;
                    match ui.active_panel {
                        ActivePanel::LlmSettings => {
                            ui.settings_scroll_offset = scroll_step(ui.settings_scroll_offset, up);
                        },
                        ActivePanel::Profiles => {
                            ui.profiles_scroll_offset = scroll_step(ui.profiles_scroll_offset, up);
                        },
                        ActivePanel::SystemPromptPresets => {
                            ui.system_prompt_presets_scroll_offset = scroll_step(
                                ui.system_prompt_presets_scroll_offset,
                                up,
                            );
                        },
                        _ => {},
                    }
                },
                _ => {},
            }
            proof {
                assert(effects@ =~= expected.2);
            }
            return effects;
        }
        if areas.top_left.contains(x, y) && areas.models.contains(x, y) && kind == MouseKind::LeftDown {
            ui.active_panel = ActivePanel::Models;
        }
    }
    if downloading && areas.downloads_only.contains(x, y) {
        match kind {
            MouseKind::LeftDown => {
                ui.active_panel = ActivePanel::Downloads;
            },
            MouseKind::ScrollUp => {
                effects.push(MouseEffect::DownloadsSelectPrevious);
            },
            MouseKind::ScrollDown => {
                effects.push(MouseEffect::DownloadsSelectNext);
            },
            _ => {},
        }
    }
    proof {
        assert(effects@ =~= expected.2);
    }
    effects
}

// ───────────────────────── laws ─────────────────────────

/// Whatever the mouse does, the left panels' width stays within 20 to 80 percent once
/// it is; and a drag in progress keeps starting from such a width.
pub proof fn law_split_stays_in_range(
    log: LogState,
    ui: MouseUi,
    kind: MouseKind,
    x: u16,
    y: u16,
    areas: ScreenAreas,
    downloading: bool,
    server_running: bool,
)
    requires
        20 <= ui.left_pct <= 80,
    ensures
        ({
            let after = mouse_step(log, ui, kind, x, y, areas, downloading, server_running).1;
            &&& 20 <= after.left_pct <= 80
            &&& (ui.resize_state matches Some(rs) ==> 20 <= rs.start_pct <= 80)
                ==> (after.resize_state matches Some(rs) ==> 20 <= rs.start_pct <= 80)
        }),
{
}

/// One drag move changes the split by at most 5 points from where the drag started.
pub proof fn law_drag_moves_at_most_five(rs: ResizeState, x: u16)
    requires
        rs.container.width > 0,
        20 <= rs.start_pct <= 80,
    ensures
        -5 <= dragged_pct(rs, x) - rs.start_pct <= 5,
{
}

/// Releasing the button ends a drag.
pub proof fn law_release_ends_drag(log: LogState, ui: MouseUi, x: u16, y: u16, areas: ScreenAreas, downloading: bool, server_running: bool)
    requires
        !log.log_expanded,
        ui.resize_state is Some,
    ensures
        mouse_step(log, ui, MouseKind::LeftUp, x, y, areas, downloading, server_running).1.resize_state is None,
{
}

} // verus!
