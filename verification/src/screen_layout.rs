//! The screen layout the mouse handler reads: the status bar, the top panels split at
//! `left_pct` percent, the active model, the log (and the downloads list within it), as
//! ratatui's `Layout` splits the terminal's area.
use vstd::prelude::*;
use ratatui::layout::{Constraint, Direction, Layout};
use crate::mouse::{Rect, ScreenAreas};

verus! {

/// A constraint of a layout, as ratatui's `Constraint`: a fixed length, a share of the
/// room left (by weight), or at least a length.
#[derive(Debug, Clone, Copy, PartialEq, Eq, Structural)]
pub enum LayoutConstraint {
    Length(u16),
    Fill(u16),
    Min(u16),
}

/// The rows of `inner` lie within those of `outer`.
pub open spec fn within_rows(inner: Rect, outer: Rect) -> bool {
    outer.y <= inner.y && inner.y + inner.height <= outer.bottom()
}

/// The columns of `inner` lie within those of `outer`.
pub open spec fn within_cols(inner: Rect, outer: Rect) -> bool {
    outer.x <= inner.x && inner.x + inner.width <= outer.right()
}

/// ratatui's `Layout::split` of `area` along one direction with `constraints` (no margin,
/// no spacing, the default flex).
///
/// Stated: there is one area per constraint, in the order of the constraints; a vertical
/// split keeps the area's columns (`x`, `width`) and a horizontal one its rows (`y`,
/// `height`), as `changes_to_rects` builds them; and each area lies within `area` along
/// the split, since the solver is given as required that every cut lies between the
/// area's two ends and that each area starts no later than it ends
/// (`configure_area`, `configure_variable_in_area_constraints`,
/// `configure_variable_constraints`), which the rounding in `changes_to_rects` keeps.
/// Where each cut falls, and so whether the areas follow one another without
/// overlapping, is not stated: the solver holds the sizes and the spaces between areas
/// only at lower strengths, and walks hash maps that each process seeds, so nothing here
/// shows that equal inputs always give equal cuts. The `expect` inside
/// `split_with_spacers` does not fire: the required constraints can always be met
/// together.
#[verifier::external_body]
fn layout_split(area: Rect, vertical: bool, constraints: &Vec<LayoutConstraint>) -> (r: Vec<Rect>)
    ensures
        r@.len() == constraints@.len(),
        forall|i: int| 0 <= i < r@.len() ==> (if vertical {
            r@[i].x == area.x && r@[i].width == area.width && within_rows(r@[i], area)
        } else {
            r@[i].y == area.y && r@[i].height == area.height && within_cols(r@[i], area)
        }),
{
    let cs = constraints.iter().map(|c| match c {
        LayoutConstraint::Length(n) => Constraint::Length(*n),
        LayoutConstraint::Fill(n) => Constraint::Fill(*n),
        LayoutConstraint::Min(n) => Constraint::Min(*n),
    });
    let dir = if vertical { Direction::Vertical } else { Direction::Horizontal };
    let a = ratatui::layout::Rect { x: area.x, y: area.y, width: area.width, height: area.height };
    let rects = Layout::default().direction(dir).constraints(cs).split(a);
    rects.iter().map(|r| Rect { x: r.x, y: r.y, width: r.width, height: r.height }).collect()
}

/// The constraints the screen is laid out with.
pub struct ScreenConstraints {
    /// The expanded log: a status bar row over the rest.
    pub expanded: Vec<LayoutConstraint>,
    /// The rows: status bar, top panels, active model, log.
    pub rows: Vec<LayoutConstraint>,
    /// The top panels' columns: left and right shares.
    pub cols: Vec<LayoutConstraint>,
    /// The left side: the models list over the model information.
    pub left: Vec<LayoutConstraint>,
    /// The log's area while downloading: the log over the downloads list.
    pub bottom: Vec<LayoutConstraint>,
    /// The log's area when only the downloads list is shown.
    pub downloads: Vec<LayoutConstraint>,
}

/// The left panels' share, kept within 20 to 80 percent.
pub open spec fn clamped_pct(left_pct: u16) -> u16 {
    if left_pct < 20 { 20 } else if left_pct > 80 { 80 } else { left_pct }
}

/// The constraints for a screen whose left panels take `left_pct` percent (kept within
/// 20 to 80) and whose model information takes `info_height` rows: a status bar row
/// (`Length(1)`) over the rest (`Fill(1)`) when the log is expanded; otherwise the status
/// bar (`Length(1)`), the top panels (`Fill(1)`), the active model (`Length(5)`) and the
/// log (`Min(5)`); the top panels split by the shares `Fill(p)` and `Fill(100 - p)`; the
/// left side as the models list (`Min(5)`) over the information (`Length(info_height)`);
/// the log's area as the log (`Fill(1)`) over 7 rows of downloads (`Length(7)`), or 7
/// rows of downloads alone (`Length(7)`).
pub fn screen_constraints(left_pct: u16, info_height: u16) -> (r: ScreenConstraints)
    ensures
        r.expanded@ == seq![LayoutConstraint::Length(1), LayoutConstraint::Fill(1)],
        r.rows@ == seq![LayoutConstraint::Length(1), LayoutConstraint::Fill(1), LayoutConstraint::Length(5), LayoutConstraint::Min(5)],
        r.cols@ == seq![LayoutConstraint::Fill(clamped_pct(left_pct)), LayoutConstraint::Fill((100 - clamped_pct(left_pct)) as u16)],
        r.left@ == seq![LayoutConstraint::Min(5), LayoutConstraint::Length(info_height)],
        r.bottom@ == seq![LayoutConstraint::Fill(1), LayoutConstraint::Length(7)],
        r.downloads@ == seq![LayoutConstraint::Length(7)],
{
    let p: u16 = if left_pct < 20 { 20 } else if left_pct > 80 { 80 } else { left_pct };
    let q: u16 = 100 - p;
    let r = ScreenConstraints {
        expanded: vec![LayoutConstraint::Length(1), LayoutConstraint::Fill(1)],
        rows: vec![LayoutConstraint::Length(1), LayoutConstraint::Fill(1), LayoutConstraint::Length(5), LayoutConstraint::Min(5)],
        cols: vec![LayoutConstraint::Fill(p), LayoutConstraint::Fill(q)],
        left: vec![LayoutConstraint::Min(5), LayoutConstraint::Length(info_height)],
        bottom: vec![LayoutConstraint::Fill(1), LayoutConstraint::Length(7)],
        downloads: vec![LayoutConstraint::Length(7)],
    };
    assert(r.expanded@ =~= seq![LayoutConstraint::Length(1), LayoutConstraint::Fill(1)]);
    assert(r.rows@ =~= seq![LayoutConstraint::Length(1), LayoutConstraint::Fill(1), LayoutConstraint::Length(5), LayoutConstraint::Min(5)]);
    assert(r.cols@ =~= seq![LayoutConstraint::Fill(clamped_pct(left_pct)), LayoutConstraint::Fill((100 - clamped_pct(left_pct)) as u16)]);
    assert(r.left@ =~= seq![LayoutConstraint::Min(5), LayoutConstraint::Length(info_height)]);
    assert(r.bottom@ =~= seq![LayoutConstraint::Fill(1), LayoutConstraint::Length(7)]);
    assert(r.downloads@ =~= seq![LayoutConstraint::Length(7)]);
    r
}

/// Lays out the screen as it is drawn, with ratatui's `Layout` and the constraints of
/// `screen_constraints`: `expanded_log` is the second area of the expanded split;
/// `top` and `log` the second and fourth rows; `top_left` and `top_right` the two
/// columns of `top`; `models` the first area of `top_left`'s split; `log_downloads` the
/// second area of the log's split while downloading, `downloads_only` the one area of
/// its split when only the downloads are shown.
///
/// Stated: which columns and rows each area shares with the one it was cut from, and
/// that it lies within it.
pub fn screen_areas(area: Rect, left_pct: u16, info_height: u16) -> (r: ScreenAreas)
    ensures
        r.expanded_log.x == area.x && r.expanded_log.width == area.width && within_rows(r.expanded_log, area),
        r.top.x == area.x && r.top.width == area.width && within_rows(r.top, area),
        r.log.x == area.x && r.log.width == area.width && within_rows(r.log, area),
        r.top_left.y == r.top.y && r.top_left.height == r.top.height && within_cols(r.top_left, r.top),
        r.top_right.y == r.top.y && r.top_right.height == r.top.height && within_cols(r.top_right, r.top),
        r.models.x == r.top_left.x && r.models.width == r.top_left.width && within_rows(r.models, r.top_left),
        r.log_downloads.x == r.log.x && r.log_downloads.width == r.log.width && within_rows(r.log_downloads, r.log),
        r.downloads_only.x == r.log.x && r.downloads_only.width == r.log.width && within_rows(r.downloads_only, r.log),
{
    let c = screen_constraints(left_pct, info_height);
    let expanded = layout_split(area, true, &c.expanded);
    let rows = layout_split(area, true, &c.rows);
    let cols = layout_split(rows[1], false, &c.cols);
    let left = layout_split(cols[0], true, &c.left);
    let bottom = layout_split(rows[3], true, &c.bottom);
    let downloads = layout_split(rows[3], true, &c.downloads);
    ScreenAreas {
        expanded_log: expanded[1],
        top: rows[1],
        top_left: cols[0],
        top_right: cols[1],
        models: left[0],
        log: rows[3],
        log_downloads: bottom[1],
        downloads_only: downloads[0],
    }
}

} // verus!
