//! Panel visibility (one bit per panel) and keyboard focus cycling.
use vstd::prelude::*;
use crate::types::{ActivePanel, LogState, ModelsMode};

verus! {

/// Index of the log panel's visibility bit.
pub const LOG_PANEL: u8 = 5;

/// Visibility mask with all six panels shown.
pub const ALL_PANELS: u8 = 0b111111;

/// Is the visibility bit of panel `index` set in `mask`?
pub open spec fn bit_set(mask: u8, index: u8) -> bool {
    mask & (1u8 << index) != 0
}

/// Which panels are shown and which has focus.
pub struct PanelState {
    pub active_panel: ActivePanel,
    /// Bit `i` set means panel `i` is shown.
    pub panel_visibility: u8,
}

/// What of the models panel's mode decides which right-hand panel can take focus.
pub open spec fn mode_is_search(m: ModelsMode) -> bool {
    m is Search
}

pub open spec fn mode_is_files(m: ModelsMode) -> bool {
    m is Files
}

pub open spec fn mode_shows_readme(m: ModelsMode) -> bool {
    match m {
        ModelsMode::Search { show_readme, .. } => show_readme,
        ModelsMode::Files { .. } => true,
        _ => false,
    }
}

/// The focusable panels, in focus order: the models list, then the right-hand panel(s),
/// then the log, then the downloads list.
#[verifier::opaque]
pub open spec fn visible_panels(
    mask: u8,
    active: ActivePanel,
    mode: ModelsMode,
    server_running: bool,
    downloading: bool,
) -> Seq<ActivePanel> {
    let first: Seq<ActivePanel> = if bit_set(mask, 0) { seq![ActivePanel::Models] } else { seq![] };
    let right: Seq<ActivePanel> = if active == ActivePanel::Profiles {
        seq![ActivePanel::Profiles]
    } else if active == ActivePanel::SystemPromptPresets {
        seq![ActivePanel::SystemPromptPresets]
    } else if mode_shows_readme(mode) && (mode_is_search(mode) || mode_is_files(mode)) {
        seq![ActivePanel::SearchReadme]
    } else {
        let server: Seq<ActivePanel> = if bit_set(mask, 1) && !server_running && !(mode is BenchTune) {
            seq![ActivePanel::ServerSettings]
        } else {
            seq![]
        };
        let llm: Seq<ActivePanel> = if bit_set(mask, 3) { seq![ActivePanel::LlmSettings] } else { seq![] };
        server + llm
    };
    let log: Seq<ActivePanel> = if bit_set(mask, 5) { seq![ActivePanel::Log] } else { seq![] };
    let dl: Seq<ActivePanel> = if downloading { seq![ActivePanel::Downloads] } else { seq![] };
    first + right + log + dl
}

/// The position that focus moves from: the first occurrence of `active` in `vis`, or 0
/// when it is not there.
#[verifier::opaque]
pub open spec fn focus_position(vis: Seq<ActivePanel>, active: ActivePanel) -> int {
    if vis.contains(active) {
        choose|i: int| 0 <= i < vis.len() && vis[i] == active && forall|j: int| 0 <= j < i ==> vis[j] != active
    } else {
        0
    }
}

/// Focus after Tab: the panel after the current one, wrapping around.
pub open spec fn next_focus(vis: Seq<ActivePanel>, active: ActivePanel) -> ActivePanel {
    if vis.len() == 0 {
        active
    } else {
        vis[(focus_position(vis, active) + 1) % (vis.len() as int)]
    }
}

/// Focus after Shift+Tab: the panel before the current one, wrapping around.
pub open spec fn prev_focus(vis: Seq<ActivePanel>, active: ActivePanel) -> ActivePanel {
    if vis.len() == 0 {
        active
    } else {
        vis[(focus_position(vis, active) + vis.len() - 1) % (vis.len() as int)]
    }
}

proof fn lemma_first_position(vis: Seq<ActivePanel>, active: ActivePanel, i: int)
    requires
        0 <= i < vis.len(),
        vis[i] == active,
        forall|j: int| 0 <= j < i ==> vis[j] != active,
    ensures
        focus_position(vis, active) == i,
{
    reveal(focus_position);
    assert(vis.contains(active));
    let k = focus_position(vis, active);
    assert(0 <= k < vis.len() && vis[k] == active && forall|j: int| 0 <= j < k ==> vis[j] != active);
    if k < i {
        assert(vis[k] != active);
    }
    if i < k {
        assert(vis[i] != active);
    }
}

/// Finds where focus moves from: the first place of `active` in `vis`, or 0.
fn find_focus_position(vis: &Vec<ActivePanel>, active: ActivePanel) -> (r: usize)
    ensures
        r as int == focus_position(vis@, active),
        r < vis@.len() || r == 0,
{
    let mut i: usize = 0;
    while i < vis.len()
        invariant
            i <= vis.len(),
            forall|j: int| 0 <= j < i ==> vis@[j] != active,
        decreases vis.len() - i,
    {
        if vis[i] == active {
            proof { lemma_first_position(vis@, active, i as int); }
            return i;
        }
        i = i + 1;
    }
    assert(!vis@.contains(active));
    reveal(focus_position);
    0
}

impl PanelState {
    /// Is panel `index` shown?
    pub fn is_panel_visible(&self, index: u8) -> (r: bool)
        requires
            index < 8,
        ensures
            r == bit_set(self.panel_visibility, index),
    {
        self.panel_visibility & (1u8 << index) != 0
    }

    /// Shows panel `index` if it was hidden and hides it if it was shown. Hiding the log
    /// also collapses it.
    pub fn toggle_panel_visibility(&mut self, index: u8, log: &mut LogState)
        requires
            index < 8,
        ensures
            final(self).panel_visibility == old(self).panel_visibility ^ (1u8 << index),
            final(self).active_panel == old(self).active_panel,
            final(log).log_expanded == (if index == LOG_PANEL && !bit_set(final(self).panel_visibility, LOG_PANEL) {
                false
            } else {
                old(log).log_expanded
            }),
            final(log).log_scroll_offset == old(log).log_scroll_offset,
            final(log).log_follow == old(log).log_follow,
            final(log).log_total_lines == old(log).log_total_lines,
    {
        self.panel_visibility = self.panel_visibility ^ (1u8 << index);
        if index == LOG_PANEL && !self.is_panel_visible(LOG_PANEL) {
            log.log_expanded = false;
        }
    }

    /// The panels that can take focus now, in focus order.
    pub fn get_visible_panels(&self, models_mode: &ModelsMode, server_running: bool, downloading: bool) -> (v: Vec<ActivePanel>)
        ensures
            v@ == visible_panels(self.panel_visibility, self.active_panel, *models_mode, server_running, downloading),
            v@.len() <= 5,
    {
        let mut visible: Vec<ActivePanel> = Vec::new();
        if self.is_panel_visible(0) {
            visible.push(ActivePanel::Models);
        }
        let is_search = matches!(models_mode, ModelsMode::Search { .. });
        let is_files = matches!(models_mode, ModelsMode::Files { .. });
        let is_bench_tune = matches!(models_mode, ModelsMode::BenchTune);
        let show_readme = match models_mode {
            ModelsMode::Search { show_readme, .. } => *show_readme,
            ModelsMode::Files { .. } => true,
            _ => false,
        };
        if self.active_panel == ActivePanel::Profiles {
            visible.push(ActivePanel::Profiles);
        } else if self.active_panel == ActivePanel::SystemPromptPresets {
            visible.push(ActivePanel::SystemPromptPresets);
        } else if show_readme && (is_search || is_files) {
            visible.push(ActivePanel::SearchReadme);
        } else {
            if self.is_panel_visible(1) && !server_running && !is_bench_tune {
                visible.push(ActivePanel::ServerSettings);
            }
            if self.is_panel_visible(3) {
                visible.push(ActivePanel::LlmSettings);
            }
        }
        if self.is_panel_visible(5) {
            visible.push(ActivePanel::Log);
        }
        if downloading {
            visible.push(ActivePanel::Downloads);
        }
        reveal(visible_panels);
        assert(visible@ =~= visible_panels(self.panel_visibility, self.active_panel, *models_mode, server_running, downloading));
        visible
    }

    /// Moves focus to the next focusable panel.
    pub fn focus_next(&mut self, models_mode: &ModelsMode, server_running: bool, downloading: bool)
        ensures
            final(self).active_panel == next_focus(
                visible_panels(old(self).panel_visibility, old(self).active_panel, *models_mode, server_running, downloading),
                old(self).active_panel,
            ),
            final(self).panel_visibility == old(self).panel_visibility,
    {
        let visible = self.get_visible_panels(models_mode, server_running, downloading);
        if visible.len() == 0 {
            return;
        }
        let current_idx = find_focus_position(&visible, self.active_panel);
        let next_idx = (current_idx + 1) % visible.len();
        self.active_panel = visible[next_idx];
    }

    /// Moves focus to the previous focusable panel.
    pub fn focus_prev(&mut self, models_mode: &ModelsMode, server_running: bool, downloading: bool)
        ensures
            final(self).active_panel == prev_focus(
                visible_panels(old(self).panel_visibility, old(self).active_panel, *models_mode, server_running, downloading),
                old(self).active_panel,
            ),
            final(self).panel_visibility == old(self).panel_visibility,
    {
        let visible = self.get_visible_panels(models_mode, server_running, downloading);
        if visible.len() == 0 {
            return;
        }
        let current_idx = find_focus_position(&visible, self.active_panel);
        let prev_idx = (current_idx + visible.len() - 1) % visible.len();
        self.active_panel = visible[prev_idx];
    }
}

/// F-key "focus": shows panel `panel_idx` and gives `target_panel` the focus.
pub fn handle_fkey_focus(panels: &mut PanelState, panel_idx: u8, target_panel: ActivePanel)
    requires
        panel_idx < 8,
    ensures
        final(panels).panel_visibility == old(panels).panel_visibility | (1u8 << panel_idx),
        final(panels).active_panel == target_panel,
{
    panels.panel_visibility = panels.panel_visibility | (1u8 << panel_idx);
    panels.active_panel = target_panel;
}

/// F-key "toggle": unless the key only works while no server runs and one does, toggles
/// panel `panel_idx`, and if that showed it, gives `target_panel` (if any) the focus.
/// Returns whether the key took effect.
pub fn handle_fkey_toggle(
    panels: &mut PanelState,
    log: &mut LogState,
    panel_idx: u8,
    target_panel: Option<ActivePanel>,
    require_no_server: bool,
    server_running: bool,
) -> (acted: bool)
    requires
        panel_idx < 8,
    ensures
        acted == !(require_no_server && server_running),
        !acted ==> final(panels).panel_visibility == old(panels).panel_visibility
            && final(panels).active_panel == old(panels).active_panel
            && final(log).log_expanded == old(log).log_expanded,
        acted ==> final(panels).panel_visibility == old(panels).panel_visibility ^ (1u8 << panel_idx),
        acted ==> final(panels).active_panel == (match target_panel {
            Some(p) if bit_set(final(panels).panel_visibility, panel_idx) => p,
            _ => old(panels).active_panel,
        }),
        acted ==> final(log).log_expanded == (if panel_idx == LOG_PANEL && !bit_set(final(panels).panel_visibility, LOG_PANEL) {
            false
        } else {
            old(log).log_expanded
        }),
        final(log).log_scroll_offset == old(log).log_scroll_offset,
        final(log).log_follow == old(log).log_follow,
        final(log).log_total_lines == old(log).log_total_lines,
{
    if require_no_server && server_running {
        return false;
    }
    panels.toggle_panel_visibility(panel_idx, log);
    if panels.is_panel_visible(panel_idx) {
        if let Some(panel) = target_panel {
            panels.active_panel = panel;
        }
    }
    true
}

/// F-key "show all": shows every panel and collapses the log.
pub fn handle_fkey_show_all(panels: &mut PanelState, log: &mut LogState)
    ensures
        final(panels).panel_visibility == ALL_PANELS,
        final(panels).active_panel == old(panels).active_panel,
        !final(log).log_expanded,
        final(log).log_scroll_offset == old(log).log_scroll_offset,
        final(log).log_follow == old(log).log_follow,
        final(log).log_total_lines == old(log).log_total_lines,
{
    panels.panel_visibility = ALL_PANELS;
    log.log_expanded = false;
}

// ───────────────────────── laws ─────────────────────────

/// Toggling the same panel twice restores the visibility mask.
pub proof fn law_toggle_twice_restores(mask: u8, index: u8)
    requires
        index < 8,
    ensures
        (mask ^ (1u8 << index)) ^ (1u8 << index) == mask,
{
    assert((mask ^ (1u8 << index)) ^ (1u8 << index) == mask) by (bit_vector)
        requires index < 8;
}

/// A toggle flips the panel's own bit and leaves every other panel's bit alone.
pub proof fn law_toggle_flips_only_its_panel(mask: u8, index: u8, other: u8)
    requires
        index < 8,
        other < 8,
    ensures
        bit_set(mask ^ (1u8 << index), index) == !bit_set(mask, index),
        other != index ==> bit_set(mask ^ (1u8 << index), other) == bit_set(mask, other),
{
    assert(((mask ^ (1u8 << index)) & (1u8 << index) != 0) == !(mask & (1u8 << index) != 0)) by (bit_vector)
        requires index < 8;
    assert(other != index ==> ((mask ^ (1u8 << index)) & (1u8 << other) != 0) == (mask & (1u8 << other) != 0)) by (bit_vector)
        requires index < 8, other < 8;
}

/// The focus order never lists a panel twice.
pub proof fn law_visible_panels_distinct(mask: u8, active: ActivePanel, mode: ModelsMode, server_running: bool, downloading: bool)
    ensures
        visible_panels(mask, active, mode, server_running, downloading).no_duplicates(),
{
    reveal(visible_panels);
    let v = visible_panels(mask, active, mode, server_running, downloading);
    assert forall|i: int, j: int| 0 <= i < v.len() && 0 <= j < v.len() && i != j implies v[i] != v[j] by {
        // each panel kind is placed at most once, in a fixed order of distinct groups
        assert(v.len() <= 5);
    }
}

/// From a focused panel in the focus order, Tab then Shift+Tab returns focus to it.
pub proof fn law_prev_undoes_next(vis: Seq<ActivePanel>, active: ActivePanel)
    requires
        vis.no_duplicates(),
        vis.contains(active),
    ensures
        prev_focus(vis, next_focus(vis, active)) == active,
        next_focus(vis, prev_focus(vis, active)) == active,
{
    reveal(focus_position);
    let n = vis.len() as int;
    let i = focus_position(vis, active);
    assert(0 <= i < n && vis[i] == active);
    let nx = (i + 1) % n;
    assert(0 <= nx < n);
    lemma_unique_position(vis, nx);
    let pv = (i + n - 1) % n;
    assert(0 <= pv < n);
    lemma_unique_position(vis, pv);
    assert(((nx + n - 1) % n) == i) by (nonlinear_arith)
        requires nx == (i + 1) % n, 0 <= i < n;
    assert(((pv + 1) % n) == i) by (nonlinear_arith)
        requires pv == (i + n - 1) % n, 0 <= i < n;
}

/// Tab and then Shift+Tab give the focus back to the panel that had it, when that panel
/// is in the focus order and is not one of the side lists (profiles, system prompt
/// presets) whose focus changes the order itself.
pub proof fn law_focus_prev_undoes_focus_next(
    mask: u8,
    active: ActivePanel,
    mode: ModelsMode,
    server_running: bool,
    downloading: bool,
)
    requires
        visible_panels(mask, active, mode, server_running, downloading).contains(active),
        active != ActivePanel::Profiles,
        active != ActivePanel::SystemPromptPresets,
    ensures
        ({
            let next = next_focus(visible_panels(mask, active, mode, server_running, downloading), active);
            prev_focus(visible_panels(mask, next, mode, server_running, downloading), next) == active
        }),
{
    let v = visible_panels(mask, active, mode, server_running, downloading);
    law_visible_panels_distinct(mask, active, mode, server_running, downloading);
    law_prev_undoes_next(v, active);
    let next = next_focus(v, active);
    assert(0 <= focus_position(v, active) < v.len()) by {
        reveal(focus_position);
    }
    let k = (focus_position(v, active) + 1) % (v.len() as int);
    assert(0 <= k < v.len());
    assert(next == v[k]);
    lemma_no_side_lists(mask, active, mode, server_running, downloading, k);
    lemma_order_ignores_plain_focus(mask, active, next, mode, server_running, downloading);
}

/// Away from the side lists, the focus order holds neither of them.
proof fn lemma_no_side_lists(mask: u8, active: ActivePanel, mode: ModelsMode, server_running: bool, downloading: bool, k: int)
    requires
        active != ActivePanel::Profiles,
        active != ActivePanel::SystemPromptPresets,
        0 <= k < visible_panels(mask, active, mode, server_running, downloading).len(),
    ensures
        visible_panels(mask, active, mode, server_running, downloading)[k] != ActivePanel::Profiles,
        visible_panels(mask, active, mode, server_running, downloading)[k] != ActivePanel::SystemPromptPresets,
{
    reveal(visible_panels);
    let v = visible_panels(mask, active, mode, server_running, downloading);
    assert(forall|i: int| 0 <= i < v.len() ==> v[i] == ActivePanel::Models || v[i] == ActivePanel::SearchReadme
        || v[i] == ActivePanel::ServerSettings || v[i] == ActivePanel::LlmSettings || v[i] == ActivePanel::Log
        || v[i] == ActivePanel::Downloads);
}

/// The focus order is the same for any two focused panels that are not side lists.
proof fn lemma_order_ignores_plain_focus(
    mask: u8,
    a: ActivePanel,
    b: ActivePanel,
    mode: ModelsMode,
    server_running: bool,
    downloading: bool,
)
    requires
        a != ActivePanel::Profiles,
        a != ActivePanel::SystemPromptPresets,
        b != ActivePanel::Profiles,
        b != ActivePanel::SystemPromptPresets,
    ensures
        visible_panels(mask, a, mode, server_running, downloading) == visible_panels(mask, b, mode, server_running, downloading),
{
    reveal(visible_panels);
}

proof fn lemma_unique_position(vis: Seq<ActivePanel>, k: int)
    requires
        vis.no_duplicates(),
        0 <= k < vis.len(),
    ensures
        focus_position(vis, vis[k]) == k,
{
    assert forall|j: int| 0 <= j < k implies vis[j] != vis[k] by {}
    lemma_first_position(vis, vis[k], k);
}

} // verus!
