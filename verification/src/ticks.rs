//! Decisions of the main loop's timers and of a change of selected model: the loading
//! display that follows the selection, the loading spinner, and the settings help that
//! shows after a pause on the settings panel.
use vstd::prelude::*;
use crate::loading::{LoadProgress, LoadingTracker};
use crate::model_state::{opt_state_view, ModelState, ModelStateView};
use crate::types::{ActivePanel, LoadingPhase};

verus! {

/// What the loading progress bar does after the selection changed.
#[derive(Debug, Clone, Copy, PartialEq, Eq, Structural)]
pub enum ProgressSync {
    /// The selected model is served: the bar is full.
    Full,
    /// The selected model is loading or benchmarking: the bar stays.
    Keep,
    /// Nothing is loading for the selection: the bar is empty.
    Empty,
}

/// The loading display after the selection changed (`selected`: a model is selected;
/// `state`: its state, when it has one). A served model shows the load complete; a
/// loading or benchmarking one keeps its load; otherwise the load is forgotten (with no
/// model selected the counts stay). Loading the model's settings and metadata is the
/// application's.
pub fn on_model_selection_change(tracker: &mut LoadingTracker, selected: bool, state: Option<&ModelState>) -> (r: ProgressSync)
    ensures
        ({
            let s = opt_state_view(state);
            if selected && s matches Some(ModelStateView::Loaded { .. }) {
                &&& r == ProgressSync::Full
                &&& final(tracker).phases.view() == old(tracker).phases.view().insert(LoadingPhase::Complete)
                &&& final(tracker).last_active_phase == old(tracker).last_active_phase
                &&& final(tracker).load_progress == old(tracker).load_progress
            } else if selected && (s == Some(ModelStateView::Loading) || s == Some(ModelStateView::Benchmarking)) {
                &&& r == ProgressSync::Keep
                &&& *final(tracker) == *old(tracker)
            } else {
                &&& r == ProgressSync::Empty
                &&& final(tracker).phases.view() == Set::<LoadingPhase>::empty()
                &&& final(tracker).last_active_phase is None
                &&& selected ==> final(tracker).load_progress == LoadProgress {
                    layers_total: None,
                    layers_loaded: None,
                    tensors_total: None,
                    tensors_loaded: 0,
                }
                &&& !selected ==> final(tracker).load_progress == old(tracker).load_progress
            }
        }),
{
    if selected {
        match state {
            Some(ModelState::Loaded { .. }) => {
                tracker.phases.insert(LoadingPhase::Complete);
                ProgressSync::Full
            },
            Some(ModelState::Loading) | Some(ModelState::Benchmarking) => ProgressSync::Keep,
            _ => {
                tracker.reset();
                ProgressSync::Empty
            },
        }
    } else {
        tracker.phases.clear();
        tracker.last_active_phase = None;
        ProgressSync::Empty
    }
}

/// One tick of the loading spinner: while a model loads and the last step is due (none
/// yet, or more than 150 ms ago, as the application's clock says), the spinner moves to
/// its next of four positions. Returns whether it moved (the step time restarts).
pub fn tick_spinner(spinner: &mut u8, loading: bool, due: bool) -> (moved: bool)
    requires
        *old(spinner) < 255,
    ensures
        moved == (loading && due),
        moved ==> *final(spinner) == (*old(spinner) + 1) % 4,
        !moved ==> *final(spinner) == *old(spinner),
{
    if loading && due {
        *spinner = (*spinner + 1) % 4;
        true
    } else {
        false
    }
}

/// The settings help's timer and visibility.
#[derive(Debug, Clone, Copy, PartialEq, Eq, Structural)]
pub struct HelpTimer {
    /// The settings panel has had focus since a moment the application's clock holds.
    pub started: bool,
    pub visible: bool,
}

/// One tick of the settings help: away from the settings panel the timer stops and the
/// help hides; on it the timer starts, and once it has run 1.5 s (`elapsed_ms`, read by
/// the application from its clock) the help shows.
pub fn tick_settings_help(timer: &mut HelpTimer, panel: ActivePanel, elapsed_ms: u64) -> (start_clock: bool)
    ensures
        panel != ActivePanel::LlmSettings ==> !start_clock && !final(timer).started && !final(timer).visible,
        panel == ActivePanel::LlmSettings ==> {
            &&& start_clock == !old(timer).started
            &&& final(timer).started
            &&& final(timer).visible == (old(timer).visible || (old(timer).started && elapsed_ms >= 1500))
        },
{
    if panel != ActivePanel::LlmSettings {
        timer.started = false;
        timer.visible = false;
        return false;
    }
    let start_clock = !timer.started;
    if start_clock {
        timer.started = true;
    } else if !timer.visible && elapsed_ms >= 1500 {
        timer.visible = true;
    }
    start_clock
}

} // verus!
