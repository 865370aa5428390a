//! Key handling of the benchmark tuning panel: the table of results and the viewer of
//! each run's outputs.
//!
//! The results themselves stay with the application; these functions read, for each
//! result, how many outputs it recorded.
use vstd::prelude::*;
use crate::keys::{Key, KeyCode};

verus! {

/// Where the benchmark tuning panel is: the selected result row, and the output viewer
/// (which result, which of its outputs, and how far it is scrolled).
#[derive(Debug, Clone, Copy, PartialEq, Eq, Structural)]
pub struct BenchTuneState {
    pub bench_tune_output_view: Option<usize>,
    pub bench_tune_output_index: usize,
    pub bench_tune_output_scroll: usize,
    pub bench_tune_output_h_scroll: usize,
    pub bench_tune_result_row: usize,
}

/// The last output index of a result with `count` outputs (0 when it has none).
pub open spec fn last_output(count: usize) -> usize {
    if count > 0 { (count - 1) as usize } else { 0 }
}

/// `a + b`, stopping at the largest `usize`.
pub open spec fn sat_add(a: usize, b: usize) -> usize {
    if a + b > usize::MAX { usize::MAX } else { (a + b) as usize }
}

/// `a - b`, stopping at 0.
pub open spec fn sat_sub(a: usize, b: usize) -> usize {
    if a >= b { (a - b) as usize } else { 0 }
}

/// The viewer moved to `view`/`index`, scrolled back to the top-left.
pub open spec fn moved_to(s: BenchTuneState, view: usize, index: usize) -> BenchTuneState {
    BenchTuneState {
        bench_tune_output_view: Some(view),
        bench_tune_output_index: index,
        bench_tune_output_scroll: 0,
        bench_tune_output_h_scroll: 0,
        ..s
    }
}

/// What a key does in the output viewer, given the number of outputs of each result.
pub open spec fn output_step(s: BenchTuneState, key: Key, counts: Seq<usize>) -> BenchTuneState {
    match key.code {
        KeyCode::Esc => BenchTuneState { bench_tune_output_view: None, ..s },
        KeyCode::Down => BenchTuneState { bench_tune_output_scroll: sat_add(s.bench_tune_output_scroll, 1), ..s },
        KeyCode::Up => BenchTuneState { bench_tune_output_scroll: sat_sub(s.bench_tune_output_scroll, 1), ..s },
        KeyCode::PageDown => BenchTuneState { bench_tune_output_scroll: sat_add(s.bench_tune_output_scroll, 10), ..s },
        KeyCode::PageUp => BenchTuneState { bench_tune_output_scroll: sat_sub(s.bench_tune_output_scroll, 10), ..s },
        KeyCode::Right => match s.bench_tune_output_view {
            Some(r) => if r < counts.len() {
                if s.bench_tune_output_index < last_output(counts[r as int]) {
                    moved_to(s, r, (s.bench_tune_output_index + 1) as usize)
                } else if r + 1 < counts.len() {
                    moved_to(s, (r + 1) as usize, 0)
                } else {
                    s
                }
            } else {
                s
            },
            None => s,
        },
        KeyCode::Left => match s.bench_tune_output_view {
            Some(r) => if s.bench_tune_output_index > 0 {
                moved_to(s, r, (s.bench_tune_output_index - 1) as usize)
            } else if r > 0 {
                let p = (r - 1) as usize;
                moved_to(s, p, if p < counts.len() { last_output(counts[p as int]) } else { 0 })
            } else {
                s
            },
            None => s,
        },
        _ => s,
    }
}

/// Keys of the output viewer: Esc closes it, Up/Down and PageUp/PageDown scroll,
/// Right/Left go to the next/previous output, across results.
pub fn handle_bench_tune_output_key(state: &mut BenchTuneState, key: Key, output_counts: &Vec<usize>)
    ensures
        *final(state) == output_step(*old(state), key, output_counts@),
{
    match key.code {
        KeyCode::Esc => {
            state.bench_tune_output_view = None;
        },
        KeyCode::Down => {
            state.bench_tune_output_scroll = state.bench_tune_output_scroll.saturating_add(1);
        },
        KeyCode::Up => {
            state.bench_tune_output_scroll = state.bench_tune_output_scroll.saturating_sub(1);
        },
        KeyCode::PageDown => {
            state.bench_tune_output_scroll = state.bench_tune_output_scroll.saturating_add(10);
        },
        KeyCode::PageUp => {
            state.bench_tune_output_scroll = state.bench_tune_output_scroll.saturating_sub(10);
        },
        KeyCode::Right => {
            if let Some(result_idx) = state.bench_tune_output_view {
                if result_idx < output_counts.len() {
                    let max_iter_idx = output_counts[result_idx].saturating_sub(1);
                    if state.bench_tune_output_index < max_iter_idx {
                        state.bench_tune_output_index = state.bench_tune_output_index + 1;
                        state.bench_tune_output_scroll = 0;
                        state.bench_tune_output_h_scroll = 0;
                    } else if result_idx < output_counts.len() - 1 {
                        state.bench_tune_output_view = Some(result_idx + 1);
                        state.bench_tune_output_index = 0;
                        state.bench_tune_output_scroll = 0;
                        state.bench_tune_output_h_scroll = 0;
                    }
                }
            }
        },
        KeyCode::Left => {
            if let Some(result_idx) = state.bench_tune_output_view {
                if state.bench_tune_output_index > 0 {
                    state.bench_tune_output_index = state.bench_tune_output_index - 1;
                    state.bench_tune_output_scroll = 0;
                    state.bench_tune_output_h_scroll = 0;
                } else if result_idx > 0 {
                    let prev = result_idx - 1;
                    state.bench_tune_output_view = Some(prev);
                    state.bench_tune_output_index = if prev < output_counts.len() {
                        output_counts[prev].saturating_sub(1)
                    } else {
                        0
                    };
                    state.bench_tune_output_scroll = 0;
                    state.bench_tune_output_h_scroll = 0;
                }
            }
        },
        _ => {},
    }
}

/// What a key does in the results table; the flag tells whether the run is to be
/// cancelled and the panel left (Esc).
pub open spec fn results_step(s: BenchTuneState, key: Key, counts: Seq<usize>) -> (BenchTuneState, bool) {
    let row = s.bench_tune_result_row;
    match key.code {
        KeyCode::Esc => (s, true),
        KeyCode::Enter => if row < counts.len() && counts[row as int] > 0 {
            (
                BenchTuneState {
                    bench_tune_output_view: Some(row),
                    bench_tune_output_index: 0,
                    bench_tune_output_scroll: 0,
                    ..s
                },
                false,
            )
        } else {
            (s, false)
        },
        KeyCode::Down => if counts.len() > 0 {
            let next: int = if row + 1 < counts.len() { row + 1 } else { counts.len() - 1 };
            (BenchTuneState { bench_tune_result_row: next as usize, ..s }, false)
        } else {
            (s, false)
        },
        KeyCode::Up => if row > 0 {
            (BenchTuneState { bench_tune_result_row: (row - 1) as usize, ..s }, false)
        } else {
            (s, false)
        },
        _ => (s, false),
    }
}

/// Keys of the benchmark results table: Up/Down choose a row, Enter opens the outputs of
/// the chosen result (if it has any), Esc asks to cancel the run and leave the panel
/// (the returned flag); the application then signals the run and returns to the list.
pub fn handle_bench_tune_key(state: &mut BenchTuneState, key: Key, output_counts: &Vec<usize>) -> (cancel: bool)
    requires
        key.code == KeyCode::Down ==> old(state).bench_tune_result_row < usize::MAX,
    ensures
        (*final(state), cancel) == results_step(*old(state), key, output_counts@),
{
    match key.code {
        KeyCode::Esc => {
            return true;
        },
        KeyCode::Enter => {
            let result_idx = state.bench_tune_result_row;
            if result_idx < output_counts.len() && output_counts[result_idx] > 0 {
                state.bench_tune_output_view = Some(result_idx);
                state.bench_tune_output_index = 0;
                state.bench_tune_output_scroll = 0;
            }
        },
        KeyCode::Down => {
            let len = output_counts.len();
            if len > 0 {
                let next = state.bench_tune_result_row + 1;
                state.bench_tune_result_row = if next < len - 1 { next } else { len - 1 };
            }
        },
        KeyCode::Up => {
            if state.bench_tune_result_row > 0 {
                state.bench_tune_result_row = state.bench_tune_result_row - 1;
            }
        },
        _ => {},
    }
    false
}

// ───────────────────────── laws ─────────────────────────

/// The viewer shows an existing result, and an output within it (or the first).
pub open spec fn viewer_valid(s: BenchTuneState, counts: Seq<usize>) -> bool {
    match s.bench_tune_output_view {
        Some(r) => r < counts.len() && s.bench_tune_output_index <= last_output(counts[r as int]),
        None => true,
    }
}

/// Whatever key is pressed, the output viewer keeps showing an existing output.
pub proof fn law_viewer_stays_valid(s: BenchTuneState, key: Key, counts: Seq<usize>)
    requires
        viewer_valid(s, counts),
    ensures
        viewer_valid(output_step(s, key, counts), counts),
        results_step(s, key, counts).0.bench_tune_output_view is Some ==> viewer_valid(results_step(s, key, counts).0, counts),
{
}

/// Going to the next output and then back to the previous one returns to the same
/// output, whenever the first step moved.
pub proof fn law_left_undoes_right(s: BenchTuneState, counts: Seq<usize>)
    requires
        counts.len() <= usize::MAX,
        viewer_valid(s, counts),
        s.bench_tune_output_view is Some,
        output_step(s, Key { code: KeyCode::Right, ctrl: false, alt: false, shift: false }, counts) != s,
    ensures
        ({
            let back = output_step(
                output_step(s, Key { code: KeyCode::Right, ctrl: false, alt: false, shift: false }, counts),
                Key { code: KeyCode::Left, ctrl: false, alt: false, shift: false },
                counts,
            );
            back.bench_tune_output_view == s.bench_tune_output_view && back.bench_tune_output_index
                == s.bench_tune_output_index
        }),
{
    let right = Key { code: KeyCode::Right, ctrl: false, alt: false, shift: false };
    let left = Key { code: KeyCode::Left, ctrl: false, alt: false, shift: false };
    let r = s.bench_tune_output_view->0;
    let mid = output_step(s, right, counts);
    if s.bench_tune_output_index < last_output(counts[r as int]) {
        assert(mid == moved_to(s, r, (s.bench_tune_output_index + 1) as usize));
        assert(output_step(mid, left, counts) == moved_to(mid, r, s.bench_tune_output_index));
    } else {
        assert(r + 1 < counts.len());
        assert(mid == moved_to(s, (r + 1) as usize, 0));
        assert(s.bench_tune_output_index == last_output(counts[r as int]));
        assert(output_step(mid, left, counts) == moved_to(mid, r, last_output(counts[r as int])));
    }
}

/// The selected result row stays within a non-empty table.
pub proof fn law_result_row_stays_in_table(s: BenchTuneState, key: Key, counts: Seq<usize>)
    requires
        s.bench_tune_result_row < counts.len(),
    ensures
        results_step(s, key, counts).0.bench_tune_result_row < counts.len(),
{
}

} // verus!
