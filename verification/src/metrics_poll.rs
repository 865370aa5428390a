//! The server metrics poller: counting failed polls, merging the counters of the model
//! being served, and keeping counters the server stops reporting.
use vstd::prelude::*;
use crate::model_state::{opt_state_view, ModelState, ModelStateView};
use crate::server_flow::names_view;
use crate::text::str_eq;

verus! {

/// Failed polls in a row after which polling stops (the server is taken for dead).
pub const MAX_METRIC_FAILURES: u32 = 15;

/// What to do after a failed poll.
#[derive(Debug, Clone, Copy, PartialEq, Eq, Structural)]
pub enum FailedPoll {
    /// Poll again later, warning in the log on the first failure of every five.
    Retry { warn: bool },
    /// Stop polling.
    Abort,
}

/// A poll failed: one more failure in a row (see `FailedPoll`).
pub fn poll_failed(failures: &mut u32) -> (r: FailedPoll)
    requires
        *old(failures) < u32::MAX,
    ensures
        *final(failures) == *old(failures) + 1,
        r == (if *final(failures) >= MAX_METRIC_FAILURES { FailedPoll::Abort } else { FailedPoll::Retry { warn: *final(failures) % 5 == 1 } }),
{
    *failures = *failures + 1;
    if *failures >= MAX_METRIC_FAILURES {
        FailedPoll::Abort
    } else {
        FailedPoll::Retry { warn: *failures % 5 == 1 }
    }
}

/// The counters of a metrics report that the interface reads as whole numbers.
#[derive(Debug, Clone, Copy, PartialEq, Eq, Structural)]
pub struct Counters {
    pub ctx_used: u32,
    pub ctx_max: u32,
    pub decoded_tokens: u64,
    pub gpu_mem_used: u64,
    pub gpu_mem_total: u64,
}

/// The model's own memory figure is used unless the server knows its total memory and
/// the model's figure is below a quarter of it.
pub open spec fn model_vram_used(model_used: u64, total: u64) -> bool {
    total == 0 || model_used >= total / 4
}

/// The server-wide counters with those of the model served merged in: its context in
/// use, its context size when it reports one, and its memory (see `model_vram_used`).
pub open spec fn merged(server: Counters, model: Counters) -> Counters {
    Counters {
        ctx_used: model.ctx_used,
        ctx_max: if model.ctx_max > 0 { model.ctx_max } else { server.ctx_max },
        gpu_mem_used: if model_vram_used(model.gpu_mem_used, server.gpu_mem_total) { model.gpu_mem_used } else { server.gpu_mem_used },
        ..server
    }
}

pub fn merge_model_counters(server: &Counters, model: &Counters) -> (r: Counters)
    ensures
        r == merged(*server, *model),
{
    let use_model = server.gpu_mem_total == 0 || model.gpu_mem_used >= server.gpu_mem_total / 4;
    Counters {
        ctx_used: model.ctx_used,
        ctx_max: if model.ctx_max > 0 { model.ctx_max } else { server.ctx_max },
        decoded_tokens: server.decoded_tokens,
        gpu_mem_used: if use_model { model.gpu_mem_used } else { server.gpu_mem_used },
        gpu_mem_total: server.gpu_mem_total,
    }
}

/// The model served changed since the last poll.
pub fn served_model_changed(previous: &Option<String>, name: &str) -> (r: bool)
    ensures
        r == (match previous { Some(p) => p@ != name@, None => true }),
{
    match previous {
        Some(p) => !str_eq(p.as_str(), name),
        None => true,
    }
}

/// A new report, with what the previous one had where the new one reports nothing:
/// the context size is the one the server was started with (when known), memory in use
/// (with its total) carries over when the report has none, and so do the context in use
/// and the tokens decoded.
pub open spec fn carried(new: Counters, prev: Counters, spawned_ctx: u32) -> Counters {
    let keep_mem = new.gpu_mem_used == 0 && prev.gpu_mem_used > 0;
    Counters {
        ctx_max: if spawned_ctx > 0 { spawned_ctx } else { new.ctx_max },
        gpu_mem_used: if keep_mem { prev.gpu_mem_used } else { new.gpu_mem_used },
        gpu_mem_total: if keep_mem && new.gpu_mem_total == 0 { prev.gpu_mem_total } else { new.gpu_mem_total },
        ctx_used: if new.ctx_used == 0 && prev.ctx_used > 0 { prev.ctx_used } else { new.ctx_used },
        decoded_tokens: if new.decoded_tokens == 0 && prev.decoded_tokens > 0 { prev.decoded_tokens } else { new.decoded_tokens },
    }
}

pub fn carry_over(new: &Counters, prev: &Counters, spawned_ctx: u32) -> (r: Counters)
    ensures
        r == carried(*new, *prev, spawned_ctx),
{
    let keep_mem = new.gpu_mem_used == 0 && prev.gpu_mem_used > 0;
    Counters {
        ctx_max: if spawned_ctx > 0 { spawned_ctx } else { new.ctx_max },
        gpu_mem_used: if keep_mem { prev.gpu_mem_used } else { new.gpu_mem_used },
        gpu_mem_total: if keep_mem && new.gpu_mem_total == 0 { prev.gpu_mem_total } else { new.gpu_mem_total },
        ctx_used: if new.ctx_used == 0 && prev.ctx_used > 0 { prev.ctx_used } else { new.ctx_used },
        decoded_tokens: if new.decoded_tokens == 0 && prev.decoded_tokens > 0 { prev.decoded_tokens } else { new.decoded_tokens },
    }
}

// ───────────────────────── laws ─────────────────────────

/// Between two successful polls the log warns on the first, sixth and eleventh failure
/// in a row, and polling stops at the fifteenth.
pub proof fn law_failure_warnings(count: u32)
    requires
        1 <= count <= MAX_METRIC_FAILURES,
    ensures
        (count < MAX_METRIC_FAILURES && count % 5 == 1) <==> (count == 1 || count == 6 || count == 11),
        count >= MAX_METRIC_FAILURES <==> count == 15,
{
}

/// A counter the previous report had is never lost to a report that has none.
pub proof fn law_counters_carry_over(new: Counters, prev: Counters, spawned_ctx: u32)
    ensures
        prev.ctx_used > 0 ==> carried(new, prev, spawned_ctx).ctx_used > 0,
        prev.decoded_tokens > 0 ==> carried(new, prev, spawned_ctx).decoded_tokens > 0,
        prev.gpu_mem_used > 0 ==> carried(new, prev, spawned_ctx).gpu_mem_used > 0,
        spawned_ctx > 0 ==> carried(new, prev, spawned_ctx).ctx_max == spawned_ctx,
{
}

// ───────────────────────── the model shown ─────────────────────────

pub open spec fn str_opt_view(s: Option<&str>) -> Option<Seq<char>> {
    match s {
        Some(x) => Some(x@),
        None => None,
    }
}

/// The model whose metrics are shown: the selected model (`selected`, in state `state`)
/// when it is served, otherwise the first served model.
pub open spec fn metrics_model(
    selected: Option<Seq<char>>,
    state: Option<ModelStateView>,
    served: Seq<Seq<char>>,
) -> Option<Seq<char>> {
    if selected is Some && state matches Some(ModelStateView::Loaded { .. }) {
        selected
    } else if served.len() > 0 {
        Some(served[0])
    } else {
        None
    }
}

/// Picks the model whose metrics are shown (see `metrics_model`).
pub fn update_metrics_model_name(
    selected: Option<&str>,
    selected_state: Option<&ModelState>,
    served: &Vec<String>,
) -> (r: Option<String>)
    ensures
        match r {
            Some(n) => metrics_model(str_opt_view(selected), opt_state_view(selected_state), names_view(served@)) == Some(n@),
            None => metrics_model(str_opt_view(selected), opt_state_view(selected_state), names_view(served@)) is None,
        },
{
    if let Some(name) = selected {
        if let Some(ModelState::Loaded { .. }) = selected_state {
            return Some(name.to_string());
        }
    }
    if served.len() > 0 {
        Some(served[0].clone())
    } else {
        None
    }
}

/// The model name shown with the metrics: the metrics' model, else the selected
/// model's display name, else nothing.
pub fn get_model_name(metrics_name: &Option<String>, selected: Option<&str>) -> (r: String)
    ensures
        r@ == match (metrics_name, selected) {
            (Some(n), _) => n@,
            (None, Some(s)) => s@,
            (None, None) => Seq::<char>::empty(),
        },
{
    match metrics_name {
        Some(n) => n.clone(),
        None => match selected {
            Some(s) => s.to_string(),
            None => String::new(),
        },
    }
}

} // verus!
