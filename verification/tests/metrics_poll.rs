use llm_manager::metrics_poll::{
    carry_over, merge_model_counters, poll_failed, served_model_changed, Counters, FailedPoll,
};

fn c(ctx_used: u32, ctx_max: u32, decoded: u64, used: u64, total: u64) -> Counters {
    Counters { ctx_used, ctx_max, decoded_tokens: decoded, gpu_mem_used: used, gpu_mem_total: total }
}

#[test]
fn failures_warn_then_abort() {
    let mut n = 0u32;
    let mut warnings = vec![];
    loop {
        match poll_failed(&mut n) {
            FailedPoll::Retry { warn } => {
                if warn {
                    warnings.push(n);
                }
            }
            FailedPoll::Abort => break,
        }
    }
    assert_eq!(n, 15);
    assert_eq!(warnings, vec![1, 6, 11]);
}

#[test]
fn model_counters_merge() {
    let server = c(1, 4096, 7, 1000, 8000);
    let m = merge_model_counters(&server, &c(300, 0, 0, 2500, 0));
    assert_eq!(m, c(300, 4096, 7, 2500, 8000));
    let m = merge_model_counters(&server, &c(300, 8192, 0, 100, 0));
    assert_eq!(m, c(300, 8192, 7, 1000, 8000));
    let m = merge_model_counters(&c(0, 0, 0, 5, 0), &c(1, 0, 0, 3, 0));
    assert_eq!(m.gpu_mem_used, 3);
}

#[test]
fn counters_carry_over_missing_values() {
    let prev = c(10, 2048, 50, 900, 8000);
    assert_eq!(carry_over(&c(0, 1000, 0, 0, 0), &prev, 0), c(10, 1000, 50, 900, 8000));
    assert_eq!(carry_over(&c(3, 1000, 4, 5, 6), &prev, 4096), c(3, 4096, 4, 5, 6));
}

#[test]
fn served_model_change() {
    assert!(served_model_changed(&None, "a"));
    assert!(served_model_changed(&Some("b".to_string()), "a"));
    assert!(!served_model_changed(&Some("a".to_string()), "a"));
}
