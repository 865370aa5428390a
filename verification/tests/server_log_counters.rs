use llm_manager::server_log::{apply_log_counters, read_counter, LOG_LINES_PER_POLL};

#[test]
fn reads_tokens_in_use() {
    let line = "slot update_slots: id  0 | task 5 | prompt done, n_past = 10, n_tokens = 512, progress = 1.0";
    assert_eq!(read_counter(line, "n_tokens =", u32::MAX as u64), Some(512));
    assert_eq!(read_counter("no counter here", "n_tokens =", u32::MAX as u64), None);
    assert_eq!(read_counter("n_tokens = abc, x", "n_tokens =", u32::MAX as u64), None);
}

#[test]
fn last_occurrence_wins() {
    assert_eq!(read_counter("n_tokens = 1, n_tokens = 2", "n_tokens =", 100), Some(2));
    assert_eq!(read_counter("n_tokens =   77   ", "n_tokens =", 100), Some(77));
    assert_eq!(read_counter("n_tokens = 700", "n_tokens =", 100), None);
}

#[test]
fn counters_update_from_lines() {
    let mut ctx = 5u32;
    let mut decoded = 9u64;
    apply_log_counters("print_timing: n_decoded = 37, t = 2 ms", &mut ctx, &mut decoded);
    assert_eq!((ctx, decoded), (5, 37));
    apply_log_counters("n_tokens = 4096, n_decoded = 12", &mut ctx, &mut decoded);
    assert_eq!((ctx, decoded), (4096, 12));
    apply_log_counters("n_tokens = 99999999999", &mut ctx, &mut decoded);
    assert_eq!(ctx, 4096);
    assert_eq!(LOG_LINES_PER_POLL, 101);
}
