use llm_manager::loading::LoadingTracker;
use llm_manager::logbook::{add_log, detect_load_state, push_log_entry, reset_loading_state, trim_log, LogEntry, LogLevel, MAX_LOG_ENTRIES};
use llm_manager::model_state::ModelState;
use llm_manager::types::LoadingPhase;

fn entry(n: usize) -> LogEntry {
    LogEntry { time: "12:00:00".to_string(), message: format!("line {}", n), level: LogLevel::Info }
}

fn is_failed(s: &ModelState) -> bool {
    matches!(s, ModelState::Failed { .. })
}

#[test]
fn log_keeps_the_newest_five_hundred_lines() {
    let mut log: Vec<LogEntry> = Vec::new();
    for n in 0..MAX_LOG_ENTRIES + 3 {
        push_log_entry(&mut log, entry(n));
        assert!(log.len() <= MAX_LOG_ENTRIES);
    }
    assert_eq!(log.len(), 500);
    assert_eq!(log[0].message, "line 3");
    assert_eq!(log[499].message, "line 502");
}

#[test]
fn trimming_a_short_log_changes_nothing() {
    let mut log = vec![entry(1), entry(2)];
    trim_log(&mut log);
    assert_eq!(log.len(), 2);
    let mut full: Vec<LogEntry> = (0..MAX_LOG_ENTRIES).map(entry).collect();
    trim_log(&mut full);
    assert_eq!(full.len(), 499);
    assert_eq!(full[0].message, "line 1");
}

#[test]
fn reset_fails_loading_models_and_stops_serving_them() {
    let mut t = LoadingTracker::new();
    let mut spinner: u8 = 2;
    t.detect_loading_phases("llama_model_loader: loaded meta data");
    let mut states = vec![
        ("a".to_string(), ModelState::Loading),
        ("b".to_string(), ModelState::Loaded { port: 1, pid: 2 }),
        ("c".to_string(), ModelState::Available),
    ];
    let mut served = vec!["a".to_string(), "b".to_string()];
    let (failed, msg) = reset_loading_state(&mut t, &mut spinner, &mut states, &mut served, &Some("boom".to_string()), false);
    assert_eq!(failed, vec!["a".to_string()]);
    assert_eq!(msg, "boom");
    assert_eq!(spinner, 0);
    assert!(t.phases.is_empty());
    assert!(is_failed(&states[0].1));
    assert!(matches!(states[1].1, ModelState::Loaded { .. }));
    assert_eq!(served, vec!["b".to_string()]);
}

#[test]
fn crash_reset_also_fails_loaded_models() {
    let mut t = LoadingTracker::new();
    let mut spinner: u8 = 2;
    let mut states = vec![
        ("a".to_string(), ModelState::Loading),
        ("b".to_string(), ModelState::Loaded { port: 1, pid: 2 }),
    ];
    let mut served = vec!["b".to_string(), "x".to_string()];
    let (failed, msg) = reset_loading_state(&mut t, &mut spinner, &mut states, &mut served, &None, true);
    assert_eq!(failed, vec!["a".to_string(), "b".to_string()]);
    assert!(msg.starts_with("Last Failed to load a model ("));
    assert!(is_failed(&states[1].1));
    assert_eq!(served, vec!["x".to_string()]);
}

#[test]
fn loading_error_while_loading_fails_the_load() {
    let mut t = LoadingTracker::new();
    let mut spinner: u8 = 2;
    let mut states = vec![("a".to_string(), ModelState::Loading)];
    let mut served: Vec<String> = Vec::new();
    let mut last_error: Option<String> = None;
    let r = detect_load_state("ggml_vulkan: ErrorOutOfDeviceMemory out of memory", &mut t, &mut spinner, &mut states, &mut served, &mut last_error);
    assert_eq!(r, Some(vec!["a".to_string()]));
    let e = last_error.clone().unwrap();
    assert!(e.starts_with("Last Failed to load a model (OOM - "));
    match &states[0].1 {
        ModelState::Failed { error } => assert_eq!(error, &e),
        _ => panic!("not failed"),
    }
}

#[test]
fn loading_error_with_nothing_loading_changes_nothing() {
    let mut t = LoadingTracker::new();
    let mut spinner: u8 = 2;
    let mut states = vec![("a".to_string(), ModelState::Available)];
    let mut served = vec!["a".to_string()];
    let mut last_error: Option<String> = None;
    let r = detect_load_state("error: failed to load model", &mut t, &mut spinner, &mut states, &mut served, &mut last_error);
    assert_eq!(r, None);
    assert!(last_error.is_none());
    assert_eq!(spinner, 2);
    assert_eq!(served, vec!["a".to_string()]);
}

#[test]
fn a_log_line_moves_the_load_on_and_is_kept() {
    let mut log: Vec<LogEntry> = Vec::new();
    let mut t = LoadingTracker::new();
    let mut spinner: u8 = 2;
    let mut states = vec![("a".to_string(), ModelState::Loading)];
    let mut served: Vec<String> = Vec::new();
    let mut last_error = Some("old".to_string());
    let fx = add_log(&mut log, &mut t, &mut spinner, &mut states, &mut served, &mut last_error,
        "llama_model_loader: loaded meta data with 30 pairs".to_string(), LogLevel::Info, "10:00:00".to_string());
    assert!(fx.phase_changed);
    assert!(fx.failed.is_none());
    assert_eq!(t.last_active_phase, Some(LoadingPhase::LoadingMeta));
    assert!(last_error.is_none());
    assert_eq!(log.len(), 1);
    assert_eq!(log[0].time, "10:00:00");
    assert_eq!(log[0].level, LogLevel::Info);

    let fx = add_log(&mut log, &mut t, &mut spinner, &mut states, &mut served, &mut last_error,
        "error: failed to load model".to_string(), LogLevel::Error, "10:00:01".to_string());
    assert!(!fx.phase_changed);
    assert_eq!(fx.failed, Some(vec!["a".to_string()]));
    assert!(t.phases.is_empty());
    assert!(is_failed(&states[0].1));
    assert_eq!(log.len(), 2);
    assert_eq!(log[1].message, "error: failed to load model");
}
