use llm_manager::loading::LoadingTracker;
use llm_manager::logbook::LogLevel;
use llm_manager::metrics_poll::{get_model_name, update_metrics_model_name};
use llm_manager::model_state::ModelState;
use llm_manager::task_results::{
    backend_resolution_line, finish_bench_tune, mark_server_listening, spawn_failed_line, spawn_started_line,
    BenchOutcome,
};
use llm_manager::ticks::{on_model_selection_change, tick_settings_help, tick_spinner, HelpTimer, ProgressSync};
use llm_manager::types::{ActivePanel, LoadingPhase};

#[test]
fn selecting_a_served_model_shows_the_load_complete() {
    let mut t = LoadingTracker::new();
    let st = ModelState::Loaded { port: 1, pid: 2 };
    assert_eq!(on_model_selection_change(&mut t, true, Some(&st)), ProgressSync::Full);
    assert!(t.phases.contains(LoadingPhase::Complete));
}

#[test]
fn selecting_a_loading_model_keeps_its_load() {
    let mut t = LoadingTracker::new();
    t.detect_loading_phases("llama_model_loader: x");
    assert_eq!(on_model_selection_change(&mut t, true, Some(&ModelState::Loading)), ProgressSync::Keep);
    assert_eq!(t.last_active_phase, Some(LoadingPhase::LoadingModel));
    assert_eq!(on_model_selection_change(&mut t, true, Some(&ModelState::Benchmarking)), ProgressSync::Keep);
    assert!(t.phases.contains(LoadingPhase::LoadingModel));
}

#[test]
fn selecting_an_idle_model_or_none_forgets_the_load() {
    let mut t = LoadingTracker::new();
    t.detect_loading_phases("llama_model_loader: x");
    assert_eq!(on_model_selection_change(&mut t, true, None), ProgressSync::Empty);
    assert!(t.phases.is_empty());
    assert_eq!(t.last_active_phase, None);
    t.detect_loading_phases("load tensors: x");
    t.parse_loading_details("...");
    assert_eq!(on_model_selection_change(&mut t, false, None), ProgressSync::Empty);
    assert!(t.phases.is_empty());
    assert_eq!(t.load_progress.tensors_loaded, 3);
}

#[test]
fn spinner_turns_through_four_positions_while_loading() {
    let mut s: u8 = 3;
    assert!(tick_spinner(&mut s, true, true));
    assert_eq!(s, 0);
    assert!(!tick_spinner(&mut s, true, false));
    assert_eq!(s, 0);
    assert!(!tick_spinner(&mut s, false, true));
    assert_eq!(s, 0);
    assert!(tick_spinner(&mut s, true, true));
    assert_eq!(s, 1);
}

#[test]
fn settings_help_shows_after_a_pause() {
    let mut h = HelpTimer { started: false, visible: false };
    assert!(tick_settings_help(&mut h, ActivePanel::LlmSettings, 0));
    assert!(h.started && !h.visible);
    assert!(!tick_settings_help(&mut h, ActivePanel::LlmSettings, 1499));
    assert!(!h.visible);
    assert!(!tick_settings_help(&mut h, ActivePanel::LlmSettings, 1500));
    assert!(h.visible);
    assert!(!tick_settings_help(&mut h, ActivePanel::Models, 5000));
    assert!(!h.started && !h.visible);
}

#[test]
fn metrics_follow_the_selected_served_model() {
    let served = vec!["a".to_string(), "b".to_string()];
    let loaded = ModelState::Loaded { port: 1, pid: 1 };
    assert_eq!(update_metrics_model_name(Some("b"), Some(&loaded), &served), Some("b".to_string()));
    assert_eq!(update_metrics_model_name(Some("c"), Some(&ModelState::Available), &served), Some("a".to_string()));
    assert_eq!(update_metrics_model_name(None, None, &served), Some("a".to_string()));
    assert_eq!(update_metrics_model_name(Some("c"), None, &Vec::new()), None);
}

#[test]
fn model_name_prefers_the_metrics_model() {
    assert_eq!(get_model_name(&Some("m".to_string()), Some("s")), "m");
    assert_eq!(get_model_name(&None, Some("s")), "s");
    assert_eq!(get_model_name(&None, None), "");
}

#[test]
fn spawn_lines_and_listening_phase() {
    assert_eq!(spawn_started_line(8080, 4242), "Server started on port 8080 (pid=4242)");
    assert_eq!(spawn_failed_line("port in use"), "ERROR: Server failed: port in use");
    let mut t = LoadingTracker::new();
    t.detect_loading_phases("llama_model_loader: x");
    mark_server_listening(&mut t);
    assert_eq!(t.phases.len(), 1);
    assert!(t.phases.contains(LoadingPhase::ServerListening));
    assert_eq!(t.last_active_phase, Some(LoadingPhase::ServerListening));
}

#[test]
fn completed_bench_tuning_frees_and_unloads_the_model() {
    let mut states = vec![("m".to_string(), ModelState::Benchmarking)];
    let r = finish_bench_tune(&mut states, "m", Some("m"), &BenchOutcome::Completed { count: 3 }, true);
    assert_eq!(r.lines, vec![("Benchmark tuning completed for m with 3 results".to_string(), LogLevel::Info)]);
    assert!(r.save_results);
    assert_eq!(r.unload, Some("m".to_string()));
    assert!(matches!(states[0].1, ModelState::Available));
}

#[test]
fn empty_bench_tuning_warns_and_saves_nothing() {
    let mut states: Vec<(String, ModelState)> = Vec::new();
    let r = finish_bench_tune(&mut states, "m", None, &BenchOutcome::Completed { count: 0 }, true);
    assert_eq!(r.lines.len(), 2);
    assert_eq!(r.lines[1].1, LogLevel::Warning);
    assert!(r.lines[1].0.starts_with("No successful benchmark results"));
    assert!(!r.save_results);
    assert_eq!(r.unload, None);
    assert!(states.is_empty());
}

#[test]
fn failed_bench_tuning_marks_the_model_failed() {
    let mut states = vec![("m".to_string(), ModelState::Benchmarking)];
    let r = finish_bench_tune(&mut states, "m", Some("m"), &BenchOutcome::Failed("oom".to_string()), true);
    assert_eq!(r.lines, vec![("Benchmark tuning failed: oom".to_string(), LogLevel::Error)]);
    assert_eq!(r.unload, None);
    match &states[0].1 {
        ModelState::Failed { error } => assert_eq!(error, "oom"),
        _ => panic!("not failed"),
    }
}

#[test]
fn backend_installation_lines() {
    assert_eq!(backend_resolution_line(&Ok("/bin/llama-server".to_string())), ("Backend ready: /bin/llama-server".to_string(), LogLevel::Info));
    assert_eq!(backend_resolution_line(&Err("no network".to_string())), ("Backend installation failed: no network".to_string(), LogLevel::Error));
}
