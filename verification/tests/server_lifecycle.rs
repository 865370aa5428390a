use llm_manager::model_state::ModelState;
use llm_manager::server_flow::{
    complete_loading, decide_queued_load, decide_queued_unload, finish_unload, router_should_stop, server_exit_states,
    set_state, spawn_display_name, spawn_state, stop_server_states, QueuedLoad, QueuedUnload,
};
use llm_manager::server_settings::ServerMode;

fn states() -> Vec<(String, ModelState)> {
    vec![
        ("llama-server".to_string(), ModelState::Loading),
        ("qwen".to_string(), ModelState::Loading),
        ("old".to_string(), ModelState::Loaded { port: 1, pid: 2 }),
        ("bad".to_string(), ModelState::Failed { error: "x".to_string() }),
        ("idle".to_string(), ModelState::Available),
        ("bench".to_string(), ModelState::Benchmarking),
    ]
}

fn summary(s: &[(String, ModelState)]) -> Vec<String> {
    s.iter()
        .map(|(n, st)| {
            let k = match st {
                ModelState::Available => "available".to_string(),
                ModelState::Loading => "loading".to_string(),
                ModelState::Loaded { port, pid } => format!("loaded:{}:{}", port, pid),
                ModelState::Failed { error } => format!("failed:{}", error),
                ModelState::Benchmarking => "benchmarking".to_string(),
            };
            format!("{}={}", n, k)
        })
        .collect()
}

#[test]
fn completion_marks_loading_models_loaded() {
    let mut s = states();
    let mut served = vec!["old".to_string()];
    complete_loading(&mut s, &mut served, 8080, 42);
    assert_eq!(
        summary(&s),
        vec!["qwen=loaded:8080:42", "old=loaded:1:2", "bad=failed:x", "idle=available", "bench=benchmarking"]
    );
    assert_eq!(served, vec!["old".to_string(), "qwen".to_string()]);
    complete_loading(&mut s, &mut served, 8080, 42);
    assert_eq!(served.len(), 2);
}

#[test]
fn stopping_the_server_frees_running_models() {
    let mut s = states();
    stop_server_states(&mut s);
    assert_eq!(
        summary(&s),
        vec![
            "llama-server=available",
            "qwen=available",
            "old=available",
            "bad=failed:x",
            "idle=available",
            "bench=available"
        ]
    );
}

#[test]
fn server_exit_resets_unless_tuning() {
    let mut s = states();
    server_exit_states(&mut s, true);
    assert_eq!(summary(&s), summary(&states()));
    server_exit_states(&mut s, false);
    assert!(s.iter().all(|(_, st)| matches!(st, ModelState::Available)));
}

#[test]
fn set_state_replaces_or_adds() {
    let mut s = states();
    set_state(&mut s, "qwen", ModelState::Available);
    assert_eq!(summary(&s)[1], "qwen=available");
    set_state(&mut s, "new", ModelState::Loading);
    assert_eq!(s.len(), 7);
    assert_eq!(summary(&s)[6], "new=loading");
}

#[test]
fn spawn_state_and_name() {
    assert!(matches!(spawn_state(ServerMode::Bench), ModelState::Benchmarking));
    assert!(matches!(spawn_state(ServerMode::BenchTune), ModelState::Benchmarking));
    assert!(matches!(spawn_state(ServerMode::Router), ModelState::Loading));
    assert_eq!(spawn_display_name(None), "Router");
    assert_eq!(spawn_display_name(Some("qwen")), "qwen");
}

#[test]
fn queued_load_waits_for_listening_server() {
    assert_eq!(decide_queued_load(false, true, true, false), QueuedLoad::Wait);
    assert_eq!(decide_queued_load(true, true, false, false), QueuedLoad::Wait);
    assert_eq!(decide_queued_load(true, true, true, false), QueuedLoad::Send);
    assert_eq!(decide_queued_load(true, false, false, true), QueuedLoad::Wait);
    assert_eq!(decide_queued_load(true, false, false, false), QueuedLoad::Drop);
}

#[test]
fn queued_unload_depends_on_mode() {
    assert_eq!(decide_queued_unload(true, true, true, ServerMode::Normal), QueuedUnload::Wait);
    assert_eq!(decide_queued_unload(false, true, false, ServerMode::Normal), QueuedUnload::Drop);
    assert_eq!(decide_queued_unload(false, true, true, ServerMode::Normal), QueuedUnload::KillServer);
    assert_eq!(decide_queued_unload(false, true, true, ServerMode::Router), QueuedUnload::RequestUnload);
    assert_eq!(decide_queued_unload(false, false, true, ServerMode::Router), QueuedUnload::Wait);
}

#[test]
fn finishing_an_unload() {
    let mut s = states();
    let mut served = vec!["qwen".to_string(), "old".to_string(), "qwen".to_string()];
    finish_unload(&mut s, &mut served, "qwen");
    assert_eq!(served, vec!["old".to_string()]);
    assert_eq!(summary(&s)[1], "qwen=available");
}

#[test]
fn router_stops_when_empty() {
    assert!(router_should_stop(Some(0), false));
    assert!(!router_should_stop(Some(2), false));
    assert!(router_should_stop(Some(2), true));
    assert!(!router_should_stop(None, false));
    assert!(router_should_stop(None, true));
}
