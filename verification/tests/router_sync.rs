use llm_manager::model_state::ModelState;
use llm_manager::model_sync::{apply_reports, sync_model_states, LocalModel, ReportFileNames, ReportedModel};

fn local(display: &str, name: &str, path: &str) -> LocalModel {
    LocalModel { display_name: display.to_string(), name: name.to_string(), path: path.to_string() }
}

fn report(id: &str, status: &str, path: Option<&str>) -> ReportedModel {
    ReportedModel { id: id.to_string(), status: status.to_string(), path: path.map(|p| p.to_string()) }
}

fn locals() -> Vec<LocalModel> {
    vec![
        local("Qwen 7B", "qwen-7b.gguf", "/models/qwen-7b.gguf"),
        local("Llama 3", "llama3.gguf", "/models/llama3.gguf"),
        local("Phi", "phi.gguf", "/other/phi.gguf"),
    ]
}

fn state_of(states: &[(String, ModelState)], name: &str) -> Option<String> {
    states.iter().find(|(n, _)| n == name).map(|(_, s)| match s {
        ModelState::Available => "available".to_string(),
        ModelState::Loading => "loading".to_string(),
        ModelState::Loaded { port, pid } => format!("loaded:{}:{}", port, pid),
        ModelState::Failed { error } => format!("failed:{}", error),
        ModelState::Benchmarking => "benchmarking".to_string(),
    })
}

#[test]
fn reported_path_marks_model_loaded_and_served() {
    let mut states: Vec<(String, ModelState)> = vec![("Qwen 7B".to_string(), ModelState::Available)];
    let mut served: Vec<String> = Vec::new();
    let reports = vec![report("whatever", "LOADED", Some("/models/qwen-7b.gguf"))];
    sync_model_states(&mut states, &mut served, &locals(), &reports, 8080, 77);
    assert_eq!(state_of(&states, "Qwen 7B"), Some("loaded:8080:77".to_string()));
    assert_eq!(served, vec!["Qwen 7B".to_string()]);
}

#[test]
fn loading_status_marks_model_loading_without_serving() {
    let mut states: Vec<(String, ModelState)> = Vec::new();
    let mut served: Vec<String> = Vec::new();
    let reports = vec![report("Llama 3", "Loading", None)];
    sync_model_states(&mut states, &mut served, &locals(), &reports, 9000, 5);
    assert_eq!(state_of(&states, "Llama 3"), Some("loading".to_string()));
    assert!(served.is_empty());
}

#[test]
fn unloaded_status_changes_nothing() {
    let mut states: Vec<(String, ModelState)> = vec![("Phi".to_string(), ModelState::Available)];
    let mut served: Vec<String> = vec!["x".to_string()];
    let reports = vec![report("phi.gguf", "unloaded", None)];
    sync_model_states(&mut states, &mut served, &locals(), &reports, 9000, 5);
    assert_eq!(state_of(&states, "Phi"), Some("available".to_string()));
    assert_eq!(served, vec!["x".to_string()]);
}

#[test]
fn file_name_of_reported_path_matches() {
    let mut states: Vec<(String, ModelState)> = Vec::new();
    let mut served: Vec<String> = Vec::new();
    let reports = vec![report("alias", "ready", Some("/mnt/cache/phi.gguf"))];
    sync_model_states(&mut states, &mut served, &locals(), &reports, 1, 2);
    assert_eq!(state_of(&states, "Phi"), Some("loaded:1:2".to_string()));
    assert_eq!(served, vec!["Phi".to_string()]);
}

#[test]
fn file_name_of_id_matches() {
    let mut states: Vec<(String, ModelState)> = Vec::new();
    let mut served: Vec<String> = Vec::new();
    let reports = vec![report("some/dir/llama3.gguf", "loaded", None)];
    sync_model_states(&mut states, &mut served, &locals(), &reports, 3, 4);
    assert_eq!(state_of(&states, "Llama 3"), Some("loaded:3:4".to_string()));
}

#[test]
fn id_without_extension_falls_back_to_gguf_name() {
    let mut states: Vec<(String, ModelState)> = Vec::new();
    let mut served: Vec<String> = vec!["Qwen 7B".to_string()];
    let reports = vec![report("qwen-7b", "loaded", None)];
    sync_model_states(&mut states, &mut served, &locals(), &reports, 3, 4);
    assert_eq!(state_of(&states, "Qwen 7B"), Some("loaded:3:4".to_string()));
    assert_eq!(served, vec!["Qwen 7B".to_string()]);
}

#[test]
fn unknown_model_is_ignored() {
    let mut states: Vec<(String, ModelState)> = Vec::new();
    let mut served: Vec<String> = Vec::new();
    let reports = vec![report("mistral", "loaded", Some("/x/mistral.gguf"))];
    sync_model_states(&mut states, &mut served, &locals(), &reports, 3, 4);
    assert!(states.is_empty());
    assert!(served.is_empty());
}

#[test]
fn reports_apply_in_order() {
    let mut states: Vec<(String, ModelState)> = Vec::new();
    let mut served: Vec<String> = Vec::new();
    let reports = vec![report("Phi", "loading", None), report("Phi", "loaded", None)];
    let files = vec![
        ReportFileNames { path_file: None, id_file: Some("Phi".to_string()) },
        ReportFileNames { path_file: None, id_file: Some("Phi".to_string()) },
    ];
    apply_reports(&mut states, &mut served, &locals(), &reports, &files, 10, 11);
    assert_eq!(state_of(&states, "Phi"), Some("loaded:10:11".to_string()));
    assert_eq!(served, vec!["Phi".to_string()]);
}
