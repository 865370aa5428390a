use llm_manager::catalogue::{discover_models, FoundFile, HubTags};
use llm_manager::download_list::{DownloadEntry, DownloadStatus};

fn found(rel: &str, size: u64) -> FoundFile {
    let name = rel.rsplit('/').next().unwrap().to_string();
    FoundFile { path: format!("/models/{}", rel), name, size, display_name: rel.to_string() }
}

fn downloading(file: &str, total: u64) -> DownloadEntry {
    DownloadEntry {
        model_id: "org/repo".to_string(),
        filename: file.to_string(),
        status: DownloadStatus::Downloading,
        downloaded_bytes: 1,
        total_bytes: total,
    }
}

#[test]
fn models_are_listed_by_file_name() {
    let files = vec![found("z/b.gguf", 1), found("a.gguf", 2), found("c.gguf", 3)];
    let r = discover_models(&files, &Vec::new(), &Vec::new());
    let names: Vec<&str> = r.iter().map(|m| m.name.as_str()).collect();
    assert_eq!(names, vec!["a.gguf", "b.gguf", "c.gguf"]);
    assert_eq!(r[1].display_name, "z/b.gguf");
    assert_eq!(r[1].path, "/models/z/b.gguf");
    assert_eq!(r[2].file_size, 3);
}

#[test]
fn partial_downloads_are_left_out() {
    let files = vec![found("a.gguf", 10), found("b.gguf", 99)];
    let downloads = vec![downloading("a.gguf", 100), downloading("b.gguf", 99)];
    let r = discover_models(&files, &downloads, &Vec::new());
    assert_eq!(r.len(), 1);
    assert_eq!(r[0].name, "b.gguf");
}

#[test]
fn finished_downloads_do_not_hide_files() {
    let files = vec![found("a.gguf", 10)];
    let mut done = downloading("a.gguf", 100);
    done.status = DownloadStatus::Complete;
    let r = discover_models(&files, &vec![done], &Vec::new());
    assert_eq!(r.len(), 1);
}

#[test]
fn files_take_the_tags_of_their_repository() {
    let files = vec![found("Qwen/Qwen3-8B-GGUF/q4.gguf", 1), found("other.gguf", 1)];
    let hits = vec![
        HubTags { model_id: "Mistral".to_string(), pipeline_tag: Some("x".to_string()), capabilities: vec![] },
        HubTags {
            model_id: "Qwen/Qwen3-8B-GGUF".to_string(),
            pipeline_tag: Some("text-generation".to_string()),
            capabilities: vec!["tools".to_string()],
        },
        HubTags { model_id: "Qwen".to_string(), pipeline_tag: Some("later".to_string()), capabilities: vec![] },
    ];
    let r = discover_models(&files, &Vec::new(), &hits);
    assert_eq!(r[0].name, "other.gguf");
    assert_eq!(r[0].pipeline_tag, None);
    assert!(r[0].capabilities.is_empty());
    assert_eq!(r[1].pipeline_tag.as_deref(), Some("text-generation"));
    assert_eq!(r[1].capabilities, vec!["tools".to_string()]);
}
