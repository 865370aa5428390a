use llm_manager::download_list::{
    finished_log_line, handle_downloads_key, record_progress, started_log_line, take_finished, DownloadEntry,
    DownloadStatus, DownloadsKeyAction,
};
use llm_manager::keys::{Key, KeyCode};

fn entry(model: &str, file: &str, status: DownloadStatus, done: u64) -> DownloadEntry {
    DownloadEntry {
        model_id: model.to_string(),
        filename: file.to_string(),
        status,
        downloaded_bytes: done,
        total_bytes: 100,
    }
}

#[test]
fn progress_replaces_or_appends() {
    let mut list = vec![entry("a/m", "x.gguf", DownloadStatus::Downloading, 10)];
    let old = record_progress(&mut list, entry("a/m", "x.gguf", DownloadStatus::Downloading, 40));
    assert_eq!(old.map(|o| o.downloaded_bytes), Some(10));
    assert_eq!(list.len(), 1);
    assert_eq!(list[0].downloaded_bytes, 40);
    let old = record_progress(&mut list, entry("a/m", "y.gguf", DownloadStatus::Downloading, 0));
    assert!(old.is_none());
    assert_eq!(list.len(), 2);
    assert_eq!(list[1].filename, "y.gguf");
}

#[test]
fn finished_downloads_are_taken_out_in_order() {
    let mut list = vec![
        entry("a/m", "1.gguf", DownloadStatus::Complete, 100),
        entry("a/m", "2.gguf", DownloadStatus::Downloading, 5),
        entry("a/m", "3.gguf", DownloadStatus::Error("disk".to_string()), 5),
        entry("a/m", "4.gguf", DownloadStatus::Paused, 5),
        entry("llama-server", "b.zip", DownloadStatus::Cancelled, 5),
    ];
    let mut selected = Some(4);
    let mut downloading = true;
    let done = take_finished(&mut list, &mut selected, &mut downloading);
    assert!(downloading);
    let done_names: Vec<&str> = done.iter().map(|d| d.filename.as_str()).collect();
    assert_eq!(done_names, vec!["1.gguf", "3.gguf", "b.zip"]);
    let left: Vec<&str> = list.iter().map(|d| d.filename.as_str()).collect();
    assert_eq!(left, vec!["2.gguf", "4.gguf"]);
    assert_eq!(selected, Some(1));
}

#[test]
fn selection_cleared_when_nothing_left() {
    let mut list = vec![entry("a/m", "1.gguf", DownloadStatus::Complete, 100)];
    let mut selected = Some(0);
    let mut downloading = true;
    take_finished(&mut list, &mut selected, &mut downloading);
    assert!(list.is_empty());
    assert_eq!(selected, None);
    assert!(!downloading);
}

#[test]
fn selection_kept_when_nothing_finished() {
    let mut list = vec![entry("a/m", "1.gguf", DownloadStatus::Downloading, 1)];
    let mut selected = Some(7);
    let mut downloading = false;
    let done = take_finished(&mut list, &mut selected, &mut downloading);
    assert!(done.is_empty());
    assert_eq!(selected, Some(7));
    assert!(!downloading);
}

#[test]
fn log_lines_for_finished_downloads() {
    let l = finished_log_line(&entry("a/m", "x.gguf", DownloadStatus::Complete, 100));
    assert_eq!(l, ("Download complete: x.gguf".to_string(), false));
    let l = finished_log_line(&entry("llama-server", "b.zip", DownloadStatus::Complete, 100));
    assert_eq!(l, ("Backend download complete".to_string(), false));
    let l = finished_log_line(&entry("llama-server", "b.zip", DownloadStatus::Error("404".to_string()), 1));
    assert_eq!(l, ("Download failed (Backend): 404".to_string(), true));
    let l = finished_log_line(&entry("a/m", "x.gguf", DownloadStatus::Cancelled, 1));
    assert_eq!(l, ("Download cancelled: x.gguf".to_string(), false));
    assert_eq!(started_log_line(&entry("a/m", "x.gguf", DownloadStatus::Downloading, 0)), "Starting download: x.gguf...");
    assert_eq!(started_log_line(&entry("llama-server", "b", DownloadStatus::Downloading, 0)), "Starting backend download...");
}

#[test]
fn downloads_keys_move_and_cancel() {
    let mut sel: Option<usize> = None;
    assert_eq!(handle_downloads_key(&mut sel, Key::plain(KeyCode::Down)), DownloadsKeyAction::Nothing);
    assert_eq!(sel, Some(0));
    handle_downloads_key(&mut sel, Key::plain(KeyCode::Char('j')));
    assert_eq!(sel, Some(1));
    handle_downloads_key(&mut sel, Key::plain(KeyCode::Char('k')));
    handle_downloads_key(&mut sel, Key::plain(KeyCode::Up));
    assert_eq!(sel, Some(0));
    let alt_c = Key { code: KeyCode::Char('c'), ctrl: false, alt: true, shift: false };
    assert_eq!(handle_downloads_key(&mut sel, alt_c), DownloadsKeyAction::Cancel(0));
    let mut none: Option<usize> = None;
    assert_eq!(handle_downloads_key(&mut none, alt_c), DownloadsKeyAction::Nothing);
    handle_downloads_key(&mut none, Key::plain(KeyCode::Up));
    assert_eq!(none, Some(usize::MAX));
}
