//! Key handling of the file list of a hub model: choosing a file, downloading it, and
//! going back to the search results.
use vstd::prelude::*;
use crate::keys::{Key, KeyCode};
use vstd::string::StringExecFns;
use crate::text::str_eq;
use crate::types::PendingEvent;

verus! {

/// What the application does after a key of the file list.
#[derive(Debug, Clone, Copy, PartialEq, Eq, Structural)]
pub enum FilesEffect {
    /// Go back to the search results kept when the file list opened.
    BackToSearch,
    /// Log that the chosen file is being downloaded already.
    AlreadyDownloading,
    /// Download the file at this position (unless it is on disk already, which the
    /// application checks and logs).
    Download(usize),
    /// Give the focus to the README panel.
    FocusReadme,
    /// Fetch the README of the model whose files are shown.
    FetchReadme,
}

/// The file list selection after Up: one row up, or the first row when none is selected.
pub open spec fn files_up(sel: Option<usize>, len: nat) -> Option<usize> {
    match sel {
        Some(i) => if i > 0 { Some((i - 1) as usize) } else { sel },
        None => if len > 0 { Some(0) } else { None },
    }
}

/// The file list selection after Down: one row down within the list, or the first row
/// when none is selected.
pub open spec fn files_down(sel: Option<usize>, len: nat) -> Option<usize> {
    match sel {
        Some(i) => if i + 1 < len { Some((i + 1) as usize) } else { sel },
        None => if len > 0 { Some(0) } else { None },
    }
}

/// The search result selection when going back: kept, unless it points past the kept
/// results, then the first.
pub open spec fn restored_result(current: Option<usize>, results: nat) -> Option<usize> {
    match current {
        Some(i) => if i >= results { Some(0) } else { current },
        None => None,
    }
}

/// The file `name` of model `model_id` is among the downloads in progress.
pub open spec fn downloading_now(in_progress: Seq<(Seq<char>, Seq<char>)>, model_id: Seq<char>, name: Seq<char>) -> bool {
    exists|i: int| 0 <= i < in_progress.len() && #[trigger] in_progress[i] == (model_id, name)
}

/// What a key does in the file list of `model_id` (with the file names `files`): the new
/// file selection, the new search result selection, and the effects.
pub open spec fn files_step(
    sel: Option<usize>,
    result_idx: Option<usize>,
    key: Key,
    model_id: Seq<char>,
    files: Seq<Seq<char>>,
    previous_results: nat,
    in_progress: Seq<(Seq<char>, Seq<char>)>,
) -> (Option<usize>, Option<usize>, Seq<FilesEffect>) {
    match key.code {
        KeyCode::Esc => (sel, restored_result(result_idx, previous_results), seq![FilesEffect::BackToSearch]),
        KeyCode::Up | KeyCode::Char('k') => (files_up(sel, files.len()), result_idx, seq![]),
        KeyCode::Down | KeyCode::Char('j') => (files_down(sel, files.len()), result_idx, seq![]),
        KeyCode::Enter => match sel {
            Some(i) => if i < files.len() {
                if downloading_now(in_progress, model_id, files[i as int]) {
                    (sel, result_idx, seq![FilesEffect::AlreadyDownloading])
                } else {
                    (sel, result_idx, seq![FilesEffect::Download(i)])
                }
            } else {
                (sel, result_idx, seq![])
            },
            None => (sel, result_idx, seq![]),
        },
        KeyCode::Right => (sel, result_idx, seq![FilesEffect::FocusReadme]),
        _ => (sel, result_idx, seq![FilesEffect::FetchReadme]),
    }
}

fn is_downloading(in_progress: &Vec<(String, String)>, model_id: &str, name: &str) -> (r: bool)
    ensures
        r == downloading_now(in_progress.deep_view(), model_id@, name@),
{
    let ghost target = (model_id@, name@);
    let mut i: usize = 0;
    while i < in_progress.len()
        invariant
            i <= in_progress.len(),
            target == (model_id@, name@),
            forall|j: int| 0 <= j < i ==> in_progress.deep_view()[j] != target,
        decreases in_progress.len() - i,
    {
        let same = str_eq(in_progress[i].0.as_str(), model_id) && str_eq(in_progress[i].1.as_str(), name);
        let ghost dv = in_progress.deep_view();
        assert(dv[i as int] == (in_progress@[i as int].0@, in_progress@[i as int].1@));
        if same {
            assert(dv[i as int] == target);
            return true;
        }
        i = i + 1;
    }
    false
}

/// Keys of a model's file list: Up/Down choose a file, Enter downloads the chosen one
/// (unless it is being downloaded already), Right goes to the README, Esc returns to the
/// search results; any other key fetches the model's README.
pub fn handle_files_key(
    selected: &mut Option<usize>,
    search_results_idx: &mut Option<usize>,
    key: Key,
    model_id: &str,
    files: &Vec<String>,
    previous_results: usize,
    in_progress: &Vec<(String, String)>,
) -> (effects: Vec<FilesEffect>)
    requires
        key.code == KeyCode::Down || key.code == KeyCode::Char('j') ==> (*old(selected) matches Some(i) ==> i < usize::MAX),
    ensures
        (*final(selected), *final(search_results_idx), effects@) == files_step(
            *old(selected),
            *old(search_results_idx),
            key,
            model_id@,
            files.deep_view(),
            previous_results as nat,
            in_progress.deep_view(),
        ),
{
    let ghost expected = files_step(
        *selected,
        *search_results_idx,
        key,
        model_id@,
        files.deep_view(),
        previous_results as nat,
        in_progress.deep_view(),
    );
    let mut effects: Vec<FilesEffect> = Vec::new();
    let len = files.len();
    match key.code {
        KeyCode::Esc => {
            if let Some(i) = *search_results_idx {
                if i >= previous_results {
                    *search_results_idx = Some(0);
                }
            }
            effects.push(FilesEffect::BackToSearch);
        },
        KeyCode::Up | KeyCode::Char('k') => {
            match *selected {
                Some(i) => {
                    if i > 0 {
                        *selected = Some(i - 1);
                    }
                },
                None => {
                    if len > 0 {
                        *selected = Some(0);
                    }
                },
            }
        },
        KeyCode::Down | KeyCode::Char('j') => {
            match *selected {
                Some(i) => {
                    if i + 1 < len {
                        *selected = Some(i + 1);
                    }
                },
                None => {
                    if len > 0 {
                        *selected = Some(0);
                    }
                },
            }
        },
        KeyCode::Enter => {
            if let Some(i) = *selected {
                if i < len {
                    assert(files.deep_view()[i as int] == files@[i as int]@);
                    if is_downloading(in_progress, model_id, files[i].as_str()) {
                        effects.push(FilesEffect::AlreadyDownloading);
                    } else {
                        effects.push(FilesEffect::Download(i));
                    }
                }
            }
        },
        KeyCode::Right => {
            effects.push(FilesEffect::FocusReadme);
        },
        _ => {
            effects.push(FilesEffect::FetchReadme);
        },
    }
    proof {
        assert(effects@ =~= expected.2);
    }
    effects
}

/// The download of file `file` (name, size, address) of hub model `model_id`, into a
/// directory named after the model.
pub fn download_event(model_id: &str, file: &(String, u64, String)) -> (r: PendingEvent)
    ensures
        r matches PendingEvent::Download { model_id: m, filename, url, file_size, subdir } && m@ == model_id@
            && filename@ == file.0@ && file_size == file.1 && url@ == file.2@ && subdir@ == model_id@,
{
    PendingEvent::Download {
        model_id: String::from_str(model_id),
        filename: file.0.clone(),
        url: file.2.clone(),
        file_size: file.1,
        subdir: String::from_str(model_id),
    }
}

// ───────────────────────── laws ─────────────────────────

/// The file selection, once within the list, stays within it.
pub proof fn law_file_selection_stays_in_list(
    sel: Option<usize>,
    result_idx: Option<usize>,
    key: Key,
    model_id: Seq<char>,
    files: Seq<Seq<char>>,
    previous_results: nat,
    in_progress: Seq<(Seq<char>, Seq<char>)>,
)
    requires
        sel matches Some(i) ==> i < files.len(),
    ensures
        files_step(sel, result_idx, key, model_id, files, previous_results, in_progress).0 matches Some(i) ==> i
            < files.len(),
{
}

/// A file that is being downloaded is never asked for a second time.
pub proof fn law_no_second_download(
    sel: Option<usize>,
    result_idx: Option<usize>,
    key: Key,
    model_id: Seq<char>,
    files: Seq<Seq<char>>,
    previous_results: nat,
    in_progress: Seq<(Seq<char>, Seq<char>)>,
)
    requires
        sel matches Some(i) && i < files.len() && downloading_now(in_progress, model_id, files[i as int]),
    ensures
        !files_step(sel, result_idx, key, model_id, files, previous_results, in_progress).2.contains(
            FilesEffect::Download(sel->0),
        ),
{
    let eff = files_step(sel, result_idx, key, model_id, files, previous_results, in_progress).2;
    if eff.contains(FilesEffect::Download(sel->0)) {
        let k = choose|k: int| 0 <= k < eff.len() && eff[k] == FilesEffect::Download(sel->0);
        assert(eff[k] == FilesEffect::Download(sel->0));
    }
}

/// Going back to the search results leaves a valid result selection.
pub proof fn law_back_keeps_result_valid(current: Option<usize>, results: nat)
    requires
        results > 0,
    ensures
        restored_result(current, results) matches Some(i) ==> i < results,
{
}

} // verus!
