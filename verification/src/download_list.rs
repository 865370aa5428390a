//! The list of downloads under way: progress reports, and the downloads that finished
//! (completed, failed or cancelled) with the message each one leaves in the log.
use vstd::prelude::*;
use vstd::string::StringExecFns;
use crate::keys::{Key, KeyCode};
use crate::text::str_eq;

verus! {

/// Where a download stands.
#[derive(Debug)]
pub enum DownloadStatus {
    Downloading,
    Pausing,
    Paused,
    Complete,
    Error(String),
    Cancelled,
}

pub enum DownloadStatusView {
    Downloading,
    Pausing,
    Paused,
    Complete,
    Error(Seq<char>),
    Cancelled,
}

/// One download, with what the list logic reads of it.
#[derive(Debug)]
pub struct DownloadEntry {
    pub model_id: String,
    pub filename: String,
    pub status: DownloadStatus,
    pub downloaded_bytes: u64,
    pub total_bytes: u64,
}

pub struct DownloadEntryView {
    pub model_id: Seq<char>,
    pub filename: Seq<char>,
    pub status: DownloadStatusView,
    pub downloaded_bytes: u64,
    pub total_bytes: u64,
}

impl View for DownloadEntry {
    type V = DownloadEntryView;

    open spec fn view(&self) -> DownloadEntryView {
        DownloadEntryView {
            model_id: self.model_id@,
            filename: self.filename@,
            status: match self.status {
                DownloadStatus::Downloading => DownloadStatusView::Downloading,
                DownloadStatus::Pausing => DownloadStatusView::Pausing,
                DownloadStatus::Paused => DownloadStatusView::Paused,
                DownloadStatus::Complete => DownloadStatusView::Complete,
                DownloadStatus::Error(e) => DownloadStatusView::Error(e@),
                DownloadStatus::Cancelled => DownloadStatusView::Cancelled,
            },
            downloaded_bytes: self.downloaded_bytes,
            total_bytes: self.total_bytes,
        }
    }
}

pub open spec fn list_view(v: Seq<DownloadEntry>) -> Seq<DownloadEntryView> {
    v.map_values(|d: DownloadEntry| d@)
}

/// The id the backend's own download carries.
pub open spec fn is_backend(model_id: Seq<char>) -> bool {
    model_id == "llama-server"@
}

/// The first entry for the same model and file as `d`, or -1.
pub open spec fn position_of(list: Seq<DownloadEntryView>, d: DownloadEntryView) -> int
    decreases list.len(),
{
    if list.len() == 0 {
        -1
    } else {
        let r = position_of(list.drop_last(), d);
        if r >= 0 {
            r
        } else if list.last().model_id == d.model_id && list.last().filename == d.filename {
            list.len() - 1
        } else {
            -1
        }
    }
}

proof fn lemma_position_of(list: Seq<DownloadEntryView>, d: DownloadEntryView)
    ensures
        -1 <= position_of(list, d) < list.len(),
        position_of(list, d) >= 0 ==> list[position_of(list, d)].model_id == d.model_id
            && list[position_of(list, d)].filename == d.filename,
        position_of(list, d) < 0 ==> forall|j: int| 0 <= j < list.len() ==>
            !(#[trigger] list[j].model_id == d.model_id && list[j].filename == d.filename),
        forall|j: int| 0 <= j < position_of(list, d) ==> !(#[trigger] list[j].model_id == d.model_id && list[j].filename == d.filename),
    decreases list.len(),
{
    if list.len() > 0 {
        lemma_position_of(list.drop_last(), d);
        assert forall|j: int| 0 <= j < list.len() - 1 implies list[j] == list.drop_last()[j] by {}
    }
}

/// A progress report for `d` replaces the entry of the same model and file, or joins
/// the end of the list.
pub open spec fn with_progress(list: Seq<DownloadEntryView>, d: DownloadEntryView) -> Seq<DownloadEntryView> {
    let p = position_of(list, d);
    if p >= 0 { list.update(p, d) } else { list.push(d) }
}

/// Records a progress report (see `with_progress`). Returns the entry it replaced, or
/// `None` when the download is new (the application then logs its start).
pub fn record_progress(list: &mut Vec<DownloadEntry>, d: DownloadEntry) -> (r: Option<DownloadEntry>)
    ensures
        list_view(final(list)@) == with_progress(list_view(old(list)@), d@),
        match r {
            Some(o) => position_of(list_view(old(list)@), d@) >= 0 && o@ == list_view(old(list)@)[position_of(list_view(old(list)@), d@)],
            None => position_of(list_view(old(list)@), d@) < 0,
        },
{
    let ghost lv = list_view(list@);
    let ghost dv = d@;
    assert(lv == list_view(old(list)@));
    proof {
        lemma_position_of(lv, dv);
    }
    let mut i: usize = 0;
    while i < list.len()
        invariant
            i <= list.len(),
            lv == list_view(list@),
            lv == list_view(old(list)@),
            dv == d@,
            forall|j: int| 0 <= j < i ==> !(#[trigger] lv[j].model_id == dv.model_id && lv[j].filename == dv.filename),
            -1 <= position_of(lv, dv) < lv.len(),
            position_of(lv, dv) >= 0 ==> lv[position_of(lv, dv)].model_id == dv.model_id && lv[position_of(lv, dv)].filename == dv.filename,
            position_of(lv, dv) < 0 ==> forall|j: int| 0 <= j < lv.len() ==> !(#[trigger] lv[j].model_id == dv.model_id && lv[j].filename == dv.filename),
            forall|j: int| 0 <= j < position_of(lv, dv) ==> !(#[trigger] lv[j].model_id == dv.model_id && lv[j].filename == dv.filename),
        decreases list.len() - i,
    {
        assert(lv[i as int] == list@[i as int]@);
        if str_eq(list[i].model_id.as_str(), d.model_id.as_str()) && str_eq(list[i].filename.as_str(), d.filename.as_str()) {
            proof {
                let p = position_of(lv, dv);
                assert(lv[i as int].model_id == dv.model_id && lv[i as int].filename == dv.filename);
                if p < 0 {
                    assert(!(lv[i as int].model_id == dv.model_id && lv[i as int].filename == dv.filename));
                } else if p < i {
                    assert(!(lv[p].model_id == dv.model_id && lv[p].filename == dv.filename));
                } else if p > i {
                    assert(!(lv[i as int].model_id == dv.model_id && lv[i as int].filename == dv.filename));
                }
            }
            assert(position_of(lv, dv) == i);
            let ghost before = list@;
            let mut slot = d;
            list.set_and_swap(i, &mut slot);
            assert(list_view(list@) =~= lv.update(i as int, dv));
            assert(slot == before[i as int]);
            assert(slot@ == lv[i as int]);
            assert(with_progress(lv, dv) == lv.update(i as int, dv));
            return Some(slot);
        }
        i = i + 1;
    }
    assert(position_of(lv, dv) < 0);
    list.push(d);
    assert(list_view(list@) =~= lv.push(dv));
    None
}

/// A download is over: completed, failed or cancelled.
pub open spec fn finished(s: DownloadStatusView) -> bool {
    s is Complete || s is Error || s is Cancelled
}

pub open spec fn unfinished_of(list: Seq<DownloadEntryView>) -> Seq<DownloadEntryView> {
    list.filter(|d: DownloadEntryView| !finished(d.status))
}

pub open spec fn finished_of(list: Seq<DownloadEntryView>) -> Seq<DownloadEntryView> {
    list.filter(|d: DownloadEntryView| finished(d.status))
}

/// The selection of the downloads list once `len` entries are left: none when the list is
/// empty, the last entry when it pointed past the end.
pub open spec fn clamped_selection(selected: Option<usize>, len: nat) -> Option<usize> {
    if len == 0 {
        None
    } else {
        match selected {
            Some(i) => if i >= len { Some((len - 1) as usize) } else { Some(i) },
            None => None,
        }
    }
}

/// Takes the finished downloads out of the list (they are returned, in order), keeps the
/// others in order, and keeps the selection on the list (see `clamped_selection`); when
/// some finished, the application is downloading exactly while downloads are left.
pub fn take_finished(list: &mut Vec<DownloadEntry>, selected: &mut Option<usize>, downloading: &mut bool) -> (done: Vec<DownloadEntry>)
    ensures
        list_view(done@) == finished_of(list_view(old(list)@)),
        list_view(final(list)@) == unfinished_of(list_view(old(list)@)),
        *final(selected) == (if list_view(done@).len() == 0 { *old(selected) } else { clamped_selection(*old(selected), final(list)@.len()) }),
        *final(downloading) == (if list_view(done@).len() == 0 { *old(downloading) } else { final(list)@.len() > 0 }),
{
    let ghost lv = list_view(list@);
    let mut done: Vec<DownloadEntry> = Vec::new();
    let mut kept: Vec<DownloadEntry> = Vec::new();
    let mut rest: Vec<DownloadEntry> = Vec::new();
    std::mem::swap(&mut rest, list);
    let n = rest.len();
    let mut i: usize = 0;
    assert(lv.take(0) =~= Seq::<DownloadEntryView>::empty());
    proof {
        reveal(Seq::filter);
    }
    while i < n
        invariant
            i <= n,
            n == lv.len(),
            rest@.len() == n - i,
            forall|j: int| 0 <= j < rest@.len() ==> #[trigger] rest@[j]@ == lv[j + i],
            list_view(done@) == finished_of(lv.take(i as int)),
            list_view(kept@) == unfinished_of(lv.take(i as int)),
        decreases n - i,
    {
        let d = rest.remove(0);
        assert(d@ == lv[i as int]);
        assert(lv.take(i + 1).drop_last() =~= lv.take(i as int));
        assert(lv.take(i + 1).last() == lv[i as int]);
        proof {
            reveal(Seq::filter);
        }
        let fin = match &d.status {
            DownloadStatus::Complete | DownloadStatus::Error(_) | DownloadStatus::Cancelled => true,
            _ => false,
        };
        let ghost done_before = list_view(done@);
        let ghost kept_before = list_view(kept@);
        if fin {
            done.push(d);
            assert(list_view(done@) =~= done_before.push(lv[i as int]));
        } else {
            kept.push(d);
            assert(list_view(kept@) =~= kept_before.push(lv[i as int]));
        }
        i = i + 1;
    }
    assert(lv.take(n as int) =~= lv);
    *list = kept;
    if done.len() > 0 {
        let len = list.len();
        *downloading = len > 0;
        *selected = if len == 0 {
            None
        } else {
            match *selected {
                Some(i) => if i >= len { Some(len - 1) } else { Some(i) },
                None => None,
            }
        };
    }
    done
}

/// The name a finished download goes by in the log: `Backend` for the backend's own.
pub open spec fn finished_name(d: DownloadEntryView) -> Seq<char> {
    if is_backend(d.model_id) { "Backend"@ } else { d.filename }
}

/// The log line a finished download leaves, and whether it is an error.
pub open spec fn finished_message(d: DownloadEntryView) -> (Seq<char>, bool) {
    match d.status {
        DownloadStatusView::Complete => if is_backend(d.model_id) {
            ("Backend download complete"@, false)
        } else {
            ("Download complete: "@ + d.filename, false)
        },
        DownloadStatusView::Error(e) => ("Download failed ("@ + finished_name(d) + "): "@ + e, true),
        _ => ("Download cancelled: "@ + finished_name(d), false),
    }
}

/// The log line for a finished download (see `finished_message`).
pub fn finished_log_line(d: &DownloadEntry) -> (r: (String, bool))
    requires
        finished(d@.status),
    ensures
        (r.0@, r.1) == finished_message(d@),
{
    let backend = str_eq(d.model_id.as_str(), "llama-server");
    match &d.status {
        DownloadStatus::Complete => {
            if backend {
                (String::from_str("Backend download complete"), false)
            } else {
                let mut s = String::from_str("Download complete: ");
                s.append(d.filename.as_str());
                (s, false)
            }
        },
        DownloadStatus::Error(e) => {
            let mut s = String::from_str("Download failed (");
            if backend {
                s.append("Backend");
            } else {
                s.append(d.filename.as_str());
            }
            s.append("): ");
            s.append(e.as_str());
            (s, true)
        },
        _ => {
            let mut s = String::from_str("Download cancelled: ");
            if backend {
                s.append("Backend");
            } else {
                s.append(d.filename.as_str());
            }
            (s, false)
        },
    }
}

/// The log line for a download seen for the first time.
pub fn started_log_line(d: &DownloadEntry) -> (r: String)
    ensures
        r@ == (if is_backend(d@.model_id) { "Starting backend download..."@ } else { "Starting download: "@ + d@.filename + "..."@ }),
{
    if str_eq(d.model_id.as_str(), "llama-server") {
        String::from_str("Starting backend download...")
    } else {
        let mut s = String::from_str("Starting download: ");
        s.append(d.filename.as_str());
        s.append("...");
        s
    }
}

// ───────────────────────── keys of the downloads panel ─────────────────────────

/// The table's next row: one down (stopping at the largest index), the first when none
/// is selected; the table keeps a selection past its end within its rows when drawn.
pub open spec fn next_row(sel: Option<usize>) -> Option<usize> {
    Some(match sel {
        Some(i) => if i < usize::MAX { (i + 1) as usize } else { i },
        None => 0,
    })
}

/// The table's previous row: one up (stopping at the first), the last when none is
/// selected.
pub open spec fn previous_row(sel: Option<usize>) -> Option<usize> {
    Some(match sel {
        Some(i) => if i > 0 { (i - 1) as usize } else { 0 },
        None => usize::MAX,
    })
}

/// What a key on the downloads panel asks of the application.
#[derive(Debug, Clone, Copy, PartialEq, Eq, Structural)]
pub enum DownloadsKeyAction {
    Nothing,
    /// Alt+C: cancel download `i`.
    Cancel(usize),
}

/// Keys of the downloads panel: Up or `k` and Down or `j` move the selection (see
/// `previous_row` and `next_row`), Alt+C cancels the selected download.
pub fn handle_downloads_key(selected: &mut Option<usize>, key: Key) -> (r: DownloadsKeyAction)
    ensures
        (key.code == KeyCode::Up || key.code == KeyCode::Char('k')) ==> *final(selected) == previous_row(*old(selected))
            && r == DownloadsKeyAction::Nothing,
        (key.code == KeyCode::Down || key.code == KeyCode::Char('j')) ==> *final(selected) == next_row(*old(selected))
            && r == DownloadsKeyAction::Nothing,
        (key.code == KeyCode::Char('c') && key.alt) ==> *final(selected) == *old(selected)
            && r == (match *old(selected) { Some(i) => DownloadsKeyAction::Cancel(i), None => DownloadsKeyAction::Nothing }),
        !(key.code == KeyCode::Up || key.code == KeyCode::Char('k') || key.code == KeyCode::Down || key.code == KeyCode::Char('j')
            || (key.code == KeyCode::Char('c') && key.alt)) ==> *final(selected) == *old(selected) && r == DownloadsKeyAction::Nothing,
{
    let code = key.code;
    if code == KeyCode::Up || code == KeyCode::Char('k') {
        *selected = Some(match *selected {
            Some(i) => if i > 0 { i - 1 } else { 0 },
            None => usize::MAX,
        });
        DownloadsKeyAction::Nothing
    } else if code == KeyCode::Down || code == KeyCode::Char('j') {
        *selected = Some(match *selected {
            Some(i) => if i < usize::MAX { i + 1 } else { i },
            None => 0,
        });
        DownloadsKeyAction::Nothing
    } else if code == KeyCode::Char('c') && key.alt {
        match *selected {
            Some(i) => DownloadsKeyAction::Cancel(i),
            None => DownloadsKeyAction::Nothing,
        }
    } else {
        DownloadsKeyAction::Nothing
    }
}

// ───────────────────────── laws ─────────────────────────

/// After the finished downloads are taken out, every download left is under way.
pub proof fn law_only_unfinished_left(list: Seq<DownloadEntryView>, i: int)
    requires
        0 <= i < unfinished_of(list).len(),
    ensures
        !finished(unfinished_of(list)[i].status),
{
    broadcast use vstd::seq_lib::group_filter_ensures;
}

/// Once the finished downloads are taken out, the selection is on a download, or there
/// is none and the list is empty.
pub proof fn law_selection_on_the_list(selected: Option<usize>, len: nat)
    ensures
        clamped_selection(selected, len) matches Some(i) ==> i < len,
        len == 0 ==> clamped_selection(selected, len) is None,
{
}

/// A progress report for a download already listed leaves the list's length as it was;
/// a new one adds one entry.
pub proof fn law_progress_length(list: Seq<DownloadEntryView>, d: DownloadEntryView)
    ensures
        with_progress(list, d).len() == list.len() + (if position_of(list, d) >= 0 { 0int } else { 1 }),
{
    lemma_position_of(list, d);
}

} // verus!
