//! The local models list built from the `.gguf` files found under the models directories:
//! files still being downloaded are left out, each file takes the hub's pipeline tag and
//! capabilities of the first search result it belongs to, and the list is ordered by file
//! name. Walking the directories is the application's.
use vstd::prelude::*;
use crate::download_list::{list_view, DownloadEntry, DownloadEntryView, DownloadStatus, DownloadStatusView};
use crate::downloads::DiscoveredModel;
use crate::models_list::{sort_indices, sorted_in, SortOrder};
use crate::templates::positions;
use crate::text::{seq_starts_with, str_eq, str_starts_with};

verus! {

/// A `.gguf` file found under a models directory: its path, file name, size, and path
/// relative to that directory.
pub struct FoundFile {
    pub path: String,
    pub name: String,
    pub size: u64,
    pub display_name: String,
}

pub struct FoundView {
    pub path: Seq<char>,
    pub name: Seq<char>,
    pub size: u64,
    pub display_name: Seq<char>,
}

impl View for FoundFile {
    type V = FoundView;

    open spec fn view(&self) -> FoundView {
        FoundView { path: self.path@, name: self.name@, size: self.size, display_name: self.display_name@ }
    }
}

/// What a hub search result tells of a model: its id, pipeline tag and capabilities.
pub struct HubTags {
    pub model_id: String,
    pub pipeline_tag: Option<String>,
    pub capabilities: Vec<String>,
}

pub struct HubTagsView {
    pub model_id: Seq<char>,
    pub pipeline_tag: Option<Seq<char>>,
    pub capabilities: Seq<Seq<char>>,
}

impl View for HubTags {
    type V = HubTagsView;

    open spec fn view(&self) -> HubTagsView {
        HubTagsView {
            model_id: self.model_id@,
            pipeline_tag: match self.pipeline_tag {
                Some(t) => Some(t@),
                None => None,
            },
            capabilities: self.capabilities.deep_view(),
        }
    }
}

/// A model of the list as plain values.
pub struct ModelView {
    pub path: Seq<char>,
    pub name: Seq<char>,
    pub file_size: u64,
    pub display_name: Seq<char>,
    pub pipeline_tag: Option<Seq<char>>,
    pub capabilities: Seq<Seq<char>>,
}

pub open spec fn model_view(m: DiscoveredModel) -> ModelView {
    ModelView {
        path: m.path@,
        name: m.name@,
        file_size: m.file_size,
        display_name: m.display_name@,
        pipeline_tag: match m.pipeline_tag {
            Some(t) => Some(t@),
            None => None,
        },
        capabilities: m.capabilities.deep_view(),
    }
}

pub open spec fn found_view(v: Seq<FoundFile>) -> Seq<FoundView> {
    v.map_values(|f: FoundFile| f@)
}

pub open spec fn tags_view(v: Seq<HubTags>) -> Seq<HubTagsView> {
    v.map_values(|t: HubTags| t@)
}

/// The size the last download under way of file `name` expects, if there is one.
pub open spec fn expected_size(downloads: Seq<DownloadEntryView>, name: Seq<char>) -> Option<u64>
    decreases downloads.len(),
{
    if downloads.len() == 0 {
        None
    } else {
        let d = downloads.last();
        if d.status is Downloading && d.filename == name {
            Some(d.total_bytes)
        } else {
            expected_size(downloads.drop_last(), name)
        }
    }
}

/// A found file is listed unless a download of it is under way and it does not have the
/// expected size yet.
pub open spec fn complete_file(f: FoundView, downloads: Seq<DownloadEntryView>) -> bool {
    match expected_size(downloads, f.name) {
        Some(e) => f.size == e,
        None => true,
    }
}

/// The found files that are listed, in the order found.
pub open spec fn listed_files(found: Seq<FoundView>, downloads: Seq<DownloadEntryView>) -> Seq<FoundView> {
    found.filter(|f: FoundView| complete_file(f, downloads))
}

/// The hub result at `k` is one `display` belongs to (its path starts with the id).
pub open spec fn tagged_at(hits: Seq<HubTagsView>, display: Seq<char>, k: int) -> bool {
    0 <= k < hits.len() && seq_starts_with(display, hits[k].model_id)
}

/// The first hub result `display` belongs to.
pub open spec fn first_tag(hits: Seq<HubTagsView>, display: Seq<char>, k: int) -> bool {
    tagged_at(hits, display, k) && forall|j: int| 0 <= j < k ==> !#[trigger] tagged_at(hits, display, j)
}

/// A listed file as a model of the list, with the tags of the first hub result it
/// belongs to (none when it belongs to none).
pub open spec fn catalogued(f: FoundView, hits: Seq<HubTagsView>) -> ModelView {
    if exists|k: int| first_tag(hits, f.display_name, k) {
        let k = choose|k: int| first_tag(hits, f.display_name, k);
        ModelView {
            path: f.path,
            name: f.name,
            file_size: f.size,
            display_name: f.display_name,
            pipeline_tag: hits[k].pipeline_tag,
            capabilities: hits[k].capabilities,
        }
    } else {
        ModelView {
            path: f.path,
            name: f.name,
            file_size: f.size,
            display_name: f.display_name,
            pipeline_tag: None,
            capabilities: seq![],
        }
    }
}

pub open spec fn names_of(files: Seq<FoundView>) -> Seq<Seq<char>> {
    files.map_values(|f: FoundView| f.name)
}

fn expected_size_exec(downloads: &Vec<DownloadEntry>, name: &str) -> (r: Option<u64>)
    ensures
        r == expected_size(list_view(downloads@), name@),
{
    let ghost dv = list_view(downloads@);
    let mut r: Option<u64> = None;
    let mut i: usize = 0;
    assert(dv.take(0) =~= Seq::<DownloadEntryView>::empty());
    while i < downloads.len()
        invariant
            i <= downloads.len(),
            dv == list_view(downloads@),
            r == expected_size(dv.take(i as int), name@),
        decreases downloads.len() - i,
    {
        assert(dv.take(i + 1).drop_last() =~= dv.take(i as int));
        assert(dv.take(i + 1).last() == downloads@[i as int]@);
        let d = &downloads[i];
        if let DownloadStatus::Downloading = d.status {
            if str_eq(d.filename.as_str(), name) {
                r = Some(d.total_bytes);
            }
        }
        i = i + 1;
    }
    assert(dv.take(dv.len() as int) =~= dv);
    r
}

fn first_tag_exec(hits: &Vec<HubTags>, display: &str) -> (r: Option<usize>)
    ensures
        match r {
            Some(k) => first_tag(tags_view(hits@), display@, k as int),
            None => !exists|k: int| first_tag(tags_view(hits@), display@, k),
        },
{
    let ghost hv = tags_view(hits@);
    let mut i: usize = 0;
    while i < hits.len()
        invariant
            i <= hits.len(),
            hv == tags_view(hits@),
            forall|j: int| 0 <= j < i ==> !#[trigger] tagged_at(hv, display@, j),
        decreases hits.len() - i,
    {
        if str_starts_with(display, hits[i].model_id.as_str()) {
            assert(tagged_at(hv, display@, i as int));
            return Some(i);
        }
        assert(!tagged_at(hv, display@, i as int));
        i = i + 1;
    }
    assert(!exists|k: int| first_tag(hv, display@, k)) by {
        if exists|k: int| first_tag(hv, display@, k) {
            let k = choose|k: int| first_tag(hv, display@, k);
            assert(tagged_at(hv, display@, k));
        }
    }
    None
}

fn clone_strings(v: &Vec<String>) -> (r: Vec<String>)
    ensures
        r.deep_view() == v.deep_view(),
{
    let mut r: Vec<String> = Vec::new();
    let mut i: usize = 0;
    while i < v.len()
        invariant
            i <= v.len(),
            r.deep_view() == v.deep_view().take(i as int),
        decreases v.len() - i,
    {
        let ghost before = r.deep_view();
        r.push(v[i].clone());
        assert(r.deep_view() =~= before.push(v[i as int]@));
        assert(v.deep_view().take(i + 1) =~= v.deep_view().take(i as int).push(v[i as int]@));
        i = i + 1;
    }
    assert(v.deep_view().take(v.len() as int) =~= v.deep_view());
    r
}

fn catalogue_one(f: &FoundFile, hits: &Vec<HubTags>) -> (m: DiscoveredModel)
    ensures
        model_view(m) == catalogued(f@, tags_view(hits@)),
{
    let ghost hv = tags_view(hits@);
    let (pipeline_tag, capabilities) = match first_tag_exec(hits, f.display_name.as_str()) {
        Some(k) => {
            proof {
                let c = choose|c: int| first_tag(hv, f@.display_name, c);
                if c < k {
                    assert(!tagged_at(hv, f@.display_name, c));
                } else if k < c {
                    assert(!tagged_at(hv, f@.display_name, k as int));
                }
                assert(c == k);
            }
            let t = match &hits[k].pipeline_tag {
                Some(t) => Some(t.clone()),
                None => None,
            };
            (t, clone_strings(&hits[k].capabilities))
        },
        None => (None, Vec::new()),
    };
    let m = DiscoveredModel {
        path: f.path.clone(),
        name: f.name.clone(),
        file_size: f.size,
        display_name: f.display_name.clone(),
        pipeline_tag,
        capabilities,
    };
    assert(m.capabilities.deep_view() =~= catalogued(f@, hv).capabilities);
    m
}

/// The models list from the files found: the files still being downloaded (a download
/// of the same file name under way, by `downloads`, whose expected size the file does not
/// have) are left out; each file takes the tags of the first hub result (`hits`) its
/// relative path starts with; the list is ordered by file name, files of equal name in
/// the order found.
pub fn discover_models(found: &Vec<FoundFile>, downloads: &Vec<DownloadEntry>, hits: &Vec<HubTags>) -> (r: Vec<DiscoveredModel>)
    ensures
        ({
            let listed = listed_files(found_view(found@), list_view(downloads@));
            &&& r@.len() == listed.len()
            &&& exists|perm: Seq<usize>|
                #[trigger] sorted_in(SortOrder::ByName, names_of(listed), seq![], perm)
                    && perm.to_multiset() == positions(listed.len()).to_multiset() && perm.len() == listed.len()
                    && forall|i: int|
                        0 <= i < perm.len() ==> perm[i] < listed.len() && model_view(#[trigger] r@[i])
                            == catalogued(listed[perm[i] as int], tags_view(hits@))
        }),
{
    let ghost fv = found_view(found@);
    let ghost dv = list_view(downloads@);
    let ghost keep = |f: FoundView| complete_file(f, dv);
    let mut kept: Vec<usize> = Vec::new();
    let mut names: Vec<String> = Vec::new();
    let mut idx: Vec<usize> = Vec::new();
    let mut i: usize = 0;
    assert(fv.take(0).filter(keep) =~= Seq::<FoundView>::empty());
    while i < found.len()
        invariant
            i <= found.len(),
            fv == found_view(found@),
            dv == list_view(downloads@),
            keep == (|f: FoundView| complete_file(f, dv)),
            kept@.len() == fv.take(i as int).filter(keep).len(),
            names@.len() == kept@.len(),
            idx@ == positions(kept@.len() as nat),
            forall|j: int| 0 <= j < kept@.len() ==> kept@[j] < found@.len(),
            forall|j: int| 0 <= j < kept@.len() ==> #[trigger] fv[kept@[j] as int] == fv.take(i as int).filter(keep)[j],
            forall|j: int| 0 <= j < kept@.len() ==> #[trigger] names@[j]@ == fv.take(i as int).filter(keep)[j].name,
        decreases found.len() - i,
    {
        assert(fv.take(i + 1).drop_last() =~= fv.take(i as int));
        assert(fv.take(i + 1).last() == found@[i as int]@);
        proof {
            reveal(Seq::filter);
        }
        let f = &found[i];
        let keep_it = match expected_size_exec(downloads, f.name.as_str()) {
            Some(e) => f.size == e,
            None => true,
        };
        if keep_it {
            let ghost before = fv.take(i as int).filter(keep);
            assert(fv.take(i + 1).filter(keep) =~= before.push(fv[i as int]));
            idx.push(kept.len());
            kept.push(i);
            names.push(f.name.clone());
            assert(idx@ =~= positions(kept@.len() as nat));
        } else {
            assert(fv.take(i + 1).filter(keep) =~= fv.take(i as int).filter(keep));
        }
        i = i + 1;
    }
    assert(fv.take(fv.len() as int) =~= fv);
    let ghost listed = fv.filter(keep);
    assert(keep =~= (|f: FoundView| complete_file(f, dv)));
    assert(listed == listed_files(fv, dv));
    assert(names.deep_view() =~= names_of(listed));
    let empty: Vec<u64> = Vec::new();
    let perm = sort_indices(&idx, SortOrder::ByName, &names, &empty);
    proof {
        assert forall|k: int| 0 <= k < perm@.len() implies perm@[k] < kept@.len() by {
            vstd::seq_lib::to_multiset_contains(perm@, perm@[k]);
            vstd::seq_lib::to_multiset_contains(idx@, perm@[k]);
            assert(perm@.contains(perm@[k]));
            assert(perm@.to_multiset().contains(perm@[k]));
            assert(idx@.to_multiset().contains(perm@[k]));
            assert(idx@.contains(perm@[k]));
        }
        assert(perm@.len() == idx@.len()) by {
            vstd::seq_lib::to_multiset_len(perm@);
            vstd::seq_lib::to_multiset_len(idx@);
        }
    }
    let mut out: Vec<DiscoveredModel> = Vec::new();
    let mut k: usize = 0;
    while k < perm.len()
        invariant
            k <= perm.len(),
            perm@.len() == kept@.len(),
            listed.len() == kept@.len(),
            forall|j: int| 0 <= j < perm@.len() ==> perm@[j] < kept@.len(),
            forall|j: int| 0 <= j < kept@.len() ==> kept@[j] < found@.len(),
            forall|j: int| 0 <= j < kept@.len() ==> #[trigger] fv[kept@[j] as int] == listed[j],
            fv == found_view(found@),
            out@.len() == k,
            forall|j: int| 0 <= j < k ==> model_view(#[trigger] out@[j]) == catalogued(listed[perm@[j] as int], tags_view(hits@)),
        decreases perm.len() - k,
    {
        let p = perm[k];
        let q = kept[p];
        assert(fv[kept@[p as int] as int] == listed[p as int]);
        assert(found@[q as int]@ == listed[p as int]);
        let m = catalogue_one(&found[q], hits);
        out.push(m);
        k = k + 1;
    }
    assert(idx@ == positions(listed.len()));
    out
}

} // verus!
