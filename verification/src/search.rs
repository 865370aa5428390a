//! Hub search results: their order, the selection, the pages asked for, and the keys of
//! the search view.
use vstd::prelude::*;
use crate::downloads::{downloaded, model_is_downloaded, DiscoveredModel};
use crate::keys::{Key, KeyCode};
use crate::models_list::{lemma_name_lt_total, name_lt, precedes, sort_indices, sorted_in, SortOrder};
use crate::templates::positions;

verus! {

/// One model found on the hub, with the numbers the results can be sorted by.
#[derive(Debug)]
pub struct SearchHit {
    pub model_id: String,
    pub downloads: u64,
    pub likes: u64,
    pub trending_score: u64,
    /// When the model was created, as the hub writes it (ISO 8601), if known.
    pub created_at: Option<String>,
    /// A local model file belongs to this repository.
    pub downloaded: bool,
}

/// A search hit as plain values.
pub struct SearchHitView {
    pub model_id: Seq<char>,
    pub downloads: u64,
    pub likes: u64,
    pub trending_score: u64,
    pub created_at: Option<Seq<char>>,
    pub downloaded: bool,
}

impl View for SearchHit {
    type V = SearchHitView;

    open spec fn view(&self) -> SearchHitView {
        SearchHitView {
            model_id: self.model_id@,
            downloads: self.downloads,
            likes: self.likes,
            trending_score: self.trending_score,
            created_at: match self.created_at {
                Some(s) => Some(s@),
                None => None,
            },
            downloaded: self.downloaded,
        }
    }
}

pub open spec fn hits_view(hits: Seq<SearchHit>) -> Seq<SearchHitView> {
    hits.map_values(|h: SearchHit| h@)
}

fn copy_hit(h: &SearchHit) -> (r: SearchHit)
    ensures
        r@ == h@,
{
    SearchHit {
        model_id: h.model_id.clone(),
        downloads: h.downloads,
        likes: h.likes,
        trending_score: h.trending_score,
        created_at: match &h.created_at {
            Some(s) => Some(s.clone()),
            None => None,
        },
        downloaded: h.downloaded,
    }
}

/// How the results are ordered.
#[derive(Debug, Clone, Copy, PartialEq, Eq, Structural)]
pub enum SearchSort {
    /// The order the hub answered in.
    Relevance,
    Downloads,
    Likes,
    Trending,
    /// Newest first.
    CreatedAt,
}

impl SearchSort {
    /// The order Ctrl+S switches to: relevance, downloads, likes, trending, creation
    /// date, then relevance again.
    pub open spec fn following(self) -> SearchSort {
        match self {
            SearchSort::Relevance => SearchSort::Downloads,
            SearchSort::Downloads => SearchSort::Likes,
            SearchSort::Likes => SearchSort::Trending,
            SearchSort::Trending => SearchSort::CreatedAt,
            SearchSort::CreatedAt => SearchSort::Relevance,
        }
    }

    pub fn next(self) -> (r: SearchSort)
        ensures
            r == self.following(),
    {
        match self {
            SearchSort::Relevance => SearchSort::Downloads,
            SearchSort::Downloads => SearchSort::Likes,
            SearchSort::Likes => SearchSort::Trending,
            SearchSort::Trending => SearchSort::CreatedAt,
            SearchSort::CreatedAt => SearchSort::Relevance,
        }
    }
}

/// The number a hit is ranked by (highest first) under `sort`.
pub open spec fn hit_rank(h: SearchHitView, sort: SearchSort) -> u64 {
    match sort {
        SearchSort::Downloads => h.downloads,
        SearchSort::Likes => h.likes,
        SearchSort::Trending => h.trending_score,
        _ => 0,
    }
}

/// The creation date a hit is ordered by: the empty text when unknown.
pub open spec fn hit_date(h: SearchHitView) -> Seq<char> {
    match h.created_at {
        Some(d) => d,
        None => Seq::empty(),
    }
}

pub open spec fn hit_ranks(hits: Seq<SearchHitView>, sort: SearchSort) -> Seq<u64> {
    hits.map_values(|h: SearchHitView| hit_rank(h, sort))
}

pub open spec fn hit_dates(hits: Seq<SearchHitView>) -> Seq<Seq<char>> {
    hits.map_values(|h: SearchHitView| hit_date(h))
}

/// The list order a sort other than relevance stands for.
pub open spec fn search_order(sort: SearchSort) -> SortOrder {
    if sort == SearchSort::CreatedAt { SortOrder::ByNameDesc } else { SortOrder::ByRankDesc }
}

/// `after` lists `before` in the order of `perm`, a permutation of its positions that is
/// sorted under `sort` (ties in the order of `before`).
pub open spec fn arranged_by(before: Seq<SearchHitView>, sort: SearchSort, after: Seq<SearchHitView>, perm: Seq<usize>) -> bool {
    &&& sorted_in(search_order(sort), hit_dates(before), hit_ranks(before, sort), perm)
    &&& perm.len() == before.len()
    &&& perm.to_multiset() == positions(before.len()).to_multiset()
    &&& forall|i: int| 0 <= i < perm.len() ==> perm[i] < before.len() && after[i] == before[perm[i] as int]
}

/// `after` lists `before` sorted under `sort`, ties in the order of `before` (see
/// `arranged_by`); under relevance nothing moves.
pub open spec fn sorted_results(before: Seq<SearchHitView>, sort: SearchSort, after: Seq<SearchHitView>) -> bool {
    if sort == SearchSort::Relevance {
        after == before
    } else {
        after.len() == before.len() && exists|perm: Seq<usize>| #[trigger] arranged_by(before, sort, after, perm)
    }
}

fn copy_hits(hits: &Vec<SearchHit>) -> (r: Vec<SearchHit>)
    ensures
        hits_view(r@) == hits_view(hits@),
{
    let mut out: Vec<SearchHit> = Vec::new();
    let mut i: usize = 0;
    while i < hits.len()
        invariant
            i <= hits.len(),
            out@.len() == i,
            forall|j: int| 0 <= j < i ==> #[trigger] out@[j]@ == hits@[j]@,
        decreases hits.len() - i,
    {
        let h = copy_hit(&hits[i]);
        out.push(h);
        i = i + 1;
    }
    assert(hits_view(out@) =~= hits_view(hits@));
    out
}

/// The hits ordered by `sort` (see `sorted_results`): most downloads, likes or trending
/// first, newest first, or as the hub answered.
pub fn sort_hits(hits: &Vec<SearchHit>, sort: SearchSort) -> (r: Vec<SearchHit>)
    ensures
        sorted_results(hits_view(hits@), sort, hits_view(r@)),
{
    if sort == SearchSort::Relevance {
        return copy_hits(hits);
    }
    let ghost hv = hits_view(hits@);
    let mut dates: Vec<String> = Vec::new();
    let mut ranks: Vec<u64> = Vec::new();
    let mut idx: Vec<usize> = Vec::new();
    let mut i: usize = 0;
    while i < hits.len()
        invariant
            i <= hits.len(),
            hv == hits_view(hits@),
            dates@.len() == i,
            ranks@.len() == i,
            idx@ == positions(i as nat),
            forall|j: int| 0 <= j < i ==> #[trigger] dates@[j]@ == hit_date(hv[j]),
            forall|j: int| 0 <= j < i ==> #[trigger] ranks@[j] == hit_rank(hv[j], sort),
        decreases hits.len() - i,
    {
        let h = &hits[i];
        let d = match &h.created_at {
            Some(s) => s.clone(),
            None => String::new(),
        };
        let r = match sort {
            SearchSort::Downloads => h.downloads,
            SearchSort::Likes => h.likes,
            SearchSort::Trending => h.trending_score,
            _ => 0,
        };
        dates.push(d);
        ranks.push(r);
        idx.push(i);
        assert(idx@ =~= positions((i + 1) as nat));
        i = i + 1;
    }
    assert(dates.deep_view() =~= hit_dates(hv));
    assert(ranks@ =~= hit_ranks(hv, sort));
    let order = if sort == SearchSort::CreatedAt { SortOrder::ByNameDesc } else { SortOrder::ByRankDesc };
    let perm = sort_indices(&idx, order, &dates, &ranks);
    proof {
        assert forall|k: int| 0 <= k < perm@.len() implies perm@[k] < hits@.len() by {
            vstd::seq_lib::to_multiset_contains(perm@, perm@[k]);
            vstd::seq_lib::to_multiset_contains(idx@, perm@[k]);
            assert(perm@.contains(perm@[k]));
            assert(perm@.to_multiset().contains(perm@[k]));
            assert(idx@.to_multiset().contains(perm@[k]));
            assert(idx@.contains(perm@[k]));
        }
        assert(perm@.len() == idx@.len()) by {
            vstd::seq_lib::to_multiset_len(perm@);
            vstd::seq_lib::to_multiset_len(idx@);
        }
    }
    let mut out: Vec<SearchHit> = Vec::new();
    let mut k: usize = 0;
    while k < perm.len()
        invariant
            k <= perm.len(),
            hv == hits_view(hits@),
            forall|j: int| 0 <= j < perm@.len() ==> perm@[j] < hits@.len(),
            out@.len() == k,
            forall|j: int| 0 <= j < k ==> #[trigger] hits_view(out@)[j] == hv[perm@[j] as int],
        decreases perm.len() - k,
    {
        let p = perm[k];
        let h = copy_hit(&hits[p]);
        let ghost before = out@;
        out.push(h);
        assert(hits_view(out@)[k as int] == hv[p as int]);
        assert forall|j: int| 0 <= j < k implies #[trigger] hits_view(out@)[j] == hv[perm@[j] as int] by {
            assert(out@[j] == before[j]);
            assert(hits_view(before)[j] == hv[perm@[j] as int]);
        }
        k = k + 1;
    }
    proof {
        let after = hits_view(out@);
        assert(sorted_in(search_order(sort), hit_dates(hv), hit_ranks(hv, sort), perm@));
        assert forall|j: int| 0 <= j < perm@.len() implies perm@[j] < hv.len() && after[j] == hv[perm@[j] as int] by {
            assert(hits_view(out@)[j] == hv[perm@[j] as int]);
        }
        assert(arranged_by(hv, sort, after, perm@));
    }
    out
}


// ───────────────────────── the search view ─────────────────────────

/// The results of a hub search, with the selection and the paging.
#[derive(Debug)]
pub struct SearchResults {
    pub query: String,
    pub hits: Vec<SearchHit>,
    pub sort_by: SearchSort,
    pub selected: Option<usize>,
    /// The page of results last asked for, pages of 50.
    pub page: usize,
    /// A page is being fetched.
    pub loading: bool,
    /// The hub may have more results.
    pub has_more: bool,
}

/// What the search view asks of the application after a key.
#[derive(Debug, Clone, Copy, PartialEq, Eq, Structural)]
pub enum SearchEffect {
    /// Leave the search for the local list, sorted by name.
    BackToList,
    /// Show the README of result `i`, focus the models panel and list the model's GGUF
    /// files.
    OpenFiles(usize),
    /// Ask the hub for the results from `offset` on.
    LoadPage { offset: u32 },
    /// Show the README of this result, if one is selected, and focus the README panel.
    ShowReadme(Option<usize>),
    /// Refresh the README of result `i`.
    FetchReadme(usize),
    Nothing,
}

pub open spec fn ctrl_key(key: Key, c: char) -> bool {
    key.code == KeyCode::Char(c) && key.ctrl
}

/// The selection when it points at a result.
pub open spec fn valid_selection(selected: Option<usize>, len: nat) -> Option<usize> {
    match selected {
        Some(i) => if i < len { Some(i) } else { None },
        None => None,
    }
}

/// The page number as an `as u32` cast reads it (its low 32 bits).
pub open spec fn low32(page: usize) -> nat {
    (page as nat) % 0x1_0000_0000
}

/// The offset of the page a key asks for can be computed in `u32`: Ctrl+B on a page past
/// the first reads the page as `u32`, takes one off and multiplies by 50; Down at the
/// last result, when more can be had and nothing is loading, adds one and multiplies by
/// 50.
pub open spec fn paging_fits(key: Key, page: usize, selected: Option<usize>, len: nat, loading: bool, has_more: bool) -> bool {
    &&& ctrl_key(key, 'B') && page > 0 ==> 1 <= low32(page) && (low32(page) - 1) * 50 <= u32::MAX
    &&& (key.code == KeyCode::Down || key.code == KeyCode::Char('j')) && !ctrl_key(key, 'B')
        && (selected matches Some(i) && i + 1 >= len) && !loading && has_more
        ==> (low32(page) + 1) * 50 <= u32::MAX
}

/// `page as u32`: its low 32 bits.
fn page_low32(page: usize) -> (r: u32)
    ensures
        r as nat == low32(page),
{
    ((page as u64) % 0x1_0000_0000u64) as u32
}

/// The selection, the page and the request after a key in the search view, `len`
/// results being listed. Esc leaves; Enter or Ctrl+F opens the files of the selected
/// model; Ctrl+S selects the first result (the results are resorted, see
/// `handle_search_key`); Ctrl+B goes back a page; Down moves on, asking for the next page
/// at the end when more can be had; Up moves back; Ctrl+R or Right shows the README; any
/// other key refreshes the README of the selected result when no overlay is shown.
pub open spec fn search_key_step(
    len: nat,
    selected: Option<usize>,
    page: usize,
    loading: bool,
    has_more: bool,
    global_normal: bool,
    key: Key,
) -> (Option<usize>, usize, SearchEffect) {
    let code = key.code;
    if code == KeyCode::Esc {
        (selected, page, SearchEffect::BackToList)
    } else if code == KeyCode::Enter || ctrl_key(key, 'f') {
        (selected, page, match valid_selection(selected, len) {
            Some(i) => SearchEffect::OpenFiles(i),
            None => SearchEffect::Nothing,
        })
    } else if ctrl_key(key, 's') {
        (if len > 0 { Some(0) } else { None }, page, SearchEffect::Nothing)
    } else if ctrl_key(key, 'B') {
        if page > 0 {
            (selected, (page - 1) as usize, SearchEffect::LoadPage { offset: ((low32(page) - 1) * 50) as u32 })
        } else {
            (selected, page, SearchEffect::Nothing)
        }
    } else if code == KeyCode::Down || code == KeyCode::Char('j') {
        match selected {
            Some(i) => if i + 1 < len {
                (Some((i + 1) as usize), page, SearchEffect::Nothing)
            } else if !loading && has_more {
                (selected, page, SearchEffect::LoadPage { offset: ((low32(page) + 1) * 50) as u32 })
            } else {
                (Some(if len > 0 { (len - 1) as usize } else { 0 }), page, SearchEffect::Nothing)
            },
            None => (if len > 0 { Some(0) } else { None }, page, SearchEffect::Nothing),
        }
    } else if code == KeyCode::Up || code == KeyCode::Char('k') {
        match selected {
            Some(i) => (if i > 0 { Some((i - 1) as usize) } else { selected }, page, SearchEffect::Nothing),
            None => (if len > 0 { Some(0) } else { None }, page, SearchEffect::Nothing),
        }
    } else if ctrl_key(key, 'R') || code == KeyCode::Right {
        (selected, page, SearchEffect::ShowReadme(valid_selection(selected, len)))
    } else {
        (selected, page, match valid_selection(selected, len) {
            Some(i) => if global_normal { SearchEffect::FetchReadme(i) } else { SearchEffect::Nothing },
            None => SearchEffect::Nothing,
        })
    }
}

/// `page` with `downloaded` set from the local model files named `names`.
pub open spec fn marked(page: Seq<SearchHitView>, names: Seq<Seq<char>>) -> Seq<SearchHitView> {
    page.map_values(|h: SearchHitView| SearchHitView { downloaded: downloaded(names, h.model_id), ..h })
}

impl SearchResults {
    /// A new search, before any query: no results, in the hub's order, the first result
    /// selected once there is one, more to be had.
    pub fn start() -> (r: SearchResults)
        ensures
            r.query@ == Seq::<char>::empty(),
            r.hits@.len() == 0,
            r.sort_by == SearchSort::Relevance,
            r.selected == Some(0usize),
            r.page == 0,
            !r.loading,
            r.has_more,
    {
        SearchResults {
            query: String::new(),
            hits: Vec::new(),
            sort_by: SearchSort::Relevance,
            selected: Some(0),
            page: 0,
            loading: false,
            has_more: true,
        }
    }

    /// Ctrl+S: the next sort order; the results are reordered by it and the first one is
    /// selected.
    pub fn cycle_sort(&mut self)
        ensures
            final(self).sort_by == old(self).sort_by.following(),
            sorted_results(hits_view(old(self).hits@), final(self).sort_by, hits_view(final(self).hits@)),
            final(self).selected == (if old(self).hits@.len() > 0 { Some(0usize) } else { None }),
            final(self).query@ == old(self).query@,
            final(self).page == old(self).page,
            final(self).loading == old(self).loading,
            final(self).has_more == old(self).has_more,
    {
        let next = self.sort_by.next();
        let sorted = sort_hits(&self.hits, next);
        proof {
            if next != SearchSort::Relevance {
                assert(sorted@.len() == self.hits@.len());
            }
        }
        self.sort_by = next;
        self.hits = sorted;
        self.selected = if self.hits.len() > 0 { Some(0) } else { None };
    }

    /// Keys of the search view (see `search_key_step`). Esc also shows the two right-hand
    /// panels again (bits 4 and 5 of `panel_visibility`).
    pub fn handle_search_key(&mut self, key: Key, global_normal: bool, panel_visibility: &mut u8) -> (effect: SearchEffect)
        requires
            paging_fits(key, old(self).page, old(self).selected, old(self).hits@.len(), old(self).loading, old(self).has_more),
        ensures
            (final(self).selected, final(self).page, effect) == search_key_step(
                old(self).hits@.len(),
                old(self).selected,
                old(self).page,
                old(self).loading,
                old(self).has_more,
                global_normal,
                key,
            ),
            final(self).sort_by == (if ctrl_key(key, 's') { old(self).sort_by.following() } else { old(self).sort_by }),
            ctrl_key(key, 's') ==> sorted_results(hits_view(old(self).hits@), final(self).sort_by, hits_view(final(self).hits@)),
            !ctrl_key(key, 's') ==> hits_view(final(self).hits@) == hits_view(old(self).hits@),
            *final(panel_visibility) == (if key.code == KeyCode::Esc { *old(panel_visibility) | 0x30u8 } else { *old(panel_visibility) }),
            final(self).query@ == old(self).query@,
            final(self).loading == old(self).loading,
            final(self).has_more == old(self).has_more,
    {
        let code = key.code;
        let len = self.hits.len();
        let current = match self.selected {
            Some(i) => if i < len { Some(i) } else { None },
            None => None,
        };
        if code == KeyCode::Esc {
            *panel_visibility = *panel_visibility | 0x30u8;
            SearchEffect::BackToList
        } else if code == KeyCode::Enter || (key.ctrl && code == KeyCode::Char('f')) {
            match current {
                Some(i) => SearchEffect::OpenFiles(i),
                None => SearchEffect::Nothing,
            }
        } else if key.ctrl && code == KeyCode::Char('s') {
            self.cycle_sort();
            SearchEffect::Nothing
        } else if key.ctrl && code == KeyCode::Char('B') {
            if self.page > 0 {
                let offset = (page_low32(self.page) - 1) * 50;
                self.page = self.page - 1;
                SearchEffect::LoadPage { offset }
            } else {
                SearchEffect::Nothing
            }
        } else if code == KeyCode::Down || code == KeyCode::Char('j') {
            match self.selected {
                Some(i) => {
                    if i < len && len - i > 1 {
                        self.selected = Some(i + 1);
                        SearchEffect::Nothing
                    } else if !self.loading && self.has_more {
                        SearchEffect::LoadPage { offset: (page_low32(self.page) + 1) * 50 }
                    } else {
                        self.selected = Some(if len > 0 { len - 1 } else { 0 });
                        SearchEffect::Nothing
                    }
                },
                None => {
                    if len > 0 {
                        self.selected = Some(0);
                    }
                    SearchEffect::Nothing
                },
            }
        } else if code == KeyCode::Up || code == KeyCode::Char('k') {
            match self.selected {
                Some(i) => {
                    if i > 0 {
                        self.selected = Some(i - 1);
                    }
                },
                None => {
                    if len > 0 {
                        self.selected = Some(0);
                    }
                },
            }
            SearchEffect::Nothing
        } else if (key.ctrl && code == KeyCode::Char('R')) || code == KeyCode::Right {
            SearchEffect::ShowReadme(current)
        } else {
            match current {
                Some(i) => if global_normal { SearchEffect::FetchReadme(i) } else { SearchEffect::Nothing },
                None => SearchEffect::Nothing,
            }
        }
    }

    /// A page of results came back for the request from `offset` (the hub listed
    /// `raw_len` models, `limit` at most). Each hit is marked downloaded when a local file
    /// of `models` belongs to its repository. A later page is appended, and the hub has no
    /// more once it listed fewer than `limit`; a first page replaces the results, selects
    /// the first one and there may be more when the hub listed `limit` or more. Either way
    /// the loading is over.
    pub fn receive_page(&mut self, page: Vec<SearchHit>, raw_len: usize, offset: u32, limit: u32, models: &[DiscoveredModel])
        ensures
            ({
                let m = marked(hits_view(page@), models@.map_values(|d: DiscoveredModel| d.name@));
                if offset > 0 {
                    &&& hits_view(final(self).hits@) == hits_view(old(self).hits@) + m
                    &&& final(self).has_more == (old(self).has_more && raw_len >= limit)
                    &&& final(self).selected == old(self).selected
                } else {
                    &&& hits_view(final(self).hits@) == m
                    &&& final(self).has_more == (raw_len >= limit)
                    &&& final(self).selected == (if m.len() > 0 { Some(0usize) } else { None })
                }
            }),
            !final(self).loading,
            final(self).query@ == old(self).query@,
            final(self).sort_by == old(self).sort_by,
            final(self).page == old(self).page,
    {
        let ghost names = models@.map_values(|d: DiscoveredModel| d.name@);
        let ghost m = marked(hits_view(page@), names);
        let ghost before = hits_view(self.hits@);
        let mut fresh: Vec<SearchHit> = Vec::new();
        let mut page = page;
        let ghost pv = hits_view(page@);
        let n = page.len();
        let mut i: usize = 0;
        while i < n
            invariant
                n == pv.len(),
                i <= n,
                page@.len() == n - i,
                forall|j: int| 0 <= j < page@.len() ==> #[trigger] page@[j]@ == pv[j + i],
                fresh@.len() == i,
                m == marked(pv, names),
                names == models@.map_values(|d: DiscoveredModel| d.name@),
                forall|j: int| 0 <= j < i ==> #[trigger] fresh@[j]@ == m[j],
            decreases n - i,
        {
            let mut h = page.remove(0);
            assert(h@ == pv[i as int]);
            h.downloaded = model_is_downloaded(models, h.model_id.as_str());
            fresh.push(h);
            i = i + 1;
        }
        assert(hits_view(fresh@) =~= m);
        if offset > 0 {
            let mut k: usize = 0;
            while k < fresh.len()
                invariant
                    k <= fresh.len(),
                    hits_view(self.hits@) == before + m.take(k as int),
                    hits_view(fresh@) == m,
                    self.query@ == old(self).query@,
                    self.sort_by == old(self).sort_by,
                    self.page == old(self).page,
                    self.selected == old(self).selected,
                    self.has_more == old(self).has_more,
                decreases fresh.len() - k,
            {
                let h = copy_hit(&fresh[k]);
                let ghost prev = hits_view(self.hits@);
                self.hits.push(h);
                assert(hits_view(self.hits@) =~= prev.push(m[k as int]));
                assert(m.take(k + 1) =~= m.take(k as int).push(m[k as int]));
                k = k + 1;
            }
            assert(m.take(fresh.len() as int) =~= m);
            if raw_len < (limit as usize) {
                self.has_more = false;
            }
        } else {
            self.hits = fresh;
            self.selected = if self.hits.len() > 0 { Some(0) } else { None };
            self.has_more = raw_len >= (limit as usize);
        }
        self.loading = false;
    }

    /// The search failed: the loading is over, the results stay.
    pub fn search_failed(&mut self)
        ensures
            !final(self).loading,
            hits_view(final(self).hits@) == hits_view(old(self).hits@),
            final(self).selected == old(self).selected,
            final(self).page == old(self).page,
            final(self).has_more == old(self).has_more,
            final(self).sort_by == old(self).sort_by,
            final(self).query@ == old(self).query@,
    {
        self.loading = false;
    }
}

// ───────────────────────── laws ─────────────────────────

/// Five presses of Ctrl+S bring the sort order back.
pub proof fn law_sort_cycle(sort: SearchSort)
    ensures
        sort.following().following().following().following().following() == sort,
{
}

/// Results sorted by downloads, likes or trending score are listed highest first, and
/// results sorted by creation date newest first (in the order of the ISO 8601 text).
pub proof fn law_sorted_results_descend(before: Seq<SearchHitView>, sort: SearchSort, after: Seq<SearchHitView>, i: int, j: int)
    requires
        sort != SearchSort::Relevance,
        sorted_results(before, sort, after),
        0 <= i < j < after.len(),
    ensures
        sort == SearchSort::CreatedAt ==> !name_lt(hit_date(after[i]), hit_date(after[j])),
        sort != SearchSort::CreatedAt ==> hit_rank(after[i], sort) >= hit_rank(after[j], sort),
{
    let perm = choose|perm: Seq<usize>| #[trigger] arranged_by(before, sort, after, perm);
    assert(after[i] == before[perm[i] as int]);
    assert(after[j] == before[perm[j] as int]);
    assert(precedes(search_order(sort), hit_dates(before), hit_ranks(before, sort), perm[i], perm[j]));
    lemma_name_lt_total(hit_date(after[i]), hit_date(after[j]));
}

/// With results listed and the selection on one of them (or none yet), Up and Down
/// leave the selection on a result, or ask for the next page and keep it.
pub proof fn law_search_selection_stays_on_a_result(
    len: nat,
    selected: Option<usize>,
    page: usize,
    loading: bool,
    has_more: bool,
    global_normal: bool,
    key: Key,
)
    requires
        len > 0,
        len <= usize::MAX,
        selected matches Some(i) ==> i < len,
        key.code == KeyCode::Up || key.code == KeyCode::Down || key.code == KeyCode::Char('j') || key.code == KeyCode::Char('k'),
    ensures
        search_key_step(len, selected, page, loading, has_more, global_normal, key).0 matches Some(i) && i < len,
{
}

/// Down then Up comes back to the same result, away from the end of the list.
pub proof fn law_up_undoes_down_in_search(len: nat, i: usize, page: usize, loading: bool, has_more: bool, global_normal: bool)
    requires
        i + 1 < len,
        len <= usize::MAX,
    ensures
        ({
            let down = search_key_step(len, Some(i), page, loading, has_more, global_normal, Key { code: KeyCode::Down, ctrl: false, alt: false, shift: false });
            search_key_step(len, down.0, down.1, loading, has_more, global_normal, Key { code: KeyCode::Up, ctrl: false, alt: false, shift: false }).0 == Some(i)
        }),
{
}

} // verus!
