//! Following the models a router server reports (id, status, file path): each local model
//! it names is marked loading or loaded, and the loaded ones join the served models.
use vstd::prelude::*;
use vstd::string::StringExecFns;
use crate::model_state::{entries_view, names_unique, ModelState, ModelStateView};
use crate::server_flow::{names_view, set_state, with_state};
use crate::text::{after_last, lowercase_of, seq_contains, seq_starts_with, str_eq, to_lowercase};

verus! {

/// A model file found on disk, by display name, file name and path.
#[derive(Debug)]
pub struct LocalModel {
    pub display_name: String,
    pub name: String,
    pub path: String,
}

pub struct LocalView {
    pub display_name: Seq<char>,
    pub name: Seq<char>,
    pub path: Seq<char>,
}

impl View for LocalModel {
    type V = LocalView;

    open spec fn view(&self) -> LocalView {
        LocalView { display_name: self.display_name@, name: self.name@, path: self.path@ }
    }
}

/// A model as the server lists it.
#[derive(Debug)]
pub struct ReportedModel {
    pub id: String,
    pub status: String,
    pub path: Option<String>,
}

pub struct ReportView {
    pub id: Seq<char>,
    pub status: Seq<char>,
    pub path: Option<Seq<char>>,
}

impl View for ReportedModel {
    type V = ReportView;

    open spec fn view(&self) -> ReportView {
        ReportView {
            id: self.id@,
            status: self.status@,
            path: match self.path {
                Some(p) => Some(p@),
                None => None,
            },
        }
    }
}

/// The last component of the reported path and of the reported id, as the platform's
/// paths read them.
pub struct ReportFileNames {
    pub path_file: Option<String>,
    pub id_file: Option<String>,
}

pub type States = Seq<(Seq<char>, ModelStateView)>;

pub open spec fn opt_view(o: Option<String>) -> Option<Seq<char>> {
    match o {
        Some(s) => Some(s@),
        None => None,
    }
}

/// A status meaning the model is in memory or coming: loaded, loading or ready (lower
/// case).
pub open spec fn active_status(lower: Seq<char>) -> bool {
    lower == "loaded"@ || lower == "loading"@ || lower == "ready"@
}

/// The report names the local model: by path, by id (the display name or the file name),
/// by the file name of the reported path, or by the file name of the id.
pub open spec fn names_local(m: LocalView, r: ReportView, path_file: Option<Seq<char>>, id_file: Option<Seq<char>>) -> bool {
    r.path == Some(m.path) || r.id == m.display_name || r.id == m.name || path_file == Some(m.name)
        || id_file == Some(m.name) || id_file == Some(m.display_name)
}

/// `served` with `n` added at the end when missing.
pub open spec fn add_served(served: Seq<Seq<char>>, n: Seq<char>) -> Seq<Seq<char>> {
    if served.contains(n) { served } else { served.push(n) }
}

/// The model marked loaded on the server and served.
pub open spec fn mark_loaded(st: (States, Seq<Seq<char>>), display: Seq<char>, port: u16, pid: u32) -> (States, Seq<Seq<char>>) {
    (with_state(st.0, display, ModelStateView::Loaded { port, pid }), add_served(st.1, display))
}

/// One local model against one report: when named by an active report, it is marked
/// loading (status `loading`) or loaded.
pub open spec fn after_local(
    st: (States, Seq<Seq<char>>),
    m: LocalView,
    r: ReportView,
    lower: Seq<char>,
    path_file: Option<Seq<char>>,
    id_file: Option<Seq<char>>,
    port: u16,
    pid: u32,
) -> (States, Seq<Seq<char>>) {
    if names_local(m, r, path_file, id_file) && active_status(lower) {
        if lower == "loading"@ {
            (with_state(st.0, m.display_name, ModelStateView::Loading), st.1)
        } else {
            mark_loaded(st, m.display_name, port, pid)
        }
    } else {
        st
    }
}

pub open spec fn after_locals(
    st: (States, Seq<Seq<char>>),
    locals: Seq<LocalView>,
    r: ReportView,
    lower: Seq<char>,
    path_file: Option<Seq<char>>,
    id_file: Option<Seq<char>>,
    port: u16,
    pid: u32,
) -> (States, Seq<Seq<char>>)
    decreases locals.len(),
{
    if locals.len() == 0 {
        st
    } else {
        after_local(after_locals(st, locals.drop_last(), r, lower, path_file, id_file, port, pid), locals.last(), r, lower, path_file, id_file, port, pid)
    }
}

/// The first local model whose display name or file name is `name`, or -1.
pub open spec fn first_named(locals: Seq<LocalView>, name: Seq<char>) -> int
    decreases locals.len(),
{
    if locals.len() == 0 {
        -1
    } else {
        let r = first_named(locals.drop_last(), name);
        if r >= 0 {
            r
        } else if locals.last().display_name == name || locals.last().name == name {
            locals.len() - 1
        } else {
            -1
        }
    }
}

/// A report that named no local model: the first model named as the id, else as the id
/// with `.gguf`, is marked loaded when the report is active.
pub open spec fn fallback(st: (States, Seq<Seq<char>>), locals: Seq<LocalView>, id: Seq<char>, lower: Seq<char>, port: u16, pid: u32) -> (States, Seq<Seq<char>>) {
    let i1 = first_named(locals, id);
    let i2 = first_named(locals, id + ".gguf"@);
    if i1 >= 0 {
        if active_status(lower) { mark_loaded(st, locals[i1].display_name, port, pid) } else { st }
    } else if i2 >= 0 {
        if active_status(lower) { mark_loaded(st, locals[i2].display_name, port, pid) } else { st }
    } else {
        st
    }
}

pub open spec fn any_named(locals: Seq<LocalView>, r: ReportView, path_file: Option<Seq<char>>, id_file: Option<Seq<char>>) -> bool {
    exists|i: int| 0 <= i < locals.len() && names_local(locals[i], r, path_file, id_file)
}

/// One report: every local model it names, or else the fallback by name.
pub open spec fn after_report(
    st: (States, Seq<Seq<char>>),
    locals: Seq<LocalView>,
    r: ReportView,
    path_file: Option<Seq<char>>,
    id_file: Option<Seq<char>>,
    port: u16,
    pid: u32,
) -> (States, Seq<Seq<char>>) {
    let lower = lowercase_of(r.status);
    if any_named(locals, r, path_file, id_file) {
        after_locals(st, locals, r, lower, path_file, id_file, port, pid)
    } else {
        fallback(st, locals, r.id, lower, port, pid)
    }
}

/// Every report in turn, `files` holding the file names of each report's path and id.
pub open spec fn after_reports(
    st: (States, Seq<Seq<char>>),
    locals: Seq<LocalView>,
    reports: Seq<ReportView>,
    files: Seq<(Option<Seq<char>>, Option<Seq<char>>)>,
    port: u16,
    pid: u32,
) -> (States, Seq<Seq<char>>)
    decreases reports.len(),
{
    if reports.len() == 0 || files.len() < reports.len() {
        st
    } else {
        let n = reports.len() - 1;
        after_report(after_reports(st, locals, reports.drop_last(), files.take(n), port, pid), locals, reports.last(), files[n].0, files[n].1, port, pid)
    }
}

pub open spec fn locals_view(v: Seq<LocalModel>) -> Seq<LocalView> {
    v.map_values(|m: LocalModel| m@)
}

pub open spec fn reports_view(v: Seq<ReportedModel>) -> Seq<ReportView> {
    v.map_values(|r: ReportedModel| r@)
}

pub open spec fn files_view(v: Seq<ReportFileNames>) -> Seq<(Option<Seq<char>>, Option<Seq<char>>)> {
    v.map_values(|f: ReportFileNames| (opt_view(f.path_file), opt_view(f.id_file)))
}

fn add_to_served(served: &mut Vec<String>, n: &str)
    ensures
        names_view(final(served)@) == add_served(names_view(old(served)@), n@),
{
    let mut i: usize = 0;
    while i < served.len()
        invariant
            i <= served.len(),
            forall|j: int| 0 <= j < i ==> served@[j]@ != n@,
        decreases served.len() - i,
    {
        if str_eq(served[i].as_str(), n) {
            assert(names_view(served@)[i as int] == n@);
            return;
        }
        i = i + 1;
    }
    assert(!names_view(served@).contains(n@)) by {
        if names_view(served@).contains(n@) {
            let j = choose|j: int| 0 <= j < names_view(served@).len() && names_view(served@)[j] == n@;
            assert(served@[j]@ == n@);
        }
    }
    let ghost before = names_view(served@);
    served.push(String::from_str(n));
    assert(names_view(served@) =~= before.push(n@));
}

fn same_opt(a: &Option<String>, b: &str) -> (r: bool)
    ensures
        r == (opt_view(*a) == Some(b@)),
{
    match a {
        Some(x) => str_eq(x.as_str(), b),
        None => false,
    }
}

fn names_local_exec(m: &LocalModel, r: &ReportedModel, f: &ReportFileNames) -> (b: bool)
    ensures
        b == names_local(m@, r@, opt_view(f.path_file), opt_view(f.id_file)),
{
    same_opt(&r.path, m.path.as_str()) || str_eq(r.id.as_str(), m.display_name.as_str()) || str_eq(r.id.as_str(), m.name.as_str())
        || same_opt(&f.path_file, m.name.as_str()) || same_opt(&f.id_file, m.name.as_str())
        || same_opt(&f.id_file, m.display_name.as_str())
}

fn is_active_status(lower: &str) -> (b: bool)
    ensures
        b == active_status(lower@),
{
    str_eq(lower, "loaded") || str_eq(lower, "loading") || str_eq(lower, "ready")
}

fn first_named_exec(locals: &Vec<LocalModel>, name: &str) -> (r: Option<usize>)
    ensures
        match r {
            Some(k) => k as int == first_named(locals_view(locals@), name@) && k < locals@.len(),
            None => first_named(locals_view(locals@), name@) < 0,
        },
{
    let ghost lv = locals_view(locals@);
    let mut i: usize = 0;
    assert(lv.take(0) =~= Seq::<LocalView>::empty());
    while i < locals.len()
        invariant
            i <= locals.len(),
            lv == locals_view(locals@),
            first_named(lv.take(i as int), name@) < 0,
        decreases locals.len() - i,
    {
        assert(lv.take(i + 1).drop_last() =~= lv.take(i as int));
        assert(lv.take(i + 1).last() == locals@[i as int]@);
        if str_eq(locals[i].display_name.as_str(), name) || str_eq(locals[i].name.as_str(), name) {
            proof {
                lemma_first_named_prefix(lv, name@, i + 1, i as int);
            }
            return Some(i);
        }
        i = i + 1;
    }
    assert(lv.take(lv.len() as int) =~= lv);
    None
}

/// A match found within a prefix is the first match of the whole.
proof fn lemma_first_named_prefix(lv: Seq<LocalView>, name: Seq<char>, k: int, j: int)
    requires
        0 <= k <= lv.len(),
        0 <= j,
        first_named(lv.take(k), name) == j,
    ensures
        first_named(lv, name) == j,
    decreases lv.len() - k,
{
    if k < lv.len() {
        assert(lv.take(k + 1).drop_last() =~= lv.take(k));
        lemma_first_named_prefix(lv, name, k + 1, j);
    } else {
        assert(lv.take(k) =~= lv);
    }
}

fn report_exec(
    states: &mut Vec<(String, ModelState)>,
    served: &mut Vec<String>,
    locals: &Vec<LocalModel>,
    r: &ReportedModel,
    f: &ReportFileNames,
    port: u16,
    pid: u32,
)
    ensures
        (entries_view(final(states)@), names_view(final(served)@)) == after_report(
            (entries_view(old(states)@), names_view(old(served)@)),
            locals_view(locals@),
            r@,
            opt_view(f.path_file),
            opt_view(f.id_file),
            port,
            pid,
        ),
        names_unique(entries_view(old(states)@)) ==> names_unique(entries_view(final(states)@)),
{
    let lower = to_lowercase(r.status.as_str());
    let active = is_active_status(lower.as_str());
    let loading = str_eq(lower.as_str(), "loading");
    let ghost lv = locals_view(locals@);
    let ghost st0 = (entries_view(states@), names_view(served@));
    let ghost pf = opt_view(f.path_file);
    let ghost idf = opt_view(f.id_file);
    let ghost u0 = names_unique(entries_view(states@));
    let mut matched = false;
    let mut i: usize = 0;
    assert(lv.take(0) =~= Seq::<LocalView>::empty());
    while i < locals.len()
        invariant
            i <= locals.len(),
            lv == locals_view(locals@),
            lower@ == lowercase_of(r@.status),
            active == active_status(lower@),
            loading == (lower@ == "loading"@),
            pf == opt_view(f.path_file),
            idf == opt_view(f.id_file),
            (entries_view(states@), names_view(served@)) == after_locals(st0, lv.take(i as int), r@, lower@, pf, idf, port, pid),
            matched == exists|j: int| 0 <= j < i && names_local(lv[j], r@, pf, idf),
            !matched ==> (entries_view(states@), names_view(served@)) == st0,
            u0 == names_unique(entries_view(old(states)@)),
            u0 ==> names_unique(entries_view(states@)),
        decreases locals.len() - i,
    {
        assert(lv.take(i + 1).drop_last() =~= lv.take(i as int));
        assert(lv.take(i + 1).last() == locals@[i as int]@);
        let m = &locals[i];
        let hit = names_local_exec(m, r, f);
        if hit {
            if active {
                if loading {
                    set_state(states, m.display_name.as_str(), ModelState::Loading);
                } else {
                    add_to_served(served, m.display_name.as_str());
                    set_state(states, m.display_name.as_str(), ModelState::Loaded { port, pid });
                }
            }
            matched = true;
        } else {
            assert((exists|j: int| 0 <= j < i + 1 && names_local(lv[j], r@, pf, idf)) == (exists|j: int| 0 <= j < i && names_local(lv[j], r@, pf, idf))) by {
                if exists|j: int| 0 <= j < i + 1 && names_local(lv[j], r@, pf, idf) {
                    let j = choose|j: int| 0 <= j < i + 1 && names_local(lv[j], r@, pf, idf);
                    assert(j != i);
                }
            }
        }
        i = i + 1;
    }
    assert(lv.take(lv.len() as int) =~= lv);
    if matched {
        return;
    }
    let id = r.id.as_str();
    match first_named_exec(locals, id) {
        Some(k) => {
            if active {
                add_to_served(served, locals[k].display_name.as_str());
                set_state(states, locals[k].display_name.as_str(), ModelState::Loaded { port, pid });
            }
        },
        None => {
            let mut with_ext = String::from_str(id);
            with_ext.append(".gguf");
            match first_named_exec(locals, with_ext.as_str()) {
                Some(k) => {
                    if active {
                        add_to_served(served, locals[k].display_name.as_str());
                        set_state(states, locals[k].display_name.as_str(), ModelState::Loaded { port, pid });
                    }
                },
                None => {},
            }
        },
    }
}

/// Follows the reports of a router on `port`, process `pid` (see `after_reports`):
/// `files` holds the file names of each report's path and id.
pub fn apply_reports(
    states: &mut Vec<(String, ModelState)>,
    served: &mut Vec<String>,
    locals: &Vec<LocalModel>,
    reports: &Vec<ReportedModel>,
    files: &Vec<ReportFileNames>,
    port: u16,
    pid: u32,
)
    requires
        files.len() == reports.len(),
    ensures
        (entries_view(final(states)@), names_view(final(served)@)) == after_reports(
            (entries_view(old(states)@), names_view(old(served)@)),
            locals_view(locals@),
            reports_view(reports@),
            files_view(files@),
            port,
            pid,
        ),
        names_unique(entries_view(old(states)@)) ==> names_unique(entries_view(final(states)@)),
{
    let ghost st0 = (entries_view(states@), names_view(served@));
    let ghost rv = reports_view(reports@);
    let ghost fv = files_view(files@);
    let mut i: usize = 0;
    assert(rv.take(0) =~= Seq::<ReportView>::empty());
    while i < reports.len()
        invariant
            i <= reports.len(),
            files.len() == reports.len(),
            rv == reports_view(reports@),
            fv == files_view(files@),
            (entries_view(states@), names_view(served@)) == after_reports(st0, locals_view(locals@), rv.take(i as int), fv.take(i as int), port, pid),
            names_unique(entries_view(old(states)@)) ==> names_unique(entries_view(states@)),
        decreases reports.len() - i,
    {
        assert(rv.take(i + 1).drop_last() =~= rv.take(i as int));
        assert(fv.take(i + 1).take(i as int) =~= fv.take(i as int));
        assert(rv.take(i + 1).last() == reports@[i as int]@);
        assert(fv.take(i + 1)[i as int] == (opt_view(files@[i as int].path_file), opt_view(files@[i as int].id_file)));
        report_exec(states, served, locals, &reports[i], &files[i], port, pid);
        i = i + 1;
    }
    assert(rv.take(rv.len() as int) =~= rv);
    assert(fv.take(fv.len() as int) =~= fv);
}

/// What `Path::file_name` gives, on every platform, for the text `path`: a name it gives
/// is a non-empty piece of the path (with no `/` when the path has no backslash); and where
/// the path has no backslash, does not start with two slashes (which a platform may read
/// as a network prefix), and its part after the last `/` is a plain name (not empty, not
/// `.` or `..`, with no `:`), that part is the name.
pub open spec fn file_name_fits(path: Seq<char>, name: Option<Seq<char>>) -> bool {
    let last = after_last(path, '/');
    &&& name matches Some(f) ==> f.len() > 0 && seq_contains(path, f) && (!path.contains('\\') ==> !f.contains('/'))
    &&& (!path.contains('\\') && !seq_starts_with(path, "//"@) && last.len() > 0 && last != "."@ && last != ".."@
        && !last.contains(':')) ==> name == Some(last)
}

/// `std::path::Path::file_name` of `path`, as text (`OsStr::to_string_lossy`, which
/// leaves the text of a `&str` as it is). Stated (see `file_name_fits`): the name is a
/// non-empty piece of the path, the final component, which holds no separator, and for a
/// path whose part after its last `/` is a plain name (or being one) the name is that last
/// part, unless the path starts with `//`. What other separators and prefixes a platform
/// reads (backslashes, drive letters, network prefixes) is left unsaid.
#[verifier::external_body]
fn file_name_of(path: &str) -> (r: Option<String>)
    ensures
        file_name_fits(path@, opt_view(r)),
{
    std::path::Path::new(path).file_name().map(|f| f.to_string_lossy().to_string())
}

/// The file names of the reports: `files[i]` holds those of the path and of the id of
/// `reports[i]`, as `file_name_fits` says.
pub open spec fn files_fit(reports: Seq<ReportView>, files: Seq<(Option<Seq<char>>, Option<Seq<char>>)>) -> bool {
    &&& files.len() == reports.len()
    &&& forall|i: int| 0 <= i < reports.len() ==> {
        &&& match #[trigger] reports[i].path {
            Some(p) => file_name_fits(p, files[i].0),
            None => files[i].0 is None,
        }
        &&& file_name_fits(reports[i].id, files[i].1)
    }
}

/// Follows the models a router on `port`, process `pid` lists (see `after_reports`),
/// reading the file names of the reported paths and ids as the platform does.
pub fn sync_model_states(
    states: &mut Vec<(String, ModelState)>,
    served: &mut Vec<String>,
    locals: &Vec<LocalModel>,
    reports: &Vec<ReportedModel>,
    port: u16,
    pid: u32,
)
    ensures
        exists|files: Seq<(Option<Seq<char>>, Option<Seq<char>>)>|
            files_fit(reports_view(reports@), files) && (entries_view(final(states)@), names_view(final(served)@))
                == #[trigger] after_reports(
                (entries_view(old(states)@), names_view(old(served)@)),
                locals_view(locals@),
                reports_view(reports@),
                files,
                port,
                pid,
            ),
        names_unique(entries_view(old(states)@)) ==> names_unique(entries_view(final(states)@)),
{
    let mut files: Vec<ReportFileNames> = Vec::new();
    let ghost rv = reports_view(reports@);
    let mut i: usize = 0;
    while i < reports.len()
        invariant
            i <= reports.len(),
            files.len() == i,
            rv == reports_view(reports@),
            forall|j: int| 0 <= j < i ==> {
                &&& match #[trigger] rv[j].path {
                    Some(p) => file_name_fits(p, files_view(files@)[j].0),
                    None => files_view(files@)[j].0 is None,
                }
                &&& file_name_fits(rv[j].id, files_view(files@)[j].1)
            },
        decreases reports.len() - i,
    {
        let path_file = match &reports[i].path {
            Some(p) => file_name_of(p.as_str()),
            None => None,
        };
        let id_file = file_name_of(reports[i].id.as_str());
        let ghost before = files_view(files@);
        files.push(ReportFileNames { path_file, id_file });
        assert(files_view(files@) =~= before.push((opt_view(path_file), opt_view(id_file))));
        i = i + 1;
    }
    apply_reports(states, served, locals, reports, &files, port, pid);
    assert(files_fit(rv, files_view(files@)));
}

} // verus!
