//! Matching a hub model id against the model files already on disk.
use vstd::prelude::*;
use crate::text::{all_ascii, ascii_lower, str_eq, after_last, after_last_exec, chars_of, string_of, lowercase_of, seq_starts_with, starts_with_chars, to_lowercase, utf8_len, utf8_width_exec};

verus! {

/// A model file found on disk.
pub struct DiscoveredModel {
    /// Full path of the file.
    pub path: String,
    /// File name, e.g. `Qwen3-8B-Q4_K_M.gguf`.
    pub name: String,
    pub file_size: u64,
    /// Path relative to the models directory it was found in.
    pub display_name: String,
    pub pipeline_tag: Option<String>,
    pub capabilities: Vec<String>,
}

/// `s` with every `_` replaced by `-`.
pub open spec fn dashed(s: Seq<char>) -> Seq<char> {
    s.map_values(|c: char| if c == '_' { '-' } else { c })
}

/// `s` without a trailing `.gguf`.
pub open spec fn strip_gguf(s: Seq<char>) -> Seq<char> {
    if s.len() >= 5 && s.skip(s.len() - 5) == ".gguf"@ {
        s.take(s.len() - 5)
    } else {
        s
    }
}

/// `local` begins with one of the dash-separated prefixes of `repo` (a run of its first
/// parts, at least 8 bytes long) followed by a dash.
pub open spec fn prefix_match(local: Seq<char>, repo: Seq<char>) -> bool {
    exists|p: int|
        0 <= p <= repo.len() && (p == repo.len() || repo[p] == '-') && utf8_len(repo.take(p)) >= 8
            && seq_starts_with(local, #[trigger] repo.take(p).push('-'))
}

/// A lower-cased local file name matches a lower-cased repository name: after dropping
/// `.gguf` and reading `_` as `-`, they are equal, or the file name starts with a long
/// enough prefix of the repository name.
pub open spec fn name_matches(local_lower: Seq<char>, repo_lower: Seq<char>) -> bool {
    let l = dashed(strip_gguf(local_lower));
    let r = dashed(repo_lower);
    l == r || prefix_match(l, r)
}

/// Some file of `names` matches the repository of `model_id`, both compared lower-cased.
pub open spec fn downloaded(names: Seq<Seq<char>>, model_id: Seq<char>) -> bool {
    exists|i: int| 0 <= i < names.len() && name_matches(lowercase_of(names[i]), lowercase_of(after_last(model_id, '/')))
}

fn slice_subrange(v: &Vec<char>, from: usize, to: usize) -> (r: Vec<char>)
    requires
        from <= to <= v.len(),
    ensures
        r@ == v@.subrange(from as int, to as int),
{
    let mut r: Vec<char> = Vec::new();
    let mut i = from;
    while i < to
        invariant
            from <= i <= to <= v.len(),
            r@ == v@.subrange(from as int, i as int),
        decreases to - i,
    {
        r.push(v[i]);
        i = i + 1;
        assert(r@ == v@.subrange(from as int, i as int));
    }
    r
}

fn dashed_exec(v: &Vec<char>) -> (r: Vec<char>)
    ensures
        r@ == dashed(v@),
{
    let mut r: Vec<char> = Vec::new();
    let mut i: usize = 0;
    while i < v.len()
        invariant
            i <= v.len(),
            r@ == dashed(v@.take(i as int)),
        decreases v.len() - i,
    {
        let c = v[i];
        r.push(if c == '_' { '-' } else { c });
        i = i + 1;
        assert(dashed(v@.take(i as int)) =~= dashed(v@.take(i - 1)).push(if c == '_' { '-' } else { c }));
    }
    assert(v@.take(v@.len() as int) == v@);
    r
}

/// Reads `_` as `-` for comparing names: every `_` of `s` becomes `-`.
pub fn normalize_separators(s: &str) -> (r: String)
    ensures
        r@ == dashed(s@),
{
    let v = chars_of(s);
    let d = dashed_exec(&v);
    string_of(d.as_slice())
}

fn strip_gguf_exec(v: &Vec<char>) -> (r: Vec<char>)
    ensures
        r@ == strip_gguf(v@),
{
    let n = v.len();
    if n >= 5 && v[n - 5] == '.' && v[n - 4] == 'g' && v[n - 3] == 'g' && v[n - 2] == 'u' && v[n - 1] == 'f' {
        proof {
            reveal_strlit(".gguf");
            assert(v@.skip(n - 5) =~= ".gguf"@);
        }
        slice_subrange(v, 0, n - 5)
    } else {
        proof {
            reveal_strlit(".gguf");
            if n >= 5 && v@.skip(n - 5) == ".gguf"@ {
                assert(v@.skip(n - 5)[0] == '.');
                assert(v@.skip(n - 5)[1] == 'g');
                assert(v@.skip(n - 5)[2] == 'g');
                assert(v@.skip(n - 5)[3] == 'u');
                assert(v@.skip(n - 5)[4] == 'f');
            }
        }
        slice_subrange(v, 0, n)
    }
}

/// Does the lower-cased, dash-normalized `local` start with a dash-separated prefix of
/// `repo` of at least 8 bytes, followed by a dash?
fn prefix_match_exec(local: &Vec<char>, repo: &Vec<char>) -> (r: bool)
    ensures
        r == prefix_match(local@, repo@),
{
    let mut bytes: u64 = 0;
    let mut p: usize = 0;
    assert(repo@.take(0) == Seq::<char>::empty());
    loop
        invariant
            p <= repo.len(),
            bytes as nat == if utf8_len(repo@.take(p as int)) >= 8 { 8 } else { utf8_len(repo@.take(p as int)) },
            forall|q: int|
                0 <= q < p && (q == repo@.len() || repo@[q] == '-') && utf8_len(repo@.take(q)) >= 8
                    ==> !seq_starts_with(local@, #[trigger] repo@.take(q).push('-')),
        decreases repo.len() - p,
    {
        if p == repo.len() || repo[p] == '-' {
            if bytes >= 8 {
                let mut candidate = slice_subrange(repo, 0, p);
                candidate.push('-');
                assert(candidate@ == repo@.take(p as int).push('-'));
                if starts_with_chars(local.as_slice(), candidate.as_slice()) {
                    return true;
                }
            }
        }
        if p == repo.len() {
            assert forall|q: int|
                0 <= q <= repo@.len() && (q == repo@.len() || repo@[q] == '-') && utf8_len(repo@.take(q)) >= 8
                    implies !seq_starts_with(local@, #[trigger] repo@.take(q).push('-')) by {
                if q == p {}
            }
            return false;
        }
        let w = utf8_width_exec(repo[p]);
        assert(repo@.take(p + 1).drop_last() == repo@.take(p as int));
        bytes = if bytes + w >= 8 { 8 } else { bytes + w };
        p = p + 1;
    }
}

/// Does the lower-cased file name `local_lower` belong to the lower-cased repository
/// name `repo_lower`?
pub fn name_matches_exec(local_lower: &str, repo_lower: &str) -> (r: bool)
    ensures
        r == name_matches(local_lower@, repo_lower@),
{
    let l0 = chars_of(local_lower);
    let l1 = strip_gguf_exec(&l0);
    let l = dashed_exec(&l1);
    let r0 = normalize_separators(repo_lower);
    let rr = chars_of(r0.as_str());
    if chars_equal(&l, &rr) {
        return true;
    }
    prefix_match_exec(&l, &rr)
}

fn chars_equal(a: &Vec<char>, b: &Vec<char>) -> (r: bool)
    ensures
        r == (a@ == b@),
{
    if a.len() != b.len() {
        return false;
    }
    let mut i: usize = 0;
    while i < a.len()
        invariant
            i <= a.len() == b.len(),
            forall|j: int| 0 <= j < i ==> a@[j] == b@[j],
        decreases a.len() - i,
    {
        if a[i] != b[i] {
            return false;
        }
        i = i + 1;
    }
    assert(a@ =~= b@);
    true
}

/// Checks whether a model, identified by its hub id (`owner/repo`), is already
/// downloaded: some local file name matches the repository name, case-insensitively.
pub fn model_is_downloaded(models: &[DiscoveredModel], model_id: &str) -> (r: bool)
    ensures
        r == downloaded(models@.map_values(|m: DiscoveredModel| m.name@), model_id@),
{
    let seg = after_last_exec(model_id, '/');
    let repo_lower = to_lowercase(seg.as_str());
    let ghost names = models@.map_values(|m: DiscoveredModel| m.name@);
    let mut i: usize = 0;
    while i < models.len()
        invariant
            i <= models.len(),
            names == models@.map_values(|m: DiscoveredModel| m.name@),
            repo_lower@ == lowercase_of(after_last(model_id@, '/')),
            forall|j: int| 0 <= j < i ==> !name_matches(lowercase_of(#[trigger] names[j]), repo_lower@),
        decreases models.len() - i,
    {
        let local_lower = to_lowercase(models[i].name.as_str());
        assert(names[i as int] == models@[i as int].name@);
        if name_matches_exec(local_lower.as_str(), repo_lower.as_str()) {
            return true;
        }
        i = i + 1;
    }
    false
}

// ───────────────────────── a deleted model ─────────────────────────

/// The models that are not the file at `path`.
pub open spec fn kept_models(models: Seq<DiscoveredModel>, path: Seq<char>) -> Seq<DiscoveredModel> {
    models.filter(|m: DiscoveredModel| m.path@ != path)
}

/// The selection once `len` models are left: none when none is left, else the old one
/// moved onto the last model when it is past the end.
pub open spec fn selection_after_removal(selected: Option<usize>, len: nat) -> Option<usize> {
    match selected {
        None => None,
        Some(i) => if len == 0 {
            None
        } else if i >= len {
            Some((len - 1) as usize)
        } else {
            Some(i)
        },
    }
}

/// After the model file at `path` was deleted: it leaves the list and a selection past
/// the end moves onto the last model (none when the list is empty). Returns whether a
/// model was selected, in which case the application reloads the selection's settings.
pub fn remove_deleted_model(models: &mut Vec<DiscoveredModel>, path: &str, selected: &mut Option<usize>) -> (reselect: bool)
    ensures
        final(models)@ == kept_models(old(models)@, path@),
        *final(selected) == selection_after_removal(*old(selected), final(models)@.len()),
        reselect == (*old(selected) is Some),
{
    let ghost orig = models@;
    let ghost keep = |m: DiscoveredModel| m.path@ != path@;
    let mut i: usize = 0;
    let ghost mut j: int = 0;
    assert(orig.take(0).filter(keep) =~= Seq::<DiscoveredModel>::empty());
    assert(orig.skip(0) =~= orig);
    while i < models.len()
        invariant
            0 <= j <= orig.len(),
            i == orig.take(j).filter(keep).len(),
            models@ == orig.take(j).filter(keep) + orig.skip(j),
            keep == (|m: DiscoveredModel| m.path@ != path@),
        decreases models.len() - i,
    {
        assert(orig.take(j + 1).drop_last() =~= orig.take(j));
        assert(orig.take(j + 1).last() == orig[j]);
        assert(models@[i as int] == orig[j]);
        assert(orig.skip(j).drop_first() =~= orig.skip(j + 1));
        proof {
            reveal(Seq::filter);
        }
        if str_eq(models[i].path.as_str(), path) {
            models.remove(i);
            assert(orig.take(j + 1).filter(keep) =~= orig.take(j).filter(keep));
            assert(models@ =~= orig.take(j + 1).filter(keep) + orig.skip(j + 1));
        } else {
            assert(orig.take(j + 1).filter(keep) =~= orig.take(j).filter(keep).push(orig[j]));
            assert(models@ =~= orig.take(j + 1).filter(keep) + orig.skip(j + 1));
            i = i + 1;
        }
        proof {
            j = j + 1;
        }
    }
    assert(j == orig.len());
    assert(orig.take(j) =~= orig);
    assert(models@ =~= kept_models(orig, path@));
    match *selected {
        Some(idx) => {
            let len = models.len();
            if len == 0 {
                *selected = None;
            } else if idx >= len {
                *selected = Some(len - 1);
            }
            true
        },
        None => false,
    }
}

// ───────────────────────── laws ─────────────────────────

/// Reading `_` as `-` and dropping `.gguf` can be done in either order.
proof fn lemma_dashed_strip(s: Seq<char>)
    ensures
        dashed(strip_gguf(s)) == strip_gguf(dashed(s)),
{
    let d = dashed(s);
    if s.len() >= 5 {
        let n = s.len() - 5;
        assert(d.skip(n) =~= dashed(s.skip(n)));
        if s.skip(n) == ".gguf"@ {
            assert(dashed(s.skip(n)) =~= ".gguf"@) by {
                reveal_strlit(".gguf");
            }
            assert(dashed(s.take(n)) =~= d.take(n));
        } else if d.skip(n) == ".gguf"@ {
            assert(s.skip(n) =~= ".gguf"@) by {
                reveal_strlit(".gguf");
                assert forall|i: int| 0 <= i < 5 implies s.skip(n)[i] == ".gguf"@[i] by {
                    assert(d.skip(n)[i] == ".gguf"@[i]);
                    assert(d.skip(n)[i] == (if s.skip(n)[i] == '_' { '-' } else { s.skip(n)[i] }));
                }
            }
        }
    }
}

/// The match of a local file with a repository ignores ASCII case and reads `_` as `-`:
/// ASCII names that agree once lower-cased with `_` read as `-` match alike.
pub proof fn law_match_ignores_case_and_underscores(l1: Seq<char>, l2: Seq<char>, r1: Seq<char>, r2: Seq<char>)
    requires
        all_ascii(l1),
        all_ascii(l2),
        all_ascii(r1),
        all_ascii(r2),
        dashed(ascii_lower(l1)) == dashed(ascii_lower(l2)),
        dashed(ascii_lower(r1)) == dashed(ascii_lower(r2)),
    ensures
        name_matches(lowercase_of(l1), lowercase_of(r1)) == name_matches(lowercase_of(l2), lowercase_of(r2)),
{
    lemma_dashed_strip(ascii_lower(l1));
    lemma_dashed_strip(ascii_lower(l2));
}

} // verus!
