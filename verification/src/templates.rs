//! Chat template files: the list the template file picker shows, ordered by name.
use vstd::prelude::*;
use crate::models_list::{sort_indices, sorted_in, SortOrder};
use crate::text::{chars_of, lowercase_of, occurs_at_exec, seq_starts_with, starts_with_chars, str_eq, string_of, to_lowercase};

verus! {

/// A file name whose extension, as `Path::extension` reads it, is `jinja`: it ends in
/// `.jinja` with something before that dot.
pub open spec fn is_jinja_name(name: Seq<char>) -> bool {
    name.len() > 6 && name.skip(name.len() - 6) == ".jinja"@
}

/// What a path inside the templates directory `base` starts with: `base` and a separator
/// (none is added when `base` already ends with one).
pub open spec fn dir_prefix(base: Seq<char>, sep: char) -> Seq<char> {
    if base.len() > 0 && (base.last() == sep || base.last() == '/') { base } else { base.push(sep) }
}

/// `s` with each `sep` written `/`.
pub open spec fn with_slashes(s: Seq<char>, sep: char) -> Seq<char> {
    s.map_values(|c: char| if c == sep { '/' } else { c })
}

/// The name the picker shows for the file `name` at `path`, found in the directory `dir`
/// while walking the templates directory `base` (the path being the directory joined
/// with the name, `sep` the platform's separator): the file name for a file directly in
/// `base`; otherwise its path below `base`, written with `/`; the file name where the
/// path does not lie below `base`.
pub open spec fn jinja_display(base: Seq<char>, dir: Seq<char>, path: Seq<char>, name: Seq<char>, sep: char) -> Seq<char> {
    let prefix = dir_prefix(base, sep);
    if dir == base {
        name
    } else if seq_starts_with(path, prefix) {
        with_slashes(path.skip(prefix.len() as int), sep)
    } else {
        name
    }
}

/// The picker's entry `(shown name, path)` for a file found while walking the templates
/// directory (see `jinja_display`), or `None` when the file is not a `.jinja` template.
pub fn jinja_entry(base: &str, dir: &str, path: &str, name: &str, sep: char) -> (r: Option<(String, String)>)
    ensures
        is_jinja_name(name@) ==> (r matches Some(e) && e.0@ == jinja_display(base@, dir@, path@, name@, sep)
            && e.1@ == path@),
        !is_jinja_name(name@) ==> r is None,
{
    proof {
        reveal_strlit(".jinja");
    }
    let n = chars_of(name);
    let ext = chars_of(".jinja");
    if n.len() <= 6 || !occurs_at_exec(n.as_slice(), ext.as_slice(), n.len() - 6) {
        proof {
            if n@.len() > 6 {
                assert(n@.skip(n@.len() - 6) =~= n@.subrange(n@.len() - 6, n@.len() as int));
            }
        }
        return None;
    }
    assert(n@.skip(n@.len() - 6) =~= n@.subrange(n@.len() - 6, n@.len() as int));
    let shown = if str_eq(dir, base) {
        string_of(n.as_slice())
    } else {
        let mut prefix = chars_of(base);
        let plen = prefix.len();
        if !(plen > 0 && (prefix[plen - 1] == sep || prefix[plen - 1] == '/')) {
            prefix.push(sep);
        }
        let p = chars_of(path);
        if starts_with_chars(p.as_slice(), prefix.as_slice()) {
            let mut out: Vec<char> = Vec::new();
            let mut i: usize = prefix.len();
            while i < p.len()
                invariant
                    prefix.len() <= i <= p.len(),
                    out@ == with_slashes(p@.subrange(prefix.len() as int, i as int), sep),
                decreases p.len() - i,
            {
                let c = p[i];
                out.push(if c == sep { '/' } else { c });
                i = i + 1;
                assert(out@ =~= with_slashes(p@.subrange(prefix.len() as int, i as int), sep));
            }
            assert(p@.subrange(prefix.len() as int, p.len() as int) =~= p@.skip(prefix.len() as int));
            string_of(out.as_slice())
        } else {
            string_of(n.as_slice())
        }
    };
    Some((shown, path.to_string()))
}

/// The names the list is ordered by: each display name lower-cased.
pub open spec fn sort_keys(files: Seq<(Seq<char>, Seq<char>)>) -> Seq<Seq<char>> {
    files.map_values(|f: (Seq<char>, Seq<char>)| lowercase_of(f.0))
}

/// The positions `0..n`.
pub open spec fn positions(n: nat) -> Seq<usize> {
    Seq::new(n, |i: int| i as usize)
}

/// Orders the template files found (`(display name, path)`) by lower-cased display
/// name, keeping the order of the found files among equal names: the result lists the
/// files in the order of a permutation `perm` of their positions that is sorted by name
/// (ties by position).
pub fn sort_jinja_files(files: Vec<(String, String)>) -> (r: Vec<(String, String)>)
    ensures
        r@.len() == files@.len(),
        exists|perm: Seq<usize>|
            #[trigger] sorted_in(SortOrder::ByName, sort_keys(files.deep_view()), seq![], perm)
                && perm.to_multiset() == positions(files@.len()).to_multiset() && perm.len() == files@.len()
                && forall|i: int| 0 <= i < perm.len() ==> perm[i] < files@.len() && r.deep_view()[i] == files.deep_view()[perm[i] as int],
{
    let mut keys: Vec<String> = Vec::new();
    let mut idx: Vec<usize> = Vec::new();
    let mut i: usize = 0;
    while i < files.len()
        invariant
            i <= files.len(),
            keys@.len() == i,
            idx@ == positions(i as nat),
            forall|j: int| 0 <= j < i ==> #[trigger] keys@[j]@ == lowercase_of(files@[j].0@),
        decreases files.len() - i,
    {
        keys.push(to_lowercase(files[i].0.as_str()));
        idx.push(i);
        assert(idx@ =~= positions((i + 1) as nat));
        i = i + 1;
    }
    assert(keys.deep_view() =~= sort_keys(files.deep_view()));
    let empty: Vec<u64> = Vec::new();
    let perm = sort_indices(&idx, SortOrder::ByName, &keys, &empty);
    proof {
        assert forall|k: int| 0 <= k < perm@.len() implies perm@[k] < files@.len() by {
            vstd::seq_lib::to_multiset_contains(perm@, perm@[k]);
            vstd::seq_lib::to_multiset_contains(idx@, perm@[k]);
            assert(perm@.contains(perm@[k]));
            assert(perm@.to_multiset().contains(perm@[k]));
            assert(idx@.to_multiset().contains(perm@[k]));
            assert(idx@.contains(perm@[k]));
        }
        assert(perm@.len() == idx@.len()) by {
            vstd::seq_lib::to_multiset_len(perm@);
            vstd::seq_lib::to_multiset_len(idx@);
        }
    }
    let mut out: Vec<(String, String)> = Vec::new();
    let mut k: usize = 0;
    while k < perm.len()
        invariant
            k <= perm.len(),
            forall|j: int| 0 <= j < perm@.len() ==> perm@[j] < files@.len(),
            out@.len() == k,
            forall|j: int| 0 <= j < k ==> #[trigger] out.deep_view()[j] == files.deep_view()[perm@[j] as int],
        decreases perm.len() - k,
    {
        let p = perm[k];
        let entry = (files[p].0.clone(), files[p].1.clone());
        let ghost before = out.deep_view();
        out.push(entry);
        assert(out.deep_view() =~= before.push(files.deep_view()[p as int]));
        k = k + 1;
    }
    out
}

} // verus!
