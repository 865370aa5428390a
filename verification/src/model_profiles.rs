//! Per-model settings profiles: naming a new one, which ones may be deleted, the entries
//! of the profile picker, and the text of the API port.
use vstd::prelude::*;
use crate::text::{decimal_text, str_eq, to_decimal, trim, trim_str};

verus! {

/// Why a new profile name is refused.
#[derive(Debug, Clone, Copy, PartialEq, Eq, Structural)]
pub enum ProfileNameError {
    /// Nothing but blanks.
    Required,
    /// The model already has a profile of that name.
    AlreadyExists,
}

pub open spec fn names_view(v: Seq<String>) -> Seq<Seq<char>> {
    v.map_values(|n: String| n@)
}

/// A new profile name is refused when it is blank once trimmed, or (as typed) already
/// names one of the model's profiles.
pub open spec fn profile_name_check(name: Seq<char>, existing: Seq<Seq<char>>) -> Result<(), ProfileNameError> {
    if trim(name).len() == 0 {
        Err(ProfileNameError::Required)
    } else if existing.contains(name) {
        Err(ProfileNameError::AlreadyExists)
    } else {
        Ok(())
    }
}

/// Checks the name of a new profile (see `profile_name_check`).
pub fn check_new_profile_name(name: &str, existing: &Vec<String>) -> (r: Result<(), ProfileNameError>)
    ensures
        r == profile_name_check(name@, names_view(existing@)),
{
    let t = trim_str(name);
    if t.as_str().is_empty() {
        return Err(ProfileNameError::Required);
    }
    let mut i: usize = 0;
    while i < existing.len()
        invariant
            i <= existing.len(),
            trim(name@).len() != 0,
            forall|j: int| 0 <= j < i ==> existing@[j]@ != name@,
        decreases existing.len() - i,
    {
        if str_eq(existing[i].as_str(), name) {
            assert(names_view(existing@)[i as int] == name@);
            assert(names_view(existing@).contains(name@));
            assert(trim(name@).len() != 0);
            return Err(ProfileNameError::AlreadyExists);
        }
        i = i + 1;
    }
    assert(!names_view(existing@).contains(name@)) by {
        if names_view(existing@).contains(name@) {
            let j = choose|j: int| 0 <= j < names_view(existing@).len() && names_view(existing@)[j] == name@;
            assert(existing@[j]@ == name@);
        }
    }
    Ok(())
}

/// The `Default` settings profile cannot be deleted.
pub fn settings_profile_deletable(name: &str) -> (r: bool)
    ensures
        r == (name@ != "Default"@),
{
    !str_eq(name, "Default")
}

/// Why a profile of the profiles panel cannot be deleted.
#[derive(Debug, Clone, Copy, PartialEq, Eq, Structural)]
pub enum ProfileDeleteError {
    /// No profile at that position.
    Invalid,
    /// The built-in profiles come first and stay.
    BuiltIn,
}

pub open spec fn profile_delete_check(selected: usize, total: usize, builtin: usize) -> Result<(), ProfileDeleteError> {
    if selected >= total {
        Err(ProfileDeleteError::Invalid)
    } else if selected < builtin {
        Err(ProfileDeleteError::BuiltIn)
    } else {
        Ok(())
    }
}

/// Whether the profile at `selected` of the `total` listed (the `builtin` built-in ones
/// first) can be deleted (see `profile_delete_check`).
pub fn check_profile_delete(selected: usize, total: usize, builtin: usize) -> (r: Result<(), ProfileDeleteError>)
    ensures
        r == profile_delete_check(selected, total, builtin),
{
    if selected >= total {
        Err(ProfileDeleteError::Invalid)
    } else if selected < builtin {
        Err(ProfileDeleteError::BuiltIn)
    } else {
        Ok(())
    }
}

pub open spec fn entries_view(v: Seq<(String, String)>) -> Seq<(Seq<char>, Seq<char>)> {
    v.map_values(|e: (String, String)| (e.0@, e.1@))
}

/// The picker's entries: first the line that creates a profile (`new_label`, no
/// description), then the model's profiles (name, description).
pub open spec fn picker_entries(new_label: Seq<char>, profiles: Seq<(Seq<char>, Seq<char>)>) -> Seq<(Seq<char>, Seq<char>)> {
    seq![(new_label, Seq::<char>::empty())] + profiles
}

/// The entry selected when the picker opens: the first one named as the active profile,
/// or the first entry.
pub open spec fn picker_selection(entries: Seq<(Seq<char>, Seq<char>)>, active: Option<Seq<char>>) -> usize {
    match active {
        Some(a) => if exists|j: int| 0 <= j < entries.len() && entries[j].0 == a {
            (choose|j: int| 0 <= j < entries.len() && entries[j].0 == a
                && forall|k: int| 0 <= k < j ==> entries[k].0 != a) as usize
        } else {
            0
        },
        None => 0,
    }
}

fn first_named(entries: &Vec<(String, String)>, a: &str) -> (r: Option<usize>)
    ensures
        match r {
            Some(p) => picker_selection(entries_view(entries@), Some(a@)) == p && p < entries@.len(),
            None => !(exists|j: int| 0 <= j < entries@.len() && entries_view(entries@)[j].0 == a@)
                && picker_selection(entries_view(entries@), Some(a@)) == 0,
        },
{
    let ghost ev = entries_view(entries@);
    let mut k: usize = 0;
    while k < entries.len()
        invariant
            k <= entries.len(),
            ev == entries_view(entries@),
            forall|j: int| 0 <= j < k ==> ev[j].0 != a@,
        decreases entries.len() - k,
    {
        assert(ev[k as int].0 == entries@[k as int].0@);
        if str_eq(entries[k].0.as_str(), a) {
            proof {
                assert(ev[k as int].0 == a@);
                let w = choose|j: int| 0 <= j < ev.len() && ev[j].0 == a@ && forall|k2: int| 0 <= k2 < j ==> ev[k2].0 != a@;
                assert(0 <= k < ev.len() && ev[k as int].0 == a@ && forall|k2: int| 0 <= k2 < k ==> ev[k2].0 != a@);
                if w < k {
                    assert(ev[w].0 != a@);
                } else if w > k {
                    assert(ev[k as int].0 != a@);
                }
            }
            return Some(k);
        }
        k = k + 1;
    }
    None
}

/// The entries and the selection of the per-model settings profile picker (see
/// `picker_entries` and `picker_selection`).
pub fn model_settings_picker(new_label: &str, profiles: &Vec<(String, String)>, active: Option<&str>) -> (r: (Vec<(String, String)>, usize))
    ensures
        entries_view(r.0@) == picker_entries(new_label@, entries_view(profiles@)),
        r.1 == picker_selection(picker_entries(new_label@, entries_view(profiles@)), match active { Some(a) => Some(a@), None => None }),
{
    let mut entries: Vec<(String, String)> = Vec::new();
    entries.push((String::from_str(new_label), String::new()));
    let mut i: usize = 0;
    while i < profiles.len()
        invariant
            i <= profiles.len(),
            entries_view(entries@) == picker_entries(new_label@, entries_view(profiles@).take(i as int)),
        decreases profiles.len() - i,
    {
        let e = (profiles[i].0.clone(), profiles[i].1.clone());
        let ghost before = entries_view(entries@);
        entries.push(e);
        assert(entries_view(entries@) =~= before.push((profiles@[i as int].0@, profiles@[i as int].1@)));
        assert(entries_view(profiles@).take(i + 1) =~= entries_view(profiles@).take(i as int).push((profiles@[i as int].0@, profiles@[i as int].1@)));
        assert(picker_entries(new_label@, entries_view(profiles@).take(i + 1)) =~= picker_entries(new_label@, entries_view(profiles@).take(i as int)).push((profiles@[i as int].0@, profiles@[i as int].1@)));
        i = i + 1;
    }
    assert(entries_view(profiles@).take(profiles@.len() as int) =~= entries_view(profiles@));
    let selected = match active {
        Some(a) => match first_named(&entries, a) {
            Some(p) => p,
            None => 0,
        },
        None => 0,
    };
    (entries, selected)
}

/// The API port as text (what `to_string` writes).
pub fn api_port_text(port: u16) -> (r: String)
    ensures
        r@ == decimal_text(port as nat),
{
    to_decimal(port as u64)
}

} // verus!
