//! Selection movement in list pickers and in field pickers that wrap around.
use vstd::prelude::*;

verus! {

/// Selection after moving up in a list: one step towards the top, stopping at 0.
pub open spec fn nav_up(selected: nat) -> nat {
    if selected > 0 { (selected - 1) as nat } else { 0 }
}

/// Selection after moving down in a list of `len` entries: one step towards the bottom,
/// stopping at the last entry (at 0 for an empty list).
pub open spec fn nav_down(selected: nat, len: nat) -> nat {
    let last: nat = if len > 0 { (len - 1) as nat } else { 0 };
    if selected + 1 < last { selected + 1 } else { last }
}

/// Field after moving through the fields `first..=last`, wrapping at both ends.
pub open spec fn wrap_step(selected: int, first: int, last: int, up: bool) -> int {
    if up {
        if selected <= first { last } else { selected - 1 }
    } else {
        if selected >= last { first } else { selected + 1 }
    }
}

/// Moves a list selection up by one.
pub fn picker_nav_up(selected: &mut usize)
    ensures
        *final(selected) as nat == nav_up(*old(selected) as nat),
{
    *selected = selected.saturating_sub(1);
}

/// Moves a list selection down by one within a list of `len` entries.
pub fn picker_nav_down(selected: &mut usize, len: usize)
    requires
        *old(selected) < usize::MAX,
    ensures
        *final(selected) as nat == nav_down(*old(selected) as nat, len as nat),
{
    let next = *selected + 1;
    let last = len.saturating_sub(1);
    *selected = if next < last { next } else { last };
}

/// Moves a field selection up or down through `first..=last`, wrapping around.
pub fn wrap_field_picker(selected: &mut i32, first: i32, last: i32, up: bool)
    ensures
        *final(selected) as int == wrap_step(*old(selected) as int, first as int, last as int, up),
{
    if up {
        if *selected <= first {
            *selected = last;
        } else {
            *selected -= 1;
        }
    } else {
        if *selected >= last {
            *selected = first;
        } else {
            *selected += 1;
        }
    }
}

// ───────────────────────── laws ─────────────────────────

/// In a non-empty list both moves keep a valid selection valid.
pub proof fn law_nav_stays_in_list(selected: nat, len: nat)
    requires
        selected < len,
    ensures
        nav_up(selected) < len,
        nav_down(selected, len) < len,
{
}

/// Moving down and then up returns to the same entry, unless the selection was already
/// on the last entry.
pub proof fn law_up_undoes_down(selected: nat, len: nat)
    requires
        selected + 1 < len,
    ensures
        nav_up(nav_down(selected, len)) == selected,
{
}

/// A field picker never leaves its range `first..=last` once inside it.
pub proof fn law_wrap_stays_in_range(selected: int, first: int, last: int, up: bool)
    requires
        first <= selected <= last,
    ensures
        first <= wrap_step(selected, first, last, up) <= last,
{
}

/// Within the range, one step up undoes one step down and the other way round.
pub proof fn law_wrap_steps_undo(selected: int, first: int, last: int)
    requires
        first <= selected <= last,
    ensures
        wrap_step(wrap_step(selected, first, last, false), first, last, true) == selected,
        wrap_step(wrap_step(selected, first, last, true), first, last, false) == selected,
{
}

} // verus!
