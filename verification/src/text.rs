//! Character-sequence helpers shared by the editors, parsers and log matchers.
//!
//! Strings are reasoned about through their `Seq<char>` view.
use vstd::prelude::*;

verus! {

// ───────────────────────── conversions ─────────────────────────

/// Appends one character to a `String` (std `String::push`).
///
/// The standard library documents `push` as appending the given `char` to the end of
/// the string; that is all the contract claims.
#[verifier::external_body]
pub fn push_char(s: &mut String, c: char)
    ensures
        final(s)@ == old(s)@.push(c),
{
    s.push(c);
}

/// The characters of `s`, in order.
pub fn chars_of(s: &str) -> (v: Vec<char>)
    ensures
        v@ == s@,
{
    let mut v: Vec<char> = Vec::new();
    for c in it: s.chars()
        invariant
            v@ == it.seq().take(it.index() as int),
            it.seq() == s@,
    {
        v.push(c);
        assert(it.seq().take(it.index() + 1) == it.seq().take(it.index() as int).push(c));
    }
    v
}

/// A `String` holding exactly the characters of `v`.
pub fn string_of(v: &[char]) -> (s: String)
    ensures
        s@ == v@,
{
    let mut s = String::new();
    let mut i: usize = 0;
    while i < v.len()
        invariant
            i <= v.len(),
            s@ == v@.take(i as int),
        decreases v.len() - i,
    {
        push_char(&mut s, v[i]);
        assert(v@.take(i + 1) == v@.take(i as int).push(v@[i as int]));
        i = i + 1;
    }
    assert(v@.take(v@.len() as int) == v@);
    s
}

/// Removes the last character of `s`, if any (std `String::pop`).
pub fn pop_char(s: &mut String)
    ensures
        final(s)@ == (if old(s)@.len() > 0 { old(s)@.drop_last() } else { old(s)@ }),
{
    let mut v = chars_of(s.as_str());
    if v.len() > 0 {
        v.pop();
        *s = string_of(v.as_slice());
    }
}

/// Appends the characters of `s` to `out`.
pub fn append_chars(out: &mut Vec<char>, s: &str)
    ensures
        final(out)@ == old(out)@ + s@,
{
    let cs = chars_of(s);
    let mut i: usize = 0;
    while i < cs.len()
        invariant
            i <= cs.len(),
            cs@ == s@,
            out@ == old(out)@ + cs@.take(i as int),
        decreases cs.len() - i,
    {
        out.push(cs[i]);
        assert(cs@.take(i + 1) == cs@.take(i as int).push(cs@[i as int]));
        i = i + 1;
    }
    assert(cs@.take(cs@.len() as int) == cs@);
}

// ───────────────────────── splitting ─────────────────────────

/// The fields of `s` between occurrences of `sep`, as `str::split` gives them: one more
/// field than there are separators, empty fields included.
pub open spec fn split_seq(s: Seq<char>, sep: char) -> Seq<Seq<char>>
    decreases s.len(),
{
    if s.len() == 0 {
        seq![seq![]]
    } else {
        let r = split_seq(s.drop_last(), sep);
        if s.last() == sep {
            r.push(seq![])
        } else {
            r.update(r.len() - 1, r.last().push(s.last()))
        }
    }
}

/// There is always at least one field.
pub proof fn lemma_split_nonempty(s: Seq<char>, sep: char)
    ensures
        split_seq(s, sep).len() >= 1,
    decreases s.len(),
{
    if s.len() > 0 {
        lemma_split_nonempty(s.drop_last(), sep);
    }
}

/// Splits `s` at every `sep`, as `s.split(sep)` does.
pub fn split_str(s: &str, sep: char) -> (r: Vec<String>)
    ensures
        r@.len() == split_seq(s@, sep).len(),
        forall|i: int| 0 <= i < r@.len() ==> #[trigger] r@[i]@ == split_seq(s@, sep)[i],
{
    let cs = chars_of(s);
    let mut fields: Vec<String> = Vec::new();
    let mut cur: Vec<char> = Vec::new();
    let mut i: usize = 0;
    assert(cs@.take(0) == Seq::<char>::empty());
    while i < cs.len()
        invariant
            i <= cs.len(),
            cs@ == s@,
            split_seq(cs@.take(i as int), sep).len() == fields@.len() + 1,
            forall|j: int| 0 <= j < fields@.len() ==> #[trigger] fields@[j]@ == split_seq(cs@.take(i as int), sep)[j],
            split_seq(cs@.take(i as int), sep).last() == cur@,
        decreases cs.len() - i,
    {
        let ghost before = split_seq(cs@.take(i as int), sep);
        assert(cs@.take(i + 1).drop_last() == cs@.take(i as int));
        assert(cs@.take(i + 1).last() == cs@[i as int]);
        if cs[i] == sep {
            let done = string_of(cur.as_slice());
            fields.push(done);
            cur = Vec::new();
        } else {
            cur.push(cs[i]);
        }
        i = i + 1;
        assert(forall|j: int| 0 <= j < fields@.len() ==> #[trigger] fields@[j]@ == split_seq(cs@.take(i as int), sep)[j]);
    }
    assert(cs@.take(cs@.len() as int) == cs@);
    let last = string_of(cur.as_slice());
    fields.push(last);
    assert(forall|j: int| 0 <= j < fields@.len() ==> #[trigger] fields@[j]@ == split_seq(s@, sep)[j]);
    fields
}

// ───────────────────────── whitespace ─────────────────────────

/// `char::is_whitespace`: the characters with the Unicode `White_Space` property.
pub open spec fn is_whitespace(c: char) -> bool {
    let u = c as u32;
    (0x09 <= u && u <= 0x0D) || u == 0x20 || u == 0x85 || u == 0xA0 || u == 0x1680
        || (0x2000 <= u && u <= 0x200A) || u == 0x2028 || u == 0x2029 || u == 0x202F
        || u == 0x205F || u == 0x3000
}

fn is_whitespace_exec(c: char) -> (r: bool)
    ensures
        r == is_whitespace(c),
{
    let u = c as u32;
    (0x09 <= u && u <= 0x0D) || u == 0x20 || u == 0x85 || u == 0xA0 || u == 0x1680
        || (0x2000 <= u && u <= 0x200A) || u == 0x2028 || u == 0x2029 || u == 0x202F
        || u == 0x205F || u == 0x3000
}

/// `s` without leading whitespace.
pub open spec fn trim_start(s: Seq<char>) -> Seq<char>
    decreases s.len(),
{
    if s.len() > 0 && is_whitespace(s[0]) { trim_start(s.drop_first()) } else { s }
}

/// `s` without trailing whitespace.
pub open spec fn trim_end(s: Seq<char>) -> Seq<char>
    decreases s.len(),
{
    if s.len() > 0 && is_whitespace(s.last()) { trim_end(s.drop_last()) } else { s }
}

/// `str::trim`: `s` without leading and trailing whitespace.
pub open spec fn trim(s: Seq<char>) -> Seq<char> {
    trim_end(trim_start(s))
}

/// Removes leading and trailing whitespace, as `str::trim` does.
pub fn trim_str(s: &str) -> (r: String)
    ensures
        r@ == trim(s@),
{
    let v = chars_of(s);
    let mut lo: usize = 0;
    assert(v@.skip(0) == v@);
    while lo < v.len() && is_whitespace_exec(v[lo])
        invariant
            lo <= v.len(),
            trim_start(v@) == trim_start(v@.skip(lo as int)),
        decreases v.len() - lo,
    {
        assert(v@.skip(lo as int).drop_first() == v@.skip(lo + 1));
        lo = lo + 1;
    }
    let ghost start = v@.skip(lo as int);
    assert(trim_start(start) == start);
    let mut hi: usize = v.len();
    while hi > lo && is_whitespace_exec(v[hi - 1])
        invariant
            lo <= hi <= v.len(),
            trim_end(start) == trim_end(v@.subrange(lo as int, hi as int)),
            start == v@.skip(lo as int),
        decreases hi - lo,
    {
        assert(v@.subrange(lo as int, hi as int).drop_last() == v@.subrange(lo as int, hi - 1));
        hi = hi - 1;
    }
    let mut out: Vec<char> = Vec::new();
    let mut i = lo;
    while i < hi
        invariant
            lo <= i <= hi <= v.len(),
            out@ == v@.subrange(lo as int, i as int),
        decreases hi - i,
    {
        out.push(v[i]);
        i = i + 1;
        assert(out@ == v@.subrange(lo as int, i as int));
    }
    string_of(out.as_slice())
}

// ───────────────────────── lower-casing ─────────────────────────

/// An ASCII character.
pub open spec fn is_ascii_char(c: char) -> bool {
    (c as u32) < 128
}

/// Every character of `s` is ASCII (the empty text among them).
pub open spec fn all_ascii(s: Seq<char>) -> bool {
    forall|i: int| 0 <= i < s.len() ==> is_ascii_char(#[trigger] s[i])
}

/// `c` with an ASCII capital letter made small.
pub open spec fn ascii_lower_char(c: char) -> char {
    if 'A' <= c && c <= 'Z' { ((c as u32) + 32) as char } else { c }
}

/// `s` with its ASCII capital letters made small, character by character.
pub open spec fn ascii_lower(s: Seq<char>) -> Seq<char> {
    s.map_values(|c: char| ascii_lower_char(c))
}

/// What `str::to_lowercase` returns for the characters `s` (the full Unicode case
/// mapping; named, not written out).
pub uninterp spec fn unicode_lowercase(s: Seq<char>) -> Seq<char>;

/// What `str::to_lowercase` returns: for an ASCII text its capital letters made small
/// one by one (so the empty text stays empty), otherwise the Unicode mapping.
pub open spec fn lowercase_of(s: Seq<char>) -> Seq<char> {
    if all_ascii(s) { ascii_lower(s) } else { unicode_lowercase(s) }
}

/// Lower-cases `s` with std `str::to_lowercase`.
///
/// Stated: an ASCII text comes back with `A`..`Z` made `a`..`z` and nothing else
/// changed (Unicode lower-cases the ASCII letters so); for other texts the result is only
/// named (`unicode_lowercase`, a function of the characters alone).
#[verifier::external_body]
pub fn to_lowercase(s: &str) -> (r: String)
    ensures
        r@ == (if all_ascii(s@) { ascii_lower(s@) } else { unicode_lowercase(s@) }),
{
    s.to_lowercase()
}

// ───────────────────────── UTF-8 lengths ─────────────────────────

/// Number of bytes UTF-8 uses for `c`.
pub open spec fn utf8_width(c: char) -> nat {
    if (c as u32) < 0x80 {
        1
    } else if (c as u32) < 0x800 {
        2
    } else if (c as u32) < 0x10000 {
        3
    } else {
        4
    }
}

/// Number of bytes UTF-8 uses for `s`.
pub open spec fn utf8_len(s: Seq<char>) -> nat
    decreases s.len(),
{
    if s.len() == 0 {
        0
    } else {
        utf8_len(s.drop_last()) + utf8_width(s.last())
    }
}

pub fn utf8_width_exec(c: char) -> (w: u64)
    ensures
        w as nat == utf8_width(c),
        1 <= w <= 4,
{
    let u = c as u32;
    if u < 0x80 {
        1
    } else if u < 0x800 {
        2
    } else if u < 0x10000 {
        3
    } else {
        4
    }
}

/// Is the UTF-8 length of `s` (what `str::len` counts) below `bound`?
pub fn utf8_len_below(s: &str, bound: u64) -> (r: bool)
    ensures
        r == (utf8_len(s@) < bound),
{
    let cs = chars_of(s);
    if bound == 0 {
        return false;
    }
    let mut n: u64 = 0;
    let mut i: usize = 0;
    assert(cs@.take(0) == Seq::<char>::empty());
    while i < cs.len()
        invariant
            i <= cs.len(),
            cs@ == s@,
            n as nat == utf8_len(cs@.take(i as int)),
            n < bound,
        decreases cs.len() - i,
    {
        assert(cs@.take(i + 1).drop_last() == cs@.take(i as int));
        let w = utf8_width_exec(cs[i]);
        if w >= bound - n {
            proof { lemma_utf8_len_prefix(cs@, i + 1); }
            return false;
        }
        n = n + w;
        i = i + 1;
    }
    assert(cs@.take(cs@.len() as int) == cs@);
    true
}

proof fn lemma_utf8_len_prefix(s: Seq<char>, k: int)
    requires
        0 <= k <= s.len(),
    ensures
        utf8_len(s.take(k)) <= utf8_len(s),
    decreases s.len() - k,
{
    if k < s.len() {
        lemma_utf8_len_prefix(s, k + 1);
        assert(s.take(k + 1).drop_last() == s.take(k));
    } else {
        assert(s.take(k) == s);
    }
}

/// The UTF-8 length of `s` (what `str::len` counts), when it fits a `usize`.
pub fn byte_length(s: &str) -> (r: usize)
    requires
        utf8_len(s@) <= usize::MAX,
    ensures
        r as nat == utf8_len(s@),
{
    let cs = chars_of(s);
    let mut n: usize = 0;
    let mut i: usize = 0;
    assert(cs@.take(0) == Seq::<char>::empty());
    while i < cs.len()
        invariant
            i <= cs.len(),
            cs@ == s@,
            n as nat == utf8_len(cs@.take(i as int)),
            utf8_len(s@) <= usize::MAX,
        decreases cs.len() - i,
    {
        assert(cs@.take(i + 1).drop_last() == cs@.take(i as int));
        proof { lemma_utf8_len_prefix(cs@, i + 1); }
        let w = utf8_width_exec(cs[i]);
        n = n + (w as usize);
        i = i + 1;
    }
    assert(cs@.take(cs@.len() as int) == cs@);
    n
}

/// The position of the character that starts at byte `b` of `s`'s UTF-8 text (`s.len()`
/// for the end of the text), or -1 when no character starts there.
pub open spec fn char_at_byte(s: Seq<char>, b: int) -> int
    decreases s.len(),
{
    if b == 0 {
        0
    } else if b < 0 || s.len() == 0 {
        -1
    } else {
        let r = char_at_byte(s.drop_first(), b - utf8_width(s[0]));
        if r < 0 { -1 } else { r + 1 }
    }
}

pub proof fn lemma_char_at_byte_bound(s: Seq<char>, b: int)
    ensures
        char_at_byte(s, b) <= s.len(),
    decreases s.len(),
{
    if b != 0 && b >= 0 && s.len() > 0 {
        lemma_char_at_byte_bound(s.drop_first(), b - utf8_width(s[0]));
    }
}

/// The position of the character starting at byte `b` of `s`, if one does (see
/// `char_at_byte`).
pub fn char_index_at_byte(s: &str, b: usize) -> (r: Option<usize>)
    ensures
        match r {
            Some(k) => k as int == char_at_byte(s@, b as int),
            None => char_at_byte(s@, b as int) < 0,
        },
{
    let cs = chars_of(s);
    let mut acc: usize = 0;
    let mut i: usize = 0;
    proof {
        lemma_char_at_byte_bound(s@, b as int);
        assert(cs@.skip(0) == cs@);
    }
    while i < cs.len()
        invariant
            i <= cs.len(),
            cs@ == s@,
            acc <= b,
            char_at_byte(s@, b as int) == (if char_at_byte(cs@.skip(i as int), b - acc) < 0 { -1 } else { char_at_byte(cs@.skip(i as int), b - acc) + i }),
        decreases cs.len() - i,
    {
        if acc == b {
            return Some(i);
        }
        let w = utf8_width_exec(cs[i]);
        let ghost rest = cs@.skip(i as int);
        assert(rest[0] == cs@[i as int]);
        assert(rest.drop_first() == cs@.skip(i + 1));
        if (w as usize) > b - acc {
            proof {
                lemma_char_at_byte_never_negative_gap(rest.drop_first(), b - acc - w);
            }
            return None;
        }
        acc = acc + (w as usize);
        i = i + 1;
    }
    if acc == b {
        Some(i)
    } else {
        assert(cs@.skip(i as int).len() == 0);
        None
    }
}

proof fn lemma_char_at_byte_never_negative_gap(s: Seq<char>, b: int)
    requires
        b < 0,
    ensures
        char_at_byte(s, b) < 0,
{
}

/// The UTF-8 length of a text is the width of its first character plus that of the rest.
pub proof fn lemma_utf8_len_first(s: Seq<char>)
    requires
        s.len() > 0,
    ensures
        utf8_len(s) == utf8_width(s[0]) + utf8_len(s.drop_first()),
    decreases s.len(),
{
    if s.len() > 1 {
        lemma_utf8_len_first(s.drop_last());
        assert(s.drop_last().drop_first() =~= s.drop_first().drop_last());
        assert(s.drop_last()[0] == s[0]);
        assert(s.drop_first().last() == s.last());
        assert(utf8_len(s) == utf8_len(s.drop_last()) + utf8_width(s.last()));
        assert(utf8_len(s.drop_first()) == utf8_len(s.drop_first().drop_last()) + utf8_width(s.drop_first().last()));
    } else {
        assert(s.drop_last().len() == 0);
        assert(s.drop_first().len() == 0);
        assert(utf8_len(s.drop_last()) == 0);
        assert(utf8_len(s.drop_first()) == 0);
        assert(s.last() == s[0]);
        assert(utf8_len(s) == utf8_len(s.drop_last()) + utf8_width(s.last()));
    }
}

/// A character starts at byte `b` only within the text's UTF-8 length.
pub proof fn lemma_char_at_byte_within(s: Seq<char>, b: int)
    requires
        char_at_byte(s, b) >= 0,
    ensures
        0 <= b <= utf8_len(s),
    decreases s.len(),
{
    if b != 0 && s.len() > 0 {
        lemma_char_at_byte_within(s.drop_first(), b - utf8_width(s[0]));
        lemma_utf8_len_first(s);
    }
}

/// `s` with `c` inserted before the character at position `k`.
pub fn insert_char_at(s: &str, k: usize, c: char) -> (r: String)
    requires
        k <= s@.len(),
    ensures
        r@ == s@.take(k as int).push(c) + s@.skip(k as int),
{
    let mut v = chars_of(s);
    let ghost before = v@;
    v.insert(k, c);
    assert(v@ == before.take(k as int).push(c) + before.skip(k as int));
    string_of(v.as_slice())
}

/// `s` without its character at position `k`.
pub fn remove_char_at(s: &str, k: usize) -> (r: String)
    requires
        k < s@.len(),
    ensures
        r@ == s@.remove(k as int),
{
    let mut v = chars_of(s);
    v.remove(k);
    string_of(v.as_slice())
}

// ───────────────────────── splitting ─────────────────────────

/// The part of `s` after its last `sep` (all of `s` when it has none): what
/// `s.rsplit(sep).next()` and `s.split(sep).last()` give.
pub open spec fn after_last(s: Seq<char>, sep: char) -> Seq<char>
    decreases s.len(),
{
    if s.len() == 0 {
        s
    } else if s.last() == sep {
        seq![]
    } else {
        after_last(s.drop_last(), sep).push(s.last())
    }
}

/// The text after the last `sep` in `s`.
pub fn after_last_exec(s: &str, sep: char) -> (r: String)
    ensures
        r@ == after_last(s@, sep),
{
    let cs = chars_of(s);
    let mut start: usize = 0;
    let mut i: usize = 0;
    while i < cs.len()
        invariant
            i <= cs.len(),
            start <= i,
            after_last(cs@.take(i as int), sep) == cs@.subrange(start as int, i as int),
        decreases cs.len() - i,
    {
        assert(cs@.take(i + 1).drop_last() == cs@.take(i as int));
        if cs[i] == sep {
            start = i + 1;
        }
        i = i + 1;
        assert(cs@.subrange(start as int, i as int) == if cs@[i - 1] == sep {
            seq![]
        } else {
            cs@.subrange(start as int, i - 1).push(cs@[i - 1])
        });
    }
    assert(cs@.take(cs@.len() as int) == cs@);
    let mut part: Vec<char> = Vec::new();
    let mut k = start;
    while k < cs.len()
        invariant
            start <= k <= cs.len(),
            part@ == cs@.subrange(start as int, k as int),
        decreases cs.len() - k,
    {
        part.push(cs[k]);
        k = k + 1;
        assert(part@ == cs@.subrange(start as int, k as int));
    }
    string_of(part.as_slice())
}

// ───────────────────────── searching ─────────────────────────

/// `needle` occurs in `hay` starting at index `i`.
pub open spec fn occurs_at(hay: Seq<char>, needle: Seq<char>, i: int) -> bool {
    0 <= i && i + needle.len() <= hay.len() && hay.subrange(i, i + needle.len()) == needle
}

/// `needle` occurs somewhere in `hay` (an empty needle occurs everywhere).
pub open spec fn seq_contains(hay: Seq<char>, needle: Seq<char>) -> bool {
    exists|i: int| occurs_at(hay, needle, i)
}

/// `hay` begins with `prefix`.
pub open spec fn seq_starts_with(hay: Seq<char>, prefix: Seq<char>) -> bool {
    prefix.len() <= hay.len() && hay.take(prefix.len() as int) == prefix
}

/// Does `needle` occur in `hay` at index `i`?
pub fn occurs_at_exec(hay: &[char], needle: &[char], i: usize) -> (r: bool)
    ensures
        r == occurs_at(hay@, needle@, i as int),
{
    if i > hay.len() || needle.len() > hay.len() - i {
        return false;
    }
    let mut k: usize = 0;
    while k < needle.len()
        invariant
            k <= needle.len(),
            i + needle.len() <= hay.len(),
            forall|j: int| 0 <= j < k ==> hay@[i + j] == needle@[j],
        decreases needle.len() - k,
    {
        if hay[i + k] != needle[k] {
            assert(hay@.subrange(i as int, i + needle.len())[k as int] != needle@[k as int]);
            return false;
        }
        k = k + 1;
    }
    assert(hay@.subrange(i as int, i + needle@.len()) =~= needle@);
    true
}

/// Does `needle` occur in `hay`?
pub fn contains_chars(hay: &[char], needle: &[char]) -> (r: bool)
    ensures
        r == seq_contains(hay@, needle@),
{
    if needle.len() > hay.len() {
        return false;
    }
    let last = hay.len() - needle.len();
    let mut i: usize = 0;
    loop
        invariant
            last == hay.len() - needle.len(),
            needle.len() <= hay.len(),
            i <= last,
            forall|j: int| 0 <= j < i ==> !occurs_at(hay@, needle@, j),
        decreases last - i,
    {
        if occurs_at_exec(hay, needle, i) {
            return true;
        }
        if i == last {
            return false;
        }
        i = i + 1;
    }
}

/// Does `hay` begin with `prefix`?
pub fn starts_with_chars(hay: &[char], prefix: &[char]) -> (r: bool)
    ensures
        r == seq_starts_with(hay@, prefix@),
{
    let r = occurs_at_exec(hay, prefix, 0);
    proof {
        if prefix@.len() <= hay@.len() {
            assert(hay@.subrange(0, prefix@.len() as int) == hay@.take(prefix@.len() as int));
        }
    }
    r
}

/// Are the two texts equal?
pub fn str_eq(a: &str, b: &str) -> (r: bool)
    ensures
        r == (a@ == b@),
{
    let x = chars_of(a);
    let y = chars_of(b);
    if x.len() != y.len() {
        return false;
    }
    let mut i: usize = 0;
    while i < x.len()
        invariant
            i <= x.len() == y.len(),
            x@ == a@,
            y@ == b@,
            forall|j: int| 0 <= j < i ==> x@[j] == y@[j],
        decreases x.len() - i,
    {
        if x[i] != y[i] {
            assert(x@[i as int] != y@[i as int]);
            return false;
        }
        i = i + 1;
    }
    assert(x@ =~= y@);
    true
}

/// Does the text `hay` contain the text `needle`?
pub fn str_contains(hay: &str, needle: &str) -> (r: bool)
    ensures
        r == seq_contains(hay@, needle@),
{
    let h = chars_of(hay);
    let n = chars_of(needle);
    contains_chars(h.as_slice(), n.as_slice())
}

/// Does the text `hay` begin with the text `prefix`?
pub fn str_starts_with(hay: &str, prefix: &str) -> (r: bool)
    ensures
        r == seq_starts_with(hay@, prefix@),
{
    let h = chars_of(hay);
    let p = chars_of(prefix);
    starts_with_chars(h.as_slice(), p.as_slice())
}

// ───────────────────────── decimal parsing ─────────────────────────

pub open spec fn is_ascii_digit(c: char) -> bool {
    '0' <= c && c <= '9'
}

pub open spec fn all_digits(s: Seq<char>) -> bool {
    forall|i: int| 0 <= i < s.len() ==> is_ascii_digit(#[trigger] s[i])
}

/// The value of a string of decimal digits.
pub open spec fn digits_value(s: Seq<char>) -> nat
    decreases s.len(),
{
    if s.len() == 0 {
        0
    } else {
        digits_value(s.drop_last()) * 10 + (s.last() as nat - '0' as nat) as nat
    }
}

/// The digits that `str::parse` reads for an unsigned integer: one optional leading `+`
/// is dropped.
pub open spec fn unsigned_body(s: Seq<char>) -> Seq<char> {
    if s.len() > 0 && s[0] == '+' {
        s.drop_first()
    } else {
        s
    }
}

/// What std's `str::parse` gives for an unsigned integer type whose largest value is
/// `max`: the value when the text is an optional `+` and then one or more ASCII digits
/// whose value is at most `max`, nothing otherwise.
pub open spec fn parse_unsigned(s: Seq<char>, max: nat) -> Option<nat> {
    let body = unsigned_body(s);
    if body.len() > 0 && all_digits(body) && digits_value(body) <= max {
        Some(digits_value(body))
    } else {
        None
    }
}

proof fn lemma_digits_value_prefix_grows(s: Seq<char>, k: int)
    requires
        0 <= k <= s.len(),
        all_digits(s),
    ensures
        digits_value(s.take(k)) <= digits_value(s),
    decreases s.len() - k,
{
    if k < s.len() {
        lemma_digits_value_prefix_grows(s, k + 1);
        assert(s.take(k + 1).drop_last() == s.take(k));
    } else {
        assert(s.take(k) == s);
    }
}

/// Parses `s` as std's `str::parse` parses an unsigned integer no larger than `max`.
pub fn parse_unsigned_exec(s: &str, max: u64) -> (r: Option<u64>)
    ensures
        match parse_unsigned(s@, max as nat) {
            Some(v) => r == Some(v as u64),
            None => r is None,
        },
{
    let cs = chars_of(s);
    let mut start: usize = 0;
    if cs.len() > 0 && cs[0] == '+' {
        start = 1;
    }
    let ghost body = unsigned_body(s@);
    assert(body == cs@.subrange(start as int, cs@.len() as int));
    if start >= cs.len() {
        return None;
    }
    let mut acc: u64 = 0;
    let mut i: usize = start;
    while i < cs.len()
        invariant
            start <= i <= cs.len(),
            start < cs.len(),
            body == cs@.subrange(start as int, cs@.len() as int),
            body == unsigned_body(s@),
            all_digits(body.take(i - start)),
            acc as nat == digits_value(body.take(i - start)),
            acc <= max,
        decreases cs.len() - i,
    {
        let c = cs[i];
        assert(body[i - start] == c);
        if !('0' <= c && c <= '9') {
            assert(!is_ascii_digit(body[i - start]));
            return None;
        }
        let d: u64 = ((c as u32) - ('0' as u32)) as u64;
        assert(body.take(i - start + 1).drop_last() == body.take(i - start));
        assert(digits_value(body.take(i - start + 1)) == digits_value(body.take(i - start)) * 10 + d);
        if d > max || acc > (max - d) / 10 {
            proof {
                assert(acc * 10 + d > max) by (nonlinear_arith)
                    requires d > max || acc > (max - d) / 10;
                if all_digits(body) {
                    lemma_digits_value_prefix_grows(body, i - start + 1);
                }
            }
            return None;
        }
        proof {
            assert(acc * 10 + d <= max) by (nonlinear_arith)
                requires acc <= (max - d) / 10, d <= max;
        }
        acc = acc * 10 + d;
        i = i + 1;
        assert(all_digits(body.take(i - start)));
    }
    assert(body.take(i - start) == body);
    Some(acc)
}

/// The decimal digit for `d` (below 10).
pub open spec fn digit_char(d: nat) -> char {
    ((d + '0' as nat) as u32) as char
}

/// The decimal text of `n`, as `to_string` writes an unsigned integer.
pub open spec fn decimal_text(n: nat) -> Seq<char>
    decreases n,
{
    if n < 10 {
        seq![digit_char(n)]
    } else {
        decimal_text(n / 10).push(digit_char(n % 10))
    }
}

/// Writes `n` in decimal, as `to_string` does for an unsigned integer.
pub fn to_decimal(n: u64) -> (s: String)
    ensures
        s@ == decimal_text(n as nat),
    decreases n,
{
    let d = (n % 10) as u32;
    let c = char_from_digit(d);
    if n < 10 {
        let mut s = String::new();
        push_char(&mut s, c);
        assert(s@ =~= seq![digit_char(n as nat)]);
        s
    } else {
        let mut s = to_decimal(n / 10);
        push_char(&mut s, c);
        s
    }
}

fn char_from_digit(d: u32) -> (c: char)
    requires
        d < 10,
    ensures
        c == digit_char(d as nat),
{
    if d == 0 { '0' } else if d == 1 { '1' } else if d == 2 { '2' } else if d == 3 { '3' } else if d == 4 { '4' }
    else if d == 5 { '5' } else if d == 6 { '6' } else if d == 7 { '7' } else if d == 8 { '8' } else { '9' }
}

/// `str::parse::<u32>`.
pub fn parse_u32(s: &str) -> (r: Option<u32>)
    ensures
        match parse_unsigned(s@, u32::MAX as nat) {
            Some(v) => r == Some(v as u32),
            None => r is None,
        },
{
    match parse_unsigned_exec(s, u32::MAX as u64) {
        Some(v) => Some(v as u32),
        None => None,
    }
}

/// `str::parse::<u16>`.
pub fn parse_u16(s: &str) -> (r: Option<u16>)
    ensures
        match parse_unsigned(s@, u16::MAX as nat) {
            Some(v) => r == Some(v as u16),
            None => r is None,
        },
{
    match parse_unsigned_exec(s, u16::MAX as u64) {
        Some(v) => Some(v as u16),
        None => None,
    }
}

/// `str::parse::<usize>` (for the values a `u64` holds).
pub fn parse_usize(s: &str) -> (r: Option<usize>)
    ensures
        match parse_unsigned(s@, usize::MAX as nat) {
            Some(v) => r == Some(v as usize),
            None => r is None,
        },
{
    match parse_unsigned_exec(s, usize::MAX as u64) {
        Some(v) => Some(v as usize),
        None => None,
    }
}

/// What std's `str::parse::<i32>` gives: an optional `+` or `-`, then one or more ASCII
/// digits whose value fits in an `i32`.
pub open spec fn parse_i32_spec(s: Seq<char>) -> Option<int> {
    if s.len() > 0 && s[0] == '-' {
        let body = s.drop_first();
        if body.len() > 0 && all_digits(body) && digits_value(body) <= 0x8000_0000 {
            Some(-(digits_value(body) as int))
        } else {
            None
        }
    } else {
        match parse_unsigned(s, 0x7fff_ffff) {
            Some(v) => Some(v as int),
            None => None,
        }
    }
}

/// `str::parse::<i32>`.
pub fn parse_i32(s: &str) -> (r: Option<i32>)
    ensures
        match parse_i32_spec(s@) {
            Some(v) => r == Some(v as i32),
            None => r is None,
        },
{
    let cs = chars_of(s);
    if cs.len() > 0 && cs[0] == '-' {
        let mut rest = String::new();
        let mut i: usize = 1;
        while i < cs.len()
            invariant
                1 <= i <= cs.len(),
                rest@ == cs@.subrange(1, i as int),
            decreases cs.len() - i,
        {
            push_char(&mut rest, cs[i]);
            assert(rest@ =~= cs@.subrange(1, i + 1));
            i = i + 1;
        }
        assert(rest@ =~= s@.drop_first());
        if cs.len() > 1 && cs[1] == '+' {
            assert(!is_ascii_digit(s@.drop_first()[0]));
            return None;
        }
        assert(unsigned_body(rest@) == rest@);
        match parse_unsigned_exec(rest.as_str(), 0x8000_0000) {
            Some(v) => {
                let n: i64 = 0i64 - (v as i64);
                Some(n as i32)
            },
            None => None,
        }
    } else {
        match parse_unsigned_exec(s, 0x7fff_ffff) {
            Some(v) => Some(v as i32),
            None => None,
        }
    }
}

} // verus!
