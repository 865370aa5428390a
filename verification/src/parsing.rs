//! Classification of server log lines: loading errors and out-of-memory errors.
use vstd::prelude::*;
use crate::text::{all_ascii, ascii_lower, lowercase_of, seq_contains, seq_starts_with, str_contains, str_starts_with, to_lowercase};

verus! {

/// A lower-cased log line reports that memory ran out.
pub open spec fn oom_text(lower: Seq<char>) -> bool {
    seq_contains(lower, "out of memory"@)
        || seq_contains(lower, "out_of_memory"@)
        || seq_contains(lower, "out_of_device_memory"@)
        || seq_contains(lower, "outofmemory"@)
        || seq_contains(lower, "outofdevicememory"@)
}

/// A lower-cased log line reports a loading error: out of memory, an `error:` marker
/// (at the start, between spaces, or after a line break), a failed load, an exception or
/// a Vulkan system error.
pub open spec fn loading_error_text(lower: Seq<char>) -> bool {
    oom_text(lower)
        || seq_starts_with(lower, "error:"@)
        || seq_contains(lower, " error: "@)
        || seq_contains(lower, "\nerror:"@)
        || seq_contains(lower, "failed to load"@)
        || seq_contains(lower, "failed loading"@)
        || seq_contains(lower, "load failed"@)
        || seq_contains(lower, "exception"@)
        || seq_contains(lower, "vk::systemerror"@)
}

/// Does the already lower-cased line `lower` report that memory ran out?
pub fn is_oom_text(lower: &str) -> (r: bool)
    ensures
        r == oom_text(lower@),
{
    str_contains(lower, "out of memory")
        || str_contains(lower, "out_of_memory")
        || str_contains(lower, "out_of_device_memory")
        || str_contains(lower, "outofmemory")
        || str_contains(lower, "outofdevicememory")
}

/// Does the already lower-cased line `lower` report a loading error?
pub fn is_loading_error_text(lower: &str) -> (r: bool)
    ensures
        r == loading_error_text(lower@),
{
    is_oom_text(lower)
        || str_starts_with(lower, "error:")
        || str_contains(lower, " error: ")
        || str_contains(lower, "\nerror:")
        || str_contains(lower, "failed to load")
        || str_contains(lower, "failed loading")
        || str_contains(lower, "load failed")
        || str_contains(lower, "exception")
        || str_contains(lower, "vk::systemerror")
}

/// Detects whether a log line indicates a loading error (compared case-insensitively).
pub fn is_loading_error(msg: &str) -> (r: bool)
    ensures
        r == loading_error_text(lowercase_of(msg@)),
{
    let lower = to_lowercase(msg);
    is_loading_error_text(lower.as_str())
}

/// Detects whether the error is specifically an out-of-memory error (compared
/// case-insensitively).
pub fn is_oom_error(msg: &str) -> (r: bool)
    ensures
        r == oom_text(lowercase_of(msg@)),
{
    let lower = to_lowercase(msg);
    is_oom_text(lower.as_str())
}

/// Every out-of-memory line is a loading error.
pub proof fn law_oom_is_loading_error(lower: Seq<char>)
    ensures
        oom_text(lower) ==> loading_error_text(lower),
{
}

/// For ASCII lines the test ignores case: two lines that differ only in the case of
/// their letters both report a loading error, or neither does.
pub proof fn law_loading_error_ignores_ascii_case(a: Seq<char>, b: Seq<char>)
    requires
        all_ascii(a),
        all_ascii(b),
        ascii_lower(a) == ascii_lower(b),
    ensures
        loading_error_text(lowercase_of(a)) == loading_error_text(lowercase_of(b)),
        oom_text(lowercase_of(a)) == oom_text(lowercase_of(b)),
{
}

/// Each of the loading-error markers the log is searched for makes a line a loading
/// error (its lower-cased text is tested): an out-of-memory report, `error:` at the
/// start, ` error: ` between spaces, `error:` after a line break, "failed to load",
/// "failed loading", "load failed", "exception" or a Vulkan system error; and a line
/// with none of them is none.
pub proof fn law_each_marker_is_a_loading_error(lower: Seq<char>)
    ensures
        seq_contains(lower, "out of memory"@) ==> loading_error_text(lower),
        seq_contains(lower, "out_of_memory"@) ==> loading_error_text(lower),
        seq_contains(lower, "out_of_device_memory"@) ==> loading_error_text(lower),
        seq_contains(lower, "outofmemory"@) ==> loading_error_text(lower),
        seq_contains(lower, "outofdevicememory"@) ==> loading_error_text(lower),
        seq_starts_with(lower, "error:"@) ==> loading_error_text(lower),
        seq_contains(lower, " error: "@) ==> loading_error_text(lower),
        seq_contains(lower, "\nerror:"@) ==> loading_error_text(lower),
        seq_contains(lower, "failed to load"@) ==> loading_error_text(lower),
        seq_contains(lower, "failed loading"@) ==> loading_error_text(lower),
        seq_contains(lower, "load failed"@) ==> loading_error_text(lower),
        seq_contains(lower, "exception"@) ==> loading_error_text(lower),
        seq_contains(lower, "vk::systemerror"@) ==> loading_error_text(lower),
        loading_error_text(lower) ==> seq_contains(lower, "out of memory"@) || seq_contains(lower, "out_of_memory"@)
            || seq_contains(lower, "out_of_device_memory"@) || seq_contains(lower, "outofmemory"@)
            || seq_contains(lower, "outofdevicememory"@) || seq_starts_with(lower, "error:"@)
            || seq_contains(lower, " error: "@) || seq_contains(lower, "\nerror:"@)
            || seq_contains(lower, "failed to load"@) || seq_contains(lower, "failed loading"@)
            || seq_contains(lower, "load failed"@) || seq_contains(lower, "exception"@)
            || seq_contains(lower, "vk::systemerror"@),
{
}

} // verus!
