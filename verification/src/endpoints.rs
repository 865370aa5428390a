//! The dashboard server and the API endpoint: when to stop and start them as the
//! settings change, and the lines they leave in the log.
use vstd::prelude::*;
use vstd::string::StringExecFns;
use vstd::utf8::encode_utf8;
use crate::text::{decimal_text, push_char, to_decimal, str_eq};

verus! {

// ───────────────────────── percent-encoding ─────────────────────────

/// The hexadecimal digit for `d` (below 16), upper case.
pub open spec fn hex_digit(d: u8) -> char {
    if d < 10 { (('0' as u8) + d) as char } else { (('A' as u8) + d - 10) as char }
}

/// A byte kept as it is in a URL: an ASCII letter or digit, `-`, `.`, `_` or `~`.
pub open spec fn url_safe(b: u8) -> bool {
    (0x30 <= b <= 0x39) || (0x41 <= b <= 0x5A) || (0x61 <= b <= 0x7A) || b == 0x2D || b == 0x2E || b == 0x5F || b == 0x7E
}

/// The text one byte becomes: itself when safe, else `%` and two upper-case hex digits.
pub open spec fn url_byte(b: u8) -> Seq<char> {
    if url_safe(b) { seq![b as char] } else { seq!['%', hex_digit(b / 16), hex_digit(b % 16)] }
}

/// Percent-encoding of `bytes`, byte by byte.
pub open spec fn url_encoded(bytes: Seq<u8>) -> Seq<char>
    decreases bytes.len(),
{
    if bytes.len() == 0 {
        Seq::empty()
    } else {
        url_encoded(bytes.drop_last()) + url_byte(bytes.last())
    }
}

fn hex_digit_exec(d: u8) -> (c: char)
    requires
        d < 16,
    ensures
        c == hex_digit(d),
{
    if d == 0 { '0' } else if d == 1 { '1' } else if d == 2 { '2' } else if d == 3 { '3' }
    else if d == 4 { '4' } else if d == 5 { '5' } else if d == 6 { '6' } else if d == 7 { '7' }
    else if d == 8 { '8' } else if d == 9 { '9' } else if d == 10 { 'A' } else if d == 11 { 'B' }
    else if d == 12 { 'C' } else if d == 13 { 'D' } else if d == 14 { 'E' } else { 'F' }
}

/// Percent-encodes the UTF-8 bytes of `s`, as `urlencoding::encode` does: every byte but
/// ASCII letters and digits, `-`, `.`, `_` and `~` becomes `%` and two upper-case hex
/// digits.
fn url_encode(s: &str) -> (r: String)
    ensures
        r@ == url_encoded(encode_utf8(s@)),
{
    let bytes = s.as_bytes();
    let mut out = String::new();
    let mut i: usize = 0;
    assert(bytes@.take(0) =~= Seq::<u8>::empty());
    while i < bytes.len()
        invariant
            i <= bytes@.len(),
            bytes@ == encode_utf8(s@),
            out@ == url_encoded(bytes@.take(i as int)),
        decreases bytes.len() - i,
    {
        let b = bytes[i];
        assert(bytes@.take(i + 1).drop_last() =~= bytes@.take(i as int));
        assert(bytes@.take(i + 1).last() == b);
        let ghost before = out@;
        if (0x30 <= b && b <= 0x39) || (0x41 <= b && b <= 0x5A) || (0x61 <= b && b <= 0x7A) || b == 0x2D || b == 0x2E
            || b == 0x5F || b == 0x7E {
            push_char(&mut out, b as char);
            assert(out@ =~= before + url_byte(b));
        } else {
            push_char(&mut out, '%');
            push_char(&mut out, hex_digit_exec(b / 16));
            push_char(&mut out, hex_digit_exec(b % 16));
            assert(out@ =~= before + url_byte(b));
        }
        i = i + 1;
    }
    assert(bytes@.take(bytes@.len() as int) =~= bytes@);
    out
}

// ───────────────────────── the dashboard server ─────────────────────────

/// What the running dashboard server was started with.
#[derive(Debug)]
pub struct RunningDashboard {
    pub port: Option<u16>,
    pub auth: Option<String>,
    pub tls: Option<bool>,
}

pub open spec fn opt_text(o: Option<String>) -> Option<Seq<char>> {
    match o {
        Some(s) => Some(s@),
        None => None,
    }
}

fn same_text(a: &Option<String>, b: &Option<String>) -> (r: bool)
    ensures
        r == (opt_text(*a) == opt_text(*b)),
{
    match (a, b) {
        (Some(x), Some(y)) => str_eq(x.as_str(), y.as_str()),
        (None, None) => true,
        _ => false,
    }
}

/// The dashboard's port, key or TLS differ from those it runs with.
pub open spec fn dashboard_changed(running: RunningDashboard, port: u16, auth: Option<Seq<char>>, tls: bool) -> bool {
    running.port != Some(port) || opt_text(running.auth) != auth || running.tls != Some(tls)
}

pub fn dashboard_settings_changed(running: &RunningDashboard, port: u16, auth: &Option<String>, tls: bool) -> (r: bool)
    ensures
        r == dashboard_changed(*running, port, opt_text(*auth), tls),
{
    running.port != Some(port) || !same_text(&running.auth, auth) || running.tls != Some(tls)
}

/// Whether to stop the running service and whether to start one: a running one stops
/// when switched off or when its settings changed; one starts when switched on and none
/// runs any more.
pub open spec fn service_plan(enabled: bool, running: bool, changed: bool) -> (bool, bool) {
    let stop = running && (!enabled || changed);
    (stop, enabled && (!running || stop))
}

pub fn plan_service(enabled: bool, running: bool, changed: bool) -> (r: (bool, bool))
    ensures
        r == service_plan(enabled, running, changed),
{
    let stop = running && (!enabled || changed);
    (stop, enabled && (!running || stop))
}

/// The TLS files are read again unless both are set and are those read last time.
pub open spec fn tls_reload(cert: Option<Seq<char>>, key: Option<Seq<char>>, read_cert: Option<Seq<char>>, read_key: Option<Seq<char>>) -> bool {
    match (cert, key) {
        (Some(c), Some(k)) => Some(c) != read_cert || Some(k) != read_key,
        _ => true,
    }
}

pub fn tls_needs_reload(cert: &Option<String>, key: &Option<String>, read_cert: &Option<String>, read_key: &Option<String>) -> (r: bool)
    ensures
        r == tls_reload(opt_text(*cert), opt_text(*key), opt_text(*read_cert), opt_text(*read_key)),
{
    match (cert, key) {
        (Some(_), Some(_)) => !same_text(cert, read_cert) || !same_text(key, read_key),
        _ => true,
    }
}

/// The log line once the dashboard runs: its address, with the key as a query
/// parameter when there is one.
pub open spec fn dashboard_line(host: Seq<char>, port: u16, auth: Option<Seq<char>>, tls: bool) -> Seq<char> {
    "Dashboard enabled: "@ + (if tls { "https"@ } else { "http"@ }) + "://"@ + host + ":"@ + decimal_text(port as nat) + "/dashboard"@
        + match auth {
        Some(a) => "?auth="@ + url_encoded(encode_utf8(a)),
        None => Seq::empty(),
    }
}

pub fn dashboard_enabled_line(host: &str, port: u16, auth: &Option<String>, tls: bool) -> (r: String)
    ensures
        r@ == dashboard_line(host@, port, opt_text(*auth), tls),
{
    let mut s = String::from_str("Dashboard enabled: ");
    s.append(if tls { "https" } else { "http" });
    s.append("://");
    s.append(host);
    s.append(":");
    let p = to_decimal(port as u64);
    s.append(p.as_str());
    s.append("/dashboard");
    match auth {
        Some(a) => {
            s.append("?auth=");
            let e = url_encode(a.as_str());
            s.append(e.as_str());
        },
        None => {},
    }
    s
}

// ───────────────────────── the API endpoint ─────────────────────────

/// What the running API endpoint was started with.
#[derive(Debug)]
pub struct RunningApi {
    pub port: Option<u16>,
    pub server_port: Option<u16>,
    pub model: Option<String>,
}

/// The endpoint's port, the model server's port (0 without a server) or the model
/// served differ from those it runs with.
pub open spec fn api_changed(running: RunningApi, port: u16, server_port: u16, model: Seq<char>) -> bool {
    running.port != Some(port) || running.server_port != Some(server_port) || opt_text(running.model) != Some(model)
}

pub fn api_settings_changed(running: &RunningApi, port: u16, server_port: u16, model: &str) -> (r: bool)
    ensures
        r == api_changed(*running, port, server_port, model@),
{
    let same_model = match &running.model {
        Some(m) => str_eq(m.as_str(), model),
        None => false,
    };
    running.port != Some(port) || running.server_port != Some(server_port) || !same_model
}

/// The API endpoint is left alone while neither it nor a model server runs; otherwise it
/// follows `service_plan`.
pub open spec fn api_plan(enabled: bool, server_running: bool, proxy_running: bool, changed: bool) -> (bool, bool) {
    if !server_running && !proxy_running { (false, false) } else { service_plan(enabled, proxy_running, changed) }
}

pub fn plan_api_endpoint(enabled: bool, server_running: bool, proxy_running: bool, changed: bool) -> (r: (bool, bool))
    ensures
        r == api_plan(enabled, server_running, proxy_running, changed),
{
    if !server_running && !proxy_running {
        (false, false)
    } else {
        plan_service(enabled, proxy_running, changed)
    }
}

/// The log line once the API endpoint runs.
pub open spec fn api_line(host: Seq<char>, port: u16, server_port: u16) -> Seq<char> {
    "API endpoint started on "@ + host + ":"@ + decimal_text(port as nat)
        + (if server_port == 0 { " (no model loaded yet)"@ } else { Seq::empty() })
}

pub fn api_started_line(host: &str, port: u16, server_port: u16) -> (r: String)
    ensures
        r@ == api_line(host@, port, server_port),
{
    let mut s = String::from_str("API endpoint started on ");
    s.append(host);
    s.append(":");
    let p = to_decimal(port as u64);
    s.append(p.as_str());
    if server_port == 0 {
        s.append(" (no model loaded yet)");
    }
    s
}

// ───────────────────────── laws ─────────────────────────

/// A switched-off service is never started, and a running one whose settings changed is
/// always stopped (and started again when switched on).
pub proof fn law_service_follows_settings(enabled: bool, running: bool, changed: bool)
    ensures
        !enabled ==> !service_plan(enabled, running, changed).1,
        !enabled && running ==> service_plan(enabled, running, changed).0,
        running && changed ==> service_plan(enabled, running, changed).0,
        running && changed && enabled ==> service_plan(enabled, running, changed).1,
        running && enabled && !changed ==> service_plan(enabled, running, changed) == (false, false),
{
}

/// Once the plan is carried out, the service runs exactly when it is switched on.
pub proof fn law_service_runs_when_on(enabled: bool, running: bool, changed: bool)
    ensures
        ({
            let (stop, start) = service_plan(enabled, running, changed);
            ((running && !stop) || start) == enabled
        }),
{
}

} // verus!
