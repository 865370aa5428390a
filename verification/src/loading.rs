//! Tracking a model server's loading progress from its log lines.
//!
//! Phases are recognized with regular expressions (the `regex` crate); the counts of
//! tensors and layers are read from the captured numbers.
use vstd::prelude::*;
use vstd::string::StringExecFns;
use crate::clock::local_time_stamp;
use crate::parsing::{is_loading_error, is_oom_error, loading_error_text, oom_text};
use crate::text::{chars_of, lowercase_of, parse_u32, parse_unsigned};
use crate::types::LoadingPhase;

verus! {

// ───────────────────────── regular expressions ─────────────────────────

/// Server start-up lines: "llama ... server", "ggml version".
pub const LLAMA_START: &'static str = "(?i)(llama.*server|ggml\\s+version)";
/// Model loader start: "llama_model_loader".
pub const LOADING_MODEL: &'static str = "(?i)llama_model_loader";
/// Metadata loaded: "loaded N meta", "meta data".
pub const LOADED_META: &'static str = "(?i)(loaded\\s+\\d+\\s+meta|meta\\s+data)";
/// Tensor loading start: "load tensors:".
pub const LOAD_TENSORS: &'static str = "(?i)load tensors:";
/// The server is ready to answer: "server listening", "initializing slots".
pub const SERVER_LISTENING: &'static str = "(?i)(server listening|http server listening|load_model:\\s*initializing\\s+slots)";
/// "loading tensor 12 of 345" or "loading tensor 12 out of 345".
pub const LOADING_TENSOR: &'static str = "(?i)loading tensor\\s+(\\d+)\\s+(?:of|out of)\\s+(\\d+)";
/// "offloading 32 repeating layers to GPU".
pub const OFFLOADING_LAYERS: &'static str = "(?i)offloading\\s+(\\d+)\\s+repeating layers";
/// "offloaded X/Y layers" or "offloaded X out of Y layers".
pub const OFFLOADED_LAYERS: &'static str = "(?i)offloaded\\s+(\\d+)\\s*(?:out\\s+of|/)\\s*(\\d+)\\s*layers";

/// What the `regex` crate reports for the first match of `pattern` in `haystack`: the
/// text of each capture group (group 0 is the whole match; a group that took no part in
/// the match has no text), or nothing when the pattern does not compile or does not
/// match.
pub uninterp spec fn regex_captures_of(pattern: Seq<char>, haystack: Seq<char>) -> Option<Seq<Option<Seq<char>>>>;

/// Compiles `pattern` with `regex::Regex::new` and returns the capture groups of
/// `Regex::captures` on `haystack`.
///
/// The contract names the result with `regex_captures_of`, a function of the pattern and
/// the haystack alone; what the regular-expression engine matches is not stated. A
/// pattern that fails to compile gives `None`, as a pattern that does not match does.
#[verifier::external_body]
fn regex_captures(pattern: &str, haystack: &str) -> (r: Option<Vec<Option<String>>>)
    ensures
        r.deep_view() == regex_captures_of(pattern@, haystack@),
{
    let re = regex::Regex::new(pattern).ok()?;
    let caps = re.captures(haystack)?;
    Some(caps.iter().map(|m| m.map(|m| m.as_str().to_string())).collect())
}

/// `pattern` matches somewhere in `msg`.
pub open spec fn hits(pattern: &str, msg: Seq<char>) -> bool {
    regex_captures_of(pattern@, msg) is Some
}

/// The text of capture group `k`, when there is a match and the group took part.
pub open spec fn group_text(caps: Option<Seq<Option<Seq<char>>>>, k: int) -> Option<Seq<char>> {
    match caps {
        Some(groups) => if 0 <= k < groups.len() { groups[k] } else { None },
        None => None,
    }
}

/// Capture group `k`, read as a `u32` as `str::parse` reads it.
pub open spec fn group_u32(caps: Option<Seq<Option<Seq<char>>>>, k: int) -> Option<nat> {
    match group_text(caps, k) {
        Some(t) => parse_unsigned(t, u32::MAX as nat),
        None => None,
    }
}

fn captured_u32(caps: &Option<Vec<Option<String>>>, k: usize) -> (r: Option<u32>)
    ensures
        match group_u32(caps.deep_view(), k as int) {
            Some(v) => r == Some(v as u32),
            None => r is None,
        },
{
    match caps {
        Some(groups) => {
            if k < groups.len() {
                assert(caps.deep_view()->0[k as int] == groups@[k as int].deep_view());
                match &groups[k] {
                    Some(t) => parse_u32(t.as_str()),
                    None => None,
                }
            } else {
                None
            }
        },
        None => None,
    }
}

// ───────────────────────── phase sets ─────────────────────────

/// The loading phases seen so far; no phase is listed twice.
pub struct PhaseSet {
    items: Vec<LoadingPhase>,
}

impl PhaseSet {
    #[verifier::type_invariant]
    spec fn well_formed(self) -> bool {
        self.items@.no_duplicates()
    }

    /// The phases in the set.
    pub closed spec fn view(self) -> Set<LoadingPhase> {
        self.items@.to_set()
    }

    /// An empty set.
    pub fn new() -> (s: PhaseSet)
        ensures
            s.view() == Set::<LoadingPhase>::empty(),
    {
        let s = PhaseSet { items: Vec::new() };
        assert(s.items@.to_set() =~= Set::<LoadingPhase>::empty());
        s
    }

    /// Is `p` in the set?
    pub fn contains(&self, p: LoadingPhase) -> (r: bool)
        ensures
            r == self.view().contains(p),
    {
        let mut i: usize = 0;
        while i < self.items.len()
            invariant
                i <= self.items@.len(),
                forall|j: int| 0 <= j < i ==> self.items@[j] != p,
            decreases self.items@.len() - i,
        {
            if self.items[i] == p {
                assert(self.items@.to_set().contains(self.items@[i as int]));
                return true;
            }
            i = i + 1;
        }
        false
    }

    /// Adds `p` to the set.
    pub fn insert(&mut self, p: LoadingPhase)
        ensures
            final(self).view() == old(self).view().insert(p),
    {
        if !self.contains(p) {
            proof { use_type_invariant(&*self); }
            let ghost before = self.items@;
            let mut items: Vec<LoadingPhase> = Vec::new();
            std::mem::swap(&mut items, &mut self.items);
            items.push(p);
            assert(items@ == before.push(p));
            assert(!before.contains(p)) by {
                if before.contains(p) {
                    let k = choose|k: int| 0 <= k < before.len() && before[k] == p;
                    assert(before.to_set().contains(before[k]));
                }
            }
            assert(items@.no_duplicates());
            self.items = items;
            proof { before.lemma_push_to_set_commute(p); }
        } else {
            assert(self.view().insert(p) =~= self.view());
        }
    }

    /// Empties the set.
    pub fn clear(&mut self)
        ensures
            final(self).view() == Set::<LoadingPhase>::empty(),
    {
        self.items = Vec::new();
        assert(self.items@.to_set() =~= Set::<LoadingPhase>::empty());
    }

    /// Number of phases in the set.
    pub fn len(&self) -> (n: usize)
        ensures
            n as nat == self.view().len(),
            self.view().finite(),
    {
        proof {
            use_type_invariant(self);
            self.items@.unique_seq_to_set();
        }
        self.items.len()
    }

    /// Is the set empty?
    pub fn is_empty(&self) -> (r: bool)
        ensures
            r == (self.view() == Set::<LoadingPhase>::empty()),
    {
        let n = self.len();
        proof {
            if n == 0 {
                assert(self.view() =~= Set::<LoadingPhase>::empty());
            } else {
                if self.view() == Set::<LoadingPhase>::empty() {
                    assert(self.view().len() == 0);
                }
            }
        }
        n == 0
    }
}

// ───────────────────────── the tracker ─────────────────────────

/// Counts read from the loading log.
pub struct LoadProgress {
    pub layers_total: Option<u32>,
    pub layers_loaded: Option<u32>,
    pub tensors_total: Option<u32>,
    pub tensors_loaded: u32,
}

impl LoadProgress {
    /// Nothing read yet.
    pub fn new() -> (p: LoadProgress)
        ensures
            p.layers_total is None,
            p.layers_loaded is None,
            p.tensors_total is None,
            p.tensors_loaded == 0,
    {
        LoadProgress { layers_total: None, layers_loaded: None, tensors_total: None, tensors_loaded: 0 }
    }
}

/// Phases and counts of the model load that is in progress.
pub struct LoadingTracker {
    pub phases: PhaseSet,
    pub last_active_phase: Option<LoadingPhase>,
    pub load_progress: LoadProgress,
}

/// What reading one log line changed besides the phases.
pub struct PhaseUpdate {
    /// The most recent phase changed (the phase timer restarts).
    pub phase_changed: bool,
    /// A loading step was seen, so an earlier error message no longer applies.
    pub clears_error: bool,
}

/// The most recent phase after a line in which the given patterns matched.
pub open spec fn next_active_phase(
    old: Option<LoadingPhase>,
    start: bool,
    model: bool,
    meta: bool,
    tensors: bool,
    listening: bool,
) -> Option<LoadingPhase> {
    if listening {
        Some(LoadingPhase::ServerListening)
    } else if tensors {
        Some(LoadingPhase::LoadingTensors)
    } else if meta {
        Some(LoadingPhase::LoadingMeta)
    } else if model {
        Some(LoadingPhase::LoadingModel)
    } else if start {
        Some(LoadingPhase::ServerStarting)
    } else {
        old
    }
}

/// Number of `.` characters in `s`.
pub open spec fn dot_count(s: Seq<char>) -> nat
    decreases s.len(),
{
    if s.len() == 0 {
        0
    } else {
        dot_count(s.drop_last()) + if s.last() == '.' { 1nat } else { 0nat }
    }
}

/// Tensor count after the dots of a progress line: each dot is one more tensor when the
/// total is unknown and the line has between 1 and 200 dots.
pub open spec fn after_dots(loaded: nat, total: Option<u32>, msg: Seq<char>) -> nat {
    if total is None && 0 < dot_count(msg) <= 200 {
        loaded + dot_count(msg)
    } else {
        loaded
    }
}

fn count_dots(msg: &str) -> (n: usize)
    ensures
        n as nat == dot_count(msg@),
{
    let cs = chars_of(msg);
    let mut n: usize = 0;
    let mut i: usize = 0;
    while i < cs.len()
        invariant
            i <= cs.len(),
            n <= i,
            n as nat == dot_count(cs@.take(i as int)),
            cs@ == msg@,
        decreases cs.len() - i,
    {
        assert(cs@.take(i + 1).drop_last() == cs@.take(i as int));
        if cs[i] == '.' {
            n = n + 1;
        }
        i = i + 1;
    }
    assert(cs@.take(cs@.len() as int) == cs@);
    n
}

/// What reading a line does to the phases, given which patterns matched in it: the
/// start-up pattern (which counts only while no phase is known), the model loader, the
/// metadata, the tensors and the listening server (see
/// `LoadingTracker::apply_phase_matches`).
pub open spec fn phases_step(
    before: LoadingTracker,
    after: LoadingTracker,
    start_hit: bool,
    model: bool,
    meta: bool,
    tensors: bool,
    listening: bool,
    u: PhaseUpdate,
) -> bool {
    &&& ({
        let s = before.phases.view();
        let start = s == Set::<LoadingPhase>::empty() && start_hit;
        if s.len() >= 5 {
            &&& after.phases.view() == s
            &&& after.last_active_phase == before.last_active_phase
            &&& !u.phase_changed
            &&& !u.clears_error
        } else {
            &&& after.phases.view() == s
                .union(if start { set![LoadingPhase::ServerStarting] } else { Set::empty() })
                .union(if model { set![LoadingPhase::LoadingModel] } else { Set::empty() })
                .union(if meta { set![LoadingPhase::LoadingMeta] } else { Set::empty() })
                .union(if tensors { set![LoadingPhase::LoadingTensors] } else { Set::empty() })
                .union(if listening { set![LoadingPhase::ServerListening] } else { Set::empty() })
            &&& after.last_active_phase == next_active_phase(
                before.last_active_phase, start, model, meta, tensors, listening)
            &&& u.clears_error == (model || meta || tensors)
            &&& u.phase_changed == (after.last_active_phase != before.last_active_phase)
        }
    })
    &&& after.load_progress == before.load_progress
}

/// What reading a line does to the phases (see `LoadingTracker::detect_loading_phases`):
/// `phases_step` with the patterns matched in `msg`.
pub open spec fn phases_read(before: LoadingTracker, after: LoadingTracker, msg: Seq<char>, u: PhaseUpdate) -> bool {
    phases_step(
        before,
        after,
        hits(LLAMA_START, msg),
        hits(LOADING_MODEL, msg),
        hits(LOADED_META, msg),
        hits(LOAD_TENSORS, msg),
        hits(SERVER_LISTENING, msg),
        u,
    )
}

/// What reading the line `msg` does to the counts, given the captures of the "loading
/// tensor", "offloading" and "offloaded" patterns in it (see
/// `LoadingTracker::apply_detail_captures`).
pub open spec fn details_step(
    before: LoadingTracker,
    after: LoadingTracker,
    msg: Seq<char>,
    tensor_caps: Option<Seq<Option<Seq<char>>>>,
    offloading: Option<Seq<Option<Seq<char>>>>,
    offloaded: Option<Seq<Option<Seq<char>>>>,
) -> bool {
    &&& after.phases.view() == before.phases.view()
    &&& after.last_active_phase == before.last_active_phase
    &&& ({
        let old_p = before.load_progress;
        let p = after.load_progress;
        if !before.phases.view().contains(LoadingPhase::LoadingTensors) {
            p == old_p
        } else if tensor_caps is Some {
            &&& p.tensors_loaded as nat == (match group_u32(tensor_caps, 1) {
                Some(n) => n,
                None => old_p.tensors_loaded as nat,
            })
            &&& p.tensors_total == (match group_u32(tensor_caps, 2) {
                Some(n) => Some(n as u32),
                None => old_p.tensors_total,
            })
            &&& p.layers_total == old_p.layers_total
            &&& p.layers_loaded == old_p.layers_loaded
        } else {
            let total_after_offloading = match group_u32(offloading, 1) {
                Some(n) => Some(n as u32),
                None => old_p.layers_total,
            };
            &&& p.tensors_loaded as nat == after_dots(old_p.tensors_loaded as nat, old_p.tensors_total, msg)
            &&& p.tensors_total == old_p.tensors_total
            &&& p.layers_loaded == (match group_u32(offloaded, 1) {
                Some(n) => Some(n as u32),
                None => old_p.layers_loaded,
            })
            &&& p.layers_total == (match group_u32(offloaded, 2) {
                Some(n) => Some(n as u32),
                None => total_after_offloading,
            })
        }
    })
}

/// What reading a line does to the counts (see `LoadingTracker::parse_loading_details`):
/// `details_step` with the captures of the three patterns in `msg`.
pub open spec fn details_read(before: LoadingTracker, after: LoadingTracker, msg: Seq<char>) -> bool {
    details_step(
        before,
        after,
        msg,
        regex_captures_of(LOADING_TENSOR@, msg),
        regex_captures_of(OFFLOADING_LAYERS@, msg),
        regex_captures_of(OFFLOADED_LAYERS@, msg),
    )
}

impl LoadingTracker {
    /// A tracker for a load that has not started.
    pub fn new() -> (t: LoadingTracker)
        ensures
            t.phases.view() == Set::<LoadingPhase>::empty(),
            t.last_active_phase is None,
            t.load_progress.tensors_loaded == 0,
            t.load_progress.tensors_total is None,
            t.load_progress.layers_total is None,
            t.load_progress.layers_loaded is None,
    {
        LoadingTracker { phases: PhaseSet::new(), last_active_phase: None, load_progress: LoadProgress::new() }
    }

    /// Records the loading phases that `msg` announces. Once five phases are known no
    /// line can add one, and the line is not examined.
    pub fn detect_loading_phases(&mut self, msg: &str) -> (u: PhaseUpdate)
        ensures
            phases_read(*old(self), *final(self), msg@, u),
    {
        if self.phases.len() >= 5 {
            return PhaseUpdate { phase_changed: false, clears_error: false };
        }
        let start = self.phases.is_empty() && regex_captures(LLAMA_START, msg).is_some();
        let model = regex_captures(LOADING_MODEL, msg).is_some();
        let meta = regex_captures(LOADED_META, msg).is_some();
        let tensors = regex_captures(LOAD_TENSORS, msg).is_some();
        let listening = regex_captures(SERVER_LISTENING, msg).is_some();
        self.apply_phase_matches(start, model, meta, tensors, listening)
    }

    /// Records the phases a line announces, given which patterns matched in it (see
    /// `phases_step`).
    pub fn apply_phase_matches(&mut self, start: bool, model: bool, meta: bool, tensors: bool, listening: bool) -> (u: PhaseUpdate)
        ensures
            phases_step(*old(self), *final(self), start, model, meta, tensors, listening, u),
    {
        let ghost s0 = self.phases.view();
        if self.phases.len() >= 5 {
            return PhaseUpdate { phase_changed: false, clears_error: false };
        }
        let old_phase = self.last_active_phase;
        let mut clears_error = false;
        if self.phases.is_empty() && start {
            self.phases.insert(LoadingPhase::ServerStarting);
            self.last_active_phase = Some(LoadingPhase::ServerStarting);
        }
        let ghost s1 = self.phases.view();
        if model {
            clears_error = true;
            self.phases.insert(LoadingPhase::LoadingModel);
            self.last_active_phase = Some(LoadingPhase::LoadingModel);
        }
        let ghost s2 = self.phases.view();
        if meta {
            clears_error = true;
            self.phases.insert(LoadingPhase::LoadingMeta);
            self.last_active_phase = Some(LoadingPhase::LoadingMeta);
        }
        let ghost s3 = self.phases.view();
        if tensors {
            clears_error = true;
            self.phases.insert(LoadingPhase::LoadingTensors);
            self.last_active_phase = Some(LoadingPhase::LoadingTensors);
        }
        let ghost s4 = self.phases.view();
        if listening {
            self.phases.insert(LoadingPhase::ServerListening);
            self.last_active_phase = Some(LoadingPhase::ServerListening);
        }
        proof {
            let st = s0 == Set::<LoadingPhase>::empty() && start;
            assert(s1 =~= s0.union(if st { set![LoadingPhase::ServerStarting] } else { Set::empty() }));
            assert(s2 =~= s1.union(if model { set![LoadingPhase::LoadingModel] } else { Set::empty() }));
            assert(s3 =~= s2.union(if meta { set![LoadingPhase::LoadingMeta] } else { Set::empty() }));
            assert(s4 =~= s3.union(if tensors { set![LoadingPhase::LoadingTensors] } else { Set::empty() }));
            assert(self.phases.view() =~= s4.union(if listening { set![LoadingPhase::ServerListening] } else { Set::empty() }));
        }
        let changed = match (self.last_active_phase, old_phase) {
            (Some(a), Some(b)) => a != b,
            (None, None) => false,
            _ => true,
        };
        PhaseUpdate { phase_changed: changed, clears_error }
    }

    /// Reads tensor and layer counts from `msg` while tensors are loading: an explicit
    /// "loading tensor X of Y" wins; otherwise progress dots count tensors (while the
    /// total is unknown) and "offloading"/"offloaded" lines give the layer counts.
    pub fn parse_loading_details(&mut self, msg: &str)
        requires
            dot_count(msg@) <= 200 ==> old(self).load_progress.tensors_loaded + dot_count(msg@) <= u32::MAX,
        ensures
            details_read(*old(self), *final(self), msg@),
    {
        if !self.phases.contains(LoadingPhase::LoadingTensors) {
            return;
        }
        let tensor_caps = regex_captures(LOADING_TENSOR, msg);
        let offloading = regex_captures(OFFLOADING_LAYERS, msg);
        let offloaded = regex_captures(OFFLOADED_LAYERS, msg);
        self.apply_detail_captures(msg, &tensor_caps, &offloading, &offloaded);
    }

    /// Reads the counts of the line `msg`, given the captures of the "loading tensor",
    /// "offloading" and "offloaded" patterns in it (see `details_step`).
    pub fn apply_detail_captures(
        &mut self,
        msg: &str,
        tensor_caps: &Option<Vec<Option<String>>>,
        offloading: &Option<Vec<Option<String>>>,
        offloaded: &Option<Vec<Option<String>>>,
    )
        requires
            dot_count(msg@) <= 200 ==> old(self).load_progress.tensors_loaded + dot_count(msg@) <= u32::MAX,
        ensures
            details_step(*old(self), *final(self), msg@, tensor_caps.deep_view(), offloading.deep_view(), offloaded.deep_view()),
    {
        if !self.phases.contains(LoadingPhase::LoadingTensors) {
            return;
        }
        if tensor_caps.is_some() {
            if let Some(n) = captured_u32(tensor_caps, 1) {
                self.load_progress.tensors_loaded = n;
            }
            if let Some(total) = captured_u32(tensor_caps, 2) {
                self.load_progress.tensors_total = Some(total);
            }
            return;
        }
        if self.load_progress.tensors_total.is_none() {
            let dots = count_dots(msg);
            if dots > 0 && dots <= 200 {
                self.load_progress.tensors_loaded = self.load_progress.tensors_loaded + dots as u32;
            }
        }
        if let Some(count) = captured_u32(offloading, 1) {
            self.load_progress.layers_total = Some(count);
        }
        if let Some(loaded) = captured_u32(offloaded, 1) {
            self.load_progress.layers_loaded = Some(loaded);
        }
        if let Some(total) = captured_u32(offloaded, 2) {
            self.load_progress.layers_total = Some(total);
        }
    }

    /// Forgets the load: no phases, no most recent phase, no counts.
    pub fn reset(&mut self)
        ensures
            final(self).phases.view() == Set::<LoadingPhase>::empty(),
            final(self).last_active_phase is None,
            final(self).load_progress.tensors_loaded == 0,
            final(self).load_progress.tensors_total is None,
            final(self).load_progress.layers_total is None,
            final(self).load_progress.layers_loaded is None,
    {
        self.phases.clear();
        self.last_active_phase = None;
        self.load_progress = LoadProgress::new();
    }
}

// ───────────────────────── load failures ─────────────────────────

/// The message recorded for a failed load at time `timestamp`.
pub open spec fn failure_text(is_oom: bool, timestamp: Seq<char>) -> Seq<char> {
    if is_oom {
        "Last Failed to load a model (OOM - "@ + timestamp + ")"@
    } else {
        "Last Failed to load a model ("@ + timestamp + ")"@
    }
}

/// Builds the message recorded for a failed load at time `timestamp`.
pub fn load_failure_message(is_oom: bool, timestamp: &str) -> (s: String)
    ensures
        s@ == failure_text(is_oom, timestamp@),
{
    let mut s = if is_oom {
        String::from_str("Last Failed to load a model (OOM - ")
    } else {
        String::from_str("Last Failed to load a model (")
    };
    s.append(timestamp);
    s.append(")");
    s
}

/// The error message for a log line that reports a loading error, stamped with the
/// local time; `None` for other lines.
pub fn loading_failure(msg: &str) -> (r: Option<String>)
    ensures
        r is Some <==> loading_error_text(lowercase_of(msg@)),
        r matches Some(s) ==> exists|ts: Seq<char>| s@ == failure_text(oom_text(lowercase_of(msg@)), ts),
{
    if !is_loading_error(msg) {
        return None;
    }
    let timestamp = local_time_stamp();
    let s = load_failure_message(is_oom_error(msg), timestamp.as_str());
    Some(s)
}

// ───────────────────────── laws ─────────────────────────

/// Reading a line never forgets a phase.
pub proof fn law_phases_only_grow(s: Set<LoadingPhase>, start: bool, model: bool, meta: bool, tensors: bool, listening: bool)
    ensures
        s.subset_of(s
            .union(if start { set![LoadingPhase::ServerStarting] } else { Set::empty() })
            .union(if model { set![LoadingPhase::LoadingModel] } else { Set::empty() })
            .union(if meta { set![LoadingPhase::LoadingMeta] } else { Set::empty() })
            .union(if tensors { set![LoadingPhase::LoadingTensors] } else { Set::empty() })
            .union(if listening { set![LoadingPhase::ServerListening] } else { Set::empty() })),
{
}

/// The most recent phase after a line is one the line announced, unless it announced
/// none.
pub proof fn law_active_phase_was_announced(
    old: Option<LoadingPhase>,
    start: bool,
    model: bool,
    meta: bool,
    tensors: bool,
    listening: bool,
)
    ensures
        ({
            let p = next_active_phase(old, start, model, meta, tensors, listening);
            (start || model || meta || tensors || listening) ==> match p {
                Some(LoadingPhase::ServerListening) => listening,
                Some(LoadingPhase::LoadingTensors) => tensors,
                Some(LoadingPhase::LoadingMeta) => meta,
                Some(LoadingPhase::LoadingModel) => model,
                Some(LoadingPhase::ServerStarting) => start,
                _ => false,
            }
        }),
        !(start || model || meta || tensors || listening) ==> next_active_phase(old, start, model, meta, tensors, listening) == old,
{
}

} // verus!
