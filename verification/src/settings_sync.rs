//! The settings shared by every model (server address, backend and its builds, API
//! endpoint, web UI, prompt cache), kept alike in the configuration's defaults and in
//! the settings of the model shown; and what a confirmed dialog comes to.
use vstd::prelude::*;
use vstd::string::StringExecFns;
use crate::text::{split_seq, split_str, str_eq};
use crate::server_settings::ServerMode;
use crate::types::{ConfirmationKind, PendingEvent};

verus! {

/// The common settings of the configuration's defaults or of a model's settings.
pub struct CommonFields {
    pub host: String,
    pub port: u16,
    /// The backend, by its slug.
    pub backend: String,
    pub api_endpoint_enabled: bool,
    pub api_endpoint_port: u16,
    pub api_endpoint_key: Option<String>,
    pub llama_cpp_version_cpu: Option<String>,
    pub llama_cpp_version_vulkan: Option<String>,
    pub llama_cpp_version_rocm: Option<String>,
    pub llama_cpp_version_rocm_lemonade: Option<String>,
    pub llama_cpp_version_cuda: Option<String>,
    pub webui: bool,
    pub cache_prompt: bool,
}

pub struct CommonFieldsView {
    pub host: Seq<char>,
    pub port: u16,
    pub backend: Seq<char>,
    pub api_endpoint_enabled: bool,
    pub api_endpoint_port: u16,
    pub api_endpoint_key: Option<Seq<char>>,
    pub llama_cpp_version_cpu: Option<Seq<char>>,
    pub llama_cpp_version_vulkan: Option<Seq<char>>,
    pub llama_cpp_version_rocm: Option<Seq<char>>,
    pub llama_cpp_version_rocm_lemonade: Option<Seq<char>>,
    pub llama_cpp_version_cuda: Option<Seq<char>>,
    pub webui: bool,
    pub cache_prompt: bool,
}

impl CommonFields {
    pub open spec fn view(&self) -> CommonFieldsView {
        CommonFieldsView {
            host: self.host@,
            port: self.port,
            backend: self.backend@,
            api_endpoint_enabled: self.api_endpoint_enabled,
            api_endpoint_port: self.api_endpoint_port,
            api_endpoint_key: self.api_endpoint_key.deep_view(),
            llama_cpp_version_cpu: self.llama_cpp_version_cpu.deep_view(),
            llama_cpp_version_vulkan: self.llama_cpp_version_vulkan.deep_view(),
            llama_cpp_version_rocm: self.llama_cpp_version_rocm.deep_view(),
            llama_cpp_version_rocm_lemonade: self.llama_cpp_version_rocm_lemonade.deep_view(),
            llama_cpp_version_cuda: self.llama_cpp_version_cuda.deep_view(),
            webui: self.webui,
            cache_prompt: self.cache_prompt,
        }
    }
}

fn opt_eq(a: &Option<String>, b: &Option<String>) -> (r: bool)
    ensures
        r == (a.deep_view() == b.deep_view()),
{
    match (a, b) {
        (Some(x), Some(y)) => str_eq(x.as_str(), y.as_str()),
        (None, None) => true,
        _ => false,
    }
}

fn opt_clone(a: &Option<String>) -> (r: Option<String>)
    ensures
        r.deep_view() == a.deep_view(),
{
    match a {
        Some(x) => Some(x.clone()),
        None => None,
    }
}

/// Whether any common setting differs between the configuration's defaults (`source`)
/// and the settings shown (`target`).
pub fn common_fields_changed(source: &CommonFields, target: &CommonFields) -> (r: bool)
    ensures
        r == (source.view() != target.view()),
{
    let same = str_eq(source.host.as_str(), target.host.as_str())
        && source.port == target.port
        && str_eq(source.backend.as_str(), target.backend.as_str())
        && source.api_endpoint_enabled == target.api_endpoint_enabled
        && source.api_endpoint_port == target.api_endpoint_port
        && opt_eq(&source.api_endpoint_key, &target.api_endpoint_key)
        && opt_eq(&source.llama_cpp_version_cpu, &target.llama_cpp_version_cpu)
        && opt_eq(&source.llama_cpp_version_vulkan, &target.llama_cpp_version_vulkan)
        && opt_eq(&source.llama_cpp_version_rocm, &target.llama_cpp_version_rocm)
        && opt_eq(&source.llama_cpp_version_rocm_lemonade, &target.llama_cpp_version_rocm_lemonade)
        && opt_eq(&source.llama_cpp_version_cuda, &target.llama_cpp_version_cuda)
        && source.webui == target.webui
        && source.cache_prompt == target.cache_prompt;
    !same
}

/// Copies the common settings shown (`source`) into the configuration's defaults
/// (`target`).
pub fn sync_config_common_fields(target: &mut CommonFields, source: &CommonFields)
    ensures
        final(target).view() == source.view(),
{
    target.host = source.host.clone();
    target.port = source.port;
    target.backend = source.backend.clone();
    target.api_endpoint_enabled = source.api_endpoint_enabled;
    target.api_endpoint_port = source.api_endpoint_port;
    target.api_endpoint_key = opt_clone(&source.api_endpoint_key);
    target.llama_cpp_version_cpu = opt_clone(&source.llama_cpp_version_cpu);
    target.llama_cpp_version_vulkan = opt_clone(&source.llama_cpp_version_vulkan);
    target.llama_cpp_version_rocm = opt_clone(&source.llama_cpp_version_rocm);
    target.llama_cpp_version_rocm_lemonade = opt_clone(&source.llama_cpp_version_rocm_lemonade);
    target.llama_cpp_version_cuda = opt_clone(&source.llama_cpp_version_cuda);
    target.webui = source.webui;
    target.cache_prompt = source.cache_prompt;
}

/// Copies the common settings shown (`source`) into the cached settings of the model
/// shown (`target`), the same fields as `sync_config_common_fields`.
pub fn sync_model_cache_fields(target: &mut CommonFields, source: &CommonFields)
    ensures
        final(target).view() == source.view(),
{
    sync_config_common_fields(target, source);
}

/// What saving the global settings came to.
#[derive(Debug, Clone, Copy, PartialEq, Eq, Structural)]
pub enum GlobalSync {
    /// Nothing differed from the configuration's defaults: nothing to save.
    Unchanged,
    /// The defaults took the settings shown and the configuration is to be saved. With a
    /// model selected (`with_model`) its saved web UI and prompt cache follow and its
    /// cached settings took the common ones; without, the defaults also take the
    /// concurrency and thread settings and the cache becomes the settings shown (those
    /// settings are the application's).
    Saved { with_model: bool },
}

/// Brings the configuration's defaults (`defaults`, `default_mode`,
/// `default_router_max`) in line with the settings shown (`shown`, `mode`, `router_max`)
/// when they differ, and then, with a model selected, the model's cached settings
/// (`cache`) too (see `GlobalSync`).
pub fn sync_global_settings(
    defaults: &mut CommonFields,
    default_mode: &mut ServerMode,
    default_router_max: &mut u32,
    shown: &CommonFields,
    mode: ServerMode,
    router_max: u32,
    has_model: bool,
    cache: &mut CommonFields,
) -> (r: GlobalSync)
    ensures
        ({
            let same = old(defaults).view() == shown.view() && *old(default_mode) == mode
                && *old(default_router_max) == router_max;
            if same {
                &&& r == GlobalSync::Unchanged
                &&& final(defaults).view() == old(defaults).view()
                &&& final(cache).view() == old(cache).view()
                &&& *final(default_mode) == *old(default_mode)
                &&& *final(default_router_max) == *old(default_router_max)
            } else {
                &&& r == (GlobalSync::Saved { with_model: has_model })
                &&& final(defaults).view() == shown.view()
                &&& *final(default_mode) == mode
                &&& *final(default_router_max) == router_max
                &&& final(cache).view() == if has_model { shown.view() } else { old(cache).view() }
            }
        }),
{
    if !common_fields_changed(defaults, shown) && *default_mode == mode && *default_router_max == router_max {
        return GlobalSync::Unchanged;
    }
    sync_config_common_fields(defaults, shown);
    *default_mode = mode;
    *default_router_max = router_max;
    if has_model {
        sync_model_cache_fields(cache, shown);
    }
    GlobalSync::Saved { with_model: has_model }
}

/// After copying, nothing differs any more.
pub proof fn law_sync_leaves_nothing_changed(target: CommonFieldsView, source: CommonFieldsView)
    requires
        target == source,
    ensures
        !(source != target),
{
}

// ───────────────────────── confirmed dialogs ─────────────────────────

/// What a confirmed dialog comes to.
pub enum ConfirmOutcome {
    /// Leave the application.
    Quit,
    /// Put the settings back to their defaults.
    ResetToDefaults,
    /// Delete the model: the deletion (when its path is known) and the line to log.
    DeleteModel { event: Option<PendingEvent>, log: String },
    /// Unload the named model through the server's API.
    Unload(String),
    /// Delete a backend build: the deletion, when the detail names `backend:tag` of a
    /// known backend (nothing when the detail names no build).
    DeleteBackend(Option<PendingEvent>),
    /// The detail names a build of a backend slug that is not known: nothing is deleted
    /// and the application warns with this slug.
    UnknownBackend(String),
    /// Delete the named settings profile.
    DeleteSettingsProfile(String),
}

/// The backend slug and build tag named by a detail `backend:tag[:...]`.
pub open spec fn backend_and_tag(detail: Seq<char>) -> Option<(Seq<char>, Seq<char>)> {
    let parts = split_seq(detail, ':');
    if parts.len() >= 2 { Some((parts[0], parts[1])) } else { None }
}

pub open spec fn deletion_log(name: Seq<char>) -> Seq<char> {
    "Deleting model "@ + name + " (config moved to unused)..."@
}

fn slug_known(known: &Vec<String>, slug: &str) -> (r: bool)
    ensures
        r == known.deep_view().contains(slug@),
{
    let mut i: usize = 0;
    while i < known.len()
        invariant
            i <= known.len(),
            forall|j: int| 0 <= j < i ==> known@[j]@ != slug@,
        decreases known.len() - i,
    {
        if str_eq(known[i].as_str(), slug) {
            assert(known.deep_view()[i as int] == slug@);
            return true;
        }
        i = i + 1;
    }
    assert(!known.deep_view().contains(slug@)) by {
        if known.deep_view().contains(slug@) {
            let j = choose|j: int| 0 <= j < known.deep_view().len() && known.deep_view()[j] == slug@;
            assert(known@[j]@ == slug@);
        }
    }
    false
}

/// Carries out the decision of a confirmed dialog of kind `kind` about `display_name`,
/// whose `detail` is a model's path or a backend build (`backend:tag`); `known_backends`
/// are the slugs of the backends there are.
pub fn execute_confirmation(
    kind: ConfirmationKind,
    display_name: &str,
    detail: &Option<String>,
    known_backends: &Vec<String>,
) -> (r: ConfirmOutcome)
    ensures
        kind == ConfirmationKind::Exit ==> r is Quit,
        kind == ConfirmationKind::Reset ==> r is ResetToDefaults,
        kind == ConfirmationKind::Delete ==> (r matches ConfirmOutcome::DeleteModel { event, log } && log@ == deletion_log(
            display_name@,
        ) && match detail {
            Some(path) => event matches Some(PendingEvent::Deletion { path: p }) && p@ == path@,
            None => event is None,
        }),
        kind == ConfirmationKind::Unload ==> (r matches ConfirmOutcome::Unload(n) && n@ == display_name@),
        kind == ConfirmationKind::DeleteBackend ==> match detail {
            Some(d) => match backend_and_tag(d@) {
                Some((b, t)) => if known_backends.deep_view().contains(b) {
                    r matches ConfirmOutcome::DeleteBackend(Some(PendingEvent::BackendDeletion { backend, tag }))
                        && backend@ == b && tag@ == t
                } else {
                    r matches ConfirmOutcome::UnknownBackend(slug) && slug@ == b
                },
                None => r matches ConfirmOutcome::DeleteBackend(None),
            },
            None => r matches ConfirmOutcome::DeleteBackend(None),
        },
        kind == ConfirmationKind::DeleteSettingsProfile ==> (r matches ConfirmOutcome::DeleteSettingsProfile(n) && n@
            == display_name@),
{
    match kind {
        ConfirmationKind::Exit => ConfirmOutcome::Quit,
        ConfirmationKind::Reset => ConfirmOutcome::ResetToDefaults,
        ConfirmationKind::Delete => {
            let event = match detail {
                Some(path) => Some(PendingEvent::Deletion { path: path.clone() }),
                None => None,
            };
            let mut log = String::from_str("Deleting model ");
            log.append(display_name);
            log.append(" (config moved to unused)...");
            ConfirmOutcome::DeleteModel { event, log }
        },
        ConfirmationKind::Unload => ConfirmOutcome::Unload(String::from_str(display_name)),
        ConfirmationKind::DeleteBackend => {
            match detail {
                Some(d) => {
                    let parts = split_str(d.as_str(), ':');
                    if parts.len() >= 2 {
                        if slug_known(known_backends, parts[0].as_str()) {
                            ConfirmOutcome::DeleteBackend(
                                Some(PendingEvent::BackendDeletion { backend: parts[0].clone(), tag: parts[1].clone() }),
                            )
                        } else {
                            ConfirmOutcome::UnknownBackend(parts[0].clone())
                        }
                    } else {
                        ConfirmOutcome::DeleteBackend(None)
                    }
                },
                None => ConfirmOutcome::DeleteBackend(None),
            }
        },
        ConfirmationKind::DeleteSettingsProfile => ConfirmOutcome::DeleteSettingsProfile(String::from_str(display_name)),
    }
}

} // verus!
