//! Overlays with a few keys: about, command line, GGUF name help, onboarding,
//! confirmation, concurrency picker and dashboard addresses.
use vstd::prelude::*;
use vstd::string::StringExecFns;
use crate::keys::{Key, KeyCode};
use crate::overlay::{actions_view, Action, ActionView, GlobalMode, ModeView};
use crate::text::{after_last, after_last_exec, parse_unsigned, parse_u32, parse_usize, pop_char, push_char, utf8_len, utf8_len_below};
use crate::types::ConfirmationKind;

verus! {

/// The mode after a step is `m` and the actions carry the values `acts`.
pub open spec fn produced(mode: GlobalMode, acts: Seq<Action>, step: (ModeView, Seq<ActionView>)) -> bool {
    mode.view() == step.0 && actions_view(acts) =~= step.1
}

// ───────────────────────── about ─────────────────────────

pub open spec fn about_step(m: ModeView, key: Key) -> (ModeView, Seq<ActionView>) {
    if key.code == KeyCode::Esc { (ModeView::Normal, seq![]) } else { (m, seq![]) }
}

/// The "about" box: Esc closes it.
pub struct AboutHandler;

impl AboutHandler {
    pub fn name(&self) -> (r: &'static str)
        ensures
            r@ == "About"@,
    {
        "About"
    }

    pub fn can_handle(&self, mode: &GlobalMode) -> (r: bool)
        ensures
            r == (mode.view() is About),
    {
        matches!(mode, GlobalMode::About)
    }

    pub fn handle(&self, mode: &mut GlobalMode, key: Key) -> (acts: Vec<Action>)
        ensures
            old(mode).view() is About ==> produced(*final(mode), acts@, about_step(old(mode).view(), key)),
            !(old(mode).view() is About) ==> final(mode).view() == old(mode).view() && acts@.len() == 0,
    {
        if let GlobalMode::About = mode {
            if key.code == KeyCode::Esc {
                *mode = GlobalMode::Normal;
            }
        }
        Vec::new()
    }
}

// ───────────────────────── command line ─────────────────────────

/// The shell script that exports a server command line.
pub open spec fn command_script(cmd_line: Seq<char>) -> Seq<char> {
    "#!/bin/bash\n# Exported from llm-manager\n\n"@ + cmd_line + "\n"@
}

pub open spec fn cmd_line_step(m: ModeView, key: Key) -> (ModeView, Seq<ActionView>) {
    match m {
        ModeView::CmdLine { cmd_line } => match key.code {
            KeyCode::Esc => (ModeView::Normal, seq![]),
            KeyCode::Char('e') => (m, seq![ActionView::ExportCommandScript(command_script(cmd_line))]),
            _ => (m, seq![]),
        },
        _ => (m, seq![]),
    }
}

/// The server command line view: Esc closes it, `e` exports it as a script.
pub struct CmdLineHandler;

impl CmdLineHandler {
    pub fn can_handle(&self, mode: &GlobalMode) -> (r: bool)
        ensures
            r == (mode.view() is CmdLine),
    {
        matches!(mode, GlobalMode::CmdLine { .. })
    }

    pub fn handle(&self, mode: &mut GlobalMode, key: Key) -> (acts: Vec<Action>)
        ensures
            old(mode).view() is CmdLine ==> produced(*final(mode), acts@, cmd_line_step(old(mode).view(), key)),
            !(old(mode).view() is CmdLine) ==> final(mode).view() == old(mode).view() && acts@.len() == 0,
    {
        let mut acts: Vec<Action> = Vec::new();
        match mode {
            GlobalMode::CmdLine { cmd_line } => {
                match key.code {
                    KeyCode::Esc => {
                        *mode = GlobalMode::Normal;
                    },
                    KeyCode::Char('e') => {
                        let mut script = String::from_str("#!/bin/bash\n# Exported from llm-manager\n\n");
                        script.append(cmd_line.as_str());
                        script.append("\n");
                        acts.push(Action::ExportCommandScript(script));
                    },
                    _ => {},
                }
            },
            _ => {},
        }
        acts
    }
}

// ───────────────────────── GGUF naming ─────────────────────────

pub open spec fn gguf_naming_step(m: ModeView, key: Key) -> (ModeView, Seq<ActionView>) {
    if key.code == KeyCode::Esc || key.code == KeyCode::Enter { (ModeView::Normal, seq![]) } else { (m, seq![]) }
}

/// The GGUF file name explanation: Esc or Enter closes it.
pub struct GgufNamingHandler;

impl GgufNamingHandler {
    pub fn can_handle(&self, mode: &GlobalMode) -> (r: bool)
        ensures
            r == (mode.view() is GgufNaming),
    {
        matches!(mode, GlobalMode::GgufNaming { .. })
    }

    pub fn handle(&self, mode: &mut GlobalMode, key: Key) -> (acts: Vec<Action>)
        ensures
            old(mode).view() is GgufNaming ==> produced(*final(mode), acts@, gguf_naming_step(old(mode).view(), key)),
            !(old(mode).view() is GgufNaming) ==> final(mode).view() == old(mode).view() && acts@.len() == 0,
    {
        if let GlobalMode::GgufNaming { .. } = mode {
            if key.code == KeyCode::Esc || key.code == KeyCode::Enter {
                *mode = GlobalMode::Normal;
            }
        }
        Vec::new()
    }
}

// ───────────────────────── onboarding ─────────────────────────

/// Number of onboarding pages.
pub const TOTAL_STEPS: usize = 8;

pub open spec fn onboarding_step(m: ModeView, key: Key) -> (ModeView, Seq<ActionView>) {
    match m {
        ModeView::Onboarding { step } => match key.code {
            KeyCode::Enter | KeyCode::Char('n') | KeyCode::Right => if step + 1 >= TOTAL_STEPS {
                (ModeView::Normal, seq![ActionView::CompleteOnboarding])
            } else {
                (ModeView::Onboarding { step: (step + 1) as usize }, seq![])
            },
            KeyCode::Char('p') | KeyCode::Left => if step > 0 {
                (ModeView::Onboarding { step: (step - 1) as usize }, seq![])
            } else {
                (m, seq![])
            },
            KeyCode::Esc | KeyCode::Char('q') => (ModeView::Normal, seq![ActionView::CompleteOnboarding]),
            _ => (m, seq![]),
        },
        _ => (m, seq![]),
    }
}

/// The onboarding wizard: Enter/`n`/Right go to the next page (finishing after the last),
/// `p`/Left go back, Esc/`q` skip it.
pub struct OnboardingHandler;

impl OnboardingHandler {
    pub fn can_handle(&self, mode: &GlobalMode) -> (r: bool)
        ensures
            r == (mode.view() is Onboarding),
    {
        matches!(mode, GlobalMode::Onboarding { .. })
    }

    pub fn handle(&self, mode: &mut GlobalMode, key: Key) -> (acts: Vec<Action>)
        requires
            old(mode).view() matches ModeView::Onboarding { step } ==> step < usize::MAX,
        ensures
            old(mode).view() is Onboarding ==> produced(*final(mode), acts@, onboarding_step(old(mode).view(), key)),
            !(old(mode).view() is Onboarding) ==> final(mode).view() == old(mode).view() && acts@.len() == 0,
    {
        let mut acts: Vec<Action> = Vec::new();
        let step = match mode {
            GlobalMode::Onboarding { step } => *step,
            _ => return acts,
        };
        match key.code {
            KeyCode::Enter | KeyCode::Char('n') | KeyCode::Right => {
                let next = step + 1;
                if next >= TOTAL_STEPS {
                    acts.push(Action::CompleteOnboarding);
                    *mode = GlobalMode::Normal;
                } else {
                    *mode = GlobalMode::Onboarding { step: next };
                }
            },
            KeyCode::Char('p') | KeyCode::Left => {
                if step > 0 {
                    *mode = GlobalMode::Onboarding { step: step - 1 };
                }
            },
            KeyCode::Esc | KeyCode::Char('q') => {
                acts.push(Action::CompleteOnboarding);
                *mode = GlobalMode::Normal;
            },
            _ => {},
        }
        acts
    }
}

// ───────────────────────── confirmation ─────────────────────────

/// The backend picker position kept in a confirmation's detail (`backend:tag:index`):
/// the text after the last `:`, read as a `usize`.
pub open spec fn detail_index(detail: Option<Seq<char>>) -> Option<usize> {
    match detail {
        Some(d) => match parse_unsigned(after_last(d, ':'), usize::MAX as nat) {
            Some(v) => Some(v as usize),
            None => None,
        },
        None => None,
    }
}

/// Actions after the dialog was answered: what the answer asks for, then (for a backend
/// deletion) re-opening the backend picker.
pub open spec fn answered(kind: ConfirmationKind, detail: Option<Seq<char>>, first: Seq<ActionView>) -> Seq<ActionView> {
    if kind == ConfirmationKind::DeleteBackend {
        first.push(ActionView::ReopenBackendPicker { selected_hint: detail_index(detail) })
    } else {
        first
    }
}

pub open spec fn confirmation_step(m: ModeView, key: Key) -> (ModeView, Seq<ActionView>) {
    match m {
        ModeView::Confirmation { selected, kind, display_name, detail } => {
            let yes = seq![ActionView::Confirm { kind, display_name, detail }];
            let no = seq![ActionView::ClearPendingUnload];
            match key.code {
                KeyCode::Char('y') => (ModeView::Normal, answered(kind, detail, yes)),
                KeyCode::Char('n') | KeyCode::Esc => (ModeView::Normal, answered(kind, detail, no)),
                KeyCode::Enter => if selected {
                    (ModeView::Normal, answered(kind, detail, yes))
                } else {
                    (ModeView::Normal, no)
                },
                KeyCode::Tab | KeyCode::Left | KeyCode::Right => (
                    ModeView::Confirmation { selected: !selected, kind, display_name, detail },
                    seq![],
                ),
                KeyCode::Char('h') if key.ctrl => (ModeView::Normal, answered(kind, detail, no)),
                _ => (m, seq![]),
            }
        },
        _ => (m, seq![]),
    }
}

fn clone_opt(s: &Option<String>) -> (r: Option<String>)
    ensures
        r.deep_view() == s.deep_view(),
{
    match s {
        Some(t) => Some(t.clone()),
        None => None,
    }
}

fn detail_index_exec(detail: &Option<String>) -> (r: Option<usize>)
    ensures
        r == detail_index(detail.deep_view()),
{
    match detail {
        Some(d) => {
            let tail = after_last_exec(d.as_str(), ':');
            parse_usize(tail.as_str())
        },
        None => None,
    }
}

/// The yes/no confirmation dialog: `y` (or Enter on "yes") confirms, `n`/Esc/Ctrl+H (or
/// Enter on "no") cancels, Tab/Left/Right switch the answer. A backend deletion goes
/// back to the backend picker afterwards.
pub struct ConfirmationHandler;

impl ConfirmationHandler {
    pub fn can_handle(&self, mode: &GlobalMode) -> (r: bool)
        ensures
            r == (mode.view() is Confirmation),
    {
        matches!(mode, GlobalMode::Confirmation { .. })
    }

    pub fn handle(&self, mode: &mut GlobalMode, key: Key) -> (acts: Vec<Action>)
        ensures
            old(mode).view() is Confirmation ==> produced(*final(mode), acts@, confirmation_step(old(mode).view(), key)),
            !(old(mode).view() is Confirmation) ==> final(mode).view() == old(mode).view() && acts@.len() == 0,
    {
        let mut acts: Vec<Action> = Vec::new();
        let mut m = GlobalMode::Normal;
        std::mem::swap(&mut m, mode);
        match m {
            GlobalMode::Confirmation { selected, kind, display_name, detail } => {
                let hint = detail_index_exec(&detail);
                let delete_backend = kind == ConfirmationKind::DeleteBackend;
                let confirm = match key.code {
                    KeyCode::Char('y') => Some(true),
                    KeyCode::Char('n') | KeyCode::Esc => Some(false),
                    KeyCode::Enter => Some(selected),
                    KeyCode::Char('h') if key.ctrl => Some(false),
                    _ => None,
                };
                match confirm {
                    Some(true) => {
                        acts.push(Action::Confirm { kind, display_name, detail });
                        if delete_backend {
                            acts.push(Action::ReopenBackendPicker { selected_hint: hint });
                        }
                    },
                    Some(false) => {
                        acts.push(Action::ClearPendingUnload);
                        if delete_backend && key.code != KeyCode::Enter {
                            acts.push(Action::ReopenBackendPicker { selected_hint: hint });
                        }
                    },
                    None => {
                        if key.code == KeyCode::Tab || key.code == KeyCode::Left || key.code == KeyCode::Right {
                            *mode = GlobalMode::Confirmation { selected: !selected, kind, display_name, detail };
                        } else {
                            *mode = GlobalMode::Confirmation { selected, kind, display_name, detail };
                        }
                    },
                }
            },
            other => {
                *mode = other;
            },
        }
        acts
    }
}

/// The backend picker shown again after a backend deletion was answered: the fresh
/// entries, with the selection kept where it was as far as the list still reaches.
pub fn reopen_backend_picker(entries: Vec<(String, Option<String>)>, selected_hint: Option<usize>) -> (m: GlobalMode)
    ensures
        m.view() == (ModeView::BackendPicker {
            entries: entries.deep_view(),
            selected: {
                let want: usize = match selected_hint { Some(i) => i, None => 0 };
                let last: usize = if entries@.len() > 0 { (entries@.len() - 1) as usize } else { 0 };
                if want < last { want } else { last }
            },
        }),
{
    let want = match selected_hint {
        Some(i) => i,
        None => 0,
    };
    let last = entries.len().saturating_sub(1);
    let selected = if want < last { want } else { last };
    GlobalMode::BackendPicker { entries, selected }
}

// ───────────────────────── max concurrent predictions ─────────────────────────

pub open spec fn clamp_1_10(n: nat) -> u32 {
    if n < 1 { 1 } else if n > 10 { 10 } else { n as u32 }
}

pub open spec fn max_concurrent_step(m: ModeView, key: Key) -> (ModeView, Seq<ActionView>) {
    match m {
        ModeView::MaxConcurrentPicker { value } => match key.code {
            KeyCode::Esc => (ModeView::Normal, seq![]),
            KeyCode::Char(c) if '0' <= c <= '9' && utf8_len(value) < 3 => (
                ModeView::MaxConcurrentPicker { value: value.push(c) },
                seq![],
            ),
            KeyCode::Backspace => (
                ModeView::MaxConcurrentPicker { value: if value.len() > 0 { value.drop_last() } else { value } },
                seq![],
            ),
            KeyCode::Enter => match parse_unsigned(value, u32::MAX as nat) {
                Some(n) => (
                    ModeView::Normal,
                    seq![
                        ActionView::SetMaxConcurrent(clamp_1_10(n)),
                        ActionView::SyncGlobalSettings,
                        ActionView::MarkSettingsDirty(true),
                        ActionView::MarkSettingsDirty(false),
                    ],
                ),
                None => (ModeView::Normal, seq![ActionView::MarkSettingsDirty(false)]),
            },
            _ => (m, seq![]),
        },
        _ => (m, seq![]),
    }
}

/// The concurrent-predictions picker: digits type (up to three bytes), Backspace erases,
/// Enter sets the value clamped to 1..=10, Esc cancels.
pub struct MaxConcurrentPickerHandler;

impl MaxConcurrentPickerHandler {
    pub fn can_handle(&self, mode: &GlobalMode) -> (r: bool)
        ensures
            r == (mode.view() is MaxConcurrentPicker),
    {
        matches!(mode, GlobalMode::MaxConcurrentPicker { .. })
    }

    pub fn handle(&self, mode: &mut GlobalMode, key: Key) -> (acts: Vec<Action>)
        ensures
            old(mode).view() is MaxConcurrentPicker ==> produced(*final(mode), acts@, max_concurrent_step(old(mode).view(), key)),
            !(old(mode).view() is MaxConcurrentPicker) ==> final(mode).view() == old(mode).view() && acts@.len() == 0,
    {
        let mut acts: Vec<Action> = Vec::new();
        let mut m = GlobalMode::Normal;
        std::mem::swap(&mut m, mode);
        match m {
            GlobalMode::MaxConcurrentPicker { value } => {
                let mut value = value;
                match key.code {
                    KeyCode::Esc => {
                        return acts;
                    },
                    KeyCode::Char(c) => {
                        if '0' <= c && c <= '9' && utf8_len_below(value.as_str(), 3) {
                            push_char(&mut value, c);
                        }
                    },
                    KeyCode::Backspace => {
                        pop_char(&mut value);
                    },
                    KeyCode::Enter => {
                        if let Some(n) = parse_u32(value.as_str()) {
                            let n = if n < 1 { 1 } else if n > 10 { 10 } else { n };
                            acts.push(Action::SetMaxConcurrent(n));
                            acts.push(Action::SyncGlobalSettings);
                            acts.push(Action::MarkSettingsDirty(true));
                        }
                        acts.push(Action::MarkSettingsDirty(false));
                        return acts;
                    },
                    _ => {},
                }
                *mode = GlobalMode::MaxConcurrentPicker { value };
            },
            other => {
                *mode = other;
            },
        }
        acts
    }
}

// ───────────────────────── dashboard addresses ─────────────────────────

pub open spec fn scheme(tls_enabled: bool) -> Seq<char> {
    if tls_enabled { "https"@ } else { "http"@ }
}

/// The three addresses copied from the dashboard box, one per line: the API endpoint and
/// the server metrics at the formatted host `host_val`, and the dashboard at `host`
/// (with the auth key, if there is one).
pub open spec fn dashboard_text(
    host_val: Seq<char>,
    host: Seq<char>,
    ws_port: Seq<char>,
    api_port: Seq<char>,
    llm_port: Seq<char>,
    auth_key: Seq<char>,
    tls_enabled: bool,
) -> Seq<char> {
    let api_url = scheme(tls_enabled) + "://"@ + host_val + ":"@ + api_port;
    let metrics_url = "http://"@ + host_val + ":"@ + llm_port;
    let dashboard = scheme(tls_enabled) + "://"@ + host + ":"@ + ws_port + "/dashboard"@;
    let dashboard_url = if auth_key.len() > 0 { dashboard + "?auth="@ + auth_key } else { dashboard };
    api_url + "\n"@ + metrics_url + "\n"@ + dashboard_url
}

/// Builds the text copied from the dashboard box.
pub fn dashboard_urls(
    host_val: &str,
    host: &str,
    ws_port: &str,
    api_port: &str,
    llm_port: &str,
    auth_key: &str,
    tls_enabled: bool,
) -> (s: String)
    ensures
        s@ == dashboard_text(host_val@, host@, ws_port@, api_port@, llm_port@, auth_key@, tls_enabled),
{
    let sch = if tls_enabled { "https" } else { "http" };
    let mut s = String::from_str(sch);
    s.append("://");
    s.append(host_val);
    s.append(":");
    s.append(api_port);
    s.append("\n");
    s.append("http://");
    s.append(host_val);
    s.append(":");
    s.append(llm_port);
    s.append("\n");
    s.append(sch);
    s.append("://");
    s.append(host);
    s.append(":");
    s.append(ws_port);
    s.append("/dashboard");
    if !auth_key.is_empty() {
        s.append("?auth=");
        s.append(auth_key);
    }
    s
}

pub open spec fn dashboard_url_step(m: ModeView, key: Key) -> (ModeView, Seq<ActionView>) {
    match m {
        ModeView::DashboardUrl { host, ws_port, api_port, llm_port, auth_key, ws_enabled, tls_enabled } => match key.code {
            KeyCode::Esc => (ModeView::Normal, seq![]),
            KeyCode::Enter => (
                ModeView::Normal,
                seq![ActionView::CopyDashboardUrls { host, ws_port, api_port, llm_port, auth_key, tls_enabled }],
            ),
            _ => (m, seq![]),
        },
        _ => (m, seq![]),
    }
}

/// The dashboard address box: Enter copies the addresses, Esc closes it.
pub struct DashboardUrlHandler;

impl DashboardUrlHandler {
    pub fn can_handle(&self, mode: &GlobalMode) -> (r: bool)
        ensures
            r == (mode.view() is DashboardUrl),
    {
        matches!(mode, GlobalMode::DashboardUrl { .. })
    }

    pub fn handle(&self, mode: &mut GlobalMode, key: Key) -> (acts: Vec<Action>)
        ensures
            old(mode).view() is DashboardUrl ==> produced(*final(mode), acts@, dashboard_url_step(old(mode).view(), key)),
            !(old(mode).view() is DashboardUrl) ==> final(mode).view() == old(mode).view() && acts@.len() == 0,
    {
        let mut acts: Vec<Action> = Vec::new();
        if !matches!(mode, GlobalMode::DashboardUrl { .. }) || !(key.code == KeyCode::Esc || key.code == KeyCode::Enter) {
            return acts;
        }
        let mut m = GlobalMode::Normal;
        std::mem::swap(&mut m, mode);
        match m {
            GlobalMode::DashboardUrl { host, ws_port, api_port, llm_port, auth_key, ws_enabled: _, tls_enabled } => {
                if key.code == KeyCode::Enter {
                    acts.push(Action::CopyDashboardUrls { host, ws_port, api_port, llm_port, auth_key, tls_enabled });
                }
            },
            other => {
                *mode = other;
            },
        }
        acts
    }
}

/// The RPC worker manager overlay: its keys go to the worker list editor.
pub struct RpcManagerHandler;

impl RpcManagerHandler {
    pub fn name(&self) -> (r: &'static str)
        ensures
            r@ == "RpcManager"@,
    {
        "RpcManager"
    }

    pub fn can_handle(&self, mode: &GlobalMode) -> (r: bool)
        ensures
            r == (mode.view() is RpcManager),
    {
        matches!(mode, GlobalMode::RpcManager)
    }

    /// Every key goes to the worker list editor; the mode is left to it.
    pub fn handle(&self, mode: &mut GlobalMode, key: Key) -> (acts: Vec<Action>)
        ensures
            old(mode).view() is RpcManager ==> produced(*final(mode), acts@, (old(mode).view(), seq![ActionView::RpcWorkersKey(key)])),
            !(old(mode).view() is RpcManager) ==> final(mode).view() == old(mode).view() && acts@.len() == 0,
    {
        let mut acts: Vec<Action> = Vec::new();
        if let GlobalMode::RpcManager = mode {
            acts.push(Action::RpcWorkersKey(key));
        }
        acts
    }
}

/// The benchmark tuning setup overlay: its keys go to the benchmark setup editor.
pub struct BenchTuneSetupHandler;

impl BenchTuneSetupHandler {
    pub fn name(&self) -> (r: &'static str)
        ensures
            r@ == "BenchTuneSetup"@,
    {
        "BenchTuneSetup"
    }

    pub fn can_handle(&self, mode: &GlobalMode) -> (r: bool)
        ensures
            r == (mode.view() is BenchTuneSetup),
    {
        matches!(mode, GlobalMode::BenchTuneSetup { .. })
    }

    /// Every key goes to the benchmark setup editor; the mode is left to it.
    pub fn handle(&self, mode: &mut GlobalMode, key: Key) -> (acts: Vec<Action>)
        ensures
            old(mode).view() is BenchTuneSetup ==> produced(*final(mode), acts@, (old(mode).view(), seq![ActionView::BenchTuneSetupKey(key)])),
            !(old(mode).view() is BenchTuneSetup) ==> final(mode).view() == old(mode).view() && acts@.len() == 0,
    {
        let mut acts: Vec<Action> = Vec::new();
        if let GlobalMode::BenchTuneSetup { .. } = mode {
            acts.push(Action::BenchTuneSetupKey(key));
        }
        acts
    }
}

// ───────────────────────── laws ─────────────────────────

/// Answering a confirmation always closes it (to the normal mode; a backend deletion
/// then asks for the backend picker again).
pub proof fn law_answer_closes_confirmation(m: ModeView, key: Key)
    requires
        m is Confirmation,
        key.code == KeyCode::Char('y') || key.code == KeyCode::Char('n') || key.code == KeyCode::Esc
            || key.code == KeyCode::Enter,
    ensures
        confirmation_step(m, key).0 is Normal,
{
}

/// Switching the answer twice gives the dialog back unchanged.
pub proof fn law_switch_answer_twice(m: ModeView, key: Key)
    requires
        m is Confirmation,
        key.code == KeyCode::Tab,
    ensures
        confirmation_step(confirmation_step(m, key).0, key) == (m, Seq::<ActionView>::empty()),
{
    assert(confirmation_step(confirmation_step(m, key).0, key).1 =~= Seq::<ActionView>::empty());
}

/// Only a "yes" carries out the operation: every other key asks for no confirmation.
pub proof fn law_only_yes_confirms(m: ModeView, key: Key)
    requires
        m matches ModeView::Confirmation { selected, .. } && !(key.code == KeyCode::Char('y') || (key.code == KeyCode::Enter && selected)),
    ensures
        forall|i: int| 0 <= i < confirmation_step(m, key).1.len() ==> !(#[trigger] confirmation_step(m, key).1[i] is Confirm),
{
}

/// Tab, Left and Right all switch the answer of a confirmation, keeping what it asks
/// about, and ask for nothing.
pub proof fn law_tab_and_arrows_switch_the_answer(
    selected: bool,
    kind: ConfirmationKind,
    display_name: Seq<char>,
    detail: Option<Seq<char>>,
    key: Key,
)
    requires
        key.code == KeyCode::Tab || key.code == KeyCode::Left || key.code == KeyCode::Right,
    ensures
        confirmation_step(ModeView::Confirmation { selected, kind, display_name, detail }, key)
            == (ModeView::Confirmation { selected: !selected, kind, display_name, detail }, Seq::<ActionView>::empty()),
{
    assert(confirmation_step(ModeView::Confirmation { selected, kind, display_name, detail }, key).1
        =~= Seq::<ActionView>::empty());
}

/// `y` (or Enter on "yes") confirms exactly what the dialog asks about; `n`, Esc (or Enter
/// on "no") drop a waiting unload instead; each closes the dialog.
pub proof fn law_yes_confirms_and_no_cancels(
    selected: bool,
    kind: ConfirmationKind,
    display_name: Seq<char>,
    detail: Option<Seq<char>>,
    key: Key,
)
    ensures
        ({
            let (m, acts) = confirmation_step(ModeView::Confirmation { selected, kind, display_name, detail }, key);
            &&& (key.code == KeyCode::Char('y') || (key.code == KeyCode::Enter && selected)) ==> m == ModeView::Normal
                && acts.len() >= 1 && acts[0] == (ActionView::Confirm { kind, display_name, detail })
            &&& (key.code == KeyCode::Char('n') || key.code == KeyCode::Esc || (key.code == KeyCode::Enter && !selected))
                ==> m == ModeView::Normal && acts.len() >= 1 && acts[0] == ActionView::ClearPendingUnload
        }),
{
}

} // verus!
