//! Bringing the browser engine up: its command line, its settings, and what is
//! undone where it fails.

use vstd::prelude::*;

use crate::text::{decimal_text, joined};

verus! {

/// The window system that the client runs under.
#[derive(Clone, Copy, Debug, PartialEq, Eq, Structural)]
pub enum DisplayBackend {
    Wayland,
    X11,
    MacOS,
    Windows,
}

/// A switch on the engine's command line.
#[derive(Debug)]
pub struct PendingSwitch {
    pub name: &'static str,
    pub value: Option<String>,
}

#[verifier::ext_equal]
pub struct SwitchView {
    pub name: Seq<char>,
    pub value: Option<Seq<char>>,
}

impl View for PendingSwitch {
    type V = SwitchView;

    open spec fn view(&self) -> SwitchView {
        SwitchView {
            name: self.name@,
            value: match self.value {
                Some(v) => Some(v@),
                None => None,
            },
        }
    }
}

impl PendingSwitch {
    pub fn flag(name: &'static str) -> (r: Self)
        ensures
            r@ == flag_switch(name@),
    {
        PendingSwitch { name, value: None }
    }

    pub fn with_value(name: &'static str, value: &str) -> (r: Self)
        ensures
            r@ == value_switch(name@, value@),
    {
        PendingSwitch { name, value: Some(value.to_owned()) }
    }
}

pub open spec fn flag_switch(name: Seq<char>) -> SwitchView {
    SwitchView { name, value: None }
}

pub open spec fn value_switch(name: Seq<char>, value: Seq<char>) -> SwitchView {
    SwitchView { name, value: Some(value) }
}

pub open spec fn switch_views(switches: Seq<PendingSwitch>) -> Seq<SwitchView> {
    Seq::new(switches.len(), |i: int| switches[i]@)
}

/// An adapter's identifier as the engine writes it: its two halves.
pub open spec fn luid_text(luid: u64) -> Seq<char> {
    crate::text::decimal((luid / 0x1_0000_0000) as nat) + ","@ + crate::text::decimal(
        (luid % 0x1_0000_0000) as nat,
    )
}

/// The switches that a window system calls for. `adapter_luid` is the GPU that
/// the client paints on, where that is known by its identifier.
pub open spec fn backend_switches(backend: DisplayBackend, adapter_luid: Option<u64>) -> Seq<
    SwitchView,
> {
    match backend {
        DisplayBackend::Wayland => seq![
            value_switch("ozone-platform"@, "wayland"@),
            value_switch("disable-features"@, "WaylandFractionalScaleV1"@),
        ],
        DisplayBackend::X11 => seq![value_switch("ozone-platform"@, "x11"@)],
        DisplayBackend::MacOS => seq![
            flag_switch("single-process"@),
            flag_switch("use-mock-keychain"@),
            value_switch("password-store"@, "basic"@),
        ],
        DisplayBackend::Windows => seq![value_switch("use-angle"@, "d3d11"@)] + (
        match adapter_luid {
            Some(luid) => seq![value_switch("use-adapter-luid"@, luid_text(luid))],
            None => seq![],
        }),
    }
}

/// All switches: the window system's, and then those that were asked for.
pub open spec fn all_switches(
    backend: DisplayBackend,
    adapter_luid: Option<u64>,
    disable_gpu_compositing: bool,
) -> Seq<SwitchView> {
    backend_switches(backend, adapter_luid) + (if disable_gpu_compositing {
        seq![flag_switch("disable-gpu-compositing"@)]
    } else {
        seq![]
    })
}

pub fn platform_switches(backend: DisplayBackend, adapter_luid: Option<u64>) -> (r: Vec<
    PendingSwitch,
>)
    ensures
        switch_views(r@) == backend_switches(backend, adapter_luid),
{
    let mut r: Vec<PendingSwitch> = Vec::new();
    match backend {
        DisplayBackend::Wayland => {
            r.push(PendingSwitch::with_value("ozone-platform", "wayland"));
            r.push(PendingSwitch::with_value("disable-features", "WaylandFractionalScaleV1"));
        },
        DisplayBackend::X11 => {
            r.push(PendingSwitch::with_value("ozone-platform", "x11"));
        },
        DisplayBackend::MacOS => {
            r.push(PendingSwitch::flag("single-process"));
            r.push(PendingSwitch::flag("use-mock-keychain"));
            r.push(PendingSwitch::with_value("password-store", "basic"));
        },
        DisplayBackend::Windows => {
            r.push(PendingSwitch::with_value("use-angle", "d3d11"));
            match adapter_luid {
                Some(luid) => {
                    let high = joined(decimal_text(luid / 0x1_0000_0000).as_str(), ",");
                    let text = joined(
                        high.as_str(),
                        decimal_text(luid % 0x1_0000_0000).as_str(),
                    );
                    r.push(PendingSwitch::with_value("use-adapter-luid", text.as_str()));
                },
                None => {},
            }
        },
    }
    assert(switch_views(r@) =~= backend_switches(backend, adapter_luid));
    r
}

/// Where the engine's remote debugging listens.
#[derive(Clone, Copy, Debug, PartialEq, Eq, Structural)]
pub enum DebuggingPort {
    Disabled,
    Port(u16),
}

impl DebuggingPort {
    /// The port of a number: zero turns debugging off, and the ports below
    /// 1024 are the system's.
    pub fn from_number(n: i64) -> (r: Option<DebuggingPort>)
        ensures
            r == (if n == 0 {
                Some(DebuggingPort::Disabled)
            } else if 1024 <= n <= 65535 {
                Some(DebuggingPort::Port(n as u16))
            } else {
                None
            }),
    {
        if n == 0 {
            Some(DebuggingPort::Disabled)
        } else if 1024 <= n && n <= 65535 {
            Some(DebuggingPort::Port(n as u16))
        } else {
            None
        }
    }

    /// The number that the engine takes.
    pub fn number(self) -> (r: i32)
        ensures
            r == (match self {
                DebuggingPort::Disabled => 0,
                DebuggingPort::Port(p) => p as i32,
            }),
    {
        match self {
            DebuggingPort::Disabled => 0,
            DebuggingPort::Port(p) => p as i32,
        }
    }
}

/// Where the engine's files are, as far as the platform says.
#[derive(Debug)]
pub struct CefPaths {
    pub browser_subprocess_path: Option<String>,
    pub framework_dir_path: Option<String>,
    pub resources_dir_path: Option<String>,
    pub locales_dir_path: Option<String>,
}

/// The engine's settings.
#[derive(Debug)]
pub struct CefSettings {
    pub no_sandbox: bool,
    pub windowless_rendering_enabled: bool,
    pub disable_signal_handlers: bool,
    pub log_severity: i32,
    pub remote_debugging_port: i32,
    pub locale: String,
    pub user_agent: String,
    pub root_cache_path: String,
    pub external_message_pump: bool,
    pub multi_threaded_message_loop: bool,
    pub browser_subprocess_path: String,
    pub framework_dir_path: String,
    pub resources_dir_path: String,
    pub locales_dir_path: String,
}

/// The text that a setting has: the given one, and empty where none is.
pub open spec fn or_empty(path: Option<String>) -> Seq<char> {
    match path {
        Some(p) => p@,
        None => seq![],
    }
}

fn given(path: Option<String>) -> (r: String)
    ensures
        r@ == or_empty(path),
{
    match path {
        Some(p) => p,
        None => {
            let s = String::new();
            assert(s@ =~= seq![]);
            s
        },
    }
}

/// The engine is driven by the platform's own loop where it has one to offer,
/// and runs a loop of its own where it has not.
pub fn cef_settings(
    has_host: bool,
    log_severity: i32,
    remote_debugging_port: i32,
    app_version: &str,
    cache_dir: &str,
    paths: CefPaths,
) -> (r: CefSettings)
    ensures
        r.no_sandbox && r.windowless_rendering_enabled && r.disable_signal_handlers,
        r.log_severity == log_severity,
        r.remote_debugging_port == remote_debugging_port,
        r.locale@ == "en-US"@,
        r.user_agent@ == "Mozilla/5.0 jellium-desktop/"@ + app_version@,
        r.root_cache_path@ == cache_dir@,
        r.external_message_pump == has_host,
        r.multi_threaded_message_loop == !has_host,
        r.browser_subprocess_path@ == or_empty(paths.browser_subprocess_path),
        r.framework_dir_path@ == or_empty(paths.framework_dir_path),
        r.resources_dir_path@ == or_empty(paths.resources_dir_path),
        r.locales_dir_path@ == or_empty(paths.locales_dir_path),
{
    CefSettings {
        no_sandbox: true,
        windowless_rendering_enabled: true,
        disable_signal_handlers: true,
        log_severity,
        remote_debugging_port,
        locale: "en-US".to_owned(),
        user_agent: joined("Mozilla/5.0 jellium-desktop/", app_version),
        root_cache_path: cache_dir.to_owned(),
        external_message_pump: has_host,
        multi_threaded_message_loop: !has_host,
        browser_subprocess_path: given(paths.browser_subprocess_path),
        framework_dir_path: given(paths.framework_dir_path),
        resources_dir_path: given(paths.resources_dir_path),
        locales_dir_path: given(paths.locales_dir_path),
    }
}

#[derive(Clone, Copy, Debug, PartialEq, Eq, Structural)]
pub enum InitError {
    /// The engine did not come up.
    Native,
    /// The engine came up, but nobody could be told.
    Readiness,
}

/// One step of bringing the engine up or down.
#[derive(Clone, Copy, Debug, PartialEq, Eq, Structural)]
pub enum InitStep {
    PumpInit,
    Initialize,
    PostReady,
    PumpShutdown,
    StopReady,
    Shutdown,
}

pub open spec fn pump(has_host: bool, step: InitStep) -> Seq<InitStep> {
    if has_host {
        seq![step]
    } else {
        seq![]
    }
}

/// What is undone after a failure, in order: the platform's pump, the waiting
/// callers, and the engine itself where it had come up.
pub open spec fn undo(has_host: bool, error: InitError) -> Seq<InitStep> {
    pump(has_host, InitStep::PumpShutdown) + seq![InitStep::StopReady] + (match error {
        InitError::Native => seq![],
        InitError::Readiness => seq![InitStep::Shutdown],
    })
}

/// The switches and steps that bring the engine up.
#[derive(Debug)]
pub struct InitPlan {
    pub switches: Vec<PendingSwitch>,
    pub steps: Vec<InitStep>,
    /// The engine sees the client's whole command line, or only its name.
    pub full_argv: bool,
}

pub fn jfn_cef_initialize(
    backend: DisplayBackend,
    adapter_luid: Option<u64>,
    disable_gpu_compositing: bool,
    has_host: bool,
    full_browser_argv: bool,
) -> (r: InitPlan)
    ensures
        switch_views(r.switches@) == all_switches(backend, adapter_luid, disable_gpu_compositing),
        r.steps@ == pump(has_host, InitStep::PumpInit) + seq![
            InitStep::Initialize,
            InitStep::PostReady,
        ],
        r.full_argv == (full_browser_argv || backend == DisplayBackend::Windows),
{
    let mut switches = platform_switches(backend, adapter_luid);
    if disable_gpu_compositing {
        switches.push(PendingSwitch::flag("disable-gpu-compositing"));
    }
    assert(switch_views(switches@) =~= all_switches(
        backend,
        adapter_luid,
        disable_gpu_compositing,
    ));
    let mut steps: Vec<InitStep> = Vec::new();
    if has_host {
        steps.push(InitStep::PumpInit);
    }
    steps.push(InitStep::Initialize);
    steps.push(InitStep::PostReady);
    assert(steps@ =~= pump(has_host, InitStep::PumpInit) + seq![
        InitStep::Initialize,
        InitStep::PostReady,
    ]);
    InitPlan {
        switches,
        steps,
        full_argv: full_browser_argv || backend == DisplayBackend::Windows,
    }
}

/// What the attempt came to. `ready_posted` counts only once the engine is up.
pub fn init_outcome(initialized: bool, ready_posted: bool) -> (r: Result<(), InitError>)
    ensures
        r is Ok <==> initialized && ready_posted,
        !initialized ==> r == Err::<(), InitError>(InitError::Native),
        initialized && !ready_posted ==> r == Err::<(), InitError>(InitError::Readiness),
{
    if !initialized {
        return Err(InitError::Native);
    }
    if !ready_posted {
        return Err(InitError::Readiness);
    }
    Ok(())
}

/// The steps that undo a failed attempt.
pub fn undo_steps(has_host: bool, error: InitError) -> (steps: Vec<InitStep>)
    ensures
        steps@ == undo(has_host, error),
{
    let mut steps: Vec<InitStep> = Vec::new();
    if has_host {
        steps.push(InitStep::PumpShutdown);
    }
    steps.push(InitStep::StopReady);
    if error == InitError::Readiness {
        steps.push(InitStep::Shutdown);
    }
    assert(steps@ =~= undo(has_host, error));
    steps
}

/// The steps that bring a running engine down.
pub fn jfn_cef_shutdown(has_host: bool) -> (steps: Vec<InitStep>)
    ensures
        steps@ == pump(has_host, InitStep::PumpShutdown) + seq![InitStep::Shutdown],
{
    let mut steps: Vec<InitStep> = Vec::new();
    if has_host {
        steps.push(InitStep::PumpShutdown);
    }
    steps.push(InitStep::Shutdown);
    assert(steps@ =~= pump(has_host, InitStep::PumpShutdown) + seq![InitStep::Shutdown]);
    steps
}

/// A failed attempt leaves nothing running: the pump is shut down exactly where
/// it was started, and the engine exactly where it came up.
pub proof fn failure_leaves_nothing_running(has_host: bool, error: InitError)
    ensures
        undo(has_host, error).contains(InitStep::PumpShutdown) <==> has_host,
        undo(has_host, error).contains(InitStep::Shutdown) <==> error == InitError::Readiness,
        undo(has_host, error).contains(InitStep::StopReady),
{
    let u = undo(has_host, error);
    if has_host {
        assert(u[0] == InitStep::PumpShutdown);
        assert(u[1] == InitStep::StopReady);
        if error == InitError::Readiness {
            assert(u[2] == InitStep::Shutdown);
        }
    } else {
        assert(u[0] == InitStep::StopReady);
        if error == InitError::Readiness {
            assert(u[1] == InitStep::Shutdown);
        }
    }
}

/// An adapter's identifier is written as its high and its low half.
pub proof fn identifiers_are_written_in_halves(high: u32, low: u32)
    ensures
        luid_text((high as int * 0x1_0000_0000 + low) as u64) == crate::text::decimal(high as nat)
            + ","@ + crate::text::decimal(low as nat),
{
    let luid = (high as int * 0x1_0000_0000 + low) as u64;
    assert(luid as int == high as int * 0x1_0000_0000 + low);
    assert(luid / 0x1_0000_0000 == high);
    assert(luid % 0x1_0000_0000 == low);
}

/// The engine is told the window system it runs under: each by its own
/// switches, and the paths that the others take by none.
pub proof fn engines_are_told_their_window_system(luid: Option<u64>, no_compositing: bool)
    ensures
        ({
            let wayland = backend_switches(DisplayBackend::Wayland, luid);
            let x11 = backend_switches(DisplayBackend::X11, luid);
            let mac = backend_switches(DisplayBackend::MacOS, luid);
            let windows = backend_switches(DisplayBackend::Windows, luid);
            &&& wayland.len() == 2 && x11.len() == 1 && mac.len() == 3
            &&& wayland[0].name == "ozone-platform"@ && wayland[0].value == Some("wayland"@)
            &&& wayland[1].name == "disable-features"@ && wayland[1].value == Some(
                "WaylandFractionalScaleV1"@,
            )
            &&& x11[0].name == "ozone-platform"@ && x11[0].value == Some("x11"@)
            &&& mac[0].name == "single-process"@ && mac[0].value is None
            &&& mac[1].name == "use-mock-keychain"@ && mac[1].value is None
            &&& mac[2].name == "password-store"@ && mac[2].value == Some("basic"@)
            &&& windows[0].name == "use-angle"@ && windows[0].value == Some("d3d11"@)
            &&& luid is None ==> windows.len() == 1
            &&& luid matches Some(id) ==> windows.len() == 2 && windows[1].name
                == "use-adapter-luid"@ && windows[1].value == Some(luid_text(id))
        }),
{
}

/// The engine composes on the GPU unless it is told not to, by one switch behind
/// the others.
pub proof fn compositing_is_turned_off_last(backend: DisplayBackend, luid: Option<u64>)
    ensures
        all_switches(backend, luid, false) == backend_switches(backend, luid),
        all_switches(backend, luid, true).drop_last() == backend_switches(backend, luid),
        all_switches(backend, luid, true).last().name == "disable-gpu-compositing"@,
        all_switches(backend, luid, true).last().value is None,
{
    assert(all_switches(backend, luid, false) =~= backend_switches(backend, luid));
    assert(all_switches(backend, luid, true).drop_last() =~= backend_switches(backend, luid));
}

/// Switches are viewed in their order: a flag by its name, any other one by its
/// name and its value.
pub proof fn switches_are_viewed_in_order(switches: Seq<PendingSwitch>, i: int)
    requires
        0 <= i < switches.len(),
    ensures
        switch_views(switches).len() == switches.len(),
        switch_views(switches)[i].name == switches[i].name@,
        switches[i].value matches Some(v) ==> switch_views(switches)[i].value == Some(v@),
        switches[i].value is None ==> switch_views(switches)[i].value is None,
        forall|name: Seq<char>| (#[trigger] flag_switch(name)).name == name && flag_switch(
            name,
        ).value is None,
        forall|name: Seq<char>, value: Seq<char>| (#[trigger] value_switch(name, value)).name
            == name && value_switch(name, value).value == Some(value),
{
}

/// A path that is given is the setting, and none leaves it empty.
pub proof fn settings_take_the_given_path(path: String)
    ensures
        or_empty(Some(path)) == path@,
        or_empty(None).len() == 0,
{
}

/// The platform's pump takes its part exactly where there is one, and what is
/// undone is undone in order: the pump first, the engine last.
pub proof fn pumps_stop_first(has_host: bool, error: InitError, step: InitStep)
    ensures
        pump(true, step).len() == 1 && pump(true, step)[0] == step,
        pump(false, step).len() == 0,
        has_host ==> undo(has_host, error)[0] is PumpShutdown,
        error is Readiness ==> undo(has_host, error).last() is Shutdown,
        error is Native ==> undo(has_host, error).last() is StopReady,
        undo(has_host, error).len() == 1 + (if has_host {
            1int
        } else {
            0
        }) + (if error is Readiness {
            1int
        } else {
            0
        }),
{
}

/// A debugging port is a number's own: zero for none, and no port of the
/// system's.
pub proof fn ports_keep_their_number(n: i64, port: Option<DebuggingPort>, number: i32)
    requires
        call_ensures(DebuggingPort::from_number, (n,), port),
        port matches Some(p) ==> call_ensures(DebuggingPort::number, (p,), number),
    ensures
        port is Some <==> n == 0 || 1024 <= n <= 65535,
        port is Some ==> number == n,
        port matches Some(DebuggingPort::Disabled) <==> n == 0,
{
}

/// An attempt fails by the first thing that went wrong.
pub proof fn attempts_fail_by_the_first_fault(
    initialized: bool,
    posted: bool,
    r: Result<(), InitError>,
)
    requires
        call_ensures(init_outcome, (initialized, posted), r),
    ensures
        r is Ok <==> initialized && posted,
        r matches Err(InitError::Native) <==> !initialized,
        r matches Err(InitError::Readiness) <==> initialized && !posted,
{
}

/// The engine's settings say what they were made of, each in its own place, and
/// the engine's loop is run by the host or by a thread of its own, by one of the
/// two.
pub proof fn engines_are_set_up_as_given(
    has_host: bool,
    severity: i32,
    port: i32,
    version: &str,
    cache_dir: &str,
    paths: CefPaths,
    r: CefSettings,
)
    requires
        call_ensures(cef_settings, (has_host, severity, port, version, cache_dir, paths), r),
    ensures
        r.log_severity == severity && r.remote_debugging_port == port,
        r.root_cache_path@ == cache_dir@,
        r.external_message_pump == has_host,
        r.multi_threaded_message_loop != r.external_message_pump,
        r.no_sandbox && r.windowless_rendering_enabled && r.disable_signal_handlers,
        r.user_agent@.len() == 28 + version@.len() && r.user_agent@.skip(28) == version@,
        paths.browser_subprocess_path matches Some(p) ==> r.browser_subprocess_path@ == p@,
        paths.framework_dir_path matches Some(p) ==> r.framework_dir_path@ == p@,
        paths.resources_dir_path matches Some(p) ==> r.resources_dir_path@ == p@,
        paths.locales_dir_path matches Some(p) ==> r.locales_dir_path@ == p@,
        paths.locales_dir_path is None ==> r.locales_dir_path@.len() == 0,
{
    reveal_strlit("Mozilla/5.0 jellium-desktop/");
    reveal_strlit("");
    assert(r.user_agent@.skip(28) =~= version@);
}

/// The engine is started once, behind its pump where it has one and before it is
/// said to be ready; it ends behind its pump too.
pub proof fn pumps_go_before_the_engine(
    backend: DisplayBackend,
    luid: Option<u64>,
    no_compositing: bool,
    has_host: bool,
    full_argv: bool,
    plan: InitPlan,
    ending: Vec<InitStep>,
)
    requires
        call_ensures(
            jfn_cef_initialize,
            (backend, luid, no_compositing, has_host, full_argv),
            plan,
        ),
        call_ensures(jfn_cef_shutdown, (has_host,), ending),
    ensures
        plan.steps@[plan.steps@.len() - 1] is PostReady,
        plan.steps@[plan.steps@.len() - 2] is Initialize,
        has_host ==> plan.steps@.len() == 3 && plan.steps@[0] is PumpInit,
        !has_host ==> plan.steps@.len() == 2,
        ending@.last() is Shutdown,
        has_host ==> ending@.len() == 2 && ending@[0] is PumpShutdown,
        !has_host ==> ending@.len() == 1,
        plan.full_argv <==> full_argv || backend is Windows,
{
}

} // verus!
