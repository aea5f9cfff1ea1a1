//! Answers to system requests (auto-start, URL opening, system proxy, power
//! events), built from the outcome of the operating-system call.
use vstd::prelude::*;

verus! {

/// Query of the auto-start setting.
pub struct GetAutoStartStatus;

/// Change of the auto-start setting.
pub struct SetAutoStartStatus {
    pub enabled: bool,
}

/// Auto-start setting as the system reports it, or the failure.
pub struct AutoStartStatusResult {
    pub enabled: bool,
    pub error_message: Option<String>,
}

/// `r` answers an auto-start call whose outcome was `outcome`.
pub open spec fn auto_start_answer(outcome: Result<bool, String>, r: AutoStartStatusResult) -> bool {
    match outcome {
        Ok(b) => r.enabled == b && r.error_message is None,
        Err(e) => !r.enabled && r.error_message == Some(e),
    }
}

fn auto_start_result(outcome: Result<bool, String>) -> (r: AutoStartStatusResult)
    ensures
        auto_start_answer(outcome, r),
{
    match outcome {
        Ok(enabled) => AutoStartStatusResult { enabled, error_message: None },
        Err(e) => AutoStartStatusResult { enabled: false, error_message: Some(e) },
    }
}

impl GetAutoStartStatus {
    /// Answer from the status that the system reported.
    pub fn handle(&self, outcome: Result<bool, String>) -> (r: AutoStartStatusResult)
        ensures
            auto_start_answer(outcome, r),
    {
        auto_start_result(outcome)
    }
}

impl SetAutoStartStatus {
    /// Answer from the status that the system reported after the change.
    pub fn handle(&self, outcome: Result<bool, String>) -> (r: AutoStartStatusResult)
        ensures
            auto_start_answer(outcome, r),
    {
        auto_start_result(outcome)
    }
}

/// Request to open a URL in the default browser.
pub struct OpenUrl {
    pub url: String,
}

/// Outcome of opening a URL.
pub struct OpenUrlResult {
    pub is_successful: bool,
    pub error_message: Option<String>,
}

impl OpenUrl {
    /// Answer from the browser launch outcome.
    pub fn handle(&self, outcome: Result<(), String>) -> (r: OpenUrlResult)
        ensures
            match outcome {
                Ok(_) => r.is_successful && r.error_message is None,
                Err(e) => !r.is_successful && r.error_message == Some(e),
            },
    {
        match outcome {
            Ok(_) => OpenUrlResult { is_successful: true, error_message: None },
            Err(e) => OpenUrlResult { is_successful: false, error_message: Some(e) },
        }
    }
}

/// Request to point the system proxy at `host:port`, or at a PAC script.
pub struct EnableSystemProxy {
    pub host: String,
    pub port: u16,
    pub bypass_domains: Vec<String>,
    pub use_pac_mode: bool,
    pub pac_script: String,
    pub pac_file_path: String,
}

/// Request to remove the system proxy.
pub struct DisableSystemProxy;

/// Query of the system proxy.
pub struct GetSystemProxy;

/// Outcome of changing the system proxy.
pub struct SystemProxyResult {
    pub success: bool,
    pub error_message: Option<String>,
}

/// System proxy state.
pub struct SystemProxyInfo {
    pub enabled: bool,
    pub server: Option<String>,
}

/// `r` answers a proxy change whose outcome was `outcome`.
pub open spec fn proxy_answer(outcome: Result<(), String>, r: SystemProxyResult) -> bool {
    match outcome {
        Ok(_) => r.success && r.error_message is None,
        Err(e) => !r.success && r.error_message == Some(e),
    }
}

fn proxy_result(outcome: Result<(), String>) -> (r: SystemProxyResult)
    ensures
        proxy_answer(outcome, r),
{
    match outcome {
        Ok(_) => SystemProxyResult { success: true, error_message: None },
        Err(e) => SystemProxyResult { success: false, error_message: Some(e) },
    }
}

impl EnableSystemProxy {
    /// Answer from the outcome of setting the proxy.
    pub fn handle(&self, outcome: Result<(), String>) -> (r: SystemProxyResult)
        ensures
            proxy_answer(outcome, r),
    {
        proxy_result(outcome)
    }
}

impl DisableSystemProxy {
    /// Answer from the outcome of removing the proxy.
    pub fn handle(&self, outcome: Result<(), String>) -> (r: SystemProxyResult)
        ensures
            proxy_answer(outcome, r),
    {
        proxy_result(outcome)
    }
}

impl GetSystemProxy {
    /// Answer from the proxy state that the system reported.
    pub fn handle(&self, enabled: bool, server: Option<String>) -> (r: SystemProxyInfo)
        ensures
            r.enabled == enabled,
            r.server == server,
    {
        SystemProxyInfo { enabled, server }
    }
}

/// Kind of a power transition reported by the system.
#[derive(PartialEq, Eq, Structural, Clone, Copy)]
pub enum PowerEventType {
    Suspend,
    ResumeAutomatic,
    ResumeSuspend,
}

/// Power transition forwarded to the front-end.
pub struct SystemPowerEvent {
    pub event_type: PowerEventType,
}

/// Power broadcast code: the system is about to sleep.
pub const PBT_APMSUSPEND: u32 = 0x0004;

/// Power broadcast code: the system woke up on its own.
pub const PBT_APMRESUMEAUTOMATIC: u32 = 0x0012;

/// Power broadcast code: the system woke up by user action.
pub const PBT_APMRESUMESUSPEND: u32 = 0x0007;

/// The power transition that a broadcast code reports, if it is one that
/// is forwarded to the front-end.
pub fn power_event_from_broadcast(code: u32) -> (r: Option<SystemPowerEvent>)
    ensures
        code == PBT_APMSUSPEND ==> r == Some(SystemPowerEvent { event_type: PowerEventType::Suspend }),
        code == PBT_APMRESUMEAUTOMATIC ==> r == Some(SystemPowerEvent { event_type: PowerEventType::ResumeAutomatic }),
        code == PBT_APMRESUMESUSPEND ==> r == Some(SystemPowerEvent { event_type: PowerEventType::ResumeSuspend }),
        code != PBT_APMSUSPEND && code != PBT_APMRESUMEAUTOMATIC && code != PBT_APMRESUMESUSPEND ==> r is None,
{
    if code == PBT_APMSUSPEND {
        Some(SystemPowerEvent { event_type: PowerEventType::Suspend })
    } else if code == PBT_APMRESUMEAUTOMATIC {
        Some(SystemPowerEvent { event_type: PowerEventType::ResumeAutomatic })
    } else if code == PBT_APMRESUMESUSPEND {
        Some(SystemPowerEvent { event_type: PowerEventType::ResumeSuspend })
    } else {
        None
    }
}

/// Whether the power listener runs, and the thread that pumps its messages
/// (zero until that thread has started).
pub struct PowerListener {
    pub running: bool,
    pub thread_id: u32,
}

impl PowerListener {
    /// No listener.
    pub fn new() -> (p: PowerListener)
        ensures
            !p.running,
            p.thread_id == 0,
    {
        PowerListener { running: false, thread_id: 0 }
    }

    /// The listener thread is pumping messages under this thread id.
    pub fn thread_started(&mut self, thread_id: u32)
        ensures
            final(self).running == old(self).running,
            final(self).thread_id == thread_id,
    {
        self.thread_id = thread_id;
    }

    /// The listener's message loop has ended, normally or by failure.
    pub fn loop_ended(&mut self)
        ensures
            !final(self).running,
            final(self).thread_id == 0,
    {
        self.running = false;
        self.thread_id = 0;
    }
}

/// Marks the listener as running; returns whether a listener thread must be
/// started (false when one already runs).
pub fn start_power_event_listener(state: &mut PowerListener) -> (spawn: bool)
    ensures
        spawn == !old(state).running,
        final(state).running,
        final(state).thread_id == old(state).thread_id,
{
    if state.running {
        false
    } else {
        state.running = true;
        true
    }
}

/// Asks a running listener to stop; returns the thread to which the quit
/// message goes. Nothing happens when no listener runs or its thread is not
/// ready yet.
pub fn stop_power_event_listener(state: &mut PowerListener) -> (quit_thread: Option<u32>)
    ensures
        old(state).running && old(state).thread_id != 0 ==> {
            &&& quit_thread == Some(old(state).thread_id)
            &&& !final(state).running
            &&& final(state).thread_id == old(state).thread_id
        },
        !(old(state).running && old(state).thread_id != 0) ==> {
            &&& quit_thread is None
            &&& *final(state) == *old(state)
        },
{
    if !state.running || state.thread_id == 0 {
        None
    } else {
        state.running = false;
        Some(state.thread_id)
    }
}

} // verus!
