//! The control decisions of a running node process: what its event monitor
//! does with each received item, and what the run loop does with each control
//! message. The waiting, sleeping and restarting themselves are the owning
//! process's work; the policy is here, verified.

use vstd::prelude::*;

use crate::events::RecvError;

verus! {

/// How long a node waits before acting on a stop caused by a closed event
/// channel, in milliseconds.
pub const STOP_ON_CLOSED_DELAY_MS: u64 = 1000;

/// An event reported by a running node.
#[derive(Clone, Copy, Debug, PartialEq, Eq, Structural)]
pub enum NodeEvent {
    /// The node has been connected to the network.
    ConnectedToNetwork,
    /// Any other node event; the monitor ignores these.
    Other,
}

/// A control message to the node's run loop.
#[derive(Clone, Copy, Debug, PartialEq, Eq, Structural)]
pub enum NodeCtrl {
    /// Stop the process after a delay.
    Stop { delay_ms: u64 },
    /// Restart the node after a delay, rejoining the network.
    Restart { delay_ms: u64 },
    /// Update the node and restart it after a delay.
    Update { delay_ms: u64 },
}

/// What the event monitor does with one received item.
#[derive(Clone, Copy, Debug, PartialEq, Eq, Structural)]
pub enum MonitorAction {
    /// Note the connection; nothing else to do.
    LogConnected,
    /// Ignore the event.
    Ignore,
    /// The event channel closed: ask the run loop to stop after a delay.
    SendStop { delay_ms: u64 },
    /// The monitor lagged and missed events; note it and keep receiving.
    SkipLagged { missed: u64 },
}

/// The monitor's decision for one received item: a closed event channel is
/// fatal to the process (after a grace delay), lagging is tolerated, and of
/// the events themselves only the connection is worth noting.
pub fn monitor_node_event(received: Result<NodeEvent, RecvError>) -> (action: MonitorAction)
    ensures
        action == (match received {
            Ok(NodeEvent::ConnectedToNetwork) => MonitorAction::LogConnected,
            Ok(NodeEvent::Other) => MonitorAction::Ignore,
            Err(RecvError::Closed) => (MonitorAction::SendStop {
                delay_ms: STOP_ON_CLOSED_DELAY_MS,
            }),
            Err(RecvError::Lagged(missed)) => (MonitorAction::SkipLagged { missed }),
        }),
{
    match received {
        Ok(NodeEvent::ConnectedToNetwork) => MonitorAction::LogConnected,
        Ok(NodeEvent::Other) => MonitorAction::Ignore,
        Err(RecvError::Closed) => MonitorAction::SendStop { delay_ms: STOP_ON_CLOSED_DELAY_MS },
        Err(RecvError::Lagged(missed)) => MonitorAction::SkipLagged { missed },
    }
}

/// What the run loop does next.
#[derive(Clone, Copy, Debug, PartialEq, Eq, Structural)]
pub enum RunDecision {
    /// Restart the node after the delay.
    Restart { delay_ms: u64 },
    /// Stop the process after the delay.
    Stop { delay_ms: u64 },
    /// Keep the node running and wait for the next control message.
    KeepRunning,
}

/// The run loop's decision for one control message: restarts and stops are
/// honoured with their delays, an update is not supported yet and keeps the
/// node running, and a closed control channel restarts the node at once.
pub fn node_run_decision(ctrl: Option<NodeCtrl>) -> (decision: RunDecision)
    ensures
        decision == (match ctrl {
            Some(NodeCtrl::Restart { delay_ms }) => (RunDecision::Restart { delay_ms }),
            Some(NodeCtrl::Stop { delay_ms }) => (RunDecision::Stop { delay_ms }),
            Some(NodeCtrl::Update { .. }) => RunDecision::KeepRunning,
            None => (RunDecision::Restart { delay_ms: 0 }),
        }),
{
    match ctrl {
        Some(NodeCtrl::Restart { delay_ms }) => RunDecision::Restart { delay_ms },
        Some(NodeCtrl::Stop { delay_ms }) => RunDecision::Stop { delay_ms },
        Some(NodeCtrl::Update { .. }) => RunDecision::KeepRunning,
        None => RunDecision::Restart { delay_ms: 0 },
    }
}

} // verus!
