//! The life of the daemon as a state machine.
//!
//! The daemon itself only decides: [`step`] takes the state it is in and what
//! just happened, and gives the state it moves to and what to do next.
//! Enumerating ports, opening the connection and waiting for the operator are
//! left to the caller, who reports back with the next event.

use vstd::prelude::*;
use crate::midi::DeviceError;

verus! {

/// Where the daemon is in its life.
#[derive(Debug, Clone, Copy, PartialEq, Eq, Structural)]
pub enum DaemonState {
    /// Nothing has been selected yet.
    Idle,
    /// The device was found in the catalog; its port is about to be opened.
    CatalogQueried { device: usize },
    /// The connection to the device is open and notes are being dispatched.
    SessionOpen { device: usize },
    /// The daemon is done. Nothing leads out of this state.
    Closed,
}

/// What can happen to the daemon.
#[derive(Debug, Clone, Copy, PartialEq, Eq, Structural)]
pub enum DaemonEvent {
    /// The operator asked for the device at `index`, and a fresh enumeration
    /// found `available` devices.
    DeviceRequested { index: u64, available: usize },
    /// The driver opened the port.
    Connected,
    /// The driver refused to open the port.
    ConnectionRefused,
    /// The operator asked the daemon to stop.
    Terminate,
}

/// What the caller is to do after a step.
#[derive(Debug, Clone, Copy, PartialEq, Eq, Structural)]
pub enum DaemonAction {
    /// Open the port of this device and report how it went.
    OpenSession { device: usize },
    /// Wait for the operator; notes are dispatched meanwhile.
    AwaitTermination,
    /// Release the connection and leave with success.
    CloseSession,
    /// Report the error and leave with failure.
    Fail(DeviceError),
    /// Nothing.
    Nothing,
}

/// The state and the action that follow from a state and an event.
pub open spec fn transition(state: DaemonState, event: DaemonEvent) -> (
    DaemonState,
    DaemonAction,
) {
    match (state, event) {
        (DaemonState::Idle, DaemonEvent::DeviceRequested { index, available }) => {
            if index < available {
                (
                    DaemonState::CatalogQueried { device: index as usize },
                    DaemonAction::OpenSession { device: index as usize },
                )
            } else {
                (DaemonState::Closed, DaemonAction::Fail(DeviceError::DeviceNotFound))
            }
        },
        (DaemonState::CatalogQueried { device }, DaemonEvent::Connected) => (
            DaemonState::SessionOpen { device },
            DaemonAction::AwaitTermination,
        ),
        (DaemonState::CatalogQueried { .. }, DaemonEvent::ConnectionRefused) => (
            DaemonState::Closed,
            DaemonAction::Fail(DeviceError::ConnectionError),
        ),
        (DaemonState::SessionOpen { .. }, DaemonEvent::Terminate) => (
            DaemonState::Closed,
            DaemonAction::CloseSession,
        ),
        (_, DaemonEvent::Terminate) => (DaemonState::Closed, DaemonAction::Nothing),
        _ => (state, DaemonAction::Nothing),
    }
}

/// Moves the daemon by one event.
pub fn step(state: DaemonState, event: DaemonEvent) -> (r: (DaemonState, DaemonAction))
    ensures
        r == transition(state, event),
{
    match state {
        DaemonState::Idle => match event {
            DaemonEvent::DeviceRequested { index, available } => {
                if index < available as u64 {
                    let device: usize = index as usize;
                    (DaemonState::CatalogQueried { device }, DaemonAction::OpenSession { device })
                } else {
                    (DaemonState::Closed, DaemonAction::Fail(DeviceError::DeviceNotFound))
                }
            },
            DaemonEvent::Terminate => (DaemonState::Closed, DaemonAction::Nothing),
            _ => (state, DaemonAction::Nothing),
        },
        DaemonState::CatalogQueried { device } => match event {
            DaemonEvent::Connected => (
                DaemonState::SessionOpen { device },
                DaemonAction::AwaitTermination,
            ),
            DaemonEvent::ConnectionRefused => (
                DaemonState::Closed,
                DaemonAction::Fail(DeviceError::ConnectionError),
            ),
            DaemonEvent::Terminate => (DaemonState::Closed, DaemonAction::Nothing),
            _ => (state, DaemonAction::Nothing),
        },
        DaemonState::SessionOpen { .. } => match event {
            DaemonEvent::Terminate => (DaemonState::Closed, DaemonAction::CloseSession),
            _ => (state, DaemonAction::Nothing),
        },
        DaemonState::Closed => (DaemonState::Closed, DaemonAction::Nothing),
    }
}

/// `Closed` is terminal: whatever happens there, the daemon stays closed and
/// nothing is left to do. Closing twice is harmless.
pub proof fn lemma_closed_is_terminal(event: DaemonEvent)
    ensures
        transition(DaemonState::Closed, event) == (DaemonState::Closed, DaemonAction::Nothing),
{
}

/// A session opens in one way only: the driver reports the connection while
/// the daemon waits for it, and the session is on the device that was found
/// in the catalog.
pub proof fn lemma_session_opens_after_catalog(state: DaemonState, event: DaemonEvent)
    requires
        !(state is SessionOpen),
        transition(state, event).0 is SessionOpen,
    ensures
        event == DaemonEvent::Connected,
        state is CatalogQueried,
        transition(state, event).0 == (DaemonState::SessionOpen {
            device: state->CatalogQueried_device,
        }),
{
}

/// The caller is told to open a port only for an index that the catalog
/// holds, and an index that it does not hold ends the daemon with
/// `DeviceNotFound`.
pub proof fn lemma_device_is_validated(index: u64, available: usize)
    ensures
        index < available ==> transition(
            DaemonState::Idle,
            DaemonEvent::DeviceRequested { index, available },
        ) == (
            DaemonState::CatalogQueried { device: index as usize },
            DaemonAction::OpenSession { device: index as usize },
        ),
        index >= available ==> transition(
            DaemonState::Idle,
            DaemonEvent::DeviceRequested { index, available },
        ) == (DaemonState::Closed, DaemonAction::Fail(DeviceError::DeviceNotFound)),
{
}

/// The connection is released on every way out of an open session, and only
/// there: a step asks for it exactly when it leaves `SessionOpen`.
pub proof fn lemma_session_is_released(state: DaemonState, event: DaemonEvent)
    ensures
        transition(state, event).1 == DaemonAction::CloseSession <==> state is SessionOpen
            && !(transition(state, event).0 is SessionOpen),
        state is SessionOpen ==> transition(state, event).0 == state || transition(state, event).0
            == DaemonState::Closed,
{
}

/// The operator's request to stop ends the daemon from any state.
pub proof fn lemma_terminate_closes(state: DaemonState)
    ensures
        transition(state, DaemonEvent::Terminate).0 == DaemonState::Closed,
{
}

} // verus!
