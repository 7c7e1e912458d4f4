//! The polling driver's decision logic.
//!
//! The run loop alternates between waiting for a trigger — an inbound scrape
//! or a timer tick, depending on the deployment — and refreshing the metric
//! set. The loop itself performs the blocking and the sensor reads; this
//! module decides, from the current state and the event that occurred, which
//! state comes next and what the loop must do. An update error is fatal: the
//! process terminates rather than continuing to the next iteration.

use vstd::prelude::*;

use crate::gauges::SensorError;

verus! {

/// State of the polling loop.
#[derive(Clone, Copy, Debug, PartialEq, Eq, Structural)]
pub enum DriverState {
    /// Blocked until the next trigger fires.
    Waiting,
    /// A refresh of the metric set is in progress.
    Updating,
}

/// An event the polling loop reacts to.
#[derive(Clone, Copy, Debug, PartialEq, Eq, Structural)]
pub enum DriverEvent {
    /// The trigger source unblocked: a scrape arrived or the poll interval
    /// elapsed.
    TriggerFired,
    /// The refresh finished successfully.
    UpdateSucceeded,
    /// The refresh failed with the given sensor error.
    UpdateFailed(SensorError),
}

/// What the surrounding process must do next.
#[derive(Clone, Copy, Debug, PartialEq, Eq, Structural)]
pub enum DriverAction {
    /// Block until the trigger source fires again.
    AwaitTrigger,
    /// Refresh the metric set from the sensor.
    Refresh,
    /// Terminate with the given error: update errors are fatal to the loop.
    Exit(SensorError),
}

/// Which events can occur in which state: a trigger fires only while
/// waiting, and an update finishes only while updating.
pub open spec fn event_fits(state: DriverState, event: DriverEvent) -> bool {
    match (state, event) {
        (DriverState::Waiting, DriverEvent::TriggerFired) => true,
        (DriverState::Updating, DriverEvent::UpdateSucceeded) => true,
        (DriverState::Updating, DriverEvent::UpdateFailed(_)) => true,
        _ => false,
    }
}

/// One transition of the polling loop: a trigger starts a refresh, a
/// successful refresh returns to waiting, and a failed refresh returns to
/// waiting with an order to terminate.
pub fn driver_step(state: DriverState, event: DriverEvent) -> (r: (DriverState, DriverAction))
    requires
        event_fits(state, event),
    ensures
        event is TriggerFired ==> r == (DriverState::Updating, DriverAction::Refresh),
        event is UpdateSucceeded ==> r == (DriverState::Waiting, DriverAction::AwaitTrigger),
        event is UpdateFailed ==> r == (
            DriverState::Waiting,
            DriverAction::Exit(event->UpdateFailed_0),
        ),
{
    match event {
        DriverEvent::TriggerFired => (DriverState::Updating, DriverAction::Refresh),
        DriverEvent::UpdateSucceeded => (DriverState::Waiting, DriverAction::AwaitTrigger),
        DriverEvent::UpdateFailed(e) => (DriverState::Waiting, DriverAction::Exit(e)),
    }
}

} // verus!
