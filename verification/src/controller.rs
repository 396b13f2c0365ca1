//! The capability sets a transport engine drives: `Controller` for
//! per-connection congestion state and `ControllerFactory` for building one
//! controller per connection or path.

use vstd::prelude::*;

use crate::toggle::Toggle;

verus! {

/// Read-only snapshot of the engine's round-trip-time estimator, handed to
/// the controller on every acknowledgment.  Algorithms that do not estimate
/// bandwidth (such as [`Toggle`]) ignore it.
#[derive(Clone, Copy, Debug, PartialEq, Eq)]
pub struct RttEstimator {
    /// Current smoothed round-trip time, in nanoseconds.
    pub smoothed_rtt: u64,
}

/// A per-connection congestion controller.
///
/// The engine calls the event methods in the temporal order of the events
/// (`now` never decreases across calls on one instance) and reads `window`
/// before admitting new data to the wire.  Each implementation publishes its
/// exact transition behaviour through the spec functions, so callers that
/// know the concrete algorithm can reason about every state change, while
/// generic callers still learn that events are deterministic, never fail,
/// and keep `initial_window` stable for the lifetime of the object.
pub trait Controller: Sized {
    /// Well-formedness: holds of every reachable state.
    spec fn wf(&self) -> bool;

    /// The current congestion budget in bytes, as `window` reports it.
    spec fn spec_window(&self) -> u64;

    /// The budget to use before the first acknowledgment arrives.
    spec fn spec_initial_window(&self) -> u64;

    /// When an event carrying the clock reading `now` may be delivered:
    /// the ordering assumption the algorithm's correctness rests on.
    spec fn event_ready(&self, now: u64) -> bool;

    /// The state after an acknowledgment event.
    spec fn ack_state(
        &self,
        now: u64,
        sent: u64,
        bytes: u64,
        app_limited: bool,
        rtt: RttEstimator,
    ) -> Self;

    /// The state after a loss event.
    spec fn congestion_state(
        &self,
        now: u64,
        sent: u64,
        is_persistent_congestion: bool,
        lost_bytes: u64,
    ) -> Self;

    /// The state after a path-MTU change.
    spec fn mtu_state(&self, new_mtu: u16) -> Self;

    /// A packet sent at `sent` was acknowledged at `now`, carrying `bytes`
    /// of useful data; `app_limited` marks a sample taken while the
    /// connection had nothing more to send.  May change the window; never
    /// fails.
    fn on_ack(
        &mut self,
        now: u64,
        sent: u64,
        bytes: u64,
        app_limited: bool,
        rtt: &RttEstimator,
    )
        requires
            old(self).wf(),
            old(self).event_ready(now),
        ensures
            *final(self) == old(self).ack_state(now, sent, bytes, app_limited, *rtt),
            final(self).wf(),
            final(self).spec_initial_window() == old(self).spec_initial_window(),
    ;

    /// Loss of a packet sent at `sent` was detected at `now`.  May change
    /// the window for real algorithms; never fails.
    fn on_congestion_event(
        &mut self,
        now: u64,
        sent: u64,
        is_persistent_congestion: bool,
        lost_bytes: u64,
    )
        requires
            old(self).wf(),
            old(self).event_ready(now),
        ensures
            *final(self) == old(self).congestion_state(now, sent, is_persistent_congestion, lost_bytes),
            final(self).wf(),
            final(self).spec_initial_window() == old(self).spec_initial_window(),
    ;

    /// The path MTU changed.
    fn on_mtu_update(&mut self, new_mtu: u16)
        requires
            old(self).wf(),
        ensures
            *final(self) == old(self).mtu_state(new_mtu),
            final(self).wf(),
            final(self).spec_initial_window() == old(self).spec_initial_window(),
    ;

    /// The current congestion budget in bytes; queryable at any time,
    /// without side effects.
    fn window(&self) -> (w: u64)
        requires
            self.wf(),
        ensures
            w == self.spec_window(),
    ;

    /// The budget to use before the first acknowledgment arrives; stable
    /// for the lifetime of the object.
    fn initial_window(&self) -> (w: u64)
        requires
            self.wf(),
        ensures
            w == self.spec_initial_window(),
    ;
}

/// Builds fresh controllers from shared immutable configuration.  One
/// factory value serves every connection and path that uses the same
/// tunables; each call returns an independently mutable controller.
pub trait ControllerFactory: Sized {
    /// The concrete controller this factory builds.
    type Ctrl: Controller;

    /// The controller built from `now` and `current_mtu`: building is
    /// deterministic in the configuration and these two seeds.
    spec fn built(&self, now: u64, current_mtu: u16) -> Self::Ctrl;

    /// Construct the controller for a new connection or path, seeded with
    /// the current time and path MTU.
    fn build(&self, now: u64, current_mtu: u16) -> (c: Self::Ctrl)
        ensures
            c == self.built(now, current_mtu),
            c.wf(),
            c.spec_window() == c.spec_initial_window(),
    ;
}

/// The controller variants the engine can hold behind one handle, with the
/// concrete algorithm recoverable by an explicit, checked downcast
/// ([`AnyController::into_toggle`]) instead of an unchecked cast.
#[derive(Clone, Copy, Debug, PartialEq, Eq)]
pub enum AnyController {
    /// The two-level oscillating reference algorithm.
    Toggle(Toggle),
}

impl AnyController {
    /// Recover the concrete [`Toggle`] from the abstract handle.  Succeeds
    /// exactly when the handle stores that variant; a mismatch reports
    /// `None` rather than crashing.
    pub fn into_toggle(self) -> (r: Option<Toggle>)
        ensures
            (match self {
                AnyController::Toggle(t) => r == Some(t),
            }),
    {
        match self {
            AnyController::Toggle(t) => Some(t),
        }
    }
}

/// Every event on the handle is the same event on the variant inside it.
impl Controller for AnyController {
    open spec fn wf(&self) -> bool {
        match self {
            AnyController::Toggle(t) => t.wf(),
        }
    }

    open spec fn spec_window(&self) -> u64 {
        match self {
            AnyController::Toggle(t) => t.spec_window(),
        }
    }

    open spec fn spec_initial_window(&self) -> u64 {
        match self {
            AnyController::Toggle(t) => t.spec_initial_window(),
        }
    }

    open spec fn event_ready(&self, now: u64) -> bool {
        match self {
            AnyController::Toggle(t) => t.event_ready(now),
        }
    }

    open spec fn ack_state(
        &self,
        now: u64,
        sent: u64,
        bytes: u64,
        app_limited: bool,
        rtt: RttEstimator,
    ) -> AnyController {
        match self {
            AnyController::Toggle(t) => AnyController::Toggle(
                t.ack_state(now, sent, bytes, app_limited, rtt),
            ),
        }
    }

    open spec fn congestion_state(
        &self,
        now: u64,
        sent: u64,
        is_persistent_congestion: bool,
        lost_bytes: u64,
    ) -> AnyController {
        match self {
            AnyController::Toggle(t) => AnyController::Toggle(
                t.congestion_state(now, sent, is_persistent_congestion, lost_bytes),
            ),
        }
    }

    open spec fn mtu_state(&self, new_mtu: u16) -> AnyController {
        match self {
            AnyController::Toggle(t) => AnyController::Toggle(t.mtu_state(new_mtu)),
        }
    }

    fn on_ack(
        &mut self,
        now: u64,
        sent: u64,
        bytes: u64,
        app_limited: bool,
        rtt: &RttEstimator,
    ) {
        match self {
            AnyController::Toggle(t) => t.on_ack(now, sent, bytes, app_limited, rtt),
        }
    }

    fn on_congestion_event(
        &mut self,
        now: u64,
        sent: u64,
        is_persistent_congestion: bool,
        lost_bytes: u64,
    ) {
        match self {
            AnyController::Toggle(t) => {
                t.on_congestion_event(now, sent, is_persistent_congestion, lost_bytes)
            },
        }
    }

    fn on_mtu_update(&mut self, new_mtu: u16) {
        match self {
            AnyController::Toggle(t) => t.on_mtu_update(new_mtu),
        }
    }

    fn window(&self) -> u64 {
        match self {
            AnyController::Toggle(t) => t.window(),
        }
    }

    fn initial_window(&self) -> u64 {
        match self {
            AnyController::Toggle(t) => t.initial_window(),
        }
    }
}

} // verus!
