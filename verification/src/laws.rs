//! The guarantees the [`Toggle`](crate::toggle::Toggle) algorithm makes to
//! the rest of the transport stack, each stated and proved over the open
//! transition functions its contracts use.

use vstd::prelude::*;

use crate::controller::{Controller, RttEstimator};
use crate::toggle::{ack_step, flip_of, Toggle};

verus! {

/// In every reachable (well-formed) state the reported window is one of the
/// two configured extremes, never an intermediate value.
pub proof fn lemma_window_within_extremes(c: Toggle)
    requires
        c.wf(),
    ensures
        c.spec_window() == c.config.windows.0 || c.spec_window() == c.config.windows.1,
{
}

/// A loss or MTU event delivered to a `Toggle`, with no acknowledgment in
/// between.
pub enum NonAckEvent {
    /// Loss was detected at `now` for a packet sent at `sent`.
    Congestion { now: u64, sent: u64, is_persistent_congestion: bool, lost_bytes: u64 },
    /// The path MTU changed.
    MtuUpdate { new_mtu: u16 },
}

/// The state after one loss or MTU event.
pub open spec fn non_ack_state(c: Toggle, e: NonAckEvent) -> Toggle {
    match e {
        NonAckEvent::Congestion { now, sent, is_persistent_congestion, lost_bytes } => c
            .congestion_state(now, sent, is_persistent_congestion, lost_bytes),
        NonAckEvent::MtuUpdate { new_mtu } => c.mtu_state(new_mtu),
    }
}

/// The state after a whole sequence of loss and MTU events, oldest first.
pub open spec fn non_ack_run(c: Toggle, events: Seq<NonAckEvent>) -> Toggle
    decreases events.len(),
{
    if events.len() == 0 {
        c
    } else {
        non_ack_run(non_ack_state(c, events[0]), events.drop_first())
    }
}

/// No spurious transitions: a sequence of loss and MTU events of any length
/// and order, with no acknowledgment among them, leaves a `Toggle` — and so
/// its window — exactly as it was.
pub proof fn lemma_no_spurious_transitions(c: Toggle, events: Seq<NonAckEvent>)
    ensures
        non_ack_run(c, events) == c,
    decreases events.len(),
{
    if events.len() > 0 {
        lemma_no_spurious_transitions(c, events.drop_first());
    }
}

/// App-limited suppression: an acknowledgment taken while the connection
/// had nothing to send changes neither the window nor the time of the last
/// change, however much time has elapsed and whatever the other inputs.
pub proof fn lemma_app_limited_suppression(
    c: Toggle,
    now: u64,
    sent: u64,
    bytes: u64,
    rtt: RttEstimator,
)
    ensures
        c.ack_state(now, sent, bytes, true, rtt) == c,
{
}

/// Timer-gated flip: a non-app-limited acknowledgment before the interval
/// has elapsed changes nothing; one at or past it flips the window to the
/// other extreme — a change whenever the extremes differ — and records the
/// flip time, from which the next interval is measured.
pub proof fn lemma_timer_gated_flip(
    c: Toggle,
    now: u64,
    sent: u64,
    bytes: u64,
    rtt: RttEstimator,
)
    requires
        c.event_ready(now),
    ensures
        c.ack_state(now, sent, bytes, false, rtt) == ack_step(c, now, false),
        now - c.last_window_change < c.config.toggle_time ==> ack_step(c, now, false) == c,
        now - c.last_window_change >= c.config.toggle_time ==> ack_step(c, now, false)
            == (Toggle { config: c.config, window: flip_of(c), last_window_change: now }),
        c.wf() && c.config.windows.0 != c.config.windows.1
            && now - c.last_window_change >= c.config.toggle_time
            ==> ack_step(c, now, false).window != c.window,
{
}

/// Zero-interval edge case: with a toggle interval of zero, every
/// non-app-limited acknowledgment flips the window and records the flip.
pub proof fn lemma_zero_interval_always_flips(
    c: Toggle,
    now: u64,
    sent: u64,
    bytes: u64,
    rtt: RttEstimator,
)
    requires
        c.config.toggle_time == 0,
        c.event_ready(now),
    ensures
        c.ack_state(now, sent, bytes, false, rtt)
            == (Toggle { config: c.config, window: flip_of(c), last_window_change: now }),
{
}

/// The time of the last window change never decreases, and it moves only at
/// the moment a flip occurs, to the time of that flip.
pub proof fn lemma_last_change_monotonic(c: Toggle, now: u64, app_limited: bool)
    requires
        c.event_ready(now),
    ensures
        ack_step(c, now, app_limited).last_window_change >= c.last_window_change,
        ack_step(c, now, app_limited).last_window_change != c.last_window_change
            ==> ack_step(c, now, app_limited).window == flip_of(c)
                && ack_step(c, now, app_limited).last_window_change == now,
{
}

} // verus!
