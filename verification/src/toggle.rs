//! The `Toggle` reference algorithm: a congestion window that flips between
//! two configured extremes every fixed interval, skipping the flip while the
//! connection is app-limited.

use vstd::prelude::*;

use crate::controller::{AnyController, Controller, ControllerFactory, RttEstimator};

verus! {

/// Configuration for the [`Toggle`] congestion controller: the two window
/// extremes and the interval between flips.  The two bounds need not be
/// ordered or distinct; callers are responsible for supplying sane values.
#[derive(Clone, Copy, Debug, PartialEq, Eq)]
pub struct ToggleConfig {
    /// The two congestion-window extremes, in bytes.  A fresh controller
    /// starts at `windows.0`.
    pub windows: (u64, u64),
    /// Duration between window flips, in nanoseconds.
    pub toggle_time: u64,
}

impl ToggleConfig {
    /// Limits on the amount of outstanding data in bytes.
    pub fn windows(&mut self, values: (u64, u64))
        ensures
            final(self).windows == values,
            final(self).toggle_time == old(self).toggle_time,
    {
        self.windows = values
    }

    /// Duration to toggle between the two congestion windows.
    pub fn toggle_time(&mut self, value: u64)
        ensures
            final(self).toggle_time == value,
            final(self).windows == old(self).windows,
    {
        self.toggle_time = value
    }
}

impl Default for ToggleConfig {
    /// Windows of 3 MB and 6 MB, flipped every five seconds.
    fn default() -> (c: ToggleConfig)
        ensures
            c.windows == (3_000_000u64, 6_000_000u64),
            c.toggle_time == 5_000_000_000u64,
    {
        ToggleConfig { windows: (3_000_000, 6_000_000), toggle_time: 5_000_000_000 }
    }
}

/// A toy congestion controller: the window alternates between the two
/// configured extremes, flipping whenever a non-app-limited acknowledgment
/// arrives at least `toggle_time` after the last flip.
#[derive(Clone, Copy, Debug, PartialEq, Eq)]
pub struct Toggle {
    /// The immutable tunables this controller was built from.
    pub config: ToggleConfig,
    /// The current congestion budget: always one of the two extremes.
    pub window: u64,
    /// When the window last flipped (at construction: the build time).
    pub last_window_change: u64,
}

/// The window extreme `c` is *not* currently at: the value a flip moves to.
pub open spec fn flip_of(c: Toggle) -> u64 {
    if c.window == c.config.windows.0 {
        c.config.windows.1
    } else {
        c.config.windows.0
    }
}

/// The state after an acknowledgment at `now`: unchanged when the sample is
/// app-limited or the interval has not yet elapsed, else flipped, with the
/// flip time recorded.  An app-limited sample is discarded entirely: the
/// elapsed time is not reset, so a delayed flip can still occur on the next
/// non-app-limited acknowledgment.
pub open spec fn ack_step(c: Toggle, now: u64, app_limited: bool) -> Toggle {
    if app_limited {
        c
    } else if now - c.last_window_change >= c.config.toggle_time {
        Toggle { config: c.config, window: flip_of(c), last_window_change: now }
    } else {
        c
    }
}

impl Toggle {
    /// Construct a state using the given `config` and current time `now`.
    /// The window starts at the first configured bound.
    pub fn new(config: ToggleConfig, now: u64, _current_mtu: u16) -> (c: Toggle)
        ensures
            c.config == config,
            c.window == config.windows.0,
            c.last_window_change == now,
            c.wf(),
    {
        Toggle { window: config.windows.0, last_window_change: now, config }
    }

    /// An independent copy with identical observable state, behind the
    /// indirection the engine stores controllers under.
    pub fn clone_box(&self) -> (b: Box<Toggle>)
        ensures
            *b == *self,
    {
        Box::new(*self)
    }

    /// Give up the concrete type for the engine-facing handle, from which
    /// [`AnyController::into_toggle`] recovers it.
    pub fn into_any(self) -> (a: AnyController)
        ensures
            a == AnyController::Toggle(self),
    {
        AnyController::Toggle(self)
    }
}

impl Controller for Toggle {
    /// The window is always at one of the two configured extremes.
    open spec fn wf(&self) -> bool {
        self.window == self.config.windows.0 || self.window == self.config.windows.1
    }

    open spec fn spec_window(&self) -> u64 {
        self.window
    }

    /// Always the first configured bound.
    open spec fn spec_initial_window(&self) -> u64 {
        self.config.windows.0
    }

    /// The clock never runs backwards past the last flip.
    open spec fn event_ready(&self, now: u64) -> bool {
        now >= self.last_window_change
    }

    /// Only `now` and `app_limited` matter: see [`ack_step`].
    open spec fn ack_state(
        &self,
        now: u64,
        sent: u64,
        bytes: u64,
        app_limited: bool,
        rtt: RttEstimator,
    ) -> Toggle {
        ack_step(*self, now, app_limited)
    }

    /// Loss never moves the window: the algorithm reacts to its timer only.
    open spec fn congestion_state(
        &self,
        now: u64,
        sent: u64,
        is_persistent_congestion: bool,
        lost_bytes: u64,
    ) -> Toggle {
        *self
    }

    /// MTU changes never move the window.
    open spec fn mtu_state(&self, new_mtu: u16) -> Toggle {
        *self
    }

    fn on_ack(
        &mut self,
        now: u64,
        _sent: u64,
        _bytes: u64,
        app_limited: bool,
        _rtt: &RttEstimator,
    ) {
        if app_limited {
            return;
        }
        if now - self.last_window_change >= self.config.toggle_time {
            if self.window == self.config.windows.0 {
                self.window = self.config.windows.1;
            } else {
                self.window = self.config.windows.0;
            }
            self.last_window_change = now;
        }
    }

    fn on_congestion_event(
        &mut self,
        _now: u64,
        _sent: u64,
        _is_persistent_congestion: bool,
        _lost_bytes: u64,
    ) {
    }

    fn on_mtu_update(&mut self, _new_mtu: u16) {
    }

    fn window(&self) -> u64 {
        self.window
    }

    fn initial_window(&self) -> u64 {
        self.config.windows.0
    }
}

impl ControllerFactory for ToggleConfig {
    type Ctrl = Toggle;

    open spec fn built(&self, now: u64, current_mtu: u16) -> Toggle {
        Toggle { config: *self, window: self.windows.0, last_window_change: now }
    }

    /// One controller per connection or path, sharing this configuration.
    fn build(&self, now: u64, current_mtu: u16) -> Toggle {
        Toggle::new(*self, now, current_mtu)
    }
}

} // verus!
