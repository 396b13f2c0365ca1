use congestion_toggle::controller::{AnyController, Controller, ControllerFactory, RttEstimator};
use congestion_toggle::toggle::{Toggle, ToggleConfig};

fn rtt() -> RttEstimator {
    RttEstimator { smoothed_rtt: 100_000_000 }
}

#[test]
fn default_config_values() {
    let config = ToggleConfig::default();
    assert_eq!(config.windows, (3_000_000, 6_000_000));
    assert_eq!(config.toggle_time, 5_000_000_000);
}

#[test]
fn initial_values_after_build() {
    let config = ToggleConfig::default();
    let c = config.build(0, 1500);
    assert_eq!(c.initial_window(), 3_000_000);
    assert_eq!(c.window(), 3_000_000);
}

#[test]
fn concrete_scenario() {
    let config = ToggleConfig::default();
    let mut c = config.build(0, 1500);
    assert_eq!(c.window(), 3_000_000);
    c.on_ack(5_000_000_000, 4_900_000_000, 1200, false, &rtt());
    assert_eq!(c.window(), 6_000_000);
    assert_eq!(c.last_window_change, 5_000_000_000);
    c.on_ack(6_000_000_000, 5_900_000_000, 1200, true, &rtt());
    assert_eq!(c.window(), 6_000_000);
    c.on_ack(10_000_000_000, 9_900_000_000, 1200, false, &rtt());
    assert_eq!(c.window(), 3_000_000);
}

#[test]
fn timer_gated_flip() {
    let config = ToggleConfig::default();
    let mut c = config.build(0, 1500);
    c.on_ack(5_000_000_000, 0, 1200, false, &rtt());
    assert_eq!(c.window(), 6_000_000);
    // One nanosecond short of the interval: no flip.
    c.on_ack(9_999_999_999, 0, 1200, false, &rtt());
    assert_eq!(c.window(), 6_000_000);
    assert_eq!(c.last_window_change, 5_000_000_000);
    // Exactly at the interval: flips exactly once.
    c.on_ack(10_000_000_000, 0, 1200, false, &rtt());
    assert_eq!(c.window(), 3_000_000);
    assert_eq!(c.last_window_change, 10_000_000_000);
}

#[test]
fn app_limited_ack_changes_nothing() {
    let config = ToggleConfig::default();
    let mut c = config.build(0, 1500);
    // Far past the interval, but app-limited: sample discarded entirely.
    c.on_ack(50_000_000_000, 0, 1200, true, &rtt());
    assert_eq!(c.window(), 3_000_000);
    assert_eq!(c.last_window_change, 0);
    // The elapsed time was not reset: the very next useful ack flips.
    c.on_ack(50_000_000_001, 0, 1200, false, &rtt());
    assert_eq!(c.window(), 6_000_000);
}

#[test]
fn no_spurious_transitions() {
    let config = ToggleConfig::default();
    let mut c = config.build(0, 1500);
    c.on_congestion_event(6_000_000_000, 5_000_000_000, false, 1200);
    c.on_mtu_update(1400);
    c.on_congestion_event(20_000_000_000, 19_000_000_000, true, 40_000);
    c.on_mtu_update(9000);
    c.on_congestion_event(30_000_000_000, 29_000_000_000, false, 600);
    assert_eq!(c.window(), 3_000_000);
    assert_eq!(c.last_window_change, 0);
}

#[test]
fn zero_interval_flips_every_useful_ack() {
    let mut config = ToggleConfig::default();
    config.toggle_time(0);
    let mut c = config.build(0, 1500);
    c.on_ack(0, 0, 1, false, &rtt());
    assert_eq!(c.window(), 6_000_000);
    c.on_ack(0, 0, 1, false, &rtt());
    assert_eq!(c.window(), 3_000_000);
    c.on_ack(1, 0, 1, false, &rtt());
    assert_eq!(c.window(), 6_000_000);
    c.on_ack(1, 0, 1, true, &rtt());
    assert_eq!(c.window(), 6_000_000);
}

#[test]
fn clone_independence() {
    let config = ToggleConfig::default();
    let mut original = config.build(0, 1500);
    let copy = original.clone();
    original.on_ack(5_000_000_000, 0, 1200, false, &rtt());
    assert_eq!(original.window(), 6_000_000);
    assert_eq!(copy.window(), 3_000_000);

    let mut driven_copy = original.clone();
    assert_eq!(driven_copy.window(), 6_000_000);
    driven_copy.on_ack(10_000_000_000, 0, 1200, false, &rtt());
    assert_eq!(driven_copy.window(), 3_000_000);
    assert_eq!(original.window(), 6_000_000);
}

#[test]
fn clone_box_copies_observable_state() {
    let config = ToggleConfig::default();
    let mut c = config.build(0, 1500);
    c.on_ack(5_000_000_000, 0, 1200, false, &rtt());
    let b = c.clone_box();
    assert_eq!(b.window(), c.window());
    assert_eq!(b.last_window_change, c.last_window_change);
    c.on_ack(10_000_000_000, 0, 1200, false, &rtt());
    assert_eq!(b.window(), 6_000_000);
    assert_eq!(c.window(), 3_000_000);
}

#[test]
fn setters_replace_configuration() {
    let mut config = ToggleConfig::default();
    config.windows((10_000, 20_000));
    config.toggle_time(1_000_000_000);
    assert_eq!(config.windows, (10_000, 20_000));
    assert_eq!(config.toggle_time, 1_000_000_000);
    let mut c = config.build(100, 1500);
    assert_eq!(c.window(), 10_000);
    c.on_ack(1_000_000_100, 0, 1, false, &rtt());
    assert_eq!(c.window(), 20_000);
}

#[test]
fn unordered_extremes_are_allowed() {
    let mut config = ToggleConfig::default();
    config.windows((8_000_000, 1_000_000));
    let mut c = config.build(0, 1500);
    assert_eq!(c.initial_window(), 8_000_000);
    assert_eq!(c.window(), 8_000_000);
    c.on_ack(5_000_000_000, 0, 1200, false, &rtt());
    assert_eq!(c.window(), 1_000_000);
}

#[test]
fn equal_extremes_still_record_flips() {
    let mut config = ToggleConfig::default();
    config.windows((4_000_000, 4_000_000));
    let mut c = config.build(0, 1500);
    c.on_ack(5_000_000_000, 0, 1200, false, &rtt());
    assert_eq!(c.window(), 4_000_000);
    assert_eq!(c.last_window_change, 5_000_000_000);
}

#[test]
fn mtu_seed_does_not_affect_state() {
    let config = ToggleConfig::default();
    let small = config.build(7, 1200);
    let large = config.build(7, 9000);
    assert_eq!(small.window(), large.window());
    assert_eq!(small.last_window_change, large.last_window_change);
}

#[test]
fn type_recovery_round_trip() {
    let config = ToggleConfig::default();
    let c = Toggle::new(config, 42, 1500);
    let any = c.into_any();
    let back = any.into_toggle().expect("the handle stores a Toggle");
    assert_eq!(back.window(), 3_000_000);
    assert_eq!(back.last_window_change, 42);
}

#[test]
fn events_drive_the_handle_like_the_variant() {
    let config = ToggleConfig::default();
    let mut handle = config.build(0, 1500).into_any();
    let mut direct = config.build(0, 1500);
    assert_eq!(handle.window(), 3_000_000);
    assert_eq!(handle.initial_window(), 3_000_000);
    handle.on_ack(5_000_000_000, 0, 1200, false, &rtt());
    direct.on_ack(5_000_000_000, 0, 1200, false, &rtt());
    assert_eq!(handle.window(), direct.window());
    handle.on_congestion_event(6_000_000_000, 0, true, 1200);
    handle.on_mtu_update(1400);
    assert_eq!(handle.window(), 6_000_000);
    let recovered = handle.into_toggle().expect("the handle stores a Toggle");
    assert_eq!(recovered, direct);
}
