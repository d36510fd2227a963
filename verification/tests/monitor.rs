use frame_graph::{Dimensions, RenderGraph};

fn dims(width: u32, height: u32) -> Dimensions {
    Dimensions::new(width, height)
}

fn observe_each(monitor: &mut RenderGraph, stream: &[(u32, u32)]) -> Vec<bool> {
    let mut signals = Vec::new();
    for (w, h) in stream {
        signals.push(monitor.observe(dims(*w, *h)));
    }
    signals
}

#[test]
fn constant_stream_signals_on_second_observation_only() {
    let mut monitor = RenderGraph::new();
    let signals = observe_each(&mut monitor, &[(800, 600), (800, 600), (800, 600)]);
    assert_eq!(signals, vec![false, true, false]);
    assert_eq!(monitor.confirmed(), Some(dims(800, 600)));
    assert_eq!(monitor.pending(), None);
}

#[test]
fn long_constant_stream_signals_once() {
    let mut monitor = RenderGraph::new();
    let mut count = 0;
    for i in 0..50 {
        let signal = monitor.observe(dims(1024, 768));
        assert_eq!(signal, i == 1);
        if signal {
            count += 1;
        }
    }
    assert_eq!(count, 1);
}

#[test]
fn continuous_change_defers_until_stable() {
    let mut monitor = RenderGraph::new();
    let signals =
        observe_each(&mut monitor, &[(800, 600), (801, 600), (802, 600), (802, 600)]);
    assert_eq!(signals, vec![false, false, false, true]);
    assert_eq!(monitor.confirmed(), Some(dims(802, 600)));
}

#[test]
fn first_observation_arms_without_signal() {
    let mut monitor = RenderGraph::new();
    assert_eq!(monitor.confirmed(), None);
    assert_eq!(monitor.pending(), None);
    assert!(!monitor.observe(dims(640, 480)));
    assert_eq!(monitor.confirmed(), None);
    assert_eq!(monitor.pending(), Some(dims(640, 480)));
}

#[test]
fn default_monitor_is_fresh() {
    let mut monitor = RenderGraph::default();
    assert_eq!(monitor.confirmed(), None);
    assert_eq!(monitor.pending(), None);
    assert_eq!(monitor.surface_format(), None);
    assert!(!monitor.observe(dims(10, 10)));
    assert!(monitor.observe(dims(10, 10)));
}

#[test]
fn steady_state_change_needs_two_observations() {
    let mut monitor = RenderGraph::new();
    observe_each(&mut monitor, &[(800, 600), (800, 600)]);
    assert!(!monitor.observe(dims(1280, 720)));
    assert_eq!(monitor.confirmed(), Some(dims(800, 600)));
    assert_eq!(monitor.pending(), Some(dims(1280, 720)));
    assert!(monitor.observe(dims(1280, 720)));
    assert_eq!(monitor.confirmed(), Some(dims(1280, 720)));
    assert!(!monitor.observe(dims(1280, 720)));
}

#[test]
fn returning_to_confirmed_extent_while_armed_confirms_it_again() {
    let mut monitor = RenderGraph::new();
    observe_each(&mut monitor, &[(800, 600), (800, 600)]);
    let signals = observe_each(&mut monitor, &[(900, 600), (800, 600), (800, 600), (800, 600)]);
    assert_eq!(signals, vec![false, false, true, false]);
}

#[test]
fn differing_neighbours_never_signal() {
    let mut monitor = RenderGraph::new();
    for i in 0..40u32 {
        assert!(!monitor.observe(dims(800 + i, 600)));
    }
    for i in 0..40u32 {
        assert!(!monitor.observe(dims(800, 600 + (i % 2))));
    }
}

#[test]
fn width_and_height_both_count() {
    let mut monitor = RenderGraph::new();
    let signals = observe_each(&mut monitor, &[(800, 600), (600, 800), (600, 800), (600, 801)]);
    assert_eq!(signals, vec![false, false, true, false]);
}

#[test]
fn zero_extent_never_signals() {
    let mut fresh = RenderGraph::new();
    assert!(!fresh.observe(dims(0, 0)));
    assert!(!fresh.observe(dims(0, 0)));
    assert!(!fresh.observe(dims(0, 0)));
    assert_eq!(fresh.confirmed(), None);
    assert_eq!(fresh.pending(), None);

    let mut armed = RenderGraph::new();
    armed.observe(dims(800, 600));
    assert!(!armed.observe(dims(0, 0)));
    assert!(!armed.observe(dims(0, 0)));
    assert_eq!(armed.pending(), Some(dims(800, 600)));

    let mut steady = RenderGraph::new();
    observe_each(&mut steady, &[(800, 600), (800, 600)]);
    assert!(!steady.observe(dims(0, 0)));
    assert!(!steady.observe(dims(0, 0)));
    assert_eq!(steady.confirmed(), Some(dims(800, 600)));
    assert_eq!(steady.pending(), None);
}

#[test]
fn one_sided_zero_extent_is_ignored() {
    let mut monitor = RenderGraph::new();
    let signals = observe_each(&mut monitor, &[(0, 600), (0, 600), (800, 0), (800, 0)]);
    assert_eq!(signals, vec![false, false, false, false]);
    assert_eq!(monitor.confirmed(), None);
    assert_eq!(monitor.pending(), None);
}

#[test]
fn zero_extent_leaves_armed_debounce_in_place() {
    let mut monitor = RenderGraph::new();
    let signals = observe_each(&mut monitor, &[(800, 600), (0, 0), (800, 600)]);
    assert_eq!(signals, vec![false, false, true]);
}

#[test]
fn dimensions_validity() {
    assert!(dims(1, 1).is_valid());
    assert!(dims(u32::MAX, u32::MAX).is_valid());
    assert!(!dims(0, 1).is_valid());
    assert!(!dims(1, 0).is_valid());
    assert!(!dims(0, 0).is_valid());
    assert_eq!(dims(3, 4), Dimensions { width: 3, height: 4 });
    assert_ne!(dims(3, 4), dims(4, 3));
}

#[test]
fn forced_initial_build_confirms_at_once() {
    let mut monitor = RenderGraph::new();
    assert!(!monitor.observe(dims(800, 600)));
    assert!(monitor.force_initial_build(dims(800, 600)));
    assert_eq!(monitor.confirmed(), Some(dims(800, 600)));
    assert_eq!(monitor.pending(), None);
    assert!(!monitor.observe(dims(800, 600)));
    assert!(!monitor.observe(dims(800, 600)));
}

#[test]
fn forced_initial_build_is_for_the_first_graph_only() {
    let mut fresh = RenderGraph::new();
    assert!(!fresh.force_initial_build(dims(0, 600)));
    assert_eq!(fresh.confirmed(), None);

    let mut monitor = RenderGraph::new();
    monitor.observe(dims(800, 600));
    monitor.observe(dims(800, 600));
    assert!(!monitor.observe(dims(1024, 768)));
    assert!(!monitor.force_initial_build(dims(1024, 768)));
    assert_eq!(monitor.confirmed(), Some(dims(800, 600)));
    assert_eq!(monitor.pending(), Some(dims(1024, 768)));
    assert!(monitor.observe(dims(1024, 768)));
}
