use sensor_kit::signal::ButtonDebouncer;
use sensor_kit::signal::ButtonSignal;

#[test]
fn take_without_post_is_empty() {
    let mut s = ButtonSignal::new();
    assert!(!s.take());
    assert!(!s.take());
}

#[test]
fn one_post_one_take() {
    let mut s = ButtonSignal::new();
    s.post();
    assert!(s.take());
    assert!(!s.take());
}

#[test]
fn burst_collapses_to_one_switch() {
    // Five presses before the consumer looks produce exactly one
    // pending switch, not five.
    let mut s = ButtonSignal::new();
    for _ in 0..5 {
        s.post();
    }
    assert!(s.take());
    assert!(!s.take());
}

#[test]
fn debouncer_suppresses_bounce_within_refractory_interval() {
    let mut s = ButtonSignal::new();
    let mut d = ButtonDebouncer::new(200);
    // A mechanical bounce: edges at 1000, 1050, 1120 ms.
    assert!(d.on_press_edge(1000, &mut s));
    assert!(!d.on_press_edge(1050, &mut s));
    assert!(!d.on_press_edge(1120, &mut s));
    assert!(s.take());
    assert!(!s.take());
    // The next press beyond the interval is accepted again.
    assert!(d.on_press_edge(1200, &mut s));
    assert!(s.take());
}

#[test]
fn debouncer_accepts_spaced_presses() {
    let mut s = ButtonSignal::new();
    let mut d = ButtonDebouncer::new(200);
    assert!(d.on_press_edge(0, &mut s));
    assert!(s.take());
    assert!(d.on_press_edge(300, &mut s));
    assert!(s.take());
    assert!(d.on_press_edge(600, &mut s));
    assert!(s.take());
}
