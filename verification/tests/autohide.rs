use augment_vol_brt_man::overlay::OverlayTimer;

#[test]
fn overlay_starts_hidden() {
    let t = OverlayTimer::new();
    assert!(!t.visible);
    assert!(!t.pending);
}

#[test]
fn a_request_shows_the_window() {
    let mut t = OverlayTimer::new();
    t.on_request();
    assert!(t.visible);
    assert!(t.pending);
}

#[test]
fn rapid_requests_keep_the_window_visible() {
    let mut t = OverlayTimer::new();
    t.on_request();
    for _ in 0..10 {
        // A request lands within every slow-hide interval: each tick
        // finds one pending and leaves the window up.
        let hide = t.on_hide_tick();
        assert!(!hide);
        assert!(t.visible);
        t.on_request();
        assert!(t.visible);
    }
}

#[test]
fn a_quiet_interval_hides_the_window() {
    let mut t = OverlayTimer::new();
    t.on_request();
    assert!(t.visible);
    let hide = t.on_hide_tick();
    assert!(!hide);
    assert!(t.visible);
    // No request before the next tick: the window goes down.
    let hide = t.on_hide_tick();
    assert!(hide);
    assert!(!t.visible);
}

#[test]
fn hide_tick_on_a_hidden_window_stays_hidden() {
    let mut t = OverlayTimer::new();
    let hide = t.on_hide_tick();
    assert!(hide);
    assert!(!t.visible);
}
