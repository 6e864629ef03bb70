use idle_monitor::monitor::{
    Monitor, Position, DEFAULT_IDLE_THRESHOLD_MILLIS, DEFAULT_POLL_INTERVAL_MILLIS,
};

fn pos(x: i32, y: i32) -> Position {
    Position { x, y }
}

#[test]
fn default_configuration() {
    assert_eq!(DEFAULT_IDLE_THRESHOLD_MILLIS, 300_000);
    assert_eq!(DEFAULT_POLL_INTERVAL_MILLIS, 30_000);
}

#[test]
fn initial_state_is_active() {
    let corners = [pos(0, 0), pos(-5, 7), pos(i32::MAX, i32::MIN), pos(1920, 1080)];
    for p in corners {
        let m = Monitor::new(p, 42, DEFAULT_IDLE_THRESHOLD_MILLIS);
        assert!(m.is_active);
        assert_eq!(m.last_position, p);
        assert_eq!(m.last_activity, 42);
        assert_eq!(m.idle_threshold, DEFAULT_IDLE_THRESHOLD_MILLIS);
    }
}

#[test]
fn no_movement_idles_exactly_once() {
    // Constant position, default threshold, polls on the default cadence: one
    // notification at the first poll strictly past the threshold, none after.
    let p = pos(100, 200);
    let mut m = Monitor::new(p, 0, DEFAULT_IDLE_THRESHOLD_MILLIS);
    let mut notifications = 0;
    let mut t = DEFAULT_POLL_INTERVAL_MILLIS;
    while t <= 900_000 {
        if m.poll(p, t) {
            notifications += 1;
            // 330_000 is the first multiple of 30_000 strictly above 300_000.
            assert_eq!(t, 330_000);
        }
        t += DEFAULT_POLL_INTERVAL_MILLIS;
    }
    assert_eq!(notifications, 1);
    assert!(!m.is_active);
}

#[test]
fn movement_resets_timer() {
    // Threshold 300, polls every 30, the pointer moves every 250 ticks: the
    // observed position changes often enough that the monitor never idles.
    let mut m = Monitor::new(pos(0, 0), 0, 300);
    let mut t: u64 = 30;
    while t <= 3_000 {
        let sample = pos((t / 250) as i32, 0);
        assert!(!m.poll(sample, t));
        t += 30;
    }
    assert!(m.is_active);
}

#[test]
fn single_notification_per_idle_period() {
    let p = pos(3, 4);
    let mut m = Monitor::new(p, 0, 100);
    assert!(m.poll(p, 101));
    assert!(!m.is_active);
    // Staying put while idle never re-notifies.
    assert!(!m.poll(p, 200));
    assert!(!m.poll(p, 300));
    assert!(!m.poll(p, 10_000));
    assert!(!m.is_active);
    // Only movement followed by a fresh idle period notifies again.
    let q = pos(5, 4);
    assert!(!m.poll(q, 10_100));
    assert!(m.is_active);
    assert!(m.poll(q, 10_201));
    assert!(!m.is_active);
}

#[test]
fn reactivation_is_idempotent() {
    // However many idle periods came before, movement then a fresh idle
    // period emits exactly one notification for that period.
    let mut m = Monitor::new(pos(0, 0), 0, 100);
    let mut notifications = 0;
    let mut t: u64 = 0;
    for round in 1..=5 {
        // Movement re-activates (and the very first round stays active).
        t += 10;
        assert!(!m.poll(pos(round, 0), t));
        assert!(m.is_active);
        // A poll within the threshold is silent.
        t += 100;
        assert!(!m.poll(pos(round, 0), t));
        // One tick later the period's single notification arrives.
        t += 1;
        if m.poll(pos(round, 0), t) {
            notifications += 1;
        }
        assert!(!m.is_active);
    }
    assert_eq!(notifications, 5);
}

#[test]
fn boundary_timing_is_strict() {
    let p = pos(7, 7);
    let mut m = Monitor::new(p, 50, 100);
    // Elapsed time exactly equal to the threshold must not trigger idle.
    assert!(!m.poll(p, 150));
    assert!(m.is_active);
    // One tick past the threshold must trigger it.
    assert!(m.poll(p, 151));
    assert!(!m.is_active);
}

#[test]
fn teleport_back_is_not_movement() {
    // A pointer that returns to exactly its previous sampled coordinate does
    // not reset the timer: only position differences count as movement.
    let p = pos(500, 500);
    let mut m = Monitor::new(p, 0, 100);
    assert!(!m.poll(p, 60));
    assert!(m.poll(p, 101));
    assert!(!m.is_active);
}

#[test]
fn movement_updates_position_even_while_idle() {
    // last_position follows every observed change, whatever the state.
    let mut m = Monitor::new(pos(0, 0), 0, 100);
    assert!(m.poll(pos(0, 0), 101));
    assert!(!m.is_active);
    assert!(!m.poll(pos(9, 9), 200));
    assert_eq!(m.last_position, pos(9, 9));
    assert_eq!(m.last_activity, 200);
    assert!(m.is_active);
}
