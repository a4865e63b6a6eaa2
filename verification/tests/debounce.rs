use detection_filters::clock::TickError;
use detection_filters::edge_timer::EdgeTimer;

const MILLISECOND: u64 = 1_000_000;

#[test]
fn rising_edge_records_time() {
    let mut timer = EdgeTimer::new();
    assert_eq!(timer.edge_time, 0);
    assert!(!timer.previous_level);

    timer.observe(false, 10);
    assert_eq!(timer.edge_time, 0);

    timer.observe(true, 20);
    assert_eq!(timer.edge_time, 20);
    assert!(timer.previous_level);

    // The edge time is not updated while the condition stays true.
    timer.observe(true, 30);
    assert_eq!(timer.edge_time, 20);

    // Nor while it is false; only the next rising edge moves it.
    timer.observe(false, 40);
    assert_eq!(timer.edge_time, 20);
    timer.observe(true, 50);
    assert_eq!(timer.edge_time, 50);
}

#[test]
fn button_style_scenario_timeout_500ms() {
    // Condition false until t = 0, true continuously from t = 0 on, with a
    // required duration of 500 ms: unstable for all query times in
    // [0 ms, 500 ms) and stable for all query times at or past 500 ms.
    let timeout: u64 = 500 * MILLISECOND;
    let mut timer = EdgeTimer::new();
    timer.observe(false, 0);
    timer.observe(true, 0);

    let unstable_queries = [
        0,
        1,
        MILLISECOND,
        250 * MILLISECOND,
        500 * MILLISECOND - 1,
    ];
    for now in unstable_queries {
        assert_eq!(timer.is_stable(now, timeout), Ok(false));
    }

    let stable_queries = [
        500 * MILLISECOND,
        500 * MILLISECOND + 1,
        1_000 * MILLISECOND,
        10_000 * MILLISECOND,
    ];
    for now in stable_queries {
        assert_eq!(timer.is_stable(now, timeout), Ok(true));
    }
}

#[test]
fn chatter_faster_than_timeout_never_stabilizes() {
    // A condition oscillating with a 100 ms period never reaches stability
    // under a 500 ms requirement: every true observation is a fresh edge.
    let timeout: u64 = 500 * MILLISECOND;
    let mut timer = EdgeTimer::new();
    let mut now: u64 = 0;
    for tick in 0..100u64 {
        let level = tick % 2 == 0;
        timer.observe(level, now);
        if level {
            assert_eq!(timer.is_stable(now, timeout), Ok(false));
        }
        now += 100 * MILLISECOND;
    }
}

#[test]
fn lapse_to_false_resets_the_point_of_stability() {
    let timeout: u64 = 500 * MILLISECOND;
    let mut timer = EdgeTimer::new();
    timer.observe(true, 0);
    timer.observe(false, 300 * MILLISECOND);
    timer.observe(true, 400 * MILLISECOND);
    // 500 ms after the first edge, but only 100 ms after the latest one.
    assert_eq!(timer.is_stable(500 * MILLISECOND, timeout), Ok(false));
    assert_eq!(timer.is_stable(900 * MILLISECOND, timeout), Ok(true));
}

#[test]
fn query_before_edge_is_a_clock_fault() {
    let mut timer = EdgeTimer::new();
    timer.observe(true, 100);
    assert_eq!(timer.is_stable(50, 10), Err(TickError::ClockNonMonotonic));
}
