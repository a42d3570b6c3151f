use sensor_query::error::QueryError;
use sensor_query::planner::{
    plan_range, plan_span, plan_span_text, window_ms, QueryPlan, StoreBounds, MIN_WINDOW_MS, TOO_LONG,
};

#[test]
fn window_has_a_floor_of_thirty_seconds() {
    assert_eq!(window_ms(0), 30_000);
    assert_eq!(window_ms(1), 30_000);
    assert_eq!(window_ms(30_000_999), 30_000);
    assert_eq!(MIN_WINDOW_MS, 30_000);
}

#[test]
fn window_scales_with_the_span() {
    assert_eq!(window_ms(30_001_000), 30_001);
    assert_eq!(window_ms(86_400_000 * 7), 604_800);
    assert_eq!(window_ms(u64::MAX), u64::MAX / 1000);
}

#[test]
fn window_never_shrinks_as_the_span_grows() {
    let spans: [u64; 8] = [0, 999, 1000, 29_999_999, 30_000_000, 30_001_000, 30_001_999, 1 << 40];
    for pair in spans.windows(2) {
        assert!(window_ms(pair[0]) <= window_ms(pair[1]));
        assert_eq!(window_ms(pair[0]), std::cmp::max(30_000, pair[0] / 1000));
    }
}

#[test]
fn explicit_range_is_planned_in_whole_seconds() {
    let plan = plan_range(1_500, 2_500).unwrap();
    assert_eq!(plan, QueryPlan { bounds: StoreBounds::Seconds { start_s: 1, stop_s: 3 }, window_ms: 30_000 });
}

#[test]
fn explicit_range_window_follows_its_length() {
    let plan = plan_range(1_000_000_000, 1_000_000_000 + 86_400_000).unwrap();
    assert_eq!(plan.window_ms, 86_400);
    assert_eq!(plan.bounds, StoreBounds::Seconds { start_s: 1_000_000, stop_s: 1_086_401 });
}

#[test]
fn sub_second_range_keeps_a_whole_second() {
    let plan = plan_range(0, 1).unwrap();
    assert_eq!(plan.bounds, StoreBounds::Seconds { start_s: 0, stop_s: 1 });
    let plan = plan_range(999, 1_000).unwrap();
    assert_eq!(plan.bounds, StoreBounds::Seconds { start_s: 0, stop_s: 2 });
}

#[test]
fn stop_bound_never_moves_back_when_the_stop_grows() {
    let mut last = 0;
    for stop in 1u64..5_000 {
        match plan_range(0, stop).unwrap().bounds {
            StoreBounds::Seconds { start_s, stop_s } => {
                assert!(start_s < stop_s);
                assert!(stop_s >= last);
                last = stop_s;
            }
            other => panic!("unexpected bounds {other:?}"),
        }
    }
}

#[test]
fn largest_stop_does_not_overflow() {
    let plan = plan_range(0, u64::MAX).unwrap();
    assert_eq!(plan.bounds, StoreBounds::Seconds { start_s: 0, stop_s: u64::MAX / 1000 + 1 });
}

#[test]
fn empty_or_reversed_range_is_refused() {
    assert_eq!(plan_range(5_000, 5_000), Err(QueryError::InvalidRange));
    assert_eq!(plan_range(5_001, 5_000), Err(QueryError::InvalidRange));
}

#[test]
fn one_hour_span_uses_the_floor_window() {
    let plan = plan_span(3_600_000).unwrap();
    assert_eq!(plan.window_ms, std::cmp::max(30_000, 3_600_000 / 1000));
    assert_eq!(plan, QueryPlan { bounds: StoreBounds::Lookback { duration_ms: 3_600_000 }, window_ms: 30_000 });
}

#[test]
fn empty_span_is_refused() {
    assert_eq!(plan_span(0), Err(QueryError::InvalidRange));
}

#[test]
fn span_text_is_read_as_a_duration() {
    let plan = plan_span_text("1h").unwrap();
    assert_eq!(plan.bounds, StoreBounds::Lookback { duration_ms: 3_600_000 });
    assert_eq!(plan.window_ms, 30_000);
    let plan = plan_span_text("7d").unwrap();
    assert_eq!(plan.bounds, StoreBounds::Lookback { duration_ms: 604_800_000 });
    assert_eq!(plan.window_ms, 604_800);
    let plan = plan_span_text("1m30s").unwrap();
    assert_eq!(plan.bounds, StoreBounds::Lookback { duration_ms: 90_000 });
}

#[test]
fn span_text_that_is_no_duration_is_refused() {
    match plan_span_text("soon") {
        Err(QueryError::InvalidDuration(msg)) => assert!(!msg.is_empty()),
        other => panic!("unexpected {other:?}"),
    }
}

#[test]
fn zero_span_text_is_refused() {
    assert_eq!(plan_span_text("0s"), Err(QueryError::InvalidRange));
}

#[test]
fn span_text_too_long_for_milliseconds_is_refused() {
    let text = format!("{}s", u64::MAX);
    assert_eq!(plan_span_text(&text), Err(QueryError::InvalidDuration(TOO_LONG.to_string())));
}
