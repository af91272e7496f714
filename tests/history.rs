use hub_remote::devices::{ChartParams, DeviceKind};
use hub_remote::history::{
    binary_segments, chart_nav, chart_style, complete_series, describe_span, history_window,
    is_state_on, ChartStyle, HistoryWindow,
};

#[test]
fn window_ends_at_offset_and_spans_period() {
    let w = history_window(1_000_000, 24, -24).unwrap();
    assert_eq!(w, HistoryWindow { start: 1_000_000 - 48 * 3600, end: 1_000_000 - 24 * 3600 });
    assert_eq!(history_window(i64::MIN + 10, 1, 0), None);
    assert_eq!(history_window(i64::MAX, 0, 1), None);
}

#[test]
fn series_is_closed_at_window_end() {
    let w = HistoryWindow { start: 0, end: 100 };
    let s = complete_series(vec![(10, "on".to_string()), (50, "off".to_string())], w, None);
    assert_eq!(s, vec![(10, "on".to_string()), (50, "off".to_string()), (100, "off".to_string())]);
    let backfilled = complete_series(vec![], w, Some("21.5".to_string()));
    assert_eq!(backfilled, vec![(0, "21.5".to_string()), (100, "21.5".to_string())]);
    assert!(complete_series(vec![], w, None).is_empty());
}

#[test]
fn binary_bars_are_clipped_to_window() {
    let w = HistoryWindow { start: 100, end: 200 };
    let data = vec![
        (50, "ON".to_string()),
        (120, "off".to_string()),
        (150, "Open".to_string()),
        (250, "on".to_string()),
    ];
    assert_eq!(binary_segments(&data, w), vec![(100, 120, true), (120, 150, false), (150, 200, true)]);
    assert!(is_state_on("Detected"));
    assert!(!is_state_on("closed"));
}

#[test]
fn chart_navigation_and_span() {
    let nav = chart_nav(ChartParams { period_hours: 12, offset_hours: -12 });
    assert_eq!(nav.back, Some(ChartParams { period_hours: 12, offset_hours: -36 }));
    assert_eq!(nav.forward, Some(ChartParams { period_hours: 12, offset_hours: 0 }));
    assert_eq!(nav.current, ChartParams { period_hours: 24, offset_hours: 0 });
    let far = chart_nav(ChartParams { period_hours: 24, offset_hours: -240 });
    assert_eq!(far.back, None);
    assert_eq!(far.forward, Some(ChartParams { period_hours: 24, offset_hours: -216 }));
    assert_eq!(chart_nav(ChartParams { period_hours: 24, offset_hours: 0 }).forward, None);
    assert_eq!(describe_span(ChartParams { period_hours: 24, offset_hours: 0 }), "за последние 24ч");
    assert_eq!(describe_span(ChartParams { period_hours: 24, offset_hours: -48 }), "за 24ч (2 дн. назад)");
    assert_eq!(describe_span(ChartParams { period_hours: 6, offset_hours: -6 }), "за 6ч (сдвиг -6ч)");
    assert_eq!(chart_style(DeviceKind::BinarySensor), Some(ChartStyle::Binary));
    assert_eq!(chart_style(DeviceKind::Light), None);
}
