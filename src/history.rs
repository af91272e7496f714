//! State history for charts: the time window of a chart, the series drawn in
//! it, and where its navigation buttons lead. Times are Unix seconds.
use vstd::prelude::*;
use crate::devices::{ChartParams, DeviceKind};
use crate::text::{lower_of, lowercase, push_signed, signed_decimal, str_eq};

verus! {

/// How far back the hub keeps history, in hours.
pub const MAX_BACK_HOURS: i64 = 240;

/// The span a chart covers.
#[derive(Clone, Copy, Debug, PartialEq, Eq, Structural)]
pub struct HistoryWindow {
    pub start: i64,
    pub end: i64,
}

/// How a device's history is drawn.
#[derive(Clone, Copy, Debug, PartialEq, Eq, Structural)]
pub enum ChartStyle {
    Numeric,
    Binary,
}

pub open spec fn in_i64(x: int) -> bool {
    i64::MIN <= x <= i64::MAX
}

/// The window that ends `offset_hours` from `now` and lasts `period_hours`;
/// `None` where it falls outside the range of timestamps.
pub fn history_window(now: i64, period_hours: u32, offset_hours: i32) -> (r: Option<HistoryWindow>)
    ensures
        in_i64(now + 3600 * offset_hours) && in_i64(now + 3600 * offset_hours - 3600 * period_hours)
            <==> r is Some,
        r matches Some(w) ==> w.end == now + 3600 * offset_hours && w.start == w.end - 3600
            * period_hours,
{
    let end: i128 = now as i128 + 3600 * offset_hours as i128;
    let start: i128 = end - 3600 * period_hours as i128;
    if end < i64::MIN as i128 || end > i64::MAX as i128 || start < i64::MIN as i128 || start
        > i64::MAX as i128 {
        None
    } else {
        Some(HistoryWindow { start: start as i64, end: end as i64 })
    }
}

/// The points to draw: the fetched ones closed by the last state at the
/// window's end. With none fetched, the current state, if known, spans the
/// whole window.
pub fn complete_series(points: Vec<(i64, String)>, w: HistoryWindow, current: Option<String>) -> (r:
    Vec<(i64, String)>)
    ensures
        points@.len() > 0 ==> r@ == points@.push((w.end, points@.last().1)),
        points@.len() == 0 && current is None ==> r@.len() == 0,
        points@.len() == 0 && current is Some ==> r@ == seq![
            (w.start, current->0),
            (w.end, current->0),
        ],
{
    let mut out = points;
    if out.len() == 0 {
        match current {
            Some(c) => {
                out.push((w.start, c.clone()));
                out.push((w.end, c));
                assert(out@ =~= seq![(w.start, current->0), (w.end, current->0)]);
            },
            None => {},
        }
    } else {
        let last = out[out.len() - 1].1.clone();
        out.push((w.end, last));
    }
    out
}

/// States that a binary chart draws as on.
pub open spec fn state_is_on(state: Seq<char>) -> bool {
    let s = lower_of(state);
    s == "on"@ || s == "open"@ || s == "detected"@ || s == "unlocked"@ || s == "home"@
}

/// Whether a binary sensor's state counts as on, in any letter case.
pub fn is_state_on(state: &str) -> (r: bool)
    ensures
        r == state_is_on(state@),
{
    let lowered = lowercase(state);
    let s = lowered.as_str();
    str_eq(s, "on") || str_eq(s, "open") || str_eq(s, "detected") || str_eq(s, "unlocked") || str_eq(
        s,
        "home",
    )
}

pub open spec fn max_i64(a: i64, b: i64) -> i64 {
    if a >= b {
        a
    } else {
        b
    }
}

pub open spec fn min_i64(a: i64, b: i64) -> i64 {
    if a <= b {
        a
    } else {
        b
    }
}

/// The bars of a binary chart for the first `k` points: each point's state
/// lasts until the next point, or the window's end, clipped to the window;
/// empty bars are left out.
pub open spec fn segments(data: Seq<(i64, String)>, k: int, w: HistoryWindow) -> Seq<(i64, i64, bool)>
    decreases k,
{
    if k <= 0 {
        Seq::empty()
    } else {
        let init = segments(data, k - 1, w);
        let i = k - 1;
        let until = if i + 1 < data.len() {
            data[i + 1].0
        } else {
            w.end
        };
        let ts = max_i64(data[i].0, w.start);
        let te = min_i64(until, w.end);
        if te > ts {
            init.push((ts, te, state_is_on(data[i].1@)))
        } else {
            init
        }
    }
}

/// The bars of a binary chart.
pub fn binary_segments(data: &Vec<(i64, String)>, w: HistoryWindow) -> (r: Vec<(i64, i64, bool)>)
    ensures
        r@ == segments(data@, data@.len() as int, w),
{
    let mut out: Vec<(i64, i64, bool)> = Vec::new();
    let mut i: usize = 0;
    while i < data.len()
        invariant
            i <= data@.len(),
            out@ == segments(data@, i as int, w),
        decreases data@.len() - i,
    {
        let until = if i + 1 < data.len() {
            data[i + 1].0
        } else {
            w.end
        };
        let ts = if data[i].0 >= w.start {
            data[i].0
        } else {
            w.start
        };
        let te = if until <= w.end {
            until
        } else {
            w.end
        };
        if te > ts {
            out.push((ts, te, is_state_on(data[i].1.as_str())));
        }
        i = i + 1;
    }
    out
}

/// The chart style of a device kind; other kinds have no chart.
pub fn chart_style(kind: DeviceKind) -> (r: Option<ChartStyle>)
    ensures
        r == match kind {
            DeviceKind::Sensor => Some(ChartStyle::Numeric),
            DeviceKind::BinarySensor => Some(ChartStyle::Binary),
            _ => None::<ChartStyle>,
        },
{
    match kind {
        DeviceKind::Sensor => Some(ChartStyle::Numeric),
        DeviceKind::BinarySensor => Some(ChartStyle::Binary),
        _ => None,
    }
}

/// Where the navigation buttons of a chart lead.
#[derive(Clone, Copy, Debug, PartialEq, Eq, Structural)]
pub struct ChartNav {
    /// A day earlier, while that stays within the kept history.
    pub back: Option<ChartParams>,
    /// The last day.
    pub current: ChartParams,
    /// A day later, not past now, when the chart is in the past.
    pub forward: Option<ChartParams>,
}

pub open spec fn abs_int(x: int) -> int {
    if x < 0 {
        -x
    } else {
        x
    }
}

pub fn chart_nav(p: ChartParams) -> (r: ChartNav)
    ensures
        abs_int(p.offset_hours as int) + 24 <= MAX_BACK_HOURS ==> r.back == Some(
            ChartParams { period_hours: p.period_hours, offset_hours: (p.offset_hours - 24) as i32 },
        ),
        abs_int(p.offset_hours as int) + 24 > MAX_BACK_HOURS ==> r.back is None,
        r.current == (ChartParams { period_hours: 24, offset_hours: 0 }),
        p.offset_hours < 0 ==> r.forward == Some(
            ChartParams {
                period_hours: p.period_hours,
                offset_hours: if p.offset_hours + 24 <= 0 {
                    (p.offset_hours + 24) as i32
                } else {
                    0i32
                },
            },
        ),
        p.offset_hours >= 0 ==> r.forward is None,
{
    let o = p.offset_hours as i64;
    let abs_o: i64 = if o < 0 {
        -o
    } else {
        o
    };
    let back = if abs_o + 24 <= MAX_BACK_HOURS {
        Some(ChartParams { period_hours: p.period_hours, offset_hours: (o - 24) as i32 })
    } else {
        None
    };
    let forward = if o < 0 {
        let later = if o + 24 <= 0 {
            (o + 24) as i32
        } else {
            0i32
        };
        Some(ChartParams { period_hours: p.period_hours, offset_hours: later })
    } else {
        None
    };
    ChartNav { back, current: ChartParams { period_hours: 24, offset_hours: 0 }, forward }
}

/// The span of a chart in words.
pub open spec fn span_text(p: ChartParams) -> Seq<char> {
    if p.offset_hours == 0 {
        "за последние "@ + signed_decimal(p.period_hours as int) + "ч"@
    } else if abs_int(p.offset_hours as int) / 24 > 0 {
        "за "@ + signed_decimal(p.period_hours as int) + "ч ("@ + signed_decimal(
            abs_int(p.offset_hours as int) / 24,
        ) + " дн. назад)"@
    } else {
        "за "@ + signed_decimal(p.period_hours as int) + "ч (сдвиг "@ + signed_decimal(
            p.offset_hours as int,
        ) + "ч)"@
    }
}

pub fn describe_span(p: ChartParams) -> (r: String)
    ensures
        r@ == span_text(p),
{
    let o = p.offset_hours as i64;
    let days = if o < 0 {
        -o
    } else {
        o
    } / 24;
    if o == 0 {
        let mut out = String::from_str("за последние ");
        push_signed(&mut out, p.period_hours as i64);
        out.append("ч");
        out
    } else if days > 0 {
        let mut out = String::from_str("за ");
        push_signed(&mut out, p.period_hours as i64);
        out.append("ч (");
        push_signed(&mut out, days);
        out.append(" дн. назад)");
        out
    } else {
        let mut out = String::from_str("за ");
        push_signed(&mut out, p.period_hours as i64);
        out.append("ч (сдвиг ");
        push_signed(&mut out, o);
        out.append("ч)");
        out
    }
}

} // verus!
