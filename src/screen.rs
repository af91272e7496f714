//! A rendered screen and the text it is shown with.
use vstd::prelude::*;
use vstd::view::View as _;
use crate::codec::Payload;
use crate::devices::{domain_of, entity_domain};
use crate::presentation::{device_icon, opt_view, state_value, StateFormatter};
use crate::router::State;
use crate::text::{decimal, escape_markdown, escape_markdown_v2, push_decimal, push_signed, signed_decimal};

verus! {

/// One line of the status header.
#[derive(Clone, Debug)]
pub struct HeaderItem {
    pub icon: String,
    pub label: String,
    pub value: String,
    /// How long ago the value changed, as shown.
    pub age: String,
}

/// A rendered screen. The keyboard is built by the caller from `payload`.
#[derive(Clone, Debug)]
pub struct View {
    pub header: Option<String>,
    pub notifications: Vec<HeaderItem>,
    pub text: String,
    /// The intent that the session records once this screen is shown.
    pub payload: Payload,
    pub alert: Option<String>,
    /// The dialogue state that the screen opens, if any.
    pub next_state: Option<State>,
    pub image: Option<Vec<u8>>,
}

pub open spec fn separator() -> Seq<char> {
    "────────────────────"@
}

pub open spec fn default_title() -> Seq<char> {
    "🏠 *ZEGBI SMART HOME*"@
}

pub open spec fn status_line(item: HeaderItem) -> Seq<char> {
    item.icon@ + " "@ + escape_markdown(item.label@) + ": "@ + item.value@ + " _"@ + item.age@
        + "_"@
}

/// The header lines, one per item, joined by line breaks.
pub open spec fn status_block(items: Seq<HeaderItem>) -> Seq<char>
    decreases items.len(),
{
    if items.len() == 0 {
        Seq::empty()
    } else if items.len() == 1 {
        status_line(items[0])
    } else {
        status_block(items.drop_last()) + "\n"@ + status_line(items.last())
    }
}

pub open spec fn alert_part(alert: Seq<char>) -> Seq<char> {
    "⚠️ *ОШИБКА:*\n_"@ + escape_markdown(alert) + "_"@
}

/// The alert and the escaped text, separated by an empty line.
pub open spec fn body_of(alert: Option<Seq<char>>, text: Seq<char>) -> Seq<char> {
    match alert {
        Some(a) => if text.len() > 0 {
            alert_part(a) + "\n\n"@ + escape_markdown(text)
        } else {
            alert_part(a)
        },
        None => escape_markdown(text),
    }
}

pub open spec fn opt_string_view(s: Option<String>) -> Option<Seq<char>> {
    match s {
        Some(x) => Some(x@),
        None => None,
    }
}

impl View {
    /// The message text: title and separator; the header lines and a
    /// separator, when there are any; then the alert and the text.
    pub open spec fn spec_text(&self) -> Seq<char> {
        let title = match self.header {
            Some(h) => h@,
            None => default_title(),
        };
        let head = title + "\n"@ + separator();
        let with_status = if self.notifications@.len() > 0 {
            head + "\n"@ + status_block(self.notifications@) + "\n"@ + separator()
        } else {
            head
        };
        let body = body_of(opt_string_view(self.alert), self.text@);
        if body.len() > 0 {
            with_status + "\n"@ + body
        } else {
            with_status
        }
    }

    pub fn get_text(&self) -> (r: String)
        ensures
            r@ == self.spec_text(),
    {
        let mut out = match &self.header {
            Some(h) => h.clone(),
            None => String::from_str("🏠 *ZEGBI SMART HOME*"),
        };
        out.append("\n");
        out.append("────────────────────");
        let ghost head = out@;
        let n = self.notifications.len();
        if n > 0 {
            out.append("\n");
            let ghost start = out@;
            let mut i: usize = 0;
            while i < n
                invariant
                    n == self.notifications@.len(),
                    i <= n,
                    out@ == start + status_block(self.notifications@.take(i as int)),
                decreases n - i,
            {
                let item = &self.notifications[i];
                if i > 0 {
                    out.append("\n");
                }
                out.append(item.icon.as_str());
                out.append(" ");
                let label = escape_markdown_v2(item.label.as_str());
                out.append(label.as_str());
                out.append(": ");
                out.append(item.value.as_str());
                out.append(" _");
                out.append(item.age.as_str());
                out.append("_");
                proof {
                    let s = self.notifications@.take(i + 1);
                    assert(s.drop_last() =~= self.notifications@.take(i as int));
                    assert(s.last() == *item);
                    if i == 0 {
                        assert(status_block(self.notifications@.take(0)) =~= Seq::<char>::empty());
                        assert(out@ =~= start + status_block(s));
                    } else {
                        assert(out@ =~= start + status_block(s));
                    }
                }
                i = i + 1;
            }
            assert(self.notifications@.take(n as int) =~= self.notifications@);
            out.append("\n");
            out.append("────────────────────");
        }
        let ghost with_status = out@;
        let text_empty = self.text.unicode_len() == 0;
        match &self.alert {
            Some(a) => {
                out.append("\n");
                out.append("⚠️ *ОШИБКА:*\n_");
                let esc = escape_markdown_v2(a.as_str());
                out.append(esc.as_str());
                out.append("_");
                if !text_empty {
                    out.append("\n\n");
                    let t = escape_markdown_v2(self.text.as_str());
                    out.append(t.as_str());
                }
                proof {
                    reveal_strlit("⚠️ *ОШИБКА:*\n_");
                }
            },
            None => {
                if !text_empty {
                    out.append("\n");
                    let t = escape_markdown_v2(self.text.as_str());
                    out.append(t.as_str());
                    proof {
                        lemma_escape_nonempty(self.text@);
                    }
                } else {
                    assert(self.text@ =~= Seq::<char>::empty());
                    assert(escape_markdown(self.text@) =~= Seq::<char>::empty());
                }
            },
        }
        out
    }
}

proof fn lemma_escape_nonempty(s: Seq<char>)
    requires
        s.len() > 0,
    ensures
        escape_markdown(s).len() > 0,
    decreases s.len(),
{
    if s.len() > 1 {
        lemma_escape_nonempty(s.drop_last());
    }
}

/// How long ago something changed, as shown: "только что" under 15 seconds,
/// quarter minutes under a minute, whole minutes under an hour, and the given
/// clock text after that.
pub open spec fn age_text(seconds_ago: int, clock: Seq<char>) -> Seq<char> {
    if seconds_ago < 15 {
        "только что"@
    } else if seconds_ago < 60 {
        signed_decimal((seconds_ago / 15) * 15) + "с назад"@
    } else if seconds_ago < 3600 {
        signed_decimal(seconds_ago / 60) + "м назад"@
    } else {
        clock
    }
}

impl StateFormatter {
    /// `clock` is the local time of the change, the way it is shown for
    /// changes an hour old or older.
    pub fn format_last_update(seconds_ago: i64, clock: &str) -> (r: String)
        ensures
            r@ == age_text(seconds_ago as int, clock@),
    {
        if seconds_ago < 15 {
            String::from_str("только что")
        } else if seconds_ago < 60 {
            let mut out = String::new();
            push_signed(&mut out, (seconds_ago / 15) * 15);
            out.append("с назад");
            out
        } else if seconds_ago < 3600 {
            let mut out = String::new();
            push_signed(&mut out, seconds_ago / 60);
            out.append("м назад");
            out
        } else {
            String::from_str(clock)
        }
    }
}

/// An alert from the event log, with what the header shows of it looked up.
#[derive(Clone, Debug)]
pub struct AlertLine {
    pub entity_id: String,
    pub last_state: String,
    pub event_count: u64,
    /// The device's alias, if it has one.
    pub alias: Option<String>,
    /// The shown name of the device's room, if known.
    pub room_name: Option<String>,
    /// The state with two decimals, where it reads as a number.
    pub number: Option<String>,
    /// How long ago it last changed, as shown.
    pub age: String,
}

pub open spec fn alert_label(a: AlertLine) -> Seq<char> {
    (match a.room_name {
        Some(r) => r@ + " • "@,
        None => Seq::empty(),
    }) + match a.alias {
        Some(n) => n@,
        None => a.entity_id@,
    }
}

pub open spec fn alert_value(a: AlertLine) -> Seq<char> {
    "*"@ + state_value(domain_of(a.entity_id@), Seq::empty(), a.last_state@, opt_string_view(a.number))
        + "*"@ + if a.event_count > 1 {
        " [x"@ + decimal(a.event_count as nat) + "]"@
    } else {
        Seq::empty()
    }
}

pub open spec fn alert_item_matches(item: HeaderItem, a: AlertLine) -> bool {
    &&& item.icon@ == device_icon(domain_of(a.entity_id@), Seq::empty(), a.last_state@)
    &&& item.label@ == alert_label(a)
    &&& item.value@ == alert_value(a)
    &&& item.age@ == a.age@
}

fn alert_item(a: &AlertLine) -> (r: HeaderItem)
    ensures
        alert_item_matches(r, *a),
{
    proof {
        reveal_strlit("");
        assert(""@ =~= Seq::<char>::empty());
    }
    let domain = entity_domain(a.entity_id.as_str());
    let icon = String::from_str(StateFormatter::get_icon(domain.as_str(), "", a.last_state.as_str()));
    let mut label = String::new();
    match &a.room_name {
        Some(r) => {
            label.append(r.as_str());
            label.append(" • ");
        },
        None => {},
    }
    match &a.alias {
        Some(n) => label.append(n.as_str()),
        None => label.append(a.entity_id.as_str()),
    }
    let number: Option<&str> = match &a.number {
        Some(n) => Some(n.as_str()),
        None => None,
    };
    assert(opt_view(number) == opt_string_view(a.number));
    let shown = StateFormatter::format_state_value(domain.as_str(), "", a.last_state.as_str(), number);
    let mut value = String::from_str("*");
    value.append(shown.as_str());
    value.append("*");
    let ghost core = value@;
    assert(core =~= "*"@ + state_value(
        domain_of(a.entity_id@),
        Seq::empty(),
        a.last_state@,
        opt_string_view(a.number),
    ) + "*"@);
    if a.event_count > 1 {
        value.append(" [x");
        push_decimal(&mut value, a.event_count);
        value.append("]");
        assert(value@ =~= core + (" [x"@ + decimal(a.event_count as nat) + "]"@));
    } else {
        assert(value@ =~= core + Seq::<char>::empty());
    }
    assert(label@ =~= alert_label(*a));
    assert(value@ =~= alert_value(*a));
    HeaderItem { icon, label, value, age: a.age.clone() }
}

/// The header items for a user's active alerts, in the alerts' order; a single
/// all-clear item when there are none.
pub fn header_items(alerts: &Vec<AlertLine>) -> (r: Vec<HeaderItem>)
    ensures
        alerts@.len() > 0 ==> r@.len() == alerts@.len() && forall|i: int|
            0 <= i < r@.len() ==> alert_item_matches(#[trigger] r@[i], alerts@[i]),
        alerts@.len() == 0 ==> r@.len() == 1 && r@[0].icon@ == "✅"@ && r@[0].label@
            == "Система"@ && r@[0].value@ == "Все спокойно"@ && r@[0].age@ == "только что"@,
{
    let mut items: Vec<HeaderItem> = Vec::new();
    let mut i: usize = 0;
    while i < alerts.len()
        invariant
            i <= alerts@.len(),
            items@.len() == i,
            forall|k: int| 0 <= k < i ==> alert_item_matches(#[trigger] items@[k], alerts@[k]),
        decreases alerts@.len() - i,
    {
        let item = alert_item(&alerts[i]);
        items.push(item);
        i = i + 1;
    }
    if items.len() == 0 {
        items.push(
            HeaderItem {
                icon: String::from_str("✅"),
                label: String::from_str("Система"),
                value: String::from_str("Все спокойно"),
                age: String::from_str("только что"),
            },
        );
    }
    items
}

pub open spec fn header_line(item: HeaderItem) -> Seq<char> {
    item.icon@ + " "@ + escape_markdown(item.label@) + ": `"@ + escape_markdown(item.value@)
        + "`  _\\("@ + escape_markdown(item.age@) + "\\)_"@
}

/// The header lines, one per item, joined by line breaks.
pub open spec fn header_lines(items: Seq<HeaderItem>) -> Seq<char>
    decreases items.len(),
{
    if items.len() == 0 {
        Seq::empty()
    } else if items.len() == 1 {
        header_line(items[0])
    } else {
        header_lines(items.drop_last()) + "\n"@ + header_line(items.last())
    }
}

/// A stand-alone status header: one line per item with the value as code
/// and the age in brackets, then a separator; a waiting note when empty.
pub fn format_header(items: Vec<HeaderItem>) -> (r: String)
    ensures
        items@.len() == 0 ==> r@ == escape_markdown("_Ожидание данных..._\n────────────────────\n\n"@),
        items@.len() > 0 ==> r@ == header_lines(items@) + "\n────────────────────\n\n"@,
{
    let n = items.len();
    if n == 0 {
        return escape_markdown_v2("_Ожидание данных..._\n────────────────────\n\n");
    }
    let mut out = String::new();
    let mut i: usize = 0;
    while i < n
        invariant
            n == items@.len(),
            i <= n,
            out@ == header_lines(items@.take(i as int)),
        decreases n - i,
    {
        let item = &items[i];
        if i > 0 {
            out.append("\n");
        }
        out.append(item.icon.as_str());
        out.append(" ");
        let label = escape_markdown_v2(item.label.as_str());
        out.append(label.as_str());
        out.append(": `");
        let value = escape_markdown_v2(item.value.as_str());
        out.append(value.as_str());
        out.append("`  _\\(");
        let age = escape_markdown_v2(item.age.as_str());
        out.append(age.as_str());
        out.append("\\)_");
        proof {
            let s = items@.take(i + 1);
            assert(s.drop_last() =~= items@.take(i as int));
            assert(s.last() == *item);
            if i == 0 {
                assert(out@ =~= header_lines(s));
            } else {
                assert(out@ =~= header_lines(s));
            }
        }
        i = i + 1;
    }
    assert(items@.take(n as int) =~= items@);
    out.append("\n────────────────────\n\n");
    out
}

} // verus!
