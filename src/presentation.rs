//! How device states, rooms and events are shown to users.
use vstd::prelude::*;
use crate::text::{
    escape_markdown, escape_markdown_v2, join2, lower_of, lowercase, push_signed, signed_decimal,
    str_eq,
};

verus! {

/// Which family of screens a room list or room view belongs to.
#[derive(Clone, Copy, Debug, PartialEq, Eq, Structural)]
pub enum RoomViewMode {
    Control,
    Settings,
}

/// A room as the durable store keeps it.
#[derive(Clone, Debug)]
pub struct Room {
    pub id: i64,
    pub area: String,
    pub alias: Option<String>,
    pub hide: bool,
}

/// Formatting rules for device states, rooms and events.
pub struct StateFormatter;

pub open spec fn device_icon(domain: Seq<char>, class: Seq<char>, state: Seq<char>) -> Seq<char> {
    if domain == "light"@ {
        if state == "on"@ {
            "💡"@
        } else {
            "🌑"@
        }
    } else if domain == "switch"@ {
        if state == "on"@ {
            "🔌"@
        } else {
            "⚪"@
        }
    } else if domain == "binary_sensor"@ {
        if state == "on"@ {
            "🔔"@
        } else {
            "🔕"@
        }
    } else if domain == "climate"@ {
        "🌡"@
    } else if domain == "sensor"@ {
        if class == "temperature"@ {
            "🌡"@
        } else if class == "humidity"@ {
            "💧"@
        } else if class == "battery"@ {
            "🔋"@
        } else if class == "power"@ {
            "⚡"@
        } else {
            "📊"@
        }
    } else if domain == "media_player"@ {
        if state == "playing"@ {
            "▶️"@
        } else if state == "paused"@ {
            "⏸"@
        } else {
            "🔈"@
        }
    } else {
        "📦"@
    }
}

pub open spec fn state_word(state: Seq<char>) -> Seq<char> {
    if state == "on"@ {
        "ВКЛ"@
    } else if state == "off"@ {
        "ВЫКЛ"@
    } else if state == "unavailable"@ {
        "Н/Д"@
    } else if state == "home"@ {
        "Дома"@
    } else if state == "not_home"@ {
        "Ушел"@
    } else if state == "locked"@ {
        "Закрыто"@
    } else if state == "unlocked"@ {
        "Открыто"@
    } else {
        state
    }
}

/// The unit that follows a numeric state of a device.
pub open spec fn unit_suffix(domain: Seq<char>, class: Seq<char>) -> Seq<char> {
    if domain == "climate"@ {
        "°C"@
    } else if domain == "sensor"@ {
        if class == "temperature"@ {
            "°C"@
        } else if class == "humidity"@ || class == "battery"@ {
            "%"@
        } else if class == "power"@ {
            " W"@
        } else if class == "energy"@ {
            " kWh"@
        } else if class == "voltage"@ {
            " V"@
        } else {
            Seq::empty()
        }
    } else {
        Seq::empty()
    }
}

/// A state as shown: a number with its unit, or the state's word.
pub open spec fn state_value(
    domain: Seq<char>,
    class: Seq<char>,
    state: Seq<char>,
    number: Option<Seq<char>>,
) -> Seq<char> {
    match number {
        Some(n) => n + unit_suffix(domain, class),
        None => state_word(state),
    }
}

pub open spec fn room_icon(lowered: Seq<char>) -> Seq<char> {
    if lowered == "кухня"@ {
        "🍳"@
    } else if lowered == "спальня"@ {
        "🛌"@
    } else if lowered == "ванная"@ {
        "🛀"@
    } else if lowered == "коридор"@ {
        "🧥"@
    } else if lowered == "туалет"@ {
        "🚽"@
    } else if lowered == "гостиная"@ {
        "🛋"@
    } else if lowered == "детская"@ {
        "🧸"@
    } else if lowered == "кабинет"@ {
        "🖥"@
    } else {
        "🚪"@
    }
}

pub open spec fn rooms_header(mode: RoomViewMode) -> Seq<char> {
    match mode {
        RoomViewMode::Control => "🎮 *Управление*\nВыберите комнату:"@,
        RoomViewMode::Settings => "⚙️ *Настройки*\nВыберите комнату для настройки:"@,
    }
}

/// The repeat count and age that close an event line.
pub open spec fn event_meta(count: int, seconds_ago: int) -> Seq<char> {
    if count > 1 && seconds_ago > 0 {
        " _"@ + "⟲"@ + signed_decimal(count) + " "@ + signed_decimal(seconds_ago) + "с"@ + "_"@
    } else if count > 1 {
        " _"@ + "⟲"@ + signed_decimal(count) + "_"@
    } else if seconds_ago > 0 {
        " _"@ + signed_decimal(seconds_ago) + "с"@ + "_"@
    } else {
        Seq::empty()
    }
}

pub open spec fn room_part(room_name: Option<Seq<char>>) -> Seq<char> {
    match room_name {
        Some(n) => "*"@ + n + "* • "@,
        None => Seq::empty(),
    }
}

pub open spec fn opt_view(s: Option<&str>) -> Option<Seq<char>> {
    match s {
        Some(x) => Some(x@),
        None => None,
    }
}

impl Room {
    /// The name a room is shown by: its alias, else its area.
    pub open spec fn shown_name(&self) -> Seq<char> {
        match self.alias {
            Some(a) => a@,
            None => self.area@,
        }
    }

    /// The icon of this room, chosen by its shown name.
    pub fn icon(&self) -> (r: &'static str)
        ensures
            r@ == room_icon(lower_of(self.shown_name())),
    {
        let name: &str = match &self.alias {
            Some(a) => a.as_str(),
            None => self.area.as_str(),
        };
        StateFormatter::get_room_icon(name)
    }

    /// The icon and the shown name, with a space between.
    pub fn display_name(&self) -> (r: String)
        ensures
            r@ == room_icon(lower_of(self.shown_name())) + " "@ + self.shown_name(),
    {
        let name: &str = match &self.alias {
            Some(a) => a.as_str(),
            None => self.area.as_str(),
        };
        let mut out = String::from_str(self.icon());
        out.append(" ");
        out.append(name);
        out
    }
}

impl StateFormatter {
    /// The icon of a device, by its domain, class and current state.
    pub fn get_icon(domain: &str, class: &str, state: &str) -> (r: &'static str)
        ensures
            r@ == device_icon(domain@, class@, state@),
    {
        if str_eq(domain, "light") {
            if str_eq(state, "on") {
                "💡"
            } else {
                "🌑"
            }
        } else if str_eq(domain, "switch") {
            if str_eq(state, "on") {
                "🔌"
            } else {
                "⚪"
            }
        } else if str_eq(domain, "binary_sensor") {
            if str_eq(state, "on") {
                "🔔"
            } else {
                "🔕"
            }
        } else if str_eq(domain, "climate") {
            "🌡"
        } else if str_eq(domain, "sensor") {
            if str_eq(class, "temperature") {
                "🌡"
            } else if str_eq(class, "humidity") {
                "💧"
            } else if str_eq(class, "battery") {
                "🔋"
            } else if str_eq(class, "power") {
                "⚡"
            } else {
                "📊"
            }
        } else if str_eq(domain, "media_player") {
            if str_eq(state, "playing") {
                "▶️"
            } else if str_eq(state, "paused") {
                "⏸"
            } else {
                "🔈"
            }
        } else {
            "📦"
        }
    }

    /// The Russian word for a hub state; other states are returned as they are.
    pub fn translate_state<'a>(state: &'a str) -> (r: &'a str)
        ensures
            r@ == state_word(state@),
    {
        if str_eq(state, "on") {
            "ВКЛ"
        } else if str_eq(state, "off") {
            "ВЫКЛ"
        } else if str_eq(state, "unavailable") {
            "Н/Д"
        } else if str_eq(state, "home") {
            "Дома"
        } else if str_eq(state, "not_home") {
            "Ушел"
        } else if str_eq(state, "locked") {
            "Закрыто"
        } else if str_eq(state, "unlocked") {
            "Открыто"
        } else {
            state
        }
    }

    /// A button label: the device's icon, a space, its alias.
    pub fn format_device_label(alias: &str, domain: &str, class: &str, state: &str) -> (r: String)
        ensures
            r@ == device_icon(domain@, class@, state@) + " "@ + alias@,
    {
        let mut out = String::from_str(Self::get_icon(domain, class, state));
        out.append(" ");
        out.append(alias);
        out
    }

    fn unit(domain: &str, class: &str) -> (r: &'static str)
        ensures
            r@ == unit_suffix(domain@, class@),
    {
        proof {
            reveal_strlit("");
        }
        if str_eq(domain, "climate") {
            "°C"
        } else if str_eq(domain, "sensor") {
            if str_eq(class, "temperature") {
                "°C"
            } else if str_eq(class, "humidity") || str_eq(class, "battery") {
                "%"
            } else if str_eq(class, "power") {
                " W"
            } else if str_eq(class, "energy") {
                " kWh"
            } else if str_eq(class, "voltage") {
                " V"
            } else {
                ""
            }
        } else {
            ""
        }
    }

    /// A state as shown. `number` is the state written with two decimals,
    /// where the state reads as a number; it then takes the device's unit.
    /// Otherwise the state is translated.
    pub fn format_state_value(domain: &str, class: &str, state: &str, number: Option<&str>) -> (r:
        String)
        ensures
            r@ == state_value(domain@, class@, state@, opt_view(number)),
    {
        match number {
            Some(n) => join2(n, Self::unit(domain, class)),
            None => String::from_str(Self::translate_state(state)),
        }
    }

    /// A button label with the state: icon, alias, and the shown state in brackets.
    pub fn format_device_label_with_state(
        alias: &str,
        domain: &str,
        class: &str,
        state: &str,
        number: Option<&str>,
    ) -> (r: String)
        ensures
            r@ == device_icon(domain@, class@, state@) + " "@ + alias@ + " ("@ + state_value(
                domain@,
                class@,
                state@,
                opt_view(number),
            ) + ")"@,
    {
        let value = Self::format_state_value(domain, class, state, number);
        let mut out = String::from_str(Self::get_icon(domain, class, state));
        out.append(" ");
        out.append(alias);
        out.append(" (");
        out.append(value.as_str());
        out.append(")");
        out
    }

    /// The icon of a room, by its name in any letter case.
    pub fn get_room_icon(name: &str) -> (r: &'static str)
        ensures
            r@ == room_icon(lower_of(name@)),
    {
        let lowered = lowercase(name);
        let l = lowered.as_str();
        if str_eq(l, "кухня") {
            "🍳"
        } else if str_eq(l, "спальня") {
            "🛌"
        } else if str_eq(l, "ванная") {
            "🛀"
        } else if str_eq(l, "коридор") {
            "🧥"
        } else if str_eq(l, "туалет") {
            "🚽"
        } else if str_eq(l, "гостиная") {
            "🛋"
        } else if str_eq(l, "детская") {
            "🧸"
        } else if str_eq(l, "кабинет") {
            "🖥"
        } else {
            "🚪"
        }
    }

    /// The title of a room list.
    pub fn get_rooms_header(mode: &RoomViewMode) -> (r: &'static str)
        ensures
            r@ == rooms_header(*mode),
    {
        match mode {
            RoomViewMode::Control => "🎮 *Управление*\nВыберите комнату:",
            RoomViewMode::Settings => "⚙️ *Настройки*\nВыберите комнату для настройки:",
        }
    }

    /// One line of the event log: icon, room breadcrumb, alias, shown state in
    /// bold, then the repeat count when above one and the age when above zero.
    pub fn format_event_line(
        room_name: Option<&str>,
        alias: &str,
        domain: &str,
        class: &str,
        state: &str,
        number: Option<&str>,
        count: i32,
        seconds_ago: i64,
    ) -> (r: String)
        ensures
            r@ == device_icon(domain@, class@, state@) + room_part(opt_view(room_name)) + " "@
                + alias@ + ": *"@ + state_value(domain@, class@, state@, opt_view(number)) + "*"@
                + event_meta(count as int, seconds_ago as int),
    {
        let value = Self::format_state_value(domain, class, state, number);
        let mut out = String::from_str(Self::get_icon(domain, class, state));
        match room_name {
            Some(n) => {
                out.append("*");
                out.append(n);
                out.append("* • ");
            },
            None => {},
        }
        out.append(" ");
        out.append(alias);
        out.append(": *");
        out.append(value.as_str());
        out.append("*");
        let ghost head = out@;
        if count > 1 || seconds_ago > 0 {
            out.append(" _");
            if count > 1 {
                out.append("⟲");
                push_signed(&mut out, count as i64);
                if seconds_ago > 0 {
                    out.append(" ");
                }
            }
            if seconds_ago > 0 {
                push_signed(&mut out, seconds_ago);
                out.append("с");
            }
            out.append("_");
        }
        assert(out@ =~= head + event_meta(count as int, seconds_ago as int));
        out
    }
}

/// A push message about a device and who receives it.
#[derive(Clone, Debug)]
pub struct NotificationData {
    pub entity_id: String,
    pub display_name: String,
    pub human_state: String,
    pub recipients: Vec<i64>,
}

/// A push notification: bell, bold escaped name, then the escaped status in bold.
pub fn format_notification(data: &NotificationData) -> (r: String)
    ensures
        r@ == "🔔 *"@ + escape_markdown(data.display_name@) + "*\nСтатус: *"@ + escape_markdown(
            data.human_state@,
        ) + "*"@,
{
    let name = escape_markdown_v2(data.display_name.as_str());
    let state = escape_markdown_v2(data.human_state.as_str());
    let mut out = String::from_str("🔔 *");
    out.append(name.as_str());
    out.append("*\nСтатус: *");
    out.append(state.as_str());
    out.append("*");
    out
}

/// A user's name for one state of one entity.
#[derive(Clone, Debug)]
pub struct StateAlias {
    pub entity_id: String,
    pub original_state: String,
    pub human_state: String,
}

pub open spec fn alias_matches(a: StateAlias, entity_id: Seq<char>, state: Seq<char>) -> bool {
    a.entity_id@ == entity_id && a.original_state@ == state
}

pub open spec fn on_off_word(state: Seq<char>) -> Seq<char> {
    if state == "on"@ {
        "Включено"@
    } else if state == "off"@ {
        "Выключено"@
    } else {
        state
    }
}

/// A state in words: the first alias given for this entity and state, else
/// "Включено" or "Выключено" for on and off, else the state itself.
pub fn format_state_human(entity_id: &str, state: &str, custom_map: &Vec<StateAlias>) -> (r: String)
    ensures
        forall|i: int|
            0 <= i < custom_map@.len() && alias_matches(#[trigger] custom_map@[i], entity_id@, state@)
                && (forall|j: int| 0 <= j < i ==> !alias_matches(custom_map@[j], entity_id@, state@))
                ==> r@ == custom_map@[i].human_state@,
        (forall|j: int|
            0 <= j < custom_map@.len() ==> !alias_matches(#[trigger] custom_map@[j], entity_id@, state@))
            ==> r@ == on_off_word(state@),
{
    let mut i: usize = 0;
    while i < custom_map.len()
        invariant
            i <= custom_map@.len(),
            forall|j: int| 0 <= j < i ==> !alias_matches(#[trigger] custom_map@[j], entity_id@, state@),
        decreases custom_map@.len() - i,
    {
        let a = &custom_map[i];
        if str_eq(a.entity_id.as_str(), entity_id) && str_eq(a.original_state.as_str(), state) {
            return a.human_state.clone();
        }
        i = i + 1;
    }
    if str_eq(state, "on") {
        String::from_str("Включено")
    } else if str_eq(state, "off") {
        String::from_str("Выключено")
    } else {
        String::from_str(state)
    }
}

} // verus!
