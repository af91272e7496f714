use hub_remote::config::{AppOptions, ConfigError, EnvPaths};
use hub_remote::devices::{
    CallFailure, ChartParams, ClickPlan, DeviceAction, Entity, InteractionResult, Outcome, Service,
    ServiceData, SmartDevice,
};
use hub_remote::codec::DeviceCmd;
use hub_remote::presentation::{
    format_notification, format_state_human, NotificationData, Room, RoomViewMode, StateAlias,
    StateFormatter,
};
use hub_remote::screen::{format_header, header_items, AlertLine, HeaderItem, View};
use hub_remote::text::escape_markdown_v2;
use hub_remote::codec::Payload;

#[test]
fn icons_by_domain_class_and_state() {
    assert_eq!(StateFormatter::get_icon("light", "", "on"), "💡");
    assert_eq!(StateFormatter::get_icon("light", "", "off"), "🌑");
    assert_eq!(StateFormatter::get_icon("switch", "", "on"), "🔌");
    assert_eq!(StateFormatter::get_icon("binary_sensor", "", "off"), "🔕");
    assert_eq!(StateFormatter::get_icon("sensor", "humidity", "40"), "💧");
    assert_eq!(StateFormatter::get_icon("sensor", "lux", "40"), "📊");
    assert_eq!(StateFormatter::get_icon("media_player", "", "paused"), "⏸");
    assert_eq!(StateFormatter::get_icon("vacuum", "", "on"), "📦");
}

#[test]
fn states_are_translated_or_kept() {
    assert_eq!(StateFormatter::translate_state("on"), "ВКЛ");
    assert_eq!(StateFormatter::translate_state("not_home"), "Ушел");
    assert_eq!(StateFormatter::translate_state("heat"), "heat");
    assert_eq!(StateFormatter::format_state_value("sensor", "power", "12.345", Some("12.35")), "12.35 W");
    assert_eq!(StateFormatter::format_state_value("climate", "", "21", Some("21.00")), "21.00°C");
    assert_eq!(StateFormatter::format_state_value("number", "", "3", Some("3.00")), "3.00");
    assert_eq!(StateFormatter::format_state_value("lock", "", "locked", None), "Закрыто");
}

#[test]
fn labels() {
    assert_eq!(StateFormatter::format_device_label("Лампа", "light", "", "on"), "💡 Лампа");
    assert_eq!(
        StateFormatter::format_device_label_with_state("Кухня", "sensor", "temperature", "22.5", Some("22.50")),
        "🌡 Кухня (22.50°C)"
    );
    assert_eq!(
        StateFormatter::get_rooms_header(&RoomViewMode::Control),
        "🎮 *Управление*\nВыберите комнату:"
    );
}

#[test]
fn room_icons_ignore_letter_case() {
    assert_eq!(StateFormatter::get_room_icon("Кухня"), "🍳");
    assert_eq!(StateFormatter::get_room_icon("СПАЛЬНЯ"), "🛌");
    assert_eq!(StateFormatter::get_room_icon("Garage"), "🚪");
    let room = Room { id: 1, area: "kitchen".to_string(), alias: Some("Кухня".to_string()), hide: false };
    assert_eq!(room.icon(), "🍳");
    assert_eq!(room.display_name(), "🍳 Кухня");
    let bare = Room { id: 2, area: "Кабинет".to_string(), alias: None, hide: false };
    assert_eq!(bare.display_name(), "🖥 Кабинет");
}

#[test]
fn event_lines() {
    assert_eq!(
        StateFormatter::format_event_line(Some("Кухня"), "Лампа", "light", "", "on", None, 3, 40),
        "💡*Кухня* •  Лампа: *ВКЛ* _⟲3 40с_"
    );
    assert_eq!(
        StateFormatter::format_event_line(None, "Дверь", "binary_sensor", "door", "off", None, 1, 0),
        "🔕 Дверь: *ВЫКЛ*"
    );
    assert_eq!(
        StateFormatter::format_event_line(None, "Т", "sensor", "temperature", "5", Some("5.00"), 2, 0),
        "🌡 Т: *5.00°C* _⟲2_"
    );
}

#[test]
fn notification_is_escaped() {
    assert_eq!(escape_markdown_v2("a.b-c_d*e!"), "a\\.b\\-c\\_d\\*e\\!");
    assert_eq!(
        format_notification(&NotificationData {
            entity_id: "light.kitchen".to_string(),
            display_name: "light.kitchen".to_string(),
            human_state: "ВКЛ (1)".to_string(),
            recipients: vec![1, 2],
        }),
        "🔔 *light\\.kitchen*\nСтатус: *ВКЛ \\(1\\)*"
    );
}

#[test]
fn relative_update_times() {
    assert_eq!(StateFormatter::format_last_update(3, "10:00"), "только что");
    assert_eq!(StateFormatter::format_last_update(-5, "10:00"), "только что");
    assert_eq!(StateFormatter::format_last_update(44, "10:00"), "30с назад");
    assert_eq!(StateFormatter::format_last_update(61, "10:00"), "1м назад");
    assert_eq!(StateFormatter::format_last_update(3599, "10:00"), "59м назад");
    assert_eq!(StateFormatter::format_last_update(3600, "10:00"), "10:00");
}

fn entity(id: &str, state: &str, class: Option<&str>) -> Entity {
    Entity {
        entity_id: id.to_string(),
        name: String::new(),
        state: state.to_string(),
        device_class: class.map(|c| c.to_string()),
        friendly_name: None,
    }
}

#[test]
fn devices_by_domain() {
    assert!(matches!(SmartDevice::new(entity("light.a", "on", None)), SmartDevice::Light(_)));
    assert!(matches!(SmartDevice::new(entity("binary_sensor.door", "on", None)), SmartDevice::BinarySensor(_)));
    assert!(matches!(SmartDevice::new(entity("lock.front", "locked", None)), SmartDevice::Unknown(_)));
    assert!(matches!(SmartDevice::new(entity("switch", "on", None)), SmartDevice::Switch(_)));
    let lock = SmartDevice::new(entity("lock.front", "locked", None));
    assert_eq!(lock.get_info().1, "lock");
    let t = SmartDevice::new(entity("sensor.t", "22.5", Some("temperature")));
    assert_eq!(t.render_button_text("Кухня"), "🌡 Кухня");
    assert_eq!(t.render_button_text_with_state("Кухня", Some("22.50")), "🌡 Кухня (22.50°C)");
}

#[test]
fn clicks_plan_service_calls() {
    let light = SmartDevice::new(entity("light.a", "on", None));
    assert_eq!(
        light.plan_click(DeviceAction::SetLevel(128)),
        ClickPlan::Call {
            service: Service::TurnOn,
            data: Some(ServiceData::Brightness(128)),
            on_success: Outcome::Processed,
            on_failure: CallFailure::BrightnessFailed,
        }
    );
    let plan = light.plan_click(DeviceAction::from(DeviceCmd::TurnOff));
    assert_eq!(
        plan,
        ClickPlan::Call { service: Service::TurnOff, data: None, on_success: Outcome::Processed, on_failure: CallFailure::ServiceFailed }
    );
    assert_eq!(Service::TurnOff.name(), "turn_off");
    match plan.finish(false) {
        InteractionResult::Error { error } => assert_eq!(error, "HA Service Call Failed"),
        other => panic!("unexpected {:?}", other),
    }
    assert!(matches!(plan.finish(true), InteractionResult::Processed));

    let sensor = SmartDevice::new(entity("sensor.t", "1", None));
    let chart = DeviceAction::GenerateChart(ChartParams { period_hours: 24, offset_hours: 0 });
    assert_eq!(sensor.plan_click(chart), ClickPlan::Done(Outcome::RequiresDetail));
    assert!(matches!(
        sensor.plan_click(DeviceAction::EnterManualInput).finish(true),
        InteractionResult::RequiresInput(_)
    ));
    let climate = SmartDevice::new(entity("climate.hall", "heat", None));
    assert!(matches!(climate.plan_click(DeviceAction::Toggle).finish(false), InteractionResult::Processed));
    assert_eq!(
        DeviceAction::from(DeviceCmd::ShowChart { h: 6, o: -1 }),
        DeviceAction::GenerateChart(ChartParams { period_hours: 6, offset_hours: -1 })
    );
}

#[test]
fn settings_checks() {
    let paths = EnvPaths {
        options: "options.json".to_string(),
        database: "bot_data.db".to_string(),
        migrations: "./migrations".to_string(),
        ha_url: "http://supervisor/core".to_string(),
        ha_token: String::new(),
    };
    assert_eq!(paths.db_url(), "sqlite://bot_data.db");
    assert!(matches!(paths.clone().validate(), Err(ConfigError::MissingHubToken)));
    let ok = EnvPaths { ha_token: "t".to_string(), ..paths };
    assert!(ok.validate().is_ok());
    assert!(matches!(
        AppOptions { bot_token: String::new(), root_user: 1 }.validate(),
        Err(ConfigError::MissingBotToken)
    ));
    assert!(matches!(
        AppOptions { bot_token: "x".to_string(), root_user: 0 }.validate(),
        Err(ConfigError::MissingRootUser)
    ));
    assert!(AppOptions { bot_token: "x".to_string(), root_user: 5 }.validate().is_ok());
}

#[test]
fn header_and_view_text() {
    let quiet = header_items(&vec![]);
    assert_eq!(quiet.len(), 1);
    assert_eq!(quiet[0].icon, "✅");
    assert_eq!(quiet[0].label, "Система");
    let items = header_items(&vec![AlertLine {
        entity_id: "binary_sensor.door".to_string(),
        last_state: "on".to_string(),
        event_count: 3,
        alias: Some("Дверь".to_string()),
        room_name: Some("Коридор".to_string()),
        number: None,
        age: "1м назад".to_string(),
    }]);
    assert_eq!(items[0].icon, "🔔");
    assert_eq!(items[0].label, "Коридор • Дверь");
    assert_eq!(items[0].value, "*ВКЛ* [x3]");

    let view = View {
        header: None,
        notifications: vec![HeaderItem {
            icon: "✅".to_string(),
            label: "Система".to_string(),
            value: "Все спокойно".to_string(),
            age: "только что".to_string(),
        }],
        text: "Главное меню".to_string(),
        payload: Payload::Home,
        alert: Some("bad.".to_string()),
        next_state: None,
        image: None,
    };
    assert_eq!(
        view.get_text(),
        "🏠 *ZEGBI SMART HOME*\n────────────────────\n✅ Система: Все спокойно _только что_\n────────────────────\n⚠️ *ОШИБКА:*\n_bad\\._\n\nГлавное меню"
    );
    let bare = View { notifications: vec![], alert: None, text: String::new(), header: Some("T".to_string()), ..view };
    assert_eq!(bare.get_text(), "T\n────────────────────");
}

#[test]
fn standalone_header() {
    assert_eq!(format_header(vec![]), "\\_Ожидание данных\\.\\.\\.\\_\n────────────────────\n\n");
    let h = format_header(vec![HeaderItem {
        icon: "🔔".to_string(),
        label: "Дверь-1".to_string(),
        value: "ВКЛ".to_string(),
        age: "1м назад".to_string(),
    }]);
    assert_eq!(h, "🔔 Дверь\\-1: `ВКЛ`  _\\(1м назад\\)_\n────────────────────\n\n");
}

#[test]
fn human_states_prefer_aliases() {
    let aliases = vec![
        StateAlias { entity_id: "lock.front".to_string(), original_state: "locked".to_string(), human_state: "Заперто".to_string() },
        StateAlias { entity_id: "switch.pump".to_string(), original_state: "on".to_string(), human_state: "Качает".to_string() },
        StateAlias { entity_id: "switch.pump".to_string(), original_state: "on".to_string(), human_state: "Второе".to_string() },
    ];
    assert_eq!(format_state_human("switch.pump", "on", &aliases), "Качает");
    assert_eq!(format_state_human("switch.pump", "off", &aliases), "Выключено");
    assert_eq!(format_state_human("light.a", "on", &aliases), "Включено");
    assert_eq!(format_state_human("lock.front", "locked", &aliases), "Заперто");
    assert_eq!(format_state_human("lock.back", "locked", &aliases), "locked");
}
