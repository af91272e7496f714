use hub_remote::codec::{ControlPayload, DeviceCmd, Payload, SettingsPayload};
use hub_remote::devices::{ChartParams, DeviceAction, DeviceKind, InputIntent, InteractionResult};
use hub_remote::presentation::RoomViewMode;
use hub_remote::reconcile::{after_edit, after_resend, EditOutcome, ReconcileStep};
use hub_remote::router::{
    device_screen, navigation_from_text, resolve_action, route, RouteStep, Screen, State,
};
use hub_remote::session::SessionStore;

#[test]
fn toggle_processed_lands_on_room_detail() {
    let pressed = Payload::Control(ControlPayload::QuickAction {
        room: 5,
        device: 9,
        cmd: DeviceCmd::Toggle,
    });
    let step = route(&pressed);
    assert_eq!(
        step,
        RouteStep::RunAction { room: 5, device: 9, cmd: DeviceCmd::Toggle, action: DeviceAction::Toggle }
    );
    let resolved = resolve_action(5, 9, DeviceCmd::Toggle, InteractionResult::Processed);
    assert!(resolved.next_state.is_none());
    assert!(resolved.alert.is_none());
    let screen = match resolved.step {
        RouteStep::Show(s) => s,
        other => panic!("unexpected step {:?}", other),
    };
    assert_eq!(screen, Screen::Room { room: 5, mode: RoomViewMode::Control });
    let outgoing = screen.payload();
    assert_eq!(outgoing, Payload::Control(ControlPayload::RoomDetail { room: 5 }));

    let mut store = SessionStore::new();
    let user = 42u64;
    let message = 1001i32;
    assert_eq!(after_edit(&mut store, user, message, &outgoing, EditOutcome::Edited), ReconcileStep::Done);
    let session = store.get(user).expect("session recorded");
    assert_eq!(session.last_menu_id, message);
    assert_eq!(
        Payload::from_string(&session.current_context),
        Ok(Payload::Control(ControlPayload::RoomDetail { room: 5 }))
    );
}

#[test]
fn action_results_pick_the_next_screen() {
    let cmd = DeviceCmd::ShowChart { h: 48, o: -24 };
    let detail = resolve_action(2, 3, cmd, InteractionResult::RequiresDetail);
    assert_eq!(detail.step, RouteStep::ShowDevice { room: 2, device: 3, cmd });

    let input = resolve_action(
        2,
        3,
        DeviceCmd::EnterManualInput,
        InteractionResult::RequiresInput(InputIntent::DefineGraphInterval { device_id: 0, room_id: 0 }),
    );
    assert_eq!(input.step, RouteStep::Show(Screen::ManualInput { room: 2, device: 3 }));
    assert!(matches!(
        input.next_state,
        Some(State::WaitingForGraphInterval { device_id: 3, room_id: 2 })
    ));

    let failed = resolve_action(
        2,
        3,
        DeviceCmd::Toggle,
        InteractionResult::Error { error: "HA Service Call Failed".to_string() },
    );
    assert_eq!(failed.step, RouteStep::Show(Screen::Alert));
    assert_eq!(failed.alert.as_deref(), Some("HA Service Call Failed"));
    assert_eq!(Screen::Alert.payload(), Payload::Home);
}

#[test]
fn state_from_intent_takes_given_ids() {
    let s = State::from_intent(
        InputIntent::SetStateAlias { device_id: 0, room_id: 0, original_state: "on".to_string() },
        7,
        8,
    );
    match s {
        State::WaitingForStateAlias { device_id, original_state, room_id } => {
            assert_eq!((device_id, room_id), (7, 8));
            assert_eq!(original_state, "on");
        }
        other => panic!("unexpected state {:?}", other),
    }
    assert!(matches!(
        State::from_intent(InputIntent::RenameDevice { device_id: 1, room_id: 1 }, 4, 5),
        State::WaitingForName { device_id: 4, room_id: 5 }
    ));
}

#[test]
fn routes_of_lists_and_fallbacks() {
    assert_eq!(route(&Payload::Home), RouteStep::Show(Screen::Home));
    assert_eq!(
        route(&Payload::Settings(SettingsPayload::ListRooms)),
        RouteStep::Show(Screen::RoomList(RoomViewMode::Settings))
    );
    assert_eq!(
        route(&Payload::Settings(SettingsPayload::ToggleNotify { room: 1, device: 2 })),
        RouteStep::ToggleNotify { room: 1, device: 2 }
    );
    assert_eq!(
        route(&Payload::Settings(SettingsPayload::EditName { room: 1, device: 2 })),
        RouteStep::Show(Screen::InDev { back: Payload::Settings(SettingsPayload::ListRooms) })
    );
    assert_eq!(route(&Payload::InDev), RouteStep::Show(Screen::InDev { back: Payload::Home }));
    assert_eq!(
        Screen::InDev { back: Payload::Home }.payload(),
        Payload::Home
    );
}

#[test]
fn undecodable_navigation_falls_back_home() {
    assert_eq!(navigation_from_text(""), Payload::Home);
    assert_eq!(navigation_from_text("%%%"), Payload::Home);
    assert_eq!(navigation_from_text("AQMENAU"), Payload::Home);
    let room = Payload::Control(ControlPayload::RoomDetail { room: 12 });
    assert_eq!(navigation_from_text(&room.to_string()), room);
}

#[test]
fn device_screen_by_kind() {
    assert_eq!(
        device_screen(1, 2, DeviceCmd::Toggle, DeviceKind::Sensor),
        Screen::SensorChart { room: 1, device: 2, params: ChartParams { period_hours: 24, offset_hours: 0 } }
    );
    let chart = device_screen(1, 2, DeviceCmd::ShowChart { h: 6, o: -6 }, DeviceKind::BinarySensor);
    assert_eq!(
        chart.payload(),
        Payload::Control(ControlPayload::QuickAction {
            room: 1,
            device: 2,
            cmd: DeviceCmd::ShowChart { h: 6, o: -6 }
        })
    );
    assert_eq!(device_screen(1, 2, DeviceCmd::Toggle, DeviceKind::Climate), Screen::ClimateControl { room: 1, device: 2 });
    assert_eq!(
        device_screen(1, 2, DeviceCmd::Toggle, DeviceKind::Light),
        Screen::InDev { back: Payload::Control(ControlPayload::RoomDetail { room: 1 }) }
    );
}

#[test]
fn same_view_twice_is_one_session_state() {
    let mut store = SessionStore::new();
    let p = Payload::Control(ControlPayload::RoomDetail { room: 3 });
    assert_eq!(after_edit(&mut store, 7, 55, &p, EditOutcome::Edited), ReconcileStep::Done);
    let first = store.get(7).unwrap();
    assert_eq!(after_edit(&mut store, 7, 55, &p, EditOutcome::NotModified), ReconcileStep::Done);
    let second = store.get(7).unwrap();
    assert_eq!(first.last_menu_id, second.last_menu_id);
    assert_eq!(first.current_context, second.current_context);
    assert_eq!(store.list().len(), 1);
}

#[test]
fn failed_edit_resends_and_records_new_message() {
    let mut store = SessionStore::new();
    let p = Payload::Settings(SettingsPayload::DeviceDetail { room: 1, device: 4 });
    assert_eq!(after_edit(&mut store, 9, 10, &p, EditOutcome::Failed), ReconcileStep::Resend);
    assert!(store.get(9).is_none());
    after_resend(&mut store, 9, 11, &p);
    let s = store.get(9).unwrap();
    assert_eq!(s.last_menu_id, 11);
    assert_eq!(s.current_context, p.to_string());
}

#[test]
fn state_from_input_keeps_its_ids() {
    assert!(matches!(
        State::from(InputIntent::RenameDevice { device_id: 3, room_id: 4 }),
        State::WaitingForName { device_id: 3, room_id: 4 }
    ));
    assert!(matches!(
        State::from(InputIntent::DefineGraphInterval { device_id: 5, room_id: 6 }),
        State::WaitingForGraphInterval { device_id: 5, room_id: 6 }
    ));
}
