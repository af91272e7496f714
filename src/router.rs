//! The screen resolver: from a navigation intent to the screen to show.
//!
//! Resolution is pure. Steps that need the hub or the store (running a
//! device action, reading a device's kind, flipping a flag) are named in the
//! returned `RouteStep`; the caller performs them and hands the outcome back
//! to `resolve_action` or `device_screen`.
use vstd::prelude::*;
use crate::codec::{
    payload_text, text_payload, AdminPayload, ControlPayload, DecodeError, DeviceCmd, Payload, SettingsPayload,
};
use crate::devices::{action_of, ChartParams, DeviceAction, DeviceKind, InputIntent, InteractionResult};
use crate::presentation::RoomViewMode;

verus! {

/// What the next free-text message of a user answers.
#[derive(Clone, Debug)]
pub enum State {
    Idle,
    WaitingForName { device_id: i64, room_id: i64 },
    WaitingForStateAlias { device_id: i64, original_state: String, room_id: i64 },
    WaitingForGraphInterval { device_id: i64, room_id: i64 },
    BackupDb { path: String },
    AddUser { user_id: i64 },
    DeleteUser { user_id: i64 },
}

impl State {
    /// The waiting state for an input that a device asked for, about the
    /// given device and room.
    pub fn from_intent(intent: InputIntent, device_id: i64, room_id: i64) -> (r: State)
        ensures
            match intent {
                InputIntent::DefineGraphInterval { .. } => r == (State::WaitingForGraphInterval {
                    device_id,
                    room_id,
                }),
                InputIntent::RenameDevice { .. } => r == (State::WaitingForName { device_id, room_id }),
                InputIntent::SetStateAlias { original_state, .. } => r matches State::WaitingForStateAlias {
                    device_id: d,
                    original_state: s,
                    room_id: rm,
                } && d == device_id && rm == room_id && s == original_state,
            },
    {
        match intent {
            InputIntent::DefineGraphInterval { .. } => State::WaitingForGraphInterval {
                device_id,
                room_id,
            },
            InputIntent::RenameDevice { .. } => State::WaitingForName { device_id, room_id },
            InputIntent::SetStateAlias { original_state, .. } => State::WaitingForStateAlias {
                device_id,
                original_state,
                room_id,
            },
        }
    }
}

/// The waiting state for an input, about the device and room it names.
impl From<InputIntent> for State {
    fn from(intent: InputIntent) -> (r: State) {
        match intent {
            InputIntent::RenameDevice { device_id, room_id } => State::WaitingForName { device_id, room_id },
            InputIntent::SetStateAlias { device_id, room_id, original_state } => State::WaitingForStateAlias {
                device_id,
                original_state,
                room_id,
            },
            InputIntent::DefineGraphInterval { device_id, room_id } => State::WaitingForGraphInterval {
                device_id,
                room_id,
            },
        }
    }
}

impl vstd::std_specs::convert::FromSpecImpl<InputIntent> for State {
    open spec fn obeys_from_spec() -> bool {
        true
    }

    open spec fn from_spec(intent: InputIntent) -> State {
        match intent {
            InputIntent::RenameDevice { device_id, room_id } => State::WaitingForName { device_id, room_id },
            InputIntent::SetStateAlias { device_id, room_id, original_state } => State::WaitingForStateAlias {
                device_id,
                original_state,
                room_id,
            },
            InputIntent::DefineGraphInterval { device_id, room_id } => State::WaitingForGraphInterval {
                device_id,
                room_id,
            },
        }
    }
}

/// The two families of menus.
#[derive(Clone, Copy, Debug, PartialEq, Eq, Structural)]
pub enum MenuMode {
    Control,
    Configure,
}

/// A screen to build.
#[derive(Clone, Copy, Debug, PartialEq, Eq, Structural)]
pub enum Screen {
    Home,
    RoomList(RoomViewMode),
    Room { room: i64, mode: RoomViewMode },
    SensorChart { room: i64, device: i64, params: ChartParams },
    ClimateControl { room: i64, device: i64 },
    DeviceSettings { room: i64, device: i64 },
    /// A prompt for free text about a device.
    ManualInput { room: i64, device: i64 },
    /// Only an alert; the navigation falls back to its default.
    Alert,
    /// A screen that is not available yet, with the way back.
    InDev { back: Payload },
}

/// What resolving an intent asks for.
#[derive(Clone, Copy, Debug, PartialEq, Eq, Structural)]
pub enum RouteStep {
    Show(Screen),
    /// Show a device's control screen, which depends on the device's kind.
    ShowDevice { room: i64, device: i64, cmd: DeviceCmd },
    /// Run a device action, then resolve its result.
    RunAction { room: i64, device: i64, cmd: DeviceCmd, action: DeviceAction },
    /// Flip the user's subscription to the device, then show its settings.
    ToggleNotify { room: i64, device: i64 },
    /// Flip the device's visibility, then show its settings.
    ToggleHide { room: i64, device: i64 },
}

pub open spec fn route_spec(p: Payload) -> RouteStep {
    match p {
        Payload::Home => RouteStep::Show(Screen::Home),
        Payload::Control(c) => match c {
            ControlPayload::ListRooms => RouteStep::Show(Screen::RoomList(RoomViewMode::Control)),
            ControlPayload::RoomDetail { room } => RouteStep::Show(
                Screen::Room { room, mode: RoomViewMode::Control },
            ),
            ControlPayload::DeviceControl { room, device } => RouteStep::ShowDevice {
                room,
                device,
                cmd: DeviceCmd::Toggle,
            },
            ControlPayload::QuickAction { room, device, cmd } => RouteStep::RunAction {
                room,
                device,
                cmd,
                action: action_of(cmd),
            },
        },
        Payload::Settings(s) => match s {
            SettingsPayload::ListRooms => RouteStep::Show(Screen::RoomList(RoomViewMode::Settings)),
            SettingsPayload::RoomDetail { room } => RouteStep::Show(
                Screen::Room { room, mode: RoomViewMode::Settings },
            ),
            SettingsPayload::DeviceDetail { room, device } => RouteStep::Show(
                Screen::DeviceSettings { room, device },
            ),
            SettingsPayload::ToggleNotify { room, device } => RouteStep::ToggleNotify { room, device },
            SettingsPayload::ToggleHide { room, device } => RouteStep::ToggleHide { room, device },
            SettingsPayload::EditName { .. } => RouteStep::Show(
                Screen::InDev { back: Payload::Settings(SettingsPayload::ListRooms) },
            ),
        },
        Payload::Admin(_) | Payload::InDev => RouteStep::Show(Screen::InDev { back: Payload::Home }),
    }
}

/// The intent that a screen's buttons come back to: what the session records
/// once the screen is shown.
pub open spec fn screen_payload(s: Screen) -> Payload {
    match s {
        Screen::Home => Payload::Home,
        Screen::RoomList(RoomViewMode::Control) => Payload::Control(ControlPayload::ListRooms),
        Screen::RoomList(RoomViewMode::Settings) => Payload::Settings(SettingsPayload::ListRooms),
        Screen::Room { room, mode: RoomViewMode::Control } => Payload::Control(
            ControlPayload::RoomDetail { room },
        ),
        Screen::Room { room, mode: RoomViewMode::Settings } => Payload::Settings(
            SettingsPayload::RoomDetail { room },
        ),
        Screen::SensorChart { room, device, params } => Payload::Control(
            ControlPayload::QuickAction {
                room,
                device,
                cmd: DeviceCmd::ShowChart { h: params.period_hours, o: params.offset_hours },
            },
        ),
        Screen::ClimateControl { room, device } | Screen::ManualInput { room, device } =>
            Payload::Control(ControlPayload::DeviceControl { room, device }),
        Screen::DeviceSettings { room, device } => Payload::Settings(
            SettingsPayload::DeviceDetail { room, device },
        ),
        Screen::Alert => Payload::Home,
        Screen::InDev { back } => back,
    }
}

/// The chart span a command asks for: its own, or the last day.
pub open spec fn chart_params(cmd: DeviceCmd) -> ChartParams {
    match cmd {
        DeviceCmd::ShowChart { h, o } => ChartParams { period_hours: h, offset_hours: o },
        _ => ChartParams { period_hours: 24, offset_hours: 0 },
    }
}

pub open spec fn device_screen_spec(room: i64, device: i64, cmd: DeviceCmd, kind: DeviceKind) -> Screen {
    match kind {
        DeviceKind::Sensor | DeviceKind::BinarySensor => Screen::SensorChart {
            room,
            device,
            params: chart_params(cmd),
        },
        DeviceKind::Climate => Screen::ClimateControl { room, device },
        _ => Screen::InDev { back: Payload::Control(ControlPayload::RoomDetail { room }) },
    }
}

/// The screen that follows a device action, and the dialogue state and alert
/// that come with it.
pub struct Resolution {
    pub step: RouteStep,
    pub next_state: Option<State>,
    pub alert: Option<String>,
}

/// Decides what to do for a navigation intent.
pub fn route(p: &Payload) -> (r: RouteStep)
    ensures
        r == route_spec(*p),
{
    match *p {
        Payload::Home => RouteStep::Show(Screen::Home),
        Payload::Control(c) => match c {
            ControlPayload::ListRooms => RouteStep::Show(Screen::RoomList(RoomViewMode::Control)),
            ControlPayload::RoomDetail { room } => RouteStep::Show(
                Screen::Room { room, mode: RoomViewMode::Control },
            ),
            ControlPayload::DeviceControl { room, device } => RouteStep::ShowDevice {
                room,
                device,
                cmd: DeviceCmd::Toggle,
            },
            ControlPayload::QuickAction { room, device, cmd } => RouteStep::RunAction {
                room,
                device,
                cmd,
                action: DeviceAction::from(cmd),
            },
        },
        Payload::Settings(s) => match s {
            SettingsPayload::ListRooms => RouteStep::Show(Screen::RoomList(RoomViewMode::Settings)),
            SettingsPayload::RoomDetail { room } => RouteStep::Show(
                Screen::Room { room, mode: RoomViewMode::Settings },
            ),
            SettingsPayload::DeviceDetail { room, device } => RouteStep::Show(
                Screen::DeviceSettings { room, device },
            ),
            SettingsPayload::ToggleNotify { room, device } => RouteStep::ToggleNotify { room, device },
            SettingsPayload::ToggleHide { room, device } => RouteStep::ToggleHide { room, device },
            SettingsPayload::EditName { .. } => RouteStep::Show(
                Screen::InDev { back: Payload::Settings(SettingsPayload::ListRooms) },
            ),
        },
        Payload::Admin(_) | Payload::InDev => RouteStep::Show(Screen::InDev { back: Payload::Home }),
    }
}

/// The intent that a text from a button or a session stands for: the decoded
/// intent, or the home screen where the text is not a valid intent.
pub fn navigation_from_text(s: &str) -> (r: Payload)
    ensures
        forall|p: Payload| #[trigger] payload_text(p) == s@ ==> r == p,
        s@.len() == 0 ==> r == Payload::Home,
        r == match text_payload(s@) {
            Some(p) => p,
            None => Payload::Home,
        },
{
    match Payload::from_string(s) {
        Ok(p) => p,
        Err(_) => Payload::Home,
    }
}

/// Resolves the result of a device action run for a quick action on `device`
/// in `room`.
pub fn resolve_action(room: i64, device: i64, cmd: DeviceCmd, result: InteractionResult) -> (r:
    Resolution)
    ensures
        match result {
            InteractionResult::Processed => r.step == RouteStep::Show(
                Screen::Room { room, mode: RoomViewMode::Control },
            ) && r.next_state is None && r.alert is None,
            InteractionResult::RequiresDetail => r.step == (RouteStep::ShowDevice {
                room,
                device,
                cmd,
            }) && r.next_state is None && r.alert is None,
            InteractionResult::RequiresInput(intent) => r.step == RouteStep::Show(
                Screen::ManualInput { room, device },
            ) && r.alert is None && (r.next_state matches Some(st) && match intent {
                InputIntent::DefineGraphInterval { .. } => st == (State::WaitingForGraphInterval {
                    device_id: device,
                    room_id: room,
                }),
                InputIntent::RenameDevice { .. } => st == (State::WaitingForName {
                    device_id: device,
                    room_id: room,
                }),
                InputIntent::SetStateAlias { original_state, .. } => st matches State::WaitingForStateAlias {
                    device_id: d,
                    original_state: s,
                    room_id: rm,
                } && d == device && rm == room && s == original_state,
            }),
            InteractionResult::Error { error } => r.step == RouteStep::Show(Screen::Alert)
                && r.next_state is None && r.alert == Some(error),
        },
{
    match result {
        InteractionResult::Processed => Resolution {
            step: RouteStep::Show(Screen::Room { room, mode: RoomViewMode::Control }),
            next_state: None,
            alert: None,
        },
        InteractionResult::RequiresDetail => Resolution {
            step: RouteStep::ShowDevice { room, device, cmd },
            next_state: None,
            alert: None,
        },
        InteractionResult::RequiresInput(intent) => Resolution {
            step: RouteStep::Show(Screen::ManualInput { room, device }),
            next_state: Some(State::from_intent(intent, device, room)),
            alert: None,
        },
        InteractionResult::Error { error } => Resolution {
            step: RouteStep::Show(Screen::Alert),
            next_state: None,
            alert: Some(error),
        },
    }
}

/// The control screen of a device of the given kind.
pub fn device_screen(room: i64, device: i64, cmd: DeviceCmd, kind: DeviceKind) -> (r: Screen)
    ensures
        r == device_screen_spec(room, device, cmd, kind),
{
    let params = match cmd {
        DeviceCmd::ShowChart { h, o } => ChartParams { period_hours: h, offset_hours: o },
        _ => ChartParams { period_hours: 24, offset_hours: 0 },
    };
    match kind {
        DeviceKind::Sensor | DeviceKind::BinarySensor => Screen::SensorChart { room, device, params },
        DeviceKind::Climate => Screen::ClimateControl { room, device },
        _ => Screen::InDev { back: Payload::Control(ControlPayload::RoomDetail { room }) },
    }
}

impl Screen {
    /// The intent that this screen records as the user's position.
    pub fn payload(&self) -> (r: Payload)
        ensures
            r == screen_payload(*self),
    {
        match *self {
            Screen::Home => Payload::Home,
            Screen::RoomList(RoomViewMode::Control) => Payload::Control(ControlPayload::ListRooms),
            Screen::RoomList(RoomViewMode::Settings) => Payload::Settings(SettingsPayload::ListRooms),
            Screen::Room { room, mode: RoomViewMode::Control } => Payload::Control(
                ControlPayload::RoomDetail { room },
            ),
            Screen::Room { room, mode: RoomViewMode::Settings } => Payload::Settings(
                SettingsPayload::RoomDetail { room },
            ),
            Screen::SensorChart { room, device, params } => Payload::Control(
                ControlPayload::QuickAction {
                    room,
                    device,
                    cmd: DeviceCmd::ShowChart { h: params.period_hours, o: params.offset_hours },
                },
            ),
            Screen::ClimateControl { room, device } | Screen::ManualInput { room, device } =>
                Payload::Control(ControlPayload::DeviceControl { room, device }),
            Screen::DeviceSettings { room, device } => Payload::Settings(
                SettingsPayload::DeviceDetail { room, device },
            ),
            Screen::Alert => Payload::Home,
            Screen::InDev { back } => back,
        }
    }
}

} // verus!
