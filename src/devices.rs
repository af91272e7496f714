//! Devices of the hub and what pressing a device's button does.
//!
//! Pressing a button is decided in two steps: `SmartDevice::plan_click` says
//! which hub service to call, if any, and `ClickPlan::finish` turns the call's
//! success or failure into an `InteractionResult`.
use vstd::prelude::*;
use crate::codec::DeviceCmd;
use crate::presentation::{device_icon, state_value, opt_view, StateFormatter};

verus! {

/// A hub entity with its current state.
#[derive(Clone, Debug)]
pub struct Entity {
    pub entity_id: String,
    pub name: String,
    pub state: String,
    pub device_class: Option<String>,
    pub friendly_name: Option<String>,
}

/// An area of the hub with its entities.
#[derive(Clone, Debug)]
pub struct Room {
    pub id: String,
    pub name: String,
    pub entities: Vec<Entity>,
}

/// A device as the durable store keeps it.
#[derive(Clone, Debug)]
pub struct Device {
    pub id: i64,
    pub room_id: i64,
    pub entity_id: String,
    pub alias: Option<String>,
    pub device_class: String,
    pub device_domain: String,
}

/// A free-text answer that a device asks for.
#[derive(Clone, Debug)]
pub enum InputIntent {
    RenameDevice { device_id: i64, room_id: i64 },
    SetStateAlias { device_id: i64, room_id: i64, original_state: String },
    DefineGraphInterval { device_id: i64, room_id: i64 },
}

/// What the device-action executor reports.
#[derive(Clone, Debug)]
pub enum InteractionResult {
    Processed,
    RequiresDetail,
    RequiresInput(InputIntent),
    Error { error: String },
}

#[derive(Clone, Copy, Debug, PartialEq, Eq, Structural)]
pub struct ChartParams {
    pub period_hours: u32,
    /// 0 is now, -24 is a day earlier.
    pub offset_hours: i32,
}

/// A domain action on a device.
#[derive(Clone, Copy, Debug, PartialEq, Eq, Structural)]
pub enum DeviceAction {
    Toggle,
    TurnOn,
    TurnOff,
    SetLevel(u8),
    /// Target temperature as the bit pattern of an IEEE-754 single-precision number.
    SetTemperature(u32),
    GenerateChart(ChartParams),
    EnterManualInput,
}

pub open spec fn action_of(cmd: DeviceCmd) -> DeviceAction {
    match cmd {
        DeviceCmd::Toggle => DeviceAction::Toggle,
        DeviceCmd::TurnOn => DeviceAction::TurnOn,
        DeviceCmd::TurnOff => DeviceAction::TurnOff,
        DeviceCmd::SetLevel(v) => DeviceAction::SetLevel(v),
        DeviceCmd::SetTemp(t) => DeviceAction::SetTemperature(t),
        DeviceCmd::ShowChart { h, o } => DeviceAction::GenerateChart(
            ChartParams { period_hours: h, offset_hours: o },
        ),
        DeviceCmd::EnterManualInput => DeviceAction::EnterManualInput,
    }
}

/// The domain action that a button's command asks for.
impl From<DeviceCmd> for DeviceAction {
    fn from(cmd: DeviceCmd) -> (r: DeviceAction) {
        match cmd {
            DeviceCmd::Toggle => DeviceAction::Toggle,
            DeviceCmd::TurnOn => DeviceAction::TurnOn,
            DeviceCmd::TurnOff => DeviceAction::TurnOff,
            DeviceCmd::SetLevel(v) => DeviceAction::SetLevel(v),
            DeviceCmd::SetTemp(t) => DeviceAction::SetTemperature(t),
            DeviceCmd::ShowChart { h, o } => DeviceAction::GenerateChart(
                ChartParams { period_hours: h, offset_hours: o },
            ),
            DeviceCmd::EnterManualInput => DeviceAction::EnterManualInput,
        }
    }
}

impl vstd::std_specs::convert::FromSpecImpl<DeviceCmd> for DeviceAction {
    open spec fn obeys_from_spec() -> bool {
        true
    }

    open spec fn from_spec(cmd: DeviceCmd) -> DeviceAction {
        action_of(cmd)
    }
}

/// The kinds of device that the hub's domains name.
#[derive(Clone, Copy, Debug, PartialEq, Eq, Structural)]
pub enum DeviceKind {
    Switch,
    Light,
    Climate,
    Sensor,
    BinarySensor,
    Number,
    Unknown,
}

/// Where the first dot of `s` stands, or its length when it has none.
pub open spec fn dot_index(s: Seq<char>) -> nat
    decreases s.len(),
{
    if s.len() == 0 {
        0
    } else if s[0] == '.' {
        0
    } else {
        1 + dot_index(s.drop_first())
    }
}

/// The domain of an entity id: what comes before its first dot.
pub open spec fn domain_of(entity_id: Seq<char>) -> Seq<char> {
    entity_id.take(dot_index(entity_id) as int)
}

pub open spec fn kind_of_domain(d: Seq<char>) -> DeviceKind {
    if d == "switch"@ {
        DeviceKind::Switch
    } else if d == "light"@ {
        DeviceKind::Light
    } else if d == "climate"@ {
        DeviceKind::Climate
    } else if d == "sensor"@ {
        DeviceKind::Sensor
    } else if d == "binary_sensor"@ {
        DeviceKind::BinarySensor
    } else if d == "number"@ {
        DeviceKind::Number
    } else {
        DeviceKind::Unknown
    }
}

proof fn lemma_dot_index(s: Seq<char>, i: int)
    requires
        0 <= i <= s.len(),
        forall|j: int| 0 <= j < i ==> s[j] != '.',
        i == s.len() || s[i] == '.',
    ensures
        dot_index(s) == i,
    decreases s.len(),
{
    if s.len() > 0 && s[0] != '.' {
        assert forall|j: int| 0 <= j < i - 1 implies s.drop_first()[j] != '.' by {
            assert(s.drop_first()[j] == s[j + 1]);
        }
        lemma_dot_index(s.drop_first(), i - 1);
    }
}

/// The domain of an entity id.
pub fn entity_domain(entity_id: &str) -> (r: String)
    ensures
        r@ == domain_of(entity_id@),
{
    let n = entity_id.unicode_len();
    let mut i: usize = 0;
    while i < n && entity_id.get_char(i) != '.'
        invariant
            n == entity_id@.len(),
            i <= n,
            forall|j: int| 0 <= j < i ==> entity_id@[j] != '.',
        decreases n - i,
    {
        i = i + 1;
    }
    proof {
        lemma_dot_index(entity_id@, i as int);
    }
    String::from_str(entity_id.substring_char(0, i))
}

/// An entity together with the kind that its domain names.
#[derive(Clone, Debug)]
pub enum SmartDevice {
    Switch(Entity),
    Light(Entity),
    Climate(Entity),
    Sensor(Entity),
    BinarySensor(Entity),
    Number(Entity),
    Unknown(Entity),
}

/// A hub service that a button press calls.
#[derive(Clone, Copy, Debug, PartialEq, Eq, Structural)]
pub enum Service {
    Toggle,
    TurnOn,
    TurnOff,
    SetTemperature,
}

impl Service {
    pub open spec fn spec_name(self) -> Seq<char> {
        match self {
            Service::Toggle => "toggle"@,
            Service::TurnOn => "turn_on"@,
            Service::TurnOff => "turn_off"@,
            Service::SetTemperature => "set_temperature"@,
        }
    }

    /// The service's name in the hub's API.
    pub fn name(&self) -> (r: &'static str)
        ensures
            r@ == self.spec_name(),
    {
        match self {
            Service::Toggle => "toggle",
            Service::TurnOn => "turn_on",
            Service::TurnOff => "turn_off",
            Service::SetTemperature => "set_temperature",
        }
    }
}

/// Data sent along with a service call.
#[derive(Clone, Copy, Debug, PartialEq, Eq, Structural)]
pub enum ServiceData {
    Brightness(u8),
    /// Bit pattern of an IEEE-754 single-precision temperature.
    Temperature(u32),
}

/// What a press amounts to once nothing more is to be called.
#[derive(Clone, Copy, Debug, PartialEq, Eq, Structural)]
pub enum Outcome {
    Processed,
    RequiresDetail,
    /// The user is to type the hours of a chart.
    RequiresGraphInterval,
}

/// What a failed service call amounts to.
#[derive(Clone, Copy, Debug, PartialEq, Eq, Structural)]
pub enum CallFailure {
    /// The failure is not reported; the press counts as processed.
    Ignored,
    ServiceFailed,
    BrightnessFailed,
    TemperatureFailed,
}

/// The decision for one press.
#[derive(Clone, Copy, Debug, PartialEq, Eq, Structural)]
pub enum ClickPlan {
    Done(Outcome),
    Call { service: Service, data: Option<ServiceData>, on_success: Outcome, on_failure: CallFailure },
}

pub open spec fn switch_plan(action: DeviceAction) -> ClickPlan {
    match action {
        DeviceAction::SetLevel(v) => ClickPlan::Call {
            service: Service::TurnOn,
            data: Some(ServiceData::Brightness(v)),
            on_success: Outcome::Processed,
            on_failure: CallFailure::BrightnessFailed,
        },
        _ => ClickPlan::Call {
            service: match action {
                DeviceAction::TurnOn => Service::TurnOn,
                DeviceAction::TurnOff => Service::TurnOff,
                _ => Service::Toggle,
            },
            data: None,
            on_success: Outcome::Processed,
            on_failure: CallFailure::ServiceFailed,
        },
    }
}

/// What a press with `action` does on a device of kind `kind`.
pub open spec fn click_plan(kind: DeviceKind, action: DeviceAction) -> ClickPlan {
    match kind {
        DeviceKind::Light | DeviceKind::Switch => switch_plan(action),
        DeviceKind::Climate => match action {
            DeviceAction::SetTemperature(t) => ClickPlan::Call {
                service: Service::SetTemperature,
                data: Some(ServiceData::Temperature(t)),
                on_success: Outcome::RequiresDetail,
                on_failure: CallFailure::TemperatureFailed,
            },
            DeviceAction::Toggle => ClickPlan::Call {
                service: Service::Toggle,
                data: None,
                on_success: Outcome::Processed,
                on_failure: CallFailure::Ignored,
            },
            _ => ClickPlan::Done(Outcome::RequiresDetail),
        },
        DeviceKind::Sensor | DeviceKind::BinarySensor => match action {
            DeviceAction::EnterManualInput => ClickPlan::Done(Outcome::RequiresGraphInterval),
            _ => ClickPlan::Done(Outcome::RequiresDetail),
        },
        DeviceKind::Number => ClickPlan::Done(Outcome::RequiresDetail),
        DeviceKind::Unknown => ClickPlan::Call {
            service: Service::Toggle,
            data: None,
            on_success: Outcome::Processed,
            on_failure: CallFailure::Ignored,
        },
    }
}

pub open spec fn failure_message(f: CallFailure) -> Seq<char> {
    match f {
        CallFailure::Ignored => Seq::empty(),
        CallFailure::ServiceFailed => "HA Service Call Failed"@,
        CallFailure::BrightnessFailed => "Failed to set brightness"@,
        CallFailure::TemperatureFailed => "Failed to set temperature"@,
    }
}

/// The executor's report for an outcome.
pub open spec fn outcome_is(r: InteractionResult, o: Outcome) -> bool {
    match o {
        Outcome::Processed => r is Processed,
        Outcome::RequiresDetail => r is RequiresDetail,
        Outcome::RequiresGraphInterval => r matches InteractionResult::RequiresInput(
            InputIntent::DefineGraphInterval { device_id, room_id },
        ) && device_id == 0 && room_id == 0,
    }
}

impl Outcome {
    pub fn to_result(self) -> (r: InteractionResult)
        ensures
            outcome_is(r, self),
    {
        match self {
            Outcome::Processed => InteractionResult::Processed,
            Outcome::RequiresDetail => InteractionResult::RequiresDetail,
            Outcome::RequiresGraphInterval => InteractionResult::RequiresInput(
                InputIntent::DefineGraphInterval { device_id: 0, room_id: 0 },
            ),
        }
    }
}

impl ClickPlan {
    /// The executor's report once the planned call, if any, has succeeded or not.
    pub fn finish(self, call_succeeded: bool) -> (r: InteractionResult)
        ensures
            match self {
                ClickPlan::Done(o) => outcome_is(r, o),
                ClickPlan::Call { on_success, on_failure, .. } => if call_succeeded {
                    outcome_is(r, on_success)
                } else if on_failure == CallFailure::Ignored {
                    r is Processed
                } else {
                    r is Error && r->error@ == failure_message(on_failure)
                },
            },
    {
        match self {
            ClickPlan::Done(o) => o.to_result(),
            ClickPlan::Call { on_success, on_failure, .. } => {
                if call_succeeded {
                    on_success.to_result()
                } else {
                    match on_failure {
                        CallFailure::Ignored => InteractionResult::Processed,
                        CallFailure::ServiceFailed => InteractionResult::Error {
                            error: String::from_str("HA Service Call Failed"),
                        },
                        CallFailure::BrightnessFailed => InteractionResult::Error {
                            error: String::from_str("Failed to set brightness"),
                        },
                        CallFailure::TemperatureFailed => InteractionResult::Error {
                            error: String::from_str("Failed to set temperature"),
                        },
                    }
                }
            },
        }
    }
}

impl SmartDevice {
    pub open spec fn kind(&self) -> DeviceKind {
        match self {
            SmartDevice::Switch(_) => DeviceKind::Switch,
            SmartDevice::Light(_) => DeviceKind::Light,
            SmartDevice::Climate(_) => DeviceKind::Climate,
            SmartDevice::Sensor(_) => DeviceKind::Sensor,
            SmartDevice::BinarySensor(_) => DeviceKind::BinarySensor,
            SmartDevice::Number(_) => DeviceKind::Number,
            SmartDevice::Unknown(_) => DeviceKind::Unknown,
        }
    }

    pub open spec fn entity(&self) -> Entity {
        match self {
            SmartDevice::Switch(e) => *e,
            SmartDevice::Light(e) => *e,
            SmartDevice::Climate(e) => *e,
            SmartDevice::Sensor(e) => *e,
            SmartDevice::BinarySensor(e) => *e,
            SmartDevice::Number(e) => *e,
            SmartDevice::Unknown(e) => *e,
        }
    }

    /// The domain under which the device's services are called.
    pub open spec fn spec_domain(&self) -> Seq<char> {
        match self.kind() {
            DeviceKind::Switch => "switch"@,
            DeviceKind::Light => "light"@,
            DeviceKind::Climate => "climate"@,
            DeviceKind::Sensor => "sensor"@,
            DeviceKind::BinarySensor => "binary_sensor"@,
            DeviceKind::Number => "number"@,
            DeviceKind::Unknown => domain_of(self.entity().entity_id@),
        }
    }

    /// The device's kind.
    pub fn device_kind(&self) -> (r: DeviceKind)
        ensures
            r == self.kind(),
    {
        match self {
            SmartDevice::Switch(_) => DeviceKind::Switch,
            SmartDevice::Light(_) => DeviceKind::Light,
            SmartDevice::Climate(_) => DeviceKind::Climate,
            SmartDevice::Sensor(_) => DeviceKind::Sensor,
            SmartDevice::BinarySensor(_) => DeviceKind::BinarySensor,
            SmartDevice::Number(_) => DeviceKind::Number,
            SmartDevice::Unknown(_) => DeviceKind::Unknown,
        }
    }

    /// Wraps an entity in the kind that the domain of its id names.
    pub fn new(entity: Entity) -> (r: SmartDevice)
        ensures
            r.kind() == kind_of_domain(domain_of(entity.entity_id@)),
            r.entity() == entity,
    {
        let domain = entity_domain(entity.entity_id.as_str());
        let d = domain.as_str();
        if crate::text::str_eq(d, "switch") {
            SmartDevice::Switch(entity)
        } else if crate::text::str_eq(d, "light") {
            SmartDevice::Light(entity)
        } else if crate::text::str_eq(d, "climate") {
            SmartDevice::Climate(entity)
        } else if crate::text::str_eq(d, "sensor") {
            SmartDevice::Sensor(entity)
        } else if crate::text::str_eq(d, "binary_sensor") {
            SmartDevice::BinarySensor(entity)
        } else if crate::text::str_eq(d, "number") {
            SmartDevice::Number(entity)
        } else {
            SmartDevice::Unknown(entity)
        }
    }

    /// The entity and the domain of its services.
    pub fn get_info(&self) -> (r: (&Entity, String))
        ensures
            *r.0 == self.entity(),
            r.1@ == self.spec_domain(),
    {
        match self {
            SmartDevice::Light(e) => (e, String::from_str("light")),
            SmartDevice::Switch(e) => (e, String::from_str("switch")),
            SmartDevice::Climate(e) => (e, String::from_str("climate")),
            SmartDevice::Sensor(e) => (e, String::from_str("sensor")),
            SmartDevice::BinarySensor(e) => (e, String::from_str("binary_sensor")),
            SmartDevice::Number(e) => (e, String::from_str("number")),
            SmartDevice::Unknown(e) => (e, entity_domain(e.entity_id.as_str())),
        }
    }

    /// The device class of the entity, or the empty text.
    pub open spec fn class(&self) -> Seq<char> {
        match self.entity().device_class {
            Some(c) => c@,
            None => Seq::empty(),
        }
    }

    /// The button label: icon and alias.
    pub fn render_button_text(&self, alias: &str) -> (r: String)
        ensures
            r@ == device_icon(self.spec_domain(), self.class(), self.entity().state@) + " "@
                + alias@,
    {
        proof {
            reveal_strlit("");
        }
        let (entity, domain) = self.get_info();
        let class: &str = match &entity.device_class {
            Some(c) => c.as_str(),
            None => "",
        };
        assert(class@ == self.class());
        assert(entity.state@ == self.entity().state@);
        assert(domain@ == self.spec_domain());
        StateFormatter::format_device_label(alias, domain.as_str(), class, entity.state.as_str())
    }

    /// The button label with the shown state; `number` is the state with two
    /// decimals where it reads as a number.
    pub fn render_button_text_with_state(&self, alias: &str, number: Option<&str>) -> (r: String)
        ensures
            r@ == device_icon(self.spec_domain(), self.class(), self.entity().state@) + " "@
                + alias@ + " ("@ + state_value(
                self.spec_domain(),
                self.class(),
                self.entity().state@,
                opt_view(number),
            ) + ")"@,
    {
        proof {
            reveal_strlit("");
        }
        let (entity, domain) = self.get_info();
        let class: &str = match &entity.device_class {
            Some(c) => c.as_str(),
            None => "",
        };
        assert(class@ == self.class());
        assert(entity.state@ == self.entity().state@);
        StateFormatter::format_device_label_with_state(
            alias,
            domain.as_str(),
            class,
            entity.state.as_str(),
            number,
        )
    }

    /// Which service, if any, a press with `action` calls on this device.
    pub fn plan_click(&self, action: DeviceAction) -> (r: ClickPlan)
        ensures
            r == click_plan(self.kind(), action),
    {
        match self {
            SmartDevice::Light(_) | SmartDevice::Switch(_) => match action {
                DeviceAction::SetLevel(v) => ClickPlan::Call {
                    service: Service::TurnOn,
                    data: Some(ServiceData::Brightness(v)),
                    on_success: Outcome::Processed,
                    on_failure: CallFailure::BrightnessFailed,
                },
                _ => {
                    let service = match action {
                        DeviceAction::TurnOn => Service::TurnOn,
                        DeviceAction::TurnOff => Service::TurnOff,
                        _ => Service::Toggle,
                    };
                    ClickPlan::Call {
                        service,
                        data: None,
                        on_success: Outcome::Processed,
                        on_failure: CallFailure::ServiceFailed,
                    }
                },
            },
            SmartDevice::Climate(_) => match action {
                DeviceAction::SetTemperature(t) => ClickPlan::Call {
                    service: Service::SetTemperature,
                    data: Some(ServiceData::Temperature(t)),
                    on_success: Outcome::RequiresDetail,
                    on_failure: CallFailure::TemperatureFailed,
                },
                DeviceAction::Toggle => ClickPlan::Call {
                    service: Service::Toggle,
                    data: None,
                    on_success: Outcome::Processed,
                    on_failure: CallFailure::Ignored,
                },
                _ => ClickPlan::Done(Outcome::RequiresDetail),
            },
            SmartDevice::Sensor(_) | SmartDevice::BinarySensor(_) => match action {
                DeviceAction::EnterManualInput => ClickPlan::Done(Outcome::RequiresGraphInterval),
                _ => ClickPlan::Done(Outcome::RequiresDetail),
            },
            SmartDevice::Number(_) => ClickPlan::Done(Outcome::RequiresDetail),
            SmartDevice::Unknown(_) => ClickPlan::Call {
                service: Service::Toggle,
                data: None,
                on_success: Outcome::Processed,
                on_failure: CallFailure::Ignored,
            },
        }
    }
}

} // verus!
