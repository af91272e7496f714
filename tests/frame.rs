use hub_remote::frame::{classify_frame, read_frame};
use hub_remote::stream::FrameKind;

#[test]
fn frames_are_classified_and_read() {
    assert_eq!(read_frame("").kind, FrameKind::Empty);
    assert_eq!(read_frame("{not json").kind, FrameKind::Malformed);
    assert_eq!(read_frame(r#"{"type":"auth_required"}"#).kind, FrameKind::AuthRequired);
    assert_eq!(read_frame(r#"{"type":"auth_ok"}"#).kind, FrameKind::AuthOk);
    assert_eq!(read_frame(r#"{"type":"result","success":true}"#).kind, FrameKind::Other);
    assert_eq!(classify_frame(Some("event"), Some("call_service")), FrameKind::Other);
    let f = read_frame(
        r#"{"type":"event","event":{"event_type":"state_changed","data":{"entity_id":"light.kitchen",
        "old_state":{"state":"off"},"new_state":{"state":"on","attributes":{"friendly_name":"Kitchen"}}}}}"#,
    );
    assert_eq!(f.kind, FrameKind::StateChanged);
    let e = f.event.expect("event");
    assert_eq!(e.entity_id, "light.kitchen");
    assert_eq!(e.old_state, "off");
    assert_eq!(e.new_state, "on");
    assert_eq!(e.friendly_name, "Kitchen");
    assert_eq!(e.device_class, None);
    let classed = read_frame(
        r#"{"type":"event","event":{"event_type":"state_changed","data":{"entity_id":"binary_sensor.door",
        "new_state":{"state":"on","attributes":{"device_class":"door"}}}}}"#,
    );
    let d = classed.event.expect("event");
    assert_eq!(d.old_state, "");
    assert_eq!(d.device_class.as_deref(), Some("door"));
    assert_eq!(read_frame("[1, 2]").kind, FrameKind::Other);
    let bare = read_frame(r#"{"type":"event","event":{"event_type":"state_changed","data":{}}}"#);
    assert_eq!(bare.event.expect("event").friendly_name, "Устройство");
}
