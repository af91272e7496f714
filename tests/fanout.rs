use hub_remote::codec::{ControlPayload, Payload};
use hub_remote::fanout::{
    event_message, has_subscriber, heartbeat_targets, is_state_change, plan_event, refresh_targets,
    watches_room, NotifyEvent,
};
use hub_remote::queue::{BoundedQueue, Offer, EVENT_QUEUE_CAPACITY};
use hub_remote::session::UserSession;
use hub_remote::stream::{
    Backoff, ConnState, FrameKind, Listener, StreamAction, StreamEvent, BACKOFF_CAP_MS,
    BACKOFF_FLOOR_MS,
};

fn session(message: i32, p: Payload) -> UserSession {
    UserSession { last_menu_id: message, current_context: p.to_string(), header_entities: vec![] }
}

fn kitchen_event(old: &str, new: &str) -> NotifyEvent {
    NotifyEvent {
        entity_id: "light.kitchen".to_string(),
        old_state: old.to_string(),
        new_state: new.to_string(),
        friendly_name: "Kitchen light".to_string(),
        device_class: None,
    }
}

#[test]
fn kitchen_event_redraws_only_the_watching_user() {
    let kitchen_room = 3i64;
    let sessions = vec![
        (2u64, session(20, Payload::Control(ControlPayload::RoomDetail { room: kitchen_room }))),
        (3u64, session(30, Payload::Control(ControlPayload::RoomDetail { room: 4 }))),
    ];
    let plan = plan_event(&kitchen_event("off", "on"), &sessions, Some(kitchen_room), &vec![]);
    assert!(plan.record);
    assert!(!plan.notify);
    assert_eq!(plan.refresh.len(), 1);
    assert_eq!(plan.refresh[0].user, 2);
    assert_eq!(plan.refresh[0].message_id, 20);
    assert_eq!(
        Payload::from_string(&plan.refresh[0].context),
        Ok(Payload::Control(ControlPayload::RoomDetail { room: kitchen_room }))
    );
}

#[test]
fn unchanged_state_renders_and_logs_nothing() {
    let sessions = vec![(2u64, session(20, Payload::Control(ControlPayload::RoomDetail { room: 3 })))];
    let event = kitchen_event("on", "on");
    assert!(!is_state_change(&event));
    let plan = plan_event(&event, &sessions, Some(3), &vec![2]);
    assert!(!plan.record);
    assert!(plan.refresh.is_empty());
    assert!(!plan.notify);
}

#[test]
fn subscribers_are_redrawn_and_notified() {
    let sessions = vec![
        (5u64, session(50, Payload::Home)),
        (6u64, session(60, Payload::Control(ControlPayload::DeviceControl { room: 9, device: 1 }))),
        (7u64, session(70, Payload::Home)),
    ];
    let plan = plan_event(&kitchen_event("off", "on"), &sessions, Some(9), &vec![7]);
    let users: Vec<u64> = plan.refresh.iter().map(|t| t.user).collect();
    assert_eq!(users, vec![6, 7]);
    assert!(plan.notify);
    assert!(has_subscriber(&vec![1, 7], 7));
    assert!(!has_subscriber(&vec![], 7));
    let none = refresh_targets(&sessions, None, &vec![]);
    assert!(none.is_empty());
    assert_eq!(heartbeat_targets(&sessions).len(), 3);
}

#[test]
fn watching_needs_a_room_screen() {
    let room = Payload::Control(ControlPayload::RoomDetail { room: 8 }).to_string();
    assert!(watches_room(&room, 8));
    assert!(!watches_room(&room, 9));
    assert!(!watches_room("not a context", 8));
    assert!(!watches_room(&Payload::Home.to_string(), 8));
}

#[test]
fn push_message_text() {
    let msg = event_message(&kitchen_event("off", "on"), Some("Кухня"), "Лампа", None);
    assert_eq!(msg, "💡*Кухня* •  Лампа: *ВКЛ*");
    let t = NotifyEvent {
        entity_id: "sensor.temp".to_string(),
        old_state: "20.1".to_string(),
        new_state: "21.5".to_string(),
        friendly_name: "T".to_string(),
        device_class: Some("temperature".to_string()),
    };
    assert_eq!(event_message(&t, None, "Термометр", Some("21.50")), "🌡 Термометр: *21.50°C*");
}

#[test]
fn full_queue_drops_exactly_one() {
    let mut q: BoundedQueue<u32> = BoundedQueue::new(EVENT_QUEUE_CAPACITY);
    let mut dropped_reports = 0;
    for i in 0..(EVENT_QUEUE_CAPACITY as u32 + 1) {
        if q.offer(i) == Offer::Dropped {
            dropped_reports += 1;
        }
    }
    assert_eq!(dropped_reports, 1);
    assert_eq!(q.dropped(), 1);
    assert_eq!(q.len(), EVENT_QUEUE_CAPACITY);
    assert_eq!(q.take(), Some(0));
    assert_eq!(q.offer(99), Offer::Queued);
}

#[test]
fn backoff_doubles_to_cap_and_resets() {
    let mut b = Backoff::new();
    let mut waits = vec![];
    for _ in 0..9 {
        waits.push(b.on_failure());
    }
    assert_eq!(waits, vec![500, 1000, 2000, 4000, 8000, 16000, 30000, 30000, 30000]);
    for w in waits.windows(2) {
        assert!(w[0] <= w[1]);
    }
    b.on_success();
    assert_eq!(b.current_ms(), BACKOFF_FLOOR_MS);
    assert_eq!(BACKOFF_CAP_MS, 30000);
}

#[test]
fn listener_walks_through_subscription() {
    let mut l = Listener::new();
    assert_eq!(l.step(StreamEvent::Start), StreamAction::Connect);
    assert_eq!(l.step(StreamEvent::ConnectFailed), StreamAction::Sleep { ms: 500 });
    assert_eq!(l.step(StreamEvent::Start), StreamAction::Connect);
    assert_eq!(l.step(StreamEvent::Connected), StreamAction::Ignore);
    assert_eq!(l.step(StreamEvent::Frame(FrameKind::Empty)), StreamAction::Ignore);
    assert_eq!(l.step(StreamEvent::Frame(FrameKind::StateChanged)), StreamAction::Ignore);
    assert_eq!(l.step(StreamEvent::Frame(FrameKind::AuthRequired)), StreamAction::SendAuth);
    assert_eq!(l.step(StreamEvent::Frame(FrameKind::AuthOk)), StreamAction::Subscribe { id: 2 });
    assert_eq!(l.state, ConnState::Subscribed);
    assert_eq!(l.step(StreamEvent::Frame(FrameKind::Malformed)), StreamAction::Ignore);
    assert_eq!(l.step(StreamEvent::Frame(FrameKind::StateChanged)), StreamAction::Forward);
    assert_eq!(l.step(StreamEvent::Closed), StreamAction::Sleep { ms: 500 });
    assert_eq!(l.state, ConnState::Disconnected);
}

#[test]
fn request_ids_wrap_and_subscription_resets_backoff() {
    let mut l = Listener::new();
    l.step(StreamEvent::ConnectFailed);
    l.step(StreamEvent::ConnectFailed);
    l.last_id = u64::MAX;
    assert_eq!(l.step(StreamEvent::Frame(FrameKind::AuthOk)), StreamAction::Subscribe { id: 1 });
    assert_eq!(l.backoff.current_ms(), BACKOFF_FLOOR_MS);
    assert_eq!(l.step(StreamEvent::Closed), StreamAction::Sleep { ms: 500 });
    assert_eq!(l.step(StreamEvent::Closed), StreamAction::Sleep { ms: 1000 });
}

#[test]
fn each_reached_screen_is_redrawn_once() {
    let sessions = vec![
        (1u64, session(10, Payload::Control(ControlPayload::RoomDetail { room: 3 }))),
        (2u64, session(20, Payload::Home)),
        (3u64, session(30, Payload::Control(ControlPayload::DeviceControl { room: 3, device: 4 }))),
        (4u64, session(40, Payload::Control(ControlPayload::RoomDetail { room: 5 }))),
    ];
    let targets = refresh_targets(&sessions, Some(3), &vec![4]);
    let got: Vec<(u64, i32)> = targets.iter().map(|t| (t.user, t.message_id)).collect();
    assert_eq!(got, vec![(1, 10), (3, 30), (4, 40)]);
    assert_eq!(targets[1].context, sessions[2].1.current_context);
}
