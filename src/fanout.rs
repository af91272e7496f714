//! Which open screens a device-state event reaches, and the push message it
//! makes for the device's subscribers.
use vstd::prelude::*;
use crate::codec::{text_payload, ControlPayload, Payload};
use crate::devices::{domain_of, entity_domain};
use crate::presentation::{device_icon, opt_view, state_value, StateFormatter};
use crate::session::{SessionView, UserSession};
use crate::text::str_eq;

verus! {

/// A state change pushed by the hub.
#[derive(Clone, Debug, Default)]
pub struct NotifyEvent {
    pub entity_id: String,
    pub old_state: String,
    pub new_state: String,
    pub friendly_name: String,
    pub device_class: Option<String>,
}

/// A screen to resolve again and redraw: whose, in which message, from which intent.
#[derive(Clone, Debug)]
pub struct RefreshTarget {
    pub user: u64,
    pub message_id: i32,
    pub context: String,
}

/// Whether an event changes anything. Events that do not are dropped before
/// they are logged or fanned out.
pub fn is_state_change(event: &NotifyEvent) -> (r: bool)
    ensures
        r == (event.old_state@ != event.new_state@),
{
    !str_eq(event.old_state.as_str(), event.new_state.as_str())
}

/// Whether a screen shows the room `room`: its intent is that room's detail
/// or a device control in it.
pub open spec fn watches(context: Seq<char>, room: i64) -> bool {
    match text_payload(context) {
        Some(Payload::Control(ControlPayload::RoomDetail { room: r })) => r == room,
        Some(Payload::Control(ControlPayload::DeviceControl { room: r, .. })) => r == room,
        _ => false,
    }
}

pub open spec fn is_subscriber(subscribers: Seq<i64>, user: u64) -> bool {
    exists|i: int| 0 <= i < subscribers.len() && subscribers[i] as u64 == user
}

/// Whether an event about an entity in `room` (if it has one), with these
/// subscribers, reaches the screen of `user` showing `context`.
pub open spec fn reaches(user: u64, context: Seq<char>, room: Option<i64>, subscribers: Seq<i64>) -> bool {
    (room matches Some(r) && watches(context, r)) || is_subscriber(subscribers, user)
}

/// A redraw as a value: user, message id, context text.
pub type TargetView = (u64, i32, Seq<char>);

/// The screens, in session order, that the event reaches.
pub open spec fn reached(
    sessions: Seq<(u64, SessionView)>,
    room: Option<i64>,
    subscribers: Seq<i64>,
) -> Seq<TargetView>
    decreases sessions.len(),
{
    if sessions.len() == 0 {
        Seq::empty()
    } else {
        let init = reached(sessions.drop_last(), room, subscribers);
        let (user, s) = sessions.last();
        if reaches(user, s.1, room, subscribers) {
            init.push((user, s.0, s.1))
        } else {
            init
        }
    }
}

pub open spec fn sessions_view(sessions: Seq<(u64, UserSession)>) -> Seq<(u64, SessionView)> {
    sessions.map_values(|e: (u64, UserSession)| (e.0, e.1.view()))
}

pub open spec fn targets_view(targets: Seq<RefreshTarget>) -> Seq<TargetView> {
    targets.map_values(|t: RefreshTarget| (t.user, t.message_id, t.context@))
}

pub open spec fn distinct_users(sessions: Seq<(u64, SessionView)>) -> bool {
    forall|i: int, j: int| 0 <= i < j < sessions.len() ==> sessions[i].0 != sessions[j].0
}

/// `t` is the redraw of a session that the event reaches.
pub open spec fn from_reached_session(
    sessions: Seq<(u64, SessionView)>,
    t: TargetView,
    room: Option<i64>,
    subscribers: Seq<i64>,
) -> bool {
    exists|i: int|
        0 <= i < sessions.len() && t == (#[trigger] sessions[i].0, sessions[i].1.0, sessions[i].1.1)
            && reaches(sessions[i].0, sessions[i].1.1, room, subscribers)
}

/// With one session per user, an event redraws each screen it reaches
/// exactly once, in that session's message and from its context, and no
/// other screen.
pub proof fn lemma_reached_exact(
    sessions: Seq<(u64, SessionView)>,
    room: Option<i64>,
    subscribers: Seq<i64>,
)
    requires
        distinct_users(sessions),
    ensures
        forall|i: int|
            0 <= i < sessions.len() ==> (reaches(
                sessions[i].0,
                sessions[i].1.1,
                room,
                subscribers,
            ) <==> reached(sessions, room, subscribers).contains(
                (sessions[i].0, sessions[i].1.0, sessions[i].1.1),
            )),
        forall|j: int, k: int|
            0 <= j < k < reached(sessions, room, subscribers).len() ==> reached(
                sessions,
                room,
                subscribers,
            )[j].0 != reached(sessions, room, subscribers)[k].0,
        forall|j: int|
            0 <= j < reached(sessions, room, subscribers).len() ==> from_reached_session(
                sessions,
                #[trigger] reached(sessions, room, subscribers)[j],
                room,
                subscribers,
            ),
    decreases sessions.len(),
{
    if sessions.len() > 0 {
        let init_s = sessions.drop_last();
        lemma_reached_exact(init_s, room, subscribers);
        let init = reached(init_s, room, subscribers);
        let res = reached(sessions, room, subscribers);
        let n = sessions.len() - 1;
        let (user, sv) = sessions.last();
        // every earlier entry comes from an earlier session, whose user differs from the last
        assert forall|j: int| 0 <= j < init.len() implies init[j].0 != user by {
            assert(from_reached_session(init_s, init[j], room, subscribers));
            let i = choose|i: int|
                0 <= i < init_s.len() && init[j] == (#[trigger] init_s[i].0, init_s[i].1.0, init_s[i].1.1)
                    && reaches(init_s[i].0, init_s[i].1.1, room, subscribers);
            assert(sessions[i] == init_s[i]);
        }
        assert forall|i: int| 0 <= i < sessions.len() implies (reaches(
            sessions[i].0,
            sessions[i].1.1,
            room,
            subscribers,
        ) <==> res.contains((sessions[i].0, sessions[i].1.0, sessions[i].1.1))) by {
            if i < n {
                assert(sessions[i] == init_s[i]);
                if res.contains((sessions[i].0, sessions[i].1.0, sessions[i].1.1)) && !init.contains(
                    (sessions[i].0, sessions[i].1.0, sessions[i].1.1),
                ) {
                    assert(sessions[i].0 != user);
                    let j = choose|j: int|
                        0 <= j < res.len() && #[trigger] res[j] == (sessions[i].0, sessions[i].1.0, sessions[i].1.1);
                    assert(j < init.len() ==> res[j] == init[j]);
                }
                if init.contains((sessions[i].0, sessions[i].1.0, sessions[i].1.1)) {
                    let j = choose|j: int|
                        0 <= j < init.len() && #[trigger] init[j] == (sessions[i].0, sessions[i].1.0, sessions[i].1.1);
                    assert(res[j] == init[j]);
                }
            } else {
                if res.contains((user, sv.0, sv.1)) && !reaches(user, sv.1, room, subscribers) {
                    let j = choose|j: int| 0 <= j < res.len() && #[trigger] res[j] == (user, sv.0, sv.1);
                    assert(res[j].0 != user);
                }
                if reaches(user, sv.1, room, subscribers) {
                    assert(res[init.len() as int] == (user, sv.0, sv.1));
                }
            }
        }
        assert forall|j: int|
            0 <= j < res.len() implies from_reached_session(sessions, #[trigger] res[j], room, subscribers) by {
            if j < init.len() {
                assert(from_reached_session(init_s, init[j], room, subscribers));
                let i = choose|i: int|
                    0 <= i < init_s.len() && init[j] == (#[trigger] init_s[i].0, init_s[i].1.0, init_s[i].1.1)
                        && reaches(init_s[i].0, init_s[i].1.1, room, subscribers);
                assert(sessions[i] == init_s[i]);
                assert(res[j] == init[j]);
            } else {
                assert(sessions[n] == (user, sv));
                assert(res[j] == (sessions[n].0, sessions[n].1.0, sessions[n].1.1));
            }
        }
    }
}

/// Whether the screen showing `context` is on room `room`.
pub fn watches_room(context: &str, room: i64) -> (r: bool)
    ensures
        r == watches(context@, room),
{
    match Payload::from_string(context) {
        Ok(Payload::Control(ControlPayload::RoomDetail { room: r })) => r == room,
        Ok(Payload::Control(ControlPayload::DeviceControl { room: r, .. })) => r == room,
        _ => false,
    }
}

/// Whether `user` is among the subscribers.
pub fn has_subscriber(subscribers: &Vec<i64>, user: u64) -> (r: bool)
    ensures
        r == is_subscriber(subscribers@, user),
{
    let mut i: usize = 0;
    while i < subscribers.len()
        invariant
            i <= subscribers@.len(),
            forall|j: int| 0 <= j < i ==> subscribers@[j] as u64 != user,
        decreases subscribers@.len() - i,
    {
        if subscribers[i] as u64 == user {
            return true;
        }
        i = i + 1;
    }
    false
}

/// The screens that an event about an entity in `room` (if any) reaches: those
/// on that room, and those of the entity's subscribers. Each keeps its
/// session's message and intent.
pub fn refresh_targets(
    sessions: &Vec<(u64, UserSession)>,
    room: Option<i64>,
    subscribers: &Vec<i64>,
) -> (r: Vec<RefreshTarget>)
    ensures
        targets_view(r@) == reached(sessions_view(sessions@), room, subscribers@),
{
    let mut out: Vec<RefreshTarget> = Vec::new();
    let mut i: usize = 0;
    while i < sessions.len()
        invariant
            i <= sessions@.len(),
            targets_view(out@) == reached(sessions_view(sessions@.take(i as int)), room, subscribers@),
        decreases sessions@.len() - i,
    {
        let (user, session) = &sessions[i];
        let watching = match room {
            Some(r) => watches_room(session.current_context.as_str(), r),
            None => false,
        };
        let reached = watching || has_subscriber(subscribers, *user);
        let ghost before = out@;
        proof {
            assert(sessions_view(sessions@.take(i + 1)).drop_last() =~= sessions_view(sessions@.take(i as int)));
            assert(sessions_view(sessions@.take(i + 1)).last() == (*user, session.view()));
        }
        if reached {
            out.push(RefreshTarget {
                user: *user,
                message_id: session.last_menu_id,
                context: session.current_context.clone(),
            });
            proof {
                assert(targets_view(out@) =~= targets_view(before).push(
                    (*user, session.last_menu_id, session.current_context@),
                ));
            }
        } else {
            assert(out@ == before);
        }
        i = i + 1;
    }
    assert(sessions@.take(sessions@.len() as int) =~= sessions@);
    out
}

/// Every open screen, for the periodic refresh.
pub fn heartbeat_targets(sessions: &Vec<(u64, UserSession)>) -> (r: Vec<RefreshTarget>)
    ensures
        r@.len() == sessions@.len(),
        forall|i: int|
            0 <= i < r@.len() ==> #[trigger] r@[i].user == sessions@[i].0
                && r@[i].message_id == sessions@[i].1.last_menu_id
                && r@[i].context@ == sessions@[i].1.current_context@,
{
    let mut out: Vec<RefreshTarget> = Vec::new();
    let mut i: usize = 0;
    while i < sessions.len()
        invariant
            i <= sessions@.len(),
            out@.len() == i,
            forall|k: int|
                0 <= k < i ==> #[trigger] out@[k].user == sessions@[k].0
                    && out@[k].message_id == sessions@[k].1.last_menu_id
                    && out@[k].context@ == sessions@[k].1.current_context@,
        decreases sessions@.len() - i,
    {
        let (user, session) = &sessions[i];
        out.push(RefreshTarget {
            user: *user,
            message_id: session.last_menu_id,
            context: session.current_context.clone(),
        });
        i = i + 1;
    }
    out
}

/// What an event leads to, once the caller has looked up the entity's room
/// and subscribers.
pub struct EventPlan {
    /// Append the event to the event log.
    pub record: bool,
    /// Screens to resolve again and redraw.
    pub refresh: Vec<RefreshTarget>,
    /// Send a push message to the subscribers.
    pub notify: bool,
}

/// Plans the handling of one event. An event that changes nothing is logged
/// nowhere, redraws nothing and notifies nobody.
pub fn plan_event(
    event: &NotifyEvent,
    sessions: &Vec<(u64, UserSession)>,
    room: Option<i64>,
    subscribers: &Vec<i64>,
) -> (r: EventPlan)
    ensures
        event.old_state@ == event.new_state@ ==> !r.record && r.refresh@.len() == 0 && !r.notify,
        event.old_state@ != event.new_state@ ==> r.record && targets_view(r.refresh@) == reached(
            sessions_view(sessions@),
            room,
            subscribers@,
        ) && r.notify == (subscribers@.len() > 0),
{
    if !is_state_change(event) {
        return EventPlan { record: false, refresh: Vec::new(), notify: false };
    }
    let refresh = refresh_targets(sessions, room, subscribers);
    EventPlan { record: true, refresh, notify: subscribers.len() > 0 }
}

pub open spec fn event_class(event: NotifyEvent) -> Seq<char> {
    match event.device_class {
        Some(c) => c@,
        None => Seq::empty(),
    }
}

/// The push message for an event: icon, room breadcrumb, the device's name
/// and its new state in bold. `number` is the new state with two decimals
/// where it reads as a number.
pub fn event_message(
    event: &NotifyEvent,
    room_name: Option<&str>,
    display_name: &str,
    number: Option<&str>,
) -> (r: String)
    ensures
        r@ == device_icon(domain_of(event.entity_id@), event_class(*event), event.new_state@)
            + match room_name {
            Some(n) => "*"@ + n@ + "* • "@,
            None => Seq::empty(),
        } + " "@ + display_name@ + ": *"@ + state_value(
            domain_of(event.entity_id@),
            event_class(*event),
            event.new_state@,
            opt_view(number),
        ) + "*"@,
{
    proof {
        reveal_strlit("");
    }
    let domain = entity_domain(event.entity_id.as_str());
    let class: &str = match &event.device_class {
        Some(c) => c.as_str(),
        None => "",
    };
    assert(class@ == event_class(*event));
    let icon = StateFormatter::get_icon(domain.as_str(), class, event.new_state.as_str());
    let value = StateFormatter::format_state_value(
        domain.as_str(),
        class,
        event.new_state.as_str(),
        number,
    );
    let mut out = String::from_str(icon);
    let ghost head = out@;
    match room_name {
        Some(n) => {
            out.append("*");
            out.append(n);
            out.append("* • ");
        },
        None => {
            assert(out@ =~= head + Seq::<char>::empty());
        },
    }
    out.append(" ");
    out.append(display_name);
    out.append(": *");
    out.append(value.as_str());
    out.append("*");
    out
}

} // verus!
