//! The session store: per user, the message last shown and the intent it
//! shows, kept in a concurrent map.
use vstd::prelude::*;
use dashmap::DashMap;

verus! {

/// One user's session.
#[derive(Clone, Debug)]
pub struct UserSession {
    /// The platform's id of the message that shows the user's screen.
    pub last_menu_id: i32,
    /// The text form of the intent that the message shows.
    pub current_context: String,
    /// Entities that the user pinned to the screen header.
    pub header_entities: Vec<String>,
}

/// A session as a value: message id, context text, pinned entity ids.
pub type SessionView = (i32, Seq<char>, Seq<Seq<char>>);

pub open spec fn strings_view(v: Seq<String>) -> Seq<Seq<char>> {
    v.map_values(|s: String| s@)
}

impl UserSession {
    pub open spec fn view(&self) -> SessionView {
        (self.last_menu_id, self.current_context@, strings_view(self.header_entities@))
    }
}

#[verifier::external_type_specification]
#[verifier::external_body]
#[verifier::reject_recursive_types(K)]
#[verifier::reject_recursive_types(V)]
#[verifier::reject_recursive_types(S)]
pub struct ExDashMap<K, V, S>(DashMap<K, V, S>);

/// What a session map holds, by user id.
pub uninterp spec fn sessions_of(m: DashMap<u64, UserSession>) -> Map<u64, SessionView>;

/// Relies on `DashMap::new`: an empty map.
#[verifier::external_body]
fn map_new() -> (r: DashMap<u64, UserSession>)
    ensures
        forall|k: u64| !sessions_of(r).contains_key(k),
{
    DashMap::new()
}

/// Relies on `DashMap::get`: the value under `key`, if any (cloned out of the guard).
#[verifier::external_body]
fn map_get(m: &DashMap<u64, UserSession>, key: u64) -> (r: Option<UserSession>)
    ensures
        r is Some <==> sessions_of(*m).contains_key(key),
        r matches Some(s) ==> s.view() == sessions_of(*m)[key],
{
    m.get(&key).map(|e| e.value().clone())
}

/// Relies on `DashMap::insert`: `key` now maps to `value`, other keys keep theirs.
#[verifier::external_body]
fn map_insert(m: &mut DashMap<u64, UserSession>, key: u64, value: UserSession)
    ensures
        sessions_of(*final(m)) == sessions_of(*old(m)).insert(key, value.view()),
{
    m.insert(key, value);
}

/// Relies on `DashMap::iter`: each entry once, in an order that is not specified.
#[verifier::external_body]
fn map_entries(m: &DashMap<u64, UserSession>) -> (r: Vec<(u64, UserSession)>)
    ensures
        forall|i: int|
            0 <= i < r@.len() ==> sessions_of(*m).contains_key(#[trigger] r@[i].0)
                && r@[i].1.view() == sessions_of(*m)[r@[i].0],
        forall|i: int, j: int| 0 <= i < j < r@.len() ==> r@[i].0 != r@[j].0,
        forall|k: u64|
            sessions_of(*m).contains_key(k) ==> exists|i: int| 0 <= i < r@.len() && #[trigger] r@[i].0 == k,
{
    m.iter().map(|e| (*e.key(), e.value().clone())).collect()
}

/// The session after an upsert: the new message id and context, with the
/// pinned entities of the earlier session, if there was one.
pub open spec fn upserted(m: Map<u64, SessionView>, user: u64, message_id: i32, context: Seq<char>) -> Map<u64, SessionView> {
    let pinned = if m.contains_key(user) {
        m[user].2
    } else {
        Seq::empty()
    };
    m.insert(user, (message_id, context, pinned))
}

/// Sessions by user id.
///
/// Writes take `&mut self`, so that every change is stated over the store's
/// contents; a caller that shares the store between tasks holds it behind one
/// lock. The map inside is a concurrent map keyed by user, so entries are
/// replaced one key at a time.
pub struct SessionStore {
    map: DashMap<u64, UserSession>,
}

impl SessionStore {
    pub closed spec fn view(&self) -> Map<u64, SessionView> {
        sessions_of(self.map)
    }

    pub fn new() -> (r: SessionStore)
        ensures
            r.view() == Map::<u64, SessionView>::empty(),
    {
        let r = SessionStore { map: map_new() };
        assert(r.view() =~= Map::<u64, SessionView>::empty());
        r
    }

    /// The session of `user`, if there is one.
    pub fn get(&self, user: u64) -> (r: Option<UserSession>)
        ensures
            r is Some <==> self.view().contains_key(user),
            r matches Some(s) ==> s.view() == self.view()[user],
    {
        map_get(&self.map, user)
    }

    /// Records that `user` now sees `message_id` showing `context`; keeps the
    /// pinned entities of the earlier session.
    pub fn upsert(&mut self, user: u64, message_id: i32, context: String)
        ensures
            final(self).view() == upserted(old(self).view(), user, message_id, context@),
    {
        let pinned: Vec<String> = match map_get(&self.map, user) {
            Some(s) => s.header_entities,
            None => Vec::new(),
        };
        proof {
            assert(strings_view(Seq::<String>::empty()) =~= Seq::<Seq<char>>::empty());
        }
        map_insert(
            &mut self.map,
            user,
            UserSession { last_menu_id: message_id, current_context: context, header_entities: pinned },
        );
    }

    /// Puts back a session as it was saved, replacing any in memory.
    pub fn restore(&mut self, user: u64, session: UserSession)
        ensures
            final(self).view() == old(self).view().insert(user, session.view()),
    {
        map_insert(&mut self.map, user, session);
    }

    /// Every session with its user id, each once.
    pub fn list(&self) -> (r: Vec<(u64, UserSession)>)
        ensures
            forall|i: int|
                0 <= i < r@.len() ==> self.view().contains_key(#[trigger] r@[i].0)
                    && r@[i].1.view() == self.view()[r@[i].0],
            forall|i: int, j: int| 0 <= i < j < r@.len() ==> r@[i].0 != r@[j].0,
            forall|k: u64|
                self.view().contains_key(k) ==> exists|i: int| 0 <= i < r@.len() && #[trigger] r@[i].0 == k,
    {
        map_entries(&self.map)
    }
}

/// Recording the same message and context twice leaves the sessions as one
/// recording does.
pub proof fn lemma_upsert_idempotent(m: Map<u64, SessionView>, user: u64, message_id: i32, context: Seq<char>)
    ensures
        upserted(upserted(m, user, message_id, context), user, message_id, context) == upserted(
            m,
            user,
            message_id,
            context,
        ),
{
    assert(upserted(upserted(m, user, message_id, context), user, message_id, context) =~= upserted(
        m,
        user,
        message_id,
        context,
    ));
}

} // verus!
