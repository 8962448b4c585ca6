//! The session state machine: the player's status, the last error and
//! combat/entity results, and the entity registry that numbers the other
//! occupants of the current room for selection.
//!
//! Each game command comes in two halves.  The command method decides
//! whether a network operation is owed and, if so, returns the request the
//! shell must perform; the matching `finish_*` method folds the operation's
//! outcome back into the state.  A command refused locally (no active
//! status) returns no request at all: no network operation happens.

use vstd::prelude::*;

use crate::model::{
    Entity, EntityView, Error, ErrorView, Fight, FightView, Room, Status, StatusView, Direction,
    message_error,
};
use crate::net::{ClientView, MunHttpClient, MunRequest, MunRequestView};
use crate::net::{attack_url, connect_url, look_entity_url, look_room_url, move_url};

verus! {

/// The error produced locally when a command that needs an active session
/// runs without one.
pub open spec fn uninitialized_error_view() -> ErrorView {
    message_error("Error while accessing player status, status is uninitialized"@)
}

/// Build the no-active-session error.
pub fn uninitialized_error() -> (e: Error)
    ensures
        e@ == uninitialized_error_view(),
{
    Error::from_error_string(
        String::from_str("Error while accessing player status, status is uninitialized"),
    )
}

/// The entity registry rebuilt from a room's occupants: the occupants other
/// than the player's own guid, in their original relative order.  Key `k`
/// (for `k` in `1..=len`) names the guid at position `k - 1`.
pub open spec fn registry(entities: Seq<Seq<char>>, self_guid: Seq<char>) -> Seq<Seq<char>>
    decreases entities.len(),
{
    if entities.len() == 0 {
        Seq::empty()
    } else {
        let rest = registry(entities.drop_last(), self_guid);
        if entities.last() == self_guid {
            rest
        } else {
            rest.push(entities.last())
        }
    }
}

/// Law: the registry of a room is exactly the non-self occupants of the
/// room, kept in the room's own relative order — the sequence of occupants
/// filtered by "is not the self guid".  With the keys `1..=len` assigned by
/// position, the key set is exactly `{1, ..., k}` for `k` the number of
/// such occupants.
pub proof fn lemma_registry_is_filter(entities: Seq<Seq<char>>, self_guid: Seq<char>)
    ensures
        registry(entities, self_guid) == entities.filter(|e: Seq<char>| e != self_guid),
    decreases entities.len(),
{
    reveal(Seq::filter);
    if entities.len() == 0 {
        assert(registry(entities, self_guid) =~= entities.filter(
            |e: Seq<char>| e != self_guid,
        ));
    } else {
        lemma_registry_is_filter(entities.drop_last(), self_guid);
    }
}

/// The player's session: status, network client, last failure, last combat
/// and entity results, and the registry keyed `1..=len` by position.
#[derive(Clone, Debug)]
pub struct Session {
    pub status: Option<Status>,
    pub client: MunHttpClient,
    pub error: Option<Error>,
    pub fight_info: Option<Fight>,
    pub entity_info: Option<Entity>,
    pub entity_map: Vec<String>,
}

/// The mathematical value of a [`Session`].
#[verifier::ext_equal]
pub ghost struct SessionView {
    pub status: Option<StatusView>,
    pub client: ClientView,
    pub error: Option<ErrorView>,
    pub fight_info: Option<FightView>,
    pub entity_info: Option<EntityView>,
    pub entity_map: Seq<Seq<char>>,
}

impl View for Session {
    type V = SessionView;

    open spec fn view(&self) -> SessionView {
        SessionView {
            status: match self.status {
                Some(st) => Some(st@),
                None => None,
            },
            client: self.client@,
            error: match self.error {
                Some(e) => Some(e@),
                None => None,
            },
            fight_info: match self.fight_info {
                Some(f) => Some(f@),
                None => None,
            },
            entity_info: match self.entity_info {
                Some(e) => Some(e@),
                None => None,
            },
            entity_map: self.entity_map.deep_view(),
        }
    }
}

impl Session {
    /// A fresh, disconnected session against the given base URL.
    pub fn new(url: String) -> (s: Session)
        ensures
            s@ == (SessionView {
                status: None,
                client: ClientView { base_url: url@, tried_once: false },
                error: None,
                fight_info: None,
                entity_info: None,
                entity_map: Seq::empty(),
            }),
    {
        let s = Session {
            status: None,
            client: MunHttpClient::new(url),
            error: None,
            fight_info: None,
            entity_info: None,
            entity_map: Vec::new(),
        };
        proof {
            assert(s@ =~= (SessionView {
                status: None,
                client: ClientView { base_url: s.client.base_url@, tried_once: false },
                error: None,
                fight_info: None,
                entity_info: None,
                entity_map: Seq::empty(),
            }));
        }
        s
    }

    /// Empty the entity registry.
    pub fn clear_entities(&mut self)
        ensures
            final(self).status == old(self).status,
            final(self).client == old(self).client,
            final(self).error == old(self).error,
            final(self).fight_info == old(self).fight_info,
            final(self).entity_info == old(self).entity_info,
            final(self)@.entity_map == Seq::<Seq<char>>::empty(),
    {
        self.entity_map.clear();
        proof {
            assert(self.entity_map.deep_view() =~= Seq::<Seq<char>>::empty());
        }
    }

    /// Rebuild the entity registry from the current status: the occupants of
    /// the room other than the player, in room order; empty when no status
    /// is held.
    pub fn update_entity_map(&mut self)
        ensures
            final(self).status == old(self).status,
            final(self).client == old(self).client,
            final(self).error == old(self).error,
            final(self).fight_info == old(self).fight_info,
            final(self).entity_info == old(self).entity_info,
            final(self)@.entity_map == (match old(self)@.status {
                Some(st) => registry(st.room.entities, st.guid),
                None => Seq::<Seq<char>>::empty(),
            }),
    {
        let m: Vec<String> = match &self.status {
            Some(status) => {
                let mut acc: Vec<String> = Vec::new();
                let mut i: usize = 0;
                proof {
                    assert(acc.deep_view() =~= registry(
                        status.room.entities.deep_view().take(0),
                        status.guid@,
                    ));
                }
                while i < status.room.entities.len()
                    invariant
                        i <= status.room.entities.len(),
                        acc.deep_view() == registry(
                            status.room.entities.deep_view().take(i as int),
                            status.guid@,
                        ),
                    decreases status.room.entities.len() - i,
                {
                    let ghost sv = status.room.entities.deep_view();
                    let ghost g = status.guid@;
                    let ghost acc0 = acc.deep_view();
                    let e: &String = &status.room.entities[i];
                    proof {
                        assert(sv.take((i + 1) as int).drop_last() =~= sv.take(i as int));
                        assert(sv.take((i + 1) as int).last() == e@);
                    }
                    let is_self = *e == status.guid;
                    if !is_self {
                        acc.push(e.clone());
                        proof {
                            assert(acc.deep_view() =~= acc0.push(e@));
                        }
                    }
                    i = i + 1;
                }
                proof {
                    assert(status.room.entities.deep_view().take(i as int)
                        =~= status.room.entities.deep_view());
                }
                acc
            }
            None => Vec::new(),
        };
        self.entity_map = m;
        proof {
            if self.status is None {
                assert(self.entity_map.deep_view() =~= Seq::<Seq<char>>::empty());
            }
        }
    }

    /// Resolve a registry key to the guid it names: `Some` exactly for the
    /// keys `1..=len` currently assigned.
    pub fn get_entity_guid(&mut self, target_key: u32) -> (r: Option<String>)
        ensures
            *final(self) == *old(self),
            1 <= target_key && target_key as int <= old(self)@.entity_map.len() ==> (r
                matches Some(g) && g@ == old(self)@.entity_map[target_key as int - 1]),
            !(1 <= target_key && target_key as int <= old(self)@.entity_map.len()) ==> r
                is None,
    {
        if target_key >= 1 && (target_key as usize) <= self.entity_map.len() {
            let idx: usize = (target_key as usize) - 1;
            Some(self.entity_map[idx].clone())
        } else {
            None
        }
    }

    /// The registry keys currently assigned, ascending: `1..=len`.
    pub fn get_entities_keys(&self) -> (r: Vec<u32>)
        requires
            self@.entity_map.len() <= u32::MAX as nat,
        ensures
            r@.len() == self@.entity_map.len(),
            forall|j: int| 0 <= j < r@.len() ==> r@[j] == j + 1,
    {
        let mut keys: Vec<u32> = Vec::new();
        let mut i: usize = 0;
        while i < self.entity_map.len()
            invariant
                self@.entity_map.len() <= u32::MAX as nat,
                i <= self.entity_map.len(),
                keys@.len() == i,
                forall|j: int| 0 <= j < i ==> keys@[j] == j + 1,
            decreases self.entity_map.len() - i,
        {
            keys.push((i as u32) + 1);
            i = i + 1;
        }
        keys
    }

    /// Drop the session entirely: status, registry, error and last results
    /// are all cleared; no network operation is involved.
    pub fn disconnect(&mut self)
        ensures
            final(self).status is None,
            final(self).client == old(self).client,
            final(self).error is None,
            final(self).fight_info is None,
            final(self).entity_info is None,
            final(self)@.entity_map == Seq::<Seq<char>>::empty(),
    {
        self.status = None;
        self.clear();
    }

    /// Whether a status is held.
    pub fn is_connected(&self) -> (r: bool)
        ensures
            r == (self@.status is Some),
    {
        match self.status {
            Some(_) => true,
            None => false,
        }
    }

    /// Replace the current room and rebuild the registry from it; without an
    /// active status nothing changes.
    pub fn update_room(&mut self, room: Room)
        ensures
            final(self).client == old(self).client,
            final(self).error == old(self).error,
            final(self).fight_info == old(self).fight_info,
            final(self).entity_info == old(self).entity_info,
            old(self)@.status matches Some(st) ==> (final(self)@.status matches Some(nst)
                && nst.guid == st.guid && nst.total_life == st.total_life && nst.room == room@
                && final(self)@.entity_map == registry(room@.entities, st.guid)),
            old(self)@.status is None ==> *final(self) == *old(self),
    {
        match &mut self.status {
            Some(status) => {
                status.room = room;
            }
            None => {
                return ;
            }
        }
        self.update_entity_map();
    }

    /// The guid of the active status, or the local no-session error.
    pub fn get_guid(&self) -> (r: Result<String, Error>)
        ensures
            self@.status matches Some(st) ==> (r matches Ok(g) && g@ == st.guid),
            self@.status is None ==> (r matches Err(e) && e@ == uninitialized_error_view()),
    {
        match &self.status {
            Some(status) => Ok(status.guid.clone()),
            None => Err(uninitialized_error()),
        }
    }

    /// Clear the last error and the last combat and entity results, leaving
    /// the status and the registry alone.
    pub fn clear_infos(&mut self)
        ensures
            final(self).status == old(self).status,
            final(self).client == old(self).client,
            final(self).entity_map == old(self).entity_map,
            final(self).error is None,
            final(self).fight_info is None,
            final(self).entity_info is None,
    {
        self.error = None;
        self.fight_info = None;
        self.entity_info = None;
    }

    /// Clear everything but the client.
    fn clear(&mut self)
        ensures
            final(self).status is None,
            final(self).client == old(self).client,
            final(self).error is None,
            final(self).fight_info is None,
            final(self).entity_info is None,
            final(self)@.entity_map == Seq::<Seq<char>>::empty(),
    {
        self.status = None;
        self.clear_entities();
        self.clear_infos();
    }

    /// Begin the connect command: the request to perform.  The session
    /// itself is untouched until the outcome arrives.
    pub fn connect(&self) -> (r: MunRequest)
        ensures
            r@ == MunRequestView::Post(
                connect_url(self@.client.base_url),
                Seq::<char>::empty(),
            ),
    {
        self.client.connect_request()
    }

    /// Fold the outcome of the connect operation into the session: success
    /// replaces the status and rebuilds the registry; failure records the
    /// error and leaves the previous status standing.
    pub fn finish_connect(&mut self, result: Result<Status, Error>)
        ensures
            final(self).client == old(self).client,
            final(self).fight_info == old(self).fight_info,
            final(self).entity_info == old(self).entity_info,
            result matches Ok(st) ==> (final(self).status == Some(st)
                && final(self).error == old(self).error
                && final(self)@.entity_map == registry(st@.room.entities, st@.guid)),
            result matches Err(e) ==> (final(self).status == old(self).status
                && final(self).entity_map == old(self).entity_map
                && final(self).error == Some(e)),
    {
        match result {
            Ok(status) => {
                self.status = Some(status);
                self.update_entity_map();
            }
            Err(error) => {
                self.error = Some(error);
            }
        }
    }

    /// Begin the look-room command: the request to perform, or — without an
    /// active status — no request at all and the local error recorded.
    pub fn look_room(&mut self) -> (r: Option<MunRequest>)
        ensures
            final(self).status == old(self).status,
            final(self).client == old(self).client,
            final(self).fight_info == old(self).fight_info,
            final(self).entity_info == old(self).entity_info,
            final(self).entity_map == old(self).entity_map,
            old(self)@.status matches Some(st) ==> (r matches Some(req)
                && req@ == MunRequestView::Get(look_room_url(old(self)@.client.base_url, st.guid))
                && final(self).error == old(self).error),
            old(self)@.status is None ==> (r is None
                && (final(self)@.error matches Some(e) && e == uninitialized_error_view())),
    {
        match self.get_guid() {
            Ok(guid) => Some(self.client.look_room_request(&guid)),
            Err(error) => {
                self.error = Some(error);
                None
            }
        }
    }

    /// Begin the move command for `direction`: the request to perform, or —
    /// without an active status — no request at all and the local error
    /// recorded.
    pub fn move_to(&mut self, direction: Direction) -> (r: Option<MunRequest>)
        ensures
            final(self).status == old(self).status,
            final(self).client == old(self).client,
            final(self).fight_info == old(self).fight_info,
            final(self).entity_info == old(self).entity_info,
            final(self).entity_map == old(self).entity_map,
            old(self)@.status matches Some(st) ==> (r matches Some(req)
                && req@ == MunRequestView::Post(
                    move_url(old(self)@.client.base_url, st.guid),
                    crate::model::movement_json(direction),
                )
                && final(self).error == old(self).error),
            old(self)@.status is None ==> (r is None
                && (final(self)@.error matches Some(e) && e == uninitialized_error_view())),
    {
        match self.get_guid() {
            Ok(guid) => Some(self.client.move_request(&guid, direction)),
            Err(error) => {
                self.error = Some(error);
                None
            }
        }
    }

    /// Fold the outcome of a look-room or move operation into the session:
    /// success replaces the current room and rebuilds the registry; failure
    /// records the error and leaves room and status untouched.
    pub fn finish_room_response(&mut self, result: Result<Room, Error>)
        ensures
            final(self).client == old(self).client,
            final(self).fight_info == old(self).fight_info,
            final(self).entity_info == old(self).entity_info,
            result matches Ok(room) ==> final(self).error == old(self).error,
            result matches Ok(room) ==> (old(self)@.status matches Some(st) ==> (
                final(self)@.status matches Some(nst) && nst.guid == st.guid
                && nst.total_life == st.total_life && nst.room == room@
                && final(self)@.entity_map == registry(room@.entities, st.guid))),
            result matches Ok(room) ==> (old(self)@.status is None ==> *final(self) == *old(
                self,
            )),
            result matches Err(e) ==> (final(self).status == old(self).status
                && final(self).entity_map == old(self).entity_map
                && final(self).error == Some(e)),
    {
        match result {
            Ok(room) => {
                self.update_room(room);
            }
            Err(error) => {
                self.error = Some(error);
            }
        }
    }

    /// Begin the look-entity command against `guid_dest`: the request to
    /// perform, or — without an active status — no request at all and the
    /// local error recorded.
    pub fn look_entity(&mut self, guid_dest: String) -> (r: Option<MunRequest>)
        ensures
            final(self).status == old(self).status,
            final(self).client == old(self).client,
            final(self).fight_info == old(self).fight_info,
            final(self).entity_info == old(self).entity_info,
            final(self).entity_map == old(self).entity_map,
            old(self)@.status matches Some(st) ==> (r matches Some(req)
                && req@ == MunRequestView::Get(
                    look_entity_url(old(self)@.client.base_url, st.guid, guid_dest@),
                )
                && final(self).error == old(self).error),
            old(self)@.status is None ==> (r is None
                && (final(self)@.error matches Some(e) && e == uninitialized_error_view())),
    {
        match self.get_guid() {
            Ok(guid) => Some(self.client.look_entity_request(&guid, &guid_dest)),
            Err(error) => {
                self.error = Some(error);
                None
            }
        }
    }

    /// Fold the outcome of a look-entity operation into the session.
    pub fn finish_look_entity(&mut self, result: Result<Entity, Error>)
        ensures
            final(self).status == old(self).status,
            final(self).client == old(self).client,
            final(self).entity_map == old(self).entity_map,
            final(self).fight_info == old(self).fight_info,
            result matches Ok(entity) ==> (final(self).entity_info == Some(entity)
                && final(self).error == old(self).error),
            result matches Err(e) ==> (final(self).entity_info == old(self).entity_info
                && final(self).error == Some(e)),
    {
        match result {
            Ok(entity) => {
                self.entity_info = Some(entity);
            }
            Err(error) => {
                self.error = Some(error);
            }
        }
    }

    /// Begin the attack command against `guid_dest`: the request to
    /// perform, or — without an active status — no request at all and the
    /// local error recorded.
    pub fn attack(&mut self, guid_dest: String) -> (r: Option<MunRequest>)
        ensures
            final(self).status == old(self).status,
            final(self).client == old(self).client,
            final(self).fight_info == old(self).fight_info,
            final(self).entity_info == old(self).entity_info,
            final(self).entity_map == old(self).entity_map,
            old(self)@.status matches Some(st) ==> (r matches Some(req)
                && req@ == MunRequestView::Post(
                    attack_url(old(self)@.client.base_url, st.guid, guid_dest@),
                    Seq::<char>::empty(),
                )
                && final(self).error == old(self).error),
            old(self)@.status is None ==> (r is None
                && (final(self)@.error matches Some(e) && e == uninitialized_error_view())),
    {
        match self.get_guid() {
            Ok(guid) => Some(self.client.attack_request(&guid, &guid_dest)),
            Err(error) => {
                self.error = Some(error);
                None
            }
        }
    }

    /// Fold the outcome of an attack operation into the session.
    pub fn finish_attack(&mut self, result: Result<Fight, Error>)
        ensures
            final(self).status == old(self).status,
            final(self).client == old(self).client,
            final(self).entity_map == old(self).entity_map,
            final(self).entity_info == old(self).entity_info,
            result matches Ok(fight) ==> (final(self).fight_info == Some(fight)
                && final(self).error == old(self).error),
            result matches Err(e) ==> (final(self).fight_info == old(self).fight_info
                && final(self).error == Some(e)),
    {
        match result {
            Ok(fight) => {
                self.fight_info = Some(fight);
            }
            Err(error) => {
                self.error = Some(error);
            }
        }
    }
}

} // verus!
