//! The state of one lobby: its host's channel and its clients' channels.
use std::collections::HashMap;

use vstd::prelude::*;

use crate::key::{key_of, LobbyId, LobbyKey};
use crate::message::{ChannelMessage, SocketMessage, HOST_ID};

verus! {

broadcast use vstd::std_specs::hash::group_hash_axioms;

/// The first id handed to a client; ids below it are reserved.
pub const FIRST_CLIENT_ID: i32 = 2;

/// A client of a lobby, reached through its fan-out channel `tx`.
pub struct LobbyClient<C> {
    pub tx: C,
}

/// Handed out when a client joins; names the client to remove on release.
pub struct LobbyClientGuard {
    pub lobby_key: LobbyKey,
    pub client_id: i32,
}

/// One lobby: the announcing host's identity and channel, the joined
/// clients by id, and the id that the next client will get.
pub struct LobbyInfo<C> {
    host_uuid: String,
    desktop_uuid: String,
    host_tx: C,
    clients: HashMap<i32, LobbyClient<C>>,
    next_client_id: i32,
    allocated: Ghost<Set<i32>>,
}

impl<C> LobbyInfo<C> {
    pub closed spec fn host(&self) -> Seq<char> {
        self.host_uuid@
    }

    pub closed spec fn desktop(&self) -> Seq<char> {
        self.desktop_uuid@
    }

    /// The identity under which this lobby is registered.
    pub open spec fn key(&self) -> LobbyId {
        key_of(self.host(), self.desktop())
    }

    pub closed spec fn host_channel(&self) -> C {
        self.host_tx
    }

    /// The channel of each present client, by client id.
    pub closed spec fn clients(&self) -> Map<i32, C> {
        self.clients@.map_values(|c: LobbyClient<C>| c.tx)
    }

    /// The id that the next joining client gets.
    pub closed spec fn next_id(&self) -> int {
        self.next_client_id as int
    }

    /// Every id ever handed out by this lobby, present or departed.
    pub closed spec fn allocated(&self) -> Set<i32> {
        self.allocated@
    }

    /// Every id handed out lies in `FIRST_CLIENT_ID .. next_id()`, and every
    /// present client holds an id that was handed out.
    pub open spec fn wf(&self) -> bool {
        &&& FIRST_CLIENT_ID <= self.next_id()
        &&& forall|id: i32| #[trigger]
            self.allocated().contains(id) ==> FIRST_CLIENT_ID <= id < self.next_id()
        &&& forall|id: i32| #[trigger]
            self.clients().contains_key(id) ==> self.allocated().contains(id)
    }

    /// Whether another client can still be given a fresh id.
    pub open spec fn has_free_id(&self) -> bool {
        self.next_id() < i32::MAX
    }

    /// A lobby without clients, announced by `host_uuid` for `desktop_uuid`.
    pub fn new(host_uuid: String, desktop_uuid: String, tx: C) -> (r: LobbyInfo<C>)
        ensures
            r.wf(),
            r.host() == host_uuid@,
            r.desktop() == desktop_uuid@,
            r.host_channel() == tx,
            r.clients() == Map::<i32, C>::empty(),
            r.next_id() == FIRST_CLIENT_ID,
            r.allocated() == Set::<i32>::empty(),
    {
        let r = LobbyInfo {
            allocated: Ghost(Set::empty()),
            host_uuid,
            desktop_uuid,
            next_client_id: FIRST_CLIENT_ID,
            host_tx: tx,
            clients: HashMap::new(),
        };
        assert(r.clients() =~= Map::<i32, C>::empty());
        r
    }

    /// Whether another client can still be given a fresh id.
    pub fn can_add_client(&self) -> (r: bool)
        ensures
            r == self.has_free_id(),
    {
        self.next_client_id < i32::MAX
    }

    /// Adds a client reached through `client_tx` under the next id. The
    /// guard names this lobby's identity and the id that was given.
    pub fn add_lobby_client(&mut self, client_tx: C) -> (r: LobbyClientGuard)
        requires
            old(self).wf(),
            old(self).has_free_id(),
        ensures
            final(self).wf(),
            r.client_id == old(self).next_id(),
            !old(self).allocated().contains(r.client_id),
            forall|id: i32| #[trigger] old(self).allocated().contains(id) ==> id < r.client_id,
            final(self).allocated() == old(self).allocated().insert(r.client_id),
            r.lobby_key@ == old(self).key(),
            final(self).next_id() == old(self).next_id() + 1,
            final(self).clients() == old(self).clients().insert(r.client_id, client_tx),
            final(self).host() == old(self).host(),
            final(self).desktop() == old(self).desktop(),
            final(self).host_channel() == old(self).host_channel(),
    {
        let client_id = self.next_client_id;
        self.next_client_id = self.next_client_id + 1;
        self.clients.insert(client_id, LobbyClient { tx: client_tx });
        self.allocated = Ghost(self.allocated@.insert(client_id));
        assert forall|id: i32| #[trigger] self.allocated().contains(id) implies FIRST_CLIENT_ID <= id
            < self.next_id() by {
            if id != client_id {
                assert(old(self).allocated().contains(id));
            }
        }
        assert(self.clients() =~= old(self).clients().insert(client_id, client_tx));
        assert forall|id: i32| #[trigger] self.clients().contains_key(id) implies self.allocated().contains(id) by {
            if id != client_id {
                assert(old(self).clients().contains_key(id));
            }
        }
        assert(self.clients() =~= old(self).clients().insert(client_id, client_tx));
        let lobby_key = LobbyKey::new(self.host_uuid.as_str(), self.desktop_uuid.as_str());
        LobbyClientGuard { lobby_key, client_id }
    }

    /// Removes the client `client_id`, if present. The id is never given out again.
    pub fn remove_client(&mut self, client_id: i32)
        requires
            old(self).wf(),
        ensures
            final(self).wf(),
            final(self).clients() == old(self).clients().remove(client_id),
            final(self).next_id() == old(self).next_id(),
            final(self).allocated() == old(self).allocated(),
            final(self).host() == old(self).host(),
            final(self).desktop() == old(self).desktop(),
            final(self).host_channel() == old(self).host_channel(),
    {
        let _ = self.clients.remove(&client_id);
        assert(self.clients() =~= old(self).clients().remove(client_id));
        assert forall|id: i32| #[trigger] self.clients().contains_key(id) implies self.allocated().contains(id) by {
            assert(old(self).clients().contains_key(id));
        }
        assert(self.allocated() == old(self).allocated());
        assert(self.next_id() == old(self).next_id());
    }

    /// The channel of client `client_id`, if present.
    pub fn client_tx(&self, client_id: i32) -> (r: Option<&C>)
        ensures
            match r {
                Some(tx) => self.clients().contains_key(client_id) && *tx == self.clients()[client_id],
                None => !self.clients().contains_key(client_id),
            },
    {
        match self.clients.get(&client_id) {
            Some(c) => Some(&c.tx),
            None => None,
        }
    }

    /// The host's channel.
    pub fn host_tx(&self) -> (r: &C)
        ensures
            *r == self.host_channel(),
    {
        &self.host_tx
    }

    pub fn host_uuid(&self) -> (r: &str)
        ensures
            r@ == self.host(),
    {
        self.host_uuid.as_str()
    }

    pub fn desktop_uuid(&self) -> (r: &str)
        ensures
            r@ == self.desktop(),
    {
        self.desktop_uuid.as_str()
    }

    /// The id that the next joining client gets.
    pub fn next_client_id(&self) -> (r: i32)
        ensures
            r == self.next_id(),
    {
        self.next_client_id
    }

    /// Whether client `client_id` is present.
    pub fn has_client(&self, client_id: i32) -> (r: bool)
        ensures
            r == self.clients().contains_key(client_id),
    {
        self.clients.contains_key(&client_id)
    }

    /// Routes a message sent by the host: to the channel of the client that
    /// `msg.id` addresses, tagged with `HOST_ID` as sender. A message for a
    /// client that is not present goes nowhere.
    pub fn route_from_host(&self, msg: SocketMessage) -> (r: Option<(&C, ChannelMessage)>)
        ensures
            match r {
                Some((tx, cm)) => {
                    &&& self.clients().contains_key(msg.id)
                    &&& *tx == self.clients()[msg.id]
                    &&& cm.sender_id == HOST_ID
                    &&& cm.message == msg
                },
                None => !self.clients().contains_key(msg.id),
            },
    {
        match self.client_tx(msg.id) {
            Some(tx) => Some((tx, ChannelMessage { sender_id: HOST_ID, message: msg })),
            None => None,
        }
    }
}

/// Client ids strictly increase and are never handed out twice. `first`
/// joined `before`, giving `after`; `later` is reached from `after` by any
/// number of joins and departures, which only ever add to the ids handed
/// out. A client joining `later` then gets an id above `first`'s, that no
/// client of this lobby ever held, and that is never the host's.
pub proof fn lemma_client_ids_increase<C>(
    before: LobbyInfo<C>,
    after: LobbyInfo<C>,
    first: LobbyClientGuard,
    later: LobbyInfo<C>,
    second: LobbyClientGuard,
)
    requires
        before.wf(),
        first.client_id == before.next_id(),
        after.allocated() == before.allocated().insert(first.client_id),
        later.wf(),
        after.allocated().subset_of(later.allocated()),
        second.client_id == later.next_id(),
    ensures
        FIRST_CLIENT_ID <= first.client_id < second.client_id,
        !later.allocated().contains(second.client_id),
        second.client_id != HOST_ID,
{
    assert(later.allocated().contains(first.client_id));
}

/// The first client of a fresh lobby gets `FIRST_CLIENT_ID`.
pub proof fn lemma_first_client_id<C>(fresh: LobbyInfo<C>, first: LobbyClientGuard)
    requires
        fresh.clients() == Map::<i32, C>::empty(),
        fresh.next_id() == FIRST_CLIENT_ID,
        first.client_id == fresh.next_id(),
    ensures
        first.client_id == 2,
{
}

/// A departing client takes only its own entry with it: every other client
/// keeps its channel, and the lobby keeps its identity, its host channel and
/// its next id.
pub proof fn lemma_client_departure_isolated<C>(
    before: LobbyInfo<C>,
    after: LobbyInfo<C>,
    gone: i32,
)
    requires
        after.clients() == before.clients().remove(gone),
        after.next_id() == before.next_id(),
        after.host() == before.host(),
        after.desktop() == before.desktop(),
        after.host_channel() == before.host_channel(),
    ensures
        !after.clients().contains_key(gone),
        forall|id: i32|
            id != gone ==> (#[trigger] after.clients().contains_key(id) == before.clients().contains_key(id)
                && (after.clients().contains_key(id) ==> after.clients()[id] == before.clients()[id])),
        after.key() == before.key(),
        after.host_channel() == before.host_channel(),
{
}

} // verus!
