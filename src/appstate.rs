//! The registry of active lobbies, keyed by lobby identity.
use vstd::prelude::*;

use crate::key::{key_of, LobbyId, LobbyKey};

verus! {

/// Top-level registry of active lobbies. A lobby is active for the lifetime
/// of its host's connection. Each identity addresses at most one lobby.
pub struct AppState<V> {
    entries: Vec<(LobbyKey, V)>,
    lobbies: Ghost<Map<LobbyId, V>>,
}

/// Handed out when a lobby is registered; releasing it removes the lobby.
pub struct LobbyInfoGuard {
    lobby_key: LobbyKey,
}

impl LobbyInfoGuard {
    pub closed spec fn key(&self) -> LobbyId {
        self.lobby_key@
    }

    /// The identity of the guarded lobby.
    pub fn lobby_key(&self) -> (r: &LobbyKey)
        ensures
            r@ == self.key(),
    {
        &self.lobby_key
    }
}

impl<V> View for AppState<V> {
    type V = Map<LobbyId, V>;

    closed spec fn view(&self) -> Map<LobbyId, V> {
        self.lobbies@
    }
}

impl<V> AppState<V> {
    /// Keys are distinct, and the entries are exactly the view's pairs.
    pub closed spec fn wf(&self) -> bool {
        &&& forall|i: int, j: int|
            0 <= i < j < self.entries@.len() ==> #[trigger] self.entries@[i].0@
                != #[trigger] self.entries@[j].0@
        &&& forall|i: int|
            0 <= i < self.entries@.len() ==> {
                &&& #[trigger] self.lobbies@.contains_key(self.entries@[i].0@)
                &&& self.lobbies@[self.entries@[i].0@] == self.entries@[i].1
            }
        &&& forall|k: LobbyId|
            #[trigger] self.lobbies@.contains_key(k) ==> exists|i: int|
                0 <= i < self.entries@.len() && self.entries@[i].0@ == k
        &&& self.lobbies@.dom().finite()
        &&& self.lobbies@.len() == self.entries@.len()
    }

    /// Number of active lobbies.
    pub fn len(&self) -> (r: usize)
        requires
            self.wf(),
        ensures
            r == self@.len(),
    {
        self.entries.len()
    }

    /// A registry without lobbies.
    pub fn new() -> (r: AppState<V>)
        ensures
            r.wf(),
            r@ == Map::<LobbyId, V>::empty(),
    {
        AppState { entries: Vec::new(), lobbies: Ghost(Map::empty()) }
    }

    fn find(&self, key: &LobbyKey) -> (r: Option<usize>)
        requires
            self.wf(),
        ensures
            match r {
                Some(i) => i < self.entries@.len() && self.entries@[i as int].0@ == key@,
                None => !self@.contains_key(key@),
            },
    {
        let mut i: usize = 0;
        while i < self.entries.len()
            invariant
                self.wf(),
                i <= self.entries@.len(),
                forall|j: int| 0 <= j < i ==> #[trigger] self.entries@[j].0@ != key@,
            decreases self.entries@.len() - i,
        {
            if self.entries[i].0.same_as(key) {
                return Some(i);
            }
            i = i + 1;
        }
        None
    }

    /// The lobby registered under `key`, if any.
    pub fn get(&self, key: &LobbyKey) -> (r: Option<&V>)
        requires
            self.wf(),
        ensures
            match r {
                Some(v) => self@.contains_key(key@) && *v == self@[key@],
                None => !self@.contains_key(key@),
            },
    {
        match self.find(key) {
            Some(i) => {
                assert(self.lobbies@.contains_key(self.entries@[i as int].0@));
                Some(&self.entries[i].1)
            },
            None => None,
        }
    }

    /// Inserts `lobby` under `key`, replacing any lobby already registered there.
    pub fn insert(&mut self, key: LobbyKey, lobby: V)
        requires
            old(self).wf(),
        ensures
            final(self).wf(),
            final(self)@ == old(self)@.insert(key@, lobby),
    {
        let ghost k = key@;
        let ghost m = self@.insert(k, lobby);
        match self.find(&key) {
            Some(i) => {
                self.entries.set(i, (key, lobby));
            },
            None => {
                self.entries.push((key, lobby));
            },
        }
        self.lobbies = Ghost(m);
        assert forall|k2: LobbyId| #[trigger] self.lobbies@.contains_key(k2) implies exists|i: int|
            0 <= i < self.entries@.len() && self.entries@[i].0@ == k2 by {
            if k2 != k {
                let i = choose|i: int| 0 <= i < old(self).entries@.len() && old(self).entries@[i].0@ == k2;
                assert(self.entries@[i].0@ == k2);
            } else {
                if exists|i: int| 0 <= i < old(self).entries@.len() && old(self).entries@[i].0@ == k {
                    let i = choose|i: int| 0 <= i < old(self).entries@.len() && old(self).entries@[i].0@ == k;
                    assert(self.entries@[i].0@ == k2);
                } else {
                    assert(self.entries@[self.entries@.len() - 1].0@ == k2);
                }
            }
        }
    }

    /// Removes the lobby registered under `key`, if any.
    pub fn remove(&mut self, key: &LobbyKey)
        requires
            old(self).wf(),
        ensures
            final(self).wf(),
            final(self)@ == old(self)@.remove(key@),
    {
        let ghost m = self@.remove(key@);
        if let Some(i) = self.find(key) {
            let _ = self.entries.remove(i);
            self.lobbies = Ghost(m);
            assert forall|k2: LobbyId| #[trigger] self.lobbies@.contains_key(k2) implies exists|j: int|
                0 <= j < self.entries@.len() && self.entries@[j].0@ == k2 by {
                let j = choose|j: int| 0 <= j < old(self).entries@.len() && old(self).entries@[j].0@ == k2;
                if j < i {
                    assert(self.entries@[j].0@ == k2);
                } else {
                    assert(self.entries@[j - 1].0@ == k2);
                }
            }
        } else {
            assert(m =~= self@);
        }
    }

    /// Registers `lobby` under the identity of (`host_uuid`, `desktop_uuid`).
    /// A lobby already registered under that identity is replaced without
    /// notice. The guard names the identity for later removal.
    pub fn add_lobby(&mut self, host_uuid: &str, desktop_uuid: &str, lobby: V) -> (r:
        LobbyInfoGuard)
        requires
            old(self).wf(),
        ensures
            final(self).wf(),
            final(self)@ == old(self)@.insert(key_of(host_uuid@, desktop_uuid@), lobby),
            r.key() == key_of(host_uuid@, desktop_uuid@),
    {
        let lobby_key = LobbyKey::new(host_uuid, desktop_uuid);
        self.insert(lobby_key.duplicate(), lobby);
        LobbyInfoGuard { lobby_key }
    }

    /// The lobby that a client joining (`host_uuid`, `desktop_uuid`) reaches,
    /// or `None` when no such lobby is registered.
    pub fn lookup_lobby(&self, host_uuid: &str, desktop_uuid: &str) -> (r: Option<&V>)
        requires
            self.wf(),
        ensures
            match r {
                Some(v) => self@.contains_key(key_of(host_uuid@, desktop_uuid@)) && *v == self@[key_of(
                    host_uuid@,
                    desktop_uuid@,
                )],
                None => !self@.contains_key(key_of(host_uuid@, desktop_uuid@)),
            },
    {
        let lobby_key = LobbyKey::new(host_uuid, desktop_uuid);
        self.get(&lobby_key)
    }

    /// Removes the lobby that `guard` was handed out for. Whatever is
    /// registered under that identity at this point leaves the registry.
    pub fn remove_lobby(&mut self, guard: LobbyInfoGuard)
        requires
            old(self).wf(),
        ensures
            final(self).wf(),
            final(self)@ == old(self)@.remove(guard.key()),
    {
        self.remove(&guard.lobby_key);
    }

    /// The positions of the registry's entries that hold identity `k`.
    pub closed spec fn lobbies_under(&self, k: LobbyId) -> Set<int> {
        Set::new(|i: int| 0 <= i < self.entries@.len() && self.entries@[i].0@ == k)
    }

    /// Exactly one lobby is registered under each identity that the registry
    /// holds, and none under any other.
    pub proof fn lemma_one_lobby_per_identity(&self, k: LobbyId)
        requires
            self.wf(),
        ensures
            self@.contains_key(k) ==> self.lobbies_under(k).len() == 1,
            !self@.contains_key(k) ==> self.lobbies_under(k).len() == 0,
    {
        if self@.contains_key(k) {
            let i0 = choose|i: int| 0 <= i < self.entries@.len() && self.entries@[i].0@ == k;
            assert(self.lobbies_under(k) =~= set![i0]);
        } else {
            assert forall|i: int| 0 <= i < self.entries@.len() implies self.entries@[i].0@ != k by {
                assert(self.lobbies@.contains_key(self.entries@[i].0@));
            }
            assert(self.lobbies_under(k) =~= Set::<int>::empty());
        }
    }
}

/// A host announce for (`host_uuid`, `desktop_uuid`) leaves exactly one lobby
/// under that identity: the one just announced. A second announce for the same
/// identity replaces the first without notice, and the set of identities
/// stays as the first announce left it.
pub proof fn lemma_announce_registers_one<V>(
    before: AppState<V>,
    once: AppState<V>,
    twice: AppState<V>,
    host_uuid: Seq<char>,
    desktop_uuid: Seq<char>,
    first: V,
    second: V,
)
    requires
        before.wf(),
        once.wf(),
        twice.wf(),
        once@ == before@.insert(key_of(host_uuid, desktop_uuid), first),
        twice@ == once@.insert(key_of(host_uuid, desktop_uuid), second),
    ensures
        once@.contains_key(key_of(host_uuid, desktop_uuid)),
        once@[key_of(host_uuid, desktop_uuid)] == first,
        once.lobbies_under(key_of(host_uuid, desktop_uuid)).len() == 1,
        twice@[key_of(host_uuid, desktop_uuid)] == second,
        twice.lobbies_under(key_of(host_uuid, desktop_uuid)).len() == 1,
        twice@.dom() == once@.dom(),
        twice@ == before@.insert(key_of(host_uuid, desktop_uuid), second),
{
    let k = key_of(host_uuid, desktop_uuid);
    once.lemma_one_lobby_per_identity(k);
    twice.lemma_one_lobby_per_identity(k);
    assert(twice@.dom() =~= once@.dom());
    assert(twice@ =~= before@.insert(k, second));
}

/// Once the guard of a lobby is released, its identity is no longer
/// registered: a lookup of it finds nothing, and no other lobby is touched.
pub proof fn lemma_released_lobby_not_found<V>(
    before: AppState<V>,
    after: AppState<V>,
    guard: LobbyInfoGuard,
)
    requires
        after@ == before@.remove(guard.key()),
    ensures
        !after@.contains_key(guard.key()),
        forall|k: LobbyId|
            k != guard.key() ==> (#[trigger] after@.contains_key(k) == before@.contains_key(k)
                && (after@.contains_key(k) ==> after@[k] == before@[k])),
{
}

} // verus!
