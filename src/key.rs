//! Lobby identities.
use vstd::prelude::*;

verus! {

/// What identifies a lobby: the host identifier and the desktop identifier.
pub type LobbyId = (Seq<char>, Seq<char>);

/// The identity of the lobby announced by `host_uuid` for `desktop_uuid`.
pub open spec fn key_of(host_uuid: Seq<char>, desktop_uuid: Seq<char>) -> LobbyId {
    (host_uuid, desktop_uuid)
}

/// Two announces share an identity only when both identifiers agree.
pub proof fn lemma_key_of_injective(h1: Seq<char>, d1: Seq<char>, h2: Seq<char>, d2: Seq<char>)
    ensures
        key_of(h1, d1) == key_of(h2, d2) <==> (h1 == h2 && d1 == d2),
{
}

/// An opaque key representing a lobby.
#[derive(Debug, Clone, Hash)]
pub struct LobbyKey {
    host_uuid: String,
    desktop_uuid: String,
}

impl View for LobbyKey {
    type V = LobbyId;

    closed spec fn view(&self) -> LobbyId {
        (self.host_uuid@, self.desktop_uuid@)
    }
}

impl LobbyKey {
    pub fn new(host_uuid: &str, desktop_uuid: &str) -> (r: LobbyKey)
        ensures
            r@ == key_of(host_uuid@, desktop_uuid@),
    {
        LobbyKey { host_uuid: host_uuid.to_owned(), desktop_uuid: desktop_uuid.to_owned() }
    }

    /// A second key with the same identity.
    pub fn duplicate(&self) -> (r: LobbyKey)
        ensures
            r@ == self@,
    {
        LobbyKey { host_uuid: self.host_uuid.clone(), desktop_uuid: self.desktop_uuid.clone() }
    }

    /// Whether both keys name the same lobby.
    pub fn same_as(&self, other: &LobbyKey) -> (r: bool)
        ensures
            r == (self@ == other@),
    {
        self.host_uuid == other.host_uuid && self.desktop_uuid == other.desktop_uuid
    }
}

impl PartialEq for LobbyKey {
    fn eq(&self, other: &LobbyKey) -> (r: bool) {
        self.same_as(other)
    }
}

impl vstd::std_specs::cmp::PartialEqSpecImpl for LobbyKey {
    open spec fn obeys_eq_spec() -> bool {
        true
    }

    open spec fn eq_spec(&self, other: &LobbyKey) -> bool {
        self@ == other@
    }
}

impl Eq for LobbyKey {
}

} // verus!
