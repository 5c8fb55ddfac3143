//! The sessions of a listener.

use crate::addr::PeerAddr;
use bytes::Bytes;
use hashlink::LinkedHashMap;
use vstd::prelude::*;

verus! {

/// A connection that a listener has accepted.
#[derive(Debug)]
pub struct Session {
    pub conv: u32,
    pub session_id: Bytes,
    pub peer_addr: PeerAddr,
    /// There is room kept in the backlog for the connection.
    pub stream_permit: bool,
    /// The connection is still being opened.
    pub task: bool,
}

/// A [`Session`] as contracts see it.
#[verifier::ext_equal]
pub struct SessionState {
    pub conv: u32,
    pub session_id: Seq<u8>,
    pub peer_addr: PeerAddr,
    pub stream_permit: bool,
    pub task: bool,
}

impl View for Session {
    type V = SessionState;

    open spec fn view(&self) -> SessionState {
        SessionState {
            conv: self.conv,
            session_id: crate::frame::content(self.session_id),
            peer_addr: self.peer_addr,
            stream_permit: self.stream_permit,
            task: self.task,
        }
    }
}

/// The sessions in a map, by conversation number.
pub uninterp spec fn sessions_of(map: LinkedHashMap<u32, Session>) -> Map<u32, Session>;

/// The conversation numbers in a map, by session ID.
pub uninterp spec fn ids_of(map: LinkedHashMap<Bytes, u32>) -> Map<Seq<u8>, u32>;

/// `LinkedHashMap::new` makes an empty map.
#[verifier::external_body]
pub(crate) fn sessions_new() -> (sessions: LinkedHashMap<u32, Session>)
    ensures
        (sessions_of(sessions) == Map::<u32, Session>::empty()),
{
    LinkedHashMap::new()
}

/// `LinkedHashMap::is_empty` tells whether there is no session.
#[verifier::external_body]
pub(crate) fn sessions_is_empty(map: &LinkedHashMap<u32, Session>) -> (empty: bool)
    ensures
        empty == (sessions_of(*map) == Map::<u32, Session>::empty()),
{
    map.is_empty()
}

/// `LinkedHashMap::contains_key` tells whether there is a session with the number.
#[verifier::external_body]
pub(crate) fn sessions_contains_key(map: &LinkedHashMap<u32, Session>, conv: u32) -> (contains: bool)
    ensures
        contains == sessions_of(*map).contains_key(conv),
{
    map.contains_key(&conv)
}

/// `LinkedHashMap::get` is the session with the number.
#[verifier::external_body]
pub(crate) fn sessions_get(map: &LinkedHashMap<u32, Session>, conv: u32) -> (session: Option<&Session>)
    ensures
        match session {
            Some(s) => sessions_of(*map).contains_pair(conv, *s),
            None => !sessions_of(*map).contains_key(conv),
        },
{
    map.get(&conv)
}

/// `LinkedHashMap::get_mut` borrows the session with the number; what it becomes, it becomes in
/// the map, and nothing else changes.
#[verifier::external_body]
pub(crate) fn sessions_get_mut(map: &mut LinkedHashMap<u32, Session>, conv: u32) -> (session: Option<
    &mut Session,
>)
    ensures
        match session {
            Some(s) => {
                &&& sessions_of(*old(map)).contains_pair(conv, *s)
                &&& sessions_of(*final(map)) == sessions_of(*old(map)).insert(conv, *final(s))
            },
            None => {
                &&& !sessions_of(*old(map)).contains_key(conv)
                &&& sessions_of(*final(map)) == sessions_of(*old(map))
            },
        },
{
    map.get_mut(&conv)
}

/// `LinkedHashMap::insert` puts the session into the map under the number.
#[verifier::external_body]
pub(crate) fn sessions_insert(map: &mut LinkedHashMap<u32, Session>, conv: u32, session: Session)
    ensures
        sessions_of(*final(map)) == sessions_of(*old(map)).insert(conv, session),
{
    map.insert(conv, session);
}

/// `LinkedHashMap::remove` takes the session with the number out of the map.
#[verifier::external_body]
pub(crate) fn sessions_remove(map: &mut LinkedHashMap<u32, Session>, conv: u32) -> (session: Option<Session>)
    ensures
        match session {
            Some(s) => {
                &&& sessions_of(*old(map)).contains_pair(conv, s)
                &&& sessions_of(*final(map)) == sessions_of(*old(map)).remove(conv)
            },
            None => {
                &&& !sessions_of(*old(map)).contains_key(conv)
                &&& sessions_of(*final(map)) == sessions_of(*old(map))
            },
        },
{
    map.remove(&conv)
}

/// `LinkedHashMap::new` makes an empty map.
#[verifier::external_body]
pub(crate) fn ids_new() -> (ids: LinkedHashMap<Bytes, u32>)
    ensures
        (ids_of(ids) == Map::<Seq<u8>, u32>::empty()),
{
    LinkedHashMap::new()
}

/// `LinkedHashMap::get` is the number that stands beside the ID. IDs are told apart by their
/// bytes.
#[verifier::external_body]
pub(crate) fn ids_get(map: &LinkedHashMap<Bytes, u32>, id: &[u8]) -> (conv: Option<u32>)
    ensures
        match conv {
            Some(c) => ids_of(*map).contains_pair(id@, c),
            None => !ids_of(*map).contains_key(id@),
        },
{
    map.get(id).copied()
}

/// `LinkedHashMap::insert` puts the number into the map beside the ID.
#[verifier::external_body]
pub(crate) fn ids_insert(map: &mut LinkedHashMap<Bytes, u32>, id: Bytes, conv: u32)
    ensures
        ids_of(*final(map)) == ids_of(*old(map)).insert(crate::frame::content(id), conv),
{
    map.insert(id, conv);
}

/// `LinkedHashMap::remove` takes the ID out of the map.
#[verifier::external_body]
pub(crate) fn ids_remove(map: &mut LinkedHashMap<Bytes, u32>, id: &Bytes)
    ensures
        ids_of(*final(map)) == ids_of(*old(map)).remove(crate::frame::content(*id)),
{
    map.remove(id);
}

} // verus!
