//! Group invitations that are under way: for each invited peer, the MLS id
//! of the group it was invited to, kept until the peer's answer settles the
//! invitation.

use crate::comm::ConanGroupError;
use std::collections::HashMap;
use vstd::prelude::*;

verus! {

broadcast use vstd::std_specs::hash::group_hash_axioms;

/// Invitations under way, by invited peer.
pub struct Invitations {
    pending: HashMap<u16, Vec<u8>>,
}

impl View for Invitations {
    type V = Map<u16, Seq<u8>>;

    closed spec fn view(&self) -> Map<u16, Seq<u8>> {
        self.pending@.map_values(|g: Vec<u8>| g@)
    }
}

/// Why an invitation could not be withdrawn.
#[derive(Debug, Clone, Copy, PartialEq, Eq, Structural)]
pub enum InvitationError {
    /// The peer has no invitation under way.
    NotPending,
}

impl InvitationError {
    /// The message shown for the error.
    pub fn message(&self) -> (s: &'static str)
        ensures
            s@ == "Could not remove group."@,
    {
        "Could not remove group."
    }
}

impl Invitations {
    /// No invitation under way.
    pub fn new() -> (inv: Self)
        ensures
            inv@ == Map::<u16, Seq<u8>>::empty(),
    {
        let inv = Invitations { pending: HashMap::new() };
        assert(inv@ =~= Map::<u16, Seq<u8>>::empty());
        inv
    }

    /// Records that `peer` was invited to the group with MLS id `group_id`,
    /// replacing an earlier invitation of the same peer.
    pub fn invite(&mut self, peer: u16, group_id: Vec<u8>)
        ensures
            final(self)@ == old(self)@.insert(peer, group_id@),
    {
        let ghost g = group_id@;
        self.pending.insert(peer, group_id);
        assert(self@ =~= old(self)@.insert(peer, g));
    }

    /// The group that `peer` was invited to; a key package from a peer
    /// without an invitation is refused as naming no group.
    pub fn invited_group(&self, peer: u16) -> (r: Result<Vec<u8>, ConanGroupError>)
        ensures
            self@.contains_key(peer) ==> (r matches Ok(g) && g@ == self@[peer]),
            !self@.contains_key(peer) ==> r == Err::<Vec<u8>, ConanGroupError>(
                ConanGroupError::NotFound,
            ),
    {
        match self.pending.get(&peer) {
            Some(g) => {
                let copy = g.clone();
                assert(copy@ =~= g@);
                Ok(copy)
            },
            None => Err(ConanGroupError::NotFound),
        }
    }

    /// Settles `peer`'s invitation, once the peer joined: returns the group
    /// it was invited to, if there was an invitation.
    pub fn settle(&mut self, peer: u16) -> (r: Option<Vec<u8>>)
        ensures
            final(self)@ == old(self)@.remove(peer),
            match r {
                Some(g) => old(self)@.contains_key(peer) && g@ == old(self)@[peer],
                None => !old(self)@.contains_key(peer),
            },
    {
        let r = self.pending.remove(&peer);
        assert(self@ =~= old(self)@.remove(peer));
        r
    }

    /// Withdraws `peer`'s invitation after the peer reported an error:
    /// returns the group it was invited to, or an error when there was no
    /// invitation.
    pub fn withdraw(&mut self, peer: u16) -> (r: Result<Vec<u8>, InvitationError>)
        ensures
            final(self)@ == old(self)@.remove(peer),
            match r {
                Ok(g) => old(self)@.contains_key(peer) && g@ == old(self)@[peer],
                Err(e) => !old(self)@.contains_key(peer) && e == InvitationError::NotPending,
            },
    {
        match self.settle(peer) {
            Some(g) => Ok(g),
            None => Err(InvitationError::NotPending),
        }
    }
}

/// What an invitation records is what a later lookup finds, until the
/// invitation is settled; after that the peer has no invitation.
pub proof fn law_invitation_is_found_until_settled(
    inv: Map<u16, Seq<u8>>,
    peer: u16,
    group_id: Seq<u8>,
    other: u16,
)
    ensures
        inv.insert(peer, group_id).contains_key(peer),
        inv.insert(peer, group_id)[peer] == group_id,
        !inv.insert(peer, group_id).remove(peer).contains_key(peer),
        other != peer ==> inv.insert(peer, group_id).remove(peer).contains_key(other)
            == inv.contains_key(other),
{
}

} // verus!
