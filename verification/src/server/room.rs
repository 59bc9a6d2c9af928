//! The identifiers that the server hands to the users who join the room.
use vstd::prelude::*;

use crate::model::RoomUserId;

verus! {

/// The identifiers handed to the users who join the room, one after the
/// other: each is one more than the one before.
pub struct UserIdSequence {
    last: RoomUserId,
}

impl UserIdSequence {
    /// The identifier handed out last (zero before the first).
    pub closed spec fn last(self) -> u64 {
        self.last.value()
    }

    /// A sequence that has handed out nothing yet.
    pub fn new() -> (seq: UserIdSequence)
        ensures
            seq.last() == 0,
    {
        UserIdSequence { last: RoomUserId::default() }
    }

    /// The identifier handed out last (zero before the first).
    pub fn last_user_id(&self) -> (id: RoomUserId)
        ensures
            id.value() == self.last(),
    {
        self.last
    }

    /// The identifier for the next user to join.
    pub fn next_user_id(&mut self) -> (id: RoomUserId)
        requires
            old(self).last() < u64::MAX,
        ensures
            hands_out(*old(self), id, *final(self)),
    {
        self.last = self.last.next();
        self.last
    }
}

/// One step of a sequence: `id` is handed out and becomes the last.
pub open spec fn hands_out(before: UserIdSequence, id: RoomUserId, after: UserIdSequence) -> bool {
    id.value() == before.last() + 1 && after.last() == id.value()
}

/// Along any run of a sequence, each identifier is larger than every one
/// handed out before it, so no two users get the same identifier.
pub proof fn lemma_ids_strictly_increase(states: Seq<UserIdSequence>, ids: Seq<RoomUserId>)
    requires
        states.len() == ids.len() + 1,
        forall|i: int| 0 <= i < ids.len() ==> #[trigger] hands_out(states[i], ids[i], states[i + 1]),
    ensures
        forall|i: int, j: int| 0 <= i < j < ids.len() ==> ids[i].value() < ids[j].value(),
{
    assert forall|i: int| 0 <= i < ids.len() implies #[trigger] ids[i].value() == states[0].last()
        + i + 1 by {
        lemma_id_position(states, ids, i);
    }
}

proof fn lemma_id_position(states: Seq<UserIdSequence>, ids: Seq<RoomUserId>, i: int)
    requires
        states.len() == ids.len() + 1,
        forall|i: int| 0 <= i < ids.len() ==> #[trigger] hands_out(states[i], ids[i], states[i + 1]),
        0 <= i < ids.len(),
    ensures
        ids[i].value() == states[0].last() + i + 1,
    decreases i,
{
    assert(hands_out(states[i], ids[i], states[i + 1]));
    if i > 0 {
        lemma_id_position(states, ids, i - 1);
        assert(hands_out(states[i - 1], ids[i - 1], states[(i - 1) + 1]));
    }
}

} // verus!
