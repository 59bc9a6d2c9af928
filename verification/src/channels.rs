//! The users of a room and, for each one, the sending end of the channel
//! through which the user receives the packets of the others.
use std::collections::HashMap;
use vstd::prelude::*;
use vstd::std_specs::hash::{group_hash_axioms, spec_keys_iter};
use vstd::std_specs::iter::IteratorSpec;


verus! {

broadcast use group_hash_axioms;

/// `tokio::sync::mpsc::Sender`, the sending end of a bounded channel.
#[verifier::external_type_specification]
#[verifier::external_body]
#[verifier::reject_recursive_types(T)]
pub struct ExPacketSender<T>(tokio::sync::mpsc::Sender<T>);

/// `tokio::sync::mpsc::Receiver`, the receiving end of a bounded channel.
#[verifier::external_type_specification]
#[verifier::external_body]
#[verifier::reject_recursive_types(T)]
pub struct ExPacketReceiver<T>(tokio::sync::mpsc::Receiver<T>);

/// The sending end of a channel, with the identity of its channel and the
/// number of packets that the channel holds. Both are ghost and exist for
/// the proofs only. The identity pairs a sender with the receiver made with
/// it and nothing more: it is one and the same value for every channel, so
/// it does not tell two channels apart.
#[verifier::reject_recursive_types(P)]
pub struct PacketSender<P> {
    pub tx: tokio::sync::mpsc::Sender<P>,
    channel: Ghost<int>,
    capacity: Ghost<nat>,
}

impl<P> PacketSender<P> {
    /// The channel that this end sends into.
    pub closed spec fn channel(self) -> int {
        self.channel@
    }

    /// The number of packets that the channel holds.
    pub closed spec fn capacity(self) -> nat {
        self.capacity@
    }
}

/// The receiving end of a channel, with the identity of its channel (ghost,
/// pairing it with its sender in proofs; see `PacketSender`).
#[verifier::reject_recursive_types(P)]
pub struct PacketReceiver<P> {
    pub rx: tokio::sync::mpsc::Receiver<P>,
    channel: Ghost<int>,
}

impl<P> PacketReceiver<P> {
    /// The channel that this end receives from.
    pub closed spec fn channel(self) -> int {
        self.channel@
    }
}

/// `tokio::sync::mpsc::channel`: a new bounded channel that holds up to
/// `buffer` packets. The two ends that it returns belong to that one channel,
/// so they are given the same identity, and the sender holds the capacity.
/// tokio panics on a capacity of zero or of more than `usize::MAX >> 3`.
#[verifier::external_body]
fn packet_channel<P>(buffer: usize) -> (ends: (PacketSender<P>, PacketReceiver<P>))
    requires
        0 < buffer <= usize::MAX / 8,
    ensures
        ends.0.channel() == ends.1.channel(),
        ends.0.capacity() == buffer,
{
    let (tx, rx) = tokio::sync::mpsc::channel(buffer);
    (
        PacketSender { tx, channel: Ghost(0int), capacity: Ghost(buffer as nat) },
        PacketReceiver { rx, channel: Ghost(0int) },
    )
}

/// `Sender::is_closed`: whether the receiving end is gone. It depends on
/// what the other end has done, so nothing is stated of it.
#[verifier::external_body]
fn sender_is_closed<P>(tx: &tokio::sync::mpsc::Sender<P>) -> (closed: bool) {
    tx.is_closed()
}

/// The number of packets that the channel of each user can hold.
pub const CHANNEL_SIZE: usize = 64;

/// The users of the room, each with the sending end of the channel through
/// which the user receives the packets of the others.
#[verifier::reject_recursive_types(P)]
pub struct ChannelTable<P> {
    txs: HashMap<u64, PacketSender<P>>,
}

impl<P> View for ChannelTable<P> {
    type V = Map<u64, PacketSender<P>>;

    closed spec fn view(&self) -> Self::V {
        self.txs@
    }
}

impl<P> ChannelTable<P> {
    /// An empty room.
    pub fn new() -> (table: ChannelTable<P>)
        ensures
            table@ == Map::<u64, PacketSender<P>>::empty(),
    {
        ChannelTable { txs: HashMap::new() }
    }

    /// Lets the user in: a new channel of `CHANNEL_SIZE` packets, whose
    /// sending end the table keeps (in place of the user's earlier one, if
    /// any) and whose receiving end is returned.
    pub fn create_channel(&mut self, user_id: u64) -> (rx: PacketReceiver<P>)
        ensures
            final(self)@.dom() == old(self)@.dom().insert(user_id),
            forall|k: u64| #[trigger]
                old(self)@.contains_key(k) && k != user_id ==> final(self)@[k] == old(self)@[k],
            final(self)@[user_id].channel() == rx.channel(),
            final(self)@[user_id].capacity() == CHANNEL_SIZE,
    {
        let (tx, rx) = packet_channel(CHANNEL_SIZE);
        self.txs.insert(user_id, tx);
        rx
    }

    /// Lets the user out: the table forgets the user's channel.
    pub fn remove_channel(&mut self, user_id: u64)
        ensures
            final(self)@ == old(self)@.remove(user_id),
    {
        self.txs.remove(&user_id);
    }

    /// The sending end of the user's channel, if the user is in the room.
    pub fn sender(&self, user_id: u64) -> (tx: Option<&PacketSender<P>>)
        ensures
            match tx {
                Some(tx) => self@.contains_key(user_id) && *tx == self@[user_id],
                None => !self@.contains_key(user_id),
            },
    {
        self.txs.get(&user_id)
    }

    /// The users in the room, each once, in no particular order.
    pub(crate) fn members(&self) -> (ids: Vec<u64>)
        ensures
            ids@.no_duplicates(),
            ids@.to_set() == self@.dom(),
    {
        let ghost keys = spec_keys_iter(&self.txs).remaining();
        let mut ids: Vec<u64> = Vec::new();
        for k in it: self.txs.keys()
            invariant
                it.seq() == keys,
                ids@.len() == it.index(),
                forall|j: int| 0 <= j < it.index() ==> #[trigger] ids@[j] == *keys[j],
        {
            ids.push(*k);
        }
        proof {
            assert(ids@ =~= keys.unref());
        }
        ids
    }

    /// The users to whom a packet from `from` goes: everyone in the room but
    /// the sender, each once, in no particular order.
    pub fn recipients(&self, from: u64) -> (ids: Vec<u64>)
        ensures
            ids@.no_duplicates(),
            ids@.to_set() == self@.dom().remove(from),
    {
        let all = self.members();
        let mut ids: Vec<u64> = Vec::new();
        let mut i: usize = 0;
        while i < all.len()
            invariant
                i <= all.len(),
                all@.no_duplicates(),
                ids@.no_duplicates(),
                forall|k: u64| #[trigger] ids@.contains(k) <==> (all@.subrange(0, i as int).contains(k) && k != from),
            decreases all.len() - i,
        {
            let k = all[i];
            let ghost before = ids@;
            let ghost prefix = all@.subrange(0, i as int);
            assert(all@.subrange(0, i + 1) == prefix.push(k));
            assert(!prefix.contains(k)) by {
                if prefix.contains(k) {
                    let j = choose|j: int| 0 <= j < prefix.len() && prefix[j] == k;
                    assert(all@[j] == all@[i as int]);
                }
            }
            if k != from {
                assert(!before.contains(k));
                ids.push(k);
                assert(ids@ == before.push(k));
                assert forall|a: int, b: int|
                    0 <= a < ids@.len() && 0 <= b < ids@.len() && a != b implies ids@[a] != ids@[b] by {
                    if a == before.len() {
                        assert(before.contains(ids@[b]));
                    } else if b == before.len() {
                        assert(before.contains(ids@[a]));
                    } else {
                        assert(before[a] != before[b]);
                    }
                }
                assert forall|x: u64| #[trigger] ids@.contains(x) <==> (before.contains(x) || x == k) by {
                    if ids@.contains(x) && x != k {
                        let j = choose|j: int| 0 <= j < ids@.len() && ids@[j] == x;
                        assert(before[j] == x);
                    }
                    if before.contains(x) {
                        let j = choose|j: int| 0 <= j < before.len() && before[j] == x;
                        assert(ids@[j] == x);
                    }
                    if x == k {
                        assert(ids@[before.len() as int] == x);
                    }
                }
            }
            assert forall|x: u64| #[trigger] all@.subrange(0, i + 1).contains(x) <==> (prefix.contains(x) || x == k) by {
                let p1 = all@.subrange(0, i + 1);
                if p1.contains(x) && x != k {
                    let j = choose|j: int| 0 <= j < p1.len() && p1[j] == x;
                    assert(prefix[j] == x);
                }
                if prefix.contains(x) {
                    let j = choose|j: int| 0 <= j < prefix.len() && prefix[j] == x;
                    assert(p1[j] == x);
                }
                if x == k {
                    assert(p1[i as int] == x);
                }
            }
            i = i + 1;
        }
        assert(all@.subrange(0, all.len() as int) == all@);
        assert(ids@.to_set() =~= self@.dom().remove(from));
        ids
    }

    /// Lets out the users whose channel was found closed: given, for users
    /// of the room, whether each one's channel is closed, the table forgets
    /// the channels of those answered closed and keeps every other one.
    pub fn drop_closed(&mut self, answers: &Vec<(u64, bool)>)
        ensures
            final(self)@ == old(self)@.remove_keys(closed_users(answers@)),
    {
        let mut i: usize = 0;
        while i < answers.len()
            invariant
                i <= answers.len(),
                self@ == old(self)@.remove_keys(closed_users(answers@.subrange(0, i as int))),
            decreases answers.len() - i,
        {
            let (key, closed) = answers[i];
            if closed {
                self.txs.remove(&key);
            }
            proof {
                let done = answers@.subrange(0, i as int);
                let next = answers@.subrange(0, i + 1);
                assert(next == done.push((key, closed)));
                assert forall|x: (u64, bool)| next.contains(x) <==> (done.contains(x) || x == (key, closed)) by {
                    if next.contains(x) && x != (key, closed) {
                        let j = choose|j: int| 0 <= j < next.len() && next[j] == x;
                        assert(done[j] == x);
                    }
                    if done.contains(x) {
                        let j = choose|j: int| 0 <= j < done.len() && done[j] == x;
                        assert(next[j] == x);
                    }
                    if x == (key, closed) {
                        assert(next[i as int] == x);
                    }
                }
                if closed {
                    assert(closed_users(next) =~= closed_users(done).insert(key));
                } else {
                    assert(closed_users(next) =~= closed_users(done));
                }
                assert(self@ =~= old(self)@.remove_keys(closed_users(next)));
            }
            i = i + 1;
        }
        assert(answers@.subrange(0, answers.len() as int) == answers@);
    }

    /// Forgets the channels whose receiving end is gone: asks the sender of
    /// each user in the room, once, whether its channel is closed, and lets
    /// out exactly the users answered closed. The answers depend on the
    /// receivers, so which users go is stated only through them.
    pub fn clear_dropped_channels(&mut self)
        ensures
            exists|answers: Seq<(u64, bool)>|
                #![trigger closed_users(answers)]
                answered_users(answers).no_duplicates() && answered_users(answers).to_set() == old(
                    self,
                )@.dom() && final(self)@ == old(self)@.remove_keys(closed_users(answers)),
    {
        let ids = self.members();
        let mut answers: Vec<(u64, bool)> = Vec::new();
        let mut i: usize = 0;
        while i < ids.len()
            invariant
                i <= ids.len(),
                answered_users(answers@) == ids@.subrange(0, i as int),
            decreases ids.len() - i,
        {
            let key = ids[i];
            let is_closed = match self.txs.get(&key) {
                Some(sender) => sender_is_closed(&sender.tx),
                None => false,
            };
            let ghost before = answers@;
            answers.push((key, is_closed));
            assert(answered_users(answers@) =~= ids@.subrange(0, i + 1)) by {
                assert(answers@ == before.push((key, is_closed)));
                assert(answered_users(before.push((key, is_closed))) =~= answered_users(before).push(key));
                assert(ids@.subrange(0, i + 1) =~= ids@.subrange(0, i as int).push(key));
            }
            i = i + 1;
        }
        assert(ids@.subrange(0, ids.len() as int) == ids@);
        let ghost given = answers@;
        self.drop_closed(&answers);
        assert(closed_users(given) == closed_users(given));
    }
}

/// The users that a list of answers is about, in order.
pub open spec fn answered_users(answers: Seq<(u64, bool)>) -> Seq<u64> {
    answers.map_values(|a: (u64, bool)| a.0)
}

/// The users that a list of answers says have a closed channel.
pub open spec fn closed_users(answers: Seq<(u64, bool)>) -> Set<u64> {
    Set::new(|u: u64| answers.contains((u, true)))
}

/// Leaving undoes joining: letting a user in and then out leaves the other
/// users' channels as they were, and the user without a channel.
pub proof fn lemma_join_then_leave<P>(
    before: Map<u64, PacketSender<P>>,
    joined: Map<u64, PacketSender<P>>,
    left: Map<u64, PacketSender<P>>,
    user: u64,
)
    requires
        joined.dom() == before.dom().insert(user),
        forall|k: u64| #[trigger] before.contains_key(k) && k != user ==> joined[k] == before[k],
        left == joined.remove(user),
    ensures
        left == before.remove(user),
{
    assert(left =~= before.remove(user));
}

} // verus!
