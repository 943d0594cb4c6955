//! The ticket ledger: every live ticket, keyed by `(round_id, user, nonce)`.
//! Creating a ticket is insert-if-absent; an occupied key is a replay.
use vstd::prelude::*;

use crate::pubkey::Pubkey;
use crate::state::{Round, Ticket};

verus! {

/// Whether ticket `t` has key `(round_id, user, nonce)`.
pub open spec fn has_key(t: Ticket, round_id: u64, user: Seq<u8>, nonce: u64) -> bool {
    t.round_id == round_id && t.user@ == user && t.nonce == nonce
}

/// Whether two tickets have the same key.
pub open spec fn same_key(a: Ticket, b: Ticket) -> bool {
    has_key(b, a.round_id, a.user@, a.nonce)
}

/// Whether some ticket of `s` has key `(round_id, user, nonce)`.
pub open spec fn occupied(s: Seq<Ticket>, round_id: u64, user: Seq<u8>, nonce: u64) -> bool {
    exists|i: int| 0 <= i < s.len() && has_key(#[trigger] s[i], round_id, user, nonce)
}

/// Position of the ticket keyed `(round_id, user, nonce)` in `s`, where
/// there is one.
pub open spec fn ticket_index(s: Seq<Ticket>, round_id: u64, user: Seq<u8>, nonce: u64) -> int {
    choose|i: int| 0 <= i < s.len() && has_key(#[trigger] s[i], round_id, user, nonce)
}

/// No two tickets of `s` share a key.
pub open spec fn keys_unique(s: Seq<Ticket>) -> bool {
    forall|i: int, j: int|
        0 <= i < s.len() && 0 <= j < s.len() && i != j ==> !same_key(#[trigger] s[i], #[trigger] s[j])
}

/// Whether `t` belongs to round `round_id` and has not been classified yet.
pub open spec fn pending(t: Ticket, round_id: u64) -> bool {
    t.round_id == round_id && !t.processed
}

/// Number of tickets of round `round_id` in `s` that settlement has not
/// classified yet.
pub open spec fn count_pending(s: Seq<Ticket>, round_id: u64) -> nat
    decreases s.len(),
{
    if s.len() == 0 {
        0
    } else {
        count_pending(s.drop_last(), round_id) + if pending(s.last(), round_id) {
            1nat
        } else {
            0nat
        }
    }
}

/// The round's counters agree with the ledger: the tickets committed and not
/// yet settled are exactly the pending tickets of the round.
pub open spec fn ledger_consistent(round: Round, s: Seq<Ticket>) -> bool {
    &&& round.settled_count <= round.committed_count
    &&& round.committed_count - round.settled_count == count_pending(s, round.round_id)
}

pub proof fn lemma_count_push(s: Seq<Ticket>, t: Ticket, round_id: u64)
    ensures
        count_pending(s.push(t), round_id) == count_pending(s, round_id) + if pending(t, round_id) {
            1nat
        } else {
            0nat
        },
{
    assert(s.push(t).drop_last() =~= s);
}

pub proof fn lemma_count_append(s: Seq<Ticket>, t: Seq<Ticket>, round_id: u64)
    requires
        forall|i: int| 0 <= i < t.len() ==> pending(#[trigger] t[i], round_id),
    ensures
        count_pending(s + t, round_id) == count_pending(s, round_id) + t.len(),
    decreases t.len(),
{
    if t.len() > 0 {
        lemma_count_append(s, t.drop_last(), round_id);
        assert((s + t).drop_last() =~= s + t.drop_last());
    } else {
        assert(s + t =~= s);
    }
}

pub proof fn lemma_count_update(s: Seq<Ticket>, i: int, t: Ticket, round_id: u64)
    requires
        0 <= i < s.len(),
    ensures
        count_pending(s.update(i, t), round_id) + (if pending(s[i], round_id) {
            1nat
        } else {
            0nat
        }) == count_pending(s, round_id) + (if pending(t, round_id) {
            1nat
        } else {
            0nat
        }),
    decreases s.len(),
{
    if i == s.len() - 1 {
        assert(s.update(i, t).drop_last() =~= s.drop_last());
    } else {
        lemma_count_update(s.drop_last(), i, t, round_id);
        assert(s.update(i, t).drop_last() =~= s.drop_last().update(i, t));
    }
}

pub proof fn lemma_count_remove(s: Seq<Ticket>, i: int, round_id: u64)
    requires
        0 <= i < s.len(),
    ensures
        count_pending(s.remove(i), round_id) + (if pending(s[i], round_id) {
            1nat
        } else {
            0nat
        }) == count_pending(s, round_id),
    decreases s.len(),
{
    if i == s.len() - 1 {
        assert(s.remove(i) =~= s.drop_last());
    } else {
        lemma_count_remove(s.drop_last(), i, round_id);
        assert(s.remove(i).drop_last() =~= s.drop_last().remove(i));
        assert(s.remove(i).last() == s.last());
    }
}

/// A round with no pending ticket left has settled everything it committed.
pub proof fn lemma_count_zero(s: Seq<Ticket>, round_id: u64)
    requires
        forall|i: int| 0 <= i < s.len() ==> !pending(#[trigger] s[i], round_id),
    ensures
        count_pending(s, round_id) == 0,
    decreases s.len(),
{
    if s.len() > 0 {
        assert forall|i: int| 0 <= i < s.drop_last().len() implies !pending(
            #[trigger] s.drop_last()[i],
            round_id,
        ) by {
            assert(s.drop_last()[i] == s[i]);
        }
        lemma_count_zero(s.drop_last(), round_id);
    }
}

/// The ledger of live tickets.
pub struct TicketBook {
    tickets: Vec<Ticket>,
}

impl View for TicketBook {
    type V = Seq<Ticket>;

    closed spec fn view(&self) -> Seq<Ticket> {
        self.tickets@
    }
}

impl TicketBook {
    /// The ledger's invariant: keys are unique.
    pub open spec fn wf(&self) -> bool {
        keys_unique(self@)
    }

    /// An empty ledger.
    pub fn new() -> (r: TicketBook)
        ensures
            r@ == Seq::<Ticket>::empty(),
            r.wf(),
    {
        TicketBook { tickets: Vec::new() }
    }

    /// Number of live tickets.
    pub fn len(&self) -> (r: usize)
        ensures
            r == self@.len(),
    {
        self.tickets.len()
    }

    /// The ticket at position `i`.
    pub fn ticket_at(&self, i: usize) -> (r: Ticket)
        requires
            i < self@.len(),
        ensures
            r == self@[i as int],
    {
        self.tickets[i]
    }

    /// Position of the ticket keyed `(round_id, user, nonce)`, if any.
    pub fn find(&self, round_id: u64, user: &Pubkey, nonce: u64) -> (r: Option<usize>)
        ensures
            r matches Some(i) ==> i < self@.len() && has_key(self@[i as int], round_id, user@, nonce),
            r is None <==> !occupied(self@, round_id, user@, nonce),
            self.wf() && r is Some ==> r->0 == ticket_index(self@, round_id, user@, nonce),
    {
        let mut i: usize = 0;
        while i < self.tickets.len()
            invariant
                i <= self@.len(),
                forall|j: int| 0 <= j < i ==> !has_key(#[trigger] self@[j], round_id, user@, nonce),
            decreases self@.len() - i,
        {
            let t = &self.tickets[i];
            if t.round_id == round_id && t.nonce == nonce && t.user == *user {
                proof {
                    if self.wf() {
                        let k = ticket_index(self@, round_id, user@, nonce);
                        assert(has_key(self@[i as int], round_id, user@, nonce));
                        assert(has_key(self@[k], round_id, user@, nonce));
                        if k != i {
                            assert(!same_key(self@[i as int], self@[k]));
                        }
                    }
                }
                return Some(i);
            }
            i = i + 1;
        }
        None
    }

    /// The ticket keyed `(round_id, user, nonce)`, if any.
    pub fn get(&self, round_id: u64, user: &Pubkey, nonce: u64) -> (r: Option<Ticket>)
        ensures
            r matches Some(t) ==> has_key(t, round_id, user@, nonce) && self@.contains(t),
            r is None <==> !occupied(self@, round_id, user@, nonce),
    {
        match self.find(round_id, user, nonce) {
            Some(i) => Some(self.tickets[i]),
            None => None,
        }
    }

    /// A copy of this ledger.
    pub fn duplicate(&self) -> (r: TicketBook)
        ensures
            r@ == self@,
    {
        let mut v: Vec<Ticket> = Vec::new();
        let mut i: usize = 0;
        while i < self.tickets.len()
            invariant
                i <= self@.len(),
                v@ == self@.take(i as int),
            decreases self@.len() - i,
        {
            v.push(self.tickets[i]);
            i = i + 1;
            assert(v@ =~= self@.take(i as int));
        }
        assert(v@ =~= self@);
        TicketBook { tickets: v }
    }

    /// Adds a ticket under a free key.
    pub fn insert(&mut self, t: Ticket)
        requires
            old(self).wf(),
            !occupied(old(self)@, t.round_id, t.user@, t.nonce),
        ensures
            final(self)@ == old(self)@.push(t),
            final(self).wf(),
    {
        self.tickets.push(t);
        assert forall|i: int, j: int|
            0 <= i < self@.len() && 0 <= j < self@.len() && i != j implies !same_key(
            #[trigger] self@[i],
            #[trigger] self@[j],
        ) by {
            if j == self@.len() - 1 {
                assert(!has_key(old(self)@[i], t.round_id, t.user@, t.nonce));
            } else if i == self@.len() - 1 {
                assert(!has_key(old(self)@[j], t.round_id, t.user@, t.nonce));
            }
        }
    }

    /// Replaces the ticket at position `i` by one with the same key.
    pub fn replace(&mut self, i: usize, t: Ticket)
        requires
            old(self).wf(),
            i < old(self)@.len(),
            same_key(old(self)@[i as int], t),
        ensures
            final(self)@ == old(self)@.update(i as int, t),
            final(self).wf(),
    {
        self.tickets.set(i, t);
        assert forall|a: int, b: int|
            0 <= a < self@.len() && 0 <= b < self@.len() && a != b implies !same_key(
            #[trigger] self@[a],
            #[trigger] self@[b],
        ) by {
            assert(!same_key(old(self)@[a], old(self)@[b]));
        }
    }

    /// Removes the ticket at position `i`.
    pub fn remove_at(&mut self, i: usize) -> (r: Ticket)
        requires
            old(self).wf(),
            i < old(self)@.len(),
        ensures
            r == old(self)@[i as int],
            final(self)@ == old(self)@.remove(i as int),
            final(self).wf(),
    {
        let r = self.tickets.remove(i);
        assert forall|a: int, b: int|
            0 <= a < self@.len() && 0 <= b < self@.len() && a != b implies !same_key(
            #[trigger] self@[a],
            #[trigger] self@[b],
        ) by {
            let oa = if a < i { a } else { a + 1 };
            let ob = if b < i { b } else { b + 1 };
            assert(self@[a] == old(self)@[oa]);
            assert(self@[b] == old(self)@[ob]);
        }
        r
    }
}

} // verus!
