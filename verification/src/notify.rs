//! Ticket correlation for asynchronous rolls.
//!
//! An asynchronous roll is correlated with its caller through an opaque
//! ticket, issued at the moment the request is accepted and before any
//! producing work starts.  The registry models the notification
//! collaborator's issue-then-fulfil pattern as a mapping from ticket to a
//! single-assignment result slot: a ticket is issued at most once, submitted
//! to exactly once, and the caller observes the ticket before the result
//! exists.  Completions of distinct tickets race; nothing orders them.

use vstd::prelude::*;

verus! {

/// The lifecycle of one ticket's result slot: issued and still awaiting its
/// result, filled by the one matching submission, or already consumed by the
/// caller.
pub enum TicketState<T> {
    Pending,
    Filled(T),
    Consumed,
}

/// Issues opaque correlation tickets and holds each ticket's
/// single-assignment result slot.  A ticket is its slot's index.
pub struct TicketRegistry<T> {
    slots: Vec<TicketState<T>>,
}

impl<T> View for TicketRegistry<T> {
    type V = Seq<TicketState<T>>;

    closed spec fn view(&self) -> Seq<TicketState<T>> {
        self.slots@
    }
}

impl<T> TicketRegistry<T> {
    /// An empty registry: no tickets issued yet.
    pub fn new() -> (r: Self)
        ensures
            r@ == Seq::<TicketState<T>>::empty(),
    {
        TicketRegistry { slots: Vec::new() }
    }

    /// How many tickets have been issued.
    pub fn issued(&self) -> (n: usize)
        ensures
            n == self@.len(),
    {
        self.slots.len()
    }

    /// Issue a fresh ticket: distinct from every ticket issued earlier, with
    /// a still-empty result slot, available to the caller before any
    /// producing work starts.
    pub fn register(&mut self) -> (t: usize)
        ensures
            registered(old(self)@, final(self)@, t),
    {
        let t = self.slots.len();
        self.slots.push(TicketState::Pending);
        t
    }

    /// Deliver the outcome for a ticket.  Allowed exactly once per ticket:
    /// only for an issued ticket whose slot is still empty.
    pub fn submit(&mut self, t: usize, outcome: T)
        requires
            t < old(self)@.len(),
            old(self)@[t as int] is Pending,
        ensures
            submitted(old(self)@, final(self)@, t, outcome),
    {
        let slot = &mut self.slots[t];
        *slot = TicketState::Filled(outcome);
    }

    /// Take the result for a ticket: the filled outcome once the submission
    /// has happened, nothing while the slot is still pending, and nothing
    /// again after the outcome was already taken.
    pub fn retrieve(&mut self, t: usize) -> (r: Option<T>)
        requires
            t < old(self)@.len(),
        ensures
            match old(self)@[t as int] {
                TicketState::Filled(v) => r == Some(v) && final(self)@ == old(self)@.update(
                    t as int,
                    TicketState::Consumed,
                ),
                TicketState::Pending => r is None && final(self)@ == old(self)@,
                TicketState::Consumed => r is None && final(self)@ == old(self)@,
            },
    {
        let mut taken: TicketState<T> = TicketState::Consumed;
        let slot = &mut self.slots[t];
        core::mem::swap(slot, &mut taken);
        match taken {
            TicketState::Filled(v) => Some(v),
            TicketState::Pending => {
                let slot = &mut self.slots[t];
                *slot = TicketState::Pending;
                proof {
                    assert(self@ =~= old(self)@);
                }
                None
            },
            TicketState::Consumed => {
                proof {
                    assert(self@ =~= old(self)@);
                }
                None
            },
        }
    }
}

/// The transition `register` makes: the fresh ticket is the next free index
/// and its slot starts empty.
pub open spec fn registered<T>(pre: Seq<TicketState<T>>, post: Seq<TicketState<T>>, t: usize) -> bool {
    &&& t == pre.len()
    &&& post == pre.push(TicketState::Pending)
}

/// The transition `submit` makes: the one matching slot is filled, every
/// other ticket untouched.
pub open spec fn submitted<T>(
    pre: Seq<TicketState<T>>,
    post: Seq<TicketState<T>>,
    t: usize,
    outcome: T,
) -> bool {
    &&& t < pre.len()
    &&& pre[t as int] is Pending
    &&& post == pre.update(t as int, TicketState::Filled(outcome))
}

/// A fresh ticket was never issued before: registration issues the first
/// index past every earlier ticket, leaves every earlier slot untouched, and
/// the new slot is still empty when the caller observes the ticket.
pub proof fn lemma_register_fresh<T>(pre: Seq<TicketState<T>>, post: Seq<TicketState<T>>, t: usize)
    requires
        registered(pre, post, t),
    ensures
        post[t as int] is Pending,
        forall|u: int| 0 <= u < pre.len() ==> post[u] == pre[u],
{
}

/// Two registrations issue two distinct tickets, in whatever order the two
/// requests were accepted.
pub proof fn lemma_tickets_distinct<T>(
    s0: Seq<TicketState<T>>,
    s1: Seq<TicketState<T>>,
    s2: Seq<TicketState<T>>,
    t1: usize,
    t2: usize,
)
    requires
        registered(s0, s1, t1),
        registered(s1, s2, t2),
    ensures
        t1 != t2,
{
}

/// A submission happens exactly once per ticket: it empties the only state
/// from which `submit` is allowed, and no other ticket's slot changes, so a
/// second submission for the same ticket is impossible.
pub proof fn lemma_submit_exactly_once<T>(
    pre: Seq<TicketState<T>>,
    post: Seq<TicketState<T>>,
    t: usize,
    outcome: T,
)
    requires
        submitted(pre, post, t, outcome),
    ensures
        !(post[t as int] is Pending),
        post[t as int] == TicketState::Filled(outcome),
        forall|u: int| 0 <= u < pre.len() && u != t ==> post[u] == pre[u],
{
}

} // verus!
