//! Upstream failover: the decisions of one forwarding call, which consults
//! the configured upstreams in order and stops at the first that answers.
//!
//! The caller performs each attempt (send, wait with a timeout, receive) and
//! hands back what it got; this module decides what comes next.
use crate::dns::{answers_in, decode_message, decodes, encode_query, known_class, known_type, query_wire, Answer, Query};
use vstd::prelude::*;

verus! {

/// What the forwarding call does next.
pub enum ForwardAction {
    /// Send the request to the upstream at this position of the list.
    Contact(usize),
    /// Stop, with these answers (empty when no upstream produced any).
    Finish(Vec<Answer>),
}

/// The position of a forwarding call in the list of upstreams.
pub struct Failover {
    pub count: usize,
    pub current: usize,
}

/// What an attempt yielded, as the decisions see it: the answer section of a
/// well-formed reply, or `None` for a send failure, a timeout, a receive
/// failure or a malformed reply.
pub open spec fn got_view(got: Option<Vec<Answer>>) -> Option<Seq<Answer>> {
    match got {
        Some(a) => Some(a@),
        None => None,
    }
}

/// The decision after the attempt at position `current` of `count` upstreams:
/// `Some(answers)` to stop with them, `None` to contact the next upstream.
pub open spec fn next_step(count: nat, current: nat, got: Option<Seq<Answer>>) -> Option<Seq<Answer>> {
    if got is Some && got->Some_0.len() > 0 {
        got
    } else if current + 1 < count {
        None
    } else {
        Some(Seq::empty())
    }
}

/// The whole traversal from position `current`, where `outcomes[i]` is what
/// contacting the upstream at `current + i` yields: the answers returned and
/// how many upstreams were contacted in all, counted from the start of the list.
pub open spec fn traverse(count: nat, current: nat, outcomes: Seq<Option<Seq<Answer>>>) -> (Seq<Answer>, nat)
    decreases outcomes.len(),
{
    if outcomes.len() == 0 {
        (Seq::empty(), current)
    } else {
        match next_step(count, current, outcomes[0]) {
            Some(a) => (a, current + 1),
            None => traverse(count, current + 1, outcomes.drop_first()),
        }
    }
}

impl Failover {
    /// Begins a forwarding call over `count` upstreams: contact the first, or
    /// finish empty when there is none.
    pub fn start(count: usize) -> (r: (Failover, ForwardAction))
        ensures
            r.0.count == count,
            r.0.current == 0,
            count > 0 ==> r.1 == ForwardAction::Contact(0),
            count == 0 ==> (r.1 matches ForwardAction::Finish(a) && a@.len() == 0),
    {
        let f = Failover { count, current: 0 };
        if count > 0 {
            (f, ForwardAction::Contact(0))
        } else {
            (f, ForwardAction::Finish(Vec::new()))
        }
    }

    /// Takes what the attempt at the current upstream yielded and decides:
    /// stop with a non-empty answer set, else go on to the next upstream, or
    /// finish empty after the last.
    pub fn on_attempt(&mut self, got: Option<Vec<Answer>>) -> (r: ForwardAction)
        requires
            old(self).current < old(self).count,
        ensures
            final(self).count == old(self).count,
            match next_step(old(self).count as nat, old(self).current as nat, got_view(got)) {
                Some(a) => r matches ForwardAction::Finish(x) && x@ == a && final(self).current
                    == old(self).current,
                None => r == ForwardAction::Contact((old(self).current + 1) as usize)
                    && final(self).current == old(self).current + 1,
            },
    {
        match got {
            Some(a) => {
                if a.len() > 0 {
                    return ForwardAction::Finish(a);
                }
            },
            None => {},
        }
        if self.current + 1 < self.count {
            self.current = self.current + 1;
            ForwardAction::Contact(self.current)
        } else {
            ForwardAction::Finish(Vec::new())
        }
    }
}

/// The answer section of an upstream's reply, or `None` where the reply is
/// not a well-formed DNS message.
pub fn reply_answers(reply: &[u8]) -> (r: Option<Vec<Answer>>)
    ensures
        r is Some <==> decodes(reply@),
        r matches Some(a) ==> a@ == answers_in(reply@),
{
    match decode_message(reply) {
        Some(d) => Some(d.answers),
        None => None,
    }
}

/// The request sent to every upstream for `q`: the wire form of a query
/// message with id `id` holding `q` alone, or `None` where it cannot be
/// encoded. The caller picks the id once per forwarding call, so every
/// upstream gets the same bytes.
pub fn upstream_request(q: &Query, id: u16) -> (r: Option<Vec<u8>>)
    ensures
        r is Some <==> query_wire(q.name@, q.rtype, q.class, id) is Some,
        r matches Some(w) ==> query_wire(q.name@, q.rtype, q.class, id) == Some(w@),
        r is Some ==> known_type(q.rtype) && known_class(q.class),
{
    encode_query(q, id)
}

/// Failover stops at the first upstream that answers: when the upstream at
/// position `k` is the first to return a non-empty answer set, the call
/// returns exactly that set and has contacted `k + 1` upstreams, none after it.
pub proof fn law_failover_stops_at_first_answer(
    outcomes: Seq<Option<Seq<Answer>>>,
    k: nat,
)
    requires
        k < outcomes.len(),
        outcomes[k as int] matches Some(a) && a.len() > 0,
        forall|i: int|
            0 <= i < k ==> !(#[trigger] outcomes[i] matches Some(a) && a.len() > 0),
    ensures
        traverse(outcomes.len(), 0, outcomes) == (outcomes[k as int]->Some_0, k + 1),
{
    lemma_traverse_from(outcomes.len(), 0, outcomes, k);
}

proof fn lemma_traverse_from(count: nat, current: nat, outcomes: Seq<Option<Seq<Answer>>>, k: nat)
    requires
        k < outcomes.len(),
        current + outcomes.len() == count,
        outcomes[k as int] matches Some(a) && a.len() > 0,
        forall|i: int|
            0 <= i < k ==> !(#[trigger] outcomes[i] matches Some(a) && a.len() > 0),
    ensures
        traverse(count, current, outcomes) == (outcomes[k as int]->Some_0, current + k + 1),
    decreases k,
{
    if k > 0 {
        assert(!(outcomes[0] matches Some(a) && a.len() > 0));
        let rest = outcomes.drop_first();
        assert forall|i: int| 0 <= i < k - 1 implies !(#[trigger] rest[i] matches Some(a) && a.len()
            > 0) by {
            assert(rest[i] == outcomes[i + 1]);
        }
        lemma_traverse_from(count, current + 1, rest, (k - 1) as nat);
    }
}

/// When every configured upstream fails or answers with nothing, the call
/// returns an empty answer set after contacting each upstream once.
pub proof fn law_failover_exhausted(outcomes: Seq<Option<Seq<Answer>>>)
    requires
        outcomes.len() > 0,
        forall|i: int|
            0 <= i < outcomes.len() ==> !(#[trigger] outcomes[i] matches Some(a) && a.len() > 0),
    ensures
        traverse(outcomes.len(), 0, outcomes) == (Seq::<Answer>::empty(), outcomes.len()),
{
    lemma_traverse_exhausted(outcomes.len(), 0, outcomes);
}

proof fn lemma_traverse_exhausted(count: nat, current: nat, outcomes: Seq<Option<Seq<Answer>>>)
    requires
        outcomes.len() > 0,
        current + outcomes.len() == count,
        forall|i: int|
            0 <= i < outcomes.len() ==> !(#[trigger] outcomes[i] matches Some(a) && a.len() > 0),
    ensures
        traverse(count, current, outcomes) == (Seq::<Answer>::empty(), count),
    decreases outcomes.len(),
{
    assert(!(outcomes[0] matches Some(a) && a.len() > 0));
    if outcomes.len() > 1 {
        let rest = outcomes.drop_first();
        assert forall|i: int| 0 <= i < rest.len() implies !(#[trigger] rest[i] matches Some(a)
            && a.len() > 0) by {
            assert(rest[i] == outcomes[i + 1]);
        }
        lemma_traverse_exhausted(count, current + 1, rest);
    }
}

} // verus!
