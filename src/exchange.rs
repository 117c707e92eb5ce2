//! One request/response exchange: the decoded request, the answers gathered
//! question by question, and the response that goes back.
use crate::cache::{store_answers, min_ttl_of, CacheEntry};
use crate::dns::{
    decode_message, decodes, encode_response, query_matches, question_of, questions_in, response_wire,
    Answer, Query,
};
use crate::ttldict::{expiration_of, TTLDict};
use vstd::prelude::*;

verus! {

/// The answer sets of `s`, one after another.
pub open spec fn concat_all(s: Seq<Seq<Answer>>) -> Seq<Answer>
    decreases s.len(),
{
    if s.len() == 0 {
        Seq::empty()
    } else {
        concat_all(s.drop_last()) + s.last()
    }
}

/// What to do with a question that the cache missed, once the resolver has
/// answered.
pub enum MissStep {
    /// The resolver had nothing: ask the upstream forwarder.
    Forward,
    /// Settle the question with these records.
    Settle(Vec<Answer>),
}

/// Decides on the resolver's records: an empty set sends the question on to
/// the upstream forwarder, any other is used as it is.
pub fn after_resolver(records: Vec<Answer>) -> (r: MissStep)
    ensures
        records@.len() == 0 <==> r is Forward,
        r matches MissStep::Settle(a) ==> a@ == records@,
{
    if records.len() == 0 {
        MissStep::Forward
    } else {
        MissStep::Settle(records)
    }
}

/// A request being answered.
pub struct Exchange {
    request: Vec<u8>,
    queries: Vec<Query>,
    answers: Vec<Answer>,
    authoritative: bool,
    next: usize,
    resolved: Ghost<Seq<Seq<Answer>>>,
}

impl Exchange {
    /// The request datagram.
    pub closed spec fn datagram(&self) -> Seq<u8> {
        self.request@
    }

    /// The questions of the request, in order.
    pub closed spec fn queries(&self) -> Seq<Query> {
        self.queries@
    }

    /// The answer set of each question settled so far, in question order.
    pub closed spec fn resolved(&self) -> Seq<Seq<Answer>> {
        self.resolved@
    }

    /// The answer section gathered so far.
    pub closed spec fn answer_section(&self) -> Seq<Answer> {
        self.answers@
    }

    /// Whether some question settled so far was answered authoritatively.
    pub closed spec fn is_authoritative(&self) -> bool {
        self.authoritative
    }

    pub closed spec fn wf(&self) -> bool {
        &&& self.next == self.resolved@.len()
        &&& self.next <= self.queries@.len()
        &&& self.answers@ == concat_all(self.resolved@)
    }

    /// Starts an exchange on a received datagram, or `None` where it is not a
    /// DNS message: such a datagram gets no reply.
    pub fn begin(datagram: &[u8]) -> (r: Option<Exchange>)
        ensures
            r is Some <==> decodes(datagram@),
            r matches Some(x) ==> x.wf() && x.resolved().len() == 0 && x.answer_section().len()
                == 0 && !x.is_authoritative() && x.datagram() == datagram@,
            r matches Some(x) ==> x.queries().len() == questions_in(datagram@).len(),
            r matches Some(x) ==> forall|i: int|
                0 <= i < x.queries().len() ==> query_matches(
                    #[trigger] x.queries()[i],
                    questions_in(datagram@)[i],
                ),
    {
        let decoded = match decode_message(datagram) {
            Some(d) => d,
            None => {
                return None;
            },
        };
        let mut queries: Vec<Query> = Vec::new();
        let mut i: usize = 0;
        let ghost parts = questions_in(datagram@);
        while i < decoded.questions.len()
            invariant
                0 <= i <= decoded.questions.len(),
                decoded.questions@.len() == parts.len(),
                forall|j: int|
                    0 <= j < decoded.questions@.len() ==> (#[trigger] decoded.questions@[j]).0@
                        == parts[j].0 && decoded.questions@[j].1@ == parts[j].1
                        && decoded.questions@[j].1@.len() >= 4,
                queries@.len() == i,
                forall|j: int| 0 <= j < i ==> query_matches(#[trigger] queries@[j], parts[j]),
            decreases decoded.questions.len() - i,
        {
            let name = decoded.questions[i].0.clone();
            let q = question_of(name, &decoded.questions[i].1);
            queries.push(q);
            i = i + 1;
        }
        let x = Exchange {
            request: vstd::slice::slice_to_vec(datagram),
            queries,
            answers: Vec::new(),
            authoritative: false,
            next: 0,
            resolved: Ghost(Seq::empty()),
        };
        assert(x.answers@ =~= concat_all(x.resolved@));
        Some(x)
    }

    /// The next question to settle, or `None` when every one is settled.
    pub fn pending(&self) -> (r: Option<&Query>)
        requires
            self.wf(),
        ensures
            r is Some <==> self.resolved().len() < self.queries().len(),
            r matches Some(q) ==> *q == self.queries()[self.resolved().len() as int],
    {
        if self.next < self.queries.len() {
            Some(&self.queries[self.next])
        } else {
            None
        }
    }

    /// Settles the pending question with `answers`, appended after those of
    /// the earlier questions.
    pub fn answer(&mut self, answers: Vec<Answer>, authoritative: bool)
        requires
            old(self).wf(),
            old(self).resolved().len() < old(self).queries().len(),
        ensures
            final(self).wf(),
            final(self).queries() == old(self).queries(),
            final(self).datagram() == old(self).datagram(),
            final(self).resolved() == old(self).resolved().push(answers@),
            final(self).answer_section() == old(self).answer_section() + answers@,
            final(self).is_authoritative() == (old(self).is_authoritative() || authoritative),
    {
        let ghost before = self.answers@;
        assert(self.next < self.queries.len());
        let n = self.next + 1;
        let mut answers = answers;
        let ghost added = answers@;
        self.answers.append(&mut answers);
        if authoritative {
            self.authoritative = true;
        }
        self.next = n;
        self.resolved = Ghost(self.resolved@.push(added));
        assert(self.resolved@.drop_last() =~= old(self).resolved@);
        assert(self.answers@ =~= before + added);
    }

    /// Settles the pending question after a cache miss: stores a non-empty
    /// record set in the cache under `key` at instant `now`, then appends it.
    /// An empty set is appended and never stored.
    pub fn settle_miss(
        &mut self,
        cache: &mut TTLDict<u64, CacheEntry>,
        key: u64,
        answers: Vec<Answer>,
        authoritative: bool,
        now: u64,
    )
        requires
            old(self).wf(),
            old(self).resolved().len() < old(self).queries().len(),
            old(cache).wf(),
        ensures
            final(self).wf(),
            final(self).queries() == old(self).queries(),
            final(self).datagram() == old(self).datagram(),
            final(self).resolved() == old(self).resolved().push(answers@),
            final(self).answer_section() == old(self).answer_section() + answers@,
            final(self).is_authoritative() == (old(self).is_authoritative() || authoritative),
            final(cache).wf(),
            answers@.len() == 0 ==> final(cache).entries() == old(cache).entries(),
            answers@.len() > 0 ==> {
                &&& final(cache).entries().contains_key(key)
                &&& final(cache).entries()[key].value.entry@ == answers@
                &&& final(cache).entries()[key].value.authoritative == authoritative
                &&& final(cache).entries()[key].value.init_time == now
                &&& final(cache).entries()[key].expiration == expiration_of(
                    now,
                    min_ttl_of(answers@),
                )
            },
    {
        store_answers(cache, key, &answers, authoritative, now);
        self.answer(answers, authoritative);
    }

    /// The wire form of the response: the request's header and questions,
    /// marked as a response to a standard query, authoritative where some
    /// question was answered so, with the gathered answer section. `None`
    /// where the codec cannot encode it.
    pub fn finish(&self) -> (r: Option<Vec<u8>>)
        ensures
            r is Some <==> response_wire(
                self.datagram(),
                self.is_authoritative(),
                self.answer_section(),
            ) is Some,
            r matches Some(w) ==> response_wire(
                self.datagram(),
                self.is_authoritative(),
                self.answer_section(),
            ) == Some(w@),
    {
        encode_response(self.request.as_slice(), self.authoritative, &self.answers)
    }
}

/// The answer section of a two-question request is the first question's
/// answers followed by the second's, each resolved on its own.
pub proof fn law_answers_in_question_order(x: Exchange)
    requires
        x.wf(),
        x.resolved().len() == 2,
    ensures
        x.answer_section() == x.resolved()[0] + x.resolved()[1],
{
    let s = x.resolved();
    let first = s.drop_last();
    assert(first.drop_last() =~= Seq::<Seq<Answer>>::empty());
    assert(first.last() == s[0]);
    assert(concat_all(first) == concat_all(first.drop_last()) + first.last());
    assert(concat_all(first) =~= s[0]);
    assert(concat_all(s) == concat_all(first) + s.last());
}

} // verus!
