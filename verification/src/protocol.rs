//! The rendezvous between the front end and the TA, and what follows from
//! it: at most one request is in flight at any time, the TA sees the
//! requests in the order in which they were submitted, and every response
//! goes to the caller whose request it answers.
//!
//! Each end keeps a ledger of the requests and the responses that passed
//! through it. The front end records a request when it pushes it onto the
//! inbound queue and a response when it pops it from the outbound queue; the
//! TA records a request when it pops it and a response when it pushes it.
//! What each call of the channel does to the ledger of its end is stated
//! with that call.
//!
//! The two ends run in different threads, with the queues of the standard
//! library between them. What those queues do cannot be stated of them
//! where they are called, so it is written down here, as `Link`: a queue
//! hands out what was put in, in the same order, and nothing else. The laws
//! of this module hold of every run of the two ends over such queues,
//! however their steps interleave.

use vstd::prelude::*;

verus! {

/// Where one end of the channel stands in the rendezvous.
#[derive(Clone, Copy, Debug, PartialEq, Eq, Structural)]
pub enum Phase {
    /// Every request recorded so far has its response.
    Idle,
    /// The last request recorded has no response yet.
    InFlight,
    /// A queue was found disconnected. The end is of no further use.
    Broken,
}

/// What one end of the channel has recorded, oldest first.
pub ghost struct Ledger {
    pub phase: Phase,
    pub requests: Seq<Seq<u8>>,
    pub responses: Seq<Seq<u8>>,
}

impl Ledger {
    /// The ledger of an end through which nothing has passed yet.
    pub open spec fn fresh() -> Ledger {
        Ledger { phase: Phase::Idle, requests: Seq::empty(), responses: Seq::empty() }
    }

    /// The requests that have no response yet.
    pub open spec fn in_flight(self) -> int {
        self.requests.len() - self.responses.len()
    }

    /// The exchanges that are complete: a request and its response.
    pub open spec fn completed(self) -> nat {
        self.responses.len()
    }

    /// The phase says how far the requests are ahead of the responses: not
    /// at all when idle, by one when in flight, by at most one when broken.
    pub open spec fn wf(self) -> bool {
        match self.phase {
            Phase::Idle => self.in_flight() == 0,
            Phase::InFlight => self.in_flight() == 1,
            Phase::Broken => 0 <= self.in_flight() <= 1,
        }
    }

    /// Well formed and idle: the end can start the next exchange.
    pub open spec fn ready(self) -> bool {
        self.wf() && self.phase is Idle
    }

    /// Well formed and in flight: the end can finish the exchange it began.
    pub open spec fn engaged(self) -> bool {
        self.wf() && self.phase is InFlight
    }

    /// The ledger once `req` has been recorded.
    pub open spec fn with_request(self, req: Seq<u8>) -> Ledger {
        Ledger { phase: Phase::InFlight, requests: self.requests.push(req), ..self }
    }

    /// The ledger once `rsp` has been recorded.
    pub open spec fn with_response(self, rsp: Seq<u8>) -> Ledger {
        Ledger { phase: Phase::Idle, responses: self.responses.push(rsp), ..self }
    }

    /// The ledger once a queue was found disconnected.
    pub open spec fn broken(self) -> Ledger {
        Ledger { phase: Phase::Broken, ..self }
    }

    /// The ledger after one more complete exchange.
    pub open spec fn with_exchange(self, req: Seq<u8>, rsp: Seq<u8>) -> Ledger {
        self.with_request(req).with_response(rsp)
    }

    /// The ledger after the exchanges `pairs`, one after the other.
    pub open spec fn with_exchanges(self, pairs: Seq<(Seq<u8>, Seq<u8>)>) -> Ledger
        decreases pairs.len(),
    {
        if pairs.len() == 0 {
            self
        } else {
            self.with_exchanges(pairs.drop_last()).with_exchange(pairs.last().0, pairs.last().1)
        }
    }
}

/// The two queues deliver in order and make nothing up: what the TA has
/// taken is the beginning of what the front end submitted, and what the
/// front end has collected is the beginning of what the TA answered.
pub open spec fn linked(front: Ledger, back: Ledger) -> bool {
    &&& back.requests.is_prefix_of(front.requests)
    &&& front.responses.is_prefix_of(back.responses)
}

/// At most one request is in flight at either end, whatever has happened:
/// none while the end is idle, one while it is engaged.
pub proof fn lemma_at_most_one_in_flight(l: Ledger)
    requires
        l.wf(),
    ensures
        0 <= l.in_flight() <= 1,
        l.phase is Idle ==> l.in_flight() == 0,
        l.phase is InFlight ==> l.in_flight() == 1,
        l.completed() <= l.requests.len() <= l.completed() + 1,
{
}

/// Over queues that deliver in order, the two ends agree on every completed
/// exchange: the `i`-th response that the front end collected is the `i`-th
/// that the TA gave, and the TA gave it for the `i`-th request that the
/// front end submitted.
pub proof fn lemma_exchanges_agree(front: Ledger, back: Ledger, i: int)
    requires
        front.wf(),
        back.wf(),
        linked(front, back),
        0 <= i < front.completed(),
    ensures
        i < back.completed(),
        i < back.requests.len(),
        back.requests[i] == front.requests[i],
        back.responses[i] == front.responses[i],
{
}

/// A run of `n` exchanges from an idle end records exactly `n` requests and
/// `n` responses more, in the order of the exchanges, and leaves the end
/// idle: nothing is lost, doubled or reordered.
pub proof fn lemma_run_of_exchanges(l: Ledger, pairs: Seq<(Seq<u8>, Seq<u8>)>)
    requires
        l.ready(),
    ensures
        l.with_exchanges(pairs).ready(),
        l.with_exchanges(pairs).requests == l.requests + pairs.map_values(
            |p: (Seq<u8>, Seq<u8>)| p.0,
        ),
        l.with_exchanges(pairs).responses == l.responses + pairs.map_values(
            |p: (Seq<u8>, Seq<u8>)| p.1,
        ),
        l.with_exchanges(pairs).completed() == l.completed() + pairs.len(),
    decreases pairs.len(),
{
    if pairs.len() > 0 {
        lemma_run_of_exchanges(l, pairs.drop_last());
    }
}

/// Whether every completed exchange in the ledger pairs a request with a
/// response that `answers` allows for it.
pub open spec fn answered_by(l: Ledger, answers: spec_fn(Seq<u8>, Seq<u8>) -> bool) -> bool {
    forall|i: int|
        #![trigger l.requests[i]]
        #![trigger l.responses[i]]
        0 <= i < l.completed() ==> answers(l.requests[i], l.responses[i])
}

/// One more exchange that `answers` allows keeps a ledger answered by it.
pub proof fn lemma_exchange_is_answered(
    l: Ledger,
    req: Seq<u8>,
    rsp: Seq<u8>,
    answers: spec_fn(Seq<u8>, Seq<u8>) -> bool,
)
    requires
        l.ready(),
        answered_by(l, answers),
        answers(req, rsp),
    ensures
        answered_by(l.with_exchange(req, rsp), answers),
{
    let after = l.with_exchange(req, rsp);
    assert forall|i: int| 0 <= i < after.completed() implies answers(
        after.requests[i],
        after.responses[i],
    ) by {}
}

/// Every caller gets the answer to its own request: if the TA has answered
/// each request that it took as `answers` allows, then, over queues that
/// deliver in order, each response that the front end collected is one that
/// `answers` allows for the request submitted with it.
pub proof fn lemma_callers_get_their_answers(
    front: Ledger,
    back: Ledger,
    answers: spec_fn(Seq<u8>, Seq<u8>) -> bool,
)
    requires
        front.wf(),
        back.wf(),
        linked(front, back),
        answered_by(back, answers),
    ensures
        answered_by(front, answers),
{
    assert forall|i: int| 0 <= i < front.completed() implies answers(
        front.requests[i],
        front.responses[i],
    ) by {
        lemma_exchanges_agree(front, back, i);
    }
}

/// The whole channel at one instant: the two ends, and what lies in the
/// two queues between them, oldest first.
pub ghost struct Link {
    pub front: Ledger,
    pub inbound: Seq<Seq<u8>>,
    pub back: Ledger,
    pub outbound: Seq<Seq<u8>>,
}

/// What can happen on the channel. Each step is one call at one end; the
/// steps of the two ends may come in any order that the queues allow.
pub ghost enum Step {
    /// The front end pushes a request onto the inbound queue.
    Submit(Seq<u8>),
    /// The TA pops the oldest request from the inbound queue.
    Take,
    /// The TA pushes a response onto the outbound queue.
    Answer(Seq<u8>),
    /// The front end pops the oldest response from the outbound queue.
    Collect,
    /// The front end finds a queue disconnected.
    FrontBreaks,
    /// The TA finds a queue disconnected.
    BackBreaks,
}

impl Link {
    /// A new channel: nothing has passed, nothing is on its way.
    pub open spec fn fresh() -> Link {
        Link {
            front: Ledger::fresh(),
            inbound: Seq::empty(),
            back: Ledger::fresh(),
            outbound: Seq::empty(),
        }
    }

    /// Whether `step` can happen now: each end takes its steps in turn, and
    /// nothing is popped from an empty queue.
    pub open spec fn enabled(self, step: Step) -> bool {
        match step {
            Step::Submit(_) => self.front.phase is Idle,
            Step::Take => self.back.phase is Idle && self.inbound.len() > 0,
            Step::Answer(_) => self.back.phase is InFlight,
            Step::Collect => self.front.phase is InFlight && self.outbound.len() > 0,
            Step::FrontBreaks => true,
            Step::BackBreaks => true,
        }
    }

    /// The channel after `step`.
    pub open spec fn after(self, step: Step) -> Link {
        match step {
            Step::Submit(req) => Link {
                front: self.front.with_request(req),
                inbound: self.inbound.push(req),
                ..self
            },
            Step::Take => Link {
                back: self.back.with_request(self.inbound.first()),
                inbound: self.inbound.drop_first(),
                ..self
            },
            Step::Answer(rsp) => Link {
                back: self.back.with_response(rsp),
                outbound: self.outbound.push(rsp),
                ..self
            },
            Step::Collect => Link {
                front: self.front.with_response(self.outbound.first()),
                outbound: self.outbound.drop_first(),
                ..self
            },
            Step::FrontBreaks => Link { front: self.front.broken(), ..self },
            Step::BackBreaks => Link { back: self.back.broken(), ..self },
        }
    }

    /// The channel after the steps `steps`, as far as each can happen when
    /// its turn comes; a step that cannot happen changes nothing.
    pub open spec fn after_all(self, steps: Seq<Step>) -> Link
        decreases steps.len(),
    {
        if steps.len() == 0 {
            self
        } else {
            let before = self.after_all(steps.drop_last());
            if before.enabled(steps.last()) {
                before.after(steps.last())
            } else {
                before
            }
        }
    }

    /// What holds of the channel at every instant: both ledgers are well
    /// formed, and the queues hold exactly what one end has recorded and
    /// the other has not yet.
    pub open spec fn inv(self) -> bool {
        &&& self.front.wf()
        &&& self.back.wf()
        &&& self.front.requests == self.back.requests + self.inbound
        &&& self.back.responses == self.front.responses + self.outbound
    }
}

/// A new channel is as it should be.
pub proof fn lemma_fresh_link()
    ensures
        Link::fresh().inv(),
{
}

/// No step breaks what holds of the channel.
pub proof fn lemma_step_keeps_inv(l: Link, step: Step)
    requires
        l.inv(),
        l.enabled(step),
    ensures
        l.after(step).inv(),
{
    let next = l.after(step);
    if step is Take {
        assert(next.front.requests == next.back.requests + next.inbound);
    }
    if step is Collect {
        assert(next.back.responses == next.front.responses + next.outbound);
    }
}

/// Whatever the two ends do, and in whatever order, the channel stays as
/// it should be.
pub proof fn lemma_every_run_keeps_inv(steps: Seq<Step>)
    ensures
        Link::fresh().after_all(steps).inv(),
    decreases steps.len(),
{
    if steps.len() == 0 {
        lemma_fresh_link();
    } else {
        lemma_every_run_keeps_inv(steps.drop_last());
        let before = Link::fresh().after_all(steps.drop_last());
        if before.enabled(steps.last()) {
            lemma_step_keeps_inv(before, steps.last());
        }
    }
}

/// The rendezvous: at every instant at most one message is anywhere on the
/// channel. The request that the front end waits on is in the inbound
/// queue, or with the TA, or answered and in the outbound queue, and there
/// is no other. In particular the TA never works on two requests at once.
pub proof fn lemma_one_message_at_a_time(l: Link)
    requires
        l.inv(),
    ensures
        l.inbound.len() + l.back.in_flight() + l.outbound.len() == l.front.in_flight(),
        0 <= l.front.in_flight() <= 1,
        0 <= l.back.in_flight() <= 1,
        linked(l.front, l.back),
{
}

/// When the front end is idle the channel is at rest: both queues are
/// empty, the TA is idle or broken, and the two ends have recorded the same
/// exchanges. After `n` calls that returned a response there are exactly
/// `n` responses, one for each request.
pub proof fn lemma_at_rest(l: Link)
    requires
        l.inv(),
        l.front.phase is Idle,
    ensures
        l.inbound.len() == 0,
        l.outbound.len() == 0,
        l.back.in_flight() == 0,
        l.back.requests == l.front.requests,
        l.back.responses == l.front.responses,
        l.front.requests.len() == l.front.completed(),
{
    lemma_one_message_at_a_time(l);
}

/// One exchange, step by step, on a channel at rest: the front end submits
/// `req`, the TA takes what is on the inbound queue, answers `rsp`, and the
/// front end collects what is on the outbound queue. The TA has then taken
/// exactly `req`, the front end has collected exactly `rsp`, both ends have
/// recorded this one exchange and no other, and the channel is at rest
/// again.
pub proof fn lemma_one_exchange(l: Link, req: Seq<u8>, rsp: Seq<u8>)
    requires
        l.inv(),
        l.front.phase is Idle,
        l.back.phase is Idle,
    ensures
        ({
            let submitted = l.after(Step::Submit(req));
            let taken = submitted.after(Step::Take);
            let answered = taken.after(Step::Answer(rsp));
            let collected = answered.after(Step::Collect);
            &&& l.enabled(Step::Submit(req))
            &&& submitted.enabled(Step::Take)
            &&& taken.enabled(Step::Answer(rsp))
            &&& answered.enabled(Step::Collect)
            &&& taken.back == l.back.with_request(req)
            &&& collected.front == l.front.with_exchange(req, rsp)
            &&& collected.back == l.back.with_exchange(req, rsp)
            &&& collected.inv()
            &&& collected.inbound.len() == 0
            &&& collected.outbound.len() == 0
        }),
{
    lemma_at_rest(l);
    let submitted = l.after(Step::Submit(req));
    lemma_step_keeps_inv(l, Step::Submit(req));
    let taken = submitted.after(Step::Take);
    lemma_step_keeps_inv(submitted, Step::Take);
    let answered = taken.after(Step::Answer(rsp));
    lemma_step_keeps_inv(taken, Step::Answer(rsp));
    let collected = answered.after(Step::Collect);
    lemma_step_keeps_inv(answered, Step::Collect);
    lemma_at_rest(collected);
}

} // verus!
