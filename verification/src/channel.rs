//! The serialized channel: the bridge that a multi-threaded front end calls
//! into, the end of it that the TA thread serves, and the two queues between
//! them.
//!
//! The front end holds the bridge under a lock and calls `execute`. The TA
//! thread owns the TA and calls `serve_one` in a loop for as long as the
//! process lives. One request crosses at a time: `execute` does not return
//! before the response to its request has come back.

use crate::protocol::{Ledger, Phase};
use crate::startup::RecordsDir;
use std::sync::mpsc::{Receiver, RecvError, SendError, Sender};
use vstd::prelude::*;
use vstd::slice::slice_to_vec;

verus! {

/// The largest request that a bridge accepts unless it was made with a
/// limit of its own.
pub const MAX_SIZE: usize = usize::MAX;

/// Why an exchange with the TA did not take place.
#[derive(Clone, Copy, Debug, PartialEq, Eq, Structural)]
pub enum Fault {
    /// The request is larger than the bridge accepts. Nothing was sent, and
    /// the bridge is as it was.
    TooLarge,
    /// The end is not in the phase that the call starts from: it is broken,
    /// or the call is out of turn. Nothing was sent or taken, and the end
    /// is as it was.
    NotReady,
    /// The queue to the other end is disconnected: the thread there is gone.
    SendFailed,
    /// The queue from the other end is disconnected: the thread there is
    /// gone.
    ReceiveFailed,
}

/// The sending half of a queue of std.
#[verifier::external_type_specification]
#[verifier::external_body]
#[verifier::reject_recursive_types(T)]
pub struct ExSender<T>(Sender<T>);

/// The receiving half of a queue of std.
#[verifier::external_type_specification]
#[verifier::external_body]
#[verifier::reject_recursive_types(T)]
pub struct ExReceiver<T>(Receiver<T>);

/// What `Sender::send` of std fails with: the receiving half is gone.
#[verifier::external_type_specification]
#[verifier::external_body]
#[verifier::reject_recursive_types(T)]
pub struct ExSendError<T>(SendError<T>);

/// What `Receiver::recv` of std fails with: the sending half is gone and
/// the queue is empty.
#[verifier::external_type_specification]
#[verifier::external_body]
pub struct ExRecvError(RecvError);

/// `std::sync::mpsc::channel`: a new queue without a bound, as its two
/// halves. Nothing is claimed of them.
pub assume_specification<T>[ std::sync::mpsc::channel::<T> ]() -> (halves: (Sender<T>, Receiver<T>));

/// `Sender::send` of std: hands `t` to the queue without waiting. Whether
/// the queue takes it depends on the other half, so nothing is claimed of
/// the result.
pub assume_specification<T>[ Sender::<T>::send ](tx: &Sender<T>, t: T) -> (r: Result<(), SendError<T>>);

/// `Receiver::recv` of std: waits for the next message of the queue. Which
/// one comes, and whether any does, depends on the other half, so nothing
/// is claimed of the result.
pub assume_specification<T>[ Receiver::<T>::recv ](rx: &Receiver<T>) -> (r: Result<T, RecvError>);

/// What handing a message to a queue amounts to, given what the queue said.
pub fn send_result(outcome: Result<(), SendError<Vec<u8>>>) -> (r: Result<(), Fault>)
    ensures
        outcome is Ok ==> r == Ok::<(), Fault>(()),
        outcome is Err ==> r == Err::<(), Fault>(Fault::SendFailed),
{
    match outcome {
        Ok(()) => Ok(()),
        Err(_) => Err(Fault::SendFailed),
    }
}

/// What waiting on a queue amounts to, given what came out of it. A message
/// is handed on untouched.
pub fn receive_result(outcome: Result<Vec<u8>, RecvError>) -> (r: Result<Vec<u8>, Fault>)
    ensures
        outcome matches Ok(bytes) ==> r == Ok::<Vec<u8>, Fault>(bytes),
        outcome is Err ==> r == Err::<Vec<u8>, Fault>(Fault::ReceiveFailed),
{
    match outcome {
        Ok(bytes) => Ok(bytes),
        Err(_) => Err(Fault::ReceiveFailed),
    }
}

/// What `submit` does to a ledger: it rejects a request over the limit, and
/// any request while the end is not idle, and leaves the ledger alone then;
/// otherwise it records the request if the queue took it, and is broken if
/// the queue is disconnected.
pub open spec fn submit_spec(
    pre: Ledger,
    max_size: usize,
    req: Seq<u8>,
    r: Result<(), Fault>,
    post: Ledger,
) -> bool {
    if req.len() > max_size {
        r == Err::<(), Fault>(Fault::TooLarge) && post == pre
    } else if !(pre.phase is Idle) {
        r == Err::<(), Fault>(Fault::NotReady) && post == pre
    } else {
        match r {
            Ok(()) => post == pre.with_request(req),
            Err(fault) => fault == Fault::SendFailed && post == pre.broken(),
        }
    }
}

/// What `collect` does to a ledger: while no request is in flight it leaves
/// the ledger alone; otherwise it records the response that came, and is
/// broken if the queue is disconnected.
pub open spec fn collect_spec(pre: Ledger, r: Result<Vec<u8>, Fault>, post: Ledger) -> bool {
    if !(pre.phase is InFlight) {
        r == Err::<Vec<u8>, Fault>(Fault::NotReady) && post == pre
    } else {
        match r {
            Ok(rsp) => post == pre.with_response(rsp@),
            Err(fault) => fault == Fault::ReceiveFailed && post == pre.broken(),
        }
    }
}

/// What `execute` does to a ledger: `submit`, and then `collect` where the
/// request went out.
pub open spec fn execute_spec(
    pre: Ledger,
    max_size: usize,
    req: Seq<u8>,
    r: Result<Vec<u8>, Fault>,
    post: Ledger,
) -> bool {
    if req.len() > max_size {
        r == Err::<Vec<u8>, Fault>(Fault::TooLarge) && post == pre
    } else if !(pre.phase is Idle) {
        r == Err::<Vec<u8>, Fault>(Fault::NotReady) && post == pre
    } else {
        match r {
            Ok(rsp) => post == pre.with_exchange(req, rsp@),
            Err(Fault::SendFailed) => post == pre.broken(),
            Err(Fault::ReceiveFailed) => post == pre.with_request(req).broken(),
            Err(_) => false,
        }
    }
}

/// What `take` does to a ledger: while the end is not idle it leaves the
/// ledger alone; otherwise it records the request that came, and is broken
/// if the queue is disconnected.
pub open spec fn take_spec(pre: Ledger, r: Result<Vec<u8>, Fault>, post: Ledger) -> bool {
    if !(pre.phase is Idle) {
        r == Err::<Vec<u8>, Fault>(Fault::NotReady) && post == pre
    } else {
        match r {
            Ok(req) => post == pre.with_request(req@),
            Err(fault) => fault == Fault::ReceiveFailed && post == pre.broken(),
        }
    }
}

/// What `answer` does to a ledger: while no request is in flight it leaves
/// the ledger alone; otherwise it records the response if the queue took
/// it, and is broken if the queue is disconnected.
pub open spec fn answer_spec(pre: Ledger, rsp: Seq<u8>, r: Result<(), Fault>, post: Ledger) -> bool {
    if !(pre.phase is InFlight) {
        r == Err::<(), Fault>(Fault::NotReady) && post == pre
    } else {
        match r {
            Ok(()) => post == pre.with_response(rsp),
            Err(fault) => fault == Fault::SendFailed && post == pre.broken(),
        }
    }
}

/// What `serve_one` does to a ledger: while the end is not idle it leaves
/// the ledger alone; otherwise it records one request and the response that
/// `process` gave to it, and is broken if a queue is disconnected, before a
/// request came or after it was processed.
pub open spec fn serve_spec<F: FnOnce(Vec<u8>) -> Vec<u8>>(
    pre: Ledger,
    process: F,
    r: Result<(), Fault>,
    post: Ledger,
) -> bool {
    if !(pre.phase is Idle) {
        r == Err::<(), Fault>(Fault::NotReady) && post == pre
    } else {
        match r {
            Ok(()) => exists|req: Vec<u8>, rsp: Vec<u8>| #[trigger]
                call_ensures(process, (req,), rsp) && post == pre.with_exchange(req@, rsp@),
            Err(Fault::ReceiveFailed) => post == pre.broken(),
            Err(Fault::SendFailed) => exists|req: Vec<u8>, rsp: Vec<u8>| #[trigger]
                call_ensures(process, (req,), rsp) && post == pre.with_request(req@).broken(),
            Err(_) => false,
        }
    }
}

/// The place of one end in the rendezvous, together with the ledger of what
/// has passed through that end. The two always fit together.
struct Record {
    phase: Phase,
    requests: Ghost<Seq<Seq<u8>>>,
    responses: Ghost<Seq<Seq<u8>>>,
}

impl Record {
    /// Holds of every record there is.
    #[verifier::type_invariant]
    spec fn well_formed(&self) -> bool {
        self.ledger().wf()
    }

    /// The ledger, with the phase that goes with it.
    spec fn ledger(&self) -> Ledger {
        Ledger { phase: self.phase, requests: self.requests@, responses: self.responses@ }
    }

    /// The record of an end through which nothing has passed yet.
    fn fresh() -> (r: Record)
        ensures
            r.ledger() == Ledger::fresh(),
    {
        Record { phase: Phase::Idle, requests: Ghost(Seq::empty()), responses: Ghost(Seq::empty()) }
    }

    /// The record once `req` has passed.
    fn with_request(&self, Ghost(req): Ghost<Seq<u8>>) -> (r: Record)
        requires
            self.ledger().phase is Idle,
        ensures
            r.ledger() == self.ledger().with_request(req),
    {
        proof {
            use_type_invariant(self);
        }
        Record {
            phase: Phase::InFlight,
            requests: Ghost(self.requests@.push(req)),
            responses: self.responses,
        }
    }

    /// The record once `rsp` has passed.
    fn with_response(&self, Ghost(rsp): Ghost<Seq<u8>>) -> (r: Record)
        requires
            self.ledger().phase is InFlight,
        ensures
            r.ledger() == self.ledger().with_response(rsp),
    {
        proof {
            use_type_invariant(self);
        }
        Record {
            phase: Phase::Idle,
            requests: self.requests,
            responses: Ghost(self.responses@.push(rsp)),
        }
    }

    /// The record once a queue was found disconnected.
    fn broken(&self) -> (r: Record)
        ensures
            r.ledger() == self.ledger().broken(),
    {
        proof {
            use_type_invariant(self);
        }
        Record { phase: Phase::Broken, requests: self.requests, responses: self.responses }
    }

    /// The phase, and with it the fact that the ledger is well formed.
    fn phase(&self) -> (p: Phase)
        ensures
            p == self.ledger().phase,
            self.ledger().wf(),
    {
        proof {
            use_type_invariant(self);
        }
        self.phase
    }
}

/// The front end's side of a channel to a TA that runs in this process.
///
/// Its view is the ledger of the requests it has submitted and the
/// responses it has collected. The ledger is well formed at all times.
pub struct LocalTa {
    in_tx: Sender<Vec<u8>>,
    out_rx: Receiver<Vec<u8>>,
    max_size: usize,
    record: Record,
}

/// The TA thread's side of a channel.
///
/// Its view is the ledger of the requests it has taken and the responses it
/// has given. The ledger is well formed at all times.
pub struct TaSide {
    in_rx: Receiver<Vec<u8>>,
    out_tx: Sender<Vec<u8>>,
    records: Option<RecordsDir>,
    record: Record,
}

impl View for LocalTa {
    type V = Ledger;

    closed spec fn view(&self) -> Ledger {
        self.record.ledger()
    }
}

impl View for TaSide {
    type V = Ledger;

    closed spec fn view(&self) -> Ledger {
        self.record.ledger()
    }
}

impl LocalTa {
    /// The largest request that the bridge accepts.
    pub closed spec fn spec_max_size(&self) -> usize {
        self.max_size
    }

    /// A new channel that accepts requests of any size, as its two sides.
    /// The TA side goes to the thread that runs the TA.
    pub fn new() -> (sides: (LocalTa, TaSide))
        ensures
            sides.0@ == Ledger::fresh(),
            sides.0.spec_max_size() == MAX_SIZE,
            sides.1@ == Ledger::fresh(),
            sides.1.spec_records() is None,
    {
        LocalTa::with_max_size(MAX_SIZE)
    }

    /// A new channel that accepts requests of up to `max_size` bytes.
    pub fn with_max_size(max_size: usize) -> (sides: (LocalTa, TaSide))
        ensures
            sides.0@ == Ledger::fresh(),
            sides.0.spec_max_size() == max_size,
            sides.1@ == Ledger::fresh(),
            sides.1.spec_records() is None,
    {
        let (in_tx, in_rx) = std::sync::mpsc::channel();
        let (out_tx, out_rx) = std::sync::mpsc::channel();
        let front = LocalTa { in_tx, out_rx, max_size, record: Record::fresh() };
        let back = TaSide { in_rx, out_tx, records: None, record: Record::fresh() };
        (front, back)
    }

    /// The largest request that the bridge accepts.
    pub fn max_size(&self) -> (n: usize)
        ensures
            n == self.spec_max_size(),
    {
        self.max_size
    }

    /// Where the bridge stands: whether it can take a request, waits for a
    /// response, or is broken.
    pub fn phase(&self) -> (p: Phase)
        ensures
            p == self@.phase,
            self@.wf(),
    {
        self.record.phase()
    }

    /// The first half of an exchange: pushes `req` onto the inbound queue,
    /// unless it is over the limit or the bridge is not idle.
    pub fn submit(&mut self, req: &[u8]) -> (r: Result<(), Fault>)
        ensures
            submit_spec(old(self)@, old(self).spec_max_size(), req@, r, final(self)@),
            final(self)@.wf(),
            final(self).spec_max_size() == old(self).spec_max_size(),
    {
        proof {
            use_type_invariant(&self.record);
        }
        if req.len() > self.max_size {
            return Err(Fault::TooLarge);
        }
        if self.record.phase() != Phase::Idle {
            return Err(Fault::NotReady);
        }
        let r = send_result(self.in_tx.send(slice_to_vec(req)));
        match r {
            Ok(()) => {
                self.record = self.record.with_request(Ghost(req@));
            },
            Err(_) => {
                self.record = self.record.broken();
            },
        }
        r
    }

    /// The second half of an exchange: waits until the response is on the
    /// outbound queue, and takes it. Without a request in flight there is
    /// nothing to wait for, and the call returns at once.
    pub fn collect(&mut self) -> (r: Result<Vec<u8>, Fault>)
        ensures
            collect_spec(old(self)@, r, final(self)@),
            final(self)@.wf(),
            final(self).spec_max_size() == old(self).spec_max_size(),
    {
        proof {
            use_type_invariant(&self.record);
        }
        if self.record.phase() != Phase::InFlight {
            return Err(Fault::NotReady);
        }
        let r = receive_result(self.out_rx.recv());
        match &r {
            Ok(rsp) => {
                self.record = self.record.with_response(Ghost(rsp@));
            },
            Err(_) => {
                self.record = self.record.broken();
            },
        }
        r
    }

    /// One exchange with the TA: hands it `req` and returns its response.
    ///
    /// The caller has the bridge to itself from the request to the
    /// response, so that the TA sees the requests of all callers one at a
    /// time, in the order in which the callers got hold of the bridge.
    ///
    /// A request over the limit is rejected before anything is sent. A
    /// disconnected queue means that the TA thread is gone: the bridge is
    /// then broken for good, every later call is turned away, and the
    /// service should end.
    pub fn execute(&mut self, req: &[u8]) -> (r: Result<Vec<u8>, Fault>)
        ensures
            execute_spec(old(self)@, old(self).spec_max_size(), req@, r, final(self)@),
            final(self)@.wf(),
            final(self)@.phase is InFlight ==> old(self)@.phase is InFlight,
            final(self).spec_max_size() == old(self).spec_max_size(),
    {
        match self.submit(req) {
            Ok(()) => self.collect(),
            Err(fault) => Err(fault),
        }
    }
}

impl TaSide {
    /// The directory of failure records that the TA behind this side is to
    /// use, if it keeps any.
    pub closed spec fn spec_records(&self) -> Option<RecordsDir> {
        self.records
    }

    /// The directory of failure records that the TA behind this side is to
    /// use, if it keeps any.
    pub fn records(&self) -> (dir: Option<&RecordsDir>)
        ensures
            dir is Some <==> self.spec_records() is Some,
            dir matches Some(d) ==> self.spec_records() == Some(*d),
    {
        self.records.as_ref()
    }

    /// Where this side stands: whether it can take a request, owes a
    /// response, or is broken.
    pub fn phase(&self) -> (p: Phase)
        ensures
            p == self@.phase,
            self@.wf(),
    {
        self.record.phase()
    }

    /// Waits for the next request on the inbound queue, and takes it. While
    /// the response to an earlier request is owed, or the side is broken,
    /// none is taken.
    pub fn take(&mut self) -> (r: Result<Vec<u8>, Fault>)
        ensures
            take_spec(old(self)@, r, final(self)@),
            final(self)@.wf(),
            final(self).spec_records() == old(self).spec_records(),
    {
        proof {
            use_type_invariant(&self.record);
        }
        if self.record.phase() != Phase::Idle {
            return Err(Fault::NotReady);
        }
        let r = receive_result(self.in_rx.recv());
        match &r {
            Ok(req) => {
                self.record = self.record.with_request(Ghost(req@));
            },
            Err(_) => {
                self.record = self.record.broken();
            },
        }
        r
    }

    /// Pushes `rsp`, the response to the request taken last, onto the
    /// outbound queue. Without such a request nothing is pushed.
    pub fn answer(&mut self, rsp: Vec<u8>) -> (r: Result<(), Fault>)
        ensures
            answer_spec(old(self)@, rsp@, r, final(self)@),
            final(self)@.wf(),
            final(self).spec_records() == old(self).spec_records(),
    {
        proof {
            use_type_invariant(&self.record);
        }
        if self.record.phase() != Phase::InFlight {
            return Err(Fault::NotReady);
        }
        let ghost sent = rsp@;
        let r = send_result(self.out_tx.send(rsp));
        match r {
            Ok(()) => {
                self.record = self.record.with_response(Ghost(sent));
            },
            Err(_) => {
                self.record = self.record.broken();
            },
        }
        r
    }

    /// One turn of the TA thread: takes the next request, has the TA
    /// process it, and gives the response. `process` is the one call into
    /// the TA. The thread does this over and over, and ends, for good, at
    /// the first fault.
    pub fn serve_one<F: FnOnce(Vec<u8>) -> Vec<u8>>(&mut self, process: F) -> (r: Result<(), Fault>)
        requires
            forall|req: Vec<u8>| call_requires(process, (req,)),
        ensures
            serve_spec(old(self)@, process, r, final(self)@),
            final(self)@.wf(),
            final(self)@.phase is InFlight ==> old(self)@.phase is InFlight,
            final(self).spec_records() == old(self).spec_records(),
    {
        match self.take() {
            Ok(req) => self.answer(process(req)),
            Err(fault) => Err(fault),
        }
    }
}

/// The front end's side of a channel to a Gatekeeper TA that runs in this
/// process and keeps its failure records in a directory, which makes it
/// insecure. It can only be made for a directory that the start-up check
/// has found to be there.
pub struct LocalInsecureTa {
    channel: LocalTa,
}

impl View for LocalInsecureTa {
    type V = Ledger;

    closed spec fn view(&self) -> Ledger {
        self.channel@
    }
}

impl LocalInsecureTa {
    /// The largest request that the bridge accepts.
    pub closed spec fn spec_max_size(&self) -> usize {
        self.channel.spec_max_size()
    }

    /// A new channel that accepts requests of any size, as its two sides.
    /// The TA side carries `dir` to the thread that builds and runs the TA.
    pub fn new(dir: RecordsDir) -> (sides: (LocalInsecureTa, TaSide))
        ensures
            sides.0@ == Ledger::fresh(),
            sides.0.spec_max_size() == MAX_SIZE,
            sides.1@ == Ledger::fresh(),
            sides.1.spec_records() == Some(dir),
    {
        LocalInsecureTa::with_max_size(dir, MAX_SIZE)
    }

    /// A new channel that accepts requests of up to `max_size` bytes.
    pub fn with_max_size(dir: RecordsDir, max_size: usize) -> (sides: (LocalInsecureTa, TaSide))
        ensures
            sides.0@ == Ledger::fresh(),
            sides.0.spec_max_size() == max_size,
            sides.1@ == Ledger::fresh(),
            sides.1.spec_records() == Some(dir),
    {
        let (channel, back) = LocalTa::with_max_size(max_size);
        let TaSide { in_rx, out_tx, records: _, record } = back;
        let back = TaSide { in_rx, out_tx, records: Some(dir), record };
        (LocalInsecureTa { channel }, back)
    }

    /// The largest request that the bridge accepts.
    pub fn max_size(&self) -> (n: usize)
        ensures
            n == self.spec_max_size(),
    {
        self.channel.max_size()
    }

    /// Where the bridge stands: whether it can take a request or is broken.
    pub fn phase(&self) -> (p: Phase)
        ensures
            p == self@.phase,
            self@.wf(),
    {
        self.channel.phase()
    }

    /// One exchange with the TA: hands it `req` and returns its response.
    /// See `LocalTa::execute`.
    pub fn execute(&mut self, req: &[u8]) -> (r: Result<Vec<u8>, Fault>)
        ensures
            execute_spec(old(self)@, old(self).spec_max_size(), req@, r, final(self)@),
            final(self)@.wf(),
            final(self)@.phase is InFlight ==> old(self)@.phase is InFlight,
            final(self).spec_max_size() == old(self).spec_max_size(),
    {
        self.channel.execute(req)
    }
}

} // verus!
