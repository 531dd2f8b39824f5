//! The session: what the worker does when the descriptor becomes readable,
//! when the head was loaded, and when it is told to stop.
//!
//! The worker owns the mapping and the reactor; this module owns the
//! decisions.  Each function takes what happened and answers with what to do
//! next, as a list of steps that the worker carries out in their order.  The
//! fences of the ring buffer protocol are steps of their own: the load of
//! the head is followed by an acquire fence, and the store of the tail is
//! preceded by a release fence.

use vstd::prelude::*;
use crate::config::SamplingConfig;
use crate::error::{DecodeError, Error};
use crate::sample::record::{Record, RecordView};
use crate::sample::ring_buffer::{advance, available, RingBuffer};
use crate::sample::stream::{drain_of, lemma_drain_tail, views, Drain};

verus! {

/// One step for the worker of a session.
#[derive(Clone, Copy, Debug, PartialEq, Eq)]
pub enum DriverOp {
    /// Load `data_head` from the metadata page, and hand it to
    /// [`Driver::on_head`] with the data region once the fence is through.
    LoadHead,
    /// Issue an acquire fence.
    AcquireFence,
    /// Issue a release fence.
    ReleaseFence,
    /// Store this value to `data_tail` in the metadata page.
    StoreTail(u64),
    /// Clear the readiness of the descriptor in the reactor, so that the
    /// next notification is taken.
    ClearReadiness,
}

/// Whether the descriptor has records to read, as the session sees it.
#[derive(Clone, Copy, Debug, PartialEq, Eq)]
pub enum Readiness {
    /// No notification is pending.
    NotReady,
    /// The reactor has notified the session; the head is being loaded.
    Ready,
    /// The session drains the ring buffer.
    Draining,
}

/// The message that stops a session.
#[derive(Clone, Copy, Debug, PartialEq, Eq)]
pub struct StopSampling;

/// The state of the worker of a session.
#[derive(Clone, Copy, Debug, PartialEq, Eq)]
pub struct Driver {
    /// The reader's side of the ring buffer.
    pub ring: RingBuffer,
    /// Whether a notification is being served.
    pub readiness: Readiness,
    /// Whether the session was told to stop.
    pub stopping: bool,
    /// Whether the session met bytes that are no record.
    pub aborted: bool,
}

/// What the worker hands on after a step of the session.
#[derive(Clone, Debug, PartialEq, Eq)]
pub struct Batch {
    /// The records to send on the records channel, in this order.
    pub records: Vec<Record>,
    /// The errors to send on the errors channel, in this order.
    pub errors: Vec<DecodeError>,
    /// What to do next, in this order.
    pub ops: Vec<DriverOp>,
    /// Whether the worker is to exit once the steps are carried out.
    pub done: bool,
}

/// A `Batch` as a mathematical value.
pub struct BatchView {
    pub records: Seq<RecordView>,
    pub errors: Seq<DecodeError>,
    pub ops: Seq<DriverOp>,
    pub done: bool,
}

impl View for Batch {
    type V = BatchView;

    open spec fn view(&self) -> BatchView {
        BatchView {
            records: views(self.records@),
            errors: self.errors@,
            ops: self.ops@,
            done: self.done,
        }
    }
}

/// The steps that load the head: the load, then the acquire fence.
pub open spec fn load_ops() -> Seq<DriverOp> {
    seq![DriverOp::LoadHead, DriverOp::AcquireFence]
}

/// The steps that publish a tail: the release fence, then the store.
pub open spec fn publish_ops(tail: u64) -> Seq<DriverOp> {
    seq![DriverOp::ReleaseFence, DriverOp::StoreTail(tail)]
}

/// Whether the fences are where the protocol wants them: every load of the
/// head is followed at once by an acquire fence, and every store of the tail
/// is preceded at once by a release fence.
pub open spec fn fenced(ops: Seq<DriverOp>) -> bool {
    forall|i: int|
        0 <= i < ops.len() ==> {
            &&& #[trigger] ops[i] is LoadHead ==> i + 1 < ops.len() && ops[i + 1]
                == DriverOp::AcquireFence
            &&& ops[i] is StoreTail ==> i > 0 && ops[i - 1] == DriverOp::ReleaseFence
        }
}

/// Whether a session in state `d` serves a notification when one comes.
pub open spec fn takes_notification(d: Driver) -> bool {
    d.readiness is NotReady && !d.aborted
}

/// The session after the reactor has notified it, and the steps to take.
pub open spec fn readable_of(d: Driver) -> (Driver, Seq<DriverOp>) {
    if takes_notification(d) {
        (Driver { readiness: Readiness::Ready, ..d }, load_ops())
    } else {
        (d, Seq::empty())
    }
}

/// The session after it was told to stop, and the steps to take: what the
/// kernel has written by now is still drained.
pub open spec fn stop_of(d: Driver) -> (Driver, Seq<DriverOp>) {
    if takes_notification(d) {
        (Driver { readiness: Readiness::Ready, stopping: true, ..d }, load_ops())
    } else {
        (Driver { stopping: true, ..d }, Seq::empty())
    }
}

/// The session after the head was loaded, and what it hands on.
///
/// A session that waits for no head hands on nothing.  Where the reader has
/// caught up with the head, the notification is served: its readiness is
/// cleared, and a session that was told to stop is done.  Else the ring
/// buffer is drained up to the head and the reader's position is published;
/// then the head is loaded again, for the kernel may have written more.
/// Bytes that are no record end the session.
pub open spec fn head_of(d: Driver, head: u64, data: Seq<u8>) -> (Driver, BatchView) {
    let drained = drain_of(d.ring.format, data, d.ring.start, head);
    let ring = RingBuffer { start: drained.end, published: drained.end, ..d.ring };
    if d.aborted || d.readiness is NotReady {
        (
            d,
            BatchView {
                records: Seq::empty(),
                errors: Seq::empty(),
                ops: Seq::empty(),
                done: d.stopping || d.aborted,
            },
        )
    } else if available(d.ring.start, head) == 0 {
        (
            Driver { readiness: Readiness::NotReady, ..d },
            BatchView {
                records: Seq::empty(),
                errors: Seq::empty(),
                ops: seq![DriverOp::ClearReadiness],
                done: d.stopping,
            },
        )
    } else if drained.corrupt {
        (
            Driver { ring, readiness: Readiness::NotReady, aborted: true, ..d },
            BatchView {
                records: drained.records,
                errors: drained.errors,
                ops: publish_ops(drained.end),
                done: true,
            },
        )
    } else {
        (
            Driver { ring, readiness: Readiness::Draining, ..d },
            BatchView {
                records: drained.records,
                errors: drained.errors,
                ops: publish_ops(drained.end) + load_ops(),
                done: false,
            },
        )
    }
}

fn ops_to_load(ops: &mut Vec<DriverOp>)
    ensures
        final(ops)@ == old(ops)@ + load_ops(),
{
    ops.push(DriverOp::LoadHead);
    ops.push(DriverOp::AcquireFence);
    assert(ops@ =~= old(ops)@ + load_ops());
}

fn ops_to_publish(ops: &mut Vec<DriverOp>, tail: u64)
    ensures
        final(ops)@ == old(ops)@ + publish_ops(tail),
{
    ops.push(DriverOp::ReleaseFence);
    ops.push(DriverOp::StoreTail(tail));
    assert(ops@ =~= old(ops)@ + publish_ops(tail));
}

impl Driver {
    /// A session that has read nothing and waits for its first notification.
    pub fn new(ring: RingBuffer) -> (d: Driver)
        ensures
            d == (Driver {
                ring,
                readiness: Readiness::NotReady,
                stopping: false,
                aborted: false,
            }),
    {
        Driver { ring, readiness: Readiness::NotReady, stopping: false, aborted: false }
    }

    fn takes_notification(&self) -> (b: bool)
        ensures
            b == takes_notification(*self),
    {
        let waiting = match self.readiness {
            Readiness::NotReady => true,
            _ => false,
        };
        waiting && !self.aborted
    }

    /// The reactor says that the descriptor is readable.
    pub fn on_readable(&mut self) -> (ops: Vec<DriverOp>)
        ensures
            (*final(self), ops@) == readable_of(*old(self)),
            fenced(ops@),
    {
        let mut ops: Vec<DriverOp> = Vec::new();
        if self.takes_notification() {
            self.readiness = Readiness::Ready;
            ops_to_load(&mut ops);
            assert(ops@ =~= load_ops());
        }
        ops
    }

    /// The caller has told the session to stop.
    pub fn on_stop(&mut self, _signal: StopSampling) -> (ops: Vec<DriverOp>)
        ensures
            (*final(self), ops@) == stop_of(*old(self)),
            fenced(ops@),
    {
        let mut ops: Vec<DriverOp> = Vec::new();
        if self.takes_notification() {
            self.readiness = Readiness::Ready;
            ops_to_load(&mut ops);
            assert(ops@ =~= load_ops());
        }
        self.stopping = true;
        ops
    }

    /// The head was loaded: `head` is `data_head` and `data` the data
    /// region of the mapping.
    pub fn on_head(&mut self, head: u64, data: &[u8]) -> (batch: Batch)
        requires
            data@.len() > 0,
        ensures
            (*final(self), batch@) == head_of(*old(self), head, data@),
            fenced(batch.ops@),
    {
        let mut ops: Vec<DriverOp> = Vec::new();
        let waiting = match self.readiness {
            Readiness::NotReady => true,
            _ => false,
        };
        if self.aborted || waiting {
            let batch = Batch {
                records: Vec::new(),
                errors: Vec::new(),
                ops,
                done: self.stopping || self.aborted,
            };
            assert(views(batch.records@) =~= Seq::empty());
            return batch;
        }
        if self.ring.is_empty(head) {
            self.readiness = Readiness::NotReady;
            ops.push(DriverOp::ClearReadiness);
            assert(ops@ =~= seq![DriverOp::ClearReadiness]);
            let batch = Batch {
                records: Vec::new(),
                errors: Vec::new(),
                ops,
                done: self.stopping,
            };
            assert(views(batch.records@) =~= Seq::empty());
            return batch;
        }
        let mut ring = self.ring;
        let Drain { records, errors, corrupt } = ring.drain(head, data);
        let tail = ring.publish();
        self.ring = ring;
        ops_to_publish(&mut ops, tail);
        assert(ops@ =~= publish_ops(tail));
        if corrupt {
            self.readiness = Readiness::NotReady;
            self.aborted = true;
            Batch { records, errors, ops, done: true }
        } else {
            self.readiness = Readiness::Draining;
            ops_to_load(&mut ops);
            Batch { records, errors, ops, done: false }
        }
    }
}

/// Whatever happens to a session, the steps that it hands on have their
/// fences where the protocol wants them.
pub proof fn lemma_steps_are_fenced(d: Driver, head: u64, data: Seq<u8>)
    ensures
        fenced(readable_of(d).1),
        fenced(stop_of(d).1),
        fenced(head_of(d, head, data).1.ops),
{
    let tail = drain_of(d.ring.format, data, d.ring.start, head).end;
    let both = publish_ops(tail) + load_ops();
    assert(both.len() == 4);
    assert(both[0] == DriverOp::ReleaseFence && both[1] == DriverOp::StoreTail(tail));
    assert(both[2] == DriverOp::LoadHead && both[3] == DriverOp::AcquireFence);
}

/// The tail that a session publishes is the tail that it published before,
/// moved on by the sizes of the records that it has read since, modulo two
/// to the 64th; and after every step the reader stands where the published
/// tail says.
pub proof fn lemma_published_tail(d: Driver, head: u64, data: Seq<u8>)
    requires
        d.ring.start == d.ring.published,
    ensures
        ({
            let (after, batch) = head_of(d, head, data);
            let read = drain_of(d.ring.format, data, d.ring.start, head).bytes;
            &&& after.ring.start == after.ring.published
            &&& readable_of(d).0.ring == d.ring
            &&& stop_of(d).0.ring == d.ring
            &&& forall|i: int|
                0 <= i < batch.ops.len() && #[trigger] batch.ops[i] is StoreTail ==> batch.ops[i]
                    == DriverOp::StoreTail(advance(d.ring.published, read))
                    && after.ring.published == advance(d.ring.published, read)
        }),
{
    lemma_drain_tail(d.ring.format, data, d.ring.start, head);
}

/// A session that is stopped before the kernel has written a record hands
/// on no record and no error, and is done.
pub proof fn lemma_stop_before_any_record(ring: RingBuffer, head: u64, data: Seq<u8>)
    requires
        available(ring.start, head) == 0,
    ensures
        ({
            let fresh = Driver {
                ring,
                readiness: Readiness::NotReady,
                stopping: false,
                aborted: false,
            };
            let stopped = stop_of(fresh).0;
            let (last, batch) = head_of(stopped, head, data);
            &&& stop_of(fresh).1 == load_ops()
            &&& batch.records.len() == 0
            &&& batch.errors.len() == 0
            &&& batch.done
            &&& last.ring == ring
            &&& !last.aborted
        }),
{
}

/// The one error that a session keeps for its end: a later error replaces
/// an earlier one.
#[derive(Clone, Debug, PartialEq, Eq)]
pub struct ErrorSlot {
    /// The last error that was offered.
    pub last: Option<Error>,
}

impl ErrorSlot {
    /// A slot that holds no error.
    pub fn new() -> (slot: ErrorSlot)
        ensures
            slot.last is None,
    {
        ErrorSlot { last: None }
    }

    /// Puts `error` in the slot, in place of what it held.
    pub fn offer(&mut self, error: Error)
        ensures
            final(self).last == Some(error),
    {
        self.last = Some(error);
    }

    /// Puts the last of `errors` in the slot, if there is one.
    pub fn offer_all(&mut self, errors: &Vec<DecodeError>)
        ensures
            final(self).last == (if errors@.len() == 0 {
                old(self).last
            } else {
                Some(Error::Decode { inner: errors@.last() })
            }),
    {
        if errors.len() > 0 {
            self.last = Some(Error::Decode { inner: errors[errors.len() - 1] });
        }
    }
}

/// What joining a session gives: the panic of a worker that panicked, else
/// the last error of the session, else the records that were not collected
/// yet.
pub open spec fn join_outcome(
    panic: Option<String>,
    error: Option<Error>,
    records: Vec<Record>,
) -> Result<Vec<Record>, Error> {
    match panic {
        Some(inner) => Err(Error::WorkerPanic { inner }),
        None => match error {
            Some(e) => Err(e),
            None => Ok(records),
        },
    }
}

/// Decides what joining a session gives.  `panic` is what a worker that
/// panicked left behind, in words; `error` is what the errors channel held;
/// `records` are the records that were left in the records channel.
pub fn join_with_remaining(
    panic: Option<String>,
    error: Option<Error>,
    records: Vec<Record>,
) -> (r: Result<Vec<Record>, Error>)
    ensures
        r == join_outcome(panic, error, records),
{
    match panic {
        Some(inner) => Err(Error::WorkerPanic { inner }),
        None => match error {
            Some(e) => Err(e),
            None => Ok(records),
        },
    }
}

/// Runs `f` while a session samples, and hands back what `f` returned with
/// the records of the session.
///
/// `start` brings the session up and `join` stops it and collects what it
/// has left; both are the caller's, for they hold the thread and the
/// channels.  The three run in this order and each once: `f` may count on
/// a session that has come up, and `join` on a session that has come up and
/// on what `f` made of it.  A session that does not come up is an error,
/// and `f` does not run.  A session that ends in an error is an error too,
/// beside what `f` returned.
pub fn sampled<R, H, S, F, J>(sample_config: SamplingConfig, start: S, f: F, join: J) -> (r: Result<
    (R, Vec<Record>),
    (Option<R>, Error),
>) where
    S: FnOnce(SamplingConfig) -> Result<H, Error>,
    F: FnOnce() -> R,
    J: FnOnce(H) -> Result<Vec<Record>, Error>,

    requires
        start.requires((sample_config,)),
        forall|handle: H| start.ensures((sample_config,), Ok(handle)) ==> f.requires(()),
        forall|handle: H, user: R|
            start.ensures((sample_config,), Ok(handle)) && f.ensures((), user) ==> join.requires(
                (handle,),
            ),
    ensures
        match r {
            Ok((user, records)) => exists|handle: H|
                start.ensures((sample_config,), Ok(handle)) && f.ensures((), user)
                    && join.ensures((handle,), Ok(records)),
            Err((None, e)) => start.ensures((sample_config,), Err(e)),
            Err((Some(user), e)) => exists|handle: H|
                start.ensures((sample_config,), Ok(handle)) && f.ensures((), user)
                    && join.ensures((handle,), Err(e)),
        },
{
    let handle = match start(sample_config) {
        Ok(handle) => handle,
        Err(why) => {
            return Err((None, why));
        },
    };
    let user = f();
    match join(handle) {
        Ok(records) => Ok((user, records)),
        Err(why) => Err((Some(user), why)),
    }
}

} // verus!
