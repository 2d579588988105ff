use std::collections::VecDeque;

use vstd::prelude::*;

use crate::error::LibError;
use crate::limits::{MAX_INPUT_OPERATIONS, MAX_OPERATIONS, safe_number};
use crate::names::{SyncStateKind, sync_state_code, sync_state_name, sync_state_name_spec, sync_state_code_spec};

verus! {

/// One operation waiting in a decoder's FIFO. `P` carries the PCM of a push,
/// `D` the promise that a barrier settles.
pub enum DecoderCommand<P, D> {
    /// Decode a chunk of PCM holding the given number of samples.
    Push(P, usize),
    /// Reset the codec.
    Reset,
    /// Declare that the given number of input samples was lost.
    Discontinuity(u64),
    /// Declare that the radio signal was lost.
    SignalLost,
    /// Settle the promise once every earlier command has been processed.
    Drain(D),
    /// Flush the codec, then settle the promise.
    Finish(D),
    /// Release the codec, then settle the promise.
    Dispose(D),
}

/// Samples of PCM that a command carries.
pub open spec fn command_samples<P, D>(command: DecoderCommand<P, D>) -> nat {
    match command {
        DecoderCommand::Push(_, n) => n as nat,
        _ => 0,
    }
}

/// The promise a barrier command settles, if the command is a barrier.
pub open spec fn barrier_of<P, D>(command: DecoderCommand<P, D>) -> Option<D> {
    match command {
        DecoderCommand::Drain(d) | DecoderCommand::Finish(d) | DecoderCommand::Dispose(d) => Some(d),
        _ => None,
    }
}

/// Samples of PCM carried by a sequence of commands.
pub open spec fn total_samples<P, D>(commands: Seq<DecoderCommand<P, D>>) -> nat
    decreases commands.len(),
{
    if commands.len() == 0 {
        0
    } else {
        command_samples(commands[0]) + total_samples(commands.drop_first())
    }
}

/// The promises of the barrier commands in a sequence, in queue order.
pub open spec fn barriers<P, D>(commands: Seq<DecoderCommand<P, D>>) -> Seq<D>
    decreases commands.len(),
{
    if commands.len() == 0 {
        Seq::empty()
    } else {
        match barrier_of(commands[0]) {
            Some(d) => seq![d] + barriers(commands.drop_first()),
            None => barriers(commands.drop_first()),
        }
    }
}

/// Appending a command adds its samples to the total.
pub proof fn lemma_total_samples_push<P, D>(commands: Seq<DecoderCommand<P, D>>, command: DecoderCommand<P, D>)
    ensures
        total_samples(commands.push(command)) == total_samples(commands) + command_samples(command),
    decreases commands.len(),
{
    if commands.len() == 0 {
        assert(commands.push(command).drop_first() =~= Seq::<DecoderCommand<P, D>>::empty());
        assert(total_samples(Seq::<DecoderCommand<P, D>>::empty()) == 0);
    } else {
        lemma_total_samples_push(commands.drop_first(), command);
        assert(commands.push(command).drop_first() =~= commands.drop_first().push(command));
    }
}

/// Result of offering an input command to the bounded queue.
pub struct Enqueued {
    /// The command entered the queue.
    pub accepted: bool,
    /// The queue was idle, so the caller must start a worker for it.
    pub start_worker: bool,
}

/// Result of offering a barrier command to the queue.
pub enum Barrier<D> {
    /// The barrier entered the queue.
    Queued { start_worker: bool },
    /// The queue was full; the caller settles the promise with `QueueFull`.
    Rejected(D),
}

/// Result of disposing a decoder.
pub struct Disposal<D> {
    /// Promises of the barriers that were waiting, in queue order; the caller
    /// settles each with `CancelledByDispose`.
    pub cancelled: Vec<D>,
    /// The queue was idle, so the caller must start a worker for it.
    pub start_worker: bool,
}

/// The queue and lifecycle of one decoder instance: a FIFO actor whose worker
/// is started only when the queue goes from idle to busy.
pub struct DecoderSession<P, D> {
    commands: VecDeque<DecoderCommand<P, D>>,
    running: bool,
    queued_samples: usize,
    in_flight_samples: usize,
    capacity: usize,
    accepting: bool,
    disposed: bool,
    failed: bool,
    sync_code: u64,
}

impl<P, D> DecoderSession<P, D> {
    /// Commands waiting for the worker, oldest first.
    pub closed spec fn pending(&self) -> Seq<DecoderCommand<P, D>> {
        self.commands@
    }

    /// A worker owns the queue.
    pub closed spec fn is_running(&self) -> bool {
        self.running
    }

    /// Samples counted against the input capacity.
    pub closed spec fn queued(&self) -> nat {
        self.queued_samples as nat
    }

    /// Samples of the push the worker is processing.
    pub closed spec fn in_flight(&self) -> nat {
        self.in_flight_samples as nat
    }

    /// Most samples the queue may hold.
    pub closed spec fn capacity(&self) -> nat {
        self.capacity as nat
    }

    /// Input operations are still accepted.
    pub closed spec fn is_accepting(&self) -> bool {
        self.accepting
    }

    /// `dispose` was called.
    pub closed spec fn is_disposed(&self) -> bool {
        self.disposed
    }

    /// A command or a callback failed.
    pub closed spec fn has_failed(&self) -> bool {
        self.failed
    }

    /// The last reported synchronization state, as its code.
    pub closed spec fn sync_code(&self) -> u64 {
        self.sync_code
    }

    /// The consistency every operation keeps: the sample count never exceeds
    /// the capacity and, until disposal, equals the samples of the pending
    /// pushes plus the one in progress; the queue never holds more than
    /// `MAX_OPERATIONS` commands; an idle queue is empty; a disposed decoder
    /// accepts nothing.
    pub closed spec fn wf(&self) -> bool {
        &&& 0 < self.capacity <= u32::MAX
        &&& self.queued_samples <= self.capacity
        &&& self.commands@.len() <= MAX_OPERATIONS
        &&& !self.running ==> self.commands@.len() == 0
        &&& self.disposed ==> !self.accepting
        &&& !self.disposed ==> self.queued_samples == total_samples(self.commands@) + self.in_flight_samples
        &&& self.disposed ==> self.queued_samples == 0 && total_samples(self.commands@) == 0
    }

    /// What `ensure_accepting` answers in this state.
    pub open spec fn admission(&self) -> Result<(), LibError> {
        if self.is_disposed() {
            Err(LibError::DecoderDisposed)
        } else if self.has_failed() {
            Err(LibError::DecoderFailed)
        } else if !self.is_accepting() {
            Err(LibError::DecoderFinished)
        } else {
            Ok(())
        }
    }

    /// Room for an input command carrying `n` samples.
    pub open spec fn has_input_room(&self, n: nat) -> bool {
        &&& self.pending().len() < MAX_INPUT_OPERATIONS
        &&& self.queued() + n <= self.capacity()
    }

    /// `next` differs from `self` in nothing but the queue, the running flag
    /// and the queued sample count.
    pub open spec fn same_lifecycle(&self, next: &Self) -> bool {
        &&& next.in_flight() == self.in_flight()
        &&& next.capacity() == self.capacity()
        &&& next.is_accepting() == self.is_accepting()
        &&& next.is_disposed() == self.is_disposed()
        &&& next.has_failed() == self.has_failed()
        &&& next.sync_code() == self.sync_code()
    }

    /// The effect of offering `command`, carrying `n` samples, to the input
    /// queue: it joins the back when there is room, and nothing changes
    /// otherwise.
    pub open spec fn offered(&self, next: &Self, command: DecoderCommand<P, D>, n: nat, r: Enqueued) -> bool {
        &&& self.same_lifecycle(next)
        &&& if self.has_input_room(n) {
            &&& r.accepted
            &&& r.start_worker == !self.is_running()
            &&& next.pending() == self.pending().push(command)
            &&& next.queued() == self.queued() + n
            &&& next.is_running()
        } else {
            &&& !r.accepted
            &&& !r.start_worker
            &&& next.pending() == self.pending()
            &&& next.queued() == self.queued()
            &&& next.is_running() == self.is_running()
        }
    }

    /// What one operation does to the worker: with `start` it hands the
    /// caller an idle queue, now busy, to start a worker for; with `stop` it
    /// lets the running worker go, leaving the queue idle; otherwise the queue
    /// stays busy or idle as it was.
    pub open spec fn worker_step(&self, next: &Self, start: bool, stop: bool) -> bool {
        &&& !(start && stop)
        &&& start ==> !self.is_running() && next.is_running()
        &&& stop ==> self.is_running() && !next.is_running()
        &&& !start && !stop ==> next.is_running() == self.is_running()
    }

    /// A fresh session holding at most `capacity` queued samples.
    pub fn new(capacity: u32) -> (s: Self)
        requires
            capacity > 0,
        ensures
            s.wf(),
            s.pending().len() == 0,
            !s.is_running(),
            s.queued() == 0,
            s.in_flight() == 0,
            s.capacity() == capacity,
            s.is_accepting(),
            !s.is_disposed(),
            !s.has_failed(),
            s.sync_code() == 0,
    {
        DecoderSession {
            commands: VecDeque::new(),
            running: false,
            queued_samples: 0,
            in_flight_samples: 0,
            capacity: capacity as usize,
            accepting: true,
            disposed: false,
            failed: false,
            sync_code: 0,
        }
    }

    /// Refuses input once the decoder was disposed, has failed or was finished,
    /// in that order of precedence.
    pub fn ensure_accepting(&self) -> (r: Result<(), LibError>)
        ensures
            r == self.admission(),
    {
        if self.disposed {
            return Err(LibError::DecoderDisposed);
        }
        if self.failed {
            return Err(LibError::DecoderFailed);
        }
        if !self.accepting {
            return Err(LibError::DecoderFinished);
        }
        Ok(())
    }

    /// Appends `command` and reports whether the queue was idle.
    fn push_command(&mut self, command: DecoderCommand<P, D>) -> (start_worker: bool)
        ensures
            final(self).commands@ == old(self).commands@.push(command),
            start_worker == !old(self).running,
            final(self).running,
            final(self).queued_samples == old(self).queued_samples,
            final(self).in_flight_samples == old(self).in_flight_samples,
            final(self).capacity == old(self).capacity,
            final(self).accepting == old(self).accepting,
            final(self).disposed == old(self).disposed,
            final(self).failed == old(self).failed,
            final(self).sync_code == old(self).sync_code,
    {
        self.commands.push_back(command);
        if self.running {
            false
        } else {
            self.running = true;
            true
        }
    }

    /// Offers an input command carrying `sample_count` samples to the bounded
    /// queue.
    fn enqueue_bounded(&mut self, command: DecoderCommand<P, D>, sample_count: usize) -> (r: Enqueued)
        requires
            old(self).wf(),
            !old(self).is_disposed(),
            command_samples(command) == sample_count,
        ensures
            final(self).wf(),
            old(self).offered(final(self), command, sample_count as nat, r),
    {
        if self.commands.len() >= MAX_INPUT_OPERATIONS
            || sample_count > self.capacity - self.queued_samples
        {
            return Enqueued { accepted: false, start_worker: false };
        }
        proof {
            lemma_total_samples_push(self.commands@, command);
        }
        self.queued_samples = self.queued_samples + sample_count;
        let start_worker = self.push_command(command);
        Enqueued { accepted: true, start_worker }
    }

    /// Queues a chunk of `len` PCM samples. `non_finite` tells whether the
    /// chunk holds NaN or infinity. A chunk larger than the whole queue is an
    /// error; a chunk that does not fit now is refused with
    /// `accepted == false` and leaves the queue as it was.
    pub fn push_f32(&mut self, samples: P, len: usize, non_finite: bool) -> (r: Result<Enqueued, LibError>)
        requires
            old(self).wf(),
        ensures
            final(self).wf(),
            old(self).admission() matches Err(e) ==> r == Err::<Enqueued, LibError>(e) && *final(self) == *old(self),
            old(self).admission() is Ok && len > old(self).capacity() ==> r == Err::<Enqueued, LibError>(
                LibError::ChunkTooLarge { len, capacity: old(self).capacity() as usize },
            ) && *final(self) == *old(self),
            old(self).admission() is Ok && len <= old(self).capacity() && non_finite ==> r
                == Err::<Enqueued, LibError>(LibError::NonFiniteSample) && *final(self) == *old(self),
            old(self).admission() is Ok && len <= old(self).capacity() && !non_finite ==> (r matches Ok(q)
                && old(self).offered(final(self), DecoderCommand::Push(samples, len), len as nat, q)),
            old(self).worker_step(final(self), r matches Ok(q) && q.start_worker, false),
    {
        match self.ensure_accepting() {
            Err(e) => return Err(e),
            Ok(()) => {},
        }
        if len > self.capacity {
            return Err(LibError::ChunkTooLarge { len, capacity: self.capacity });
        }
        if non_finite {
            return Err(LibError::NonFiniteSample);
        }
        Ok(self.enqueue_bounded(DecoderCommand::Push(samples, len), len))
    }

    /// Queues a codec reset.
    pub fn reset(&mut self) -> (r: Result<Enqueued, LibError>)
        requires
            old(self).wf(),
        ensures
            final(self).wf(),
            old(self).admission() matches Err(e) ==> r == Err::<Enqueued, LibError>(e) && *final(self) == *old(self),
            old(self).admission() is Ok ==> (r matches Ok(q) && old(self).offered(final(self), DecoderCommand::Reset, 0, q)),
            old(self).worker_step(final(self), r matches Ok(q) && q.start_worker, false),
    {
        match self.ensure_accepting() {
            Err(e) => return Err(e),
            Ok(()) => {},
        }
        Ok(self.enqueue_bounded(DecoderCommand::Reset, 0))
    }

    /// Queues a discontinuity of `dropped` lost samples; `None` stands for an
    /// argument that is not a non-negative safe integer.
    pub fn mark_discontinuity(&mut self, dropped: Option<u64>) -> (r: Result<Enqueued, LibError>)
        requires
            old(self).wf(),
        ensures
            final(self).wf(),
            old(self).admission() matches Err(e) ==> r == Err::<Enqueued, LibError>(e) && *final(self) == *old(self),
            old(self).admission() is Ok && dropped is None ==> r == Err::<Enqueued, LibError>(LibError::DroppedSamplesInvalid)
                && *final(self) == *old(self),
            old(self).admission() is Ok && dropped is Some ==> (r matches Ok(q)
                && old(self).offered(final(self), DecoderCommand::Discontinuity(dropped->0), 0, q)),
            old(self).worker_step(final(self), r matches Ok(q) && q.start_worker, false),
    {
        match self.ensure_accepting() {
            Err(e) => return Err(e),
            Ok(()) => {},
        }
        match dropped {
            None => Err(LibError::DroppedSamplesInvalid),
            Some(n) => Ok(self.enqueue_bounded(DecoderCommand::Discontinuity(n), 0)),
        }
    }

    /// Queues a loss-of-signal marker.
    pub fn mark_signal_lost(&mut self) -> (r: Result<Enqueued, LibError>)
        requires
            old(self).wf(),
        ensures
            final(self).wf(),
            old(self).admission() matches Err(e) ==> r == Err::<Enqueued, LibError>(e) && *final(self) == *old(self),
            old(self).admission() is Ok ==> (r matches Ok(q) && old(self).offered(final(self), DecoderCommand::SignalLost, 0, q)),
            old(self).worker_step(final(self), r matches Ok(q) && q.start_worker, false),
    {
        match self.ensure_accepting() {
            Err(e) => return Err(e),
            Ok(()) => {},
        }
        Ok(self.enqueue_bounded(DecoderCommand::SignalLost, 0))
    }

    /// The effect of offering the barrier `command` holding `d`: it joins the
    /// back unless `MAX_OPERATIONS` commands wait, and is handed back
    /// otherwise.
    pub open spec fn barrier_offered(&self, next: &Self, command: DecoderCommand<P, D>, d: D, r: Barrier<D>) -> bool {
        &&& self.same_lifecycle(next)
        &&& next.queued() == self.queued()
        &&& if self.pending().len() < MAX_OPERATIONS {
            &&& r == Barrier::<D>::Queued { start_worker: !self.is_running() }
            &&& next.pending() == self.pending().push(command)
            &&& next.is_running()
        } else {
            &&& r == Barrier::<D>::Rejected(d)
            &&& next.pending() == self.pending()
            &&& next.is_running() == self.is_running()
        }
    }

    /// Queues a barrier that settles `deferred` once every earlier command
    /// has been processed.
    pub fn drain(&mut self, deferred: D) -> (r: Barrier<D>)
        requires
            old(self).wf(),
        ensures
            final(self).wf(),
            old(self).barrier_offered(final(self), DecoderCommand::Drain(deferred), deferred, r),
            old(self).worker_step(final(self), (r == Barrier::<D>::Queued { start_worker: true }), false),
    {
        if self.commands.len() >= MAX_OPERATIONS {
            return Barrier::Rejected(deferred);
        }
        proof {
            lemma_total_samples_push(self.commands@, DecoderCommand::<P, D>::Drain(deferred));
        }
        let start_worker = self.push_command(DecoderCommand::Drain(deferred));
        Barrier::Queued { start_worker }
    }

    /// Stops accepting input and queues a flush that settles `deferred`.
    /// Refused, with nothing changed, when the decoder does not accept input.
    pub fn finish(&mut self, deferred: D) -> (r: Result<Barrier<D>, LibError>)
        requires
            old(self).wf(),
        ensures
            final(self).wf(),
            old(self).admission() matches Err(e) ==> r == Err::<Barrier<D>, LibError>(e) && *final(self) == *old(self),
            old(self).admission() is Ok ==> (r matches Ok(b) && {
                &&& !final(self).is_accepting()
                &&& final(self).in_flight() == old(self).in_flight()
                &&& final(self).capacity() == old(self).capacity()
                &&& final(self).is_disposed() == old(self).is_disposed()
                &&& final(self).has_failed() == old(self).has_failed()
                &&& final(self).sync_code() == old(self).sync_code()
                &&& final(self).queued() == old(self).queued()
                &&& if old(self).pending().len() < MAX_OPERATIONS {
                    &&& b == Barrier::<D>::Queued { start_worker: !old(self).is_running() }
                    &&& final(self).pending() == old(self).pending().push(DecoderCommand::Finish(deferred))
                    &&& final(self).is_running()
                } else {
                    &&& b == Barrier::<D>::Rejected(deferred)
                    &&& final(self).pending() == old(self).pending()
                    &&& final(self).is_running() == old(self).is_running()
                }
            }),
            old(self).worker_step(final(self), (r == Ok::<Barrier<D>, LibError>(Barrier::Queued { start_worker: true })), false),
    {
        match self.ensure_accepting() {
            Err(e) => return Err(e),
            Ok(()) => {},
        }
        self.accepting = false;
        if self.commands.len() >= MAX_OPERATIONS {
            return Ok(Barrier::Rejected(deferred));
        }
        proof {
            lemma_total_samples_push(self.commands@, DecoderCommand::<P, D>::Finish(deferred));
        }
        let start_worker = self.push_command(DecoderCommand::Finish(deferred));
        Ok(Barrier::Queued { start_worker })
    }

    /// Stops the decoder for good: every waiting command is dropped, the
    /// promises of waiting barriers are handed back in queue order, the
    /// sample count returns to zero, and a release that settles `deferred`
    /// becomes the only queued command.
    pub fn dispose(&mut self, deferred: D) -> (r: Disposal<D>)
        requires
            old(self).wf(),
        ensures
            final(self).wf(),
            r.cancelled@ == barriers(old(self).pending()),
            r.start_worker == !old(self).is_running(),
            final(self).pending() == seq![DecoderCommand::<P, D>::Dispose(deferred)],
            final(self).is_running(),
            final(self).queued() == 0,
            !final(self).is_accepting(),
            final(self).is_disposed(),
            final(self).in_flight() == old(self).in_flight(),
            final(self).capacity() == old(self).capacity(),
            final(self).has_failed() == old(self).has_failed(),
            final(self).sync_code() == old(self).sync_code(),
            old(self).worker_step(final(self), r.start_worker, false),
    {
        self.accepting = false;
        self.disposed = true;
        let ghost original = self.commands@;
        let mut cancelled: Vec<D> = Vec::new();
        while self.commands.len() > 0
            invariant
                barriers(original) == cancelled@ + barriers(self.commands@),
                self.disposed,
                !self.accepting,
                self.running == old(self).running,
                self.queued_samples == old(self).queued_samples,
                self.in_flight_samples == old(self).in_flight_samples,
                self.capacity == old(self).capacity,
                self.failed == old(self).failed,
                self.sync_code == old(self).sync_code,
                0 < self.capacity <= u32::MAX,
            decreases self.commands@.len(),
        {
            let ghost before = self.commands@;
            let command = self.commands.pop_front();
            match command {
                Some(c) => {
                    proof {
                        assert(before.drop_first() =~= self.commands@);
                    }
                    match command_deferred(c) {
                        Some(d) => {
                            cancelled.push(d);
                            assert(barriers(original) == cancelled@ + barriers(self.commands@)) by {
                                assert(barriers(before) == seq![d] + barriers(before.drop_first()));
                            }
                        },
                        None => {},
                    }
                },
                None => {},
            }
        }
        assert(self.commands@ =~= Seq::<DecoderCommand<P, D>>::empty());
        assert(cancelled@ + Seq::<D>::empty() =~= cancelled@);
        self.queued_samples = 0;
        let start_worker = self.push_command(DecoderCommand::Dispose(deferred));
        proof {
            assert(self.commands@ =~= seq![DecoderCommand::<P, D>::Dispose(deferred)]);
            assert(self.commands@.drop_first() =~= Seq::<DecoderCommand<P, D>>::empty());
            assert(total_samples(self.commands@.drop_first()) == 0);
        }
        Disposal { cancelled, start_worker }
    }

    /// The worker's next step: the oldest command, or `None` (and the queue
    /// becomes idle) when nothing waits. The samples of a taken push remain
    /// counted until `complete_command`.
    pub fn next_command(&mut self) -> (r: Option<DecoderCommand<P, D>>)
        requires
            old(self).wf(),
            old(self).in_flight() == 0,
        ensures
            final(self).wf(),
            final(self).queued() == old(self).queued(),
            final(self).capacity() == old(self).capacity(),
            final(self).is_accepting() == old(self).is_accepting(),
            final(self).is_disposed() == old(self).is_disposed(),
            final(self).has_failed() == old(self).has_failed(),
            final(self).sync_code() == old(self).sync_code(),
            old(self).pending().len() == 0 ==> r is None && !final(self).is_running() && final(self).pending()
                == old(self).pending() && final(self).in_flight() == 0,
            old(self).pending().len() > 0 ==> r == Some(old(self).pending()[0]) && final(self).pending()
                == old(self).pending().drop_first() && final(self).is_running() == old(self).is_running()
                && final(self).in_flight() == command_samples(old(self).pending()[0]),
            old(self).worker_step(final(self), false, r is None && old(self).is_running()),
    {
        let ghost before = self.commands@;
        match self.commands.pop_front() {
            None => {
                self.running = false;
                None
            },
            Some(command) => {
                assert(before.drop_first() =~= self.commands@);
                let n = match &command {
                    DecoderCommand::Push(_, n) => *n,
                    _ => 0,
                };
                self.in_flight_samples = n;
                Some(command)
            },
        }
    }

    /// Ends the command taken by `next_command`: its samples stop counting
    /// against the capacity, and `succeeded == false` marks the session as
    /// failed.
    pub fn complete_command(&mut self, succeeded: bool)
        requires
            old(self).wf(),
        ensures
            final(self).wf(),
            final(self).pending() == old(self).pending(),
            final(self).is_running() == old(self).is_running(),
            final(self).in_flight() == 0,
            final(self).queued() == if old(self).queued() >= old(self).in_flight() {
                (old(self).queued() - old(self).in_flight()) as nat
            } else {
                0
            },
            final(self).capacity() == old(self).capacity(),
            final(self).is_accepting() == old(self).is_accepting(),
            final(self).is_disposed() == old(self).is_disposed(),
            final(self).has_failed() == (old(self).has_failed() || !succeeded),
            final(self).sync_code() == old(self).sync_code(),
            old(self).worker_step(final(self), false, false),
    {
        if self.in_flight_samples > 0 {
            self.queued_samples = self.queued_samples.saturating_sub(self.in_flight_samples);
        }
        self.in_flight_samples = 0;
        if !succeeded {
            self.failed = true;
        }
    }

    /// Marks the session as failed (a callback could not be delivered).
    pub fn mark_failed(&mut self)
        requires
            old(self).wf(),
        ensures
            final(self).wf(),
            final(self).has_failed(),
            final(self).pending() == old(self).pending(),
            final(self).is_running() == old(self).is_running(),
            final(self).queued() == old(self).queued(),
            final(self).in_flight() == old(self).in_flight(),
            final(self).capacity() == old(self).capacity(),
            final(self).is_accepting() == old(self).is_accepting(),
            final(self).is_disposed() == old(self).is_disposed(),
            final(self).sync_code() == old(self).sync_code(),
            old(self).worker_step(final(self), false, false),
    {
        self.failed = true;
    }

    /// Ends a `finish` once the codec's flush has returned. A flush that
    /// succeeded (`flushed`) records the finished synchronization state, and
    /// the caller settles the promise after a `finished` notification; a
    /// failed flush changes nothing (the session does not fail), and the
    /// caller rejects the promise. Returns whether to settle.
    pub fn end_finish(&mut self, flushed: bool) -> (settle: bool)
        requires
            old(self).wf(),
        ensures
            final(self).wf(),
            settle == flushed,
            flushed ==> final(self).sync_code() == sync_state_code_spec(SyncStateKind::Finished),
            !flushed ==> final(self).sync_code() == old(self).sync_code(),
            final(self).has_failed() == old(self).has_failed(),
            final(self).pending() == old(self).pending(),
            final(self).is_running() == old(self).is_running(),
            final(self).queued() == old(self).queued(),
            final(self).in_flight() == old(self).in_flight(),
            final(self).capacity() == old(self).capacity(),
            final(self).is_accepting() == old(self).is_accepting(),
            final(self).is_disposed() == old(self).is_disposed(),
            old(self).worker_step(final(self), false, false),
    {
        if flushed {
            self.set_sync_state(SyncStateKind::Finished);
        }
        flushed
    }

    /// Records the codec's synchronization state.
    pub fn set_sync_state(&mut self, state: SyncStateKind)
        requires
            old(self).wf(),
        ensures
            final(self).wf(),
            final(self).sync_code() == sync_state_code_spec(state),
            final(self).pending() == old(self).pending(),
            final(self).is_running() == old(self).is_running(),
            final(self).queued() == old(self).queued(),
            final(self).in_flight() == old(self).in_flight(),
            final(self).capacity() == old(self).capacity(),
            final(self).is_accepting() == old(self).is_accepting(),
            final(self).is_disposed() == old(self).is_disposed(),
            final(self).has_failed() == old(self).has_failed(),
            old(self).worker_step(final(self), false, false),
    {
        self.sync_code = sync_state_code(state);
    }

    /// The name of the last recorded synchronization state.
    pub fn sync_state(&self) -> (r: &'static str)
        ensures
            r@ == sync_state_name_spec(self.sync_code()),
    {
        sync_state_name(self.sync_code)
    }

    /// Samples counted against the capacity; always a safe integer.
    pub fn queued_samples(&self) -> (r: Result<u64, LibError>)
        requires
            self.wf(),
        ensures
            r == Ok::<u64, LibError>(self.queued() as u64),
    {
        safe_number(self.queued_samples as u64, "queuedSamples")
    }

    /// Whether input operations are still accepted.
    pub fn is_accepting_input(&self) -> (r: bool)
        ensures
            r == self.is_accepting(),
    {
        self.accepting
    }
}

/// The promise a command settles, for the barrier commands.
pub fn command_deferred<P, D>(command: DecoderCommand<P, D>) -> (r: Option<D>)
    ensures
        r == barrier_of(command),
{
    match command {
        DecoderCommand::Drain(value) | DecoderCommand::Finish(value) | DecoderCommand::Dispose(value) => Some(value),
        _ => None,
    }
}

/// The queue bounds hold in every well-formed state: the counted samples
/// never exceed the capacity, at most `MAX_OPERATIONS` commands wait, and
/// until disposal the count is exactly the samples of the pending pushes plus
/// the one in progress.
pub proof fn lemma_queue_bounds<P, D>(s: DecoderSession<P, D>)
    requires
        s.wf(),
    ensures
        s.queued() <= s.capacity(),
        s.pending().len() <= MAX_OPERATIONS,
        !s.is_disposed() ==> s.queued() == total_samples(s.pending()) + s.in_flight(),
        s.is_disposed() ==> s.queued() == 0 && !s.is_accepting(),
{
}

/// An input operation is accepted exactly when it fits, and a refused one
/// leaves the queue, its sample count and the worker state as they were.
pub proof fn lemma_refusal_consumes_nothing<P, D>(
    s0: DecoderSession<P, D>,
    s1: DecoderSession<P, D>,
    command: DecoderCommand<P, D>,
    n: nat,
    r: Enqueued,
)
    requires
        s0.offered(&s1, command, n, r),
    ensures
        r.accepted <==> s0.has_input_room(n),
        !r.accepted ==> s1.pending() == s0.pending() && s1.queued() == s0.queued() && s1.is_running()
            == s0.is_running() && !r.start_worker,
{
}

/// Input operations never take the last `MAX_OPERATIONS - MAX_INPUT_OPERATIONS`
/// slots: right after any accepted input operation a `drain` is queued.
pub proof fn lemma_input_leaves_room_for_barriers<P, D>(
    s0: DecoderSession<P, D>,
    s1: DecoderSession<P, D>,
    command: DecoderCommand<P, D>,
    n: nat,
    r: Enqueued,
)
    requires
        s0.offered(&s1, command, n, r),
        r.accepted,
    ensures
        s1.pending().len() <= MAX_INPUT_OPERATIONS,
        s1.pending().len() + (MAX_OPERATIONS - MAX_INPUT_OPERATIONS) <= MAX_OPERATIONS,
        s1.pending().len() < MAX_OPERATIONS,
{
}

/// How many entries are `true`.
pub open spec fn count_true(s: Seq<bool>) -> int
    decreases s.len(),
{
    if s.len() == 0 {
        0
    } else {
        count_true(s.drop_last()) + if s.last() {
            1int
        } else {
            0int
        }
    }
}

/// Workers requested and not yet let go over a run of operations.
pub open spec fn live_workers(starts: Seq<bool>, stops: Seq<bool>) -> int {
    count_true(starts) - count_true(stops)
}

proof fn lemma_live_workers_prefix<P, D>(sessions: Seq<DecoderSession<P, D>>, starts: Seq<bool>, stops: Seq<bool>, k: int)
    requires
        sessions.len() == starts.len() + 1,
        stops.len() == starts.len(),
        !sessions[0].is_running(),
        forall|i: int|
            #![trigger starts[i]]
            0 <= i < starts.len() ==> sessions[i].worker_step(&sessions[i + 1], starts[i], stops[i]),
        0 <= k <= starts.len(),
    ensures
        live_workers(starts.take(k), stops.take(k)) == if sessions[k].is_running() {
            1int
        } else {
            0int
        },
    decreases k,
{
    if k > 0 {
        lemma_live_workers_prefix(sessions, starts, stops, k - 1);
        let start = starts[k - 1];
        assert(sessions[k - 1].worker_step(&sessions[(k - 1) + 1], start, stops[k - 1]));
        assert(starts.take(k).drop_last() =~= starts.take(k - 1));
        assert(stops.take(k).drop_last() =~= stops.take(k - 1));
    } else {
        assert(starts.take(0) =~= Seq::<bool>::empty());
        assert(stops.take(0) =~= Seq::<bool>::empty());
    }
}

/// The actor never runs two workers: over any run of operations on a session
/// that started idle, the workers requested and not yet let go number one
/// while the queue is busy and none while it is idle, and a worker is only
/// ever requested when none runs.
pub proof fn lemma_single_worker<P, D>(sessions: Seq<DecoderSession<P, D>>, starts: Seq<bool>, stops: Seq<bool>)
    requires
        sessions.len() == starts.len() + 1,
        stops.len() == starts.len(),
        !sessions[0].is_running(),
        forall|i: int|
            #![trigger starts[i]]
            0 <= i < starts.len() ==> sessions[i].worker_step(&sessions[i + 1], starts[i], stops[i]),
    ensures
        forall|k: int|
            0 <= k <= starts.len() ==> live_workers(#[trigger] starts.take(k), stops.take(k)) == if sessions[k].is_running() {
                1int
            } else {
                0int
            },
        forall|i: int|
            0 <= i < starts.len() && #[trigger] starts[i] ==> live_workers(starts.take(i), stops.take(i)) == 0,
{
    assert forall|k: int| 0 <= k <= starts.len() implies live_workers(#[trigger] starts.take(k), stops.take(k)) == if sessions[k].is_running() {
        1int
    } else {
        0int
    } by {
        lemma_live_workers_prefix(sessions, starts, stops, k);
    }
    assert forall|i: int| 0 <= i < starts.len() && #[trigger] starts[i] implies live_workers(starts.take(i), stops.take(i)) == 0 by {
        lemma_live_workers_prefix(sessions, starts, stops, i);
        assert(sessions[i].worker_step(&sessions[i + 1], starts[i], stops[i]));
    }
}

/// A barrier sees all earlier input done: when the worker takes a barrier
/// with nothing in progress, the counted samples are exactly those of the
/// commands still waiting behind it, so none when nothing was pushed after
/// it.
pub proof fn lemma_barrier_sees_earlier_input_done<P, D>(s0: DecoderSession<P, D>, s1: DecoderSession<P, D>)
    requires
        s0.wf(),
        !s0.is_disposed(),
        s0.in_flight() == 0,
        s0.pending().len() > 0,
        barrier_of(s0.pending()[0]) is Some,
        s1.pending() == s0.pending().drop_first(),
        s1.queued() == s0.queued(),
        s1.in_flight() == command_samples(s0.pending()[0]),
    ensures
        s1.in_flight() == 0,
        s1.queued() == total_samples(s1.pending()),
        total_samples(s1.pending()) == 0 ==> s1.queued() == 0,
{
}

/// Commands run in the order they were queued: after an accepted operation
/// the worker's next command is the oldest one that was already waiting, or
/// the new command itself when nothing was waiting.
pub proof fn lemma_first_in_first_out<P, D>(
    s0: DecoderSession<P, D>,
    s1: DecoderSession<P, D>,
    command: DecoderCommand<P, D>,
    n: nat,
    r: Enqueued,
)
    requires
        s0.offered(&s1, command, n, r),
        r.accepted,
    ensures
        s1.pending().len() == s0.pending().len() + 1,
        s1.pending().last() == command,
        s0.pending().len() > 0 ==> s1.pending()[0] == s0.pending()[0],
        s0.pending().len() == 0 ==> s1.pending()[0] == command,
        forall|i: int| 0 <= i < s0.pending().len() ==> s1.pending()[i] == s0.pending()[i],
{
}

/// Taking a push and completing it returns exactly its samples to the
/// capacity.
pub proof fn lemma_completed_push_frees_its_samples<P, D>(
    s0: DecoderSession<P, D>,
    s1: DecoderSession<P, D>,
    s2: DecoderSession<P, D>,
)
    requires
        s0.wf(),
        !s0.is_disposed(),
        s0.in_flight() == 0,
        s0.pending().len() > 0,
        s1.wf(),
        !s1.is_disposed(),
        s1.pending() == s0.pending().drop_first(),
        s1.queued() == s0.queued(),
        s1.in_flight() == command_samples(s0.pending()[0]),
        s2.queued() == (if s1.queued() >= s1.in_flight() { (s1.queued() - s1.in_flight()) as nat } else { 0 }),
    ensures
        s2.queued() == s0.queued() - command_samples(s0.pending()[0]),
        s2.queued() == total_samples(s1.pending()),
{
}

/// Disposal is final: a disposed session refuses every input operation as
/// disposed, whatever else happened to it.
pub proof fn lemma_disposed_refuses_input<P, D>(s: DecoderSession<P, D>)
    requires
        s.is_disposed(),
    ensures
        s.admission() == Err::<(), LibError>(LibError::DecoderDisposed),
{
}

/// After `finish` no input operation is accepted.
pub proof fn lemma_finished_refuses_input<P, D>(s: DecoderSession<P, D>)
    requires
        !s.is_accepting(),
    ensures
        s.admission() is Err,
        !s.is_disposed() && !s.has_failed() ==> s.admission() == Err::<(), LibError>(LibError::DecoderFinished),
{
}

/// A push counts the samples it carries and every other command none; the
/// barriers `drain`, `finish` and `dispose` hold the promise they settle, and
/// the other commands none.
pub proof fn lemma_command_accounting<P, D>(pcm: P, n: usize, dropped: u64, d: D)
    ensures
        command_samples(DecoderCommand::<P, D>::Push(pcm, n)) == n,
        command_samples(DecoderCommand::<P, D>::Reset) == 0,
        command_samples(DecoderCommand::<P, D>::Discontinuity(dropped)) == 0,
        command_samples(DecoderCommand::<P, D>::SignalLost) == 0,
        command_samples(DecoderCommand::<P, D>::Drain(d)) == 0,
        command_samples(DecoderCommand::<P, D>::Finish(d)) == 0,
        command_samples(DecoderCommand::<P, D>::Dispose(d)) == 0,
        barrier_of(DecoderCommand::<P, D>::Push(pcm, n)) is None,
        barrier_of(DecoderCommand::<P, D>::Reset) is None,
        barrier_of(DecoderCommand::<P, D>::Discontinuity(dropped)) is None,
        barrier_of(DecoderCommand::<P, D>::SignalLost) is None,
        barrier_of(DecoderCommand::<P, D>::Drain(d)) == Some(d),
        barrier_of(DecoderCommand::<P, D>::Finish(d)) == Some(d),
        barrier_of(DecoderCommand::<P, D>::Dispose(d)) == Some(d),
        total_samples(Seq::<DecoderCommand<P, D>>::empty()) == 0,
        barriers(Seq::<DecoderCommand<P, D>>::empty()) == Seq::<D>::empty(),
{
}

} // verus!
