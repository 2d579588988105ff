use std::collections::VecDeque;

use vstd::prelude::*;

use crate::decoder::Barrier;
use crate::error::LibError;
use crate::limits::{MAX_OPERATIONS, MAX_READ_SAMPLES, is_safe_integer, safe_number};
use crate::names::{
    EncoderStageKind, current_row_code, current_row_code_spec, current_row_from_code,
    current_row_from_code_spec, encoder_stage_code, encoder_stage_code_spec,
    encoder_stage_name_from_code, encoder_stage_name_spec,
};

verus! {

/// One operation waiting in an encoder's FIFO. `R` carries the promise of a
/// read, `D` the promise of a release.
pub enum EncoderCommand<R, D> {
    /// Produce at most the given number of samples and settle the promise.
    Read(u32, R),
    /// Release the codec and settle the promise.
    Dispose(D),
}

/// Where an encoder stands, as the codec reports it.
#[derive(Clone, Copy, Debug)]
pub struct EncoderProgress {
    pub samples_emitted: u64,
    pub estimated_total_samples: u64,
    pub current_row: Option<u32>,
    pub stage: EncoderStageKind,
    pub raster_start_sample: u64,
    pub raster_end_sample: u64,
    pub finished: bool,
}

/// The progress an SSTV encoder reports to callers; every count is a safe
/// integer.
#[derive(Debug)]
pub struct ProgressReport {
    pub samples_emitted: u64,
    pub estimated_total_samples: u64,
    pub current_row: Option<u32>,
    pub stage: &'static str,
    pub raster_start_sample: u64,
    pub raster_end_sample: u64,
    pub finished: bool,
}

/// The progress a radiofax encoder reports to callers.
#[derive(Debug)]
pub struct FaxProgressReport {
    pub samples_emitted: u64,
    pub finished: bool,
}

/// Result of disposing an encoder.
pub struct EncoderDisposal<R, D> {
    /// Every command that was waiting, in queue order; the caller settles a
    /// read with `ReadCancelled` and an earlier release with
    /// `DisposeSuperseded`.
    pub cancelled: Vec<EncoderCommand<R, D>>,
    /// The queue was idle, so the caller must start a worker for it.
    pub start_worker: bool,
}

/// The queue and reported progress of one encoder instance.
pub struct EncoderSession<R, D> {
    commands: VecDeque<EncoderCommand<R, D>>,
    running: bool,
    accepting: bool,
    samples_emitted: u64,
    estimated_total_samples: u64,
    raster_start_sample: u64,
    raster_end_sample: u64,
    current_row: i64,
    stage: u8,
    finished: bool,
}

impl<R, D> EncoderSession<R, D> {
    /// Commands waiting for the worker, oldest first.
    pub closed spec fn pending(&self) -> Seq<EncoderCommand<R, D>> {
        self.commands@
    }

    /// A worker owns the queue.
    pub closed spec fn is_running(&self) -> bool {
        self.running
    }

    /// Reads are still accepted.
    pub closed spec fn is_accepting(&self) -> bool {
        self.accepting
    }

    /// The progress last recorded.
    pub closed spec fn progress_view(&self) -> EncoderProgress {
        EncoderProgress {
            samples_emitted: self.samples_emitted,
            estimated_total_samples: self.estimated_total_samples,
            current_row: current_row_from_code_spec(self.current_row),
            stage: stage_from_code(self.stage),
            raster_start_sample: self.raster_start_sample,
            raster_end_sample: self.raster_end_sample,
            finished: self.finished,
        }
    }

    /// The stored stage code.
    pub closed spec fn stage_code(&self) -> u8 {
        self.stage
    }

    /// The queue never holds more than `MAX_OPERATIONS` commands, an idle
    /// queue is empty, and the stored stage and row codes are ones that
    /// `record_progress` writes.
    pub closed spec fn wf(&self) -> bool {
        &&& self.commands@.len() <= MAX_OPERATIONS
        &&& !self.running ==> self.commands@.len() == 0
        &&& self.stage <= 5
        &&& self.current_row >= -1
        &&& self.current_row <= u32::MAX
    }

    /// What a read of `max_samples` is answered before it is queued.
    pub open spec fn read_admission(&self, max_samples: u32) -> Result<(), LibError> {
        if !self.is_accepting() {
            Err(LibError::EncoderDisposed)
        } else if max_samples == 0 || max_samples > MAX_READ_SAMPLES {
            Err(LibError::MaxSamplesOutOfRange)
        } else {
            Ok(())
        }
    }

    /// The effect of asking for a read of `max_samples` that settles
    /// `deferred`: a refused read changes nothing; an admitted one joins the
    /// back of the queue unless `MAX_OPERATIONS` commands wait, in which case
    /// its promise is handed back.
    pub open spec fn read_offered(&self, next: &Self, max_samples: u32, deferred: R, r: Result<Barrier<R>, LibError>) -> bool {
        &&& next.is_accepting() == self.is_accepting()
        &&& next.progress_view() == self.progress_view()
        &&& match self.read_admission(max_samples) {
            Err(e) => {
                &&& r == Err::<Barrier<R>, LibError>(e)
                &&& next.pending() == self.pending()
                &&& next.is_running() == self.is_running()
            },
            Ok(()) => if self.pending().len() < MAX_OPERATIONS {
                &&& r == Ok::<Barrier<R>, LibError>(Barrier::Queued { start_worker: !self.is_running() })
                &&& next.pending() == self.pending().push(EncoderCommand::Read(max_samples, deferred))
                &&& next.is_running()
            } else {
                &&& r == Ok::<Barrier<R>, LibError>(Barrier::Rejected(deferred))
                &&& next.pending() == self.pending()
                &&& next.is_running() == self.is_running()
            },
        }
    }

    /// `next` reports the same estimated total and raster span as `self`.
    pub open spec fn keeps_totals(&self, next: &Self) -> bool {
        &&& next.progress_view().estimated_total_samples == self.progress_view().estimated_total_samples
        &&& next.progress_view().raster_start_sample == self.progress_view().raster_start_sample
        &&& next.progress_view().raster_end_sample == self.progress_view().raster_end_sample
    }

    /// A session for an encoder whose codec reports `progress`.
    pub fn new(progress: EncoderProgress) -> (s: Self)
        ensures
            s.wf(),
            s.pending().len() == 0,
            !s.is_running(),
            s.is_accepting(),
            s.progress_view() == progress,
    {
        let s = EncoderSession {
            commands: VecDeque::new(),
            running: false,
            accepting: true,
            samples_emitted: progress.samples_emitted,
            estimated_total_samples: progress.estimated_total_samples,
            raster_start_sample: progress.raster_start_sample,
            raster_end_sample: progress.raster_end_sample,
            current_row: current_row_code(progress.current_row),
            stage: encoder_stage_code(progress.stage),
            finished: progress.finished,
        };
        proof {
            lemma_stage_code_round_trip(progress.stage);
            crate::names::lemma_current_row_round_trip(progress.current_row);
        }
        s
    }

    /// Refuses a read once the encoder was disposed, or when `max_samples`
    /// is outside `1..=MAX_READ_SAMPLES`.
    pub fn check_read(&self, max_samples: u32) -> (r: Result<(), LibError>)
        ensures
            r == self.read_admission(max_samples),
    {
        if !self.accepting {
            return Err(LibError::EncoderDisposed);
        }
        if max_samples == 0 || max_samples > MAX_READ_SAMPLES {
            return Err(LibError::MaxSamplesOutOfRange);
        }
        Ok(())
    }

    /// Queues a read of at most `max_samples` samples that settles `deferred`;
    /// it is handed back when `MAX_OPERATIONS` commands wait.
    pub fn read_samples(&mut self, max_samples: u32, deferred: R) -> (r: Result<Barrier<R>, LibError>)
        requires
            old(self).wf(),
        ensures
            final(self).wf(),
            old(self).read_offered(final(self), max_samples, deferred, r),
            old(self).keeps_totals(final(self)),
    {
        match self.check_read(max_samples) {
            Err(e) => return Err(e),
            Ok(()) => {},
        }
        if self.commands.len() >= MAX_OPERATIONS {
            return Ok(Barrier::Rejected(deferred));
        }
        self.commands.push_back(EncoderCommand::Read(max_samples, deferred));
        let start_worker = if self.running {
            false
        } else {
            self.running = true;
            true
        };
        Ok(Barrier::Queued { start_worker })
    }

    /// Stops accepting reads for good: every waiting command is handed back in
    /// queue order and a release that settles `deferred` becomes the only
    /// queued command.
    pub fn dispose(&mut self, deferred: D) -> (r: EncoderDisposal<R, D>)
        requires
            old(self).wf(),
        ensures
            final(self).wf(),
            r.cancelled@ == old(self).pending(),
            r.start_worker == !old(self).is_running(),
            final(self).pending() == seq![EncoderCommand::<R, D>::Dispose(deferred)],
            final(self).is_running(),
            !final(self).is_accepting(),
            final(self).progress_view() == old(self).progress_view(),
            old(self).keeps_totals(final(self)),
    {
        self.accepting = false;
        let ghost original = self.commands@;
        let mut cancelled: Vec<EncoderCommand<R, D>> = Vec::new();
        while self.commands.len() > 0
            invariant
                original == cancelled@ + self.commands@,
                !self.accepting,
                self.running == old(self).running,
                self.samples_emitted == old(self).samples_emitted,
                self.estimated_total_samples == old(self).estimated_total_samples,
                self.raster_start_sample == old(self).raster_start_sample,
                self.raster_end_sample == old(self).raster_end_sample,
                self.current_row == old(self).current_row,
                self.stage == old(self).stage,
                self.finished == old(self).finished,
                self.stage <= 5,
                -1 <= self.current_row <= u32::MAX,
            decreases self.commands@.len(),
        {
            match self.commands.pop_front() {
                Some(command) => cancelled.push(command),
                None => {},
            }
        }
        assert(cancelled@ =~= original);
        self.commands.push_back(EncoderCommand::Dispose(deferred));
        let start_worker = if self.running {
            false
        } else {
            self.running = true;
            true
        };
        EncoderDisposal { cancelled, start_worker }
    }

    /// The worker's next step: the oldest command, or `None` (and the queue
    /// becomes idle) when nothing waits.
    pub fn next_command(&mut self) -> (r: Option<EncoderCommand<R, D>>)
        requires
            old(self).wf(),
        ensures
            final(self).wf(),
            final(self).is_accepting() == old(self).is_accepting(),
            final(self).progress_view() == old(self).progress_view(),
            old(self).pending().len() == 0 ==> r is None && !final(self).is_running() && final(self).pending()
                == old(self).pending(),
            old(self).pending().len() > 0 ==> r == Some(old(self).pending()[0]) && final(self).pending()
                == old(self).pending().drop_first() && final(self).is_running() == old(self).is_running(),
            old(self).keeps_totals(final(self)),
    {
        let ghost before = self.commands@;
        match self.commands.pop_front() {
            None => {
                self.running = false;
                None
            },
            Some(command) => {
                assert(before.drop_first() =~= self.commands@);
                Some(command)
            },
        }
    }

    /// Records what the codec reports after a read. The totals fixed at
    /// construction stay as they were.
    pub fn record_progress(&mut self, progress: EncoderProgress)
        requires
            old(self).wf(),
        ensures
            final(self).wf(),
            final(self).pending() == old(self).pending(),
            final(self).is_running() == old(self).is_running(),
            final(self).is_accepting() == old(self).is_accepting(),
            final(self).progress_view() == (EncoderProgress {
                samples_emitted: progress.samples_emitted,
                current_row: progress.current_row,
                stage: progress.stage,
                finished: progress.finished,
                ..old(self).progress_view()
            }),
            old(self).keeps_totals(final(self)),
    {
        self.samples_emitted = progress.samples_emitted;
        self.current_row = current_row_code(progress.current_row);
        self.stage = encoder_stage_code(progress.stage);
        self.finished = progress.finished;
        proof {
            lemma_stage_code_round_trip(progress.stage);
            crate::names::lemma_current_row_round_trip(progress.current_row);
        }
    }

    /// Records the output count and completion of a radiofax encoder.
    pub fn record_output(&mut self, samples_emitted: u64, finished: bool)
        requires
            old(self).wf(),
        ensures
            final(self).wf(),
            final(self).pending() == old(self).pending(),
            final(self).is_running() == old(self).is_running(),
            final(self).is_accepting() == old(self).is_accepting(),
            final(self).progress_view() == (EncoderProgress {
                samples_emitted,
                finished,
                ..old(self).progress_view()
            }),
            old(self).keeps_totals(final(self)),
    {
        self.samples_emitted = samples_emitted;
        self.finished = finished;
    }

    /// Whether the codec has produced its last sample.
    pub fn is_finished(&self) -> (r: bool)
        ensures
            r == self.progress_view().finished,
    {
        self.finished
    }

    /// The progress of an SSTV encoder, refusing counts that a JavaScript
    /// number cannot hold, checked in the order of the report's fields.
    pub fn progress(&self) -> (r: Result<ProgressReport, LibError>)
        requires
            self.wf(),
        ensures
            ({
                let p = self.progress_view();
                &&& !is_safe_integer(p.samples_emitted as int) ==> (r matches Err(LibError::IntegerOverflow(f))
                    && f@ == "samplesEmitted"@)
                &&& is_safe_integer(p.samples_emitted as int) && !is_safe_integer(p.estimated_total_samples as int)
                    ==> (r matches Err(LibError::IntegerOverflow(f)) && f@ == "estimatedTotalSamples"@)
                &&& is_safe_integer(p.samples_emitted as int) && is_safe_integer(p.estimated_total_samples as int)
                    && !is_safe_integer(p.raster_start_sample as int) ==> (r matches Err(LibError::IntegerOverflow(f))
                    && f@ == "rasterStartSample"@)
                &&& is_safe_integer(p.samples_emitted as int) && is_safe_integer(p.estimated_total_samples as int)
                    && is_safe_integer(p.raster_start_sample as int) && !is_safe_integer(p.raster_end_sample as int)
                    ==> (r matches Err(LibError::IntegerOverflow(f)) && f@ == "rasterEndSample"@)
                &&& is_safe_integer(p.samples_emitted as int) && is_safe_integer(p.estimated_total_samples as int)
                    && is_safe_integer(p.raster_start_sample as int) && is_safe_integer(p.raster_end_sample as int)
                    ==> (r matches Ok(report) && report.samples_emitted == p.samples_emitted
                    && report.estimated_total_samples == p.estimated_total_samples
                    && report.current_row == p.current_row
                    && report.stage@ == encoder_stage_name_spec(self.stage_code())
                    && report.raster_start_sample == p.raster_start_sample
                    && report.raster_end_sample == p.raster_end_sample
                    && report.finished == p.finished)
            }),
    {
        let samples_emitted = match safe_number(self.samples_emitted, "samplesEmitted") {
            Ok(v) => v,
            Err(e) => return Err(e),
        };
        let estimated_total_samples = match safe_number(self.estimated_total_samples, "estimatedTotalSamples") {
            Ok(v) => v,
            Err(e) => return Err(e),
        };
        let current_row = current_row_from_code(self.current_row);
        let stage = encoder_stage_name_from_code(self.stage);
        let raster_start_sample = match safe_number(self.raster_start_sample, "rasterStartSample") {
            Ok(v) => v,
            Err(e) => return Err(e),
        };
        let raster_end_sample = match safe_number(self.raster_end_sample, "rasterEndSample") {
            Ok(v) => v,
            Err(e) => return Err(e),
        };
        Ok(ProgressReport {
            samples_emitted,
            estimated_total_samples,
            current_row,
            stage,
            raster_start_sample,
            raster_end_sample,
            finished: self.finished,
        })
    }

    /// The progress of a radiofax encoder.
    pub fn fax_progress(&self) -> (r: Result<FaxProgressReport, LibError>)
        ensures
            is_safe_integer(self.progress_view().samples_emitted as int) ==> r == Ok::<FaxProgressReport, LibError>(
                FaxProgressReport {
                    samples_emitted: self.progress_view().samples_emitted,
                    finished: self.progress_view().finished,
                },
            ),
            !is_safe_integer(self.progress_view().samples_emitted as int) ==> (r matches Err(
                LibError::IntegerOverflow(f),
            ) && f@ == "samplesEmitted"@),
    {
        match safe_number(self.samples_emitted, "samplesEmitted") {
            Ok(samples_emitted) => Ok(FaxProgressReport { samples_emitted, finished: self.finished }),
            Err(e) => Err(e),
        }
    }
}

/// The reads asking for `maxes[i]` samples and settling `promises[i]`, in
/// call order.
pub open spec fn queued_reads<R, D>(maxes: Seq<u32>, promises: Seq<R>) -> Seq<EncoderCommand<R, D>> {
    Seq::new(maxes.len(), |i: int| EncoderCommand::<R, D>::Read(maxes[i], promises[i]))
}

/// The first `k` reads of a run of queued reads stand behind the commands
/// that were already waiting.
proof fn lemma_read_prefix<R, D>(
    sessions: Seq<EncoderSession<R, D>>,
    maxes: Seq<u32>,
    promises: Seq<R>,
    answers: Seq<Result<Barrier<R>, LibError>>,
    k: int,
)
    requires
        sessions.len() == maxes.len() + 1,
        promises.len() == maxes.len(),
        answers.len() == maxes.len(),
        forall|i: int|
            #![trigger answers[i]]
            0 <= i < maxes.len() ==> sessions[i].read_offered(&sessions[i + 1], maxes[i], promises[i], answers[i])
                && answers[i] matches Ok(Barrier::Queued { .. }),
        0 <= k <= maxes.len(),
    ensures
        sessions[k].pending() == sessions[0].pending() + queued_reads::<R, D>(maxes.take(k), promises.take(k)),
    decreases k,
{
    if k > 0 {
        lemma_read_prefix(sessions, maxes, promises, answers, k - 1);
        let prev = answers[k - 1];
        assert(sessions[k - 1].read_offered(&sessions[(k - 1) + 1], maxes[k - 1], promises[k - 1], prev));
        assert(queued_reads::<R, D>(maxes.take(k), promises.take(k)) =~= queued_reads::<R, D>(
            maxes.take(k - 1),
            promises.take(k - 1),
        ).push(EncoderCommand::Read(maxes[k - 1], promises[k - 1])));
        assert(sessions[k].pending() =~= sessions[0].pending() + queued_reads::<R, D>(maxes.take(k), promises.take(k)));
    } else {
        assert(queued_reads::<R, D>(maxes.take(0), promises.take(0)) =~= Seq::<EncoderCommand<R, D>>::empty());
        assert(sessions[0].pending() + Seq::<EncoderCommand<R, D>>::empty() =~= sessions[0].pending());
    }
}

/// Reads are served in call order: when reads are asked for back to back and
/// each is queued, they stand in the order of the calls, behind every command
/// that was already waiting, and only the first can ask for a worker.
pub proof fn lemma_reads_in_call_order<R, D>(
    sessions: Seq<EncoderSession<R, D>>,
    maxes: Seq<u32>,
    promises: Seq<R>,
    answers: Seq<Result<Barrier<R>, LibError>>,
)
    requires
        sessions.len() == maxes.len() + 1,
        promises.len() == maxes.len(),
        answers.len() == maxes.len(),
        forall|i: int|
            #![trigger answers[i]]
            0 <= i < maxes.len() ==> sessions[i].read_offered(&sessions[i + 1], maxes[i], promises[i], answers[i])
                && answers[i] matches Ok(Barrier::Queued { .. }),
    ensures
        sessions.last().pending() == sessions[0].pending() + queued_reads::<R, D>(maxes, promises),
        forall|i: int|
            1 <= i < maxes.len() ==> #[trigger] answers[i] == Ok::<Barrier<R>, LibError>(
                Barrier::Queued { start_worker: false },
            ),
{
    lemma_read_prefix(sessions, maxes, promises, answers, maxes.len() as int);
    assert(maxes.take(maxes.len() as int) =~= maxes);
    assert(promises.take(promises.len() as int) =~= promises);
    assert forall|i: int| 1 <= i < maxes.len() implies #[trigger] answers[i] == Ok::<Barrier<R>, LibError>(
        Barrier::Queued { start_worker: false },
    ) by {
        let prev = answers[i - 1];
        assert(sessions[i - 1].read_offered(&sessions[(i - 1) + 1], maxes[i - 1], promises[i - 1], prev));
        assert(sessions[i].is_running());
    }
}

/// The estimated total and the raster span are fixed when the encoder is
/// built: over any run of operations that each keep them, every progress
/// report gives the same values.
pub proof fn lemma_totals_fixed<R, D>(sessions: Seq<EncoderSession<R, D>>)
    requires
        sessions.len() > 0,
        forall|i: int| 0 <= i < sessions.len() - 1 ==> #[trigger] sessions[i].keeps_totals(&sessions[i + 1]),
    ensures
        forall|k: int| 0 <= k < sessions.len() ==> #[trigger] sessions[0].keeps_totals(&sessions[k]),
{
    assert forall|k: int| 0 <= k < sessions.len() implies #[trigger] sessions[0].keeps_totals(&sessions[k]) by {
        lemma_totals_prefix(sessions, k);
    }
}

proof fn lemma_totals_prefix<R, D>(sessions: Seq<EncoderSession<R, D>>, k: int)
    requires
        0 <= k < sessions.len(),
        forall|i: int| 0 <= i < sessions.len() - 1 ==> #[trigger] sessions[i].keeps_totals(&sessions[i + 1]),
    ensures
        sessions[0].keeps_totals(&sessions[k]),
    decreases k,
{
    if k > 0 {
        lemma_totals_prefix(sessions, k - 1);
        assert(sessions[k - 1].keeps_totals(&sessions[(k - 1) + 1]));
    }
}

/// Disposal is final for reads: a disposed encoder refuses every read as
/// disposed.
pub proof fn lemma_disposed_encoder_refuses_reads<R, D>(s: EncoderSession<R, D>, max_samples: u32)
    requires
        !s.is_accepting(),
    ensures
        s.read_admission(max_samples) == Err::<(), LibError>(LibError::EncoderDisposed),
{
}

/// The stage a stored code stands for.
pub open spec fn stage_from_code(code: u8) -> EncoderStageKind {
    if code == 0 {
        EncoderStageKind::Preamble
    } else if code == 1 {
        EncoderStageKind::Vis
    } else if code == 2 {
        EncoderStageKind::Raster
    } else if code == 3 {
        EncoderStageKind::StationId
    } else if code == 4 {
        EncoderStageKind::Guard
    } else {
        EncoderStageKind::Finished
    }
}

/// A stored stage reads back as itself.
pub proof fn lemma_stage_code_round_trip(stage: EncoderStageKind)
    ensures
        stage_from_code(encoder_stage_code_spec(stage)) == stage,
        encoder_stage_code_spec(stage) <= 5,
{
}

} // verus!
