//! The export contract: how a sink receives batches of finished spans and
//! how it is shut down.
use vstd::prelude::*;

use crate::span_data::SpanData;

verus! {

/// The classified reasons for which an export attempt fails.
#[derive(Clone, Copy, Debug, PartialEq, Eq, Structural)]
pub enum ExportError {
    /// The batch could not be serialized into the sink's representation.
    Encoding,
    /// The backend was unreachable or rejected the payload.
    Transport,
    /// The sink's own deadline elapsed before completion.
    Timeout,
    /// The exporter was asked to export after it was shut down.
    AlreadyShutDown,
}

/// The outcome of one export attempt.
pub type ExportResult = Result<(), ExportError>;

/// The interface a sink implements to receive finished spans.
///
/// The caller issues at most one `export` at a time on an instance, and calls
/// `shutdown` once, at teardown. After that every `export` fails with
/// `AlreadyShutDown` and transmits nothing.
pub trait SpanExporter {
    /// Whether `shutdown` has been called on this instance.
    spec fn is_shut_down(&self) -> bool;

    /// Hands one ordered batch to the sink. An empty batch succeeds at once.
    fn export(&mut self, batch: Vec<SpanData>) -> (r: ExportResult)
        ensures
            final(self).is_shut_down() == old(self).is_shut_down(),
            old(self).is_shut_down() ==> r == Err::<(), ExportError>(ExportError::AlreadyShutDown),
            !old(self).is_shut_down() ==> r != Err::<(), ExportError>(
                ExportError::AlreadyShutDown,
            ),
            !old(self).is_shut_down() && batch@.len() == 0 ==> r is Ok,
    ;

    /// Releases what the sink holds; from now on every export fails.
    fn shutdown(&mut self)
        ensures
            final(self).is_shut_down(),
    ;
}

/// What an exporter does with a batch that it is handed.
#[derive(Clone, Copy, Debug, PartialEq, Eq, Structural)]
pub enum ExportPlan {
    /// Fail at once with this error; nothing is transmitted.
    Reject(ExportError),
    /// Succeed at once; there is nothing to transmit.
    Skip,
    /// Transmit the batch to the backend.
    Transmit,
}

/// The plan for a batch of `len` records on an exporter that is, or is not,
/// shut down.
pub open spec fn plan_for(shut_down: bool, len: nat) -> ExportPlan {
    if shut_down {
        ExportPlan::Reject(ExportError::AlreadyShutDown)
    } else if len == 0 {
        ExportPlan::Skip
    } else {
        ExportPlan::Transmit
    }
}

/// The lifecycle of an exporter: active until shut down, then shut down for
/// good. A sink keeps one and asks it what to do with each batch.
#[derive(Debug)]
pub struct ExportGuard {
    shut_down: bool,
}

impl ExportGuard {
    pub closed spec fn shut_down_spec(&self) -> bool {
        self.shut_down
    }

    /// A guard for an exporter that has not been shut down.
    pub fn new() -> (r: ExportGuard)
        ensures
            !r.shut_down_spec(),
    {
        ExportGuard { shut_down: false }
    }

    /// Whether the exporter has been shut down.
    pub fn is_shut_down(&self) -> (r: bool)
        ensures
            r == self.shut_down_spec(),
    {
        self.shut_down
    }

    /// What to do with a batch of `len` records.
    pub fn plan(&self, len: usize) -> (r: ExportPlan)
        ensures
            r == plan_for(self.shut_down_spec(), len as nat),
    {
        if self.shut_down {
            ExportPlan::Reject(ExportError::AlreadyShutDown)
        } else if len == 0 {
            ExportPlan::Skip
        } else {
            ExportPlan::Transmit
        }
    }

    /// The result to report for a batch planned as `plan`, where `sent` is
    /// what the transmission answered (it is not read unless the plan was to
    /// transmit).
    pub fn finish(plan: ExportPlan, sent: ExportResult) -> (r: ExportResult)
        ensures
            r == result_for(plan, sent),
    {
        match plan {
            ExportPlan::Reject(e) => Err(e),
            ExportPlan::Skip => Ok(()),
            ExportPlan::Transmit => match sent {
                Err(ExportError::AlreadyShutDown) => Err(ExportError::Transport),
                _ => sent,
            },
        }
    }

    /// Marks the exporter shut down; this cannot be undone.
    pub fn shut_down(&mut self)
        ensures
            final(self).shut_down_spec(),
    {
        self.shut_down = true;
    }
}

/// The result an exporter gives for a plan, where `sent` is what the sink's
/// transmission answered. A transmission that reports `AlreadyShutDown` was
/// refused by the backend, and counts as a transport failure.
pub open spec fn result_for(plan: ExportPlan, sent: ExportResult) -> ExportResult {
    match plan {
        ExportPlan::Reject(e) => Err(e),
        ExportPlan::Skip => Ok(()),
        ExportPlan::Transmit => match sent {
            Err(ExportError::AlreadyShutDown) => Err(ExportError::Transport),
            _ => sent,
        },
    }
}

/// Whatever a transmission answers, a sink that follows its guard's plan and
/// reports `result_for` keeps the export contract: `AlreadyShutDown` exactly
/// when it is shut down, and success at once for an empty batch.
pub proof fn lemma_guarded_result_keeps_contract(shut_down: bool, len: nat, sent: ExportResult)
    ensures
        shut_down ==> result_for(plan_for(shut_down, len), sent) == Err::<(), ExportError>(
            ExportError::AlreadyShutDown,
        ),
        !shut_down ==> result_for(plan_for(shut_down, len), sent) != Err::<(), ExportError>(
            ExportError::AlreadyShutDown,
        ),
        !shut_down && len == 0 ==> result_for(plan_for(shut_down, len), sent) is Ok,
{
}

/// What an in-memory exporter has seen: whether it is shut down, and the
/// batches it accepted, in the order they came.
pub struct RecorderState {
    pub shut_down: bool,
    pub batches: Seq<Seq<SpanData>>,
}

/// The state of an in-memory exporter after it is handed `batch`.
pub open spec fn recorded(s: RecorderState, batch: Seq<SpanData>) -> RecorderState {
    if plan_for(s.shut_down, batch.len()) == ExportPlan::Transmit {
        RecorderState { shut_down: s.shut_down, batches: s.batches.push(batch) }
    } else {
        s
    }
}

/// The state of an in-memory exporter after it is handed each of `batches` in turn.
pub open spec fn recorded_all(s: RecorderState, batches: Seq<Seq<SpanData>>) -> RecorderState
    decreases batches.len(),
{
    if batches.len() == 0 {
        s
    } else {
        recorded_all(recorded(s, batches[0]), batches.drop_first())
    }
}

/// An exporter that keeps every batch it accepts, in order, in memory. It
/// never fails while active.
#[derive(Debug)]
pub struct InMemorySpanExporter {
    guard: ExportGuard,
    batches: Vec<Vec<SpanData>>,
}

impl View for InMemorySpanExporter {
    type V = RecorderState;

    closed spec fn view(&self) -> RecorderState {
        RecorderState {
            shut_down: self.guard.shut_down_spec(),
            batches: self.batches@.map_values(|b: Vec<SpanData>| b@),
        }
    }
}

impl InMemorySpanExporter {
    /// An active exporter that has accepted nothing.
    pub fn new() -> (r: InMemorySpanExporter)
        ensures
            !r@.shut_down,
            r@.batches == Seq::<Seq<SpanData>>::empty(),
    {
        let r = InMemorySpanExporter { guard: ExportGuard::new(), batches: Vec::new() };
        assert(r@.batches =~= Seq::<Seq<SpanData>>::empty());
        r
    }

    /// The batches accepted so far, oldest first.
    pub fn finished_batches(&self) -> (r: &Vec<Vec<SpanData>>)
        ensures
            r@.map_values(|b: Vec<SpanData>| b@) == self@.batches,
    {
        &self.batches
    }

    /// The number of batches accepted so far.
    pub fn batch_count(&self) -> (r: usize)
        ensures
            r == self@.batches.len(),
    {
        self.batches.len()
    }
}

impl SpanExporter for InMemorySpanExporter {
    open spec fn is_shut_down(&self) -> bool {
        self@.shut_down
    }

    fn export(&mut self, batch: Vec<SpanData>) -> (r: ExportResult)
        ensures
            final(self)@ == recorded(old(self)@, batch@),
            r == result_for(plan_for(old(self)@.shut_down, batch@.len()), Ok(())),
    {
        let ghost before = self.batches@;
        match self.guard.plan(batch.len()) {
            ExportPlan::Reject(e) => Err(e),
            ExportPlan::Skip => Ok(()),
            ExportPlan::Transmit => {
                let ghost b = batch@;
                self.batches.push(batch);
                assert(self.batches@.map_values(|v: Vec<SpanData>| v@) =~= before.map_values(
                    |v: Vec<SpanData>| v@,
                ).push(b));
                Ok(())
            },
        }
    }

    fn shutdown(&mut self)
        ensures
            final(self)@.batches == old(self)@.batches,
    {
        self.guard.shut_down();
    }
}

/// Shutting down is terminal: once an in-memory exporter is shut down, every
/// later batch, whatever it holds, is refused with `AlreadyShutDown` and
/// nothing more is recorded.
pub proof fn lemma_shut_down_is_terminal(s: RecorderState, batches: Seq<Seq<SpanData>>)
    requires
        s.shut_down,
    ensures
        recorded_all(s, batches) == s,
        forall|i: int|
            0 <= i < batches.len() ==> result_for(plan_for(s.shut_down, (#[trigger] batches[i]).len()), Ok(()))
                == Err::<(), ExportError>(ExportError::AlreadyShutDown),
    decreases batches.len(),
{
    if batches.len() > 0 {
        lemma_shut_down_is_terminal(s, batches.drop_first());
    }
}

/// An active in-memory exporter records the non-empty batches it is handed
/// after the ones it already holds, in the order in which they came.
pub proof fn lemma_batches_kept_in_order(s: RecorderState, batches: Seq<Seq<SpanData>>)
    requires
        !s.shut_down,
    ensures
        !recorded_all(s, batches).shut_down,
        recorded_all(s, batches).batches == s.batches + batches.filter(
            |b: Seq<SpanData>| b.len() > 0,
        ),
    decreases batches.len(),
{
    let keep = |b: Seq<SpanData>| b.len() > 0;
    if batches.len() == 0 {
        assert(batches.filter(keep) =~= Seq::<Seq<SpanData>>::empty());
        assert(s.batches + batches.filter(keep) =~= s.batches);
    } else {
        let t = recorded(s, batches[0]);
        let rest = batches.drop_first();
        lemma_batches_kept_in_order(t, rest);
        assert(batches =~= seq![batches[0]] + rest);
        rest.lemma_filter_prepend(batches[0], keep);
        if batches[0].len() > 0 {
            assert(s.batches.push(batches[0]) + rest.filter(keep) =~= s.batches + (seq![batches[0]]
                + rest.filter(keep)));
        } else {
            assert(Seq::<Seq<SpanData>>::empty() + rest.filter(keep) =~= rest.filter(keep));
        }
    }
}

/// Two batches handed one after the other to an active in-memory exporter are
/// recorded in that order.
pub proof fn lemma_two_batches_in_order(s: RecorderState, b1: Seq<SpanData>, b2: Seq<SpanData>)
    requires
        !s.shut_down,
        b1.len() > 0,
        b2.len() > 0,
    ensures
        recorded(recorded(s, b1), b2).batches == s.batches.push(b1).push(b2),
{
}

} // verus!
