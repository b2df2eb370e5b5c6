//! The decisions of one run: the output of the first execution is held
//! against the expected text, and after a match the same call is timed a
//! fixed number of times. The caller runs the engine and the clock; this
//! module says after each execution what comes next.

use vstd::prelude::*;
use crate::args::ResolvedCallParameters;
use crate::hex::{hex_text, to_hex};
use crate::numeric::U256;

verus! {

/// The number of timed executions.
pub const ITERATIONS: u32 = 100;

/// The gas that every execution is given, whatever gas the command line
/// names.
pub const GAS_LIMIT: u64 = 1_000_000;

/// The longest time that one sample can stand for, in nanoseconds: the
/// largest number of whole seconds that fits 64 bits, and a second less one
/// nanosecond.
pub const MAX_SAMPLE_NANOS: u128 = 18_446_744_073_709_551_615_999_999_999;

/// What the engine is asked to run.
#[derive(Clone, Debug, PartialEq, Eq)]
pub struct CallDescriptor {
    pub gas: U256,
    pub code: Vec<u8>,
    pub data: Option<Vec<u8>>,
}

/// What one execution gave.
#[derive(Clone, Debug, PartialEq, Eq)]
pub struct ExecutionOutcome {
    pub return_data: Vec<u8>,
    pub gas_left: U256,
}

/// Where a run stands.
#[derive(Clone, Copy, Debug, PartialEq, Eq)]
pub enum Stage {
    /// The first execution is awaited; its output decides.
    Pending,
    /// The output matched; `done` timed executions have come in, and
    /// another is awaited.
    Benchmarking { done: u32, total_nanos: u128 },
    /// All timed executions have come in.
    Finished,
    /// The output did not match.
    Failed,
}

/// What the caller does next.
#[derive(Clone, Debug, PartialEq, Eq)]
pub enum Action {
    /// The output matched: report it with the gas that was used, then run
    /// `next` and time it.
    Passed { return_data: String, gas_used: U256, next: CallDescriptor },
    /// The output did not match: report both texts and give up.
    Mismatch { actual: String, expected: String },
    /// Run the call once more and time it.
    Execute(CallDescriptor),
    /// Report the average time of an execution; the run is over.
    Done { average_nanos: u128 },
    /// Nothing is left to do.
    Halt,
}

/// The run and what it executes.
#[derive(Clone, Debug, PartialEq, Eq)]
pub struct Harness {
    pub code: Vec<u8>,
    pub data: Option<Vec<u8>>,
    pub expected: String,
    pub stage: Stage,
}

/// Optional bytes as an optional sequence.
pub open spec fn bytes_of(d: Option<Vec<u8>>) -> Option<Seq<u8>> {
    match d {
        Some(v) => Some(v@),
        None => None,
    }
}

/// The stage after the first execution.
pub open spec fn checked(matched: bool) -> Stage {
    if matched {
        Stage::Benchmarking { done: 0, total_nanos: 0 }
    } else {
        Stage::Failed
    }
}

/// The stage after one timed execution; a run that is not being timed stays
/// where it is.
pub open spec fn sampled(stage: Stage, elapsed: u128) -> Stage {
    match stage {
        Stage::Benchmarking { done, total_nanos } => if done + 1 < ITERATIONS {
            Stage::Benchmarking {
                done: (done + 1) as u32,
                total_nanos: (total_nanos + elapsed) as u128,
            }
        } else {
            Stage::Finished
        },
        _ => stage,
    }
}

/// The average that the timed execution which ends the run lets report.
pub open spec fn reported_average(stage: Stage, elapsed: u128) -> Option<nat> {
    match stage {
        Stage::Benchmarking { done, total_nanos } => if done + 1 < ITERATIONS {
            None
        } else {
            Some(((total_nanos + elapsed) / (ITERATIONS as int)) as nat)
        },
        _ => None,
    }
}

/// The stage after an execution, `matched` saying whether its output was the
/// expected one.
pub open spec fn next_stage(stage: Stage, matched: bool, elapsed: u128) -> Stage {
    if stage is Pending {
        checked(matched)
    } else {
        sampled(stage, elapsed)
    }
}

/// The stage after a sequence of timed executions.
pub open spec fn after_samples(stage: Stage, samples: Seq<u128>) -> Stage
    decreases samples.len(),
{
    if samples.len() == 0 {
        stage
    } else {
        sampled(after_samples(stage, samples.drop_last()), samples.last())
    }
}

/// The sum of the samples.
pub open spec fn total_of(samples: Seq<u128>) -> nat
    decreases samples.len(),
{
    if samples.len() == 0 {
        0
    } else {
        total_of(samples.drop_last()) + samples.last() as nat
    }
}

impl Stage {
    /// The count of a run that is being timed is below the number of
    /// iterations, and its total is that of so many samples.
    pub open spec fn wf(&self) -> bool {
        match *self {
            Stage::Benchmarking { done, total_nanos } => done < ITERATIONS && total_nanos <= done
                * MAX_SAMPLE_NANOS,
            _ => true,
        }
    }

    /// An execution is awaited.
    pub open spec fn awaits_run(&self) -> bool {
        self is Pending || self is Benchmarking
    }
}

impl CallDescriptor {
    /// The descriptor holds the fixed gas limit and this code and data.
    pub open spec fn carries(&self, code: Seq<u8>, data: Option<Seq<u8>>) -> bool {
        &&& self.gas@ == GAS_LIMIT as nat
        &&& self.code@ == code
        &&& bytes_of(self.data) == data
    }
}

impl Harness {
    /// A run of these parameters, with the descriptor of its first
    /// execution. The gas limit of the parameters is not used: every
    /// execution gets `GAS_LIMIT`.
    pub fn new(params: ResolvedCallParameters) -> (r: (Harness, CallDescriptor))
        ensures
            r.0.code@ == params.code@,
            bytes_of(r.0.data) == bytes_of(params.input_data),
            r.0.expected@ == params.expected_output@,
            r.0.stage == Stage::Pending,
            r.1.carries(params.code@, bytes_of(params.input_data)),
    {
        let harness = Harness {
            code: params.code,
            data: params.input_data,
            expected: params.expected_output,
            stage: Stage::Pending,
        };
        let first = harness.descriptor();
        (harness, first)
    }

    /// A fresh descriptor of the call: the code and the data are copied, the
    /// run keeps its own.
    pub fn descriptor(&self) -> (d: CallDescriptor)
        ensures
            d.carries(self.code@, bytes_of(self.data)),
    {
        let data = match &self.data {
            Some(bytes) => Some(bytes.clone()),
            None => None,
        };
        CallDescriptor { gas: U256::from_u64(GAS_LIMIT), code: self.code.clone(), data }
    }

    /// Takes the outcome of the execution that was asked for last, with the
    /// time it took, and says what comes next.
    ///
    /// The first outcome decides: its output, written as hexadecimal text,
    /// is the expected text or it is not; the time of that execution is not
    /// counted. After a match every outcome is a sample, and the one that
    /// completes the iterations ends the run with the average. A run that
    /// has ended or failed asks for nothing more.
    pub fn step(&mut self, outcome: &ExecutionOutcome, elapsed_nanos: u128) -> (action: Action)
        requires
            old(self).stage.wf(),
            elapsed_nanos <= MAX_SAMPLE_NANOS,
            old(self).stage is Pending ==> outcome.gas_left@ <= GAS_LIMIT as nat,
        ensures
            final(self).stage.wf(),
            final(self).code@ == old(self).code@,
            bytes_of(final(self).data) == bytes_of(old(self).data),
            final(self).expected@ == old(self).expected@,
            final(self).stage == next_stage(
                old(self).stage,
                hex_text(outcome.return_data@) == old(self).expected@,
                elapsed_nanos,
            ),
            match action {
                Action::Passed { return_data, gas_used, next } => {
                    &&& old(self).stage is Pending
                    &&& hex_text(outcome.return_data@) == old(self).expected@
                    &&& return_data@ == hex_text(outcome.return_data@)
                    &&& gas_used@ == GAS_LIMIT as nat - outcome.gas_left@
                    &&& next.carries(old(self).code@, bytes_of(old(self).data))
                },
                Action::Mismatch { actual, expected } => {
                    &&& old(self).stage is Pending
                    &&& hex_text(outcome.return_data@) != old(self).expected@
                    &&& actual@ == hex_text(outcome.return_data@)
                    &&& expected@ == old(self).expected@
                },
                Action::Execute(next) => {
                    &&& old(self).stage is Benchmarking
                    &&& reported_average(old(self).stage, elapsed_nanos) is None
                    &&& next.carries(old(self).code@, bytes_of(old(self).data))
                },
                Action::Done { average_nanos } => {
                    &&& old(self).stage is Benchmarking
                    &&& reported_average(old(self).stage, elapsed_nanos) == Some(
                        average_nanos as nat,
                    )
                },
                Action::Halt => !old(self).stage.awaits_run(),
            },
    {
        match self.stage {
            Stage::Pending => {
                let actual = to_hex(&outcome.return_data);
                if actual == self.expected {
                    let gas_used = U256::from_u64(GAS_LIMIT).checked_sub(&outcome.gas_left).unwrap();
                    self.stage = Stage::Benchmarking { done: 0, total_nanos: 0 };
                    Action::Passed { return_data: actual, gas_used, next: self.descriptor() }
                } else {
                    self.stage = Stage::Failed;
                    Action::Mismatch { actual, expected: self.expected.clone() }
                }
            },
            Stage::Benchmarking { done, total_nanos } => {
                assert(done * MAX_SAMPLE_NANOS <= 99 * MAX_SAMPLE_NANOS) by (nonlinear_arith)
                    requires
                        done <= 99,
                ;
                let total: u128 = total_nanos + elapsed_nanos;
                if done + 1 < ITERATIONS {
                    assert(total <= (done + 1) * MAX_SAMPLE_NANOS) by (nonlinear_arith)
                        requires
                            total == total_nanos + elapsed_nanos,
                            total_nanos <= done * MAX_SAMPLE_NANOS,
                            elapsed_nanos <= MAX_SAMPLE_NANOS,
                    ;
                    self.stage = Stage::Benchmarking { done: done + 1, total_nanos: total };
                    Action::Execute(self.descriptor())
                } else {
                    self.stage = Stage::Finished;
                    Action::Done { average_nanos: total / 100 }
                }
            },
            Stage::Finished => Action::Halt,
            Stage::Failed => Action::Halt,
        }
    }
}

/// The timed phase takes exactly `ITERATIONS` samples: after fewer, the run
/// has counted them, holds their sum and awaits another execution; with the
/// last one it is finished, and the average reported is the sum of all
/// samples divided by their number, rounded down.
pub proof fn lemma_benchmark_counts(samples: Seq<u128>)
    requires
        samples.len() <= ITERATIONS,
        forall|i: int| 0 <= i < samples.len() ==> #[trigger] samples[i] <= MAX_SAMPLE_NANOS,
    ensures
        total_of(samples) <= samples.len() * MAX_SAMPLE_NANOS,
        samples.len() < ITERATIONS ==> after_samples(
            Stage::Benchmarking { done: 0, total_nanos: 0 },
            samples,
        ) == (Stage::Benchmarking {
            done: samples.len() as u32,
            total_nanos: total_of(samples) as u128,
        }),
        samples.len() == ITERATIONS ==> {
            &&& after_samples(Stage::Benchmarking { done: 0, total_nanos: 0 }, samples)
                == Stage::Finished
            &&& reported_average(
                after_samples(
                    Stage::Benchmarking { done: 0, total_nanos: 0 },
                    samples.drop_last(),
                ),
                samples.last(),
            ) == Some(total_of(samples) / (ITERATIONS as nat))
        },
    decreases samples.len(),
{
    if samples.len() > 0 {
        let before = samples.drop_last();
        assert forall|i: int| 0 <= i < before.len() implies #[trigger] before[i]
            <= MAX_SAMPLE_NANOS by {
            assert(before[i] == samples[i]);
        }
        lemma_benchmark_counts(before);
        assert(before.len() * MAX_SAMPLE_NANOS + MAX_SAMPLE_NANOS == samples.len()
            * MAX_SAMPLE_NANOS) by (nonlinear_arith)
            requires
                before.len() + 1 == samples.len(),
        ;
        assert(samples.len() * MAX_SAMPLE_NANOS <= 100 * MAX_SAMPLE_NANOS) by (nonlinear_arith)
            requires
                samples.len() <= 100,
        ;
    }
}

/// The first execution decides: output that matches starts the timed phase
/// with nothing counted and another execution awaited; any other output
/// fails the run.
pub proof fn lemma_first_execution_decides(elapsed: u128)
    ensures
        next_stage(Stage::Pending, true, elapsed) == (Stage::Benchmarking {
            done: 0,
            total_nanos: 0,
        }),
        next_stage(Stage::Pending, true, elapsed).awaits_run(),
        next_stage(Stage::Pending, false, elapsed) == Stage::Failed,
{
}

/// A run whose output did not match is over: whatever comes in afterwards,
/// it stays failed and never awaits an execution.
pub proof fn lemma_failed_stays(matched: bool, elapsed: u128, samples: Seq<u128>)
    ensures
        checked(false) == Stage::Failed,
        next_stage(Stage::Failed, matched, elapsed) == Stage::Failed,
        after_samples(Stage::Failed, samples) == Stage::Failed,
        !Stage::Failed.awaits_run(),
    decreases samples.len(),
{
    if samples.len() > 0 {
        lemma_failed_stays(matched, elapsed, samples.drop_last());
    }
}

/// A run that has finished stays finished and asks for no execution.
pub proof fn lemma_finished_stays(matched: bool, elapsed: u128, samples: Seq<u128>)
    ensures
        next_stage(Stage::Finished, matched, elapsed) == Stage::Finished,
        after_samples(Stage::Finished, samples) == Stage::Finished,
        !Stage::Finished.awaits_run(),
    decreases samples.len(),
{
    if samples.len() > 0 {
        lemma_finished_stays(matched, elapsed, samples.drop_last());
    }
}

} // verus!
