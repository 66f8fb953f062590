//! The convergence controller: a state machine that drives repeated two-pass
//! encode attempts toward an output size within tolerance of the target.
//!
//! The controller never touches the encoder itself. A driver asks it for the
//! next action, performs that action with the external tools, and reports
//! what happened; the controller decides whether to go on, adjust the
//! bitrate, or stop with an outcome.

use vstd::prelude::*;

use crate::bitrate::{
    adjust_bitrate, adjusted_bitrate, calculate_bitrate, check_within_tolerance, initial_bitrate,
    lemma_adjustment_bounds, within_tolerance, INITIAL_BITRATE_CAP, MAX_BITRATE,
    MAX_TARGET_SIZE_BYTES,
};

verus! {

/// Most encode attempts one run may make; reaching the limit without
/// convergence is a normal outcome, not an error.
pub const MAX_ITERATIONS: u64 = 10;

/// Which step of the current attempt the controller is waiting on.
#[derive(Clone, Copy, Debug, PartialEq, Eq, Structural)]
pub enum Phase {
    AwaitingPass1,
    AwaitingPass2,
    AwaitingSize,
}

/// What the driver must do next.
#[derive(Clone, Copy, Debug, PartialEq, Eq, Structural)]
pub enum NextAction {
    RunPass { pass_number: u8, bitrate_kbps: u64 },
    MeasureSize,
}

/// A condition that aborts the run at once, with no retry.
#[derive(Debug)]
pub enum FatalError {
    ProbeFailure,
    EncodeFailed { pass_number: u8, diagnostics: String },
    SizeQueryFailed,
}

/// How a run ended. `IterationLimitReached` leaves the last output file in
/// place as a best-effort result.
#[derive(Debug)]
pub enum Outcome {
    Converged { iterations_used: u64, final_size_bytes: u64 },
    IterationLimitReached { final_size_bytes: u64 },
    Failed(FatalError),
}

/// The immutable per-run configuration.
pub struct EncodeRequest {
    pub input_path: String,
    pub output_path: String,
    pub target_size_bytes: u64,
    pub tolerance_bytes: u64,
    pub codec: String,
    pub hwaccel: String,
}

impl EncodeRequest {
    /// A request the controller accepts: a positive target no larger than the
    /// arithmetic allows, and a named codec.
    pub open spec fn valid(self) -> bool {
        &&& 1 <= self.target_size_bytes <= MAX_TARGET_SIZE_BYTES
        &&& self.codec@.len() >= 1
    }

    /// Decides whether this request is one the controller accepts.
    pub fn is_valid(&self) -> (r: bool)
        ensures
            r == self.valid(),
    {
        1 <= self.target_size_bytes && self.target_size_bytes <= MAX_TARGET_SIZE_BYTES
            && !self.codec.as_str().is_empty()
    }
}

/// The largest bitrate estimate the controller can hold after the given
/// number of completed attempts: one adjustment at most doubles it.
pub open spec fn bitrate_cap(iterations: nat) -> int
    decreases iterations,
{
    if iterations == 0 {
        INITIAL_BITRATE_CAP as int
    } else {
        2 * bitrate_cap((iterations - 1) as nat)
    }
}

proof fn lemma_bitrate_cap_positive(iterations: nat)
    ensures
        bitrate_cap(iterations) >= INITIAL_BITRATE_CAP,
    decreases iterations,
{
    if iterations > 0 {
        lemma_bitrate_cap_positive((iterations - 1) as nat);
    }
}

proof fn lemma_bitrate_cap_monotone(i: nat, j: nat)
    requires
        i <= j,
    ensures
        bitrate_cap(i) <= bitrate_cap(j),
    decreases j,
{
    if i < j {
        lemma_bitrate_cap_monotone(i, (j - 1) as nat);
        lemma_bitrate_cap_positive((j - 1) as nat);
    }
}

proof fn lemma_bitrate_cap_limit()
    ensures
        bitrate_cap(MAX_ITERATIONS as nat) == MAX_BITRATE,
{
    reveal_with_fuel(bitrate_cap, 11);
}

/// The mutable loop state of one run.
pub struct Controller {
    pub target_size_bytes: u64,
    pub tolerance_bytes: u64,
    /// Current bitrate estimate, in bits per second.
    pub bitrate: u64,
    /// Completed encode attempts, i.e. measurements taken so far.
    pub iteration: u64,
    pub phase: Phase,
}

/// The pass number the controller is working on in the given phase.
pub open spec fn pass_number_of(phase: Phase) -> u8 {
    if phase is AwaitingPass1 {
        1u8
    } else {
        2u8
    }
}

/// The state after a pass report: a successful pass advances the attempt,
/// a failed one leaves the controller where it was.
pub open spec fn pass_step(pre: Controller, success: bool) -> Controller {
    if success {
        if pre.phase is AwaitingPass1 {
            Controller { phase: Phase::AwaitingPass2, ..pre }
        } else {
            Controller { phase: Phase::AwaitingSize, ..pre }
        }
    } else {
        pre
    }
}

/// What a pass report ends the run with: nothing on success, a fatal encode
/// failure carrying the pass number and its diagnostics otherwise.
pub open spec fn pass_outcome(pre: Controller, success: bool, diagnostics: String) -> Option<
    Outcome,
> {
    if success {
        None
    } else {
        Some(
            Outcome::Failed(
                FatalError::EncodeFailed { pass_number: pass_number_of(pre.phase), diagnostics },
            ),
        )
    }
}

/// What a size measurement ends the run with: convergence when the size lies
/// within tolerance, the iteration limit when this was the last allowed
/// attempt, and nothing while attempts remain.
pub open spec fn size_outcome(pre: Controller, size_bytes: u64) -> Option<Outcome> {
    if within_tolerance(
        size_bytes as int,
        pre.target_size_bytes as int,
        pre.tolerance_bytes as int,
    ) {
        Some(
            Outcome::Converged {
                iterations_used: (pre.iteration + 1) as u64,
                final_size_bytes: size_bytes,
            },
        )
    } else if pre.iteration + 1 == MAX_ITERATIONS {
        Some(Outcome::IterationLimitReached { final_size_bytes: size_bytes })
    } else {
        None
    }
}

/// The state after a size measurement: unchanged when the run ends, otherwise
/// the next attempt starts with the adjusted bitrate.
pub open spec fn size_step(pre: Controller, size_bytes: u64) -> Controller {
    if size_outcome(pre, size_bytes) is Some {
        pre
    } else {
        Controller {
            bitrate: adjusted_bitrate(
                pre.bitrate as int,
                size_bytes as int,
                pre.target_size_bytes as int,
            ) as u64,
            iteration: (pre.iteration + 1) as u64,
            phase: Phase::AwaitingPass1,
            ..pre
        }
    }
}

impl Controller {
    /// The controller's invariant: the bitrate estimate is positive and can
    /// have at most doubled once per completed attempt, and attempts remain.
    pub open spec fn wf(self) -> bool {
        &&& 1 <= self.target_size_bytes <= MAX_TARGET_SIZE_BYTES
        &&& 1 <= self.bitrate
        &&& self.bitrate <= bitrate_cap(self.iteration as nat)
        &&& self.iteration < MAX_ITERATIONS
    }

    /// Starts a run: rejects a zero duration as a probe failure, otherwise
    /// computes the initial bitrate estimate and awaits the first pass.
    pub fn init(req: &EncodeRequest, duration_ms: u64) -> (r: Result<Controller, FatalError>)
        requires
            req.valid(),
        ensures
            duration_ms == 0 ==> (r matches Err(e) && e is ProbeFailure),
            duration_ms >= 1 ==> (r matches Ok(c) && c.wf() && c.target_size_bytes
                == req.target_size_bytes && c.tolerance_bytes == req.tolerance_bytes && c.iteration
                == 0 && c.phase is AwaitingPass1 && c.bitrate == initial_bitrate(
                req.target_size_bytes as int,
                duration_ms as int,
            )),
    {
        if duration_ms == 0 {
            return Err(FatalError::ProbeFailure);
        }
        let raw: u64 = calculate_bitrate(req.target_size_bytes, duration_ms);
        let bitrate: u64 = if raw >= 1 {
            raw
        } else {
            1
        };
        Ok(
            Controller {
                target_size_bytes: req.target_size_bytes,
                tolerance_bytes: req.tolerance_bytes,
                bitrate,
                iteration: 0,
                phase: Phase::AwaitingPass1,
            },
        )
    }

    /// Tells the driver what to do next: run a pass at the current bitrate in
    /// kilobits per second, or measure the output file.
    pub fn next_action(&self) -> (r: NextAction)
        ensures
            self.phase is AwaitingPass1 ==> r == (NextAction::RunPass {
                pass_number: 1u8,
                bitrate_kbps: self.bitrate / 1000,
            }),
            self.phase is AwaitingPass2 ==> r == (NextAction::RunPass {
                pass_number: 2u8,
                bitrate_kbps: self.bitrate / 1000,
            }),
            self.phase is AwaitingSize ==> r == NextAction::MeasureSize,
    {
        match self.phase {
            Phase::AwaitingPass1 => NextAction::RunPass {
                pass_number: 1,
                bitrate_kbps: self.bitrate / 1000,
            },
            Phase::AwaitingPass2 => NextAction::RunPass {
                pass_number: 2,
                bitrate_kbps: self.bitrate / 1000,
            },
            Phase::AwaitingSize => NextAction::MeasureSize,
        }
    }

    /// Takes the report of one encoder pass. A failed pass aborts the whole
    /// run at once: the controller does not advance, so a failed first pass
    /// never leads to a second pass or a size measurement.
    pub fn on_pass_result(&mut self, success: bool, diagnostics: String) -> (r: Option<Outcome>)
        requires
            old(self).wf(),
            !(old(self).phase is AwaitingSize),
        ensures
            final(self).wf(),
            *final(self) == pass_step(*old(self), success),
            r == pass_outcome(*old(self), success, diagnostics),
    {
        if success {
            match self.phase {
                Phase::AwaitingPass1 => {
                    self.phase = Phase::AwaitingPass2;
                },
                _ => {
                    self.phase = Phase::AwaitingSize;
                },
            }
            None
        } else {
            let pass_number: u8 = match self.phase {
                Phase::AwaitingPass1 => 1,
                _ => 2,
            };
            Some(Outcome::Failed(FatalError::EncodeFailed { pass_number, diagnostics }))
        }
    }

    /// Takes the measured size of the output file. Within tolerance the run
    /// converges; otherwise the bitrate is adjusted and the next attempt
    /// starts, until the attempt limit ends the run as a best-effort result.
    pub fn on_size(&mut self, size_bytes: u64) -> (r: Option<Outcome>)
        requires
            old(self).wf(),
            old(self).phase is AwaitingSize,
        ensures
            final(self).wf(),
            *final(self) == size_step(*old(self), size_bytes),
            r == size_outcome(*old(self), size_bytes),
    {
        if check_within_tolerance(size_bytes, self.target_size_bytes, self.tolerance_bytes) {
            return Some(
                Outcome::Converged {
                    iterations_used: self.iteration + 1,
                    final_size_bytes: size_bytes,
                },
            );
        }
        if self.iteration + 1 == MAX_ITERATIONS {
            return Some(Outcome::IterationLimitReached { final_size_bytes: size_bytes });
        }
        proof {
            lemma_bitrate_cap_monotone(old(self).iteration as nat, MAX_ITERATIONS as nat);
            lemma_bitrate_cap_limit();
        }
        self.bitrate = adjust_bitrate(self.bitrate, size_bytes, self.target_size_bytes);
        self.iteration = self.iteration + 1;
        self.phase = Phase::AwaitingPass1;
        None
    }

    /// Reports that the output file could not be measured after a pass that
    /// looked successful: an encoder inconsistency, fatal at once.
    pub fn on_size_query_failed(&self) -> (r: Outcome)
        ensures
            r == Outcome::Failed(FatalError::SizeQueryFailed),
    {
        Outcome::Failed(FatalError::SizeQueryFailed)
    }
}

/// Law: a measurement within tolerance ends the run at once: the step reports
/// convergence with the attempt count and the measured size, and the state is
/// left as it was.
pub proof fn lemma_convergence_stops_run(pre: Controller, size_bytes: u64)
    requires
        pre.wf(),
        within_tolerance(size_bytes as int, pre.target_size_bytes as int, pre.tolerance_bytes as int),
    ensures
        size_outcome(pre, size_bytes) == Some(
            Outcome::Converged {
                iterations_used: (pre.iteration + 1) as u64,
                final_size_bytes: size_bytes,
            },
        ),
        size_step(pre, size_bytes) == pre,
{
}

/// Law: a measurement outside tolerance either starts the next attempt, with
/// the attempt count exactly one higher and the bitrate adjusted, or, exactly
/// when the attempt limit is reached, ends the run as a best-effort result —
/// never as an error.
pub proof fn lemma_iteration_limit_stops_run(pre: Controller, size_bytes: u64)
    requires
        pre.wf(),
        !within_tolerance(
            size_bytes as int,
            pre.target_size_bytes as int,
            pre.tolerance_bytes as int,
        ),
    ensures
        pre.iteration + 1 == MAX_ITERATIONS ==> size_outcome(pre, size_bytes) == Some(
            Outcome::IterationLimitReached { final_size_bytes: size_bytes },
        ),
        pre.iteration + 1 < MAX_ITERATIONS ==> size_outcome(pre, size_bytes) is None && size_step(
            pre,
            size_bytes,
        ).iteration == pre.iteration + 1 && size_step(pre, size_bytes).phase is AwaitingPass1
            && size_step(pre, size_bytes).bitrate == adjusted_bitrate(
            pre.bitrate as int,
            size_bytes as int,
            pre.target_size_bytes as int,
        ),
{
    if pre.iteration + 1 < MAX_ITERATIONS {
        lemma_adjustment_bounds(pre.bitrate as int, size_bytes as int, pre.target_size_bytes as int);
        lemma_bitrate_cap_monotone(pre.iteration as nat, MAX_ITERATIONS as nat);
        lemma_bitrate_cap_limit();
    }
}

/// Law: a failed pass aborts the run at once: the step reports the failure
/// with the number of the pass that failed and its diagnostics, and the
/// controller does not advance — after a failed first pass it still awaits
/// the first pass, so no second pass and no measurement is ever requested.
pub proof fn lemma_failed_pass_short_circuits(pre: Controller, diagnostics: String)
    requires
        pre.wf(),
        !(pre.phase is AwaitingSize),
    ensures
        pass_outcome(pre, false, diagnostics) == Some(
            Outcome::Failed(
                FatalError::EncodeFailed { pass_number: pass_number_of(pre.phase), diagnostics },
            ),
        ),
        pass_step(pre, false) == pre,
        pre.phase is AwaitingPass1 ==> pass_number_of(pre.phase) == 1,
{
}

} // verus!
