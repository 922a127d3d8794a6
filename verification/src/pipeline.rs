//! Decisions of the evaluation pipeline: the verdict on an executed
//! artifact, its one-line summary, and the control of the
//! generate-evaluate-retry loop. The evaluation itself, the sandbox and the
//! memory graph are run by the caller, which hands the outcomes in.
use vstd::prelude::*;
use vstd::string::*;
use crate::text::{decimal, decimal_text};

verus! {

/// The pipeline's verdict on a piece of code.
#[derive(Debug, Clone)]
pub enum PipelineVerdict {
    /// Constitutionally valid and confirmed by execution.
    Accepted,
    /// Execution failed or its results are not trustworthy.
    RejectedByReality { reason: String },
    /// The constitutional evaluation rejected the code.
    RejectedByConstitution { reason: String },
    /// Execution broke the sandbox's security or produced nothing.
    ExecutionFailed { reason: String },
    /// Code generation failed.
    GenerationFailed { reason: String },
    /// Every allowed attempt was rejected.
    RejectedAfterMaxAttempts { reason: String },
}

/// What the execution's reality vector says.
#[derive(Debug, Clone)]
pub enum RealityCheck {
    /// Execution produced no reality vector.
    Missing,
    /// The reality vector is trustworthy.
    Trustworthy,
    /// The reality vector is not trustworthy; `detail` gives its measures
    /// (`correctness=.., reproducibility=.., confidence=..`).
    Untrustworthy { detail: String },
}

/// The verdict for the given outcomes: security first, then the
/// constitution, then the execution's success, then its reality vector.
pub open spec fn verdict_for(
    secure: bool,
    constitutional: bool,
    explanation: Seq<char>,
    executed: bool,
    error_message: Option<Seq<char>>,
    reality: RealityCheck,
) -> (PipelineVerdictKind, Seq<char>) {
    if !secure {
        (PipelineVerdictKind::ExecutionFailed, "Security violation detected"@)
    } else if !constitutional {
        (PipelineVerdictKind::RejectedByConstitution, explanation)
    } else if !executed {
        (
            PipelineVerdictKind::RejectedByReality,
            match error_message {
                Some(m) => m,
                None => "Execution failed"@,
            },
        )
    } else {
        match reality {
            RealityCheck::Missing => (
                PipelineVerdictKind::ExecutionFailed,
                "No reality vector produced"@,
            ),
            RealityCheck::Untrustworthy { detail } => (
                PipelineVerdictKind::RejectedByReality,
                "Not trustworthy: "@ + detail@,
            ),
            RealityCheck::Trustworthy => (PipelineVerdictKind::Accepted, Seq::empty()),
        }
    }
}

/// The variant of a verdict, without its reason.
#[derive(Debug, Clone, Copy, PartialEq, Eq, Structural)]
pub enum PipelineVerdictKind {
    Accepted,
    RejectedByReality,
    RejectedByConstitution,
    ExecutionFailed,
    GenerationFailed,
    RejectedAfterMaxAttempts,
}

impl PipelineVerdict {
    /// The variant of this verdict.
    pub open spec fn kind(self) -> PipelineVerdictKind {
        match self {
            PipelineVerdict::Accepted => PipelineVerdictKind::Accepted,
            PipelineVerdict::RejectedByReality { .. } => PipelineVerdictKind::RejectedByReality,
            PipelineVerdict::RejectedByConstitution { .. } => {
                PipelineVerdictKind::RejectedByConstitution
            },
            PipelineVerdict::ExecutionFailed { .. } => PipelineVerdictKind::ExecutionFailed,
            PipelineVerdict::GenerationFailed { .. } => PipelineVerdictKind::GenerationFailed,
            PipelineVerdict::RejectedAfterMaxAttempts { .. } => {
                PipelineVerdictKind::RejectedAfterMaxAttempts
            },
        }
    }

    /// The reason this verdict carries; empty for `Accepted`.
    pub open spec fn reason(self) -> Seq<char> {
        match self {
            PipelineVerdict::Accepted => Seq::empty(),
            PipelineVerdict::RejectedByReality { reason } => reason@,
            PipelineVerdict::RejectedByConstitution { reason } => reason@,
            PipelineVerdict::ExecutionFailed { reason } => reason@,
            PipelineVerdict::GenerationFailed { reason } => reason@,
            PipelineVerdict::RejectedAfterMaxAttempts { reason } => reason@,
        }
    }

    /// The summary line of a run with this verdict.
    pub open spec fn summary_text(self, run_id: Seq<char>) -> Seq<char> {
        let tail = " (run="@ + run_id + ")"@;
        match self {
            PipelineVerdict::Accepted => "Pipeline: ACCEPTED"@ + tail,
            PipelineVerdict::RejectedByReality { reason } => "Pipeline: REJECTED BY REALITY \u{2014} "@
                + reason@ + tail,
            PipelineVerdict::RejectedByConstitution { reason } =>
                "Pipeline: REJECTED BY CONSTITUTION \u{2014} "@ + reason@ + tail,
            PipelineVerdict::ExecutionFailed { reason } => "Pipeline: EXECUTION FAILED \u{2014} "@
                + reason@ + tail,
            PipelineVerdict::GenerationFailed { reason } => "Pipeline: GENERATION FAILED \u{2014} "@
                + reason@ + tail,
            PipelineVerdict::RejectedAfterMaxAttempts { reason } =>
                "Pipeline: REJECTED AFTER MAX ATTEMPTS \u{2014} "@ + reason@ + tail,
        }
    }

    /// The code was accepted.
    pub fn is_accepted(&self) -> (b: bool)
        ensures
            b == (self.kind() == PipelineVerdictKind::Accepted),
    {
        match self {
            PipelineVerdict::Accepted => true,
            _ => false,
        }
    }

    /// The summary line of the run `run_id` with this verdict.
    pub fn summary(&self, run_id: &str) -> (t: String)
        ensures
            t@ == self.summary_text(run_id@),
    {
        let mut t = match self {
            PipelineVerdict::Accepted => String::from_str("Pipeline: ACCEPTED"),
            PipelineVerdict::RejectedByReality { reason } => {
                let mut t = String::from_str("Pipeline: REJECTED BY REALITY \u{2014} ");
                t.append(reason.as_str());
                t
            },
            PipelineVerdict::RejectedByConstitution { reason } => {
                let mut t = String::from_str("Pipeline: REJECTED BY CONSTITUTION \u{2014} ");
                t.append(reason.as_str());
                t
            },
            PipelineVerdict::ExecutionFailed { reason } => {
                let mut t = String::from_str("Pipeline: EXECUTION FAILED \u{2014} ");
                t.append(reason.as_str());
                t
            },
            PipelineVerdict::GenerationFailed { reason } => {
                let mut t = String::from_str("Pipeline: GENERATION FAILED \u{2014} ");
                t.append(reason.as_str());
                t
            },
            PipelineVerdict::RejectedAfterMaxAttempts { reason } => {
                let mut t = String::from_str("Pipeline: REJECTED AFTER MAX ATTEMPTS \u{2014} ");
                t.append(reason.as_str());
                t
            },
        };
        t.append(" (run=");
        t.append(run_id);
        t.append(")");
        t
    }
}

/// The checks go in a fixed order, each deciding whatever the later
/// outcomes are: an insecure execution fails; otherwise an unconstitutional
/// artifact is rejected with the evaluation's explanation; otherwise an
/// execution that did not succeed is rejected by reality with its own error
/// message (or "Execution failed"), whatever the reality vector says; and
/// only a secure, constitutional, successful execution with a trustworthy
/// reality vector is accepted.
pub proof fn law_verdict_precedence(
    secure: bool,
    constitutional: bool,
    explanation: Seq<char>,
    executed: bool,
    error_message: Option<Seq<char>>,
    reality: RealityCheck,
)
    ensures
        !secure ==> verdict_for(secure, constitutional, explanation, executed, error_message, reality)
            == (PipelineVerdictKind::ExecutionFailed, "Security violation detected"@),
        secure && !constitutional ==> verdict_for(
            secure,
            constitutional,
            explanation,
            executed,
            error_message,
            reality,
        ) == (PipelineVerdictKind::RejectedByConstitution, explanation),
        secure && constitutional && !executed ==> verdict_for(
            secure,
            constitutional,
            explanation,
            executed,
            error_message,
            reality,
        ) == (
            PipelineVerdictKind::RejectedByReality,
            match error_message {
                Some(m) => m,
                None => "Execution failed"@,
            },
        ),
        verdict_for(secure, constitutional, explanation, executed, error_message, reality).0
            == PipelineVerdictKind::Accepted <==> (secure && constitutional && executed
            && reality is Trustworthy),
{
}

/// Decides the verdict on executed code from the outcomes of the security
/// check, the constitutional evaluation and the execution.
pub fn determine_verdict(
    secure: bool,
    constitutional: bool,
    explanation: String,
    executed: bool,
    error_message: Option<String>,
    reality: RealityCheck,
) -> (v: PipelineVerdict)
    ensures
        (v.kind(), v.reason()) == verdict_for(
            secure,
            constitutional,
            explanation@,
            executed,
            match error_message {
                Some(m) => Some(m@),
                None => None,
            },
            reality,
        ),
        !secure ==> v.kind() == PipelineVerdictKind::ExecutionFailed && v.reason()
            == "Security violation detected"@,
        secure && !constitutional ==> v.kind() == PipelineVerdictKind::RejectedByConstitution
            && v.reason() == explanation@,
        secure && constitutional && !executed ==> v.kind() == PipelineVerdictKind::RejectedByReality
            && v.reason() == match error_message {
            Some(m) => m@,
            None => "Execution failed"@,
        },
        v.kind() == PipelineVerdictKind::Accepted <==> (secure && constitutional && executed
            && reality is Trustworthy),
{
    if !secure {
        return PipelineVerdict::ExecutionFailed {
            reason: String::from_str("Security violation detected"),
        };
    }
    if !constitutional {
        return PipelineVerdict::RejectedByConstitution { reason: explanation };
    }
    if !executed {
        let reason = match error_message {
            Some(m) => m,
            None => String::from_str("Execution failed"),
        };
        return PipelineVerdict::RejectedByReality { reason };
    }
    match reality {
        RealityCheck::Missing => PipelineVerdict::ExecutionFailed {
            reason: String::from_str("No reality vector produced"),
        },
        RealityCheck::Untrustworthy { detail } => {
            let mut reason = String::from_str("Not trustworthy: ");
            reason.append(detail.as_str());
            PipelineVerdict::RejectedByReality { reason }
        },
        RealityCheck::Trustworthy => PipelineVerdict::Accepted,
    }
}

/// Where the retry loop stands.
#[derive(Debug, Clone)]
pub enum IterationStep {
    /// Make the attempt with this number (counted from one).
    Attempt { number: usize },
    /// Stop after `total_iterations` attempts with this verdict.
    Finished { total_iterations: usize, verdict: PipelineVerdict },
}

/// Reason given when every allowed attempt was rejected.
pub open spec fn exhausted_reason(max_iterations: nat) -> Seq<char> {
    "Failed after "@ + decimal(max_iterations) + " attempts"@
}

/// The loop has run out of attempts.
pub open spec fn exhausted(step: IterationStep, max_iterations: usize) -> bool {
    match step {
        IterationStep::Finished { total_iterations, verdict } => {
            &&& total_iterations == max_iterations
            &&& verdict.kind() == PipelineVerdictKind::RejectedAfterMaxAttempts
            &&& verdict.reason() == exhausted_reason(max_iterations as nat)
        },
        IterationStep::Attempt { .. } => false,
    }
}

/// The verdict once every allowed attempt was rejected.
fn exhausted_step(max_iterations: usize) -> (step: IterationStep)
    ensures
        exhausted(step, max_iterations),
{
    let mut reason = String::from_str("Failed after ");
    let count = decimal_text(max_iterations);
    reason.append(count.as_str());
    reason.append(" attempts");
    IterationStep::Finished {
        total_iterations: max_iterations,
        verdict: PipelineVerdict::RejectedAfterMaxAttempts { reason },
    }
}

/// The first step of a loop allowed `max_iterations` attempts.
pub fn first_step(max_iterations: usize) -> (step: IterationStep)
    ensures
        max_iterations == 0 ==> exhausted(step, max_iterations),
        max_iterations > 0 ==> step == (IterationStep::Attempt { number: 1 }),
{
    if max_iterations == 0 {
        exhausted_step(max_iterations)
    } else {
        IterationStep::Attempt { number: 1 }
    }
}

/// The step after attempt `attempt` failed to generate code: stop, having
/// completed the attempts before it.
pub fn after_generation_failure(attempt: usize, reason: String) -> (step: IterationStep)
    requires
        attempt >= 1,
    ensures
        match step {
            IterationStep::Finished { total_iterations, verdict } => {
                &&& total_iterations == attempt - 1
                &&& verdict.kind() == PipelineVerdictKind::GenerationFailed
                &&& verdict.reason() == reason@
            },
            IterationStep::Attempt { .. } => false,
        },
{
    IterationStep::Finished {
        total_iterations: attempt - 1,
        verdict: PipelineVerdict::GenerationFailed { reason },
    }
}

/// The step after attempt `attempt` of at most `max_iterations` was
/// evaluated: stop on acceptance, try again while attempts remain,
/// otherwise stop as exhausted.
pub fn after_attempt(max_iterations: usize, attempt: usize, accepted: bool) -> (step: IterationStep)
    requires
        1 <= attempt <= max_iterations,
    ensures
        accepted ==> match step {
            IterationStep::Finished { total_iterations, verdict } => {
                &&& total_iterations == attempt
                &&& verdict.kind() == PipelineVerdictKind::Accepted
            },
            IterationStep::Attempt { .. } => false,
        },
        !accepted && attempt < max_iterations ==> step == (IterationStep::Attempt {
            number: (attempt + 1) as usize,
        }),
        !accepted && attempt == max_iterations ==> exhausted(step, max_iterations),
{
    if accepted {
        IterationStep::Finished { total_iterations: attempt, verdict: PipelineVerdict::Accepted }
    } else if attempt < max_iterations {
        IterationStep::Attempt { number: attempt + 1 }
    } else {
        exhausted_step(max_iterations)
    }
}

/// Identifier of attempt `attempt` for the function `name`:
/// `name-iter-attempt`.
pub fn attempt_label(name: &str, attempt: usize) -> (t: String)
    ensures
        t@ == name@ + "-iter-"@ + decimal(attempt as nat),
{
    let mut t = String::from_str(name);
    t.append("-iter-");
    let count = decimal_text(attempt);
    t.append(count.as_str());
    t
}

} // verus!
