use crate::installer::commands::{command_error, command_error_spec, CommandModel, PlanStep, PlanStepModel};
use crate::installer::disk_manager::{
    delete_partition, delete_partition_spec, is_partition_of, partition_belongs_to_managed_disks, PartitionInfo,
};
use crate::text::{opt_view, owned, trim, trimmed};
use vstd::prelude::*;

verus! {

/// What became of a command when it was run.
#[derive(Clone, Debug, PartialEq, Eq)]
pub enum CommandOutcome {
    /// It exited with success.
    Succeeded,
    /// It exited with failure: its exit status as printed, and what it wrote
    /// to standard error.
    Exited { status: String, stderr: String },
    /// It could not be started: the system's error.
    NotStarted(String),
}

/// What became of a plan step when it was carried out.
#[derive(Debug, PartialEq, Eq)]
pub enum StepOutcome {
    /// What became of the step's command; `Succeeded` for a step that has
    /// none and did its work.
    Command(CommandOutcome),
    /// A file operation, or writing to a command's input, failed.
    WriteFailed(String),
    /// The command's input could not be opened.
    NoInput,
    /// Waiting for the command to end failed.
    WaitFailed(String),
    /// For a delete step: the partition listing, when it was read (it is
    /// read only for a partition of the managed disks), and what became of
    /// the delete command.
    Deletion { listing: Result<Vec<PartitionInfo>, String>, command: CommandOutcome },
}

/// The error of a command run as a `Run` step, if it failed.
pub open spec fn command_failure(c: CommandModel, o: CommandOutcome) -> Option<Seq<char>> {
    match o {
        CommandOutcome::Succeeded => None,
        CommandOutcome::Exited { status, stderr } => Some(command_error_spec(c.context, stderr@, status@)),
        CommandOutcome::NotStarted(e) => Some(c.context + ": "@ + e@),
    }
}

/// The error of a delete step: the partition must be one of the managed
/// disks' partitions, the listing must have been read, and the command that
/// `delete_partition` gives from it must succeed.
pub open spec fn delete_failure(
    path: Seq<char>,
    managed: Seq<String>,
    listing: Result<Vec<PartitionInfo>, String>,
    command: CommandOutcome,
) -> Option<Seq<char>> {
    if !(exists|i: int| 0 <= i < managed.len() && #[trigger] is_partition_of(path, managed[i]@)) {
        Some("Partition "@ + path + " is outside the selected install/home disks."@)
    } else {
        match listing {
            Err(e) => Some(e@),
            Ok(l) => match delete_partition_spec(path, managed, l@) {
                Err(e) => Some(e),
                Ok(c) => command_failure(c, command),
            },
        }
    }
}

/// The error with which a step ends its plan, or `None` when the plan goes
/// on. Progress reports, attempts and ignored removals never end a plan; an
/// outcome that a step cannot have ends nothing.
pub open spec fn step_failure_spec(step: PlanStepModel, outcome: StepOutcome) -> Option<Seq<char>> {
    match step {
        PlanStepModel::Progress(_) => None,
        PlanStepModel::Attempt(_) => None,
        PlanStepModel::RemoveDirIgnoringFailure(_) => None,
        PlanStepModel::Run(c) => match outcome {
            StepOutcome::Command(o) => command_failure(c, o),
            _ => None,
        },
        PlanStepModel::RunShowingStderr(c) => match outcome {
            StepOutcome::Command(CommandOutcome::NotStarted(e)) => Some(c.context + ": "@ + e@),
            StepOutcome::Command(CommandOutcome::Exited { stderr, .. }) => Some(c.context + ": "@ + stderr@),
            _ => None,
        },
        PlanStepModel::CaptureToFile { command, write_context, .. } => match outcome {
            StepOutcome::Command(CommandOutcome::NotStarted(e)) => Some(command.context + ": "@ + e@),
            StepOutcome::Command(CommandOutcome::Exited { stderr, .. }) => Some(command.context + ": "@ + stderr@),
            StepOutcome::WriteFailed(e) => Some(write_context + ": "@ + e@),
            _ => None,
        },
        PlanStepModel::WriteFile { context, .. } => file_failure(context, outcome),
        PlanStepModel::CreateDirAll { context, .. } => file_failure(context, outcome),
        PlanStepModel::MakeExecutable { context, .. } => file_failure(context, outcome),
        PlanStepModel::RemoveDirIfExists { context, .. } => file_failure(context, outcome),
        PlanStepModel::RunTrimmedStderr { command, spawn_context } => match outcome {
            StepOutcome::Command(CommandOutcome::NotStarted(e)) => Some(spawn_context + ": "@ + e@),
            StepOutcome::Command(CommandOutcome::Exited { stderr, .. }) => Some(command.context + ": "@ + trim(stderr@)),
            _ => None,
        },
        PlanStepModel::Feed(f) => match outcome {
            StepOutcome::Command(CommandOutcome::NotStarted(e)) => Some(f.spawn_context + ": "@ + e@),
            StepOutcome::NoInput => Some(f.stdin_error),
            StepOutcome::WriteFailed(e) => Some(f.write_context + ": "@ + e@),
            StepOutcome::WaitFailed(e) => Some(f.wait_context + ": "@ + e@),
            StepOutcome::Command(CommandOutcome::Exited { stderr, .. }) => if trim(stderr@).len() == 0
                && f.empty_failure is Some {
                f.empty_failure
            } else {
                Some(f.failure_prefix + ": "@ + trim(stderr@))
            },
            _ => None,
        },
        PlanStepModel::DeletePartition { path, managed_disks } => match outcome {
            StepOutcome::Deletion { listing, command } => delete_failure(path, managed_disks, listing, command),
            _ => None,
        },
    }
}

pub open spec fn file_failure(context: Seq<char>, outcome: StepOutcome) -> Option<Seq<char>> {
    match outcome {
        StepOutcome::WriteFailed(e) => Some(context + ": "@ + e@),
        _ => None,
    }
}

/// How a plan ends, given what became of each step: with the error of the
/// first step that fails, or `Ok` when none does.
pub open spec fn plan_outcome(steps: Seq<PlanStepModel>, outcomes: Seq<StepOutcome>) -> Result<(), Seq<char>>
    decreases steps.len(),
{
    if steps.len() == 0 || outcomes.len() != steps.len() {
        Ok(())
    } else {
        match plan_outcome(steps.drop_last(), outcomes.drop_last()) {
            Err(e) => Err(e),
            Ok(()) => match step_failure_spec(steps.last(), outcomes.last()) {
                Some(e) => Err(e),
                None => Ok(()),
            },
        }
    }
}

fn prefixed(context: &str, e: &str) -> (r: String)
    ensures
        r@ == context@ + ": "@ + e@,
{
    owned(context).concat(": ").concat(e)
}

fn command_failure_exec(context: &str, o: &CommandOutcome) -> (r: Option<String>)
    ensures
        opt_view(r) == command_failure(CommandModel { program: Seq::empty(), args: Seq::empty(), context: context@ }, *o),
{
    match o {
        CommandOutcome::Succeeded => None,
        CommandOutcome::Exited { status, stderr } => Some(command_error(context, stderr.as_str(), status.as_str())),
        CommandOutcome::NotStarted(e) => Some(prefixed(context, e.as_str())),
    }
}

/// The error with which `step` ends its plan after `outcome`, or `None` when
/// the plan goes on.
pub fn step_failure(step: &PlanStep, outcome: &StepOutcome) -> (r: Option<String>)
    ensures
        opt_view(r) == step_failure_spec(step@, *outcome),
{
    match step {
        PlanStep::Progress(_) => None,
        PlanStep::Attempt(_) => None,
        PlanStep::RemoveDirIgnoringFailure(_) => None,
        PlanStep::Run(c) => match outcome {
            StepOutcome::Command(o) => command_failure_exec(c.context.as_str(), o),
            _ => None,
        },
        PlanStep::RunShowingStderr(c) => match outcome {
            StepOutcome::Command(CommandOutcome::NotStarted(e)) => Some(prefixed(c.context.as_str(), e.as_str())),
            StepOutcome::Command(CommandOutcome::Exited { stderr, .. }) => Some(prefixed(c.context.as_str(), stderr.as_str())),
            _ => None,
        },
        PlanStep::CaptureToFile { command, write_context, .. } => match outcome {
            StepOutcome::Command(CommandOutcome::NotStarted(e)) => Some(prefixed(command.context.as_str(), e.as_str())),
            StepOutcome::Command(CommandOutcome::Exited { stderr, .. }) => Some(
                prefixed(command.context.as_str(), stderr.as_str()),
            ),
            StepOutcome::WriteFailed(e) => Some(prefixed(write_context.as_str(), e.as_str())),
            _ => None,
        },
        PlanStep::WriteFile { context, .. } => file_failure_exec(context.as_str(), outcome),
        PlanStep::CreateDirAll { context, .. } => file_failure_exec(context.as_str(), outcome),
        PlanStep::MakeExecutable { context, .. } => file_failure_exec(context.as_str(), outcome),
        PlanStep::RemoveDirIfExists { context, .. } => file_failure_exec(context.as_str(), outcome),
        PlanStep::RunTrimmedStderr { command, spawn_context } => match outcome {
            StepOutcome::Command(CommandOutcome::NotStarted(e)) => Some(prefixed(spawn_context.as_str(), e.as_str())),
            StepOutcome::Command(CommandOutcome::Exited { stderr, .. }) => {
                let t = trimmed(stderr.as_str());
                Some(prefixed(command.context.as_str(), t.as_str()))
            },
            _ => None,
        },
        PlanStep::Feed(f) => match outcome {
            StepOutcome::Command(CommandOutcome::NotStarted(e)) => Some(prefixed(f.spawn_context.as_str(), e.as_str())),
            StepOutcome::NoInput => Some(f.stdin_error.clone()),
            StepOutcome::WriteFailed(e) => Some(prefixed(f.write_context.as_str(), e.as_str())),
            StepOutcome::WaitFailed(e) => Some(prefixed(f.wait_context.as_str(), e.as_str())),
            StepOutcome::Command(CommandOutcome::Exited { stderr, .. }) => {
                let t = trimmed(stderr.as_str());
                if t.as_str().unicode_len() == 0 && f.empty_failure.is_some() {
                    match &f.empty_failure {
                        Some(m) => Some(m.clone()),
                        None => None,
                    }
                } else {
                    Some(prefixed(f.failure_prefix.as_str(), t.as_str()))
                }
            },
            _ => None,
        },
        PlanStep::DeletePartition { path, managed_disks } => match outcome {
            StepOutcome::Deletion { listing, command } => {
                if !partition_belongs_to_managed_disks(path.as_str(), managed_disks.as_slice()) {
                    Some(
                        "Partition ".to_string().concat(path.as_str()).concat(" is outside the selected install/home disks."),
                    )
                } else {
                    match listing {
                        Err(e) => Some(e.clone()),
                        Ok(l) => match delete_partition(path.as_str(), managed_disks.as_slice(), l.as_slice()) {
                            Err(e) => Some(e),
                            Ok(c) => command_failure_exec(c.context.as_str(), command),
                        },
                    }
                }
            },
            _ => None,
        },
    }
}

fn file_failure_exec(context: &str, outcome: &StepOutcome) -> (r: Option<String>)
    ensures
        opt_view(r) == file_failure(context@, *outcome),
{
    match outcome {
        StepOutcome::WriteFailed(e) => Some(prefixed(context, e.as_str())),
        _ => None,
    }
}

proof fn lemma_plan_outcome_same_outcomes(steps: Seq<PlanStepModel>, o1: Seq<StepOutcome>, o2: Seq<StepOutcome>)
    requires
        o1 =~= o2,
    ensures
        plan_outcome(steps, o1) == plan_outcome(steps, o2),
{
}

/// A plan ends at its first failing step, with that step's error: what the
/// steps after it would have done makes no difference.
pub proof fn law_plan_ends_at_first_failure(
    steps: Seq<PlanStepModel>,
    o1: Seq<StepOutcome>,
    o2: Seq<StepOutcome>,
    i: int,
)
    requires
        steps.len() == o1.len(),
        steps.len() == o2.len(),
        0 <= i < steps.len(),
        forall|k: int| 0 <= k <= i ==> o1[k] == o2[k],
        step_failure_spec(steps[i], o1[i]) is Some,
        forall|k: int| 0 <= k < i ==> step_failure_spec(#[trigger] steps[k], o1[k]) is None,
    ensures
        plan_outcome(steps, o1) == plan_outcome(steps, o2),
        plan_outcome(steps, o1) == Err::<(), Seq<char>>(step_failure_spec(steps[i], o1[i])->Some_0),
    decreases steps.len(),
{
    if steps.len() - 1 > i {
        law_plan_ends_at_first_failure(steps.drop_last(), o1.drop_last(), o2.drop_last(), i);
    } else {
        lemma_no_failure_before(steps.drop_last(), o1.drop_last());
        lemma_plan_outcome_same_outcomes(steps.drop_last(), o1.drop_last(), o2.drop_last());
    }
}

proof fn lemma_no_failure_before(steps: Seq<PlanStepModel>, o: Seq<StepOutcome>)
    requires
        steps.len() == o.len(),
        forall|k: int| 0 <= k < steps.len() ==> step_failure_spec(#[trigger] steps[k], o[k]) is None,
    ensures
        plan_outcome(steps, o) == Ok::<(), Seq<char>>(()),
    decreases steps.len(),
{
    if steps.len() > 0 {
        let s = steps.drop_last();
        let p = o.drop_last();
        assert forall|k: int| 0 <= k < s.len() implies step_failure_spec(#[trigger] s[k], p[k]) is None by {
            assert(steps[k] == s[k]);
        }
        lemma_no_failure_before(s, p);
        assert(steps[steps.len() - 1] == steps.last());
    }
}

} // verus!
