use crate::text::{opt_view, owned, to_chars, trim, trim_bounds, views};
use vstd::prelude::*;

verus! {

/// A program to run, with its arguments, and the text that prefixes its
/// error when it fails.
#[derive(Clone, Debug, PartialEq, Eq)]
pub struct CommandSpec {
    pub program: String,
    pub args: Vec<String>,
    pub context: String,
}

pub struct CommandModel {
    pub program: Seq<char>,
    pub args: Seq<Seq<char>>,
    pub context: Seq<char>,
}

impl View for CommandSpec {
    type V = CommandModel;

    open spec fn view(&self) -> CommandModel {
        CommandModel { program: self.program@, args: views(self.args@), context: self.context@ }
    }
}

/// A command that is given `input` on its standard input. When it fails,
/// its error is `failure_prefix: <stderr, trimmed>`, or `empty_failure`
/// when it printed nothing and `empty_failure` is set.
#[derive(Clone, Debug, PartialEq, Eq)]
pub struct FeedSpec {
    pub program: String,
    pub args: Vec<String>,
    pub input: String,
    pub spawn_context: String,
    pub stdin_error: String,
    pub write_context: String,
    pub wait_context: String,
    pub failure_prefix: String,
    pub empty_failure: Option<String>,
}

pub struct FeedModel {
    pub program: Seq<char>,
    pub args: Seq<Seq<char>>,
    pub input: Seq<char>,
    pub spawn_context: Seq<char>,
    pub stdin_error: Seq<char>,
    pub write_context: Seq<char>,
    pub wait_context: Seq<char>,
    pub failure_prefix: Seq<char>,
    pub empty_failure: Option<Seq<char>>,
}

impl View for FeedSpec {
    type V = FeedModel;

    open spec fn view(&self) -> FeedModel {
        FeedModel {
            program: self.program@,
            args: views(self.args@),
            input: self.input@,
            spawn_context: self.spawn_context@,
            stdin_error: self.stdin_error@,
            write_context: self.write_context@,
            wait_context: self.wait_context@,
            failure_prefix: self.failure_prefix@,
            empty_failure: opt_view(self.empty_failure),
        }
    }
}

/// One step of a plan that the installer carries out in order. A step that
/// fails ends the plan with its error, unless it says otherwise.
#[derive(Clone, Debug, PartialEq, Eq)]
pub enum PlanStep {
    /// Report progress to the user.
    Progress(String),
    /// Run a command; on failure the error is `command_error_spec` of its
    /// context and output.
    Run(CommandSpec),
    /// Run a command whose failure is ignored.
    Attempt(CommandSpec),
    /// Run a command; on failure the error is `context: <stderr>` as printed.
    RunShowingStderr(CommandSpec),
    /// Run a command and write what it prints to `path`; on failure the
    /// error is `context: <stderr>` as printed, and a failed write is
    /// `write_context: <error>`.
    CaptureToFile { command: CommandSpec, path: String, write_context: String },
    /// Write `contents` to `path`; a failure is `context: <error>`.
    WriteFile { path: String, contents: String, context: String },
    /// Create `path` and its parents; a failure is `context: <error>`.
    CreateDirAll { path: String, context: String },
    /// Give `path` mode 0755; a failure is `context: <error>`.
    MakeExecutable { path: String, context: String },
    /// Remove the directory tree at `path` if it exists; a failure is
    /// `context: <error>`.
    RemoveDirIfExists { path: String, context: String },
    /// Remove the directory tree at `path`, ignoring any failure.
    RemoveDirIgnoringFailure(String),
    /// Run a command; if it cannot be started the error is
    /// `spawn_context: <error>`, and if it fails, `context: <stderr,
    /// trimmed>`.
    RunTrimmedStderr { command: CommandSpec, spawn_context: String },
    /// Run a command fed with input.
    Feed(FeedSpec),
    /// Delete the partition at `path`, which must be one of the partitions
    /// of `managed_disks`: with the partition listing read when the step is
    /// reached, the command is the one `delete_partition` gives for them,
    /// and its error ends the plan.
    DeletePartition { path: String, managed_disks: Vec<String> },
}

pub enum PlanStepModel {
    Progress(Seq<char>),
    Run(CommandModel),
    Attempt(CommandModel),
    RunShowingStderr(CommandModel),
    CaptureToFile { command: CommandModel, path: Seq<char>, write_context: Seq<char> },
    WriteFile { path: Seq<char>, contents: Seq<char>, context: Seq<char> },
    CreateDirAll { path: Seq<char>, context: Seq<char> },
    MakeExecutable { path: Seq<char>, context: Seq<char> },
    RemoveDirIfExists { path: Seq<char>, context: Seq<char> },
    RemoveDirIgnoringFailure(Seq<char>),
    RunTrimmedStderr { command: CommandModel, spawn_context: Seq<char> },
    Feed(FeedModel),
    DeletePartition { path: Seq<char>, managed_disks: Seq<String> },
}

impl View for PlanStep {
    type V = PlanStepModel;

    open spec fn view(&self) -> PlanStepModel {
        match self {
            PlanStep::Progress(m) => PlanStepModel::Progress(m@),
            PlanStep::Run(c) => PlanStepModel::Run(c@),
            PlanStep::Attempt(c) => PlanStepModel::Attempt(c@),
            PlanStep::RunShowingStderr(c) => PlanStepModel::RunShowingStderr(c@),
            PlanStep::CaptureToFile { command, path, write_context } => PlanStepModel::CaptureToFile {
                command: command@,
                path: path@,
                write_context: write_context@,
            },
            PlanStep::WriteFile { path, contents, context } => PlanStepModel::WriteFile {
                path: path@,
                contents: contents@,
                context: context@,
            },
            PlanStep::CreateDirAll { path, context } => PlanStepModel::CreateDirAll { path: path@, context: context@ },
            PlanStep::MakeExecutable { path, context } => PlanStepModel::MakeExecutable { path: path@, context: context@ },
            PlanStep::RemoveDirIfExists { path, context } => PlanStepModel::RemoveDirIfExists { path: path@, context: context@ },
            PlanStep::RemoveDirIgnoringFailure(p) => PlanStepModel::RemoveDirIgnoringFailure(p@),
            PlanStep::RunTrimmedStderr { command, spawn_context } => PlanStepModel::RunTrimmedStderr {
                command: command@,
                spawn_context: spawn_context@,
            },
            PlanStep::Feed(f) => PlanStepModel::Feed(f@),
            PlanStep::DeletePartition { path, managed_disks } => PlanStepModel::DeletePartition {
                path: path@,
                managed_disks: managed_disks@,
            },
        }
    }
}

pub open spec fn plan_view(v: Seq<PlanStep>) -> Seq<PlanStepModel> {
    v.map_values(|s: PlanStep| s@)
}

pub open spec fn cmd(program: Seq<char>, args: Seq<Seq<char>>, context: Seq<char>) -> CommandModel {
    CommandModel { program, args, context }
}

pub open spec fn run(program: Seq<char>, args: Seq<Seq<char>>, context: Seq<char>) -> PlanStepModel {
    PlanStepModel::Run(cmd(program, args, context))
}

pub open spec fn attempt(program: Seq<char>, args: Seq<Seq<char>>, context: Seq<char>) -> PlanStepModel {
    PlanStepModel::Attempt(cmd(program, args, context))
}

/// Owned copies of string slices.
pub fn to_strings(v: &[&str]) -> (r: Vec<String>)
    ensures
        views(r@) == v@.map_values(|s: &str| s@),
{
    let mut r: Vec<String> = Vec::new();
    let n = v.len();
    let mut i: usize = 0;
    while i < n
        invariant
            n == v@.len(),
            i <= n,
            views(r@) == v@.take(i as int).map_values(|s: &str| s@),
        decreases n - i,
    {
        let ghost prev = r@;
        let s = owned(v[i]);
        r.push(s);
        assert(r@ =~= prev.push(s));
        assert(views(r@) =~= views(prev).push(s@));
        assert(v@.take(i + 1) =~= v@.take(i as int).push(v@[i as int]));
        assert(views(r@) =~= v@.take(i + 1).map_values(|s: &str| s@));
        i = i + 1;
    }
    assert(v@.take(n as int) =~= v@);
    r
}

pub fn command(program: &str, args: Vec<String>, context: String) -> (r: CommandSpec)
    ensures
        r@ == cmd(program@, views(args@), context@),
{
    CommandSpec { program: owned(program), args, context }
}

/// Appends a step to a plan.
pub fn push_step(plan: &mut Vec<PlanStep>, step: PlanStep)
    ensures
        plan_view(final(plan)@) == plan_view(old(plan)@).push(step@),
{
    let ghost prev = plan@;
    plan.push(step);
    assert(plan@ =~= prev.push(step));
    assert(plan_view(plan@) =~= plan_view(prev).push(step@));
}

/// Appends the steps of `more` to `plan`.
pub fn append_steps(plan: &mut Vec<PlanStep>, more: Vec<PlanStep>)
    ensures
        plan_view(final(plan)@) == plan_view(old(plan)@) + plan_view(more@),
{
    let ghost prev = plan@;
    let ghost extra = more@;
    let mut more = more;
    plan.append(&mut more);
    assert(plan@ =~= prev + extra);
    assert(plan_view(plan@) =~= plan_view(prev) + plan_view(extra));
}

/// The error a failed command reports: its context and what it printed to
/// stderr, trimmed, or its exit status when it printed nothing.
pub open spec fn command_error_spec(context: Seq<char>, stderr: Seq<char>, status: Seq<char>) -> Seq<char> {
    if trim(stderr).len() == 0 {
        context + ": command exited with "@ + status
    } else {
        context + ": "@ + trim(stderr)
    }
}

pub fn command_error(context: &str, stderr: &str, status: &str) -> (r: String)
    ensures
        r@ == command_error_spec(context@, stderr@, status@),
{
    let chars = to_chars(stderr);
    assert(chars@.subrange(0, chars@.len() as int) =~= chars@);
    let (a, b) = trim_bounds(&chars, 0, chars.len());
    if a == b {
        owned(context).concat(": command exited with ").concat(status)
    } else {
        owned(context).concat(": ").concat(stderr.substring_char(a, b))
    }
}

} // verus!
verus! {

pub fn args1(a: &str) -> (r: Vec<String>)
    ensures
        views(r@) == seq![a@],
{
    let mut r: Vec<String> = Vec::new();
    r.push(owned(a));
    assert(views(r@) =~= seq![a@]);
    r
}

pub fn args2(a: &str, b: &str) -> (r: Vec<String>)
    ensures
        views(r@) == seq![a@, b@],
{
    let mut r: Vec<String> = Vec::new();
    r.push(owned(a));
    r.push(owned(b));
    assert(views(r@) =~= seq![a@, b@]);
    r
}

pub fn args3(a: &str, b: &str, c: &str) -> (r: Vec<String>)
    ensures
        views(r@) == seq![a@, b@, c@],
{
    let mut r: Vec<String> = Vec::new();
    r.push(owned(a));
    r.push(owned(b));
    r.push(owned(c));
    assert(views(r@) =~= seq![a@, b@, c@]);
    r
}

/// A step that runs `program` and ends the plan if it fails.
pub fn run_step(program: &str, args: Vec<String>, context: String) -> (r: PlanStep)
    ensures
        r@ == run(program@, views(args@), context@),
{
    PlanStep::Run(command(program, args, context))
}

/// A step that runs `program` and ignores its failure.
pub fn attempt_step(program: &str, args: Vec<String>, context: String) -> (r: PlanStep)
    ensures
        r@ == attempt(program@, views(args@), context@),
{
    PlanStep::Attempt(command(program, args, context))
}

} // verus!
verus! {

/// Appends an owned copy of `s`.
pub fn push_str(v: &mut Vec<String>, s: &str)
    ensures
        views(final(v)@) == views(old(v)@).push(s@),
{
    let ghost prev = v@;
    let o = owned(s);
    v.push(o);
    assert(v@ =~= prev.push(o));
    assert(views(v@) =~= views(prev).push(s@));
}

} // verus!
