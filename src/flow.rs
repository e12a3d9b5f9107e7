use vstd::prelude::*;

verus! {

/// The steps that touch the outside world once a plan is made, in order.
#[derive(Clone, Copy, Debug, PartialEq, Eq, Structural)]
pub enum Step {
    /// Create the save directory and its parents.
    CreateDir,
    /// Create the image file and copy the fetched bytes into it.
    WriteFile,
    /// Hand the file's path to the desktop-picture setter.
    SetWallpaper,
}

/// What the driver does after a step.
#[derive(Clone, Copy, Debug, PartialEq, Eq, Structural)]
pub enum Action {
    /// Go on with the given step.
    Run(Step),
    /// Report the failure of the last step, then go on with the given step.
    WarnThenRun(Step),
    /// Report the failure of the last step and end the run as failed.
    Abort,
    /// End the run as successful.
    Finish,
    /// Report the failure of the last step and end the run as successful.
    WarnThenFinish,
}

impl Action {
    /// Whether the failure of the last step is reported.
    pub open spec fn reports(self) -> bool {
        match self {
            Action::WarnThenRun(_) | Action::Abort | Action::WarnThenFinish => true,
            _ => false,
        }
    }
}

/// The step a run starts with.
pub open spec fn spec_first_step() -> Step {
    Step::CreateDir
}

/// The decision after `step` succeeded or failed. A directory that could not be
/// created is reported and the write is still tried; a failed write ends the
/// run; a failed setter is reported and the run still ends normally.
pub open spec fn spec_next_action(step: Step, succeeded: bool) -> Action {
    match step {
        Step::CreateDir => if succeeded {
            Action::Run(Step::WriteFile)
        } else {
            Action::WarnThenRun(Step::WriteFile)
        },
        Step::WriteFile => if succeeded {
            Action::Run(Step::SetWallpaper)
        } else {
            Action::Abort
        },
        Step::SetWallpaper => if succeeded {
            Action::Finish
        } else {
            Action::WarnThenFinish
        },
    }
}

/// The step a run starts with.
pub fn first_step() -> (r: Step)
    ensures
        r == spec_first_step(),
{
    Step::CreateDir
}

/// Decides what follows `step`, given whether it succeeded.
pub fn next_action(step: Step, succeeded: bool) -> (r: Action)
    ensures
        r == spec_next_action(step, succeeded),
{
    match step {
        Step::CreateDir => if succeeded {
            Action::Run(Step::WriteFile)
        } else {
            Action::WarnThenRun(Step::WriteFile)
        },
        Step::WriteFile => if succeeded {
            Action::Run(Step::SetWallpaper)
        } else {
            Action::Abort
        },
        Step::SetWallpaper => if succeeded {
            Action::Finish
        } else {
            Action::WarnThenFinish
        },
    }
}

/// No step fails silently: every failure is reported, and a failure is never
/// followed by a plain continuation or a plain success.
pub proof fn failures_are_reported(step: Step)
    ensures
        spec_next_action(step, false).reports(),
        spec_next_action(step, false) != Action::Finish,
{
}

/// Whatever became of the directory, the write is attempted next, and a
/// directory that could not be created is reported.
pub proof fn directory_step_leads_to_write(succeeded: bool)
    ensures
        spec_next_action(Step::CreateDir, succeeded) == Action::Run(Step::WriteFile)
            || spec_next_action(Step::CreateDir, succeeded) == Action::WarnThenRun(Step::WriteFile),
        spec_next_action(Step::CreateDir, succeeded).reports() <==> !succeeded,
{
}

/// Only a failed write ends the run as failed.
pub proof fn only_the_write_is_fatal(step: Step, succeeded: bool)
    ensures
        spec_next_action(step, succeeded) == Action::Abort <==> (step == Step::WriteFile && !succeeded),
{
}

} // verus!
