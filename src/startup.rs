use vstd::prelude::*;
use crate::command::{activation_command, activation_spec, ExitOutcome, Invocation};

verus! {

/// What to do before serving.
pub enum StartupStep {
    /// Run this command to create the device identity, then serve if it succeeds.
    Activate(Invocation),
    /// The identity directory is there: serve at once.
    Serve,
}

/// Why the process must stop before it serves.
#[derive(PartialEq, Eq, Structural, Clone, Copy, Debug)]
pub enum StartupError {
    /// The activation tool could not be started.
    ActivationLaunchFailed,
    /// The activation tool exited with a status other than zero.
    ActivationFailed,
}

/// Decides whether the identity in `dir` has to be created first. An existing
/// directory is taken as it is: its contents are not checked.
pub fn plan_startup(dir: &str, dir_present: bool) -> (r: StartupStep)
    ensures
        dir_present <==> r is Serve,
        !dir_present ==> (r matches StartupStep::Activate(inv) && inv@ == activation_spec(dir@)),
{
    if dir_present {
        StartupStep::Serve
    } else {
        StartupStep::Activate(activation_command(dir))
    }
}

/// Judges the run of the activation tool: serving may start only after it
/// exited with status zero.
pub fn finish_activation(outcome: ExitOutcome) -> (r: Result<(), StartupError>)
    ensures
        r is Ok <==> outcome == (ExitOutcome::Exited { success: true }),
        outcome is LaunchFailed ==> r == Err::<(), StartupError>(StartupError::ActivationLaunchFailed),
        outcome == (ExitOutcome::Exited { success: false }) ==> r == Err::<(), StartupError>(
            StartupError::ActivationFailed,
        ),
{
    match outcome {
        ExitOutcome::LaunchFailed => Err(StartupError::ActivationLaunchFailed),
        ExitOutcome::Exited { success } => {
            if success {
                Ok(())
            } else {
                Err(StartupError::ActivationFailed)
            }
        },
    }
}

} // verus!
