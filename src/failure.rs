use vstd::prelude::*;

verus! {

/// Every way an invocation can end abnormally. Each one is terminal to the
/// current invocation; a later invocation starts afresh from the marker.
#[derive(Debug, Clone, Copy, PartialEq, Eq, Structural)]
pub enum Failure {
    /// No payload argument was supplied.
    MissingArgument,
    /// The payload is not an object with numeric `x` and `y` fields.
    MalformedPayload,
    /// Whether the marker exists could not be determined.
    StateProbeFailure,
    /// A discovered companion could not be terminated; the marker is kept.
    ProcessKillFailure,
    /// The marker could not be created after the launch was issued.
    MarkerWriteFailure,
    /// The marker could not be removed after the companion was dealt with.
    MarkerDeleteFailure,
    /// The companion could not be started.
    LaunchFailure,
}

/// The exit status that reports `f`: distinct and non-zero for each kind.
pub open spec fn failure_code(f: Failure) -> int {
    match f {
        Failure::MissingArgument => 2,
        Failure::MalformedPayload => 3,
        Failure::StateProbeFailure => 4,
        Failure::ProcessKillFailure => 5,
        Failure::MarkerWriteFailure => 6,
        Failure::MarkerDeleteFailure => 7,
        Failure::LaunchFailure => 8,
    }
}

/// The diagnostic written for `f`.
pub open spec fn failure_message(f: Failure) -> Seq<char> {
    match f {
        Failure::MissingArgument =>
            "expected exactly one argument holding the pointer position as JSON"@,
        Failure::MalformedPayload =>
            "expected an argument of the form '{\"x\": 123.456, \"y\": 789.012}'"@,
        Failure::StateProbeFailure => "could not check whether the marker file exists"@,
        Failure::ProcessKillFailure => "failed to terminate the companion process"@,
        Failure::MarkerWriteFailure => "failed to create the marker file"@,
        Failure::MarkerDeleteFailure => "failed to remove the marker file"@,
        Failure::LaunchFailure => "failed to launch the companion process"@,
    }
}

impl Failure {
    /// The process exit status for this failure.
    pub fn exit_code(&self) -> (r: i32)
        ensures
            r == failure_code(*self),
            r != 0,
    {
        match self {
            Failure::MissingArgument => 2,
            Failure::MalformedPayload => 3,
            Failure::StateProbeFailure => 4,
            Failure::ProcessKillFailure => 5,
            Failure::MarkerWriteFailure => 6,
            Failure::MarkerDeleteFailure => 7,
            Failure::LaunchFailure => 8,
        }
    }

    /// The human-readable diagnostic for this failure.
    pub fn message(&self) -> (r: String)
        ensures
            r@ == failure_message(*self),
    {
        match self {
            Failure::MissingArgument =>
                "expected exactly one argument holding the pointer position as JSON".to_owned(),
            Failure::MalformedPayload =>
                "expected an argument of the form '{\"x\": 123.456, \"y\": 789.012}'".to_owned(),
            Failure::StateProbeFailure => "could not check whether the marker file exists".to_owned(),
            Failure::ProcessKillFailure => "failed to terminate the companion process".to_owned(),
            Failure::MarkerWriteFailure => "failed to create the marker file".to_owned(),
            Failure::MarkerDeleteFailure => "failed to remove the marker file".to_owned(),
            Failure::LaunchFailure => "failed to launch the companion process".to_owned(),
        }
    }
}

} // verus!
