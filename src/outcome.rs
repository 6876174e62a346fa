use vstd::prelude::*;

verus! {

/// How a command sent to the server ended.
#[derive(Clone, Copy, Debug, PartialEq, Eq, Structural)]
pub enum CommandOutcome {
    Succeeded,
    /// The server refused the command with this error code.
    CommandFailed(i32),
    /// The command failed before the server could answer it.
    OtherFailure,
}

/// A failure that a harness step passes on to its caller.
#[derive(Clone, Copy, Debug, PartialEq, Eq, Structural)]
pub enum FixtureError {
    CommandFailed(i32),
    OtherFailure,
}

/// Error code of dropping a user that does not exist.
pub const USER_NOT_FOUND: i32 = 11;

/// Error code of dropping a collection that does not exist.
pub const NAMESPACE_NOT_FOUND: i32 = 26;

/// `o` leaves the target in the wanted state: it succeeded, or failed with
/// the one code that says the state already held.
pub open spec fn tolerated(o: CommandOutcome, benign_code: i32) -> bool {
    o == CommandOutcome::Succeeded || o == CommandOutcome::CommandFailed(benign_code)
}

/// The error that reports the failed outcome `o`.
pub open spec fn failure_of(o: CommandOutcome) -> FixtureError {
    match o {
        CommandOutcome::CommandFailed(c) => FixtureError::CommandFailed(c),
        _ => FixtureError::OtherFailure,
    }
}

/// Success where `o` is tolerated, else the error that reports it.
pub fn accept_benign(o: CommandOutcome, benign_code: i32) -> (r: Result<(), FixtureError>)
    ensures
        r is Ok <==> tolerated(o, benign_code),
        r is Err ==> r->Err_0 == failure_of(o),
{
    match o {
        CommandOutcome::Succeeded => Ok(()),
        CommandOutcome::CommandFailed(c) => {
            if c == benign_code {
                Ok(())
            } else {
                Err(FixtureError::CommandFailed(c))
            }
        },
        CommandOutcome::OtherFailure => Err(FixtureError::OtherFailure),
    }
}

/// Success where `o` succeeded, else the error that reports it.
pub fn require_success(o: CommandOutcome) -> (r: Result<(), FixtureError>)
    ensures
        r is Ok <==> o == CommandOutcome::Succeeded,
        r is Err ==> r->Err_0 == failure_of(o),
{
    match o {
        CommandOutcome::Succeeded => Ok(()),
        CommandOutcome::CommandFailed(c) => Err(FixtureError::CommandFailed(c)),
        CommandOutcome::OtherFailure => Err(FixtureError::OtherFailure),
    }
}

} // verus!
