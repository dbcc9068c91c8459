use vstd::prelude::*;

verus! {

/// What went wrong inside the toolkit.
#[derive(Debug, Copy, Clone, PartialEq, Eq, Structural)]
pub enum FltkErrorKind {
    /// The event loop could not start or ended abnormally.
    FailedToRun,
    /// The global UI lock could not be taken.
    FailedToLock,
}

/// The error type of the binding layer.
#[derive(Debug, Copy, Clone, PartialEq, Eq, Structural)]
pub enum FltkError {
    /// A failure reported by the native toolkit.
    Internal(FltkErrorKind),
}

/// Maps a native status code (zero for success) to a result, reporting
/// `kind` on any other code.
pub fn status_result(code: i32, kind: FltkErrorKind) -> (r: Result<(), FltkError>)
    ensures
        code == 0 ==> r == Ok::<(), FltkError>(()),
        code != 0 ==> r == Err::<(), FltkError>(FltkError::Internal(kind)),
{
    if code == 0 {
        Ok(())
    } else {
        Err(FltkError::Internal(kind))
    }
}

/// Interprets the status returned by the native lock call.
pub fn lock_status(code: i32) -> (r: Result<(), FltkError>)
    ensures
        code == 0 ==> r == Ok::<(), FltkError>(()),
        code != 0 ==> r == Err::<(), FltkError>(FltkError::Internal(FltkErrorKind::FailedToLock)),
{
    status_result(code, FltkErrorKind::FailedToLock)
}

/// Interprets the status returned by the native event loop.
pub fn run_status(code: i32) -> (r: Result<(), FltkError>)
    ensures
        code == 0 ==> r == Ok::<(), FltkError>(()),
        code != 0 ==> r == Err::<(), FltkError>(FltkError::Internal(FltkErrorKind::FailedToRun)),
{
    status_result(code, FltkErrorKind::FailedToRun)
}

} // verus!
