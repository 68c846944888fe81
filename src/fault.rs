use vstd::prelude::*;

verus! {

/// The kinds of I/O failure that the harness and the responder tell apart.
#[derive(Clone, Copy, Debug, PartialEq, Eq, Structural)]
pub enum IoFault {
    /// The operation could not complete without blocking.
    WouldBlock,
    /// The peer reset the connection.
    ConnectionReset,
    /// Any other failure.
    Other,
}

/// Why a result that should have been "would block" was not.
#[derive(Clone, Copy, Debug, PartialEq, Eq, Structural)]
pub enum BlockCheckError {
    /// The operation succeeded.
    UnexpectedOk,
    /// The operation failed, but not by blocking.
    UnexpectedError(IoFault),
}

/// Checks that a non-blocking operation reported that it would block.
pub fn assert_would_block<T>(result: &Result<T, IoFault>) -> (r: Result<(), BlockCheckError>)
    ensures
        match *result {
            Ok(_) => r == Err::<(), BlockCheckError>(BlockCheckError::UnexpectedOk),
            Err(k) => if k == IoFault::WouldBlock {
                r == Ok::<(), BlockCheckError>(())
            } else {
                r == Err::<(), BlockCheckError>(BlockCheckError::UnexpectedError(k))
            },
        },
{
    match result {
        Ok(_) => Err(BlockCheckError::UnexpectedOk),
        Err(IoFault::WouldBlock) => Ok(()),
        Err(k) => Err(BlockCheckError::UnexpectedError(*k)),
    }
}

} // verus!
