use vstd::prelude::*;

verus! {

/// Failure reasons shared by the borrow and repay handlers.
///
/// Every check in this library is local and immediate: the first failed check
/// is surfaced verbatim to the outer engine, which rejects the whole batch.
#[derive(Clone, Copy, Debug, PartialEq, Eq, Structural)]
pub enum ProtocolError {
    /// The borrow is not the batch's first operation, or the paired
    /// operation's opcode tag is not the repay tag.
    InvalidIx,
    /// An introspection lookup was out of range.
    InvalidInstructionIndex,
    /// A borrow of a non-positive amount.
    InvalidAmount,
    /// The paying account holds less than the amount to move.
    NotEnoughFunds,
    /// A transfer was presented with an authority that does not speak for the
    /// paying account's holder.
    ProgramMismatch,
    /// The paired operation targets a different program.
    InvalidProgram,
    /// The paired operation does not name the borrower's asset account at the
    /// agreed position.
    InvalidBorrowerAta,
    /// The paired operation does not name the pool's asset account at the
    /// agreed position.
    InvalidProtocolAta,
    /// No repay operation follows the borrow in the batch.
    MissingRepayIx,
    /// The batch holds no readable borrow operation at its head.
    MissingBorrowIx,
    /// Crediting the receiving account would overflow its balance.
    Overflow,
}

} // verus!
