//! Flash-loan atomicity enforcement.
//!
//! A pool extends credit for the lifetime of one atomic batch of operations:
//! a borrow releases funds and then inspects the rest of the pending batch to
//! prove that a well-formed repay, addressed to the same accounts, stands at
//! the batch's end; the repay re-derives the amount owed from the batch's own
//! borrow operation and settles it. Any failed check aborts the whole batch,
//! so a loan is either fully extended and repaid within one batch or never
//! happened.
//!
//! The batch is seen through [`batch::BatchView`], a read-only projection of
//! the executing batch supplied by the outer execution engine. The transfer
//! mechanism is modelled at its interface in [`token`]; the two entry points
//! live in [`handlers`], and the laws that relate them — the round trip of a
//! borrow-and-repay pair above all — are proved in [`laws`].

pub mod batch;
pub mod errors;
pub mod handlers;
pub mod laws;
pub mod token;
