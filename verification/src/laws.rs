use vstd::prelude::*;

use crate::batch::{
    has_opcode, spec_borrow_op_data, spec_repay_op_data, AccountId, BatchView, AMOUNT_END,
    BORROW_OPCODE, DISCRIMINATOR_LEN, REPAY_OPCODE,
};
use crate::errors::ProtocolError;
use crate::handlers::{spec_borrow, spec_borrowed_amount, spec_repay, Loan};

verus! {

/// The amount field of a freshly encoded borrow operation reads back as the
/// amount that went in, and the buffer opens with the borrow opcode tag:
/// encoding and decoding of the wire layout round-trip.
pub proof fn lemma_borrow_op_data_round_trip(amount: u64)
    ensures
        spec_borrow_op_data(amount).len() == AMOUNT_END,
        has_opcode(spec_borrow_op_data(amount), BORROW_OPCODE),
        vstd::bytes::spec_u64_from_le_bytes(
            spec_borrow_op_data(amount).subrange(DISCRIMINATOR_LEN as int, AMOUNT_END as int),
        ) == amount,
{
    vstd::bytes::lemma_auto_spec_u64_to_from_le_bytes();
    assert(spec_borrow_op_data(amount).subrange(DISCRIMINATOR_LEN as int, AMOUNT_END as int)
        =~= vstd::bytes::spec_u64_to_le_bytes(amount));
    assert(spec_borrow_op_data(amount).subrange(0, DISCRIMINATOR_LEN as int)
        =~= vstd::bytes::spec_u64_to_le_bytes(BORROW_OPCODE));
}

/// The data buffer of a repay operation opens with the repay opcode tag.
pub proof fn lemma_repay_op_data_opcode()
    ensures
        has_opcode(spec_repay_op_data(), REPAY_OPCODE),
{
    vstd::bytes::lemma_auto_spec_u64_to_from_le_bytes();
    assert(spec_repay_op_data().subrange(0, DISCRIMINATOR_LEN as int)
        =~= vstd::bytes::spec_u64_to_le_bytes(REPAY_OPCODE));
}

/// Round trip of the pair: a borrow at the head of the batch, followed by a
/// well-shaped repay at its end, succeeds and settles exactly the borrowed
/// amount, so both asset accounts end where they began. The pool must cover
/// the loan and the borrower's balance must have room for it; past that, the
/// law holds for every positive amount.
pub proof fn lemma_borrow_repay_round_trip(
    batch: BatchView,
    program_id: AccountId,
    ctx: Loan,
    amount: u64,
)
    requires
        ctx.wf(),
        amount > 0,
        ctx.protocol_ata.balance >= amount,
        ctx.borrower_ata.balance + amount <= u64::MAX,
        batch.current_index == 0,
        batch.ops@.len() >= 2,
        batch.ops@[0].data@ == spec_borrow_op_data(amount),
        batch.ops@[batch.ops@.len() - 1].program_id == program_id,
        has_opcode(batch.ops@[batch.ops@.len() - 1].data@, REPAY_OPCODE),
        batch.ops@[batch.ops@.len() - 1].accounts@.len() > 4,
        batch.ops@[batch.ops@.len() - 1].accounts@[3] == ctx.borrower_ata.id,
        batch.ops@[batch.ops@.len() - 1].accounts@[4] == ctx.protocol_ata.id,
    ensures
        ({
            let borrowed = spec_borrow(batch, program_id, ctx, amount);
            &&& borrowed is Ok
            &&& match borrowed {
                Ok(mid) => spec_repay(batch, mid) == Ok::<Loan, ProtocolError>(ctx),
                Err(e) => false,
            }
        }),
{
    lemma_borrow_op_data_round_trip(amount);
}

/// A batch holding only the borrow, with no operation after it, is refused:
/// the repay is missing. Together with the borrow handler's own contract —
/// on any error the accounts are left untouched — this keeps every balance
/// unchanged.
pub proof fn lemma_lone_borrow_missing_repay(
    batch: BatchView,
    program_id: AccountId,
    ctx: Loan,
    amount: u64,
)
    requires
        ctx.wf(),
        amount > 0,
        ctx.protocol_ata.balance >= amount,
        ctx.borrower_ata.balance + amount <= u64::MAX,
        batch.current_index == 0,
        batch.ops@.len() == 1,
    ensures
        spec_borrow(batch, program_id, ctx, amount) == Err::<Loan, ProtocolError>(
            ProtocolError::MissingRepayIx,
        ),
{
}

/// A borrow that is not the batch's first operation is refused as
/// misplaced, whatever the rest of the batch looks like. The release
/// itself must be feasible, since the handler releases before it inspects.
pub proof fn lemma_misplaced_borrow_rejected(
    batch: BatchView,
    program_id: AccountId,
    ctx: Loan,
    amount: u64,
)
    requires
        ctx.wf(),
        amount > 0,
        ctx.protocol_ata.balance >= amount,
        ctx.borrower_ata.balance + amount <= u64::MAX,
        batch.current_index != 0,
    ensures
        spec_borrow(batch, program_id, ctx, amount) == Err::<Loan, ProtocolError>(
            ProtocolError::InvalidIx,
        ),
{
}

/// When the batch's final operation is a repay for this program but its
/// referenced accounts at the agreed positions do not name the borrower's
/// and the pool's asset accounts, the borrow is refused account by account:
/// a wrong or absent borrower account first, a wrong or absent pool account
/// after it.
pub proof fn lemma_mismatched_accounts_rejected(
    batch: BatchView,
    program_id: AccountId,
    ctx: Loan,
    amount: u64,
)
    requires
        ctx.wf(),
        amount > 0,
        ctx.protocol_ata.balance >= amount,
        ctx.borrower_ata.balance + amount <= u64::MAX,
        batch.current_index == 0,
        batch.ops@.len() >= 2,
        batch.ops@[batch.ops@.len() - 1].program_id == program_id,
        has_opcode(batch.ops@[batch.ops@.len() - 1].data@, REPAY_OPCODE),
    ensures
        (batch.ops@[batch.ops@.len() - 1].accounts@.len() <= 3 || batch.ops@[batch.ops@.len()
            - 1].accounts@[3] != ctx.borrower_ata.id) ==> spec_borrow(
            batch,
            program_id,
            ctx,
            amount,
        ) == Err::<Loan, ProtocolError>(ProtocolError::InvalidBorrowerAta),
        (batch.ops@[batch.ops@.len() - 1].accounts@.len() > 3 && batch.ops@[batch.ops@.len()
            - 1].accounts@[3] == ctx.borrower_ata.id && (batch.ops@[batch.ops@.len()
            - 1].accounts@.len() <= 4 || batch.ops@[batch.ops@.len() - 1].accounts@[4]
            != ctx.protocol_ata.id)) ==> spec_borrow(batch, program_id, ctx, amount) == Err::<
            Loan,
            ProtocolError,
        >(ProtocolError::InvalidProtocolAta),
{
}

/// The repay settles exactly the amount encoded in the first operation's
/// argument bytes — never a caller-supplied figure, and never a figure
/// drawn from the pool's current balance. Whenever the repay goes through,
/// the borrower's account drops and the pool's account rises by precisely
/// that encoded amount.
pub proof fn lemma_repay_settles_encoded_amount(batch: BatchView, ctx: Loan, encoded: u64)
    requires
        batch.ops@.len() > 0,
        spec_borrowed_amount(batch.ops@[0]) == Ok::<u64, ProtocolError>(encoded),
        spec_repay(batch, ctx) is Ok,
    ensures
        match spec_repay(batch, ctx) {
            Ok(after) => {
                &&& after.borrower_ata.balance == ctx.borrower_ata.balance - encoded
                &&& after.protocol_ata.balance == ctx.protocol_ata.balance + encoded
            },
            Err(e) => false,
        },
{
}

/// A borrow of nothing is refused outright, before the transfer engine is
/// even consulted: no balance, no authority and no batch shape affects the
/// outcome.
pub proof fn lemma_zero_borrow_rejected(batch: BatchView, program_id: AccountId, ctx: Loan)
    ensures
        spec_borrow(batch, program_id, ctx, 0) == Err::<Loan, ProtocolError>(
            ProtocolError::InvalidAmount,
        ),
{
}

} // verus!
