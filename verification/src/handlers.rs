use vstd::prelude::*;

use crate::batch::{
    has_opcode, AccountId, BatchView, Operation, AMOUNT_END, DISCRIMINATOR_LEN, REPAY_OPCODE,
};
use crate::errors::ProtocolError;
use crate::token::{spec_transfer, transfer, PoolAuthority, TokenAccount, TransferAuth};

verus! {

/// The account set both handlers operate on: the borrower's signing
/// identity, the pool authority capability, the asset descriptor, and the
/// two asset accounts the loan moves funds between.
#[derive(Clone, Copy, Debug, PartialEq, Eq, Structural)]
pub struct Loan {
    pub borrower: AccountId,
    pub protocol: PoolAuthority,
    pub mint: AccountId,
    pub borrower_ata: TokenAccount,
    pub protocol_ata: TokenAccount,
}

impl Loan {
    /// Well-formedness the account-validation plumbing of the outer engine
    /// establishes before a handler runs: each asset account holds the
    /// loan's asset and belongs to the party it stands for.
    pub open spec fn wf(self) -> bool {
        &&& self.borrower_ata.owner == self.borrower
        &&& self.borrower_ata.mint == self.mint
        &&& self.protocol_ata.owner == self.protocol.id
        &&& self.protocol_ata.mint == self.mint
    }
}

/// Verdict of the borrow handler's batch introspection: the currently
/// executing operation must open the batch, a further operation must follow
/// it, and the batch's last operation must be a repay addressed to this
/// program that names the borrower's and the pool's asset accounts at the
/// agreed positions.
pub open spec fn spec_check_repay_shape(
    batch: BatchView,
    program_id: AccountId,
    borrower_ata: AccountId,
    protocol_ata: AccountId,
) -> Result<(), ProtocolError> {
    if batch.current_index != 0 {
        Err(ProtocolError::InvalidIx)
    } else if batch.ops@.len() <= 1 {
        Err(ProtocolError::MissingRepayIx)
    } else {
        let last = batch.ops@[batch.ops@.len() - 1];
        if last.program_id != program_id {
            Err(ProtocolError::InvalidProgram)
        } else if !has_opcode(last.data@, REPAY_OPCODE) {
            Err(ProtocolError::InvalidIx)
        } else if !(last.accounts@.len() > 3 && last.accounts@[3] == borrower_ata) {
            Err(ProtocolError::InvalidBorrowerAta)
        } else if !(last.accounts@.len() > 4 && last.accounts@[4] == protocol_ata) {
            Err(ProtocolError::InvalidProtocolAta)
        } else {
            Ok(())
        }
    }
}

/// Proves, from inside the borrow, that a well-formed repay closes the
/// batch: the only evidence that the obligation will be settled is the shape
/// of the batch itself, checked here before the release is allowed to stand.
pub fn check_repay_shape(
    batch: &BatchView,
    program_id: AccountId,
    borrower_ata: AccountId,
    protocol_ata: AccountId,
) -> (r: Result<(), ProtocolError>)
    ensures
        r == spec_check_repay_shape(*batch, program_id, borrower_ata, protocol_ata),
{
    let current: usize = batch.load_current_index();
    if current != 0 {
        return Err(ProtocolError::InvalidIx);
    }
    let count: usize = batch.op_count();
    if count <= 1 {
        // the batch ends with the borrow itself: no repay follows
        return Err(ProtocolError::MissingRepayIx);
    }
    let last = match batch.load_instruction_at(count - 1) {
        Ok(op) => op,
        Err(_) => {
            return Err(ProtocolError::MissingRepayIx);
        },
    };
    if last.program_id != program_id {
        return Err(ProtocolError::InvalidProgram);
    }
    if last.data.len() < DISCRIMINATOR_LEN {
        return Err(ProtocolError::InvalidIx);
    }
    let opcode: u64 = vstd::bytes::u64_from_le_bytes(
        vstd::slice::slice_subrange(last.data.as_slice(), 0, DISCRIMINATOR_LEN),
    );
    if opcode != REPAY_OPCODE {
        return Err(ProtocolError::InvalidIx);
    }
    if last.accounts.len() <= 3 {
        return Err(ProtocolError::InvalidBorrowerAta);
    }
    if last.accounts[3] != borrower_ata {
        return Err(ProtocolError::InvalidBorrowerAta);
    }
    if last.accounts.len() <= 4 {
        return Err(ProtocolError::InvalidProtocolAta);
    }
    if last.accounts[4] != protocol_ata {
        return Err(ProtocolError::InvalidProtocolAta);
    }
    Ok(())
}

/// What a borrow of `amount` yields on `ctx` within `batch`: the accounts
/// after the release, or the first failed check. The amount must be
/// positive; the release itself must go through; and the batch must carry a
/// matching repay at its end, as [`spec_check_repay_shape`] demands.
pub open spec fn spec_borrow(
    batch: BatchView,
    program_id: AccountId,
    ctx: Loan,
    amount: u64,
) -> Result<Loan, ProtocolError> {
    if amount == 0 {
        Err(ProtocolError::InvalidAmount)
    } else {
        match spec_transfer(
            TransferAuth::PoolProof(ctx.protocol),
            ctx.protocol_ata,
            ctx.borrower_ata,
            amount,
        ) {
            Err(e) => Err(e),
            Ok(pair) => match spec_check_repay_shape(
                batch,
                program_id,
                ctx.borrower_ata.id,
                ctx.protocol_ata.id,
            ) {
                Err(e) => Err(e),
                Ok(_) => Ok(
                    Loan {
                        borrower: ctx.borrower,
                        protocol: ctx.protocol,
                        mint: ctx.mint,
                        borrower_ata: pair.1,
                        protocol_ata: pair.0,
                    },
                ),
            },
        }
    }
}

/// The borrow handler: releases `amount` from the pool's asset account to
/// the borrower's, authorized by the pool authority's derivation proof, and
/// lets the release stand only after proving that the batch closes with a
/// matching repay. On any failed check the accounts are left untouched,
/// standing in for the outer engine's all-or-nothing rollback of the batch.
pub fn borrow(
    batch: &BatchView,
    program_id: AccountId,
    ctx: &mut Loan,
    amount: u64,
) -> (r: Result<(), ProtocolError>)
    ensures
        (match spec_borrow(*batch, program_id, *old(ctx), amount) {
            Ok(after) => r is Ok && *final(ctx) == after,
            Err(e) => r == Err::<(), ProtocolError>(e) && *final(ctx) == *old(ctx),
        }),
{
    if amount == 0 {
        return Err(ProtocolError::InvalidAmount);
    }
    // release the funds from the pool to the borrower
    let pair = match transfer(
        TransferAuth::PoolProof(ctx.protocol),
        ctx.protocol_ata,
        ctx.borrower_ata,
        amount,
    ) {
        Ok(p) => p,
        Err(e) => {
            return Err(e);
        },
    };
    // the release stands only if a matching repay closes this batch
    match check_repay_shape(batch, program_id, ctx.borrower_ata.id, ctx.protocol_ata.id) {
        Ok(_) => {},
        Err(e) => {
            return Err(e);
        },
    }
    ctx.protocol_ata = pair.0;
    ctx.borrower_ata = pair.1;
    Ok(())
}

/// The amount owed by a borrow operation: the unsigned little-endian
/// quadword right after its opcode tag. A buffer too short to hold the
/// field is unreadable.
pub open spec fn spec_borrowed_amount(op: Operation) -> Result<u64, ProtocolError> {
    if op.data@.len() < AMOUNT_END {
        Err(ProtocolError::MissingBorrowIx)
    } else {
        Ok(
            vstd::bytes::spec_u64_from_le_bytes(
                op.data@.subrange(DISCRIMINATOR_LEN as int, AMOUNT_END as int),
            ),
        )
    }
}

/// Reads the amount owed out of an operation's argument bytes.
pub fn borrowed_amount(op: &Operation) -> (r: Result<u64, ProtocolError>)
    ensures
        r == spec_borrowed_amount(*op),
{
    if op.data.len() < AMOUNT_END {
        Err(ProtocolError::MissingBorrowIx)
    } else {
        Ok(
            vstd::bytes::u64_from_le_bytes(
                vstd::slice::slice_subrange(op.data.as_slice(), DISCRIMINATOR_LEN, AMOUNT_END),
            ),
        )
    }
}

/// What a repay yields on `ctx` within `batch`: the accounts after settling
/// exactly the amount the batch's first operation encodes, moved from the
/// borrower back to the pool under the borrower's own signature — or the
/// first failed check. The amount is never taken from the caller.
pub open spec fn spec_repay(batch: BatchView, ctx: Loan) -> Result<Loan, ProtocolError> {
    if batch.ops@.len() == 0 {
        Err(ProtocolError::MissingBorrowIx)
    } else {
        match spec_borrowed_amount(batch.ops@[0]) {
            Err(e) => Err(e),
            Ok(owed) => match spec_transfer(
                TransferAuth::Signature(ctx.borrower),
                ctx.borrower_ata,
                ctx.protocol_ata,
                owed,
            ) {
                Err(e) => Err(e),
                Ok(pair) => Ok(
                    Loan {
                        borrower: ctx.borrower,
                        protocol: ctx.protocol,
                        mint: ctx.mint,
                        borrower_ata: pair.0,
                        protocol_ata: pair.1,
                    },
                ),
            },
        }
    }
}

/// The repay handler: recovers the amount owed from the batch's own borrow
/// operation at index 0 and settles it from the borrower's asset account
/// back to the pool's, closing the credit window the borrow opened. On any
/// failed check the accounts are left untouched, standing in for the outer
/// engine's all-or-nothing rollback of the batch.
#[allow(non_snake_case)]
pub fn Repay(batch: &BatchView, ctx: &mut Loan) -> (r: Result<(), ProtocolError>)
    ensures
        (match spec_repay(*batch, *old(ctx)) {
            Ok(after) => r is Ok && *final(ctx) == after,
            Err(e) => r == Err::<(), ProtocolError>(e) && *final(ctx) == *old(ctx),
        }),
{
    let first = match batch.load_instruction_at(0) {
        Ok(op) => op,
        Err(_) => {
            return Err(ProtocolError::MissingBorrowIx);
        },
    };
    let owed: u64 = match borrowed_amount(first) {
        Ok(a) => a,
        Err(e) => {
            return Err(e);
        },
    };
    let pair = match transfer(
        TransferAuth::Signature(ctx.borrower),
        ctx.borrower_ata,
        ctx.protocol_ata,
        owed,
    ) {
        Ok(p) => p,
        Err(e) => {
            return Err(e);
        },
    };
    ctx.borrower_ata = pair.0;
    ctx.protocol_ata = pair.1;
    Ok(())
}

} // verus!
