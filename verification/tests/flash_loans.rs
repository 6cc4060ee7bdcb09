use flash_loans::batch::{borrow_op_data, repay_op_data, AccountId, BatchView, Operation};
use flash_loans::errors::ProtocolError;
use flash_loans::handlers::{borrow, borrowed_amount, Loan, Repay};
use flash_loans::token::{transfer, PoolAuthority, TokenAccount, TransferAuth};

fn id(value: u64) -> AccountId {
    AccountId { value }
}

fn program_id() -> AccountId {
    id(9)
}

fn setup_ctx(pool_balance: u64, borrower_balance: u64) -> Loan {
    Loan {
        borrower: id(1),
        protocol: PoolAuthority { id: id(2), bump: 254 },
        mint: id(3),
        borrower_ata: TokenAccount {
            id: id(4),
            mint: id(3),
            owner: id(1),
            balance: borrower_balance,
        },
        protocol_ata: TokenAccount {
            id: id(5),
            mint: id(3),
            owner: id(2),
            balance: pool_balance,
        },
    }
}

fn borrow_operation(amount: u64) -> Operation {
    Operation {
        program_id: program_id(),
        data: borrow_op_data(amount),
        accounts: vec![id(1), id(2), id(3), id(4), id(5)],
    }
}

fn repay_operation(program: AccountId, borrower_ata: AccountId, protocol_ata: AccountId) -> Operation {
    Operation {
        program_id: program,
        data: repay_op_data(),
        accounts: vec![id(1), id(2), id(3), borrower_ata, protocol_ata, id(6)],
    }
}

fn pair_batch(ctx: &Loan, amount: u64, current_index: usize) -> BatchView {
    BatchView {
        ops: vec![
            borrow_operation(amount),
            repay_operation(program_id(), ctx.borrower_ata.id, ctx.protocol_ata.id),
        ],
        current_index,
    }
}

#[test]
fn round_trip_preserves_balances() {
    let mut ctx = setup_ctx(10_000, 500);
    let batch = pair_batch(&ctx, 1_000, 0);

    assert_eq!(borrow(&batch, program_id(), &mut ctx, 1_000), Ok(()));
    assert_eq!(ctx.protocol_ata.balance, 9_000);
    assert_eq!(ctx.borrower_ata.balance, 1_500);

    let repay_view = BatchView { current_index: 1, ..batch };
    assert_eq!(Repay(&repay_view, &mut ctx), Ok(()));
    assert_eq!(ctx.protocol_ata.balance, 10_000);
    assert_eq!(ctx.borrower_ata.balance, 500);
}

#[test]
fn lone_borrow_rejected() {
    let mut ctx = setup_ctx(10_000, 500);
    let batch = BatchView {
        ops: vec![borrow_operation(1_000)],
        current_index: 0,
    };

    assert_eq!(
        borrow(&batch, program_id(), &mut ctx, 1_000),
        Err(ProtocolError::MissingRepayIx)
    );
    assert_eq!(ctx.protocol_ata.balance, 10_000);
    assert_eq!(ctx.borrower_ata.balance, 500);
}

#[test]
fn misplaced_borrow_rejected() {
    let mut ctx = setup_ctx(10_000, 500);
    let batch = pair_batch(&ctx, 1_000, 1);

    assert_eq!(
        borrow(&batch, program_id(), &mut ctx, 1_000),
        Err(ProtocolError::InvalidIx)
    );
    assert_eq!(ctx.protocol_ata.balance, 10_000);
    assert_eq!(ctx.borrower_ata.balance, 500);
}

#[test]
fn mismatched_borrower_account_rejected() {
    let mut ctx = setup_ctx(10_000, 500);
    let batch = BatchView {
        ops: vec![
            borrow_operation(1_000),
            repay_operation(program_id(), id(77), ctx.protocol_ata.id),
        ],
        current_index: 0,
    };

    assert_eq!(
        borrow(&batch, program_id(), &mut ctx, 1_000),
        Err(ProtocolError::InvalidBorrowerAta)
    );
    assert_eq!(ctx.protocol_ata.balance, 10_000);
    assert_eq!(ctx.borrower_ata.balance, 500);
}

#[test]
fn mismatched_protocol_account_rejected() {
    let mut ctx = setup_ctx(10_000, 500);
    let batch = BatchView {
        ops: vec![
            borrow_operation(1_000),
            repay_operation(program_id(), ctx.borrower_ata.id, id(88)),
        ],
        current_index: 0,
    };

    assert_eq!(
        borrow(&batch, program_id(), &mut ctx, 1_000),
        Err(ProtocolError::InvalidProtocolAta)
    );
    assert_eq!(ctx.protocol_ata.balance, 10_000);
    assert_eq!(ctx.borrower_ata.balance, 500);
}

#[test]
fn short_account_list_rejected() {
    let mut ctx = setup_ctx(10_000, 500);
    let mut repay_op = repay_operation(program_id(), ctx.borrower_ata.id, ctx.protocol_ata.id);
    repay_op.accounts.truncate(3);
    let batch = BatchView {
        ops: vec![borrow_operation(1_000), repay_op],
        current_index: 0,
    };

    assert_eq!(
        borrow(&batch, program_id(), &mut ctx, 1_000),
        Err(ProtocolError::InvalidBorrowerAta)
    );

    let mut repay_op = repay_operation(program_id(), ctx.borrower_ata.id, ctx.protocol_ata.id);
    repay_op.accounts.truncate(4);
    let batch = BatchView {
        ops: vec![borrow_operation(1_000), repay_op],
        current_index: 0,
    };

    assert_eq!(
        borrow(&batch, program_id(), &mut ctx, 1_000),
        Err(ProtocolError::InvalidProtocolAta)
    );
    assert_eq!(ctx.protocol_ata.balance, 10_000);
    assert_eq!(ctx.borrower_ata.balance, 500);
}

#[test]
fn wrong_program_rejected() {
    let mut ctx = setup_ctx(10_000, 500);
    let batch = BatchView {
        ops: vec![
            borrow_operation(1_000),
            repay_operation(id(99), ctx.borrower_ata.id, ctx.protocol_ata.id),
        ],
        current_index: 0,
    };

    assert_eq!(
        borrow(&batch, program_id(), &mut ctx, 1_000),
        Err(ProtocolError::InvalidProgram)
    );
}

#[test]
fn wrong_opcode_rejected() {
    let mut ctx = setup_ctx(10_000, 500);
    let batch = BatchView {
        ops: vec![borrow_operation(1_000), borrow_operation(1_000)],
        current_index: 0,
    };

    assert_eq!(
        borrow(&batch, program_id(), &mut ctx, 1_000),
        Err(ProtocolError::InvalidIx)
    );
}

#[test]
fn short_data_rejected() {
    let mut ctx = setup_ctx(10_000, 500);
    let mut repay_op = repay_operation(program_id(), ctx.borrower_ata.id, ctx.protocol_ata.id);
    repay_op.data.truncate(3);
    let batch = BatchView {
        ops: vec![borrow_operation(1_000), repay_op],
        current_index: 0,
    };

    assert_eq!(
        borrow(&batch, program_id(), &mut ctx, 1_000),
        Err(ProtocolError::InvalidIx)
    );
}

#[test]
fn zero_borrow_rejected_before_transfer() {
    // even an empty pool never surfaces a funds error here: the amount
    // check comes before the transfer engine is consulted
    let mut ctx = setup_ctx(0, 500);
    let batch = pair_batch(&ctx, 1, 0);

    assert_eq!(
        borrow(&batch, program_id(), &mut ctx, 0),
        Err(ProtocolError::InvalidAmount)
    );
    assert_eq!(ctx.protocol_ata.balance, 0);
    assert_eq!(ctx.borrower_ata.balance, 500);
}

#[test]
fn not_enough_funds_rejected() {
    let mut ctx = setup_ctx(100, 500);
    let batch = pair_batch(&ctx, 1_000, 0);

    assert_eq!(
        borrow(&batch, program_id(), &mut ctx, 1_000),
        Err(ProtocolError::NotEnoughFunds)
    );
    assert_eq!(ctx.protocol_ata.balance, 100);
    assert_eq!(ctx.borrower_ata.balance, 500);
}

#[test]
fn overflowing_credit_rejected() {
    let mut ctx = setup_ctx(10_000, u64::MAX - 10);
    let batch = pair_batch(&ctx, 1_000, 0);

    assert_eq!(
        borrow(&batch, program_id(), &mut ctx, 1_000),
        Err(ProtocolError::Overflow)
    );
    assert_eq!(ctx.protocol_ata.balance, 10_000);
    assert_eq!(ctx.borrower_ata.balance, u64::MAX - 10);
}

#[test]
fn repay_settles_encoded_amount() {
    // the pool's balance plays no part in what the repay settles; only the
    // amount encoded in the batch's first operation does
    let mut ctx = setup_ctx(50, 1_000);
    let batch = BatchView {
        ops: vec![
            borrow_operation(777),
            repay_operation(program_id(), ctx.borrower_ata.id, ctx.protocol_ata.id),
        ],
        current_index: 1,
    };

    assert_eq!(Repay(&batch, &mut ctx), Ok(()));
    assert_eq!(ctx.borrower_ata.balance, 223);
    assert_eq!(ctx.protocol_ata.balance, 827);
}

#[test]
fn repay_without_borrow_rejected() {
    let mut ctx = setup_ctx(50, 1_000);
    let batch = BatchView {
        ops: vec![],
        current_index: 0,
    };

    assert_eq!(Repay(&batch, &mut ctx), Err(ProtocolError::MissingBorrowIx));
    assert_eq!(ctx.borrower_ata.balance, 1_000);
    assert_eq!(ctx.protocol_ata.balance, 50);
}

#[test]
fn unreadable_borrow_rejected() {
    let mut ctx = setup_ctx(50, 1_000);
    let mut op = borrow_operation(777);
    op.data.truncate(10);
    let batch = BatchView {
        ops: vec![op, repay_operation(program_id(), ctx.borrower_ata.id, ctx.protocol_ata.id)],
        current_index: 1,
    };

    assert_eq!(Repay(&batch, &mut ctx), Err(ProtocolError::MissingBorrowIx));
    assert_eq!(ctx.borrower_ata.balance, 1_000);
    assert_eq!(ctx.protocol_ata.balance, 50);
}

#[test]
fn repay_beyond_borrower_balance_rejected() {
    let mut ctx = setup_ctx(50, 100);
    let batch = BatchView {
        ops: vec![
            borrow_operation(777),
            repay_operation(program_id(), ctx.borrower_ata.id, ctx.protocol_ata.id),
        ],
        current_index: 1,
    };

    assert_eq!(Repay(&batch, &mut ctx), Err(ProtocolError::NotEnoughFunds));
    assert_eq!(ctx.borrower_ata.balance, 100);
    assert_eq!(ctx.protocol_ata.balance, 50);
}

#[test]
fn out_of_range_lookup_rejected() {
    let ctx = setup_ctx(10_000, 500);
    let batch = pair_batch(&ctx, 1_000, 0);

    assert!(batch.load_instruction_at(1).is_ok());
    assert_eq!(
        batch.load_instruction_at(2).unwrap_err(),
        ProtocolError::InvalidInstructionIndex
    );
}

#[test]
fn transfer_demands_holder_authority() {
    let ctx = setup_ctx(10_000, 500);

    assert_eq!(
        transfer(
            TransferAuth::Signature(id(99)),
            ctx.borrower_ata,
            ctx.protocol_ata,
            10
        ),
        Err(ProtocolError::ProgramMismatch)
    );

    let moved = transfer(
        TransferAuth::Signature(ctx.borrower),
        ctx.borrower_ata,
        ctx.protocol_ata,
        10,
    )
    .unwrap();
    assert_eq!(moved.0.balance, 490);
    assert_eq!(moved.1.balance, 10_010);
}

#[test]
fn borrow_data_layout_is_little_endian() {
    let data = borrow_op_data(0x0102_0304_0506_0708);
    assert_eq!(data.len(), 16);
    assert_eq!(&data[8..16], &[8, 7, 6, 5, 4, 3, 2, 1]);

    let op = Operation {
        program_id: program_id(),
        data,
        accounts: vec![],
    };
    assert_eq!(borrowed_amount(&op), Ok(0x0102_0304_0506_0708));
}
