use vstd::prelude::*;

use crate::errors::ProtocolError;

verus! {

/// Opaque identity of an account or of a program, as the outer engine
/// assigns them. The library never looks inside an identity; it only
/// compares identities for equality.
#[derive(Clone, Copy, Debug, PartialEq, Eq, Structural)]
pub struct AccountId {
    pub value: u64,
}

/// Width of the opcode tag that opens every operation's data buffer.
pub const DISCRIMINATOR_LEN: usize = 8;

/// End of the amount field in a borrow operation's data buffer: the amount
/// is the unsigned little-endian quadword right after the opcode tag.
pub const AMOUNT_END: usize = 16;

/// Opcode tag of a borrow operation, as the little-endian value of its
/// first eight data bytes.
pub const BORROW_OPCODE: u64 = 0xc89f_3a51_7d26_e4b0;

/// Opcode tag of a repay operation, in the same encoding.
pub const REPAY_OPCODE: u64 = 0x5d12_e8c7_90ab_43f6;

/// One step of an atomic batch: the program it targets, its raw data buffer
/// (opcode tag first, argument bytes after), and the ordered list of
/// accounts it references.
///
/// Operations are immutable once the batch is under execution; every other
/// operation in the same batch can see their shape through [`BatchView`].
#[derive(Clone, Debug)]
pub struct Operation {
    pub program_id: AccountId,
    pub data: Vec<u8>,
    pub accounts: Vec<AccountId>,
}

/// Read-only projection of the currently executing batch, maintained by the
/// outer execution engine: the ordered operations and the index of the one
/// executing right now. It exposes shape only, never the effects of later
/// steps, and it performs no mutation.
#[derive(Clone, Debug)]
pub struct BatchView {
    pub ops: Vec<Operation>,
    pub current_index: usize,
}

/// Whether `data` opens with the eight-byte opcode tag whose little-endian
/// value is `opcode`. A buffer too short to hold a tag matches no opcode.
pub open spec fn has_opcode(data: Seq<u8>, opcode: u64) -> bool {
    data.len() >= DISCRIMINATOR_LEN
        && vstd::bytes::spec_u64_from_le_bytes(data.subrange(0, DISCRIMINATOR_LEN as int))
            == opcode
}

/// The opcode tag an operation's data buffer opens with, when the buffer
/// can hold one at all.
pub fn opcode_of(op: &Operation) -> (r: Option<u64>)
    ensures
        match r {
            Some(tag) => has_opcode(op.data@, tag),
            None => op.data@.len() < DISCRIMINATOR_LEN,
        },
{
    if op.data.len() < DISCRIMINATOR_LEN {
        None
    } else {
        Some(
            vstd::bytes::u64_from_le_bytes(
                vstd::slice::slice_subrange(op.data.as_slice(), 0, DISCRIMINATOR_LEN),
            ),
        )
    }
}

/// Argument bytes of a borrow operation on the wire: the borrow opcode tag,
/// then the borrowed amount, both little endian.
pub open spec fn spec_borrow_op_data(amount: u64) -> Seq<u8> {
    vstd::bytes::spec_u64_to_le_bytes(BORROW_OPCODE) + vstd::bytes::spec_u64_to_le_bytes(amount)
}

/// Builds the data buffer of a borrow operation for `amount`.
pub fn borrow_op_data(amount: u64) -> (r: Vec<u8>)
    ensures
        r@ == spec_borrow_op_data(amount),
        r@.len() == AMOUNT_END,
{
    let mut data = vstd::bytes::u64_to_le_bytes(BORROW_OPCODE);
    let mut tail = vstd::bytes::u64_to_le_bytes(amount);
    data.append(&mut tail);
    data
}

/// Data buffer of a repay operation on the wire: the repay opcode tag
/// alone; a repay carries no arguments.
pub open spec fn spec_repay_op_data() -> Seq<u8> {
    vstd::bytes::spec_u64_to_le_bytes(REPAY_OPCODE)
}

/// Builds the data buffer of a repay operation.
pub fn repay_op_data() -> (r: Vec<u8>)
    ensures
        r@ == spec_repay_op_data(),
        r@.len() == DISCRIMINATOR_LEN,
{
    vstd::bytes::u64_to_le_bytes(REPAY_OPCODE)
}

impl BatchView {
    /// Index of the currently executing operation.
    pub fn load_current_index(&self) -> (r: usize)
        ensures
            r == self.current_index,
    {
        self.current_index
    }

    /// How many operations the batch holds.
    pub fn op_count(&self) -> (r: usize)
        ensures
            r == self.ops@.len(),
    {
        self.ops.len()
    }

    /// The operation at absolute index `index`, exactly as the engine will
    /// execute it; a lookup past the end of the batch fails.
    pub fn load_instruction_at(&self, index: usize) -> (r: Result<
        &Operation,
        ProtocolError,
    >)
        ensures
            match r {
                Ok(op) => index < self.ops@.len() && *op == self.ops@[index as int],
                Err(e) => index >= self.ops@.len() && e == ProtocolError::InvalidInstructionIndex,
            },
    {
        if index < self.ops.len() {
            Ok(&self.ops[index])
        } else {
            Err(ProtocolError::InvalidInstructionIndex)
        }
    }
}

} // verus!
