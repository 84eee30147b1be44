//! The atomic instruction batch and its read-only inspector.
//!
//! A batch is the finite, ordered, immutable sequence of instructions fixed
//! at submission time. Each instruction names the program it targets, the
//! ordered accounts it references, and an opaque payload whose first eight
//! bytes are the operation discriminator. A handler inspects the batch by
//! position to prove that its counterpart instruction is present.

use vstd::prelude::*;

use crate::identity::Identity;

verus! {

/// One referenced account of an instruction: its identity and access flags.
#[derive(Clone, Copy, Debug)]
pub struct AccountRef {
    pub key: Identity,
    pub is_signer: bool,
    pub is_writable: bool,
}

/// One element of the atomic batch.
#[derive(Debug)]
pub struct Instruction {
    /// The program this instruction targets.
    pub program_id: Identity,
    /// The ordered account references of the instruction.
    pub accounts: Vec<AccountRef>,
    /// The opaque payload; its first eight bytes are the discriminator.
    pub data: Vec<u8>,
}

/// The failure of the batch inspector: the asked-for position does not exist.
#[derive(Clone, Copy, Debug, PartialEq, Eq, Structural)]
pub enum BatchError {
    OutOfRange,
}

/// A read-only view over the ordered instruction list of the current atomic
/// batch. The batch is fixed at submission time; inspecting it never alters
/// it.
#[derive(Debug)]
pub struct Batch {
    pub instructions: Vec<Instruction>,
}

/// What decoding a position of a batch yields: the instruction standing
/// there, or `OutOfRange` when the position does not exist. A pure function
/// of the batch and the position.
pub open spec fn decode_spec(batch: Batch, position: int) -> Result<Instruction, BatchError> {
    if 0 <= position < batch.instructions@.len() {
        Ok(batch.instructions@[position])
    } else {
        Err(BatchError::OutOfRange)
    }
}

impl Batch {
    /// The total number of instructions in the batch.
    pub fn count(&self) -> (n: usize)
        ensures
            n == self.instructions@.len(),
    {
        self.instructions.len()
    }

    /// Decode the instruction at `position`, or fail with `OutOfRange` when
    /// no such position exists. Reading is side-effect free: the result is
    /// exactly `decode_spec` of the batch and the position, however often it
    /// is asked.
    pub fn decode(&self, position: usize) -> (r: Result<&Instruction, BatchError>)
        ensures
            position < self.instructions@.len() ==> (r matches Ok(ix) && *ix
                == self.instructions@[position as int]),
            position >= self.instructions@.len() ==> r == Err::<&Instruction, BatchError>(
                BatchError::OutOfRange,
            ),
            (match r {
                Ok(ix) => decode_spec(*self, position as int) == Ok::<Instruction, BatchError>(*ix),
                Err(e) => decode_spec(*self, position as int) == Err::<Instruction, BatchError>(e),
            }),
    {
        if position < self.instructions.len() {
            Ok(&self.instructions[position])
        } else {
            Err(BatchError::OutOfRange)
        }
    }
}

/// Decoding is idempotent: two decodes of the same position of the same
/// batch yield identical results, since each is pinned to `decode_spec` of
/// the batch and the position, and reading mutates nothing.
pub proof fn lemma_decode_idempotent(
    batch: Batch,
    position: int,
    r1: Result<Instruction, BatchError>,
    r2: Result<Instruction, BatchError>,
)
    requires
        r1 == decode_spec(batch, position),
        r2 == decode_spec(batch, position),
    ensures
        r1 == r2,
{
}

/// The unsigned 64-bit little-endian integer standing at offset `off` of
/// `data`.
pub open spec fn le_u64_at(data: Seq<u8>, off: int) -> int {
    data[off] + 256 * data[off + 1] + 65536 * data[off + 2] + 16777216 * data[off + 3] + 4294967296
        * data[off + 4] + 1099511627776 * data[off + 5] + 281474976710656 * data[off + 6]
        + 72057594037927936 * data[off + 7]
}

/// Read the unsigned 64-bit little-endian integer at offset `off` of `data`.
pub fn read_le_u64(data: &Vec<u8>, off: usize) -> (r: u64)
    requires
        off + 8 <= data@.len(),
    ensures
        r == le_u64_at(data@, off as int),
{
    // Binding the length tells the verifier every index below fits in usize.
    let _len: usize = data.len();
    (data[off] as u64) + 256 * (data[off + 1] as u64) + 65536 * (data[off + 2] as u64) + 16777216
        * (data[off + 3] as u64) + 4294967296 * (data[off + 4] as u64) + 1099511627776 * (data[off
        + 5] as u64) + 281474976710656 * (data[off + 6] as u64) + 72057594037927936 * (data[off
        + 7] as u64)
}

/// The unsigned 16-bit little-endian integer standing at the head of
/// `data` — the layout in which the host serializes the batch's instruction
/// count.
pub open spec fn le_u16_at_start(data: Seq<u8>) -> int {
    data[0] + 256 * data[1]
}

/// Read the unsigned 16-bit little-endian integer at the head of `data`.
pub fn read_le_u16(data: &[u8]) -> (r: u16)
    requires
        data@.len() >= 2,
    ensures
        r == le_u16_at_start(data@),
{
    (data[0] as u16) + 256 * (data[1] as u16)
}

/// The fixed eight-byte discriminator of the repay operation.
pub open spec fn repay_discriminator() -> Seq<u8> {
    seq![234u8, 103u8, 67u8, 82u8, 208u8, 234u8, 219u8, 166u8]
}

/// The fixed eight-byte discriminator of the borrow operation.
pub open spec fn borrow_discriminator() -> Seq<u8> {
    seq![228u8, 253u8, 131u8, 202u8, 207u8, 116u8, 89u8, 18u8]
}

/// Does `data` begin with the eight-byte discriminator `disc`?
pub open spec fn has_discriminator(data: Seq<u8>, disc: Seq<u8>) -> bool {
    data.len() >= 8 && data.subrange(0, 8) == disc
}

/// The eight bytes of the repay discriminator, as a vector.
pub fn repay_discriminator_bytes() -> (r: Vec<u8>)
    ensures
        r@ == repay_discriminator(),
{
    let mut v: Vec<u8> = Vec::new();
    v.push(234);
    v.push(103);
    v.push(67);
    v.push(82);
    v.push(208);
    v.push(234);
    v.push(219);
    v.push(166);
    proof {
        assert(v@ =~= repay_discriminator());
    }
    v
}

/// The eight bytes of the borrow discriminator, as a vector.
pub fn borrow_discriminator_bytes() -> (r: Vec<u8>)
    ensures
        r@ == borrow_discriminator(),
{
    let mut v: Vec<u8> = Vec::new();
    v.push(228);
    v.push(253);
    v.push(131);
    v.push(202);
    v.push(207);
    v.push(116);
    v.push(89);
    v.push(18);
    proof {
        assert(v@ =~= borrow_discriminator());
    }
    v
}

/// Does the payload `data` begin with the eight bytes of `disc`?
pub fn data_has_discriminator(data: &Vec<u8>, disc: &Vec<u8>) -> (r: bool)
    requires
        disc@.len() == 8,
    ensures
        r == has_discriminator(data@, disc@),
{
    if data.len() < 8 {
        return false;
    }
    let mut i: usize = 0;
    while i < 8
        invariant
            i <= 8,
            data@.len() >= 8,
            disc@.len() == 8,
            forall|j: int| 0 <= j < i ==> data@[j] == disc@[j],
        decreases 8 - i,
    {
        if data[i] != disc[i] {
            proof {
                assert(data@.subrange(0, 8)[i as int] != disc@[i as int]);
            }
            return false;
        }
        i = i + 1;
    }
    proof {
        assert(data@.subrange(0, 8) =~= disc@);
    }
    true
}

/// Is `ix` a well-formed borrow instruction of `program`: targeting the
/// program, opening with the borrow discriminator, and long enough to carry
/// the 64-bit principal at bytes 8..16?
pub open spec fn is_borrow_ix(ix: Instruction, program: Identity) -> bool {
    ix.program_id@ == program@ && has_discriminator(ix.data@, borrow_discriminator())
        && ix.data@.len() >= 16
}

/// Does `ix` target `program` with the repay discriminator?
pub open spec fn targets_repay(ix: Instruction, program: Identity) -> bool {
    ix.program_id@ == program@ && has_discriminator(ix.data@, repay_discriminator())
}

/// Exec check of `is_borrow_ix`.
pub fn check_is_borrow_ix(ix: &Instruction, program: &Identity) -> (r: bool)
    ensures
        r == is_borrow_ix(*ix, *program),
{
    if !(ix.program_id == *program) {
        return false;
    }
    if ix.data.len() < 16 {
        return false;
    }
    let disc = borrow_discriminator_bytes();
    data_has_discriminator(&ix.data, &disc)
}

/// Exec check of `targets_repay`.
pub fn check_targets_repay(ix: &Instruction, program: &Identity) -> (r: bool)
    ensures
        r == targets_repay(*ix, *program),
{
    if !(ix.program_id == *program) {
        return false;
    }
    let disc = repay_discriminator_bytes();
    data_has_discriminator(&ix.data, &disc)
}

} // verus!
