use crate::le_bytes::{le_u64, read_u64_le};
use vstd::prelude::*;

verus! {

/// Size in bytes of the AArch64 general-purpose register file (`user_pt_regs`).
pub const GP_REGISTERS_SIZE: usize = 272;

/// Number of 64-bit words in the register file.
pub const GP_REGISTER_COUNT: usize = 34;

/// Byte offset of `x0`, the register that holds a function's return value.
pub const RETURN_VALUE_OFFSET: usize = 0;

/// The general-purpose register file of an AArch64 process: `x0` to `x30`,
/// then the stack pointer, the program counter and the processor state.
#[derive(Clone, Copy, Debug, Default, PartialEq, Eq)]
pub struct GpRegisters {
    pub regs: [u64; 31],
    pub sp: u64,
    pub pc: u64,
    pub pstate: u64,
}

impl GpRegisters {
    /// The registers in layout order: word `i` sits at byte `8 * i`.
    pub open spec fn words(&self) -> Seq<u64> {
        self.regs@ + seq![self.sp, self.pc, self.pstate]
    }

    /// Whether this register file is the one that `b` encodes.
    pub open spec fn decodes(&self, b: Seq<u8>) -> bool {
        &&& b.len() == GP_REGISTERS_SIZE
        &&& forall|i: int| 0 <= i < GP_REGISTER_COUNT ==> #[trigger] self.words()[i] == le_u64(b, 8 * i)
    }

    /// Decodes the register file from the kernel's byte layout; `None` when
    /// `b` does not have exactly the size of the register file.
    pub fn from_bytes(b: &[u8]) -> (r: Option<GpRegisters>)
        ensures
            r is Some <==> b@.len() == GP_REGISTERS_SIZE,
            r matches Some(g) ==> g.decodes(b@),
    {
        if b.len() != GP_REGISTERS_SIZE {
            return None;
        }
        let mut regs: [u64; 31] = [0u64; 31];
        let mut i: usize = 0;
        while i < 31
            invariant
                i <= 31,
                b@.len() == GP_REGISTERS_SIZE,
                regs@.len() == 31,
                forall|j: int| 0 <= j < i ==> #[trigger] regs@[j] == le_u64(b@, 8 * j),
            decreases 31 - i,
        {
            let w = read_u64_le(b, 8 * i);
            regs[i] = w;
            i = i + 1;
        }
        let g = GpRegisters {
            regs,
            sp: read_u64_le(b, 248),
            pc: read_u64_le(b, 256),
            pstate: read_u64_le(b, 264),
        };
        assert forall|i: int| 0 <= i < GP_REGISTER_COUNT implies #[trigger] g.words()[i] == le_u64(
            b@,
            8 * i,
        ) by {
            if i < 31 {
                assert(g.words()[i] == regs@[i]);
            }
        }
        Some(g)
    }

    /// The register that holds a function's return value (`x0`).
    pub fn return_value(&self) -> (r: u64)
        ensures
            r == self.regs@[0],
            r == self.words()[(RETURN_VALUE_OFFSET / 8) as int],
    {
        self.regs[0]
    }

    /// The program counter.
    pub fn program_counter(&self) -> (r: u64)
        ensures
            r == self.pc,
    {
        self.pc
    }

    /// The stack pointer.
    pub fn stack_pointer(&self) -> (r: u64)
        ensures
            r == self.sp,
    {
        self.sp
    }
}

} // verus!
