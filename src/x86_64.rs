use crate::le_bytes::{le_u64, read_u64_le};
use vstd::prelude::*;

verus! {

/// Size in bytes of the x86-64 general-purpose register file (`user_regs_struct`).
pub const GP_REGISTERS_SIZE: usize = 216;

/// Number of 64-bit words in the register file.
pub const GP_REGISTER_COUNT: usize = 27;

/// Byte offset of `rax`, the register that holds a function's return value.
pub const RETURN_VALUE_OFFSET: usize = 80;

/// The general-purpose register file of an x86-64 process, in the order in
/// which the kernel lays it out.
#[derive(Clone, Copy, Debug, Default, PartialEq, Eq, Structural)]
pub struct GpRegisters {
    pub r15: u64,
    pub r14: u64,
    pub r13: u64,
    pub r12: u64,
    pub rbp: u64,
    pub rbx: u64,
    pub r11: u64,
    pub r10: u64,
    pub r9: u64,
    pub r8: u64,
    pub rax: u64,
    pub rcx: u64,
    pub rdx: u64,
    pub rsi: u64,
    pub rdi: u64,
    pub orig_rax: u64,
    pub rip: u64,
    pub cs: u64,
    pub eflags: u64,
    pub rsp: u64,
    pub ss: u64,
    pub fs_base: u64,
    pub gs_base: u64,
    pub ds: u64,
    pub es: u64,
    pub fs: u64,
    pub gs: u64,
}

impl GpRegisters {
    /// The registers in layout order: word `i` sits at byte `8 * i`.
    pub open spec fn words(&self) -> Seq<u64> {
        seq![
            self.r15,
            self.r14,
            self.r13,
            self.r12,
            self.rbp,
            self.rbx,
            self.r11,
            self.r10,
            self.r9,
            self.r8,
            self.rax,
            self.rcx,
            self.rdx,
            self.rsi,
            self.rdi,
            self.orig_rax,
            self.rip,
            self.cs,
            self.eflags,
            self.rsp,
            self.ss,
            self.fs_base,
            self.gs_base,
            self.ds,
            self.es,
            self.fs,
            self.gs,
        ]
    }

    /// Whether this register file is the one that `b` encodes.
    pub open spec fn decodes(&self, b: Seq<u8>) -> bool {
        &&& b.len() == GP_REGISTERS_SIZE
        &&& forall|i: int| 0 <= i < GP_REGISTER_COUNT ==> #[trigger] self.words()[i] == le_u64(b, 8 * i)
    }

    /// Decodes the register file from the kernel's byte layout; `None` when
    /// `b` does not have exactly the size of the register file.
    pub fn from_bytes(b: &[u8]) -> (r: Option<GpRegisters>)
        ensures
            r is Some <==> b@.len() == GP_REGISTERS_SIZE,
            r matches Some(g) ==> g.decodes(b@),
    {
        if b.len() != GP_REGISTERS_SIZE {
            return None;
        }
        let g = GpRegisters {
            r15: read_u64_le(b, 0),
            r14: read_u64_le(b, 8),
            r13: read_u64_le(b, 16),
            r12: read_u64_le(b, 24),
            rbp: read_u64_le(b, 32),
            rbx: read_u64_le(b, 40),
            r11: read_u64_le(b, 48),
            r10: read_u64_le(b, 56),
            r9: read_u64_le(b, 64),
            r8: read_u64_le(b, 72),
            rax: read_u64_le(b, 80),
            rcx: read_u64_le(b, 88),
            rdx: read_u64_le(b, 96),
            rsi: read_u64_le(b, 104),
            rdi: read_u64_le(b, 112),
            orig_rax: read_u64_le(b, 120),
            rip: read_u64_le(b, 128),
            cs: read_u64_le(b, 136),
            eflags: read_u64_le(b, 144),
            rsp: read_u64_le(b, 152),
            ss: read_u64_le(b, 160),
            fs_base: read_u64_le(b, 168),
            gs_base: read_u64_le(b, 176),
            ds: read_u64_le(b, 184),
            es: read_u64_le(b, 192),
            fs: read_u64_le(b, 200),
            gs: read_u64_le(b, 208),
        };
        assert(g.decodes(b@));
        Some(g)
    }

    /// The register that holds a function's return value.
    pub fn return_value(&self) -> (r: u64)
        ensures
            r == self.rax,
            r == self.words()[(RETURN_VALUE_OFFSET / 8) as int],
    {
        self.rax
    }

    /// The program counter.
    pub fn program_counter(&self) -> (r: u64)
        ensures
            r == self.rip,
    {
        self.rip
    }

    /// The stack pointer.
    pub fn stack_pointer(&self) -> (r: u64)
        ensures
            r == self.rsp,
    {
        self.rsp
    }
}

} // verus!
