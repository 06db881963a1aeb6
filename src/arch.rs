use crate::aarch64;
use crate::le_bytes::le_u64;
use crate::x86_64;
use vstd::prelude::*;

verus! {

/// The CPU architectures whose register layouts are known.
#[derive(Clone, Copy, Debug, PartialEq, Eq, Structural)]
pub enum Arch {
    X86_64,
    Aarch64,
}

impl Arch {
    pub open spec fn spec_gp_registers_size(self) -> nat {
        match self {
            Arch::X86_64 => x86_64::GP_REGISTERS_SIZE as nat,
            Arch::Aarch64 => aarch64::GP_REGISTERS_SIZE as nat,
        }
    }

    /// Byte offset, within the register file, of the register that holds a
    /// function's return value.
    pub open spec fn spec_return_value_offset(self) -> int {
        match self {
            Arch::X86_64 => x86_64::RETURN_VALUE_OFFSET as int,
            Arch::Aarch64 => aarch64::RETURN_VALUE_OFFSET as int,
        }
    }

    /// Size in bytes of this architecture's general-purpose register file.
    pub fn gp_registers_size(self) -> (r: usize)
        ensures
            r == self.spec_gp_registers_size(),
    {
        match self {
            Arch::X86_64 => x86_64::GP_REGISTERS_SIZE,
            Arch::Aarch64 => aarch64::GP_REGISTERS_SIZE,
        }
    }
}

/// The general-purpose registers of a stopped process, in its architecture's layout.
#[derive(Clone, Copy, Debug)]
pub enum RegisterSnapshot {
    X86_64(x86_64::GpRegisters),
    Aarch64(aarch64::GpRegisters),
}

impl RegisterSnapshot {
    pub open spec fn arch(&self) -> Arch {
        match self {
            RegisterSnapshot::X86_64(_) => Arch::X86_64,
            RegisterSnapshot::Aarch64(_) => Arch::Aarch64,
        }
    }

    /// Whether this snapshot is the register file that `b` encodes.
    pub open spec fn decodes(&self, b: Seq<u8>) -> bool {
        match self {
            RegisterSnapshot::X86_64(g) => g.decodes(b),
            RegisterSnapshot::Aarch64(g) => g.decodes(b),
        }
    }

    pub open spec fn spec_remote_pointer(&self) -> u64 {
        match self {
            RegisterSnapshot::X86_64(g) => g.rax,
            RegisterSnapshot::Aarch64(g) => g.regs@[0],
        }
    }

    /// Decodes the register file that the kernel reported for `arch`; `None`
    /// when `b` does not have that layout's size.
    pub fn from_bytes(arch: Arch, b: &[u8]) -> (r: Option<RegisterSnapshot>)
        ensures
            r is Some <==> b@.len() == arch.spec_gp_registers_size(),
            r matches Some(s) ==> s.arch() == arch && s.decodes(b@),
            r matches Some(s) ==> s.spec_remote_pointer() == le_u64(b@, arch.spec_return_value_offset()),
    {
        let r = match arch {
            Arch::X86_64 => match x86_64::GpRegisters::from_bytes(b) {
                Some(g) => Some(RegisterSnapshot::X86_64(g)),
                None => None,
            },
            Arch::Aarch64 => match aarch64::GpRegisters::from_bytes(b) {
                Some(g) => Some(RegisterSnapshot::Aarch64(g)),
                None => None,
            },
        };
        proof {
            if let Some(s) = r {
                lemma_remote_pointer_is_return_register(arch, b@, s);
            }
        }
        r
    }

    /// The address that the stopped process left in its return-value register.
    pub fn remote_pointer(&self) -> (r: u64)
        ensures
            r == self.spec_remote_pointer(),
    {
        match self {
            RegisterSnapshot::X86_64(g) => g.return_value(),
            RegisterSnapshot::Aarch64(g) => g.return_value(),
        }
    }
}

/// On every architecture, the remote pointer of a snapshot decoded from a
/// register file is the word the process placed in its return-value register.
pub proof fn lemma_remote_pointer_is_return_register(arch: Arch, b: Seq<u8>, s: RegisterSnapshot)
    requires
        s.arch() == arch,
        s.decodes(b),
    ensures
        s.spec_remote_pointer() == le_u64(b, arch.spec_return_value_offset()),
{
    match s {
        RegisterSnapshot::X86_64(g) => {
            assert(g.words()[10] == g.rax);
        },
        RegisterSnapshot::Aarch64(g) => {
            assert(g.words()[0] == g.regs@[0]);
        },
    }
}

} // verus!
