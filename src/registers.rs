use vstd::prelude::*;

verus! {

/// The processor architectures whose register context a snapshot can hold.
#[derive(Debug, Clone, Copy, PartialEq, Eq, Hash, Structural)]
pub enum Arch {
    /// 32-bit x86: eax, ebx, ecx, edx, esi, edi, ebp, esp, eip, eflags.
    X86,
    /// x86-64: rax, rbx, rcx, rdx, rsi, rdi, rbp, rsp, r8 to r15, rip, eflags.
    X64,
    /// AArch64: x0 to x30, sp, pc, cpsr.
    Arm64,
}

/// How many registers a snapshot of `arch` holds, in the order listed on
/// each variant of `Arch`.
pub open spec fn register_count(arch: Arch) -> nat {
    match arch {
        Arch::X86 => 10,
        Arch::X64 => 18,
        Arch::Arm64 => 34,
    }
}

/// Whether `context` is a register context of `arch`: one value per
/// register, and on 32-bit x86 every value fits in 32 bits.
pub open spec fn is_context_of(arch: Arch, context: Seq<u64>) -> bool {
    &&& context.len() == register_count(arch)
    &&& arch is X86 ==> forall|i: int| 0 <= i < context.len() ==> #[trigger] context[i] <= u32::MAX
}

fn count_of(arch: Arch) -> (r: usize)
    ensures
        r == register_count(arch),
{
    match arch {
        Arch::X86 => 10,
        Arch::X64 => 18,
        Arch::Arm64 => 34,
    }
}

/// The register values at the instant a fault was delivered. Read-only once
/// captured.
#[derive(Debug, PartialEq, Eq, Hash)]
pub struct Registers {
    arch: Arch,
    values: Vec<u64>,
}

impl Registers {
    #[verifier::type_invariant]
    spec fn well_formed(self) -> bool {
        is_context_of(self.arch, self.values@)
    }

    /// The architecture of the snapshot.
    pub closed spec fn arch_of(self) -> Arch {
        self.arch
    }

    /// The captured values, in the order of the architecture's register list.
    pub closed spec fn slots(self) -> Seq<u64> {
        self.values@
    }

    /// Copies a register context out of the operating system's buffer into a
    /// snapshot of its own. Refuses a buffer that is no context of `arch`.
    pub fn capture(arch: Arch, context: &[u64]) -> (r: Option<Registers>)
        ensures
            r is Some <==> is_context_of(arch, context@),
            r matches Some(s) ==> s.arch_of() == arch && s.slots() == context@,
    {
        let n = count_of(arch);
        if context.len() != n {
            return None;
        }
        let mut values: Vec<u64> = Vec::with_capacity(n);
        let mut i: usize = 0;
        while i < n
            invariant
                n == context@.len(),
                i <= n,
                values@ == context@.subrange(0, i as int),
                arch is X86 ==> forall|j: int| 0 <= j < i ==> #[trigger] context@[j] <= u32::MAX,
            decreases n - i,
        {
            let v = context[i];
            if arch == Arch::X86 && v > 0xFFFF_FFFF {
                return None;
            }
            values.push(v);
            i = i + 1;
        }
        assert(values@ == context@);
        Some(Registers { arch, values })
    }

    /// The value of register `i` of `arch` in this snapshot; `None` where the
    /// snapshot belongs to another architecture.
    pub open spec fn reg(self, arch: Arch, i: int) -> Option<u64> {
        if self.arch_of() == arch && 0 <= i < self.slots().len() {
            Some(self.slots()[i])
        } else {
            None
        }
    }

    fn slot(&self, arch: Arch, i: usize) -> (r: Option<u64>)
        requires
            i < register_count(arch),
        ensures
            r == self.reg(arch, i as int),
    {
        proof {
            use_type_invariant(self);
        }
        if self.arch == arch {
            Some(self.values[i])
        } else {
            None
        }
    }

    fn slot32(&self, i: usize) -> (r: Option<u32>)
        requires
            i < register_count(Arch::X86),
        ensures
            r is Some <==> self.reg(Arch::X86, i as int) is Some,
            r matches Some(v) ==> self.reg(Arch::X86, i as int) == Some(v as u64),
    {
        proof {
            use_type_invariant(self);
        }
        if self.arch == Arch::X86 {
            assert(self.values@[i as int] <= u32::MAX);
            Some(self.values[i] as u32)
        } else {
            None
        }
    }

    /// The architecture the snapshot was captured on.
    pub fn arch(&self) -> (r: Arch)
        ensures
            r == self.arch_of(),
    {
        self.arch
    }

    /// The captured values, in the order of the architecture's register list.
    pub fn values(&self) -> (r: &[u64])
        ensures
            r@ == self.slots(),
    {
        self.values.as_slice()
    }

    /// Register `eax` of a 32-bit x86 snapshot.
    pub fn eax(&self) -> (r: Option<u32>)
        ensures
            r is Some <==> self.reg(Arch::X86, 0) is Some,
            r matches Some(v) ==> self.reg(Arch::X86, 0) == Some(v as u64),
    {
        self.slot32(0)
    }

    /// Register `ebx` of a 32-bit x86 snapshot.
    pub fn ebx(&self) -> (r: Option<u32>)
        ensures
            r is Some <==> self.reg(Arch::X86, 1) is Some,
            r matches Some(v) ==> self.reg(Arch::X86, 1) == Some(v as u64),
    {
        self.slot32(1)
    }

    /// Register `ecx` of a 32-bit x86 snapshot.
    pub fn ecx(&self) -> (r: Option<u32>)
        ensures
            r is Some <==> self.reg(Arch::X86, 2) is Some,
            r matches Some(v) ==> self.reg(Arch::X86, 2) == Some(v as u64),
    {
        self.slot32(2)
    }

    /// Register `edx` of a 32-bit x86 snapshot.
    pub fn edx(&self) -> (r: Option<u32>)
        ensures
            r is Some <==> self.reg(Arch::X86, 3) is Some,
            r matches Some(v) ==> self.reg(Arch::X86, 3) == Some(v as u64),
    {
        self.slot32(3)
    }

    /// Register `esi` of a 32-bit x86 snapshot.
    pub fn esi(&self) -> (r: Option<u32>)
        ensures
            r is Some <==> self.reg(Arch::X86, 4) is Some,
            r matches Some(v) ==> self.reg(Arch::X86, 4) == Some(v as u64),
    {
        self.slot32(4)
    }

    /// Register `edi` of a 32-bit x86 snapshot.
    pub fn edi(&self) -> (r: Option<u32>)
        ensures
            r is Some <==> self.reg(Arch::X86, 5) is Some,
            r matches Some(v) ==> self.reg(Arch::X86, 5) == Some(v as u64),
    {
        self.slot32(5)
    }

    /// Register `ebp` of a 32-bit x86 snapshot.
    pub fn ebp(&self) -> (r: Option<u32>)
        ensures
            r is Some <==> self.reg(Arch::X86, 6) is Some,
            r matches Some(v) ==> self.reg(Arch::X86, 6) == Some(v as u64),
    {
        self.slot32(6)
    }

    /// Register `esp` of a 32-bit x86 snapshot.
    pub fn esp(&self) -> (r: Option<u32>)
        ensures
            r is Some <==> self.reg(Arch::X86, 7) is Some,
            r matches Some(v) ==> self.reg(Arch::X86, 7) == Some(v as u64),
    {
        self.slot32(7)
    }

    /// Register `eip` of a 32-bit x86 snapshot.
    pub fn eip(&self) -> (r: Option<u32>)
        ensures
            r is Some <==> self.reg(Arch::X86, 8) is Some,
            r matches Some(v) ==> self.reg(Arch::X86, 8) == Some(v as u64),
    {
        self.slot32(8)
    }

    /// Register `rax` of an x86-64 snapshot.
    pub fn rax(&self) -> (r: Option<u64>)
        ensures
            r == self.reg(Arch::X64, 0),
    {
        self.slot(Arch::X64, 0)
    }

    /// Register `rbx` of an x86-64 snapshot.
    pub fn rbx(&self) -> (r: Option<u64>)
        ensures
            r == self.reg(Arch::X64, 1),
    {
        self.slot(Arch::X64, 1)
    }

    /// Register `rcx` of an x86-64 snapshot.
    pub fn rcx(&self) -> (r: Option<u64>)
        ensures
            r == self.reg(Arch::X64, 2),
    {
        self.slot(Arch::X64, 2)
    }

    /// Register `rdx` of an x86-64 snapshot.
    pub fn rdx(&self) -> (r: Option<u64>)
        ensures
            r == self.reg(Arch::X64, 3),
    {
        self.slot(Arch::X64, 3)
    }

    /// Register `rsi` of an x86-64 snapshot.
    pub fn rsi(&self) -> (r: Option<u64>)
        ensures
            r == self.reg(Arch::X64, 4),
    {
        self.slot(Arch::X64, 4)
    }

    /// Register `rdi` of an x86-64 snapshot.
    pub fn rdi(&self) -> (r: Option<u64>)
        ensures
            r == self.reg(Arch::X64, 5),
    {
        self.slot(Arch::X64, 5)
    }

    /// Register `rbp` of an x86-64 snapshot.
    pub fn rbp(&self) -> (r: Option<u64>)
        ensures
            r == self.reg(Arch::X64, 6),
    {
        self.slot(Arch::X64, 6)
    }

    /// Register `rsp` of an x86-64 snapshot.
    pub fn rsp(&self) -> (r: Option<u64>)
        ensures
            r == self.reg(Arch::X64, 7),
    {
        self.slot(Arch::X64, 7)
    }

    /// Register `r8` of an x86-64 snapshot.
    pub fn r8(&self) -> (r: Option<u64>)
        ensures
            r == self.reg(Arch::X64, 8),
    {
        self.slot(Arch::X64, 8)
    }

    /// Register `r9` of an x86-64 snapshot.
    pub fn r9(&self) -> (r: Option<u64>)
        ensures
            r == self.reg(Arch::X64, 9),
    {
        self.slot(Arch::X64, 9)
    }

    /// Register `r10` of an x86-64 snapshot.
    pub fn r10(&self) -> (r: Option<u64>)
        ensures
            r == self.reg(Arch::X64, 10),
    {
        self.slot(Arch::X64, 10)
    }

    /// Register `r11` of an x86-64 snapshot.
    pub fn r11(&self) -> (r: Option<u64>)
        ensures
            r == self.reg(Arch::X64, 11),
    {
        self.slot(Arch::X64, 11)
    }

    /// Register `r12` of an x86-64 snapshot.
    pub fn r12(&self) -> (r: Option<u64>)
        ensures
            r == self.reg(Arch::X64, 12),
    {
        self.slot(Arch::X64, 12)
    }

    /// Register `r13` of an x86-64 snapshot.
    pub fn r13(&self) -> (r: Option<u64>)
        ensures
            r == self.reg(Arch::X64, 13),
    {
        self.slot(Arch::X64, 13)
    }

    /// Register `r14` of an x86-64 snapshot.
    pub fn r14(&self) -> (r: Option<u64>)
        ensures
            r == self.reg(Arch::X64, 14),
    {
        self.slot(Arch::X64, 14)
    }

    /// Register `r15` of an x86-64 snapshot.
    pub fn r15(&self) -> (r: Option<u64>)
        ensures
            r == self.reg(Arch::X64, 15),
    {
        self.slot(Arch::X64, 15)
    }

    /// Register `rip` of an x86-64 snapshot.
    pub fn rip(&self) -> (r: Option<u64>)
        ensures
            r == self.reg(Arch::X64, 16),
    {
        self.slot(Arch::X64, 16)
    }

    /// The flags register of an x86 or x86-64 snapshot.
    pub fn eflags(&self) -> (r: Option<u64>)
        ensures
            r == (match self.arch_of() {
                Arch::X86 => self.reg(Arch::X86, 9),
                Arch::X64 => self.reg(Arch::X64, 17),
                Arch::Arm64 => None,
            }),
    {
        match self.arch {
            Arch::X86 => self.slot(Arch::X86, 9),
            Arch::X64 => self.slot(Arch::X64, 17),
            Arch::Arm64 => None,
        }
    }

    /// General register `x<n>` of an AArch64 snapshot; `None` past `x30`.
    pub fn x(&self, n: usize) -> (r: Option<u64>)
        ensures
            r == (if n <= 30 { self.reg(Arch::Arm64, n as int) } else { None }),
    {
        if n <= 30 {
            self.slot(Arch::Arm64, n)
        } else {
            None
        }
    }

    /// Register `sp` of an AArch64 snapshot.
    pub fn sp(&self) -> (r: Option<u64>)
        ensures
            r == self.reg(Arch::Arm64, 31),
    {
        self.slot(Arch::Arm64, 31)
    }

    /// Register `pc` of an AArch64 snapshot.
    pub fn pc(&self) -> (r: Option<u64>)
        ensures
            r == self.reg(Arch::Arm64, 32),
    {
        self.slot(Arch::Arm64, 32)
    }

    /// Register `cpsr` of an AArch64 snapshot.
    pub fn cpsr(&self) -> (r: Option<u64>)
        ensures
            r == self.reg(Arch::Arm64, 33),
    {
        self.slot(Arch::Arm64, 33)
    }
}

/// A snapshot reads back each register exactly as the captured context held
/// it at the fault site.
pub proof fn lemma_snapshot_reflects_context(arch: Arch, context: Seq<u64>, s: Registers, i: int)
    requires
        s.arch_of() == arch,
        s.slots() == context,
        0 <= i < context.len(),
    ensures
        s.reg(arch, i) == Some(context[i]),
{
}

impl Clone for Registers {
    fn clone(&self) -> (r: Self)
        ensures
            r.arch_of() == self.arch_of(),
            r.slots() == self.slots(),
    {
        proof {
            use_type_invariant(self);
        }
        let values = self.values.clone();
        assert(values@ == self.values@);
        Registers { arch: self.arch, values }
    }
}

} // verus!
