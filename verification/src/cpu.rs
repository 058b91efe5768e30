use vstd::prelude::*;
use crate::error::VBoxError;

verus! {

/// Operating mode of a virtual CPU.
#[derive(Debug, Clone, Copy, PartialEq, Eq, Structural)]
pub enum CpuMode {
    Real,
    Protected,
    LongMode,
    Legacy,
}

/// Architectural register file of one virtual CPU.
#[derive(Debug, Clone, Copy)]
pub struct CpuState {
    pub rax: u64,
    pub rbx: u64,
    pub rcx: u64,
    pub rdx: u64,
    pub rsi: u64,
    pub rdi: u64,
    pub rbp: u64,
    pub rsp: u64,
    pub r8: u64,
    pub r9: u64,
    pub r10: u64,
    pub r11: u64,
    pub r12: u64,
    pub r13: u64,
    pub r14: u64,
    pub r15: u64,
    pub rip: u64,
    pub rflags: u64,
    pub cs: u64,
    pub ds: u64,
    pub es: u64,
    pub fs: u64,
    pub gs: u64,
    pub ss: u64,
    pub efer: u64,
    pub cr0: u64,
    pub cr2: u64,
    pub cr3: u64,
    pub cr4: u64,
    pub dr0: u64,
    pub dr1: u64,
    pub dr2: u64,
    pub dr3: u64,
    pub dr6: u64,
    pub dr7: u64,
    pub mode: CpuMode,
}

/// The reset register file: every register zero, protected mode.
pub open spec fn cpu_state_reset() -> CpuState {
    CpuState {
        rax: 0, rbx: 0, rcx: 0, rdx: 0,
        rsi: 0, rdi: 0, rbp: 0, rsp: 0,
        r8: 0, r9: 0, r10: 0, r11: 0,
        r12: 0, r13: 0, r14: 0, r15: 0,
        rip: 0, rflags: 0,
        cs: 0, ds: 0, es: 0, fs: 0, gs: 0, ss: 0,
        efer: 0, cr0: 0, cr2: 0, cr3: 0, cr4: 0,
        dr0: 0, dr1: 0, dr2: 0, dr3: 0, dr6: 0, dr7: 0,
        mode: CpuMode::Protected,
    }
}

impl Default for CpuState {
    fn default() -> (s: Self)
        ensures
            s == cpu_state_reset(),
    {
        CpuState {
            rax: 0, rbx: 0, rcx: 0, rdx: 0,
            rsi: 0, rdi: 0, rbp: 0, rsp: 0,
            r8: 0, r9: 0, r10: 0, r11: 0,
            r12: 0, r13: 0, r14: 0, r15: 0,
            rip: 0, rflags: 0,
            cs: 0, ds: 0, es: 0, fs: 0, gs: 0, ss: 0,
            efer: 0, cr0: 0, cr2: 0, cr3: 0, cr4: 0,
            dr0: 0, dr1: 0, dr2: 0, dr3: 0, dr6: 0, dr7: 0,
            mode: CpuMode::Protected,
        }
    }
}

/// Returns a register file in the reset state.
pub fn cpu_state_default() -> (s: CpuState)
    ensures
        s == cpu_state_reset(),
{
    CpuState::default()
}


/// One model of the CPUID database.
#[derive(Debug, Clone, Copy)]
pub struct CpuIdEntry {
    pub vendor: &'static str,
    pub brand: &'static str,
    pub family: u8,
    pub model: u8,
    pub stepping: u8,
    pub ext_family: u8,
    pub ext_model: u8,
    pub cpu_count: u8,
    pub features_edx: u32,
    pub features_ecx: u32,
    pub ext_features_edx: u32,
    pub ext_features_ecx: u32,
}

/// Number of models in the CPUID database.
pub const CPUID_DATABASE_LEN: usize = 25;

/// The CPU models known to the CPUID database, by index.
pub open spec fn cpuid_entry_spec(i: int) -> CpuIdEntry {
    if i == 0 {
        CpuIdEntry { vendor: "GenuineIntel", brand: "Intel Core i7-4790", family: 6, model: 60, stepping: 3, ext_family: 0, ext_model: 3, cpu_count: 4, features_edx: 0x0F81078F, features_ecx: 0x00000007, ext_features_edx: 0x00000001, ext_features_ecx: 0x00000001 }
    } else if i == 1 {
        CpuIdEntry { vendor: "GenuineIntel", brand: "Intel Core i7-6700K", family: 6, model: 94, stepping: 3, ext_family: 0, ext_model: 3, cpu_count: 4, features_edx: 0x0F81078F, features_ecx: 0x00000007, ext_features_edx: 0x00000001, ext_features_ecx: 0x00000001 }
    } else if i == 2 {
        CpuIdEntry { vendor: "GenuineIntel", brand: "Intel Core i9-9900K", family: 6, model: 158, stepping: 10, ext_family: 0, ext_model: 9, cpu_count: 8, features_edx: 0x0F81078F, features_ecx: 0x00000007, ext_features_edx: 0x00000001, ext_features_ecx: 0x00000001 }
    } else if i == 3 {
        CpuIdEntry { vendor: "GenuineIntel", brand: "Intel Core i5-12400", family: 6, model: 151, stepping: 2, ext_family: 0, ext_model: 0, cpu_count: 6, features_edx: 0x0F81078F, features_ecx: 0x00000007, ext_features_edx: 0x00000001, ext_features_ecx: 0x00000001 }
    } else if i == 4 {
        CpuIdEntry { vendor: "GenuineIntel", brand: "Intel Xeon E5-2690", family: 6, model: 62, stepping: 4, ext_family: 0, ext_model: 4, cpu_count: 8, features_edx: 0x0F81078F, features_ecx: 0x00000007, ext_features_edx: 0x00000001, ext_features_ecx: 0x00000001 }
    } else if i == 5 {
        CpuIdEntry { vendor: "AuthenticAMD", brand: "AMD Ryzen 7 5800X", family: 25, model: 80, stepping: 0, ext_family: 0, ext_model: 0, cpu_count: 8, features_edx: 0x0F81078F, features_ecx: 0x00000007, ext_features_edx: 0x00000001, ext_features_ecx: 0x00000001 }
    } else if i == 6 {
        CpuIdEntry { vendor: "AuthenticAMD", brand: "AMD Ryzen 9 5900X", family: 25, model: 101, stepping: 0, ext_family: 0, ext_model: 0, cpu_count: 12, features_edx: 0x0F81078F, features_ecx: 0x00000007, ext_features_edx: 0x00000001, ext_features_ecx: 0x00000001 }
    } else if i == 7 {
        CpuIdEntry { vendor: "AuthenticAMD", brand: "AMD Ryzen 5 3600", family: 23, model: 96, stepping: 0, ext_family: 0, ext_model: 0, cpu_count: 6, features_edx: 0x0F81078F, features_ecx: 0x00000007, ext_features_edx: 0x00000001, ext_features_ecx: 0x00000001 }
    } else if i == 8 {
        CpuIdEntry { vendor: "AuthenticAMD", brand: "AMD Ryzen 7 2700X", family: 23, model: 48, stepping: 1, ext_family: 0, ext_model: 0, cpu_count: 8, features_edx: 0x0F81078F, features_ecx: 0x00000007, ext_features_edx: 0x00000001, ext_features_ecx: 0x00000001 }
    } else if i == 9 {
        CpuIdEntry { vendor: "AuthenticAMD", brand: "AMD Ryzen 9 7950X", family: 25, model: 176, stepping: 1, ext_family: 0, ext_model: 0, cpu_count: 16, features_edx: 0x0F81078F, features_ecx: 0x00000007, ext_features_edx: 0x00000001, ext_features_ecx: 0x00000001 }
    } else if i == 10 {
        CpuIdEntry { vendor: "GenuineIntel", brand: "Intel Core i3-10100", family: 6, model: 122, stepping: 2, ext_family: 0, ext_model: 0, cpu_count: 4, features_edx: 0x0F81078F, features_ecx: 0x00000007, ext_features_edx: 0x00000001, ext_features_ecx: 0x00000001 }
    } else if i == 11 {
        CpuIdEntry { vendor: "GenuineIntel", brand: "Intel Core i7-3770", family: 6, model: 58, stepping: 9, ext_family: 0, ext_model: 5, cpu_count: 4, features_edx: 0x0F81078F, features_ecx: 0x00000007, ext_features_edx: 0x00000001, ext_features_ecx: 0x00000001 }
    } else if i == 12 {
        CpuIdEntry { vendor: "GenuineIntel", brand: "Intel Core i5-4690", family: 6, model: 61, stepping: 2, ext_family: 0, ext_model: 2, cpu_count: 4, features_edx: 0x0F81078F, features_ecx: 0x00000007, ext_features_edx: 0x00000001, ext_features_ecx: 0x00000001 }
    } else if i == 13 {
        CpuIdEntry { vendor: "GenuineIntel", brand: "Intel Xeon E3-1270", family: 6, model: 60, stepping: 3, ext_family: 0, ext_model: 3, cpu_count: 4, features_edx: 0x0F81078F, features_ecx: 0x00000007, ext_features_edx: 0x00000001, ext_features_ecx: 0x00000001 }
    } else if i == 14 {
        CpuIdEntry { vendor: "GenuineIntel", brand: "Intel Pentium G4560", family: 6, model: 94, stepping: 3, ext_family: 0, ext_model: 3, cpu_count: 2, features_edx: 0x0F81078F, features_ecx: 0x00000007, ext_features_edx: 0x00000001, ext_features_ecx: 0x00000001 }
    } else if i == 15 {
        CpuIdEntry { vendor: "AuthenticAMD", brand: "AMD FX-8350", family: 21, model: 1, stepping: 1, ext_family: 0, ext_model: 0, cpu_count: 8, features_edx: 0x0F81078F, features_ecx: 0x00000007, ext_features_edx: 0x00000001, ext_features_ecx: 0x00000001 }
    } else if i == 16 {
        CpuIdEntry { vendor: "AuthenticAMD", brand: "AMD Ryzen 7 1700", family: 23, model: 31, stepping: 1, ext_family: 0, ext_model: 0, cpu_count: 8, features_edx: 0x0F81078F, features_ecx: 0x00000007, ext_features_edx: 0x00000001, ext_features_ecx: 0x00000001 }
    } else if i == 17 {
        CpuIdEntry { vendor: "AuthenticAMD", brand: "AMD Ryzen 3 3100", family: 23, model: 96, stepping: 0, ext_family: 0, ext_model: 0, cpu_count: 4, features_edx: 0x0F81078F, features_ecx: 0x00000007, ext_features_edx: 0x00000001, ext_features_ecx: 0x00000001 }
    } else if i == 18 {
        CpuIdEntry { vendor: "GenuineIntel", brand: "Intel Core i9-13900K", family: 6, model: 183, stepping: 1, ext_family: 0, ext_model: 13, cpu_count: 24, features_edx: 0x0F81078F, features_ecx: 0x00000007, ext_features_edx: 0x00000001, ext_features_ecx: 0x00000001 }
    } else if i == 19 {
        CpuIdEntry { vendor: "GenuineIntel", brand: "Intel Core Ultra 7 265K", family: 6, model: 202, stepping: 2, ext_family: 0, ext_model: 2, cpu_count: 20, features_edx: 0x0F81078F, features_ecx: 0x00000007, ext_features_edx: 0x00000001, ext_features_ecx: 0x00000001 }
    } else if i == 20 {
        CpuIdEntry { vendor: "AuthenticAMD", brand: "AMD Ryzen 7 7700X", family: 25, model: 96, stepping: 1, ext_family: 0, ext_model: 0, cpu_count: 8, features_edx: 0x0F81078F, features_ecx: 0x00000007, ext_features_edx: 0x00000001, ext_features_ecx: 0x00000001 }
    } else if i == 21 {
        CpuIdEntry { vendor: "AuthenticAMD", brand: "AMD Ryzen 9 7900X", family: 25, model: 171, stepping: 1, ext_family: 0, ext_model: 0, cpu_count: 12, features_edx: 0x0F81078F, features_ecx: 0x00000007, ext_features_edx: 0x00000001, ext_features_ecx: 0x00000001 }
    } else if i == 22 {
        CpuIdEntry { vendor: "GenuineIntel", brand: "Intel Celeron G5905", family: 6, model: 151, stepping: 2, ext_family: 0, ext_model: 0, cpu_count: 2, features_edx: 0x0F81078F, features_ecx: 0x00000007, ext_features_edx: 0x00000001, ext_features_ecx: 0x00000001 }
    } else if i == 23 {
        CpuIdEntry { vendor: "GenuineIntel", brand: "Intel Atom N5100", family: 6, model: 138, stepping: 2, ext_family: 0, ext_model: 0, cpu_count: 4, features_edx: 0x0F81078F, features_ecx: 0x00000007, ext_features_edx: 0x00000001, ext_features_ecx: 0x00000001 }
    } else {
        CpuIdEntry { vendor: "AuthenticAMD", brand: "AMD EPYC 7763", family: 25, model: 1, stepping: 1, ext_family: 0, ext_model: 0, cpu_count: 64, features_edx: 0x0F81078F, features_ecx: 0x00000007, ext_features_edx: 0x00000001, ext_features_ecx: 0x00000001 }
    }
}

/// Returns entry `idx` of the CPUID database.
pub fn cpuid_database_entry(idx: usize) -> (e: CpuIdEntry)
    requires
        idx < CPUID_DATABASE_LEN,
    ensures
        e == cpuid_entry_spec(idx as int),
{
    match idx {
        0 => CpuIdEntry { vendor: "GenuineIntel", brand: "Intel Core i7-4790", family: 6, model: 60, stepping: 3, ext_family: 0, ext_model: 3, cpu_count: 4, features_edx: 0x0F81078F, features_ecx: 0x00000007, ext_features_edx: 0x00000001, ext_features_ecx: 0x00000001 },
        1 => CpuIdEntry { vendor: "GenuineIntel", brand: "Intel Core i7-6700K", family: 6, model: 94, stepping: 3, ext_family: 0, ext_model: 3, cpu_count: 4, features_edx: 0x0F81078F, features_ecx: 0x00000007, ext_features_edx: 0x00000001, ext_features_ecx: 0x00000001 },
        2 => CpuIdEntry { vendor: "GenuineIntel", brand: "Intel Core i9-9900K", family: 6, model: 158, stepping: 10, ext_family: 0, ext_model: 9, cpu_count: 8, features_edx: 0x0F81078F, features_ecx: 0x00000007, ext_features_edx: 0x00000001, ext_features_ecx: 0x00000001 },
        3 => CpuIdEntry { vendor: "GenuineIntel", brand: "Intel Core i5-12400", family: 6, model: 151, stepping: 2, ext_family: 0, ext_model: 0, cpu_count: 6, features_edx: 0x0F81078F, features_ecx: 0x00000007, ext_features_edx: 0x00000001, ext_features_ecx: 0x00000001 },
        4 => CpuIdEntry { vendor: "GenuineIntel", brand: "Intel Xeon E5-2690", family: 6, model: 62, stepping: 4, ext_family: 0, ext_model: 4, cpu_count: 8, features_edx: 0x0F81078F, features_ecx: 0x00000007, ext_features_edx: 0x00000001, ext_features_ecx: 0x00000001 },
        5 => CpuIdEntry { vendor: "AuthenticAMD", brand: "AMD Ryzen 7 5800X", family: 25, model: 80, stepping: 0, ext_family: 0, ext_model: 0, cpu_count: 8, features_edx: 0x0F81078F, features_ecx: 0x00000007, ext_features_edx: 0x00000001, ext_features_ecx: 0x00000001 },
        6 => CpuIdEntry { vendor: "AuthenticAMD", brand: "AMD Ryzen 9 5900X", family: 25, model: 101, stepping: 0, ext_family: 0, ext_model: 0, cpu_count: 12, features_edx: 0x0F81078F, features_ecx: 0x00000007, ext_features_edx: 0x00000001, ext_features_ecx: 0x00000001 },
        7 => CpuIdEntry { vendor: "AuthenticAMD", brand: "AMD Ryzen 5 3600", family: 23, model: 96, stepping: 0, ext_family: 0, ext_model: 0, cpu_count: 6, features_edx: 0x0F81078F, features_ecx: 0x00000007, ext_features_edx: 0x00000001, ext_features_ecx: 0x00000001 },
        8 => CpuIdEntry { vendor: "AuthenticAMD", brand: "AMD Ryzen 7 2700X", family: 23, model: 48, stepping: 1, ext_family: 0, ext_model: 0, cpu_count: 8, features_edx: 0x0F81078F, features_ecx: 0x00000007, ext_features_edx: 0x00000001, ext_features_ecx: 0x00000001 },
        9 => CpuIdEntry { vendor: "AuthenticAMD", brand: "AMD Ryzen 9 7950X", family: 25, model: 176, stepping: 1, ext_family: 0, ext_model: 0, cpu_count: 16, features_edx: 0x0F81078F, features_ecx: 0x00000007, ext_features_edx: 0x00000001, ext_features_ecx: 0x00000001 },
        10 => CpuIdEntry { vendor: "GenuineIntel", brand: "Intel Core i3-10100", family: 6, model: 122, stepping: 2, ext_family: 0, ext_model: 0, cpu_count: 4, features_edx: 0x0F81078F, features_ecx: 0x00000007, ext_features_edx: 0x00000001, ext_features_ecx: 0x00000001 },
        11 => CpuIdEntry { vendor: "GenuineIntel", brand: "Intel Core i7-3770", family: 6, model: 58, stepping: 9, ext_family: 0, ext_model: 5, cpu_count: 4, features_edx: 0x0F81078F, features_ecx: 0x00000007, ext_features_edx: 0x00000001, ext_features_ecx: 0x00000001 },
        12 => CpuIdEntry { vendor: "GenuineIntel", brand: "Intel Core i5-4690", family: 6, model: 61, stepping: 2, ext_family: 0, ext_model: 2, cpu_count: 4, features_edx: 0x0F81078F, features_ecx: 0x00000007, ext_features_edx: 0x00000001, ext_features_ecx: 0x00000001 },
        13 => CpuIdEntry { vendor: "GenuineIntel", brand: "Intel Xeon E3-1270", family: 6, model: 60, stepping: 3, ext_family: 0, ext_model: 3, cpu_count: 4, features_edx: 0x0F81078F, features_ecx: 0x00000007, ext_features_edx: 0x00000001, ext_features_ecx: 0x00000001 },
        14 => CpuIdEntry { vendor: "GenuineIntel", brand: "Intel Pentium G4560", family: 6, model: 94, stepping: 3, ext_family: 0, ext_model: 3, cpu_count: 2, features_edx: 0x0F81078F, features_ecx: 0x00000007, ext_features_edx: 0x00000001, ext_features_ecx: 0x00000001 },
        15 => CpuIdEntry { vendor: "AuthenticAMD", brand: "AMD FX-8350", family: 21, model: 1, stepping: 1, ext_family: 0, ext_model: 0, cpu_count: 8, features_edx: 0x0F81078F, features_ecx: 0x00000007, ext_features_edx: 0x00000001, ext_features_ecx: 0x00000001 },
        16 => CpuIdEntry { vendor: "AuthenticAMD", brand: "AMD Ryzen 7 1700", family: 23, model: 31, stepping: 1, ext_family: 0, ext_model: 0, cpu_count: 8, features_edx: 0x0F81078F, features_ecx: 0x00000007, ext_features_edx: 0x00000001, ext_features_ecx: 0x00000001 },
        17 => CpuIdEntry { vendor: "AuthenticAMD", brand: "AMD Ryzen 3 3100", family: 23, model: 96, stepping: 0, ext_family: 0, ext_model: 0, cpu_count: 4, features_edx: 0x0F81078F, features_ecx: 0x00000007, ext_features_edx: 0x00000001, ext_features_ecx: 0x00000001 },
        18 => CpuIdEntry { vendor: "GenuineIntel", brand: "Intel Core i9-13900K", family: 6, model: 183, stepping: 1, ext_family: 0, ext_model: 13, cpu_count: 24, features_edx: 0x0F81078F, features_ecx: 0x00000007, ext_features_edx: 0x00000001, ext_features_ecx: 0x00000001 },
        19 => CpuIdEntry { vendor: "GenuineIntel", brand: "Intel Core Ultra 7 265K", family: 6, model: 202, stepping: 2, ext_family: 0, ext_model: 2, cpu_count: 20, features_edx: 0x0F81078F, features_ecx: 0x00000007, ext_features_edx: 0x00000001, ext_features_ecx: 0x00000001 },
        20 => CpuIdEntry { vendor: "AuthenticAMD", brand: "AMD Ryzen 7 7700X", family: 25, model: 96, stepping: 1, ext_family: 0, ext_model: 0, cpu_count: 8, features_edx: 0x0F81078F, features_ecx: 0x00000007, ext_features_edx: 0x00000001, ext_features_ecx: 0x00000001 },
        21 => CpuIdEntry { vendor: "AuthenticAMD", brand: "AMD Ryzen 9 7900X", family: 25, model: 171, stepping: 1, ext_family: 0, ext_model: 0, cpu_count: 12, features_edx: 0x0F81078F, features_ecx: 0x00000007, ext_features_edx: 0x00000001, ext_features_ecx: 0x00000001 },
        22 => CpuIdEntry { vendor: "GenuineIntel", brand: "Intel Celeron G5905", family: 6, model: 151, stepping: 2, ext_family: 0, ext_model: 0, cpu_count: 2, features_edx: 0x0F81078F, features_ecx: 0x00000007, ext_features_edx: 0x00000001, ext_features_ecx: 0x00000001 },
        23 => CpuIdEntry { vendor: "GenuineIntel", brand: "Intel Atom N5100", family: 6, model: 138, stepping: 2, ext_family: 0, ext_model: 0, cpu_count: 4, features_edx: 0x0F81078F, features_ecx: 0x00000007, ext_features_edx: 0x00000001, ext_features_ecx: 0x00000001 },
        _ => CpuIdEntry { vendor: "AuthenticAMD", brand: "AMD EPYC 7763", family: 25, model: 1, stepping: 1, ext_family: 0, ext_model: 0, cpu_count: 64, features_edx: 0x0F81078F, features_ecx: 0x00000007, ext_features_edx: 0x00000001, ext_features_ecx: 0x00000001 },
    }
}


/// The four registers that a CPUID leaf reports for a database entry:
/// leaf 0 gives the standard feature words, leaf 1 the extended ones,
/// every other leaf zeros.
pub open spec fn cpuid_leaf_spec(e: CpuIdEntry, leaf: u32) -> (u32, u32, u32, u32) {
    if leaf == 0 {
        (e.features_edx, e.features_ecx, 0, 0)
    } else if leaf == 1 {
        (e.ext_features_edx, e.ext_features_ecx, 0, 0)
    } else {
        (0, 0, 0, 0)
    }
}

/// Every model of the database reports the same feature words: leaf 0 gives
/// EDX 0x0F81078F and ECX 7, leaf 1 gives 1 and 1, and every other leaf all
/// zeros. So a CPUID answer depends on the leaf alone, whatever the CPU.
pub proof fn lemma_cpuid_leaves_of_every_model(i: int, leaf: u32)
    ensures
        cpuid_leaf_spec(cpuid_entry_spec(i), leaf) == if leaf == 0 {
            (0x0F81078Fu32, 7u32, 0u32, 0u32)
        } else if leaf == 1 {
            (1u32, 1u32, 0u32, 0u32)
        } else {
            (0u32, 0u32, 0u32, 0u32)
        },
{
}

/// CPUID for virtual CPU `cpu_id`: the CPU is mapped onto the database by
/// `cpu_id` modulo the database size.
pub fn cpum_get_id(cpu_id: u32, leaf: u32) -> (r: (u32, u32, u32, u32))
    ensures
        r == cpuid_leaf_spec(cpuid_entry_spec((cpu_id % (CPUID_DATABASE_LEN as u32)) as int), leaf),
{
    let idx = cpu_id % (CPUID_DATABASE_LEN as u32);
    let entry = cpuid_database_entry(idx as usize);
    match leaf {
        0 => (entry.features_edx, entry.features_ecx, 0, 0),
        1 => (entry.ext_features_edx, entry.ext_features_ecx, 0, 0),
        _ => (0, 0, 0, 0),
    }
}

/// Number of register files that a fresh context table holds.
pub const INITIAL_CPU_CONTEXTS: usize = 256;

/// The guest register files of all virtual CPUs, indexed by CPU number.
pub struct CpuContexts {
    pub states: Vec<CpuState>,
}

impl CpuContexts {
    /// A table of `INITIAL_CPU_CONTEXTS` register files in the reset state.
    pub fn new() -> (t: Self)
        ensures
            t.states@.len() == INITIAL_CPU_CONTEXTS,
            forall|i: int| 0 <= i < INITIAL_CPU_CONTEXTS ==> #[trigger] t.states@[i] == cpu_state_reset(),
    {
        let mut states: Vec<CpuState> = Vec::new();
        let mut i: usize = 0;
        while i < INITIAL_CPU_CONTEXTS
            invariant
                i <= INITIAL_CPU_CONTEXTS,
                states@.len() == i,
                forall|j: int| 0 <= j < i ==> #[trigger] states@[j] == cpu_state_reset(),
            decreases INITIAL_CPU_CONTEXTS - i,
        {
            states.push(CpuState::default());
            i = i + 1;
        }
        CpuContexts { states }
    }

    /// Grows the table with reset register files so that `cpu_index` is valid.
    fn ensure_index(&mut self, cpu_index: usize)
        requires
            cpu_index < usize::MAX,
        ensures
            final(self).states@.len() == if cpu_index < old(self).states@.len() {
                old(self).states@.len() as int
            } else {
                cpu_index + 1
            },
            forall|i: int| 0 <= i < old(self).states@.len() ==> #[trigger] final(self).states@[i] == old(self).states@[i],
            forall|i: int| old(self).states@.len() <= i < final(self).states@.len() ==> #[trigger] final(self).states@[i] == cpu_state_reset(),
    {
        while self.states.len() <= cpu_index
            invariant
                cpu_index < usize::MAX,
                old(self).states@.len() <= self.states@.len(),
                self.states@.len() <= if cpu_index < old(self).states@.len() {
                    old(self).states@.len() as int
                } else {
                    cpu_index + 1
                },
                forall|i: int| 0 <= i < old(self).states@.len() ==> #[trigger] self.states@[i] == old(self).states@[i],
                forall|i: int| old(self).states@.len() <= i < self.states@.len() ==> #[trigger] self.states@[i] == cpu_state_reset(),
            decreases cpu_index + 1 - self.states@.len(),
        {
            self.states.push(CpuState::default());
        }
    }
}

/// The register file of CPU `i` in the table `states`: the stored one, or
/// the reset state for a CPU past the end of the table.
pub open spec fn context_of(states: Seq<CpuState>, i: int) -> CpuState {
    if 0 <= i < states.len() {
        states[i]
    } else {
        cpu_state_reset()
    }
}

/// The table `states` after `s` is stored for CPU `i`: grown with reset
/// register files so that it covers `i`, then `s` in place `i`.
pub open spec fn contexts_after_set(states: Seq<CpuState>, i: int, s: CpuState) -> Seq<CpuState> {
    let len = if i < states.len() { states.len() as int } else { i + 1 };
    Seq::new(len as nat, |j: int| if j == i { s } else { context_of(states, j) })
}

/// Gives access to the register file of CPU `cpu_index`, first growing the
/// table with reset register files when the index lies past its end.
pub fn cpum_get_guest_context(table: &mut CpuContexts, cpu_index: usize) -> (s: &mut CpuState)
    requires
        cpu_index < usize::MAX,
    ensures
        cpu_index < old(table).states@.len() ==> *s == old(table).states@[cpu_index as int],
        cpu_index >= old(table).states@.len() ==> *s == cpu_state_reset(),
        final(table).states@.len() == if cpu_index < old(table).states@.len() {
            old(table).states@.len() as int
        } else {
            cpu_index + 1
        },
        forall|i: int| 0 <= i < final(table).states@.len() && i != cpu_index ==>
            #[trigger] final(table).states@[i] == if i < old(table).states@.len() {
                old(table).states@[i]
            } else {
                cpu_state_reset()
            },
        final(table).states@[cpu_index as int] == *final(s),
        *s == context_of(old(table).states@, cpu_index as int),
        final(table).states@ == contexts_after_set(old(table).states@, cpu_index as int, *final(s)),
{
    table.ensure_index(cpu_index);
    proof {
        assert forall|j: int| 0 <= j < table.states@.len() && j != cpu_index implies
            #[trigger] table.states@[j] == context_of(old(table).states@, j) by {}
    }
    &mut table.states[cpu_index]
}

/// Stores `state` as the register file of CPU `cpu_index`, first growing the
/// table with reset register files when the index lies past its end.
pub fn cpum_set_guest_context(table: &mut CpuContexts, cpu_index: usize, state: &CpuState)
    requires
        cpu_index < usize::MAX,
    ensures
        final(table).states@.len() == if cpu_index < old(table).states@.len() {
            old(table).states@.len() as int
        } else {
            cpu_index + 1
        },
        final(table).states@[cpu_index as int] == *state,
        final(table).states@ == contexts_after_set(old(table).states@, cpu_index as int, *state),
        forall|i: int| 0 <= i < final(table).states@.len() && i != cpu_index ==>
            #[trigger] final(table).states@[i] == if i < old(table).states@.len() {
                old(table).states@[i]
            } else {
                cpu_state_reset()
            },
{
    table.ensure_index(cpu_index);
    table.states.set(cpu_index, *state);
    assert(table.states@ =~= contexts_after_set(old(table).states@, cpu_index as int, *state));
}

/// What is read back of a CPU's register file is what was last stored there,
/// and storing one CPU's file leaves every other CPU's file as it was.
pub proof fn lemma_context_get_after_set(states: Seq<CpuState>, i: int, s: CpuState, j: int)
    requires
        0 <= i,
        0 <= j,
    ensures
        context_of(contexts_after_set(states, i, s), i) == s,
        j != i ==> context_of(contexts_after_set(states, i, s), j) == context_of(states, j),
{
}

/// The CPU manager's context: the guest register file.
#[derive(Debug, Clone, Copy)]
pub struct CPUMCTX {
    pub guest: CpuState,
}

impl CPUMCTX {
    /// A context whose guest register file is in the reset state.
    pub fn new() -> (c: Self)
        ensures
            c.guest == cpu_state_reset(),
    {
        CPUMCTX { guest: CpuState::default() }
    }
}

/// Initialises the CPU manager; it cannot fail.
pub fn CPUMR3Init() -> (r: Result<(), VBoxError>)
    ensures
        r is Ok,
{
    let _ctx = CPUMCTX::new();
    Ok(())
}

} // verus!
