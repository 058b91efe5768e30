use vstd::prelude::*;
use crate::error::{VBoxError, VBoxResult};
use crate::cpu::{CpuState, cpu_state_reset};
use crate::em::EMState;
use crate::vm::VM;

verus! {

/// How the interpreter runs the guest.
#[derive(Debug, Clone, Copy, PartialEq, Eq, Structural)]
pub enum IemRunMode {
    Normal,
    SingleStep,
    Halt,
}

/// Bookkeeping state of the instruction interpreter.
#[derive(Debug, Clone, Copy)]
pub struct IemState {
    pub instruction_count: u64,
    pub interrupt_state: bool,
    pub halt_state: bool,
    pub nested_level: u32,
    pub idt_irq: u8,
    pub run_mode: IemRunMode,
}

/// The interpreter state right after initialisation.
pub open spec fn iem_state_initial() -> IemState {
    IemState {
        instruction_count: 0,
        interrupt_state: false,
        halt_state: false,
        nested_level: 0,
        idt_irq: 0,
        run_mode: IemRunMode::Normal,
    }
}

impl Default for IemState {
    fn default() -> (s: Self)
        ensures
            s == iem_state_initial(),
    {
        IemState {
            instruction_count: 0,
            interrupt_state: false,
            halt_state: false,
            nested_level: 0,
            idt_irq: 0,
            run_mode: IemRunMode::Normal,
        }
    }
}

/// Instructions the interpreter distinguishes.
#[derive(Debug, Clone, Copy, PartialEq, Eq, Structural)]
pub enum IEMInstruction {
    MOV,
    ADD,
    SUB,
    JMP,
    CALL,
    RET,
    PUSH,
    POP,
    CMP,
    TEST,
    LEA,
    XOR,
    OR,
    AND,
    NOT,
    SHL,
    SHR,
    SAR,
    INC,
    DEC,
    NOP,
    HLT,
    INT,
    IRET,
    PUSHF,
    POPF,
    LAHF,
    SAHF,
    XCHG,
    MOVSX,
    MOVZX,
    CMOV,
    SETCC,
    JCC,
    LOOP,
    LOOPZ,
    LOOPNZ,
    REPE,
    REPNE,
    MUL,
    IMUL,
    DIV,
    IDIV,
    CBW,
    CWD,
    CDQ,
    CQO,
    CLC,
    STC,
    CMC,
    CLD,
    STD,
    CLI,
    STI,
    WAIT,
    FENCE,
    LFENCE,
    MFENCE,
    SFENCE,
    PAUSE,
    UD2,
    RDTSC,
    RDTSCP,
    CPUID,
    VMCALL,
    IN,
    OUT,
    INS,
    OUTS,
    LODS,
    STOS,
    MOVS,
    CMPS,
    SCAS,
    ENTER,
    LEAVE,
    RETF,
    IRETQ,
    SHL_IMM,
    SHR_IMM,
    SAR_IMM,
    NEG,
    ADC,
    SBB,
    XADD,
    CMPXCHG,
    BSWAP,
    POPCNT,
    LZCNT,
    TZCNT,
    MOVBE,
    AESENC,
    AESDEC,
    PCLMULQDQ,
}

/// A virtual CPU as the interpreter sees it.
#[derive(Debug, Clone, Copy)]
pub struct IEM_CPUSTATE {
    pub regs: CpuState,
    pub mode: IemRunMode,
    pub interrupts_disabled: bool,
    pub instruction_count: u64,
}

/// A CPU in the reset state, interrupts enabled, nothing executed yet.
pub open spec fn iem_cpu_initial() -> IEM_CPUSTATE {
    IEM_CPUSTATE {
        regs: cpu_state_reset(),
        mode: IemRunMode::Normal,
        interrupts_disabled: false,
        instruction_count: 0,
    }
}

impl IEM_CPUSTATE {
    pub fn new() -> (c: Self)
        ensures
            c == iem_cpu_initial(),
    {
        IEM_CPUSTATE {
            regs: CpuState::default(),
            mode: IemRunMode::Normal,
            interrupts_disabled: false,
            instruction_count: 0,
        }
    }
}

/// The instruction that a one-byte opcode decodes to.
pub open spec fn iem_decode_spec(op: u8) -> IEMInstruction {
    if 0x00 <= op <= 0x03 || op == 0x29 || op == 0x2B {
        IEMInstruction::ADD
    } else if op == 0x05 {
        IEMInstruction::VMCALL
    } else if 0x08 <= op <= 0x0F {
        IEMInstruction::OR
    } else if op == 0x20 || op == 0x22 || op == 0x24 || 0x3C <= op <= 0x3D {
        IEMInstruction::AND
    } else if op == 0x21 || op == 0x23 || op == 0x25 || 0x84 <= op <= 0x85 || 0xA8 <= op <= 0xA9 || 0xF6 <= op <= 0xF7 {
        IEMInstruction::TEST
    } else if 0x30 <= op <= 0x33 || op == 0xAF {
        IEMInstruction::XOR
    } else if 0x38 <= op <= 0x3B || 0x80 <= op <= 0x81 || op == 0x83 {
        IEMInstruction::CMP
    } else if 0x40 <= op <= 0x47 || 0x49 <= op <= 0x4F {
        IEMInstruction::CMOV
    } else if op == 0x48 {
        IEMInstruction::DEC
    } else if 0x50 <= op <= 0x57 || op == 0x68 || op == 0x6A {
        IEMInstruction::PUSH
    } else if 0x58 <= op <= 0x5F || op == 0x8F {
        IEMInstruction::POP
    } else if op == 0x63 {
        IEMInstruction::MOVSX
    } else if op == 0x6C {
        IEMInstruction::LODS
    } else if 0x70 <= op <= 0x7F {
        IEMInstruction::JCC
    } else if op == 0x87 || 0x91 <= op <= 0x97 {
        IEMInstruction::XCHG
    } else if 0x88 <= op <= 0x8B || 0xC6 <= op <= 0xC7 {
        IEMInstruction::MOV
    } else if op == 0x8D {
        IEMInstruction::LEA
    } else if 0x98 <= op <= 0x9B {
        IEMInstruction::SETCC
    } else if op == 0x9C {
        IEMInstruction::PUSHF
    } else if op == 0x9D {
        IEMInstruction::POPF
    } else if op == 0x9E {
        IEMInstruction::LAHF
    } else if op == 0x9F {
        IEMInstruction::SAHF
    } else if op == 0xA2 {
        IEMInstruction::CPUID
    } else if 0xA4 <= op <= 0xA5 {
        IEMInstruction::MOVS
    } else if 0xA6 <= op <= 0xA7 {
        IEMInstruction::CMPS
    } else if op == 0xAA {
        IEMInstruction::STOS
    } else if op == 0xAE {
        IEMInstruction::SCAS
    } else if 0xB6 <= op <= 0xB7 {
        IEMInstruction::MOVZX
    } else if 0xC0 <= op <= 0xC1 || 0xD0 <= op <= 0xD3 {
        IEMInstruction::SHL_IMM
    } else if op == 0xC3 || 0xCA <= op <= 0xCB || op == 0xCF {
        IEMInstruction::RET
    } else if op == 0xC8 {
        IEMInstruction::ENTER
    } else if op == 0xC9 {
        IEMInstruction::LEAVE
    } else if 0xCC <= op <= 0xCD {
        IEMInstruction::INT
    } else if 0xE0 <= op <= 0xE3 {
        IEMInstruction::LOOP
    } else if 0xE6 <= op <= 0xE7 {
        IEMInstruction::OUT
    } else if op == 0xE8 || op == 0xFF {
        IEMInstruction::CALL
    } else if 0xE9 <= op <= 0xEB || op == 0xEF {
        IEMInstruction::JMP
    } else if 0xEC <= op <= 0xED {
        IEMInstruction::IN
    } else if op == 0xF4 {
        IEMInstruction::HLT
    } else if op == 0xF8 {
        IEMInstruction::CLC
    } else if op == 0xF9 {
        IEMInstruction::STC
    } else if op == 0xFA {
        IEMInstruction::CLI
    } else if op == 0xFB {
        IEMInstruction::STI
    } else if op == 0xFC {
        IEMInstruction::CLD
    } else if op == 0xFD {
        IEMInstruction::STD
    } else if op == 0xFE {
        IEMInstruction::INC
    } else {
        IEMInstruction::NOP
    }
}

/// The opcode groups of the one-byte map: 0x00-0x03 add, 0x30-0x33 xor,
/// 0x38-0x3B compare, 0x50-0x57 push, 0x58-0x5F pop, 0x70-0x7F conditional
/// jumps, 0x88-0x8B move, 0x90 no operation, 0xA2 CPUID, 0xC3 return,
/// 0xE8 call, 0xF4 halt, 0xFA/0xFB clear/set the interrupt flag.
pub proof fn lemma_iem_decode_groups(op: u8)
    ensures
        op <= 0x03 ==> iem_decode_spec(op) == IEMInstruction::ADD,
        0x30 <= op <= 0x33 ==> iem_decode_spec(op) == IEMInstruction::XOR,
        0x38 <= op <= 0x3B ==> iem_decode_spec(op) == IEMInstruction::CMP,
        0x50 <= op <= 0x57 ==> iem_decode_spec(op) == IEMInstruction::PUSH,
        0x58 <= op <= 0x5F ==> iem_decode_spec(op) == IEMInstruction::POP,
        0x70 <= op <= 0x7F ==> iem_decode_spec(op) == IEMInstruction::JCC,
        0x88 <= op <= 0x8B ==> iem_decode_spec(op) == IEMInstruction::MOV,
        op == 0x90 ==> iem_decode_spec(op) == IEMInstruction::NOP,
        op == 0xA2 ==> iem_decode_spec(op) == IEMInstruction::CPUID,
        op == 0xC3 ==> iem_decode_spec(op) == IEMInstruction::RET,
        op == 0xE8 ==> iem_decode_spec(op) == IEMInstruction::CALL,
        op == 0xF4 ==> iem_decode_spec(op) == IEMInstruction::HLT,
        op == 0xFA ==> iem_decode_spec(op) == IEMInstruction::CLI,
        op == 0xFB ==> iem_decode_spec(op) == IEMInstruction::STI,
{
}

/// Decodes a one-byte opcode.
pub fn iem_decode(opcode: u8) -> (inst: IEMInstruction)
    ensures
        inst == iem_decode_spec(opcode),
{
    match opcode {
        0x00 | 0x01 | 0x02 | 0x03 | 0x29 | 0x2B => IEMInstruction::ADD,
        0x05 => IEMInstruction::VMCALL,
        0x08..=0x0F => IEMInstruction::OR,
        0x20 | 0x22 | 0x24 | 0x3C..=0x3D => IEMInstruction::AND,
        0x21 | 0x23 | 0x25 | 0x84..=0x85 | 0xA8..=0xA9 | 0xF6..=0xF7 => IEMInstruction::TEST,
        0x30..=0x33 | 0xAF => IEMInstruction::XOR,
        0x38..=0x3B | 0x80..=0x81 | 0x83 => IEMInstruction::CMP,
        0x40..=0x47 | 0x49..=0x4F => IEMInstruction::CMOV,
        0x48 => IEMInstruction::DEC,
        0x50..=0x57 | 0x68 | 0x6A => IEMInstruction::PUSH,
        0x58..=0x5F | 0x8F => IEMInstruction::POP,
        0x63 => IEMInstruction::MOVSX,
        0x6C => IEMInstruction::LODS,
        0x70..=0x7F => IEMInstruction::JCC,
        0x87 | 0x91..=0x97 => IEMInstruction::XCHG,
        0x88..=0x8B | 0xC6..=0xC7 => IEMInstruction::MOV,
        0x8D => IEMInstruction::LEA,
        0x98..=0x9B => IEMInstruction::SETCC,
        0x9C => IEMInstruction::PUSHF,
        0x9D => IEMInstruction::POPF,
        0x9E => IEMInstruction::LAHF,
        0x9F => IEMInstruction::SAHF,
        0xA2 => IEMInstruction::CPUID,
        0xA4..=0xA5 => IEMInstruction::MOVS,
        0xA6..=0xA7 => IEMInstruction::CMPS,
        0xAA => IEMInstruction::STOS,
        0xAE => IEMInstruction::SCAS,
        0xB6..=0xB7 => IEMInstruction::MOVZX,
        0xC0..=0xC1 | 0xD0..=0xD3 => IEMInstruction::SHL_IMM,
        0xC3 | 0xCA..=0xCB | 0xCF => IEMInstruction::RET,
        0xC8 => IEMInstruction::ENTER,
        0xC9 => IEMInstruction::LEAVE,
        0xCC..=0xCD => IEMInstruction::INT,
        0xE0..=0xE3 => IEMInstruction::LOOP,
        0xE6..=0xE7 => IEMInstruction::OUT,
        0xE8 | 0xFF => IEMInstruction::CALL,
        0xE9..=0xEB | 0xEF => IEMInstruction::JMP,
        0xEC..=0xED => IEMInstruction::IN,
        0xF4 => IEMInstruction::HLT,
        0xF8 => IEMInstruction::CLC,
        0xF9 => IEMInstruction::STC,
        0xFA => IEMInstruction::CLI,
        0xFB => IEMInstruction::STI,
        0xFC => IEMInstruction::CLD,
        0xFD => IEMInstruction::STD,
        0xFE => IEMInstruction::INC,
        _ => IEMInstruction::NOP,
    }
}


/// Bit 0 of RFLAGS: carry.
pub const RFLAGS_CF: u64 = 0x1;
/// Bit 1 of RFLAGS, which HLT sets.
pub const RFLAGS_BIT1: u64 = 0x2;
/// Bit 6 of RFLAGS: zero.
pub const RFLAGS_ZF: u64 = 0x40;
/// Bit 7 of RFLAGS: sign.
pub const RFLAGS_SF: u64 = 0x80;
/// Bit 10 of RFLAGS: direction.
pub const RFLAGS_DF: u64 = 0x400;

/// `flags` with the bits of `mask` set when `on`, cleared otherwise.
pub open spec fn flag_put(flags: u64, mask: u64, on: bool) -> u64 {
    if on {
        flags | mask
    } else {
        flags & !mask
    }
}

/// Sets or clears the bits of `mask` in `flags`.
fn put_flag(flags: u64, mask: u64, on: bool) -> (r: u64)
    ensures
        r == flag_put(flags, mask, on),
{
    if on {
        flags | mask
    } else {
        flags & !mask
    }
}

/// Instructions that the interpreter does not model: it skips one extra
/// byte past them.
pub open spec fn iem_skips_byte(inst: IEMInstruction) -> bool {
    !(inst is NOP || inst is HLT || inst is MOV || inst is ADD || inst is SUB || inst is XOR
        || inst is AND || inst is OR || inst is INC || inst is DEC || inst is NOT || inst is PUSH
        || inst is POP || inst is JMP || inst is CALL || inst is RET || inst is CMP || inst is TEST
        || inst is LEA || inst is XCHG || inst is RDTSC || inst is RDTSCP || inst is CPUID
        || inst is VMCALL || inst is SHL || inst is SHR || inst is SAR || inst is SHL_IMM
        || inst is SHR_IMM || inst is IN || inst is OUT || inst is CLC || inst is STC || inst is CLI
        || inst is STI || inst is CLD || inst is STD || inst is LODS || inst is STOS || inst is MOVS
        || inst is CMPS || inst is SCAS || inst is ENTER || inst is LEAVE)
}

/// `cpu` with its register file replaced.
pub open spec fn with_regs(cpu: IEM_CPUSTATE, regs: CpuState) -> IEM_CPUSTATE {
    IEM_CPUSTATE { regs, ..cpu }
}

/// `cpu` with RAX set to `v` and the zero flag set exactly when `v` is zero.
pub open spec fn rax_zf(cpu: IEM_CPUSTATE, v: u64) -> IEM_CPUSTATE {
    with_regs(cpu, CpuState { rax: v, rflags: flag_put(cpu.regs.rflags, RFLAGS_ZF, v == 0), ..cpu.regs })
}

/// `cpu` with the zero flag set exactly when `v` is zero.
pub open spec fn zf_of(cpu: IEM_CPUSTATE, v: u64) -> IEM_CPUSTATE {
    with_regs(cpu, CpuState { rflags: flag_put(cpu.regs.rflags, RFLAGS_ZF, v == 0), ..cpu.regs })
}

/// The CPU after the interpreter carries out `inst` (before RIP moves on to
/// the next opcode). All operands are registers: RAX is the destination,
/// RBX the source.
pub open spec fn iem_exec_spec(inst: IEMInstruction, cpu: IEM_CPUSTATE) -> IEM_CPUSTATE {
    let r = cpu.regs;
    match inst {
        IEMInstruction::NOP => cpu,
        IEMInstruction::HLT => with_regs(cpu, CpuState { rflags: r.rflags | RFLAGS_BIT1, ..r }),
        IEMInstruction::MOV => with_regs(cpu, CpuState { rax: r.rbx, ..r }),
        IEMInstruction::ADD => rax_zf(cpu, vstd::wrapping::u64_specs::wrapping_add(r.rax, r.rbx)),
        IEMInstruction::SUB => rax_zf(cpu, vstd::wrapping::u64_specs::wrapping_sub(r.rax, r.rbx)),
        IEMInstruction::XOR => rax_zf(cpu, r.rax ^ r.rbx),
        IEMInstruction::AND => rax_zf(cpu, r.rax & r.rbx),
        IEMInstruction::OR => {
            let v = r.rax | r.rbx;
            with_regs(cpu, CpuState { rax: v, rflags: flag_put(r.rflags, RFLAGS_ZF, v != 0), ..r })
        },
        IEMInstruction::INC => rax_zf(cpu, vstd::wrapping::u64_specs::wrapping_add(r.rax, 1)),
        IEMInstruction::DEC => rax_zf(cpu, vstd::wrapping::u64_specs::wrapping_sub(r.rax, 1)),
        IEMInstruction::NOT => with_regs(cpu, CpuState { rax: !r.rax, ..r }),
        IEMInstruction::PUSH => with_regs(cpu, CpuState { rsp: vstd::wrapping::u64_specs::wrapping_sub(r.rsp, 8), ..r }),
        IEMInstruction::POP => with_regs(cpu, CpuState { rsp: vstd::wrapping::u64_specs::wrapping_add(r.rsp, 8), ..r }),
        IEMInstruction::JMP => with_regs(cpu, CpuState { rip: r.rbx, ..r }),
        IEMInstruction::CALL => with_regs(cpu, CpuState {
            rsp: vstd::wrapping::u64_specs::wrapping_sub(r.rsp, 8),
            rip: r.rbx,
            ..r
        }),
        IEMInstruction::RET => with_regs(cpu, CpuState { rip: r.rbx, ..r }),
        IEMInstruction::CMP => {
            let eq = vstd::wrapping::u64_specs::wrapping_sub(r.rax, r.rbx) == 0;
            with_regs(cpu, CpuState {
                rflags: flag_put(flag_put(r.rflags, RFLAGS_ZF, eq), RFLAGS_SF, eq),
                ..r
            })
        },
        IEMInstruction::TEST => zf_of(cpu, r.rax & r.rbx),
        IEMInstruction::LEA => with_regs(cpu, CpuState { rax: r.rbx, ..r }),
        IEMInstruction::XCHG => with_regs(cpu, CpuState { rax: r.rbx, rbx: r.rax, ..r }),
        IEMInstruction::RDTSC | IEMInstruction::RDTSCP => with_regs(cpu, CpuState { rax: cpu.instruction_count, ..r }),
        IEMInstruction::CPUID => with_regs(cpu, CpuState { rax: 1, rbx: 0, rcx: 0, rdx: 0, ..r }),
        IEMInstruction::VMCALL => with_regs(cpu, CpuState { rax: 0, ..r }),
        IEMInstruction::SHL | IEMInstruction::SHL_IMM => with_regs(cpu, CpuState { rax: r.rax << 1u64, ..r }),
        IEMInstruction::SHR | IEMInstruction::SHR_IMM => with_regs(cpu, CpuState { rax: r.rax >> 1u64, ..r }),
        IEMInstruction::SAR => with_regs(cpu, CpuState { rax: ((r.rax as i64) >> 1u64) as u64, ..r }),
        IEMInstruction::IN => with_regs(cpu, CpuState { rax: 0, ..r }),
        IEMInstruction::OUT => cpu,
        IEMInstruction::CLC => with_regs(cpu, CpuState { rflags: r.rflags & !RFLAGS_CF, ..r }),
        IEMInstruction::STC => with_regs(cpu, CpuState { rflags: r.rflags | RFLAGS_CF, ..r }),
        IEMInstruction::CLI => IEM_CPUSTATE { interrupts_disabled: true, ..cpu },
        IEMInstruction::STI => IEM_CPUSTATE { interrupts_disabled: false, ..cpu },
        IEMInstruction::CLD => with_regs(cpu, CpuState { rflags: r.rflags & !RFLAGS_DF, ..r }),
        IEMInstruction::STD => with_regs(cpu, CpuState { rflags: r.rflags | RFLAGS_DF, ..r }),
        IEMInstruction::LODS => with_regs(cpu, CpuState { rax: r.rdi, ..r }),
        IEMInstruction::STOS => with_regs(cpu, CpuState { rdi: r.rax, ..r }),
        IEMInstruction::MOVS => with_regs(cpu, CpuState { rax: r.rsi, rsi: r.rax, ..r }),
        IEMInstruction::CMPS => zf_of(cpu, vstd::wrapping::u64_specs::wrapping_sub(r.rax, r.rsi)),
        IEMInstruction::SCAS => zf_of(cpu, vstd::wrapping::u64_specs::wrapping_sub(r.rax, r.rdi)),
        IEMInstruction::ENTER => with_regs(cpu, CpuState { rbp: r.rsp, ..r }),
        IEMInstruction::LEAVE => with_regs(cpu, CpuState { rsp: r.rbp, ..r }),
        _ => with_regs(cpu, CpuState { rip: (r.rip + 1) as u64, ..r }),
    }
}

/// Carries out one decoded instruction on `cpu`. The memory operand is not
/// read: every instruction works on registers.
pub fn execute_instruction(inst: &IEMInstruction, cpu: &mut IEM_CPUSTATE, _memory: &[u8]) -> (r: Result<(), VBoxError>)
    requires
        iem_skips_byte(*inst) ==> old(cpu).regs.rip < u64::MAX,
    ensures
        r is Ok,
        *final(cpu) == iem_exec_spec(*inst, *old(cpu)),
        *inst == IEMInstruction::AND ==> final(cpu).regs.rax == old(cpu).regs.rax & old(cpu).regs.rbx,
        *inst == IEMInstruction::AND ==> ((final(cpu).regs.rflags & 0x40u64 != 0) == (final(cpu).regs.rax
            == 0)),
{
    match inst {
        IEMInstruction::NOP => {},
        IEMInstruction::HLT => {
            cpu.regs.rflags = cpu.regs.rflags | RFLAGS_BIT1;
        },
        IEMInstruction::MOV => {
            cpu.regs.rax = cpu.regs.rbx;
        },
        IEMInstruction::ADD => {
            let result = cpu.regs.rax.wrapping_add(cpu.regs.rbx);
            cpu.regs.rax = result;
            cpu.regs.rflags = put_flag(cpu.regs.rflags, RFLAGS_ZF, result == 0);
        },
        IEMInstruction::SUB => {
            let result = cpu.regs.rax.wrapping_sub(cpu.regs.rbx);
            cpu.regs.rax = result;
            cpu.regs.rflags = put_flag(cpu.regs.rflags, RFLAGS_ZF, result == 0);
        },
        IEMInstruction::XOR => {
            cpu.regs.rax = cpu.regs.rax ^ cpu.regs.rbx;
            cpu.regs.rflags = put_flag(cpu.regs.rflags, RFLAGS_ZF, cpu.regs.rax == 0);
        },
        IEMInstruction::AND => {
            cpu.regs.rax = cpu.regs.rax & cpu.regs.rbx;
            proof {
                lemma_zero_flag_put(cpu.regs.rflags, cpu.regs.rax == 0);
            }
            cpu.regs.rflags = put_flag(cpu.regs.rflags, RFLAGS_ZF, cpu.regs.rax == 0);
        },
        IEMInstruction::OR => {
            cpu.regs.rax = cpu.regs.rax | cpu.regs.rbx;
            cpu.regs.rflags = put_flag(cpu.regs.rflags, RFLAGS_ZF, cpu.regs.rax != 0);
        },
        IEMInstruction::INC => {
            cpu.regs.rax = cpu.regs.rax.wrapping_add(1);
            cpu.regs.rflags = put_flag(cpu.regs.rflags, RFLAGS_ZF, cpu.regs.rax == 0);
        },
        IEMInstruction::DEC => {
            cpu.regs.rax = cpu.regs.rax.wrapping_sub(1);
            cpu.regs.rflags = put_flag(cpu.regs.rflags, RFLAGS_ZF, cpu.regs.rax == 0);
        },
        IEMInstruction::NOT => {
            cpu.regs.rax = !cpu.regs.rax;
        },
        IEMInstruction::PUSH => {
            cpu.regs.rsp = cpu.regs.rsp.wrapping_sub(8);
        },
        IEMInstruction::POP => {
            cpu.regs.rsp = cpu.regs.rsp.wrapping_add(8);
        },
        IEMInstruction::JMP => {
            cpu.regs.rip = cpu.regs.rbx;
        },
        IEMInstruction::CALL => {
            cpu.regs.rsp = cpu.regs.rsp.wrapping_sub(8);
            cpu.regs.rip = cpu.regs.rbx;
        },
        IEMInstruction::RET => {
            cpu.regs.rip = cpu.regs.rbx;
        },
        IEMInstruction::CMP => {
            let result = cpu.regs.rax.wrapping_sub(cpu.regs.rbx);
            let flags = put_flag(cpu.regs.rflags, RFLAGS_ZF, result == 0);
            cpu.regs.rflags = put_flag(flags, RFLAGS_SF, result == 0);
        },
        IEMInstruction::TEST => {
            let result = cpu.regs.rax & cpu.regs.rbx;
            cpu.regs.rflags = put_flag(cpu.regs.rflags, RFLAGS_ZF, result == 0);
        },
        IEMInstruction::LEA => {
            cpu.regs.rax = cpu.regs.rbx;
        },
        IEMInstruction::XCHG => {
            let tmp = cpu.regs.rax;
            cpu.regs.rax = cpu.regs.rbx;
            cpu.regs.rbx = tmp;
        },
        IEMInstruction::RDTSC | IEMInstruction::RDTSCP => {
            cpu.regs.rax = cpu.instruction_count;
        },
        IEMInstruction::CPUID => {
            cpu.regs.rax = 0x00000001;
            cpu.regs.rbx = 0;
            cpu.regs.rcx = 0;
            cpu.regs.rdx = 0;
        },
        IEMInstruction::VMCALL => {
            cpu.regs.rax = 0;
        },
        IEMInstruction::SHL | IEMInstruction::SHL_IMM => {
            cpu.regs.rax = cpu.regs.rax << 1u64;
        },
        IEMInstruction::SHR | IEMInstruction::SHR_IMM => {
            cpu.regs.rax = cpu.regs.rax >> 1u64;
        },
        IEMInstruction::SAR => {
            cpu.regs.rax = ((cpu.regs.rax as i64) >> 1u64) as u64;
        },
        IEMInstruction::IN => {
            cpu.regs.rax = 0;
        },
        IEMInstruction::OUT => {},
        IEMInstruction::CLC => {
            cpu.regs.rflags = cpu.regs.rflags & !RFLAGS_CF;
        },
        IEMInstruction::STC => {
            cpu.regs.rflags = cpu.regs.rflags | RFLAGS_CF;
        },
        IEMInstruction::CLI => {
            cpu.interrupts_disabled = true;
        },
        IEMInstruction::STI => {
            cpu.interrupts_disabled = false;
        },
        IEMInstruction::CLD => {
            cpu.regs.rflags = cpu.regs.rflags & !RFLAGS_DF;
        },
        IEMInstruction::STD => {
            cpu.regs.rflags = cpu.regs.rflags | RFLAGS_DF;
        },
        IEMInstruction::LODS => {
            cpu.regs.rax = cpu.regs.rdi;
        },
        IEMInstruction::STOS => {
            cpu.regs.rdi = cpu.regs.rax;
        },
        IEMInstruction::MOVS => {
            let tmp = cpu.regs.rax;
            cpu.regs.rax = cpu.regs.rsi;
            cpu.regs.rsi = tmp;
        },
        IEMInstruction::CMPS => {
            let result = cpu.regs.rax.wrapping_sub(cpu.regs.rsi);
            cpu.regs.rflags = put_flag(cpu.regs.rflags, RFLAGS_ZF, result == 0);
        },
        IEMInstruction::SCAS => {
            let result = cpu.regs.rax.wrapping_sub(cpu.regs.rdi);
            cpu.regs.rflags = put_flag(cpu.regs.rflags, RFLAGS_ZF, result == 0);
        },
        IEMInstruction::ENTER => {
            cpu.regs.rbp = cpu.regs.rsp;
        },
        IEMInstruction::LEAVE => {
            cpu.regs.rsp = cpu.regs.rbp;
        },
        _ => {
            cpu.regs.rip = cpu.regs.rip + 1;
        },
    }
    Ok(())
}

/// Whether one interpreter step from `cpu` over `memory` stays clear of
/// overflowing RIP or the instruction counter.
pub open spec fn iem_step_fits(cpu: IEM_CPUSTATE, memory: Seq<u8>) -> bool {
    cpu.regs.rip < memory.len() ==> {
        let inst = iem_decode_spec(memory[cpu.regs.rip as int]);
        &&& iem_skips_byte(inst) ==> cpu.regs.rip < u64::MAX
        &&& iem_exec_spec(inst, cpu).regs.rip < u64::MAX
        &&& cpu.instruction_count < u64::MAX
    }
}

/// The CPU after one interpreter step that found an opcode at RIP: the
/// instruction is carried out, then RIP moves past the opcode and the
/// instruction counter grows by one.
pub open spec fn iem_step_spec(cpu: IEM_CPUSTATE, memory: Seq<u8>) -> IEM_CPUSTATE {
    let after = iem_exec_spec(iem_decode_spec(memory[cpu.regs.rip as int]), cpu);
    IEM_CPUSTATE {
        regs: CpuState { rip: (after.regs.rip + 1) as u64, ..after.regs },
        instruction_count: (after.instruction_count + 1) as u64,
        ..after
    }
}

/// Fetches the opcode at RIP, decodes and carries it out. Fails, leaving the
/// CPU untouched, when RIP lies outside `memory`.
pub fn iem_execute(cpu: &mut IEM_CPUSTATE, memory: &[u8]) -> (r: VBoxResult<()>)
    requires
        iem_step_fits(*old(cpu), memory@),
    ensures
        old(cpu).regs.rip >= memory@.len() ==> r == Err::<(), VBoxError>(VBoxError::Fail) && *final(cpu) == *old(cpu),
        old(cpu).regs.rip < memory@.len() ==> r is Ok && *final(cpu) == iem_step_spec(*old(cpu), memory@),
{
    if cpu.regs.rip >= memory.len() as u64 {
        return Err(VBoxError::Fail);
    }
    let addr = cpu.regs.rip as usize;
    let opcode = memory[addr];
    let inst = iem_decode(opcode);
    let _ = execute_instruction(&inst, cpu, memory);
    cpu.regs.rip = cpu.regs.rip + 1;
    cpu.instruction_count = cpu.instruction_count + 1;
    Ok(())
}

/// Initialises the interpreter.
pub fn iem_init() -> (r: Result<IemState, VBoxError>)
    ensures
        r == Ok::<IemState, VBoxError>(iem_state_initial()),
{
    let state = IemState::default();
    Ok(state)
}

/// Runs one interpreter step on a fresh CPU over a zeroed page of memory.
/// The VM itself is left as it is.
pub fn IEMExec<H>(pVM: &mut VM<H>) -> (r: Result<(), VBoxError>)
    ensures
        r is Ok,
        *final(pVM) == *old(pVM),
{
    let mut cpu = IEM_CPUSTATE::new();
    let mem = vec![0u8; 4096];
    iem_execute(&mut cpu, &mem)?;
    Ok(())
}

/// Whether `IEMAllExec` returns for `vm`: a VM that is not running returns at
/// once; a running one only when it has CPUs and no guest memory, since the
/// first fetch then fails. Every other running VM loops for ever.
pub open spec fn iem_all_exec_returns<H>(vm: VM<H>) -> bool {
    vm.enm_state != EMState::Running || (vm.cpus@.len() > 0 && vm.p_guest_memory@.len() == 0)
}

/// Interprets guest code on every CPU for as long as the VM runs; each pass
/// starts every CPU afresh at address 0.
pub fn IEMAllExec<H>(pVM: &mut VM<H>) -> (r: Result<(), VBoxError>)
    requires
        iem_all_exec_returns(*old(pVM)),
    ensures
        *final(pVM) == *old(pVM),
        old(pVM).enm_state != EMState::Running ==> r is Ok,
        old(pVM).enm_state == EMState::Running ==> r == Err::<(), VBoxError>(VBoxError::Fail),
{
    iem_execute_loop(pVM)
}

fn iem_execute_loop<H>(pVM: &mut VM<H>) -> (r: Result<(), VBoxError>)
    requires
        iem_all_exec_returns(*old(pVM)),
    ensures
        *final(pVM) == *old(pVM),
        old(pVM).enm_state != EMState::Running ==> r is Ok,
        old(pVM).enm_state == EMState::Running ==> r == Err::<(), VBoxError>(VBoxError::Fail),
{
    loop
        invariant
            iem_all_exec_returns(*pVM),
            *pVM == *old(pVM),
        ensures
            old(pVM).enm_state != EMState::Running,
        decreases 1nat,
    {
        if pVM.enm_state != EMState::Running {
            break;
        }
        let n = pVM.cpus.len();
        let mut i: usize = 0;
        while i < n
            invariant
                n == pVM.cpus@.len(),
                n > 0,
                pVM.p_guest_memory@.len() == 0,
                pVM.enm_state == EMState::Running,
                i == 0,
                *pVM == *old(pVM),
            decreases n - i,
        {
            let mut cpu = IEM_CPUSTATE::new();
            iem_execute(&mut cpu, pVM.p_guest_memory.as_slice())?;
            i = i + 1;
        }
    }
    Ok(())
}

/// POP undoes PUSH: pushing and then popping leaves the CPU as it was.
pub proof fn lemma_iem_pop_undoes_push(cpu: IEM_CPUSTATE)
    ensures
        iem_exec_spec(IEMInstruction::POP, iem_exec_spec(IEMInstruction::PUSH, cpu)) == cpu,
{
    let sp = cpu.regs.rsp;
    assert(vstd::wrapping::u64_specs::wrapping_add(vstd::wrapping::u64_specs::wrapping_sub(sp, 8), 8) == sp);
}

/// Setting or clearing the zero flag leaves bit 6 as asked and every other
/// bit of RFLAGS as it was.
proof fn lemma_zero_flag_put(flags: u64, on: bool)
    ensures
        (flag_put(flags, RFLAGS_ZF, on) & 0x40u64 != 0) == on,
        flag_put(flags, RFLAGS_ZF, on) & !0x40u64 == flags & !0x40u64,
{
    if on {
        assert((flags | 0x40u64) & 0x40u64 != 0) by (bit_vector);
        assert((flags | 0x40u64) & !0x40u64 == flags & !0x40u64) by (bit_vector);
    } else {
        assert((flags & !0x40u64) & 0x40u64 == 0) by (bit_vector);
        assert((flags & !0x40u64) & !0x40u64 == flags & !0x40u64) by (bit_vector);
    }
}

/// AND leaves in RAX exactly the bits that RAX and RBX both had, sets the
/// zero flag exactly when they share no bit, keeps the other flags, and
/// leaves RBX, RSP and RIP as they were. So two values with disjoint bits
/// give zero and set the zero flag.
pub proof fn lemma_iem_and_keeps_common_bits(cpu: IEM_CPUSTATE)
    ensures
        ({
            let after = iem_exec_spec(IEMInstruction::AND, cpu);
            &&& after.regs.rax == cpu.regs.rax & cpu.regs.rbx
            &&& forall|i: u64| i < 64 ==> (#[trigger] ((after.regs.rax >> i) & 1u64) == 1u64) == ((cpu.regs.rax
                >> i) & 1u64 == 1u64 && (cpu.regs.rbx >> i) & 1u64 == 1u64)
            &&& (after.regs.rflags & 0x40u64 != 0) == (cpu.regs.rax & cpu.regs.rbx == 0)
            &&& after.regs.rflags & !0x40u64 == cpu.regs.rflags & !0x40u64
            &&& after.regs.rbx == cpu.regs.rbx
            &&& after.regs.rsp == cpu.regs.rsp
            &&& after.regs.rip == cpu.regs.rip
        }),
{
    let a = cpu.regs.rax;
    let b = cpu.regs.rbx;
    lemma_zero_flag_put(cpu.regs.rflags, a & b == 0);
    assert(forall|i: u64| i < 64 ==> (#[trigger] (((a & b) >> i) & 1u64) == 1u64) == ((a >> i) & 1u64 == 1u64 && (b >> i)
        & 1u64 == 1u64)) by (bit_vector);
}

/// ADD, SUB, XOR and OR leave in RAX the sum, difference (both modulo
/// 2^64), exclusive or and inclusive or of RAX and RBX. ADD, SUB and XOR
/// set the zero flag exactly when the result is zero; OR sets it exactly
/// when the result is not zero. The other flags and RBX stay as they were.
pub proof fn lemma_iem_alu_results(cpu: IEM_CPUSTATE)
    ensures
        ({
            let a = cpu.regs.rax;
            let b = cpu.regs.rbx;
            let add = iem_exec_spec(IEMInstruction::ADD, cpu).regs;
            let sub = iem_exec_spec(IEMInstruction::SUB, cpu).regs;
            let xor = iem_exec_spec(IEMInstruction::XOR, cpu).regs;
            let or = iem_exec_spec(IEMInstruction::OR, cpu).regs;
            &&& add.rax as int == (a + b) % 0x1_0000_0000_0000_0000
            &&& sub.rax as int == (a - b + 0x1_0000_0000_0000_0000) % 0x1_0000_0000_0000_0000
            &&& xor.rax == a ^ b
            &&& or.rax == a | b
            &&& (add.rflags & 0x40u64 != 0) == (add.rax == 0)
            &&& (sub.rflags & 0x40u64 != 0) == (a == b)
            &&& (xor.rflags & 0x40u64 != 0) == (a == b)
            &&& (or.rflags & 0x40u64 != 0) == (a | b != 0)
            &&& add.rflags & !0x40u64 == cpu.regs.rflags & !0x40u64
            &&& sub.rflags & !0x40u64 == cpu.regs.rflags & !0x40u64
            &&& xor.rflags & !0x40u64 == cpu.regs.rflags & !0x40u64
            &&& or.rflags & !0x40u64 == cpu.regs.rflags & !0x40u64
            &&& add.rbx == b && sub.rbx == b && xor.rbx == b && or.rbx == b
        }),
{
    let a = cpu.regs.rax;
    let b = cpu.regs.rbx;
    let f = cpu.regs.rflags;
    let s = vstd::wrapping::u64_specs::wrapping_add(a, b);
    let d = vstd::wrapping::u64_specs::wrapping_sub(a, b);
    lemma_zero_flag_put(f, s == 0);
    lemma_zero_flag_put(f, d == 0);
    lemma_zero_flag_put(f, a ^ b == 0);
    lemma_zero_flag_put(f, a | b != 0);
    assert((a ^ b == 0) == (a == b)) by (bit_vector);
}

/// INC and DEC add and take one from RAX modulo 2^64, NOT leaves in RAX the
/// bits that RAX lacked, SHL doubles RAX modulo 2^64 and SHR halves it
/// (rounding down); INC and DEC set the zero flag exactly when the result
/// is zero. CMP sets the zero flag exactly when RAX equals RBX, TEST exactly
/// when they share no bit, and neither changes RAX. MOV copies RBX to RAX.
/// PUSH moves RSP eight bytes down and POP eight bytes up, modulo 2^64;
/// JMP and CALL go to the address in RBX, and CALL pushes as PUSH does.
pub proof fn lemma_iem_register_results(cpu: IEM_CPUSTATE)
    ensures
        ({
            let a = cpu.regs.rax;
            let b = cpu.regs.rbx;
            let sp = cpu.regs.rsp;
            let inc = iem_exec_spec(IEMInstruction::INC, cpu).regs;
            let dec = iem_exec_spec(IEMInstruction::DEC, cpu).regs;
            let not = iem_exec_spec(IEMInstruction::NOT, cpu).regs;
            let shl = iem_exec_spec(IEMInstruction::SHL, cpu).regs;
            let shr = iem_exec_spec(IEMInstruction::SHR, cpu).regs;
            let compare = iem_exec_spec(IEMInstruction::CMP, cpu).regs;
            let test = iem_exec_spec(IEMInstruction::TEST, cpu).regs;
            let mov = iem_exec_spec(IEMInstruction::MOV, cpu).regs;
            let push = iem_exec_spec(IEMInstruction::PUSH, cpu).regs;
            let pop = iem_exec_spec(IEMInstruction::POP, cpu).regs;
            let jmp = iem_exec_spec(IEMInstruction::JMP, cpu).regs;
            let call = iem_exec_spec(IEMInstruction::CALL, cpu).regs;
            &&& inc.rax as int == (a + 1) % 0x1_0000_0000_0000_0000
            &&& dec.rax as int == (a + 0xFFFF_FFFF_FFFF_FFFF) % 0x1_0000_0000_0000_0000
            &&& (inc.rflags & 0x40u64 != 0) == (inc.rax == 0)
            &&& (dec.rflags & 0x40u64 != 0) == (a == 1)
            &&& not.rax + a == u64::MAX
            &&& shl.rax as int == (a * 2) % 0x1_0000_0000_0000_0000
            &&& shr.rax == a / 2
            &&& (compare.rflags & 0x40u64 != 0) == (a == b)
            &&& compare.rax == a
            &&& (test.rflags & 0x40u64 != 0) == (a & b == 0)
            &&& test.rflags & !0x40u64 == cpu.regs.rflags & !0x40u64
            &&& test.rax == a
            &&& mov.rax == b && mov.rbx == b
            &&& push.rsp as int == (sp + 0x1_0000_0000_0000_0000 - 8) % 0x1_0000_0000_0000_0000
            &&& pop.rsp as int == (sp + 8) % 0x1_0000_0000_0000_0000
            &&& jmp.rip == b && jmp.rsp == sp
            &&& call.rip == b && call.rsp == push.rsp
        }),
{
    let a = cpu.regs.rax;
    let b = cpu.regs.rbx;
    let f = cpu.regs.rflags;
    lemma_zero_flag_put(f, vstd::wrapping::u64_specs::wrapping_add(a, 1) == 0);
    lemma_zero_flag_put(f, vstd::wrapping::u64_specs::wrapping_sub(a, 1) == 0);
    lemma_zero_flag_put(f, a & b == 0);
    let eq = vstd::wrapping::u64_specs::wrapping_sub(a, b) == 0;
    let g = flag_put(f, RFLAGS_ZF, eq);
    lemma_zero_flag_put(f, eq);
    assert(g & 0x40u64 != 0 ==> (g | 0x80u64) & 0x40u64 != 0) by (bit_vector);
    assert(g & 0x40u64 == 0 ==> (g & !0x80u64) & 0x40u64 == 0) by (bit_vector);
    assert(!a + a == u64::MAX) by (bit_vector);
    assert((a << 1u64) as int == (a * 2) % 0x1_0000_0000_0000_0000) by (bit_vector);
    assert(a >> 1u64 == a / 2) by (bit_vector);
}

/// Exchanging RAX and RBX twice leaves the CPU as it was.
pub proof fn lemma_iem_xchg_twice(cpu: IEM_CPUSTATE)
    ensures
        iem_exec_spec(IEMInstruction::XCHG, iem_exec_spec(IEMInstruction::XCHG, cpu)) == cpu,
{
}

} // verus!
