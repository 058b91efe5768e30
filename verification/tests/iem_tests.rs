use vbox_verified::cpu::{cpum_get_id, CpuMode, CPUMCTX};
use vbox_verified::iem::{execute_instruction, iem_decode, IEMInstruction, IEM_CPUSTATE};

#[test]
fn test_iem_mov() {
    let mut cpu = IEM_CPUSTATE::new();
    cpu.regs.rax = 0;
    cpu.regs.rbx = 42;
    let memory = vec![0u8; 4096];
    let inst = IEMInstruction::MOV;
    execute_instruction(&inst, &mut cpu, &memory).unwrap();
    assert_eq!(cpu.regs.rax, 42);
}

#[test]
fn test_iem_add() {
    let mut cpu = IEM_CPUSTATE::new();
    cpu.regs.rax = 10;
    cpu.regs.rbx = 32;
    let memory = vec![0u8; 4096];
    let inst = IEMInstruction::ADD;
    execute_instruction(&inst, &mut cpu, &memory).unwrap();
    assert_eq!(cpu.regs.rax, 42);
}

#[test]
fn test_iem_sub() {
    let mut cpu = IEM_CPUSTATE::new();
    cpu.regs.rax = 50;
    cpu.regs.rbx = 8;
    let memory = vec![0u8; 4096];
    let inst = IEMInstruction::SUB;
    execute_instruction(&inst, &mut cpu, &memory).unwrap();
    assert_eq!(cpu.regs.rax, 42);
}

#[test]
fn test_iem_xor() {
    let mut cpu = IEM_CPUSTATE::new();
    cpu.regs.rax = 0xFF;
    cpu.regs.rbx = 0xFF;
    let memory = vec![0u8; 4096];
    let inst = IEMInstruction::XOR;
    execute_instruction(&inst, &mut cpu, &memory).unwrap();
    assert_eq!(cpu.regs.rax, 0);
}

#[test]
fn test_iem_cmp() {
    let mut cpu = IEM_CPUSTATE::new();
    cpu.regs.rax = 10;
    cpu.regs.rbx = 10;
    let memory = vec![0u8; 4096];
    let inst = IEMInstruction::CMP;
    execute_instruction(&inst, &mut cpu, &memory).unwrap();
    assert!(cpu.regs.rflags & (1 << 6) != 0);
}

#[test]
fn test_iem_jmp() {
    let mut cpu = IEM_CPUSTATE::new();
    cpu.regs.rax = 0;
    cpu.regs.rbx = 0x100;
    let memory = vec![0u8; 4096];
    let inst = IEMInstruction::JMP;
    execute_instruction(&inst, &mut cpu, &memory).unwrap();
    assert_eq!(cpu.regs.rip, 0x100);
}

#[test]
fn test_iem_push_pop() {
    let mut cpu = IEM_CPUSTATE::new();
    cpu.regs.rax = 0xDEADBEEF;
    cpu.regs.rsp = 0x1000;
    let memory = vec![0u8; 4096];
    let inst = IEMInstruction::PUSH;
    execute_instruction(&inst, &mut cpu, &memory).unwrap();
    assert_eq!(cpu.regs.rsp, 0xFF8);
    let inst = IEMInstruction::POP;
    execute_instruction(&inst, &mut cpu, &memory).unwrap();
    assert_eq!(cpu.regs.rsp, 0x1000);
}

#[test]
fn test_iem_decode_mov() {
    let inst = iem_decode(0x88);
    assert_eq!(inst, IEMInstruction::MOV);
}

#[test]
fn test_iem_decode_add() {
    let inst = iem_decode(0x01);
    assert_eq!(inst, IEMInstruction::ADD);
}

#[test]
fn test_iem_decode_jmp() {
    let inst = iem_decode(0xE9);
    assert_eq!(inst, IEMInstruction::JMP);
}

#[test]
fn test_iem_decode_call() {
    let inst = iem_decode(0xE8);
    assert_eq!(inst, IEMInstruction::CALL);
}

#[test]
fn test_iem_decode_ret() {
    let inst = iem_decode(0xC3);
    assert_eq!(inst, IEMInstruction::RET);
}

#[test]
fn test_iem_decode_push() {
    let inst = iem_decode(0x50);
    assert_eq!(inst, IEMInstruction::PUSH);
}

#[test]
fn test_iem_decode_pop() {
    let inst = iem_decode(0x58);
    assert_eq!(inst, IEMInstruction::POP);
}

#[test]
fn test_iem_decode_cmp() {
    let inst = iem_decode(0x39);
    assert_eq!(inst, IEMInstruction::CMP);
}

#[test]
fn test_iem_decode_test() {
    let inst = iem_decode(0x84);
    assert_eq!(inst, IEMInstruction::TEST);
}

#[test]
fn test_iem_decode_lea() {
    let inst = iem_decode(0x8D);
    assert_eq!(inst, IEMInstruction::LEA);
}

#[test]
fn test_iem_decode_nop() {
    let inst = iem_decode(0x90);
    assert_eq!(inst, IEMInstruction::NOP);
}

#[test]
fn test_iem_decode_hlt() {
    let inst = iem_decode(0xF4);
    assert_eq!(inst, IEMInstruction::HLT);
}

#[test]
fn test_iem_decode_int() {
    let inst = iem_decode(0xCC);
    assert_eq!(inst, IEMInstruction::INT);
}

#[test]
fn test_iem_decode_xchg() {
    let inst = iem_decode(0x87);
    assert_eq!(inst, IEMInstruction::XCHG);
}

#[test]
fn test_iem_decode_shl() {
    let inst = iem_decode(0xC0);
    assert_eq!(inst, IEMInstruction::SHL_IMM);
}

#[test]
fn test_iem_decode_inc() {
    let inst = iem_decode(0xFE);
    assert_eq!(inst, IEMInstruction::INC);
}

#[test]
fn test_iem_decode_dec() {
    let inst = iem_decode(0x48);
    assert_eq!(inst, IEMInstruction::DEC);
}

#[test]
fn test_iem_decode_clc() {
    let inst = iem_decode(0xF8);
    assert_eq!(inst, IEMInstruction::CLC);
}

#[test]
fn test_iem_decode_stc() {
    let inst = iem_decode(0xF9);
    assert_eq!(inst, IEMInstruction::STC);
}

#[test]
fn test_iem_decode_cli() {
    let inst = iem_decode(0xFA);
    assert_eq!(inst, IEMInstruction::CLI);
}

#[test]
fn test_iem_decode_sti() {
    let inst = iem_decode(0xFB);
    assert_eq!(inst, IEMInstruction::STI);
}

#[test]
fn test_iem_decode_cld() {
    let inst = iem_decode(0xFC);
    assert_eq!(inst, IEMInstruction::CLD);
}

#[test]
fn test_iem_decode_std() {
    let inst = iem_decode(0xFD);
    assert_eq!(inst, IEMInstruction::STD);
}

#[test]
fn test_cpu_id() {
    let result = cpum_get_id(0, 0);
    assert_eq!(result.0, 0x0F81078F);
}

#[test]
fn test_cpum_ctx() {
    let ctx = CPUMCTX::new();
    assert_eq!(ctx.guest.mode, CpuMode::Protected);
}
