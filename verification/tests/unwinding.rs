//! What unwinding starts from.

use linux_perf_event_reader::consts;
use perf_convert::records::{CpuMode, Regs, SampleRecord};
use perf_convert::unwind::{
    read_stack, unwind_start, ConvertRegs, ConvertRegsAarch64, ConvertRegsX86_64, MissingRegister,
    PERF_REG_ARM64_LR, PERF_REG_ARM64_PC, PERF_REG_ARM64_SP, PERF_REG_ARM64_X29, PERF_REG_X86_BP,
    PERF_REG_X86_IP, PERF_REG_X86_SP,
};

fn regs(known: &[(u64, u64)]) -> Regs {
    let mut values = vec![None; 40];
    for (register, value) in known {
        values[*register as usize] = Some(*value);
    }
    Regs { values }
}

fn sample(user_regs: Option<Regs>, user_stack: Option<Vec<u8>>) -> SampleRecord {
    SampleRecord {
        pid: Some(1),
        tid: Some(1),
        timestamp: Some(1),
        period: None,
        ip: None,
        cpu_mode: CpuMode::User,
        callchain: None,
        user_regs,
        user_stack,
    }
}

#[test]
fn register_numbers_are_those_of_the_reader() {
    assert_eq!(PERF_REG_X86_IP, consts::PERF_REG_X86_IP);
    assert_eq!(PERF_REG_X86_SP, consts::PERF_REG_X86_SP);
    assert_eq!(PERF_REG_X86_BP, consts::PERF_REG_X86_BP);
    assert_eq!(PERF_REG_ARM64_PC, consts::PERF_REG_ARM64_PC);
    assert_eq!(PERF_REG_ARM64_SP, consts::PERF_REG_ARM64_SP);
    assert_eq!(PERF_REG_ARM64_LR, consts::PERF_REG_ARM64_LR);
    assert_eq!(PERF_REG_ARM64_X29, consts::PERF_REG_ARM64_X29);
}

#[test]
fn registers_are_looked_up_by_number() {
    let regs = regs(&[(3, 33)]);
    assert_eq!(regs.get(3), Some(33));
    assert_eq!(regs.get(4), None);
    assert_eq!(regs.get(40), None);
    assert_eq!(regs.get(u64::MAX), None);
}

#[test]
fn x86_64_registers_are_picked() {
    let regs = regs(&[(8, 0x1000), (7, 0x2000), (6, 0x3000)]);
    assert!(ConvertRegsX86_64::is_complete(&regs));
    let (ip, sp, unwind_regs) = ConvertRegsX86_64::convert_regs(&regs);
    assert_eq!((ip, sp), (0x1000, 0x2000));
    assert_eq!(unwind_regs.ip(), 0x1000);
    assert_eq!(unwind_regs.sp(), 0x2000);
    assert_eq!(unwind_regs.bp(), 0x3000);
}

#[test]
fn aarch64_registers_are_picked() {
    let regs = regs(&[(32, 0x1000), (31, 0x2000), (30, 0x3000), (29, 0x4000)]);
    assert!(ConvertRegsAarch64::is_complete(&regs));
    let (ip, sp, unwind_regs) = ConvertRegsAarch64::convert_regs(&regs);
    assert_eq!((ip, sp), (0x1000, 0x2000));
    assert_eq!(unwind_regs.lr(), 0x3000);
    assert_eq!(unwind_regs.sp(), 0x2000);
    assert_eq!(unwind_regs.fp(), 0x4000);
}

#[test]
fn missing_registers_are_noticed() {
    assert!(!ConvertRegsX86_64::is_complete(&regs(&[(8, 1), (7, 2)])));
    assert!(!ConvertRegsX86_64::is_complete(&regs(&[(8, 1), (6, 2)])));
    assert!(!ConvertRegsX86_64::is_complete(&regs(&[(7, 1), (6, 2)])));
    assert!(!ConvertRegsAarch64::is_complete(&regs(&[(32, 1), (31, 2), (30, 3)])));
    assert!(!ConvertRegsAarch64::is_complete(&regs(&[(32, 1), (31, 2), (29, 3)])));
    assert!(!ConvertRegsAarch64::is_complete(&regs(&[(32, 1), (30, 2), (29, 3)])));
    assert!(!ConvertRegsAarch64::is_complete(&regs(&[(31, 1), (30, 2), (29, 3)])));
}

#[test]
fn unwinding_starts_where_registers_and_stack_are_recorded() {
    let complete = || regs(&[(8, 0x1000), (7, 0x2000), (6, 0x3000)]);
    let start = unwind_start::<ConvertRegsX86_64>(&sample(Some(complete()), Some(vec![1])));
    let (pc, sp, unwind_regs) = start.unwrap().unwrap();
    assert_eq!((pc, sp, unwind_regs.bp()), (0x1000, 0x2000, 0x3000));
    assert!(unwind_start::<ConvertRegsX86_64>(&sample(Some(complete()), None)).unwrap().is_none());
    assert!(unwind_start::<ConvertRegsX86_64>(&sample(None, Some(vec![1]))).unwrap().is_none());
    assert!(unwind_start::<ConvertRegsX86_64>(&sample(Some(regs(&[])), None)).unwrap().is_none());
    assert!(matches!(
        unwind_start::<ConvertRegsX86_64>(&sample(Some(regs(&[])), Some(vec![]))),
        Err(MissingRegister)
    ));
}

#[test]
fn words_are_read_relative_to_the_stack_pointer() {
    let stack: Vec<u8> = (0u8..20).collect();
    let sp = 0x7000;
    assert_eq!(read_stack(&stack, sp, 0x7000), Ok(0x0706_0504_0302_0100));
    assert_eq!(read_stack(&stack, sp, 0x7007), Ok(0x0706_0504_0302_0100));
    assert_eq!(read_stack(&stack, sp, 0x7008), Ok(0x0f0e_0d0c_0b0a_0908));
    assert_eq!(read_stack(&stack, sp, 0x7010), Err(()));
    assert_eq!(read_stack(&stack, sp, 0x6fff), Err(()));
    assert_eq!(read_stack(&stack, sp, u64::MAX), Err(()));
    assert_eq!(read_stack(&[], sp, sp), Err(()));
}
