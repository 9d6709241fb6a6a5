//! What unwinding a user stack starts from: the registers and the bytes on the stack.

use vstd::prelude::*;
use crate::records::{Regs, SampleRecord};

verus! {

/// The number of the instruction pointer among the x86-64 registers of a sample.
pub const PERF_REG_X86_IP: u64 = 8;

/// The number of the stack pointer among the x86-64 registers of a sample.
pub const PERF_REG_X86_SP: u64 = 7;

/// The number of the base pointer among the x86-64 registers of a sample.
pub const PERF_REG_X86_BP: u64 = 6;

/// The number of the program counter among the aarch64 registers of a sample.
pub const PERF_REG_ARM64_PC: u64 = 32;

/// The number of the stack pointer among the aarch64 registers of a sample.
pub const PERF_REG_ARM64_SP: u64 = 31;

/// The number of the link register among the aarch64 registers of a sample.
pub const PERF_REG_ARM64_LR: u64 = 30;

/// The number of the frame pointer among the aarch64 registers of a sample.
pub const PERF_REG_ARM64_X29: u64 = 29;

/// The registers from which an x86-64 stack is unwound.
#[verifier::external_type_specification]
#[verifier::external_body]
pub struct ExUnwindRegsX86_64(framehop::x86_64::UnwindRegsX86_64);

/// The registers from which an aarch64 stack is unwound.
#[verifier::external_type_specification]
#[verifier::external_body]
pub struct ExUnwindRegsAarch64(framehop::aarch64::UnwindRegsAarch64);

/// The registers that a value holds: instruction pointer, stack pointer, base pointer.
pub uninterp spec fn x86_64_regs(regs: framehop::x86_64::UnwindRegsX86_64) -> Seq<u64>;

/// The registers that a value holds: link register, stack pointer, frame pointer.
pub uninterp spec fn aarch64_regs(regs: framehop::aarch64::UnwindRegsAarch64) -> Seq<u64>;

/// `UnwindRegsX86_64::new` keeps the three values that it is given.
pub assume_specification[ framehop::x86_64::UnwindRegsX86_64::new ](
    ip: u64,
    sp: u64,
    bp: u64,
) -> (regs: framehop::x86_64::UnwindRegsX86_64)
    ensures
        x86_64_regs(regs) == seq![ip, sp, bp],
;

/// `UnwindRegsAarch64::new` keeps the three values that it is given.
pub assume_specification[ framehop::aarch64::UnwindRegsAarch64::new ](
    lr: u64,
    sp: u64,
    fp: u64,
) -> (regs: framehop::aarch64::UnwindRegsAarch64)
    ensures
        aarch64_regs(regs) == seq![lr, sp, fp],
;

/// How the registers of a sample become those that unwinding starts from.
pub trait ConvertRegs {
    type UnwindRegs;

    /// Whether the registers that unwinding needs were recorded.
    spec fn complete(regs: Regs) -> bool;

    /// Whether these are the instruction pointer, the stack pointer and the starting
    /// registers for the given registers of a sample.
    spec fn converted(regs: Regs, ip: u64, sp: u64, unwind_regs: Self::UnwindRegs) -> bool;

    /// Tests whether the registers that unwinding needs were recorded.
    fn is_complete(regs: &Regs) -> (complete: bool)
        ensures
            complete == Self::complete(*regs),
    ;

    /// Picks the instruction pointer, the stack pointer and the starting registers.
    fn convert_regs(regs: &Regs) -> (converted: (u64, u64, Self::UnwindRegs))
        requires
            Self::complete(*regs),
        ensures
            Self::converted(*regs, converted.0, converted.1, converted.2),
    ;
}

pub struct ConvertRegsX86_64;

impl ConvertRegs for ConvertRegsX86_64 {
    type UnwindRegs = framehop::x86_64::UnwindRegsX86_64;

    open spec fn complete(regs: Regs) -> bool {
        &&& regs.value(PERF_REG_X86_IP as int) is Some
        &&& regs.value(PERF_REG_X86_SP as int) is Some
        &&& regs.value(PERF_REG_X86_BP as int) is Some
    }

    open spec fn converted(
        regs: Regs,
        ip: u64,
        sp: u64,
        unwind_regs: framehop::x86_64::UnwindRegsX86_64,
    ) -> bool {
        &&& regs.value(PERF_REG_X86_IP as int) == Some(ip)
        &&& regs.value(PERF_REG_X86_SP as int) == Some(sp)
        &&& x86_64_regs(unwind_regs) == seq![ip, sp, regs.value(PERF_REG_X86_BP as int)->0]
    }

    fn is_complete(regs: &Regs) -> (complete: bool) {
        regs.get(PERF_REG_X86_IP).is_some() && regs.get(PERF_REG_X86_SP).is_some() && regs.get(
            PERF_REG_X86_BP,
        ).is_some()
    }

    fn convert_regs(regs: &Regs) -> (converted: (u64, u64, framehop::x86_64::UnwindRegsX86_64)) {
        let ip: u64 = regs.get(PERF_REG_X86_IP).unwrap();
        let sp: u64 = regs.get(PERF_REG_X86_SP).unwrap();
        let bp: u64 = regs.get(PERF_REG_X86_BP).unwrap();
        (ip, sp, framehop::x86_64::UnwindRegsX86_64::new(ip, sp, bp))
    }
}

pub struct ConvertRegsAarch64;

impl ConvertRegs for ConvertRegsAarch64 {
    type UnwindRegs = framehop::aarch64::UnwindRegsAarch64;

    open spec fn complete(regs: Regs) -> bool {
        &&& regs.value(PERF_REG_ARM64_PC as int) is Some
        &&& regs.value(PERF_REG_ARM64_LR as int) is Some
        &&& regs.value(PERF_REG_ARM64_SP as int) is Some
        &&& regs.value(PERF_REG_ARM64_X29 as int) is Some
    }

    open spec fn converted(
        regs: Regs,
        ip: u64,
        sp: u64,
        unwind_regs: framehop::aarch64::UnwindRegsAarch64,
    ) -> bool {
        &&& regs.value(PERF_REG_ARM64_PC as int) == Some(ip)
        &&& regs.value(PERF_REG_ARM64_SP as int) == Some(sp)
        &&& aarch64_regs(unwind_regs) == seq![
            regs.value(PERF_REG_ARM64_LR as int)->0,
            sp,
            regs.value(PERF_REG_ARM64_X29 as int)->0,
        ]
    }

    fn is_complete(regs: &Regs) -> (complete: bool) {
        regs.get(PERF_REG_ARM64_PC).is_some() && regs.get(PERF_REG_ARM64_LR).is_some() && regs.get(
            PERF_REG_ARM64_SP,
        ).is_some() && regs.get(PERF_REG_ARM64_X29).is_some()
    }

    fn convert_regs(regs: &Regs) -> (converted: (
        u64,
        u64,
        framehop::aarch64::UnwindRegsAarch64,
    )) {
        let ip: u64 = regs.get(PERF_REG_ARM64_PC).unwrap();
        let lr: u64 = regs.get(PERF_REG_ARM64_LR).unwrap();
        let sp: u64 = regs.get(PERF_REG_ARM64_SP).unwrap();
        let fp: u64 = regs.get(PERF_REG_ARM64_X29).unwrap();
        (ip, sp, framehop::aarch64::UnwindRegsAarch64::new(lr, sp, fp))
    }
}

/// A register that unwinding needs was not recorded.
#[derive(Debug, Clone, Copy, PartialEq, Eq)]
pub struct MissingRegister;

/// Whether this is what unwinding the user stack of a sample starts from.
pub open spec fn starts_unwinding<C: ConvertRegs>(
    e: SampleRecord,
    start: Result<Option<(u64, u64, C::UnwindRegs)>, MissingRegister>,
) -> bool {
    match (e.user_regs, e.user_stack) {
        (Some(regs), Some(_)) => match start {
            Ok(Some((ip, sp, unwind_regs))) => C::complete(regs) && C::converted(
                regs,
                ip,
                sp,
                unwind_regs,
            ),
            Ok(None) => false,
            Err(_) => !C::complete(regs),
        },
        _ => start matches Ok(start) && start is None,
    }
}

/// Picks what unwinding the user stack of a sample starts from: the instruction pointer, the
/// stack pointer and the starting registers. Gives `None` where the sample does not hold what
/// it takes to unwind.
pub fn unwind_start<C: ConvertRegs>(e: &SampleRecord) -> (start: Result<
    Option<(u64, u64, C::UnwindRegs)>,
    MissingRegister,
>)
    ensures
        starts_unwinding::<C>(*e, start),
        start is Err <==> e@.can_unwind() && !C::complete(e.user_regs->0),
        start matches Ok(start) ==> (start is Some <==> e@.can_unwind()),
        start matches Ok(Some(start)) ==> C::converted(e.user_regs->0, start.0, start.1, start.2),
{
    match (&e.user_regs, &e.user_stack) {
        (Some(regs), Some(_)) => {
            if C::is_complete(regs) {
                Ok(Some(C::convert_regs(regs)))
            } else {
                Err(MissingRegister)
            }
        },
        _ => Ok(None),
    }
}

/// The number that bytes stand for, least significant byte first.
pub open spec fn little_endian(bytes: Seq<u8>) -> int
    decreases bytes.len(),
{
    if bytes.len() == 0 {
        0
    } else {
        bytes[0] + 256 * little_endian(bytes.drop_first())
    }
}

/// The word with the given number in a run of eight-byte words.
pub open spec fn word_at(bytes: Seq<u8>, index: int) -> Option<int> {
    if 8 * index + 8 <= bytes.len() {
        Some(little_endian(bytes.subrange(8 * index, 8 * index + 8)))
    } else {
        None
    }
}

/// Calls `RawDataU64::get` of `linux_perf_event_reader` on bytes that
/// `RawDataU64::from_raw_data` was told to read as little-endian words: it gives the
/// word with that number, or `None` where the bytes end before the word does.
#[verifier::external_body]
pub(crate) fn get_word(bytes: &[u8], index: usize) -> (word: Option<u64>)
    requires
        8 * index <= usize::MAX,
    ensures
        word is Some <==> word_at(bytes@, index as int) is Some,
        word is Some ==> word->0 == word_at(bytes@, index as int)->0,
{
    linux_perf_event_reader::RawDataU64::from_raw_data::<byteorder::LittleEndian>(
        linux_perf_event_reader::RawData::from(bytes),
    ).get(index)
}

/// The word that a stack with the given stack pointer holds at an address, where the
/// recorded bytes reach that far. The address is rounded down to a whole number of words
/// above the stack pointer.
pub open spec fn stack_word(stack: Seq<u8>, sp: u64, address: u64) -> Option<int> {
    if address < sp {
        None
    } else {
        word_at(stack, (address - sp) / 8)
    }
}

/// Reads a word from the recorded bytes of a user stack, which start at the stack pointer.
pub fn read_stack(stack: &[u8], sp: u64, address: u64) -> (word: Result<u64, ()>)
    ensures
        word is Ok <==> stack_word(stack@, sp, address) is Some,
        word is Ok ==> word->Ok_0 == stack_word(stack@, sp, address)->0,
{
    if address < sp {
        return Err(());
    }
    let index: u64 = (address - sp) / 8;
    if index > (stack.len() / 8) as u64 {
        return Err(());
    }
    match get_word(stack, index as usize) {
        Some(word) => Ok(word),
        None => Err(()),
    }
}

} // verus!
