//! Callchains, unwound stacks, and stacks as a profile takes them.

use fxprof_processed_profile::{CategoryColor, CategoryPairHandle, Profile, ReferenceTimestamp};
use linux_perf_event_reader::consts;
use perf_convert::profile::Frame;
use perf_convert::records::{CpuMode, Regs, SampleRecord};
use perf_convert::stack::{
    get_sample_stack, FrameAddress, StackConverter, StackFrame, StackMode, UnwoundStack,
    PERF_CONTEXT_GUEST, PERF_CONTEXT_GUEST_KERNEL, PERF_CONTEXT_GUEST_USER, PERF_CONTEXT_KERNEL,
    PERF_CONTEXT_MAX, PERF_CONTEXT_USER,
};

fn sample(cpu_mode: CpuMode, callchain: Option<Vec<u64>>, ip: Option<u64>) -> SampleRecord {
    SampleRecord {
        pid: Some(7),
        tid: Some(7),
        timestamp: Some(1000),
        period: None,
        ip,
        cpu_mode,
        callchain,
        user_regs: None,
        user_stack: None,
    }
}

fn unwindable(callchain: Option<Vec<u64>>, ip: Option<u64>) -> SampleRecord {
    SampleRecord {
        user_regs: Some(Regs { values: vec![] }),
        user_stack: Some(vec![]),
        ..sample(CpuMode::User, callchain, ip)
    }
}

fn stack_converter() -> StackConverter {
    let mut profile = Profile::new(
        "",
        ReferenceTimestamp::from_millis_since_unix_epoch(0.0),
        std::time::Duration::from_millis(1),
    );
    StackConverter {
        user_category: profile.add_category("User", CategoryColor::Yellow).into(),
        kernel_category: profile.add_category("Kernel", CategoryColor::Orange).into(),
    }
}

#[test]
fn context_values_are_those_of_the_reader() {
    assert_eq!(PERF_CONTEXT_KERNEL, consts::PERF_CONTEXT_KERNEL);
    assert_eq!(PERF_CONTEXT_USER, consts::PERF_CONTEXT_USER);
    assert_eq!(PERF_CONTEXT_GUEST, consts::PERF_CONTEXT_GUEST);
    assert_eq!(PERF_CONTEXT_GUEST_KERNEL, consts::PERF_CONTEXT_GUEST_KERNEL);
    assert_eq!(PERF_CONTEXT_GUEST_USER, consts::PERF_CONTEXT_GUEST_USER);
    assert_eq!(PERF_CONTEXT_MAX, consts::PERF_CONTEXT_MAX);
}

#[test]
fn context_frames_announce_modes() {
    assert_eq!(StackMode::from_context_frame(PERF_CONTEXT_KERNEL), Some(StackMode::Kernel));
    assert_eq!(StackMode::from_context_frame(PERF_CONTEXT_GUEST_KERNEL), Some(StackMode::Kernel));
    assert_eq!(StackMode::from_context_frame(PERF_CONTEXT_USER), Some(StackMode::User));
    assert_eq!(StackMode::from_context_frame(PERF_CONTEXT_GUEST), Some(StackMode::User));
    assert_eq!(StackMode::from_context_frame(PERF_CONTEXT_GUEST_USER), Some(StackMode::User));
    assert_eq!(StackMode::from_context_frame(PERF_CONTEXT_MAX), None);
    assert_eq!(StackMode::from_context_frame(0x1234), None);
}

#[test]
fn cpu_modes_become_stack_modes() {
    assert_eq!(StackMode::from(CpuMode::User), StackMode::User);
    assert_eq!(StackMode::from(CpuMode::GuestUser), StackMode::User);
    assert_eq!(StackMode::from(CpuMode::Hypervisor), StackMode::User);
    assert_eq!(StackMode::from(CpuMode::Unknown), StackMode::User);
    assert_eq!(StackMode::from(CpuMode::Kernel), StackMode::Kernel);
    assert_eq!(StackMode::from(CpuMode::GuestKernel), StackMode::Kernel);
}

#[test]
fn callchain_switches_modes_at_context_frames() {
    let e = sample(
        CpuMode::User,
        Some(vec![PERF_CONTEXT_KERNEL, 0x10, 0x20, PERF_CONTEXT_USER, 0x30]),
        Some(0x99),
    );
    assert_eq!(
        get_sample_stack(&e, &None),
        vec![
            StackFrame::InstructionPointer(0x10, StackMode::Kernel),
            StackFrame::ReturnAddress(0x20, StackMode::Kernel),
            StackFrame::ReturnAddress(0x30, StackMode::User),
        ]
    );
}

#[test]
fn callchain_starts_in_the_cpu_mode() {
    let e = sample(CpuMode::Kernel, Some(vec![0x10, PERF_CONTEXT_MAX, 0x20]), None);
    assert_eq!(
        get_sample_stack(&e, &None),
        vec![
            StackFrame::InstructionPointer(0x10, StackMode::Kernel),
            StackFrame::ReturnAddress(0x20, StackMode::Kernel),
        ]
    );
}

#[test]
fn highest_address_is_no_context_frame() {
    let e = sample(CpuMode::User, Some(vec![PERF_CONTEXT_MAX - 1]), None);
    assert_eq!(
        get_sample_stack(&e, &None),
        vec![StackFrame::InstructionPointer(PERF_CONTEXT_MAX - 1, StackMode::User)]
    );
}

#[test]
fn unwound_frames_follow_the_callchain() {
    let e = unwindable(Some(vec![PERF_CONTEXT_KERNEL, 0x10]), Some(0x99));
    let unwound = UnwoundStack {
        frames: vec![FrameAddress::InstructionPointer(0x30), FrameAddress::ReturnAddress(0x40)],
        broke_off: false,
    };
    assert_eq!(
        get_sample_stack(&e, &Some(unwound)),
        vec![
            StackFrame::InstructionPointer(0x10, StackMode::Kernel),
            StackFrame::InstructionPointer(0x30, StackMode::User),
            StackFrame::ReturnAddress(0x40, StackMode::User),
        ]
    );
}

#[test]
fn broken_off_unwinding_leaves_a_marker() {
    let e = unwindable(None, Some(0x99));
    let unwound = UnwoundStack {
        frames: vec![FrameAddress::InstructionPointer(0x30)],
        broke_off: true,
    };
    assert_eq!(
        get_sample_stack(&e, &Some(unwound)),
        vec![
            StackFrame::InstructionPointer(0x30, StackMode::User),
            StackFrame::TruncatedStackMarker,
        ]
    );
}

#[test]
fn instruction_pointer_stands_in_for_a_stack() {
    let e = sample(CpuMode::Kernel, None, Some(0x99));
    assert_eq!(
        get_sample_stack(&e, &None),
        vec![StackFrame::InstructionPointer(0x99, StackMode::Kernel)]
    );
    let e = sample(CpuMode::User, Some(vec![PERF_CONTEXT_USER]), Some(0x98));
    assert_eq!(
        get_sample_stack(&e, &None),
        vec![StackFrame::InstructionPointer(0x98, StackMode::User)]
    );
    let e = unwindable(None, Some(0x97));
    let unwound = UnwoundStack { frames: vec![], broke_off: false };
    assert_eq!(
        get_sample_stack(&e, &Some(unwound)),
        vec![StackFrame::InstructionPointer(0x97, StackMode::User)]
    );
}

#[test]
fn sample_without_anything_has_no_stack() {
    assert_eq!(get_sample_stack(&sample(CpuMode::User, None, None), &None), vec![]);
}

#[test]
fn stack_is_converted_root_first() {
    let converter = stack_converter();
    let user: CategoryPairHandle = converter.user_category;
    let kernel: CategoryPairHandle = converter.kernel_category;
    let stack = [
        StackFrame::InstructionPointer(0x10, StackMode::Kernel),
        StackFrame::ReturnAddress(0x20, StackMode::User),
        StackFrame::ReturnAddress(0x30, StackMode::User),
        StackFrame::TruncatedStackMarker,
    ];
    assert_eq!(
        converter.convert_stack(&stack),
        vec![
            (Frame::ReturnAddress(0x30), user),
            (Frame::ReturnAddress(0x20), user),
            (Frame::InstructionPointer(0x10), kernel),
        ]
    );
    assert_eq!(
        converter.convert_stack_no_kernel(&stack),
        vec![(Frame::ReturnAddress(0x30), user), (Frame::ReturnAddress(0x20), user)]
    );
    assert_eq!(converter.convert_stack(&[]), vec![]);
    assert_eq!(converter.convert_stack_no_kernel(&[]), vec![]);
    assert_ne!(user, kernel);
}

#[test]
fn user_instruction_pointer_is_kept_without_the_kernel() {
    let converter = stack_converter();
    assert_eq!(
        converter.convert_stack_no_kernel(&[
            StackFrame::InstructionPointer(0x10, StackMode::User),
            StackFrame::ReturnAddress(0x20, StackMode::Kernel),
        ]),
        vec![(Frame::InstructionPointer(0x10), converter.user_category)]
    );
}
