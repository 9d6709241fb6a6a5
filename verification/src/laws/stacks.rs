//! What holds of stacks.

use vstd::prelude::*;
use crate::profile::Frame;
use crate::records::{CpuMode, Regs, SampleRecord, SampleRecordView};
use crate::stack::{
    callchain_frames, mode_after, profile_frames, profile_user_frames, FrameAddress, StackFrame,
    StackMode, UnwoundStack, PERF_CONTEXT_MAX,
};
use crate::unwind::{
    aarch64_regs, little_endian, stack_word, starts_unwinding, x86_64_regs, ConvertRegs,
    ConvertRegsAarch64, ConvertRegsX86_64, MissingRegister,
};

verus! {

/// The innermost frame of a callchain is an instruction pointer, and all others are return
/// addresses. There are as many frames as there are addresses in the callchain.
pub proof fn law_callchain_kinds(chain: Seq<u64>, initial: StackMode)
    ensures
        forall|i: int|
            0 <= i < callchain_frames(chain, initial).len() ==> if i == 0 {
                #[trigger] callchain_frames(chain, initial)[i] is InstructionPointer
            } else {
                callchain_frames(chain, initial)[i] is ReturnAddress
            },
        callchain_frames(chain, initial).len() == chain.filter(
            |value: u64| value < PERF_CONTEXT_MAX,
        ).len(),
    decreases chain.len(),
{
    reveal(Seq::filter);
    if chain.len() > 0 {
        law_callchain_kinds(chain.drop_last(), initial);
    }
}

/// An address that follows a context frame has the mode which that announces, and one that
/// follows a context frame which announces none has the mode from before.
pub proof fn law_context_frame_sets_mode(
    chain: Seq<u64>,
    initial: StackMode,
    context: u64,
    address: u64,
)
    requires
        context >= PERF_CONTEXT_MAX,
        address < PERF_CONTEXT_MAX,
    ensures
        callchain_frames(chain.push(context).push(address), initial).last().located().unwrap().1
            == match StackMode::of_context_frame(context) {
            Some(mode) => mode,
            None => mode_after(chain, initial),
        },
{
    let marked = chain.push(context);
    assert(marked.push(address).drop_last() =~= marked);
    assert(marked.drop_last() =~= chain);
}

/// A sample with an instruction pointer has a stack.
pub proof fn law_sampled_stack_is_not_empty(e: SampleRecordView, unwound: Option<UnwoundStack>)
    requires
        e.ip is Some,
    ensures
        e.stack(unwound).len() > 0,
{
}

/// The innermost frame comes last in a profile, behind the frames around it, and markers
/// leave no trace.
pub proof fn law_root_comes_first<C>(
    innermost: StackFrame,
    around: Seq<StackFrame>,
    user: C,
    kernel: C,
)
    ensures
        profile_frames(seq![innermost] + around, user, kernel) == match innermost.located() {
            Some((frame, mode)) => profile_frames(around, user, kernel).push(
                (
                    frame,
                    if mode == StackMode::User {
                        user
                    } else {
                        kernel
                    },
                ),
            ),
            None => profile_frames(around, user, kernel),
        },
        profile_user_frames(seq![innermost] + around, user) == match innermost.located() {
            Some((frame, StackMode::User)) => profile_user_frames(around, user).push((frame, user)),
            _ => profile_user_frames(around, user),
        },
{
    reveal(Seq::filter);
    let stack = seq![innermost] + around;
    assert(stack.reverse() =~= around.reverse().push(innermost));
    assert(stack.reverse().drop_last() =~= around.reverse());
    assert(profile_frames(stack, user, kernel) =~= match innermost.located() {
        Some((frame, mode)) => profile_frames(around, user, kernel).push(
            (
                frame,
                if mode == StackMode::User {
                    user
                } else {
                    kernel
                },
            ),
        ),
        None => profile_frames(around, user, kernel),
    });
    assert(profile_user_frames(stack, user) =~= match innermost.located() {
        Some((frame, StackMode::User)) => profile_user_frames(around, user).push((frame, user)),
        _ => profile_user_frames(around, user),
    });
}

/// The frames of a stack without the kernel's are those that have the category of user
/// frames.
pub proof fn law_user_frames_are_selected(stack: Seq<StackFrame>, user: nat, kernel: nat)
    requires
        user != kernel,
    ensures
        profile_user_frames(stack, user) == profile_frames(stack, user, kernel).filter(
            |frame: (Frame, nat)| frame.1 == user,
        ),
    decreases stack.len(),
{
    let selected = |frame: (Frame, nat)| frame.1 == user;
    reveal(Seq::filter);
    if stack.len() > 0 {
        let around = stack.drop_first();
        law_user_frames_are_selected(around, user, kernel);
        assert(stack =~= seq![stack[0]] + around);
        law_root_comes_first(stack[0], around, user, kernel);
        let frames = profile_frames(around, user, kernel);
        if stack[0].located() is Some {
            let all = profile_frames(stack, user, kernel);
            assert(all.drop_last() =~= frames);
        }
    } else {
        assert(stack.reverse() =~= Seq::empty());
        assert(profile_user_frames(stack, user) =~= Seq::empty());
        assert(profile_frames(stack, user, kernel) =~= Seq::empty());
    }
}

/// Converting the user frames of a stack is converting the stack with all but its user frames
/// left out, whatever the categories.
pub proof fn law_no_kernel_leaves_out_kernel_frames<C>(stack: Seq<StackFrame>, user: C, kernel: C)
    ensures
        profile_user_frames(stack, user) == profile_frames(
            stack.filter(|frame: StackFrame| frame.is_user()),
            user,
            kernel,
        ),
    decreases stack.len(),
{
    let keep = |frame: StackFrame| frame.is_user();
    reveal(Seq::filter);
    if stack.len() > 0 {
        let around = stack.drop_first();
        law_no_kernel_leaves_out_kernel_frames(around, user, kernel);
        let innermost = seq![stack[0]];
        assert(stack =~= innermost + around);
        law_root_comes_first(stack[0], around, user, kernel);
        law_root_comes_first(stack[0], around.filter(keep), user, kernel);
        Seq::filter_distributes_over_add(innermost, around, keep);
        assert(innermost.drop_last() =~= Seq::empty());
        assert(innermost.drop_last().filter(keep) =~= Seq::empty());
        if stack[0].is_user() {
            assert(innermost.filter(keep) =~= innermost);
        } else {
            assert(innermost.filter(keep) =~= Seq::empty());
            assert(stack.filter(keep) =~= around.filter(keep));
        }
    } else {
        assert(stack.filter(keep) =~= stack);
        assert(stack.reverse() =~= Seq::empty());
        assert(profile_user_frames(stack, user) =~= Seq::empty());
        assert(profile_frames(stack, user, kernel) =~= Seq::empty());
    }
}

/// The recorded bytes of a stack start at the stack pointer: the word there is made of the
/// first eight bytes, and nothing can be read below it or beyond the end.
pub proof fn law_stack_starts_at_stack_pointer(stack: Seq<u8>, sp: u64, address: u64)
    ensures
        stack.len() >= 8 ==> stack_word(stack, sp, sp) == Some(little_endian(stack.take(8))),
        address < sp ==> stack_word(stack, sp, address) is None,
        address >= sp + stack.len() ==> stack_word(stack, sp, address) is None,
{
    assert(stack.take(8) =~= stack.subrange(0, 8));
}

/// The kernel and the kernel of a guest announce kernel frames; the user, a guest and the user
/// of a guest announce user frames. No other value announces anything, and what announces
/// something is no address.
pub proof fn law_context_frames_announce_modes(value: u64)
    ensures
        StackMode::of_context_frame(value) == Some(StackMode::Kernel) <==> value
            == 0xffff_ffff_ffff_ff80 || value == 0xffff_ffff_ffff_f780,
        StackMode::of_context_frame(value) == Some(StackMode::User) <==> value
            == 0xffff_ffff_ffff_fe00 || value == 0xffff_ffff_ffff_f800 || value
            == 0xffff_ffff_ffff_f600,
        StackMode::of_context_frame(value) is Some ==> !is_address(value),
{
}

/// Whether a value in a callchain is an address: the last page of the address space holds none.
pub open spec fn is_address(value: u64) -> bool {
    value <= 0xffff_ffff_ffff_f000
}

/// The addresses in a callchain.
pub open spec fn addresses(chain: Seq<u64>) -> Seq<u64> {
    chain.filter(|value: u64| is_address(value))
}

/// Whether this is the mode in force behind the first values of a callchain: that which the
/// last of them that announces one announces, or else the one from before.
pub open spec fn is_in_force(
    chain: Seq<u64>,
    until: int,
    initial: StackMode,
    mode: StackMode,
) -> bool {
    &&& forall|m: int|
        0 <= m < until && StackMode::of_context_frame(#[trigger] chain[m]) is Some && (forall|
            later: int,
        |
            m < later < until ==> StackMode::of_context_frame(#[trigger] chain[later]) is None)
            ==> mode == StackMode::of_context_frame(chain[m])->0
    &&& (forall|m: int|
        0 <= m < until ==> StackMode::of_context_frame(#[trigger] chain[m]) is None) ==> mode
        == initial
}

/// Behind a callchain the mode is in force that was announced last.
proof fn lemma_mode_in_force(chain: Seq<u64>, initial: StackMode)
    ensures
        is_in_force(chain, chain.len() as int, initial, mode_after(chain, initial)),
    decreases chain.len(),
{
    if chain.len() > 0 {
        let before = chain.drop_last();
        lemma_mode_in_force(before, initial);
        let last = chain.len() - 1;
        assert(chain[last] == chain.last());
        if StackMode::of_context_frame(chain.last()) is None {
            let mode = mode_after(chain, initial);
            assert forall|m: int|
                0 <= m < chain.len() && StackMode::of_context_frame(#[trigger] chain[m]) is Some
                    && (forall|later: int|
                    m < later < chain.len() ==> StackMode::of_context_frame(
                        #[trigger] chain[later],
                    ) is None) implies mode == StackMode::of_context_frame(chain[m])->0 by {
                assert(before[m] == chain[m]);
                assert forall|later: int| m < later < before.len() implies
                    StackMode::of_context_frame(#[trigger] before[later]) is None by {
                    assert(before[later] == chain[later]);
                }
            }
            if forall|m: int|
                0 <= m < chain.len() ==> StackMode::of_context_frame(#[trigger] chain[m]) is None {
                assert forall|m: int| 0 <= m < before.len() implies StackMode::of_context_frame(
                    #[trigger] before[m],
                ) is None by {
                    assert(before[m] == chain[m]);
                }
            }
        }
    }
}

/// Each address in a callchain becomes a frame, in order and in the mode that is in force at
/// its place. The first is an instruction pointer, the others are return addresses.
pub proof fn law_callchain_frame(chain: Seq<u64>, initial: StackMode, place: int)
    requires
        0 <= place < chain.len(),
        is_address(chain[place]),
    ensures
        ({
            let frames = callchain_frames(chain, initial);
            let k = addresses(chain.take(place)).len() as int;
            &&& frames.len() == addresses(chain).len()
            &&& k < frames.len()
            &&& if k == 0 {
                frames[k] matches StackFrame::InstructionPointer(address, mode) && address
                    == chain[place] && is_in_force(chain, place, initial, mode)
            } else {
                frames[k] matches StackFrame::ReturnAddress(address, mode) && address
                    == chain[place] && is_in_force(chain, place, initial, mode)
            }
        }),
    decreases chain.len(),
{
    lemma_frame_count(chain, initial);
    lemma_frame_count(chain.take(place), initial);
    let before = chain.drop_last();
    let last = chain.len() - 1;
    if place == last {
        assert(chain.take(place) =~= before);
        lemma_mode_in_force(before, initial);
        let mode = mode_after(before, initial);
        lemma_in_force_prefix(before, chain, place, initial, mode);
    } else {
        assert(before.take(place) =~= chain.take(place));
        assert(before[place] == chain[place]);
        law_callchain_frame(before, initial, place);
        let k = addresses(chain.take(place)).len() as int;
        assert(callchain_frames(chain, initial)[k] == callchain_frames(before, initial)[k]);
        match callchain_frames(before, initial)[k] {
            StackFrame::InstructionPointer(_, mode) => {
                lemma_in_force_prefix(before, chain, place, initial, mode);
            },
            StackFrame::ReturnAddress(_, mode) => {
                lemma_in_force_prefix(before, chain, place, initial, mode);
            },
            StackFrame::TruncatedStackMarker => {},
        }
    }
}

/// There are as many frames as there are addresses.
proof fn lemma_frame_count(chain: Seq<u64>, initial: StackMode)
    ensures
        callchain_frames(chain, initial).len() == addresses(chain).len(),
    decreases chain.len(),
{
    reveal(Seq::filter);
    if chain.len() > 0 {
        lemma_frame_count(chain.drop_last(), initial);
    }
}

/// Which mode is in force at a place depends only on what comes before.
proof fn lemma_in_force_prefix(
    a: Seq<u64>,
    b: Seq<u64>,
    until: int,
    initial: StackMode,
    mode: StackMode,
)
    requires
        until <= a.len(),
        until <= b.len(),
        forall|i: int| 0 <= i < until ==> a[i] == b[i],
        is_in_force(a, until, initial, mode),
    ensures
        is_in_force(b, until, initial, mode),
{
    assert forall|m: int|
        0 <= m < until && StackMode::of_context_frame(#[trigger] b[m]) is Some && (forall|
            later: int,
        |
            m < later < until ==> StackMode::of_context_frame(#[trigger] b[later]) is None) implies
        mode == StackMode::of_context_frame(b[m])->0 by {
        assert(a[m] == b[m]);
        assert forall|later: int| m < later < until implies StackMode::of_context_frame(
            #[trigger] a[later],
        ) is None by {
            assert(b[later] == a[later]);
        }
    }
    if forall|m: int| 0 <= m < until ==> StackMode::of_context_frame(#[trigger] b[m]) is None {
        assert forall|m: int| 0 <= m < until implies StackMode::of_context_frame(
            #[trigger] a[m],
        ) is None by {
            assert(b[m] == a[m]);
        }
    }
}

/// Frames that are sampled in the kernel, also that of a guest, are kernel frames; those that
/// are sampled in any other CPU mode are user frames.
pub proof fn law_cpu_mode_starts_the_stack(cpu_mode: CpuMode)
    ensures
        StackMode::of_cpu_mode(cpu_mode) == StackMode::Kernel <==> cpu_mode == CpuMode::Kernel
            || cpu_mode == CpuMode::GuestKernel,
{
}

/// The frames that unwinding found, where it was tried.
pub open spec fn found_frames(unwound: Option<UnwoundStack>) -> Seq<FrameAddress> {
    match unwound {
        Some(unwound) => unwound.frames@,
        None => Seq::empty(),
    }
}

/// The stack of a sample starts with the frames of its callchain. Behind them comes one user
/// frame for each frame that unwinding found, in order and with its address, and then a marker,
/// exactly where unwinding broke off. Only where that comes to nothing, the instruction pointer
/// is the only frame.
pub proof fn law_sample_stack_holds_all_frames(e: SampleRecordView, unwound: Option<UnwoundStack>)
    ensures
        ({
            let stack = e.stack(unwound);
            let mode = if e.cpu_mode == CpuMode::Kernel || e.cpu_mode == CpuMode::GuestKernel {
                StackMode::Kernel
            } else {
                StackMode::User
            };
            let walked = match e.callchain {
                Some(chain) => callchain_frames(chain, mode),
                None => Seq::empty(),
            };
            let found = found_frames(unwound);
            let broke_off = unwound is Some && unwound->0.broke_off;
            let n = walked.len() as int;
            let m = found.len() as int;
            if n == 0 && m == 0 && !broke_off {
                match e.ip {
                    Some(ip) => stack.len() == 1 && stack[0] == StackFrame::InstructionPointer(
                        ip,
                        mode,
                    ),
                    None => stack.len() == 0,
                }
            } else {
                &&& stack.len() == if broke_off {
                    n + m + 1
                } else {
                    n + m
                }
                &&& forall|i: int| 0 <= i < n ==> #[trigger] stack[i] == walked[i]
                &&& forall|i: int|
                    0 <= i < m ==> stack[n + i] == match #[trigger] found[i] {
                        FrameAddress::InstructionPointer(
                            address,
                        ) => StackFrame::InstructionPointer(address, StackMode::User),
                        FrameAddress::ReturnAddress(address) => StackFrame::ReturnAddress(
                            address,
                            StackMode::User,
                        ),
                    }
                &&& broke_off ==> stack[n + m] == StackFrame::TruncatedStackMarker
            }
        }),
{
}

/// Converting a stack keeps every address and how it was found, puts user frames into the one
/// category and kernel frames into the other, drops markers, and turns the order around. Leaving
/// the kernel out drops kernel frames as well.
pub proof fn law_converted_stack_keeps_frames<C>(
    innermost: StackFrame,
    around: Seq<StackFrame>,
    user: C,
    kernel: C,
)
    ensures
        ({
            let stack = seq![innermost] + around;
            let rest = profile_frames(around, user, kernel);
            let user_rest = profile_user_frames(around, user);
            &&& profile_frames(Seq::empty(), user, kernel).len() == 0
            &&& profile_user_frames(Seq::empty(), user).len() == 0
            &&& profile_frames(stack, user, kernel) == match innermost {
                StackFrame::InstructionPointer(address, StackMode::User) => rest.push(
                    (Frame::InstructionPointer(address), user),
                ),
                StackFrame::InstructionPointer(address, StackMode::Kernel) => rest.push(
                    (Frame::InstructionPointer(address), kernel),
                ),
                StackFrame::ReturnAddress(address, StackMode::User) => rest.push(
                    (Frame::ReturnAddress(address), user),
                ),
                StackFrame::ReturnAddress(address, StackMode::Kernel) => rest.push(
                    (Frame::ReturnAddress(address), kernel),
                ),
                StackFrame::TruncatedStackMarker => rest,
            }
            &&& profile_user_frames(stack, user) == match innermost {
                StackFrame::InstructionPointer(address, StackMode::User) => user_rest.push(
                    (Frame::InstructionPointer(address), user),
                ),
                StackFrame::ReturnAddress(address, StackMode::User) => user_rest.push(
                    (Frame::ReturnAddress(address), user),
                ),
                _ => user_rest,
            }
        }),
{
    reveal(Seq::filter);
    let none = Seq::<StackFrame>::empty();
    assert(none.reverse() =~= none);
    assert(profile_frames(none, user, kernel) =~= Seq::empty());
    assert(profile_user_frames(none, user) =~= Seq::empty());
    law_root_comes_first(innermost, around, user, kernel);
}

/// A stack can be unwound after the fact where the sample holds both registers and stack bytes,
/// and only there.
pub proof fn law_unwinding_takes_registers_and_stack(e: SampleRecordView)
    ensures
        e.can_unwind() <==> e.user_regs is Some && e.user_stack is Some,
{
}

/// Unwinding starts wherever a sample holds both registers and stack bytes, and only there; it
/// fails where a register that it needs is missing, and only there.
pub proof fn law_unwinding_starts_from_registers<C: ConvertRegs>(
    e: SampleRecord,
    start: Result<Option<(u64, u64, C::UnwindRegs)>, MissingRegister>,
)
    requires
        starts_unwinding::<C>(e, start),
    ensures
        e.user_regs is None || e.user_stack is None ==> start is Ok && start->Ok_0 is None,
        e.user_regs is Some && e.user_stack is Some ==> {
            &&& start is Err <==> !C::complete(e.user_regs->0)
            &&& start matches Ok(start) ==> (start matches Some((ip, sp, regs)) && C::converted(
                e.user_regs->0,
                ip,
                sp,
                regs,
            ))
        },
{
}

/// A word of a recorded stack is made of eight bytes, the least significant first. An address
/// within a word gives that word, counted from the stack pointer.
pub proof fn law_stack_word_is_made_of_bytes(stack: Seq<u8>, sp: u64, word: int, within: int)
    requires
        0 <= word,
        0 <= within < 8,
        sp + 8 * word + within <= u64::MAX,
        8 * word + 8 <= stack.len(),
    ensures
        stack_word(stack, sp, (sp + 8 * word + within) as u64) == Some(
            stack[8 * word] + 0x100 * stack[8 * word + 1] + 0x1_0000 * stack[8 * word + 2]
                + 0x100_0000 * stack[8 * word + 3] + 0x1_0000_0000 * stack[8 * word + 4]
                + 0x100_0000_0000 * stack[8 * word + 5] + 0x1_0000_0000_0000 * stack[8 * word + 6]
                + 0x100_0000_0000_0000 * stack[8 * word + 7],
        ),
{
    let bytes = stack.subrange(8 * word, 8 * word + 8);
    reveal_with_fuel(little_endian, 9);
    assert((8 * word + within) / 8 == word);
}

/// Nothing can be read of a word that was not recorded whole.
pub proof fn law_stack_ends_with_the_last_whole_word(stack: Seq<u8>, sp: u64, address: u64)
    ensures
        stack_word(stack, sp, address) is Some <==> sp <= address && 8 * ((address - sp) / 8) + 8
            <= stack.len(),
{
}

/// The registers that an x86-64 stack is unwound from are the recorded instruction pointer,
/// stack pointer and base pointer, which have the numbers eight, seven and six. All three are
/// needed, and no other.
pub proof fn law_x86_64_registers(
    regs: Regs,
    ip: u64,
    sp: u64,
    unwind_regs: framehop::x86_64::UnwindRegsX86_64,
)
    ensures
        ConvertRegsX86_64::complete(regs) <==> {
            &&& regs.values@.len() > 8
            &&& regs.values@[8] is Some
            &&& regs.values@[7] is Some
            &&& regs.values@[6] is Some
        },
        ConvertRegsX86_64::complete(regs) && ConvertRegsX86_64::converted(regs, ip, sp, unwind_regs)
            ==> {
            &&& regs.values@[8] == Some(ip)
            &&& regs.values@[7] == Some(sp)
            &&& x86_64_regs(unwind_regs) == seq![ip, sp, regs.values@[6]->0]
        },
{
}

/// The registers that an aarch64 stack is unwound from are the recorded program counter, link
/// register, stack pointer and frame pointer, which have the numbers 32, 30, 31 and 29. All four
/// are needed, and no other.
pub proof fn law_aarch64_registers(
    regs: Regs,
    ip: u64,
    sp: u64,
    unwind_regs: framehop::aarch64::UnwindRegsAarch64,
)
    ensures
        ConvertRegsAarch64::complete(regs) <==> {
            &&& regs.values@.len() > 32
            &&& regs.values@[32] is Some
            &&& regs.values@[31] is Some
            &&& regs.values@[30] is Some
            &&& regs.values@[29] is Some
        },
        ConvertRegsAarch64::complete(regs) && ConvertRegsAarch64::converted(
            regs,
            ip,
            sp,
            unwind_regs,
        ) ==> {
            &&& regs.values@[32] == Some(ip)
            &&& regs.values@[31] == Some(sp)
            &&& aarch64_regs(unwind_regs) == seq![regs.values@[30]->0, sp, regs.values@[29]->0]
        },
{
}

} // verus!
