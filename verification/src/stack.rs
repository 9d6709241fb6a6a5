//! Stacks: how they are put together from a sample, and how they are handed on.

use vstd::prelude::*;
use fxprof_processed_profile::CategoryPairHandle;
use crate::profile::{category_index, numbered_frames, Frame};
use crate::records::{CpuMode, SampleRecord, SampleRecordView};

verus! {

/// Marks kernel frames in a callchain.
pub const PERF_CONTEXT_KERNEL: u64 = 0xffff_ffff_ffff_ff80;

/// Marks user frames in a callchain.
pub const PERF_CONTEXT_USER: u64 = 0xffff_ffff_ffff_fe00;

/// Marks guest frames in a callchain.
pub const PERF_CONTEXT_GUEST: u64 = 0xffff_ffff_ffff_f800;

/// Marks guest kernel frames in a callchain.
pub const PERF_CONTEXT_GUEST_KERNEL: u64 = 0xffff_ffff_ffff_f780;

/// Marks guest user frames in a callchain.
pub const PERF_CONTEXT_GUEST_USER: u64 = 0xffff_ffff_ffff_f600;

/// The least value in a callchain that is not an address.
pub const PERF_CONTEXT_MAX: u64 = 0xffff_ffff_ffff_f001;

/// A frame of a stack.
#[derive(Clone, Copy, Debug, PartialEq, Eq, Structural)]
pub enum StackFrame {
    /// An address taken from the instruction pointer.
    InstructionPointer(u64, StackMode),
    /// An address taken from a return address.
    ReturnAddress(u64, StackMode),
    /// Stands where unwinding broke off.
    TruncatedStackMarker,
}

/// Whether a frame ran in user space or in the kernel.
#[derive(Debug, Clone, Copy, PartialEq, Eq, Structural)]
pub enum StackMode {
    User,
    Kernel,
}

impl StackMode {
    /// The mode that a context frame announces.
    pub open spec fn of_context_frame(frame: u64) -> Option<StackMode> {
        if frame == PERF_CONTEXT_KERNEL || frame == PERF_CONTEXT_GUEST_KERNEL {
            Some(StackMode::Kernel)
        } else if frame == PERF_CONTEXT_USER || frame == PERF_CONTEXT_GUEST || frame
            == PERF_CONTEXT_GUEST_USER {
            Some(StackMode::User)
        } else {
            None
        }
    }

    /// Detects the stack mode from a "context frame".
    ///
    /// Context frames are present in sample callchains; they are `u64` values
    /// which are `>= PERF_CONTEXT_MAX`.
    pub fn from_context_frame(frame: u64) -> (mode: Option<StackMode>)
        ensures
            mode == StackMode::of_context_frame(frame),
    {
        match frame {
            PERF_CONTEXT_KERNEL | PERF_CONTEXT_GUEST_KERNEL => Some(StackMode::Kernel),
            PERF_CONTEXT_USER | PERF_CONTEXT_GUEST | PERF_CONTEXT_GUEST_USER => Some(
                StackMode::User,
            ),
            _ => None,
        }
    }

    /// The mode of the frames that are sampled in a CPU mode.
    pub open spec fn of_cpu_mode(cpu_mode: CpuMode) -> StackMode {
        if cpu_mode == CpuMode::Kernel || cpu_mode == CpuMode::GuestKernel {
            StackMode::Kernel
        } else {
            StackMode::User
        }
    }
}

impl From<CpuMode> for StackMode {
    /// Converts a `CpuMode` into a `StackMode`.
    fn from(cpu_mode: CpuMode) -> (mode: StackMode) {
        match cpu_mode {
            CpuMode::User | CpuMode::GuestUser | CpuMode::Hypervisor | CpuMode::Unknown => {
                StackMode::User
            },
            CpuMode::Kernel | CpuMode::GuestKernel => StackMode::Kernel,
        }
    }
}

impl vstd::std_specs::convert::FromSpecImpl<CpuMode> for StackMode {
    open spec fn obeys_from_spec() -> bool {
        true
    }

    open spec fn from_spec(cpu_mode: CpuMode) -> StackMode {
        StackMode::of_cpu_mode(cpu_mode)
    }
}

/// An address that unwinding found.
#[derive(Debug, Clone, Copy, PartialEq, Eq, Structural)]
pub enum FrameAddress {
    InstructionPointer(u64),
    ReturnAddress(u64),
}

/// What unwinding made of a user stack: the frames that it found, innermost first,
/// and whether it broke off before it reached the root of the stack.
#[derive(Debug, PartialEq, Eq)]
pub struct UnwoundStack {
    pub frames: Vec<FrameAddress>,
    pub broke_off: bool,
}

/// The mode that is in force behind a callchain which starts in the mode `initial`:
/// that of the last context frame which announces one.
pub open spec fn mode_after(chain: Seq<u64>, initial: StackMode) -> StackMode
    decreases chain.len(),
{
    if chain.len() == 0 {
        initial
    } else if chain.last() >= PERF_CONTEXT_MAX && StackMode::of_context_frame(
        chain.last(),
    ) is Some {
        StackMode::of_context_frame(chain.last())->0
    } else {
        mode_after(chain.drop_last(), initial)
    }
}

/// The frames of a callchain which starts in the mode `initial`: one for each address
/// in it, in the mode that is in force there. The first is an instruction pointer, the
/// others are return addresses.
pub open spec fn callchain_frames(chain: Seq<u64>, initial: StackMode) -> Seq<StackFrame>
    decreases chain.len(),
{
    if chain.len() == 0 {
        Seq::empty()
    } else {
        let before = callchain_frames(chain.drop_last(), initial);
        let mode = mode_after(chain.drop_last(), initial);
        let address = chain.last();
        if address >= PERF_CONTEXT_MAX {
            before
        } else if before.len() == 0 {
            before.push(StackFrame::InstructionPointer(address, mode))
        } else {
            before.push(StackFrame::ReturnAddress(address, mode))
        }
    }
}

impl FrameAddress {
    /// The user frame at this address.
    pub open spec fn user_frame(self) -> StackFrame {
        match self {
            FrameAddress::InstructionPointer(address) => StackFrame::InstructionPointer(
                address,
                StackMode::User,
            ),
            FrameAddress::ReturnAddress(address) => StackFrame::ReturnAddress(
                address,
                StackMode::User,
            ),
        }
    }
}

impl UnwoundStack {
    /// The frames as user frames, followed by a marker where unwinding broke off.
    pub open spec fn user_frames(self) -> Seq<StackFrame> {
        let frames = self.frames@.map_values(|frame: FrameAddress| frame.user_frame());
        if self.broke_off {
            frames.push(StackFrame::TruncatedStackMarker)
        } else {
            frames
        }
    }
}

impl SampleRecordView {
    /// The frames of the callchain of a sample.
    pub open spec fn chain_frames(self) -> Seq<StackFrame> {
        match self.callchain {
            Some(chain) => callchain_frames(chain, StackMode::of_cpu_mode(self.cpu_mode)),
            None => Seq::empty(),
        }
    }

    /// The stack of a sample, innermost frame first: the callchain, then what unwinding
    /// made of the user stack. Where there is neither, it is the instruction pointer alone.
    pub open spec fn stack(self, unwound: Option<UnwoundStack>) -> Seq<StackFrame> {
        let walked = match unwound {
            Some(unwound) => self.chain_frames() + unwound.user_frames(),
            None => self.chain_frames(),
        };
        if walked.len() == 0 && self.ip is Some {
            seq![StackFrame::InstructionPointer(self.ip->0, StackMode::of_cpu_mode(self.cpu_mode))]
        } else {
            walked
        }
    }
}

/// Reads the frames of a callchain.
fn get_callchain_frames(chain: &Vec<u64>, cpu_mode: CpuMode) -> (stack: Vec<StackFrame>)
    ensures
        stack@ == callchain_frames(chain@, StackMode::of_cpu_mode(cpu_mode)),
{
    let ghost initial = StackMode::of_cpu_mode(cpu_mode);
    let mut stack: Vec<StackFrame> = Vec::new();
    let mut mode: StackMode = StackMode::from(cpu_mode);
    let mut i: usize = 0;
    while i < chain.len()
        invariant
            i <= chain@.len(),
            mode == mode_after(chain@.take(i as int), initial),
            stack@ == callchain_frames(chain@.take(i as int), initial),
        decreases chain@.len() - i,
    {
        let address: u64 = chain[i];
        proof {
            assert(chain@.take(i + 1).drop_last() =~= chain@.take(i as int));
            assert(chain@.take(i + 1).last() == address);
        }
        if address >= PERF_CONTEXT_MAX {
            if let Some(new_mode) = StackMode::from_context_frame(address) {
                mode = new_mode;
            }
        } else if stack.len() == 0 {
            stack.push(StackFrame::InstructionPointer(address, mode));
        } else {
            stack.push(StackFrame::ReturnAddress(address, mode));
        }
        i = i + 1;
    }
    assert(chain@.take(chain@.len() as int) =~= chain@);
    stack
}

/// Gets the stack that is contained in a sample, innermost frame first.
///
/// We can have both the kernel stack and the user stack, or just one of
/// them, or neither.
///
/// If the sample has a kernel stack, it is always in `e.callchain`.
///
/// If the sample has a user stack, its source depends on the method of
/// stackwalking that was requested during recording:
///
///  - With frame pointer unwinding, the user stack is walked during sampling by
///    the kernel and appended to `e.callchain`.
///  - With DWARF unwinding, the raw bytes on the stack are just copied, and they
///    are unwound after the fact, based on the register values in `e.user_regs`
///    and the raw stack bytes in `e.user_stack`. What that found is `unwound`.
pub fn get_sample_stack(e: &SampleRecord, unwound: &Option<UnwoundStack>) -> (stack: Vec<
    StackFrame,
>)
    requires
        unwound is Some <==> e@.can_unwind(),
    ensures
        stack@ == e@.stack(*unwound),
{
    let mut stack: Vec<StackFrame> = match &e.callchain {
        Some(chain) => get_callchain_frames(chain, e.cpu_mode),
        None => Vec::new(),
    };
    assert(stack@ == e@.chain_frames());

    if let Some(unwound) = unwound {
        let ghost chain_frames = stack@;
        let mut i: usize = 0;
        while i < unwound.frames.len()
            invariant
                i <= unwound.frames@.len(),
                stack@ == chain_frames + unwound.frames@.take(i as int).map_values(
                    |frame: FrameAddress| frame.user_frame(),
                ),
            decreases unwound.frames@.len() - i,
        {
            let frame: StackFrame = match unwound.frames[i] {
                FrameAddress::InstructionPointer(address) => StackFrame::InstructionPointer(
                    address,
                    StackMode::User,
                ),
                FrameAddress::ReturnAddress(address) => StackFrame::ReturnAddress(
                    address,
                    StackMode::User,
                ),
            };
            stack.push(frame);
            i = i + 1;
        }
        assert(unwound.frames@.take(unwound.frames@.len() as int) =~= unwound.frames@);
        if unwound.broke_off {
            stack.push(StackFrame::TruncatedStackMarker);
        }
        assert(stack@ == chain_frames + unwound.user_frames());
    }
    if stack.len() == 0 {
        if let Some(ip) = e.ip {
            stack.push(StackFrame::InstructionPointer(ip, StackMode::from(e.cpu_mode)));
        }
    }
    stack
}

impl StackFrame {
    /// The frame without its mode, and its mode. A marker is no frame.
    pub open spec fn located(self) -> Option<(Frame, StackMode)> {
        match self {
            StackFrame::InstructionPointer(address, mode) => Some(
                (Frame::InstructionPointer(address), mode),
            ),
            StackFrame::ReturnAddress(address, mode) => Some((Frame::ReturnAddress(address), mode)),
            StackFrame::TruncatedStackMarker => None,
        }
    }

    /// Whether this is a user frame.
    pub open spec fn is_user(self) -> bool {
        self.located() is Some && self.located().unwrap().1 == StackMode::User
    }
}

/// A stack as a profile takes it: root first, without markers, each frame with the category
/// for its mode.
pub open spec fn profile_frames<C>(stack: Seq<StackFrame>, user: C, kernel: C) -> Seq<(Frame, C)> {
    stack.reverse().filter(|frame: StackFrame| frame.located() is Some).map_values(
        |frame: StackFrame|
            (
                frame.located().unwrap().0,
                if frame.is_user() {
                    user
                } else {
                    kernel
                },
            ),
    )
}

/// The user frames of a stack as a profile takes them.
pub open spec fn profile_user_frames<C>(stack: Seq<StackFrame>, user: C) -> Seq<(Frame, C)> {
    stack.reverse().filter(|frame: StackFrame| frame.is_user()).map_values(
        |frame: StackFrame| (frame.located().unwrap().0, user),
    )
}

/// Filtering one element more keeps it or passes over it.
proof fn lemma_filter_next<A>(s: Seq<A>, i: int, keep: spec_fn(A) -> bool)
    requires
        0 <= i < s.len(),
    ensures
        s.take(i + 1).filter(keep) == if keep(s[i]) {
            s.take(i).filter(keep).push(s[i])
        } else {
            s.take(i).filter(keep)
        },
{
    reveal(Seq::filter);
    assert(s.take(i + 1).drop_last() =~= s.take(i));
    assert(s.take(i + 1).last() == s[i]);
}

/// Converts stacks for a profile, which puts frames into categories by their mode.
#[derive(Debug, Clone, Copy)]
pub struct StackConverter {
    pub user_category: CategoryPairHandle,
    pub kernel_category: CategoryPairHandle,
}

impl StackConverter {
    /// The number of the category for user frames.
    pub open spec fn user(self) -> nat {
        category_index(self.user_category)
    }

    /// The number of the category for kernel frames.
    pub open spec fn kernel(self) -> nat {
        category_index(self.kernel_category)
    }

    /// Converts a stack: root first, without markers, each frame with its category.
    pub fn convert_stack(&self, stack: &[StackFrame]) -> (frames: Vec<(Frame, CategoryPairHandle)>)
        ensures
            frames@ == profile_frames(stack@, self.user_category, self.kernel_category),
            numbered_frames(frames@) == profile_frames(stack@, self.user(), self.kernel()),
    {
        let mut frames: Vec<(Frame, CategoryPairHandle)> = Vec::new();
        let ghost reversed = stack@.reverse();
        let ghost keep = |frame: StackFrame| frame.located() is Some;
        let ghost categorize = |frame: StackFrame|
            (
                frame.located().unwrap().0,
                if frame.is_user() {
                    self.user_category
                } else {
                    self.kernel_category
                },
            );
        proof {
            reveal(Seq::filter);
        }
        let mut i: usize = 0;
        while i < stack.len()
            invariant
                i <= stack@.len(),
                reversed == stack@.reverse(),
                keep == (|frame: StackFrame| frame.located() is Some),
                categorize == (|frame: StackFrame|
                    (
                        frame.located().unwrap().0,
                        if frame.is_user() {
                            self.user_category
                        } else {
                            self.kernel_category
                        },
                    )),
                frames@ =~= reversed.take(i as int).filter(keep).map_values(categorize),
            decreases stack@.len() - i,
        {
            let frame: StackFrame = stack[stack.len() - 1 - i];
            proof {
                lemma_filter_next(reversed, i as int, keep);
                assert(reversed[i as int] == frame);
            }
            let located: Option<(Frame, StackMode)> = match frame {
                StackFrame::InstructionPointer(address, mode) => Some(
                    (Frame::InstructionPointer(address), mode),
                ),
                StackFrame::ReturnAddress(address, mode) => Some(
                    (Frame::ReturnAddress(address), mode),
                ),
                StackFrame::TruncatedStackMarker => None,
            };
            if let Some((location, mode)) = located {
                let category: CategoryPairHandle = match mode {
                    StackMode::User => self.user_category,
                    StackMode::Kernel => self.kernel_category,
                };
                frames.push((location, category));
            }
            i = i + 1;
        }
        assert(reversed.take(stack@.len() as int) =~= reversed);
        assert(numbered_frames(frames@) =~= profile_frames(stack@, self.user(), self.kernel()));
        frames
    }

    /// Converts the user frames of a stack: root first, each with its category.
    pub fn convert_stack_no_kernel(&self, stack: &[StackFrame]) -> (frames: Vec<
        (Frame, CategoryPairHandle),
    >)
        ensures
            frames@ == profile_user_frames(stack@, self.user_category),
            numbered_frames(frames@) == profile_user_frames(stack@, self.user()),
    {
        let mut frames: Vec<(Frame, CategoryPairHandle)> = Vec::new();
        let ghost reversed = stack@.reverse();
        let ghost keep = |frame: StackFrame| frame.is_user();
        let ghost categorize = |frame: StackFrame|
            (frame.located().unwrap().0, self.user_category);
        proof {
            reveal(Seq::filter);
        }
        let mut i: usize = 0;
        while i < stack.len()
            invariant
                i <= stack@.len(),
                reversed == stack@.reverse(),
                keep == (|frame: StackFrame| frame.is_user()),
                categorize == (|frame: StackFrame|
                    (frame.located().unwrap().0, self.user_category)),
                frames@ =~= reversed.take(i as int).filter(keep).map_values(categorize),
            decreases stack@.len() - i,
        {
            let frame: StackFrame = stack[stack.len() - 1 - i];
            proof {
                lemma_filter_next(reversed, i as int, keep);
                assert(reversed[i as int] == frame);
            }
            let location: Option<Frame> = match frame {
                StackFrame::InstructionPointer(address, StackMode::User) => Some(
                    Frame::InstructionPointer(address),
                ),
                StackFrame::ReturnAddress(address, StackMode::User) => Some(
                    Frame::ReturnAddress(address),
                ),
                _ => None,
            };
            if let Some(location) = location {
                frames.push((location, self.user_category));
            }
            i = i + 1;
        }
        assert(reversed.take(stack@.len() as int) =~= reversed);
        assert(numbered_frames(frames@) =~= profile_user_frames(stack@, self.user()));
        frames
    }
}

} // verus!
