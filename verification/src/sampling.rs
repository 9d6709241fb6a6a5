//! What samples and switches of a thread tell the profile.

use vstd::prelude::*;
use fxprof_processed_profile::{CategoryPairHandle, Profile};
use crate::profile::{add_sample, profile_contents, resolvable, Frame, GivenSample};
use crate::stack::{profile_user_frames, StackConverter, StackFrame};
use crate::state::off_cpu_weight;
use crate::tables::{LiveThread, Thread, ThreadState};

verus! {

/// Adds the sample for a switch of a thread: the user frames of the stack with which it was
/// last switched out.
pub(crate) fn add_switch_sample(
    profile: &mut Profile,
    stack_converter: StackConverter,
    thread: &mut Thread,
    timestamp: u64,
    profile_timestamp: u64,
    cpu_delta_nanos: u64,
    weight: i32,
)
    requires
        profile_contents(*old(profile)).valid(),
        old(thread)@.index < profile_contents(*old(profile)).threads.len(),
        resolvable(
            profile_user_frames(old(thread)@.switch_stack(), stack_converter.user()),
            profile_contents(*old(profile)).mappings_of_thread(old(thread)@.index),
        ),
    ensures
        final(thread)@ == (LiveThread {
            last_sample_timestamp: Some(timestamp),
            ..old(thread)@
        }),
        profile_contents(*final(profile)) == profile_contents(*old(profile)).with_sample(
            old(thread)@.index,
            GivenSample {
                timestamp: profile_timestamp,
                frames: profile_user_frames(old(thread)@.switch_stack(), stack_converter.user()),
                cpu_delta_micros: cpu_delta_nanos / 1000,
                weight,
            },
        ),
{
    let frames: Vec<(Frame, CategoryPairHandle)> = match &thread.off_cpu_stack {
        Some(stack) => stack_converter.convert_stack_no_kernel(stack.as_slice()),
        None => stack_converter.convert_stack_no_kernel(&[]),
    };
    proof {
        let empty: [StackFrame; 0] = [];
        assert(empty@ =~= Seq::<StackFrame>::empty());
    }
    add_sample(
        profile,
        thread.profile_thread,
        profile_timestamp,
        frames,
        cpu_delta_nanos,
        weight,
    );
    thread.last_sample_timestamp = Some(timestamp);
}

/// Computes the weight of the sample for a time that a thread was not running.
pub(crate) fn compute_off_cpu_weight(
    sampling_is_time_based: Option<u64>,
    off_duration: u64,
) -> (weight: i32)
    requires
        sampling_is_time_based != Some(0u64),
    ensures
        weight == off_cpu_weight(sampling_is_time_based, off_duration as int),
{
    match sampling_is_time_based {
        Some(interval) => {
            let samples: u64 = off_duration / interval;
            if samples <= i32::MAX as u64 {
                samples as i32
            } else {
                0
            }
        },
        None => 0,
    }
}

/// Notes that a thread is running, as a sample shows. A thread that was taken to be switched
/// out is first accounted for the time that it was not running. Gives the time since the
/// thread was last seen running.
pub(crate) fn observe_running(
    profile: &mut Profile,
    stack_converter: StackConverter,
    sampling_is_time_based: Option<u64>,
    thread: &mut Thread,
    timestamp: u64,
    profile_timestamp: u64,
) -> (delta: u64)
    requires
        profile_contents(*old(profile)).valid(),
        old(thread)@.index < profile_contents(*old(profile)).threads.len(),
        old(thread)@.state matches ThreadState::On { last_observed_on_timestamp } ==> timestamp
            >= last_observed_on_timestamp,
        old(thread)@.state matches ThreadState::Off { off_switch_timestamp } ==> {
            &&& timestamp >= off_switch_timestamp
            &&& sampling_is_time_based != Some(0u64)
            &&& resolvable(
                profile_user_frames(old(thread)@.switch_stack(), stack_converter.user()),
                profile_contents(*old(profile)).mappings_of_thread(old(thread)@.index),
            )
        },
    ensures
        delta == match old(thread)@.state {
            ThreadState::On { last_observed_on_timestamp } => (timestamp
                - last_observed_on_timestamp) as u64,
            _ => 0,
        },
        final(thread)@ == (LiveThread {
            last_sample_timestamp: if old(thread)@.state is Off {
                Some(timestamp)
            } else {
                old(thread)@.last_sample_timestamp
            },
            state: ThreadState::On { last_observed_on_timestamp: timestamp },
            ..old(thread)@
        }),
        profile_contents(*final(profile)) == match old(thread)@.state {
            ThreadState::Off { off_switch_timestamp } => profile_contents(
                *old(profile),
            ).with_sample(
                old(thread)@.index,
                GivenSample {
                    timestamp: profile_timestamp,
                    frames: profile_user_frames(
                        old(thread)@.switch_stack(),
                        stack_converter.user(),
                    ),
                    cpu_delta_micros: 0,
                    weight: off_cpu_weight(
                        sampling_is_time_based,
                        timestamp - off_switch_timestamp,
                    ),
                },
            ),
            _ => profile_contents(*old(profile)),
        },
{
    let delta: u64 = match thread.state {
        ThreadState::Unknown => 0,
        ThreadState::Off { off_switch_timestamp } => {
            let off_duration: u64 = timestamp - off_switch_timestamp;
            let weight: i32 = compute_off_cpu_weight(sampling_is_time_based, off_duration);
            add_switch_sample(
                profile,
                stack_converter,
                thread,
                timestamp,
                profile_timestamp,
                0,
                weight,
            );
            0
        },
        ThreadState::On { last_observed_on_timestamp } => timestamp - last_observed_on_timestamp,
    };
    thread.state = ThreadState::On { last_observed_on_timestamp: timestamp };
    delta
}

} // verus!
