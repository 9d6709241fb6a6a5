//! What samples and context switches come to.

use vstd::prelude::*;
use crate::dispatch::{OutcomeView, RecordError};
use crate::events::SampleRole;
use crate::profile::{
    is_nearest, lemma_library_at, library_at, resolvable, Frame, FrameLocation, MappedLibrary,
    SampleView, ThreadView,
};
use crate::records::{CommonData, ContextSwitchRecord, RecordView, SampleRecordView};
use crate::stack::{profile_frames, profile_user_frames, StackFrame, UnwoundStack};
use crate::state::{
    lemma_valid, lemma_with_thread_of_valid, off_cpu_weight, ConverterView, EventError,
};
use crate::tables::{LiveThread, ThreadState};

verus! {

/// An address is looked up in the mapping with the last start at or before it, and in no other.
/// That holds the address where it is the start or lies before the end. What is kept of an
/// address in a library is how far it lies above the base address, in 32 bits; any other is kept
/// whole.
pub proof fn law_address_lookup(mappings: Map<u64, MappedLibrary>, address: u64, start: u64)
    requires
        mappings.contains_key(start),
        start <= address,
        forall|other: u64| #[trigger]
            mappings.contains_key(other) ==> !(start < other <= address),
    ensures
        ({
            let library = mappings[start];
            let location = Frame::InstructionPointer(address).location(mappings);
            if address == start || address < library.avma_end {
                &&& library_at(mappings, address) == Some(library)
                &&& location matches FrameLocation::InLibrary {
                    relative_address,
                    library: info,
                } && info == library.info && (library.base_avma <= address ==> relative_address
                    == (address - library.base_avma) % 0x1_0000_0000)
            } else {
                &&& library_at(mappings, address) is None
                &&& location == FrameLocation::Unknown(address)
            }
        }),
{
    assert(is_nearest(mappings, address, start));
    lemma_library_at(mappings, address, start);
}

/// An address before all mappings lies in no library.
pub proof fn law_address_before_all_mappings(mappings: Map<u64, MappedLibrary>, address: u64)
    requires
        forall|start: u64| #[trigger] mappings.contains_key(start) ==> start > address,
    ensures
        library_at(mappings, address) is None,
        Frame::InstructionPointer(address).location(mappings) == FrameLocation::Unknown(address),
{
}

/// A return address is looked up by the address before it, and the first address by itself.
pub proof fn law_return_address_is_looked_up_before(address: u64)
    ensures
        Frame::InstructionPointer(address).lookup_address() == address,
        address > 0 ==> Frame::ReturnAddress(address).lookup_address() + 1 == address,
        Frame::ReturnAddress(0).lookup_address() == 0,
{
}

/// Frames cannot be resolved exactly where one of them lies in the mapping of a library but
/// below its base address.
pub proof fn law_unresolvable_frames(frames: Seq<(Frame, nat)>, mappings: Map<u64, MappedLibrary>)
    ensures
        resolvable(frames, mappings) <==> forall|i: int|
            0 <= i < frames.len() ==> match library_at(
                mappings,
                (#[trigger] frames[i]).0.lookup_address(),
            ) {
                Some(library) => library.base_avma <= frames[i].0.lookup_address(),
                None => true,
            },
{
}

/// Whether a sample shows frames: each of them, in order, where it lies and in its category.
pub open spec fn shows(
    sample: SampleView,
    frames: Seq<(Frame, nat)>,
    mappings: Map<u64, MappedLibrary>,
) -> bool {
    &&& sample.frames.len() == frames.len()
    &&& forall|i: int|
        0 <= i < frames.len() ==> (#[trigger] sample.frames[i]).0 == frames[i].0.location(mappings)
            && sample.frames[i].1 == frames[i].1
}

/// Whether this is the time of the profile for a moment of the recording.
pub open spec fn is_time(s: ConverterView, moment: u64, time: u64) -> bool {
    if moment >= s.first_sample_time {
        time + s.first_sample_time == moment
    } else {
        time == 0
    }
}

/// Whether this is the weight of a time without running: how many whole sampling intervals fit
/// into it. It is zero where there is no interval, or the number does not fit in 31 bits.
pub open spec fn is_off_weight(interval: Option<u64>, duration: int, weight: i32) -> bool {
    match interval {
        None => weight == 0,
        Some(interval) => if duration < interval * 0x8000_0000 {
            &&& 0 <= weight
            &&& weight * interval <= duration
            &&& duration < weight * interval + interval
        } else {
            weight == 0
        },
    }
}

/// The weight of a time without running counts the intervals that fit into it.
pub proof fn law_off_cpu_weight_counts_intervals(interval: Option<u64>, duration: int)
    requires
        0 <= duration,
        interval != Some(0u64),
    ensures
        is_off_weight(interval, duration, off_cpu_weight(interval, duration)),
{
    if let Some(n) = interval {
        let n = n as int;
        let q = duration / n;
        vstd::arithmetic::div_mod::lemma_fundamental_div_mod(duration, n);
        assert(q * n <= duration < q * n + n && q >= 0) by (nonlinear_arith)
            requires
                duration == n * q + duration % n,
                0 <= duration % n < n,
                0 <= duration,
        ;
        assert((q <= 0x7fff_ffff) == (duration < n * 0x8000_0000)) by (nonlinear_arith)
            requires
                q * n <= duration < q * n + n,
                n > 0,
        ;
    }
}

/// Whether a thread of the profile has gained samples and is otherwise the same.
pub open spec fn gained(before: ThreadView, after: ThreadView, count: int) -> bool {
    &&& after.process == before.process
    &&& after.tid == before.tid
    &&& after.name == before.name
    &&& after.start_time == before.start_time
    &&& after.end_time == before.end_time
    &&& after.is_main == before.is_main
    &&& after.samples.len() == before.samples.len() + count
    &&& forall|i: int|
        0 <= i < before.samples.len() ==> #[trigger] after.samples[i] == before.samples[i]
}

/// What is known of a thread, as soon as it is: nothing yet, where it was not known before.
pub open spec fn known_of(s: ConverterView, tid: i32) -> LiveThread {
    if s.threads.contains_key(tid) {
        s.threads[tid]
    } else {
        LiveThread {
            index: s.profile.threads.len(),
            process: 0,
            last_sample_timestamp: None,
            state: ThreadState::Unknown,
            off_cpu_stack: None,
        }
    }
}

/// The frames that the sample for a switch shows: the user frames of the stack with which the
/// thread was last switched out, or none where that is not known.
pub open spec fn switch_frames(s: ConverterView, tid: i32) -> Seq<(Frame, nat)> {
    match known_of(s, tid).off_cpu_stack {
        Some(stack) => profile_user_frames(stack, s.user_category),
        None => profile_user_frames(Seq::<StackFrame>::empty(), s.user_category),
    }
}

/// A thread that becomes known is the one that was known, or a new one with nothing in it, which
/// belongs to the process with its number.
pub proof fn law_thread_becomes_known(s: ConverterView, pid: i32, tid: i32)
    requires
        s.valid(),
    ensures
        ({
            let after = s.with_thread_of(pid, tid);
            let thread = after.threads[tid];
            let view = after.profile.threads[thread.index as int];
            &&& after.threads.contains_key(tid)
            &&& after.processes.contains_key(pid)
            &&& thread.index < after.profile.threads.len()
            &&& thread.process == view.process
            &&& s.threads.contains_key(tid) ==> {
                &&& thread == s.threads[tid]
                &&& view == s.profile.threads[thread.index as int]
                &&& after.profile.threads.len() == s.profile.threads.len()
            }
            &&& !s.threads.contains_key(tid) ==> {
                &&& thread.index == s.profile.threads.len()
                &&& after.profile.threads.len() == s.profile.threads.len() + 1
                &&& thread.state == ThreadState::Unknown
                &&& thread.last_sample_timestamp is None
                &&& thread.off_cpu_stack is None
                &&& view.process == after.processes[pid]
                &&& view.tid == tid as u32
                &&& view.name is None
                &&& view.start_time == 0
                &&& view.end_time is None
                &&& view.is_main <==> pid == tid
                &&& view.samples.len() == 0
            }
        }),
{
    lemma_with_thread_of_valid(s, pid, tid);
    lemma_valid(s);
    lemma_valid(s.with_thread_of(pid, tid));
}

/// A sample of the main event that can be converted adds one sample to its thread: at its time,
/// with its stack and with the weight one. Where context switches tell how long threads ran, it
/// accounts for the time since the thread was last seen running; where they do not, for its
/// period. The thread is then known to have been sampled and, with context switches, to be
/// running.
pub proof fn law_sample_reaches_its_thread(
    s: ConverterView,
    e: SampleRecordView,
    timestamp: Option<u64>,
    unwound: Option<UnwoundStack>,
)
    requires
        s.valid(),
        s.record_result(SampleRole::Main, RecordView::Sample(e), unwound) is Ok,
    ensures
        ({
            let after = s.after_record(SampleRole::Main, RecordView::Sample(e), timestamp, unwound);
            let tid = e.tid->0;
            let at = e.timestamp->0;
            let known = s.with_thread_of(e.pid->0, tid);
            let was = known.threads[tid];
            let now = after.threads[tid];
            let before = known.profile.threads[was.index as int];
            let thread = after.profile.threads[was.index as int];
            let mappings = known.profile.processes[before.process as int].mappings;
            let accounts = s.have_time_based_cpu_deltas && was.state is Off;
            let sample = thread.samples.last();
            &&& e.pid is Some && e.tid is Some && e.timestamp is Some
            &&& gained(
                before,
                thread,
                if accounts {
                    2
                } else {
                    1
                },
            )
            &&& is_time(s, at, sample.timestamp)
            &&& sample.weight == 1
            &&& shows(
                sample,
                profile_frames(e.stack(unwound), s.user_category, s.kernel_category),
                mappings,
            )
            &&& sample.cpu_delta_micros == if s.have_time_based_cpu_deltas {
                match was.state {
                    ThreadState::On { last_observed_on_timestamp } => (at
                        - last_observed_on_timestamp) / 1000,
                    _ => 0,
                }
            } else {
                match e.period {
                    Some(period) => period as int / 1000,
                    None => 0,
                }
            }
            &&& accounts ==> {
                let missed = thread.samples[before.samples.len() as int];
                &&& is_time(s, at, missed.timestamp)
                &&& missed.cpu_delta_micros == 0
                &&& is_off_weight(
                    s.sampling_is_time_based,
                    at - was.state->off_switch_timestamp,
                    missed.weight,
                )
                &&& shows(missed, switch_frames(s, tid), mappings)
            }
            &&& after.threads.contains_key(tid)
            &&& now.index == was.index
            &&& now.process == was.process
            &&& now.last_sample_timestamp == Some(at)
            &&& now.off_cpu_stack == was.off_cpu_stack
            &&& now.state == if s.have_time_based_cpu_deltas {
                ThreadState::On { last_observed_on_timestamp: at }
            } else {
                was.state
            }
            &&& after.profile.processes == known.profile.processes
            &&& after.processes == known.processes
        }),
{
    let known = s.with_thread_of(e.pid->0, e.tid->0);
    lemma_with_thread_of_valid(s, e.pid->0, e.tid->0);
    lemma_valid(known);
    let was = known.threads[e.tid->0];
    if s.have_time_based_cpu_deltas && was.state is Off {
        law_off_cpu_weight_counts_intervals(
            s.sampling_is_time_based,
            e.timestamp->0 - was.state->off_switch_timestamp,
        );
    }
}

/// A sample that is taken when a thread is switched shows the stack that the samples for
/// switches of the thread show from then on, whatever they showed before. Nothing else changes,
/// and no sample is added.
pub proof fn law_switch_stack_is_the_latest(
    s: ConverterView,
    e: SampleRecordView,
    timestamp: Option<u64>,
    unwound: Option<UnwoundStack>,
)
    requires
        s.valid(),
        e.pid is Some,
        e.tid is Some,
    ensures
        ({
            let role = SampleRole::SchedSwitch;
            let after = s.after_record(role, RecordView::Sample(e), timestamp, unwound);
            let tid = e.tid->0;
            let known = s.with_thread_of(e.pid->0, tid);
            let was = known.threads[tid];
            let now = after.threads[tid];
            &&& s.record_result(role, RecordView::Sample(e), unwound) is Ok
            &&& after.threads.contains_key(tid)
            &&& now.off_cpu_stack == Some(e.stack(unwound))
            &&& switch_frames(after, tid) == profile_user_frames(
                e.stack(unwound),
                s.user_category,
            )
            &&& now.index == was.index
            &&& now.process == was.process
            &&& now.state == was.state
            &&& now.last_sample_timestamp == was.last_sample_timestamp
            &&& after.profile == known.profile
            &&& after.processes == known.processes
        }),
{
    lemma_with_thread_of_valid(s, e.pid->0, e.tid->0);
}

/// The stack with which a thread was last switched out is remembered until another such sample
/// of the thread comes, or the thread ends.
pub proof fn law_switch_stack_is_remembered(
    s: ConverterView,
    role: SampleRole,
    record: RecordView,
    timestamp: Option<u64>,
    unwound: Option<UnwoundStack>,
    tid: i32,
)
    requires
        s.valid(),
        s.threads.contains_key(tid),
        !(record is Exit),
        !(record is Sample && role == SampleRole::SchedSwitch),
        !(record matches RecordView::Comm(e) && e.is_execve),
    ensures
        ({
            let after = s.after_record(role, record, timestamp, unwound);
            &&& after.threads.contains_key(tid)
            &&& after.threads[tid].off_cpu_stack == s.threads[tid].off_cpu_stack
            &&& after.threads[tid].index == s.threads[tid].index
        }),
{
}

/// A context switch that can be converted turns a thread on or off. One that ends a time of
/// running or of not running adds a sample for that time, with the user frames of the stack with
/// which the thread was last switched out: the first accounts for the time on the CPU, the other
/// weighs as much as the samples that were missed. A switch that is repeated changes nothing.
pub proof fn law_switch_accounts_for_time(
    s: ConverterView,
    role: SampleRole,
    e: ContextSwitchRecord,
    common: CommonData,
    timestamp: Option<u64>,
    unwound: Option<UnwoundStack>,
)
    requires
        s.valid(),
        s.record_result(role, RecordView::ContextSwitch(e, Some(common)), unwound) is Ok,
    ensures
        ({
            let record = RecordView::ContextSwitch(e, Some(common));
            let after = s.after_record(role, record, timestamp, unwound);
            let tid = common.tid->0;
            let at = common.timestamp->0;
            let known = s.with_thread_of(common.pid->0, tid);
            let was = known.threads[tid];
            let now = after.threads[tid];
            let before = known.profile.threads[was.index as int];
            let thread = after.profile.threads[was.index as int];
            let mappings = known.profile.processes[before.process as int].mappings;
            let sample = thread.samples.last();
            let ends_running = was.state is On && e is Out;
            let ends_waiting = was.state is Off && e is In;
            &&& common.pid is Some && common.tid is Some && common.timestamp is Some
            &&& gained(
                before,
                thread,
                if ends_running || ends_waiting {
                    1
                } else {
                    0
                },
            )
            &&& ends_running || ends_waiting ==> {
                &&& is_time(s, at, sample.timestamp)
                &&& shows(sample, switch_frames(s, tid), mappings)
            }
            &&& ends_running ==> {
                &&& sample.weight == 0
                &&& sample.cpu_delta_micros == (at - was.state->last_observed_on_timestamp) / 1000
            }
            &&& ends_waiting ==> {
                &&& sample.cpu_delta_micros == 0
                &&& is_off_weight(
                    s.sampling_is_time_based,
                    at - was.state->off_switch_timestamp,
                    sample.weight,
                )
            }
            &&& after.threads.contains_key(tid)
            &&& now.index == was.index
            &&& now.process == was.process
            &&& now.off_cpu_stack == was.off_cpu_stack
            &&& now.last_sample_timestamp == if ends_running || ends_waiting {
                Some(at)
            } else {
                was.last_sample_timestamp
            }
            &&& now.state == match e {
                ContextSwitchRecord::In => if was.state is On {
                    was.state
                } else {
                    ThreadState::On { last_observed_on_timestamp: at }
                },
                ContextSwitchRecord::Out => if was.state is Off {
                    was.state
                } else {
                    ThreadState::Off { off_switch_timestamp: at }
                },
            }
            &&& after.profile.processes == known.profile.processes
            &&& after.processes == known.processes
        }),
{
    let tid = common.tid->0;
    let known = s.with_thread_of(common.pid->0, tid);
    lemma_with_thread_of_valid(s, common.pid->0, tid);
    lemma_valid(known);
    let was = known.threads[tid];
    if was.state is Off && e is In {
        law_off_cpu_weight_counts_intervals(
            s.sampling_is_time_based,
            common.timestamp->0 - was.state->off_switch_timestamp,
        );
    }
}

/// A context switch is reported where a thread is switched out that had been switched out
/// before, with the times of both, and only there.
pub proof fn law_double_switch_out_is_reported(
    s: ConverterView,
    role: SampleRole,
    e: ContextSwitchRecord,
    common: CommonData,
    unwound: Option<UnwoundStack>,
)
    requires
        s.record_result(role, RecordView::ContextSwitch(e, Some(common)), unwound) is Ok,
    ensures
        s.record_result(role, RecordView::ContextSwitch(e, Some(common)), unwound)->Ok_0 == match (
            known_of(s, common.tid->0).state,
            e,
        ) {
            (
                ThreadState::Off { off_switch_timestamp },
                ContextSwitchRecord::Out,
            ) => OutcomeView::DoubleSwitchOut {
                tid: common.tid->0,
                first: off_switch_timestamp,
                again: common.timestamp->0,
            },
            _ => OutcomeView::Done,
        },
{
}

/// Whether an event comes before something that is known of its thread.
pub open spec fn comes_too_early(state: ThreadState, at: u64) -> bool {
    match state {
        ThreadState::Unknown => false,
        ThreadState::Off { off_switch_timestamp } => at < off_switch_timestamp,
        ThreadState::On { last_observed_on_timestamp } => at < last_observed_on_timestamp,
    }
}

/// A sample of the main event is refused for one of these reasons, of which the first counts,
/// and for no other: it lacks its process, its thread or its time; context switches are recorded
/// and it comes before something that is known of its thread, or has to be weighed by an interval
/// of zero; or a frame of it, or of the sample that accounts for a time without running, cannot
/// be resolved.
pub proof fn law_samples_are_refused_for_cause(
    s: ConverterView,
    e: SampleRecordView,
    unwound: Option<UnwoundStack>,
)
    ensures
        ({
            let result = s.record_result(SampleRole::Main, RecordView::Sample(e), unwound);
            let tid = e.tid->0;
            let at = e.timestamp->0;
            let state = known_of(s, tid).state;
            let known = s.with_thread_of(e.pid->0, tid);
            let mappings = known.profile.mappings_of_thread(known.threads[tid].index);
            let frames = profile_frames(e.stack(unwound), s.user_category, s.kernel_category);
            let switches = s.have_time_based_cpu_deltas;
            result == if e.pid is None {
                Err::<OutcomeView, RecordError>(RecordError::Event(EventError::MissingPid))
            } else if e.tid is None {
                Err(RecordError::Event(EventError::MissingTid))
            } else if e.timestamp is None {
                Err(RecordError::Event(EventError::MissingTimestamp))
            } else if switches && comes_too_early(state, at) {
                Err(RecordError::Event(EventError::TimeRunsBackwards))
            } else if switches && state is Off && s.sampling_is_time_based == Some(0u64) {
                Err(RecordError::Event(EventError::ZeroInterval))
            } else if !resolvable(frames, mappings) || (switches && state is Off && !resolvable(
                switch_frames(s, tid),
                mappings,
            )) {
                Err(RecordError::Event(EventError::FrameBelowBase))
            } else {
                Ok(OutcomeView::Done)
            }
        }),
{
}

/// A sample that shows the stack of a switch is refused where it lacks its process or its
/// thread, and nowhere else.
pub proof fn law_switch_stacks_are_refused_for_cause(
    s: ConverterView,
    e: SampleRecordView,
    unwound: Option<UnwoundStack>,
)
    ensures
        s.record_result(SampleRole::SchedSwitch, RecordView::Sample(e), unwound)
            == if e.pid is None {
            Err::<OutcomeView, RecordError>(RecordError::Event(EventError::MissingPid))
        } else if e.tid is None {
            Err(RecordError::Event(EventError::MissingTid))
        } else {
            Ok(OutcomeView::Done)
        },
{
}

/// A context switch is refused where it lacks its process, its thread or its time, and, where it
/// ends a time of running or of not running, where it comes before that began, where a time
/// would have to be weighed by an interval of zero, or where a frame of the sample that it adds
/// cannot be resolved. Of several reasons the first counts.
pub proof fn law_switches_are_refused_for_cause(
    s: ConverterView,
    role: SampleRole,
    e: ContextSwitchRecord,
    common: CommonData,
    unwound: Option<UnwoundStack>,
)
    ensures
        ({
            let result = s.record_result(
                role,
                RecordView::ContextSwitch(e, Some(common)),
                unwound,
            );
            let tid = common.tid->0;
            let at = common.timestamp->0;
            let state = known_of(s, tid).state;
            let known = s.with_thread_of(common.pid->0, tid);
            let mappings = known.profile.mappings_of_thread(known.threads[tid].index);
            let adds = (state is On && e is Out) || (state is Off && e is In);
            if common.pid is None {
                result == Err::<OutcomeView, RecordError>(
                    RecordError::Event(EventError::MissingPid),
                )
            } else if common.tid is None {
                result == Err::<OutcomeView, RecordError>(
                    RecordError::Event(EventError::MissingTid),
                )
            } else if common.timestamp is None {
                result == Err::<OutcomeView, RecordError>(
                    RecordError::Event(EventError::MissingTimestamp),
                )
            } else if adds && comes_too_early(state, at) {
                result == Err::<OutcomeView, RecordError>(
                    RecordError::Event(EventError::TimeRunsBackwards),
                )
            } else if adds && state is Off && s.sampling_is_time_based == Some(0u64) {
                result == Err::<OutcomeView, RecordError>(
                    RecordError::Event(EventError::ZeroInterval),
                )
            } else if adds && !resolvable(switch_frames(s, tid), mappings) {
                result == Err::<OutcomeView, RecordError>(
                    RecordError::Event(EventError::FrameBelowBase),
                )
            } else {
                result is Ok
            }
        }),
{
}

} // verus!
