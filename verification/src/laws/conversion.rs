//! What holds of conversions as a whole.

use vstd::prelude::*;
use crate::events::SampleRole;
use crate::ids::dso_key;
use crate::module::{ModuleErrorView, ModuleView};
use crate::profile::{
    is_nearest, lemma_library_at, library_at, mapped_libraries, GivenSample, ProcessView,
    ProfileView, ThreadView,
};
use crate::records::{
    CommOrExecRecordView, ContextSwitchRecord, ForkOrExitRecord, MmapRecordView, RecordView,
    SampleRecordView,
};
use crate::stack::{profile_frames, UnwoundStack};
use crate::state::{
    lemma_after_context_switch_valid, lemma_after_load_valid, lemma_after_mmap2_valid,
    lemma_after_mmap_valid, lemma_after_replacement_valid, lemma_after_sample_valid,
    lemma_after_sched_switch_valid, lemma_after_thread_end_valid,
    lemma_after_thread_name_update_valid, lemma_after_thread_start_valid, lemma_valid,
    lemma_with_process_valid, lemma_with_thread_of_valid, off_cpu_weight, ConverterView,
};
use crate::tables::{library_infos, ThreadState};
use crate::text::lossy_text;

verus! {

/// The first sample is at the start of the profile, later moments come later, and time passes
/// in the profile as it does in the recording.
pub proof fn law_time(s: ConverterView, a: u64, b: u64)
    requires
        a <= b,
    ensures
        s.time(s.first_sample_time) == 0,
        s.time(a) <= s.time(b),
        s.first_sample_time <= a ==> s.time(b) - s.time(a) == b - a,
{
}

/// Every record keeps the state valid, whether it can be converted or not.
pub proof fn law_record_keeps_valid(
    s: ConverterView,
    role: SampleRole,
    record: RecordView,
    timestamp: Option<u64>,
    unwound: Option<UnwoundStack>,
)
    requires
        s.valid(),
    ensures
        s.after_record(role, record, timestamp, unwound).valid(),
{
    match record {
        RecordView::Sample(e) => {
            lemma_after_sample_valid(s, e, unwound);
            lemma_after_sched_switch_valid(s, e, unwound);
        },
        RecordView::Fork(e) => lemma_after_thread_start_valid(s, e),
        RecordView::Exit(e) => lemma_after_thread_end_valid(s, e),
        RecordView::Comm(e) => lemma_after_thread_name_update_valid(s, e, timestamp),
        RecordView::Mmap(e) => lemma_after_mmap_valid(s, e),
        RecordView::Mmap2(e) => lemma_after_mmap2_valid(s, e),
        RecordView::ContextSwitch(e, Some(common)) => {
            lemma_after_context_switch_valid(
                s,
                e,
                common.pid->0,
                common.tid->0,
                common.timestamp->0,
            );
        },
        _ => {},
    }
}

/// A sample or a context switch that cannot be converted changes nothing, and a mapping that
/// cannot be converted makes at most its process known.
pub proof fn law_refused_record_changes_nothing(
    s: ConverterView,
    role: SampleRole,
    record: RecordView,
    timestamp: Option<u64>,
    unwound: Option<UnwoundStack>,
)
    requires
        s.record_result(role, record, unwound) is Err,
    ensures
        match record {
            RecordView::Mmap(e) => s.after_record(role, record, timestamp, unwound) == s
                || s.after_record(role, record, timestamp, unwound) == s.with_process(e.pid),
            RecordView::Mmap2(e) => s.after_record(role, record, timestamp, unwound)
                == s.with_process(e.pid),
            _ => s.after_record(role, record, timestamp, unwound) == s,
        },
{
}

/// Whether a process of a profile is still the same process, with no fewer libraries, and with
/// a mapping wherever one started. The mapping may be that of another library now, which was
/// mapped at the same address later.
pub open spec fn process_grew(before: ProcessView, after: ProcessView) -> bool {
    &&& after.pid == before.pid
    &&& before.libs.is_prefix_of(after.libs)
    &&& before.mappings.dom().subset_of(after.mappings.dom())
}

/// Whether a thread of a profile is still the same thread, with no fewer samples.
pub open spec fn thread_grew(before: ThreadView, after: ThreadView) -> bool {
    &&& after.process == before.process
    &&& after.tid == before.tid
    &&& after.is_main == before.is_main
    &&& before.samples.is_prefix_of(after.samples)
}

/// Whether a profile lists all that it listed before: its settings, its processes and their
/// libraries, its threads and their samples. Names and times may have changed, and so may the
/// library that is found at an address.
#[verifier::opaque]
pub open spec fn profile_grew(before: ProfileView, after: ProfileView) -> bool {
    &&& after.reference == before.reference
    &&& after.interval_nanos == before.interval_nanos
    &&& after.categories == before.categories
    &&& before.processes.len() <= after.processes.len()
    &&& before.threads.len() <= after.threads.len()
    &&& forall|p: int|
        0 <= p < before.processes.len() ==> process_grew(
            before.processes[p],
            #[trigger] after.processes[p],
        )
    &&& forall|t: int|
        0 <= t < before.threads.len() ==> thread_grew(
            before.threads[t],
            #[trigger] after.threads[t],
        )
}

/// A profile that grew from one that had grown has grown.
pub proof fn lemma_grew_twice(a: ProfileView, b: ProfileView, c: ProfileView)
    requires
        profile_grew(a, b),
        profile_grew(b, c),
    ensures
        profile_grew(a, c),
{
    reveal(profile_grew);
    assert forall|p: int| 0 <= p < a.processes.len() implies process_grew(
        a.processes[p],
        #[trigger] c.processes[p],
    ) by {
        assert(process_grew(a.processes[p], b.processes[p]));
        assert(process_grew(b.processes[p], c.processes[p]));
    }
    assert forall|t: int| 0 <= t < a.threads.len() implies thread_grew(
        a.threads[t],
        #[trigger] c.threads[t],
    ) by {
        assert(thread_grew(a.threads[t], b.threads[t]));
        assert(thread_grew(b.threads[t], c.threads[t]));
    }
}

/// A profile grows when a thread of it does.
proof fn lemma_thread_grows(profile: ProfileView, index: nat, thread: ThreadView)
    requires
        index < profile.threads.len(),
        thread_grew(profile.threads[index as int], thread),
    ensures
        profile_grew(profile, profile.with_thread(index, thread)),
{
    reveal(profile_grew);
}

/// A profile grows when a process becomes known.
proof fn lemma_with_process_grows(s: ConverterView, pid: i32)
    ensures
        profile_grew(s.profile, s.with_process(pid).profile),
{
    reveal(profile_grew);
}

/// A profile grows when a process and one of its threads become known.
proof fn lemma_with_thread_of_grows(s: ConverterView, pid: i32, tid: i32)
    ensures
        profile_grew(s.profile, s.with_thread_of(pid, tid).profile),
{
    reveal(profile_grew);
}

/// A profile grows by a sample.
proof fn lemma_with_sample_grows(s: ConverterView, thread: nat, sample: GivenSample)
    requires
        thread < s.profile.threads.len(),
    ensures
        profile_grew(s.profile, s.with_sample(thread, sample).profile),
        s.with_sample(thread, sample).profile.threads.len() == s.profile.threads.len(),
{
    let old = s.profile.threads[thread as int];
    lemma_thread_grows(
        s.profile,
        thread,
        ThreadView {
            samples: old.samples.push(sample.kept(s.profile.mappings_of_thread(thread))),
            ..old
        },
    );
}

/// The replacement of what ran in a thread takes nothing away from the profile.
proof fn lemma_replacement_grows(s: ConverterView, pid: i32, tid: i32, time: u64)
    requires
        s.valid(),
    ensures
        profile_grew(s.profile, s.after_replacement(pid, tid, time).profile),
{
    lemma_valid(s);
    reveal(profile_grew);
}

/// A name for a thread takes nothing away from the profile.
proof fn lemma_name_grows(s: ConverterView, e: CommOrExecRecordView, timestamp: Option<u64>)
    requires
        s.valid(),
    ensures
        profile_grew(s.profile, s.after_thread_name_update(e, timestamp).profile),
{
    let time = s.time(s.replacement_timestamp(timestamp));
    let before = s.before_name(e, timestamp);
    lemma_after_replacement_valid(s, e.pid, e.tid, time);
    lemma_replacement_grows(s, e.pid, e.tid, time);
    assert(profile_grew(s.profile, before.profile)) by {
        reveal(profile_grew);
    }
    lemma_with_thread_of_valid(before, e.pid, e.tid);
    lemma_with_thread_of_grows(before, e.pid, e.tid);
    let known = before.with_thread_of(e.pid, e.tid);
    lemma_valid(known);
    lemma_grew_twice(s.profile, before.profile, known.profile);
    assert(profile_grew(known.profile, s.after_thread_name_update(e, timestamp).profile)) by {
        reveal(profile_grew);
    }
    lemma_grew_twice(
        s.profile,
        known.profile,
        s.after_thread_name_update(e, timestamp).profile,
    );
}

/// A sample takes nothing away from the profile.
proof fn lemma_sample_grows(s: ConverterView, e: SampleRecordView, unwound: Option<UnwoundStack>)
    requires
        s.valid(),
    ensures
        profile_grew(s.profile, s.after_sample(e, unwound).profile),
{
    let after = s.after_sample(e, unwound).profile;
    let known = s.with_thread_of(e.pid->0, e.tid->0);
    let thread = known.threads[e.tid->0];
    lemma_with_thread_of_valid(s, e.pid->0, e.tid->0);
    lemma_valid(known);
    lemma_with_thread_of_grows(s, e.pid->0, e.tid->0);
    let accounted = known.with_sample(
        thread.index,
        s.switch_sample(
            thread,
            e.timestamp->0,
            0,
            off_cpu_weight(
                s.sampling_is_time_based,
                e.timestamp->0 - thread.state->off_switch_timestamp,
            ),
        ),
    );
    let sample = GivenSample {
        timestamp: s.time(e.timestamp->0),
        frames: profile_frames(e.stack(unwound), s.user_category, s.kernel_category),
        cpu_delta_micros: s.cpu_delta_nanos(thread, e) / 1000u64,
        weight: 1,
    };
    lemma_with_sample_grows(
        known,
        thread.index,
        s.switch_sample(
            thread,
            e.timestamp->0,
            0,
            off_cpu_weight(
                s.sampling_is_time_based,
                e.timestamp->0 - thread.state->off_switch_timestamp,
            ),
        ),
    );
    lemma_with_sample_grows(accounted, thread.index, sample);
    lemma_with_sample_grows(known, thread.index, sample);
    lemma_grew_twice(s.profile, known.profile, accounted.profile);
    if thread.state is Off && s.have_time_based_cpu_deltas {
        assert(after == accounted.with_sample(thread.index, sample).profile);
        lemma_grew_twice(s.profile, accounted.profile, after);
    } else {
        assert(after == known.with_sample(thread.index, sample).profile);
        lemma_grew_twice(s.profile, known.profile, after);
    }
}

/// A context switch takes nothing away from the profile.
proof fn lemma_switch_grows(
    s: ConverterView,
    e: ContextSwitchRecord,
    pid: i32,
    tid: i32,
    timestamp: u64,
)
    requires
        s.valid(),
    ensures
        profile_grew(s.profile, s.after_context_switch(e, pid, tid, timestamp).profile),
{
    let known = s.with_thread_of(pid, tid);
    let thread = known.threads[tid];
    lemma_with_thread_of_valid(s, pid, tid);
    lemma_valid(known);
    lemma_with_thread_of_grows(s, pid, tid);
    assert forall|sample: GivenSample| profile_grew(
        s.profile,
        #[trigger] known.with_sample(thread.index, sample).profile,
    ) by {
        lemma_with_sample_grows(known, thread.index, sample);
        lemma_grew_twice(
            s.profile,
            known.profile,
            known.with_sample(thread.index, sample).profile,
        );
    }
}

/// The start and the end of a thread take nothing away from the profile.
proof fn lemma_lifetime_grows(s: ConverterView, e: ForkOrExitRecord)
    requires
        s.valid(),
    ensures
        profile_grew(s.profile, s.after_thread_start(e).profile),
        profile_grew(s.profile, s.after_thread_end(e).profile),
{
    let known = s.with_thread_of(e.pid, e.tid);
    lemma_with_thread_of_valid(s, e.pid, e.tid);
    lemma_valid(known);
    lemma_with_thread_of_grows(s, e.pid, e.tid);
    let started = s.after_thread_start(e).profile;
    let ended = s.after_thread_end(e).profile;
    assert(profile_grew(known.profile, started) && profile_grew(known.profile, ended)) by {
        reveal(profile_grew);
    }
    lemma_grew_twice(s.profile, known.profile, started);
    lemma_grew_twice(s.profile, known.profile, ended);
}

/// What a profile lists, it lists for good: no record takes a process, a library, a thread or
/// a sample away, or changes what it is.
pub proof fn law_profile_only_grows(
    s: ConverterView,
    role: SampleRole,
    record: RecordView,
    timestamp: Option<u64>,
    unwound: Option<UnwoundStack>,
)
    requires
        s.valid(),
    ensures
        profile_grew(s.profile, s.after_record(role, record, timestamp, unwound).profile),
{
    assert(profile_grew(s.profile, s.profile)) by {
        reveal(profile_grew);
    }
    match record {
        RecordView::Sample(e) => {
            lemma_sample_grows(s, e, unwound);
            lemma_with_thread_of_grows(s, e.pid->0, e.tid->0);
        },
        RecordView::Fork(e) => lemma_lifetime_grows(s, e),
        RecordView::Exit(e) => lemma_lifetime_grows(s, e),
        RecordView::Comm(e) => lemma_name_grows(s, e, timestamp),
        RecordView::Mmap(e) => lemma_with_process_grows(s, e.pid),
        RecordView::Mmap2(e) => lemma_with_process_grows(s, e.pid),
        RecordView::ContextSwitch(e, Some(common)) => lemma_switch_grows(
            s,
            e,
            common.pid->0,
            common.tid->0,
            common.timestamp->0,
        ),
        _ => {},
    }
}

/// Loading a module takes nothing away from the profile either.
pub proof fn law_load_only_grows(
    s: ConverterView,
    pid: i32,
    module: Result<ModuleView, ModuleErrorView>,
)
    requires
        s.valid(),
    ensures
        s.after_load(pid, module).valid(),
        profile_grew(s.profile, s.after_load(pid, module).profile),
{
    lemma_with_process_valid(s, pid);
    lemma_valid(s.with_process(pid));
    lemma_after_load_valid(s, pid, module);
    reveal(profile_grew);
}

/// A process and a thread that are known are not added again.
pub proof fn law_known_once(s: ConverterView, pid: i32, tid: i32)
    requires
        s.valid(),
    ensures
        s.with_thread_of(pid, tid).with_thread_of(pid, tid) == s.with_thread_of(pid, tid),
{
    lemma_with_thread_of_valid(s, pid, tid);
}

/// A thread that is switched in twice, or out twice, is as it was after the first switch.
pub proof fn law_repeated_switch(
    s: ConverterView,
    e: ContextSwitchRecord,
    pid: i32,
    tid: i32,
    first: u64,
    again: u64,
)
    requires
        s.valid(),
    ensures
        s.after_context_switch(e, pid, tid, first).after_context_switch(e, pid, tid, again)
            == s.after_context_switch(e, pid, tid, first),
{
    lemma_with_thread_of_valid(s, pid, tid);
}

/// A running thread that is switched out and in again gets two samples: one for the time that
/// it was running, and one with the weight of the samples that it missed. It is then running.
pub proof fn law_switched_out_and_in(
    s: ConverterView,
    pid: i32,
    tid: i32,
    last: u64,
    out: u64,
    back: u64,
)
    requires
        s.valid(),
        s.processes.contains_key(pid),
        s.threads.contains_key(tid),
        s.threads[tid].state == (ThreadState::On { last_observed_on_timestamp: last }),
        last <= out <= back,
    ensures
        ({
            let after = s.after_context_switch(
                ContextSwitchRecord::Out,
                pid,
                tid,
                out,
            ).after_context_switch(ContextSwitchRecord::In, pid, tid, back);
            let thread = s.threads[tid];
            let mappings = s.profile.mappings_of_thread(thread.index);
            &&& after.threads[tid].state == (ThreadState::On { last_observed_on_timestamp: back })
            &&& after.profile.threads[thread.index as int].samples
                == s.profile.threads[thread.index as int].samples.push(
                s.switch_sample(thread, out, (out - last) as u64, 0).kept(mappings),
            ).push(
                s.switch_sample(
                    thread,
                    back,
                    0,
                    off_cpu_weight(s.sampling_is_time_based, back - out),
                ).kept(mappings),
            )
        }),
{
    lemma_valid(s);
}

/// A thread that has ended is forgotten, and so is a process whose main thread has ended.
/// Whatever comes later under the same number is a new thread of the profile.
pub proof fn law_ended_thread_is_forgotten(s: ConverterView, e: ForkOrExitRecord, pid: i32)
    requires
        s.valid(),
    ensures
        ({
            let after = s.after_thread_end(e);
            &&& !after.threads.contains_key(e.tid)
            &&& e.pid == e.tid ==> !after.processes.contains_key(e.pid)
            &&& after.with_thread_of(pid, e.tid).threads[e.tid].index == after.profile.threads.len()
            &&& after.with_thread_of(pid, e.tid).profile.threads.len()
                == after.profile.threads.len() + 1
        }),
{
}

/// When another program is executed in a thread that is alive, the thread ends, and a new one
/// with the name of the program starts in its place. The process of a main thread ends and
/// starts with it.
pub proof fn law_exec_starts_anew(s: ConverterView, e: CommOrExecRecordView, timestamp: Option<u64>)
    requires
        s.valid(),
        e.is_execve,
        s.threads.contains_key(e.tid),
        s.processes.contains_key(e.pid),
    ensures
        ({
            let after = s.after_thread_name_update(e, timestamp);
            let old = s.threads[e.tid].index;
            let new = after.threads[e.tid].index;
            let ended = s.time(s.replacement_timestamp(timestamp));
            let started = s.time(s.current_sample_time);
            &&& new == s.profile.threads.len()
            &&& after.profile.threads[old as int].end_time == Some(ended)
            &&& after.profile.threads[new as int].start_time == started
            &&& after.profile.threads[new as int].end_time is None
            &&& after.profile.threads[new as int].name == Some(lossy_text(e.name))
            &&& after.profile.threads[new as int].samples.len() == 0
            &&& after.threads[e.tid].state == ThreadState::Unknown
            &&& e.pid == e.tid ==> {
                &&& after.processes[e.pid] == s.profile.processes.len()
                &&& after.profile.processes[s.processes[e.pid] as int].end_time == Some(ended)
                &&& after.profile.processes[after.processes[e.pid] as int].start_time == started
                &&& after.profile.processes[after.processes[e.pid] as int].name == lossy_text(
                    e.name,
                )
            }
            &&& e.pid != e.tid ==> after.processes[e.pid] == s.processes[e.pid]
        }),
{
    lemma_valid(s);
    let time = s.time(s.replacement_timestamp(timestamp));
    lemma_after_replacement_valid(s, e.pid, e.tid, time);
    let before = s.before_name(e, timestamp);
    lemma_with_thread_of_valid(before, e.pid, e.tid);
    lemma_valid(before.with_thread_of(e.pid, e.tid));
}

/// A piece of the kernel that was mapped belongs to every process that becomes known later. It
/// is the last of its first libraries, and is found at its address.
pub proof fn law_kernel_module_reaches_new_processes(s: ConverterView, e: MmapRecordView, pid: i32)
    requires
        e.is_executable,
        e.pid == -1,
        dso_key(e.path, e.cpu_mode.bits()) is Some,
        s.mmap_result(e) is Ok,
        !s.processes.contains_key(pid),
    ensures
        ({
            let known = s.after_mmap(e).with_process(pid);
            let process = known.profile.processes[known.processes[pid] as int];
            let module = s.kernel_module(e, dso_key(e.path, e.cpu_mode.bits())->0);
            &&& process.libs == library_infos(s.kernel_modules).push(module.info)
            &&& process.mappings == mapped_libraries(s.kernel_modules).insert(
                module.avma_start,
                module.mapped(),
            )
            &&& library_at(process.mappings, e.address) == Some(module.mapped())
        }),
{
    let known = s.after_mmap(e).with_process(pid);
    let process = known.profile.processes[known.processes[pid] as int];
    let module = s.kernel_module(e, dso_key(e.path, e.cpu_mode.bits())->0);
    let modules = s.kernel_modules.push(module);
    assert(modules.drop_last() =~= s.kernel_modules);
    assert(library_infos(modules) =~= library_infos(s.kernel_modules).push(module.info));
    assert(is_nearest(process.mappings, e.address, e.address));
    lemma_library_at(process.mappings, e.address, e.address);
}

/// The product name changes at most once, through the first name of a thread that is not the
/// one which a program bears before it is executed, and is then made from that name.
pub proof fn law_product_name_is_set_once(
    s: ConverterView,
    role: SampleRole,
    record: RecordView,
    timestamp: Option<u64>,
    unwound: Option<UnwoundStack>,
)
    ensures
        ({
            let after = s.after_record(role, record, timestamp, unwound);
            match record {
                RecordView::Comm(e) if !s.have_product_name && lossy_text(e.name)
                    != "perf-exec"@ => {
                    &&& after.profile.product == s.product_name(lossy_text(e.name))
                    &&& after.have_product_name
                },
                _ => {
                    &&& after.profile.product == s.profile.product
                    &&& after.have_product_name == s.have_product_name
                },
            }
        }),
{
}

/// The thread that a record is about.
pub open spec fn record_tid(record: RecordView) -> Option<i32> {
    match record {
        RecordView::Sample(e) => e.tid,
        RecordView::Fork(e) => Some(e.tid),
        RecordView::Exit(e) => Some(e.tid),
        RecordView::Comm(e) => Some(e.tid),
        RecordView::ContextSwitch(_, Some(common)) => common.tid,
        _ => None,
    }
}

/// Whether what is known of a living thread, and what the profile holds of it, stayed as it
/// was.
pub open spec fn thread_untouched(s: ConverterView, after: ConverterView, tid: i32) -> bool {
    let index = s.threads[tid].index as int;
    &&& after.threads.contains_key(tid)
    &&& after.threads[tid] == s.threads[tid]
    &&& after.profile.threads[index] == s.profile.threads[index]
}

/// A thread that becomes known is not one that is alive already under another number.
proof fn lemma_known_apart(s: ConverterView, pid: i32, tid: i32, other: i32)
    requires
        s.valid(),
        s.threads.contains_key(other),
        tid != other,
    ensures
        thread_untouched(s, s.with_thread_of(pid, tid), other),
        s.with_thread_of(pid, tid).threads[tid].index != s.threads[other].index,
        s.with_thread_of(pid, tid).threads[tid].index < s.with_thread_of(
            pid,
            tid,
        ).profile.threads.len(),
        s.threads[other].index < s.profile.threads.len(),
{
    reveal(ConverterView::valid);
}

/// A sample touches only its own thread.
proof fn lemma_sample_apart(
    s: ConverterView,
    e: SampleRecordView,
    unwound: Option<UnwoundStack>,
    other: i32,
)
    requires
        s.valid(),
        s.threads.contains_key(other),
        e.tid->0 != other,
    ensures
        thread_untouched(s, s.after_sample(e, unwound), other),
        thread_untouched(s, s.after_sched_switch(e, unwound), other),
{
    lemma_known_apart(s, e.pid->0, e.tid->0, other);
}

/// A context switch touches only its own thread.
proof fn lemma_switch_apart(
    s: ConverterView,
    e: ContextSwitchRecord,
    pid: i32,
    tid: i32,
    timestamp: u64,
    other: i32,
)
    requires
        s.valid(),
        s.threads.contains_key(other),
        tid != other,
    ensures
        thread_untouched(s, s.after_context_switch(e, pid, tid, timestamp), other),
{
    lemma_known_apart(s, pid, tid, other);
}

/// The start and the end of a thread touch only that thread.
proof fn lemma_lifetime_apart(s: ConverterView, e: ForkOrExitRecord, other: i32)
    requires
        s.valid(),
        s.threads.contains_key(other),
        e.tid != other,
    ensures
        thread_untouched(s, s.after_thread_start(e), other),
        thread_untouched(s, s.after_thread_end(e), other),
{
    lemma_known_apart(s, e.pid, e.tid, other);
}

/// The replacement of what ran in a thread touches only that thread.
proof fn lemma_replacement_apart(s: ConverterView, pid: i32, tid: i32, time: u64, other: i32)
    requires
        s.valid(),
        s.threads.contains_key(other),
        tid != other,
    ensures
        thread_untouched(s, s.after_replacement(pid, tid, time), other),
{
    reveal(ConverterView::valid);
}

/// A name for a thread touches only that thread.
proof fn lemma_name_apart(
    s: ConverterView,
    e: CommOrExecRecordView,
    timestamp: Option<u64>,
    other: i32,
)
    requires
        s.valid(),
        s.threads.contains_key(other),
        e.tid != other,
    ensures
        thread_untouched(s, s.after_thread_name_update(e, timestamp), other),
{
    let time = s.time(s.replacement_timestamp(timestamp));
    lemma_after_replacement_valid(s, e.pid, e.tid, time);
    lemma_replacement_apart(s, e.pid, e.tid, time, other);
    lemma_known_apart(s.before_name(e, timestamp), e.pid, e.tid, other);
}

/// A record is about one thread: what is known of another living thread, and what the profile
/// holds of it, stays as it was.
pub proof fn law_other_threads_are_untouched(
    s: ConverterView,
    role: SampleRole,
    record: RecordView,
    timestamp: Option<u64>,
    unwound: Option<UnwoundStack>,
    other: i32,
)
    requires
        s.valid(),
        s.threads.contains_key(other),
        record_tid(record) != Some(other),
    ensures
        thread_untouched(s, s.after_record(role, record, timestamp, unwound), other),
{
    match record {
        RecordView::Sample(e) => {
            if s.used_sample_error(role, e, unwound) is None && role != SampleRole::Unused {
                lemma_sample_apart(s, e, unwound, other);
            }
        },
        RecordView::Fork(e) => lemma_lifetime_apart(s, e, other),
        RecordView::Exit(e) => lemma_lifetime_apart(s, e, other),
        RecordView::Comm(e) => lemma_name_apart(s, e, timestamp, other),
        RecordView::ContextSwitch(e, Some(common)) => {
            if s.switch_error(e, common.pid, common.tid, common.timestamp) is None {
                lemma_switch_apart(
                    s,
                    e,
                    common.pid->0,
                    common.tid->0,
                    common.timestamp->0,
                    other,
                );
            }
        },
        _ => {},
    }
}

/// A name for a thread adds no samples.
proof fn lemma_name_adds_no_samples(
    s: ConverterView,
    e: CommOrExecRecordView,
    timestamp: Option<u64>,
    thread: int,
)
    requires
        s.valid(),
        0 <= thread < s.profile.threads.len(),
    ensures
        s.after_thread_name_update(e, timestamp).profile.threads[thread].samples
            == s.profile.threads[thread].samples,
{
    lemma_valid(s);
    let before = s.before_name(e, timestamp);
    assert(before.profile.threads[thread].samples == s.profile.threads[thread].samples);
    let known = before.with_thread_of(e.pid, e.tid);
    assert(known.profile.threads[thread].samples == s.profile.threads[thread].samples);
    lemma_after_replacement_valid(
        s,
        e.pid,
        e.tid,
        s.time(s.replacement_timestamp(timestamp)),
    );
    lemma_with_thread_of_valid(before, e.pid, e.tid);
    lemma_valid(known);
}

/// Only samples and context switches add samples to the profile.
pub proof fn law_only_events_add_samples(
    s: ConverterView,
    role: SampleRole,
    record: RecordView,
    timestamp: Option<u64>,
    unwound: Option<UnwoundStack>,
    thread: int,
)
    requires
        s.valid(),
        !(record is Sample),
        !(record is ContextSwitch),
        0 <= thread < s.profile.threads.len(),
    ensures
        s.after_record(role, record, timestamp, unwound).profile.threads[thread].samples
            == s.profile.threads[thread].samples,
{
    match record {
        RecordView::Fork(e) => {
            lemma_with_thread_of_valid(s, e.pid, e.tid);
            lemma_valid(s.with_thread_of(e.pid, e.tid));
        },
        RecordView::Exit(e) => {
            lemma_with_thread_of_valid(s, e.pid, e.tid);
            lemma_valid(s.with_thread_of(e.pid, e.tid));
        },
        RecordView::Comm(e) => lemma_name_adds_no_samples(s, e, timestamp, thread),
        _ => {},
    }
}

} // verus!
