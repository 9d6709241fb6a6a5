//! What records leave as it was.

use vstd::prelude::*;
use crate::converter::Converter;
use crate::events::SampleRole;
use crate::laws::conversion::record_tid;
use crate::module::{ModuleErrorView, ModuleView};
use crate::profile::{CategoryColor, ProfileView};
use crate::records::{
    CommOrExecRecordView, ContextSwitchRecord, ForkOrExitRecord, RecordView, SampleRecordView,
};
use crate::stack::UnwoundStack;
use crate::state::{
    lemma_after_replacement_valid, lemma_valid, lemma_with_process_valid,
    lemma_with_thread_of_valid, ConverterView, Settings,
};

verus! {

/// The process that a record is about.
pub open spec fn record_pid(record: RecordView) -> Option<i32> {
    match record {
        RecordView::Sample(e) => e.pid,
        RecordView::Fork(e) => Some(e.pid),
        RecordView::Exit(e) => Some(e.pid),
        RecordView::Comm(e) => Some(e.pid),
        RecordView::Mmap(e) => Some(e.pid),
        RecordView::Mmap2(e) => Some(e.pid),
        RecordView::ContextSwitch(_, Some(common)) => common.pid,
        _ => None,
    }
}

/// Whether what was settled before the first record is still the same.
pub open spec fn settings_kept(before: ConverterView, after: ConverterView) -> bool {
    &&& after.user_category == before.user_category
    &&& after.kernel_category == before.kernel_category
    &&& after.first_sample_time == before.first_sample_time
    &&& after.build_ids == before.build_ids
    &&& after.little_endian == before.little_endian
    &&& after.host == before.host
    &&& after.perf_version == before.perf_version
    &&& after.linux_version == before.linux_version
    &&& after.sampling_is_time_based == before.sampling_is_time_based
    &&& after.have_time_based_cpu_deltas == before.have_time_based_cpu_deltas
    &&& after.profile.reference == before.profile.reference
    &&& after.profile.interval_nanos == before.profile.interval_nanos
    &&& after.profile.categories == before.profile.categories
}

/// No record changes the settings. The time of the last sample changes only with a sample of
/// the main event, and is then that of the sample. The pieces of the kernel change only with a
/// mapping of one.
pub proof fn law_settings_are_kept(
    s: ConverterView,
    role: SampleRole,
    record: RecordView,
    timestamp: Option<u64>,
    unwound: Option<UnwoundStack>,
)
    ensures
        ({
            let after = s.after_record(role, record, timestamp, unwound);
            let is_taken = s.record_result(role, record, unwound) is Ok;
            &&& settings_kept(s, after)
            &&& after.current_sample_time == match record {
                RecordView::Sample(e) if role == SampleRole::Main && is_taken => e.timestamp->0,
                _ => s.current_sample_time,
            }
            &&& !(record matches RecordView::Mmap(e) && e.pid == -1) ==> after.kernel_modules
                == s.kernel_modules
        }),
{
}

/// The threads of a profile that a record is not about stay as they are, also those that have
/// ended.
pub proof fn law_threads_of_the_profile_are_kept(
    s: ConverterView,
    role: SampleRole,
    record: RecordView,
    timestamp: Option<u64>,
    unwound: Option<UnwoundStack>,
    i: int,
)
    requires
        s.valid(),
        0 <= i < s.profile.threads.len(),
        !(record_tid(record) matches Some(tid) && s.threads.contains_key(tid)
            && s.threads[tid].index == i),
    ensures
        s.after_record(role, record, timestamp, unwound).profile.threads[i]
            == s.profile.threads[i],
{
    lemma_valid(s);
    match record {
        RecordView::Sample(e) => {
            lemma_with_thread_of_valid(s, e.pid->0, e.tid->0);
            lemma_valid(s.with_thread_of(e.pid->0, e.tid->0));
        },
        RecordView::Fork(e) => {
            lemma_with_thread_of_valid(s, e.pid, e.tid);
            lemma_valid(s.with_thread_of(e.pid, e.tid));
        },
        RecordView::Exit(e) => {
            lemma_with_thread_of_valid(s, e.pid, e.tid);
            lemma_valid(s.with_thread_of(e.pid, e.tid));
        },
        RecordView::Comm(e) => {
            let time = s.time(s.replacement_timestamp(timestamp));
            lemma_after_replacement_valid(s, e.pid, e.tid, time);
            let before = s.before_name(e, timestamp);
            assert(before.profile.threads[i] == s.profile.threads[i]);
            assert(before.profile.threads.len() == s.profile.threads.len());
            lemma_with_thread_of_valid(before, e.pid, e.tid);
            lemma_valid(before.with_thread_of(e.pid, e.tid));
            assert(before.with_thread_of(e.pid, e.tid).threads[e.tid].index != i);
        },
        RecordView::ContextSwitch(_, Some(common)) => {
            lemma_with_thread_of_valid(s, common.pid->0, common.tid->0);
            lemma_valid(s.with_thread_of(common.pid->0, common.tid->0));
        },
        _ => {},
    }
}

/// Whether a record is about the life or the name of a main thread, and with it of a process.
pub open spec fn is_about_process(record: RecordView, pid: i32) -> bool {
    match record {
        RecordView::Fork(e) => e.pid == pid && e.tid == pid,
        RecordView::Exit(e) => e.pid == pid && e.tid == pid,
        RecordView::Comm(e) => e.pid == pid && e.tid == pid,
        _ => false,
    }
}

/// A process of a profile keeps its number, its libraries and its mappings, and, unless the
/// record is about the life or the name of its main thread, all the rest.
pub proof fn law_processes_of_the_profile_are_kept(
    s: ConverterView,
    role: SampleRole,
    record: RecordView,
    timestamp: Option<u64>,
    unwound: Option<UnwoundStack>,
    p: int,
)
    requires
        s.valid(),
        0 <= p < s.profile.processes.len(),
    ensures
        ({
            let after = s.after_record(role, record, timestamp, unwound).profile.processes[p];
            let before = s.profile.processes[p];
            &&& after.pid == before.pid
            &&& after.libs == before.libs
            &&& after.mappings == before.mappings
            &&& !(record_pid(record) matches Some(pid) && is_about_process(record, pid)
                && s.processes.contains_key(pid) && s.processes[pid] == p) ==> after == before
        }),
{
    lemma_valid(s);
    match record {
        RecordView::Sample(e) => {
            lemma_with_thread_of_valid(s, e.pid->0, e.tid->0);
        },
        RecordView::Fork(e) => {
            lemma_with_thread_of_valid(s, e.pid, e.tid);
            lemma_valid(s.with_thread_of(e.pid, e.tid));
        },
        RecordView::Exit(e) => {
            lemma_with_thread_of_valid(s, e.pid, e.tid);
            lemma_valid(s.with_thread_of(e.pid, e.tid));
        },
        RecordView::Comm(e) => {
            let time = s.time(s.replacement_timestamp(timestamp));
            lemma_after_replacement_valid(s, e.pid, e.tid, time);
            let before = s.before_name(e, timestamp);
            assert(before.profile.processes.len() == s.profile.processes.len());
            lemma_with_thread_of_valid(before, e.pid, e.tid);
            lemma_valid(before.with_thread_of(e.pid, e.tid));
        },
        RecordView::ContextSwitch(_, Some(common)) => {
            lemma_with_thread_of_valid(s, common.pid->0, common.tid->0);
        },
        _ => {},
    }
}

/// Whether the same is known of a process, or the same that it is not known.
pub open spec fn same_process(a: ConverterView, b: ConverterView, pid: i32) -> bool {
    &&& a.processes.contains_key(pid) == b.processes.contains_key(pid)
    &&& b.processes.contains_key(pid) ==> a.processes[pid] == b.processes[pid]
}

/// Whether the same is known of a thread, or the same that it is not known.
pub open spec fn same_thread(a: ConverterView, b: ConverterView, tid: i32) -> bool {
    &&& a.threads.contains_key(tid) == b.threads.contains_key(tid)
    &&& b.threads.contains_key(tid) ==> a.threads[tid] == b.threads[tid]
}

/// Making a process and a thread known leaves others alone.
proof fn lemma_known_keeps_lives(s: ConverterView, pid: i32, tid: i32, other: i32, thread: i32)
    ensures
        pid != other ==> same_process(s.with_thread_of(pid, tid), s, other),
        tid != thread ==> same_thread(s.with_thread_of(pid, tid), s, thread),
{
}

/// A name leaves others alone.
proof fn lemma_name_keeps_lives(
    s: ConverterView,
    e: CommOrExecRecordView,
    timestamp: Option<u64>,
    other: i32,
    thread: i32,
)
    ensures
        e.pid != other ==> same_process(s.after_thread_name_update(e, timestamp), s, other),
        e.tid != thread ==> same_thread(s.after_thread_name_update(e, timestamp), s, thread),
{
    let before = s.before_name(e, timestamp);
    assert(e.pid != other ==> same_process(before, s, other));
    assert(e.tid != thread ==> same_thread(before, s, thread));
    lemma_known_keeps_lives(before, e.pid, e.tid, other, thread);
}

/// A sample leaves others alone.
proof fn lemma_sample_keeps_lives(
    s: ConverterView,
    e: SampleRecordView,
    unwound: Option<UnwoundStack>,
    other: i32,
    thread: i32,
)
    ensures
        e.pid->0 != other ==> same_process(s.after_sample(e, unwound), s, other),
        e.tid->0 != thread ==> same_thread(s.after_sample(e, unwound), s, thread),
        e.pid->0 != other ==> same_process(s.after_sched_switch(e, unwound), s, other),
        e.tid->0 != thread ==> same_thread(s.after_sched_switch(e, unwound), s, thread),
{
    lemma_known_keeps_lives(s, e.pid->0, e.tid->0, other, thread);
    let now = ConverterView { current_sample_time: e.timestamp->0, ..s };
    lemma_known_keeps_lives(now, e.pid->0, e.tid->0, other, thread);
}

/// A record makes at most its own process and its own thread known, or forgotten: which others
/// are alive, and what is known of them, stays as it was.
pub proof fn law_other_lives_are_kept(
    s: ConverterView,
    role: SampleRole,
    record: RecordView,
    timestamp: Option<u64>,
    unwound: Option<UnwoundStack>,
    pid: i32,
    tid: i32,
)
    ensures
        record_pid(record) != Some(pid) ==> same_process(
            s.after_record(role, record, timestamp, unwound),
            s,
            pid,
        ),
        record_tid(record) != Some(tid) ==> same_thread(
            s.after_record(role, record, timestamp, unwound),
            s,
            tid,
        ),
{
    match record {
        RecordView::Sample(e) => {
            if s.used_sample_error(role, e, unwound) is None && role != SampleRole::Unused {
                lemma_sample_keeps_lives(s, e, unwound, pid, tid);
            }
        },
        RecordView::Fork(e) => lemma_known_keeps_lives(s, e.pid, e.tid, pid, tid),
        RecordView::Exit(e) => lemma_known_keeps_lives(s, e.pid, e.tid, pid, tid),
        RecordView::Comm(e) => lemma_name_keeps_lives(s, e, timestamp, pid, tid),
        RecordView::ContextSwitch(e, Some(common)) => {
            if s.switch_error(e, common.pid, common.tid, common.timestamp) is None {
                lemma_known_keeps_lives(s, common.pid->0, common.tid->0, pid, tid);
            }
        },
        _ => {},
    }
}

/// Whether a profile has at most one more process and one more thread.
pub open spec fn grew_by_one(before: ProfileView, after: ProfileView) -> bool {
    &&& before.processes.len() <= after.processes.len() <= before.processes.len() + 1
    &&& before.threads.len() <= after.threads.len() <= before.threads.len() + 1
}

/// A name adds at most one process and one thread.
proof fn lemma_name_adds_one(s: ConverterView, e: CommOrExecRecordView, timestamp: Option<u64>)
    requires
        s.valid(),
    ensures
        grew_by_one(s.profile, s.after_thread_name_update(e, timestamp).profile),
{
    lemma_valid(s);
    let time = s.time(s.replacement_timestamp(timestamp));
    lemma_after_replacement_valid(s, e.pid, e.tid, time);
    let before = s.before_name(e, timestamp);
    assert(before.profile.processes.len() == s.profile.processes.len());
    assert(before.profile.threads.len() == s.profile.threads.len());
    let known = before.with_thread_of(e.pid, e.tid);
    lemma_with_thread_of_valid(before, e.pid, e.tid);
    lemma_valid(known);
    assert(grew_by_one(before.profile, known.profile));
    assert(s.after_thread_name_update(e, timestamp).profile.processes.len()
        == known.profile.processes.len());
    assert(s.after_thread_name_update(e, timestamp).profile.threads.len()
        == known.profile.threads.len());
}

/// A sample adds at most one process and one thread.
proof fn lemma_sample_adds_one(
    s: ConverterView,
    e: SampleRecordView,
    unwound: Option<UnwoundStack>,
)
    requires
        s.valid(),
    ensures
        grew_by_one(s.profile, s.after_sample(e, unwound).profile),
        grew_by_one(s.profile, s.after_sched_switch(e, unwound).profile),
{
    let known = s.with_thread_of(e.pid->0, e.tid->0);
    lemma_with_thread_of_valid(s, e.pid->0, e.tid->0);
    lemma_valid(known);
    assert(grew_by_one(s.profile, known.profile));
}

/// A context switch, a start and an end add at most one process and one thread.
proof fn lemma_event_adds_one(
    s: ConverterView,
    switch: ContextSwitchRecord,
    e: ForkOrExitRecord,
)
    requires
        s.valid(),
    ensures
        grew_by_one(
            s.profile,
            s.after_context_switch(switch, e.pid, e.tid, e.timestamp).profile,
        ),
        grew_by_one(s.profile, s.after_thread_start(e).profile),
        grew_by_one(s.profile, s.after_thread_end(e).profile),
{
    let known = s.with_thread_of(e.pid, e.tid);
    lemma_with_thread_of_valid(s, e.pid, e.tid);
    lemma_valid(known);
    assert(grew_by_one(s.profile, known.profile));
}

/// A record adds at most one process and one thread to a profile.
pub proof fn law_record_adds_at_most_one_of_each(
    s: ConverterView,
    role: SampleRole,
    record: RecordView,
    timestamp: Option<u64>,
    unwound: Option<UnwoundStack>,
)
    requires
        s.valid(),
    ensures
        grew_by_one(s.profile, s.after_record(role, record, timestamp, unwound).profile),
{
    match record {
        RecordView::Sample(e) => lemma_sample_adds_one(s, e, unwound),
        RecordView::Fork(e) => lemma_event_adds_one(s, ContextSwitchRecord::In, e),
        RecordView::Exit(e) => lemma_event_adds_one(s, ContextSwitchRecord::In, e),
        RecordView::Comm(e) => lemma_name_adds_one(s, e, timestamp),
        RecordView::ContextSwitch(e, Some(common)) => {
            lemma_event_adds_one(
                s,
                e,
                ForkOrExitRecord {
                    pid: common.pid->0,
                    tid: common.tid->0,
                    timestamp: common.timestamp->0,
                },
            );
        },
        _ => {},
    }
}

/// A sample that is not used, a context switch without its data and a record of no use change
/// nothing and ask for nothing.
pub proof fn law_useless_records_change_nothing(
    s: ConverterView,
    role: SampleRole,
    record: RecordView,
    timestamp: Option<u64>,
    unwound: Option<UnwoundStack>,
)
    requires
        record is Other || (record matches RecordView::ContextSwitch(_, common) && common is None)
            || (record is Sample && role == SampleRole::Unused),
    ensures
        s.after_record(role, record, timestamp, unwound) == s,
        s.record_result(role, record, unwound) is Ok,
        s.record_result(role, record, unwound)->Ok_0 is Done,
{
}

/// Loading a module changes nothing but the libraries and the mappings of its process: what is
/// known of threads, what has been settled and all samples stay as they were.
pub proof fn law_loading_touches_only_libraries(
    s: ConverterView,
    pid: i32,
    module: Result<ModuleView, ModuleErrorView>,
    p: int,
)
    requires
        s.valid(),
        s.processes.contains_key(pid),
        0 <= p < s.profile.processes.len(),
    ensures
        ({
            let after = s.after_load(pid, module);
            let process = after.profile.processes[p];
            &&& settings_kept(s, after)
            &&& after.current_sample_time == s.current_sample_time
            &&& after.kernel_modules == s.kernel_modules
            &&& after.have_product_name == s.have_product_name
            &&& after.profile.product == s.profile.product
            &&& after.processes == s.processes
            &&& after.threads == s.threads
            &&& after.profile.threads == s.profile.threads
            &&& after.profile.processes.len() == s.profile.processes.len()
            &&& process.pid == s.profile.processes[p].pid
            &&& process.name == s.profile.processes[p].name
            &&& process.start_time == s.profile.processes[p].start_time
            &&& process.end_time == s.profile.processes[p].end_time
            &&& p != s.processes[pid] ==> process == s.profile.processes[p]
        }),
{
    lemma_valid(s);
    lemma_with_process_valid(s, pid);
}

/// A conversion starts with a profile that has its settings and three categories, and with
/// nothing else: no process, no thread and no piece of the kernel. The last sample is taken to be
/// the first one until another comes. Where samples do not come by time the interval is a
/// millisecond.
pub proof fn law_conversion_starts_empty(settings: Settings)
    ensures
        ({
            let s = ConverterView::initial(settings);
            &&& s.valid()
            &&& s.profile.processes.len() == 0
            &&& s.profile.threads.len() == 0
            &&& s.kernel_modules.len() == 0
            &&& forall|pid: i32| !(#[trigger] s.processes.contains_key(pid))
            &&& forall|tid: i32| !(#[trigger] s.threads.contains_key(tid))
            &&& s.profile.product == settings.product
            &&& s.profile.reference == settings.reference
            &&& settings.sampling_is_time_based matches Some(nanos) ==> s.profile.interval_nanos
                == nanos
            &&& settings.sampling_is_time_based is None ==> s.profile.interval_nanos == 1_000_000
            &&& s.profile.categories.len() == 3
            &&& s.profile.categories[s.user_category as int].name == "User"@
            &&& s.profile.categories[s.user_category as int].color == CategoryColor::Yellow
            &&& s.profile.categories[s.kernel_category as int].name == "Kernel"@
            &&& s.profile.categories[s.kernel_category as int].color == CategoryColor::Orange
            &&& s.user_category < 3 && s.kernel_category < 3
            &&& s.first_sample_time == settings.first_sample_time
            &&& s.current_sample_time == settings.first_sample_time
            &&& s.build_ids == settings.build_ids
            &&& s.little_endian == settings.little_endian
            &&& !s.have_product_name
            &&& s.host == settings.host
            &&& s.perf_version == settings.perf_version
            &&& s.linux_version == settings.linux_version
            &&& s.sampling_is_time_based == settings.sampling_is_time_based
            &&& s.have_time_based_cpu_deltas == settings.have_time_based_cpu_deltas
        }),
{
    reveal(ConverterView::valid);
}

/// What unwinds the stacks of a process stays with it as long as it lives; a process that
/// becomes known has a new one.
pub proof fn law_unwinders_stay_with_their_processes<U: Default>(
    before: Converter<U>,
    after: Converter<U>,
    pid: i32,
)
    requires
        after.keeps_unwinders(before),
        after@.processes.contains_key(pid),
    ensures
        before@.processes.contains_key(pid) && before@.processes[pid] == after@.processes[pid]
            ==> after.unwinder(pid) == before.unwinder(pid),
        !before@.processes.contains_key(pid) || before@.processes[pid] != after@.processes[pid]
            ==> call_ensures(U::default, (), after.unwinder(pid)),
{
}

} // verus!
