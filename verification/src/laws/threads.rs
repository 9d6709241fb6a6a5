//! What the lives and the names of threads and processes come to.

use vstd::prelude::*;
use crate::events::SampleRole;
use crate::laws::samples::is_time;
use crate::profile::{mapped_libraries, LibraryView, ProcessView};
use crate::records::{CommOrExecRecordView, ForkOrExitRecord, RecordView};
use crate::stack::UnwoundStack;
use crate::state::{
    lemma_after_replacement_valid, lemma_valid, lemma_with_process_valid,
    lemma_with_thread_of_valid, ConverterView,
};
use crate::tables::{library_infos, ThreadState};
use crate::text::{decimal, lossy_text, placeholder_name, signed_decimal};

verus! {

/// The number that decimal digits stand for.
pub open spec fn decimal_value(digits: Seq<char>) -> int
    decreases digits.len(),
{
    if digits.len() == 0 {
        0
    } else {
        10 * decimal_value(digits.drop_last()) + (digits.last() as int - '0' as int)
    }
}

/// A number in decimal digits reads back as the number, is made of digits, and has no zero in
/// front.
pub proof fn law_decimal_reads_back(n: nat)
    ensures
        decimal_value(decimal(n)) == n,
        decimal(n).len() > 0,
        forall|i: int| 0 <= i < decimal(n).len() ==> '0' <= #[trigger] decimal(n)[i] <= '9',
        n > 0 ==> decimal(n)[0] != '0',
    decreases n,
{
    if n < 10 {
        assert(decimal(n).drop_last() =~= Seq::empty());
        assert(decimal_value(decimal(n).drop_last()) == 0);
    } else {
        law_decimal_reads_back(n / 10);
        assert(decimal(n).drop_last() =~= decimal(n / 10));
    }
}

/// Before it is named, a process bears its number in angle brackets, with a sign where it is
/// negative.
pub proof fn law_placeholder_shows_the_number(pid: i32)
    ensures
        ({
            let name = placeholder_name(pid);
            let inner = name.subrange(1, name.len() - 1);
            &&& name.len() > 2
            &&& name[0] == '<'
            &&& name.last() == '>'
            &&& pid >= 0 ==> inner == decimal(pid as nat)
            &&& pid < 0 ==> inner[0] == '-' && inner.drop_first() == decimal((-pid) as nat)
        }),
{
    reveal_strlit("<");
    reveal_strlit(">");
    reveal_strlit("-");
    let name = placeholder_name(pid);
    let inner = name.subrange(1, name.len() - 1);
    assert(inner =~= signed_decimal(pid as int));
    if pid < 0 {
        law_decimal_reads_back((-pid) as nat);
        assert(inner.drop_first() =~= decimal((-pid) as nat));
    } else {
        law_decimal_reads_back(pid as nat);
    }
}

/// The libraries that a process starts with are listed one for one. Each is found by the start
/// of its mapping, unless a later one starts there too.
pub proof fn law_first_libraries(libraries: Seq<LibraryView>, i: int)
    requires
        0 <= i < libraries.len(),
    ensures
        library_infos(libraries).len() == libraries.len(),
        library_infos(libraries)[i] == libraries[i].info,
        mapped_libraries(libraries).contains_key(libraries[i].avma_start),
        (forall|j: int|
            i < j < libraries.len() ==> (#[trigger] libraries[j]).avma_start
                != libraries[i].avma_start) ==> {
            let found = mapped_libraries(libraries)[libraries[i].avma_start];
            &&& found.base_avma == libraries[i].base_avma
            &&& found.avma_end == libraries[i].avma_end
            &&& found.info == libraries[i].info
        },
    decreases libraries.len(),
{
    if i < libraries.len() - 1 {
        let earlier = libraries.drop_last();
        law_first_libraries(earlier, i);
        assert(earlier[i] == libraries[i]);
        if forall|j: int|
            i < j < libraries.len() ==> (#[trigger] libraries[j]).avma_start
                != libraries[i].avma_start {
            assert forall|j: int| i < j < earlier.len() implies (#[trigger] earlier[j]).avma_start
                != earlier[i].avma_start by {
                assert(earlier[j] == libraries[j]);
            }
            assert(libraries[libraries.len() - 1].avma_start != libraries[i].avma_start);
        }
    }
}

/// A process starts with no mappings but those of its first libraries.
pub proof fn law_first_mappings_are_of_first_libraries(libraries: Seq<LibraryView>, start: u64)
    requires
        mapped_libraries(libraries).contains_key(start),
    ensures
        exists|i: int|
            0 <= i < libraries.len() && (#[trigger] libraries[i]).avma_start == start,
    decreases libraries.len(),
{
    if libraries.len() > 0 {
        let last = libraries.len() - 1;
        if libraries[last].avma_start != start {
            let earlier = libraries.drop_last();
            law_first_mappings_are_of_first_libraries(earlier, start);
            let i = choose|i: int|
                0 <= i < earlier.len() && (#[trigger] earlier[i]).avma_start == start;
            assert(libraries[i].avma_start == start);
        }
    }
}

/// A process that becomes known is the one that was known, or a new one, which has a
/// placeholder for its name, no start and no end, and the pieces of the kernel that were mapped
/// so far. No thread is touched.
pub proof fn law_process_becomes_known(s: ConverterView, pid: i32)
    requires
        s.valid(),
    ensures
        ({
            let after = s.with_process(pid);
            let process = after.profile.processes[after.processes[pid] as int];
            &&& after.processes.contains_key(pid)
            &&& after.processes[pid] < after.profile.processes.len()
            &&& s.processes.contains_key(pid) ==> after == s
            &&& !s.processes.contains_key(pid) ==> {
                &&& after.processes[pid] == s.profile.processes.len()
                &&& after.profile.processes.len() == s.profile.processes.len() + 1
                &&& process.pid == pid as u32
                &&& process.name == placeholder_name(pid)
                &&& process.start_time == 0
                &&& process.end_time is None
                &&& process.libs == library_infos(s.kernel_modules)
                &&& process.mappings == mapped_libraries(s.kernel_modules)
            }
            &&& after.threads == s.threads
            &&& after.profile.threads == s.profile.threads
        }),
{
    lemma_valid(s);
    lemma_with_process_valid(s, pid);
}

/// Whether a process of the profile has changed at most its name and its times.
pub open spec fn same_but_name_and_times(before: ProcessView, after: ProcessView) -> bool {
    &&& after.pid == before.pid
    &&& after.libs == before.libs
    &&& after.mappings == before.mappings
}

/// The start of a thread sets its start time, and that of its process where it is the main
/// thread. Nothing else of them changes, and what is known of the thread stays known.
pub proof fn law_start_sets_start_times(
    s: ConverterView,
    role: SampleRole,
    e: ForkOrExitRecord,
    timestamp: Option<u64>,
    unwound: Option<UnwoundStack>,
)
    requires
        s.valid(),
    ensures
        ({
            let after = s.after_record(role, RecordView::Fork(e), timestamp, unwound);
            let known = s.with_thread_of(e.pid, e.tid);
            let index = known.threads[e.tid].index as int;
            let process = known.processes[e.pid] as int;
            let before = known.profile.threads[index];
            let thread = after.profile.threads[index];
            let old = known.profile.processes[process];
            let new = after.profile.processes[process];
            &&& after.threads == known.threads
            &&& after.processes == known.processes
            &&& is_time(s, e.timestamp, thread.start_time)
            &&& thread.end_time == before.end_time
            &&& thread.name == before.name
            &&& thread.tid == before.tid
            &&& thread.process == before.process
            &&& thread.is_main == before.is_main
            &&& thread.samples == before.samples
            &&& same_but_name_and_times(old, new)
            &&& new.name == old.name
            &&& new.end_time == old.end_time
            &&& if e.pid == e.tid {
                is_time(s, e.timestamp, new.start_time)
            } else {
                new.start_time == old.start_time
            }
        }),
{
    lemma_with_thread_of_valid(s, e.pid, e.tid);
    lemma_valid(s.with_thread_of(e.pid, e.tid));
}

/// The end of a thread sets its end time, and the thread is forgotten. Where it is the main
/// thread, so does and is its process; otherwise the process lives on. Nothing else changes.
pub proof fn law_end_sets_end_times(
    s: ConverterView,
    role: SampleRole,
    e: ForkOrExitRecord,
    timestamp: Option<u64>,
    unwound: Option<UnwoundStack>,
)
    requires
        s.valid(),
    ensures
        ({
            let after = s.after_record(role, RecordView::Exit(e), timestamp, unwound);
            let known = s.with_thread_of(e.pid, e.tid);
            let index = known.threads[e.tid].index as int;
            let process = known.processes[e.pid] as int;
            let before = known.profile.threads[index];
            let thread = after.profile.threads[index];
            let old = known.profile.processes[process];
            let new = after.profile.processes[process];
            &&& !after.threads.contains_key(e.tid)
            &&& after.processes.contains_key(e.pid) <==> e.pid != e.tid
            &&& e.pid != e.tid ==> after.processes[e.pid] == known.processes[e.pid]
            &&& thread.end_time matches Some(time) && is_time(s, e.timestamp, time)
            &&& thread.start_time == before.start_time
            &&& thread.name == before.name
            &&& thread.tid == before.tid
            &&& thread.process == before.process
            &&& thread.is_main == before.is_main
            &&& thread.samples == before.samples
            &&& same_but_name_and_times(old, new)
            &&& new.name == old.name
            &&& new.start_time == old.start_time
            &&& if e.pid == e.tid {
                new.end_time matches Some(time) && is_time(s, e.timestamp, time)
            } else {
                new.end_time == old.end_time
            }
        }),
{
    lemma_with_thread_of_valid(s, e.pid, e.tid);
    lemma_valid(s.with_thread_of(e.pid, e.tid));
}

/// After a name comes, the thread has that name, whatever was known of it before, and so has its
/// process where it is the main thread; otherwise the process keeps its name.
pub proof fn law_name_is_taken_over(
    s: ConverterView,
    role: SampleRole,
    e: CommOrExecRecordView,
    timestamp: Option<u64>,
    unwound: Option<UnwoundStack>,
)
    requires
        s.valid(),
    ensures
        ({
            let after = s.after_record(role, RecordView::Comm(e), timestamp, unwound);
            let thread = after.profile.threads[after.threads[e.tid].index as int];
            let process = after.profile.processes[after.processes[e.pid] as int];
            &&& after.threads.contains_key(e.tid)
            &&& after.processes.contains_key(e.pid)
            &&& thread.name == Some(lossy_text(e.name))
            &&& e.pid == e.tid ==> process.name == lossy_text(e.name)
            &&& e.pid != e.tid ==> process.name == s.with_process(
                e.pid,
            ).profile.processes[after.processes[e.pid] as int].name
        }),
{
    lemma_valid(s);
    let time = s.time(s.replacement_timestamp(timestamp));
    lemma_after_replacement_valid(s, e.pid, e.tid, time);
    let before = s.before_name(e, timestamp);
    lemma_with_thread_of_valid(before, e.pid, e.tid);
    lemma_valid(before.with_thread_of(e.pid, e.tid));
}

/// A name that does not come from executing another program changes nothing but names: the
/// thread and the process live on, with their times and their samples.
pub proof fn law_name_changes_only_names(
    s: ConverterView,
    role: SampleRole,
    e: CommOrExecRecordView,
    timestamp: Option<u64>,
    unwound: Option<UnwoundStack>,
)
    requires
        s.valid(),
        !e.is_execve,
    ensures
        ({
            let after = s.after_record(role, RecordView::Comm(e), timestamp, unwound);
            let known = s.with_thread_of(e.pid, e.tid);
            let index = known.threads[e.tid].index as int;
            let process = known.processes[e.pid] as int;
            let before = known.profile.threads[index];
            let thread = after.profile.threads[index];
            let old = known.profile.processes[process];
            let new = after.profile.processes[process];
            &&& after.threads == known.threads
            &&& after.processes == known.processes
            &&& thread.start_time == before.start_time
            &&& thread.end_time == before.end_time
            &&& thread.tid == before.tid
            &&& thread.process == before.process
            &&& thread.is_main == before.is_main
            &&& thread.samples == before.samples
            &&& same_but_name_and_times(old, new)
            &&& new.start_time == old.start_time
            &&& new.end_time == old.end_time
        }),
{
    lemma_with_thread_of_valid(s, e.pid, e.tid);
    lemma_valid(s.with_thread_of(e.pid, e.tid));
}

/// When another program is executed in a thread, a new thread of the profile starts, which has
/// not been seen running and starts at the last sample. One that was alive ends, at the time of
/// the record or, where that is not known, at the last sample. The process of a main thread ends
/// and starts in the same way; that of another thread lives on.
pub proof fn law_executed_program_gets_a_new_thread(
    s: ConverterView,
    role: SampleRole,
    e: CommOrExecRecordView,
    timestamp: Option<u64>,
    unwound: Option<UnwoundStack>,
)
    requires
        s.valid(),
        e.is_execve,
    ensures
        ({
            let after = s.after_record(role, RecordView::Comm(e), timestamp, unwound);
            let ended = if timestamp is Some && timestamp->0 != 0 {
                timestamp->0
            } else {
                s.current_sample_time
            };
            let now = after.threads[e.tid];
            let thread = after.profile.threads[now.index as int];
            let process = after.profile.processes[after.processes[e.pid] as int];
            &&& now.index == s.profile.threads.len()
            &&& now.state == ThreadState::Unknown
            &&& now.last_sample_timestamp is None
            &&& now.off_cpu_stack is None
            &&& is_time(s, s.current_sample_time, thread.start_time)
            &&& thread.end_time is None
            &&& thread.tid == e.tid as u32
            &&& thread.is_main <==> e.pid == e.tid
            &&& thread.process == after.processes[e.pid]
            &&& thread.samples.len() == 0
            &&& s.threads.contains_key(e.tid) ==> {
                let old = s.profile.threads[s.threads[e.tid].index as int];
                let replaced = after.profile.threads[s.threads[e.tid].index as int];
                &&& replaced.end_time matches Some(time) && is_time(s, ended, time)
                &&& replaced.start_time == old.start_time
                &&& replaced.name == old.name
                &&& replaced.samples == old.samples
                &&& replaced.process == old.process
                &&& replaced.tid == old.tid
                &&& replaced.is_main == old.is_main
            }
            &&& e.pid == e.tid ==> {
                &&& after.processes[e.pid] == s.profile.processes.len()
                &&& is_time(s, s.current_sample_time, process.start_time)
                &&& process.end_time is None
            }
            &&& e.pid == e.tid && s.processes.contains_key(e.pid) ==> {
                let old = s.profile.processes[s.processes[e.pid] as int];
                let replaced = after.profile.processes[s.processes[e.pid] as int];
                &&& replaced.end_time matches Some(time) && is_time(s, ended, time)
                &&& replaced.start_time == old.start_time
                &&& replaced.name == old.name
                &&& same_but_name_and_times(old, replaced)
            }
            &&& e.pid != e.tid && s.processes.contains_key(e.pid) ==> {
                &&& after.processes[e.pid] == s.processes[e.pid]
                &&& process == s.profile.processes[s.processes[e.pid] as int]
            }
        }),
{
    lemma_valid(s);
    let time = s.time(s.replacement_timestamp(timestamp));
    lemma_after_replacement_valid(s, e.pid, e.tid, time);
    let before = s.before_name(e, timestamp);
    assert(before.profile.threads.len() == s.profile.threads.len());
    assert(before.profile.processes.len() == s.profile.processes.len());
    lemma_with_thread_of_valid(before, e.pid, e.tid);
    lemma_valid(before.with_thread_of(e.pid, e.tid));
}

/// The start, the end and the name of a thread are never refused, and ask for nothing.
pub proof fn law_lives_are_never_refused(
    s: ConverterView,
    role: SampleRole,
    record: RecordView,
    unwound: Option<UnwoundStack>,
)
    requires
        record is Fork || record is Exit || record is Comm,
    ensures
        s.record_result(role, record, unwound) is Ok,
        s.record_result(role, record, unwound)->Ok_0 is Done,
{
}

/// The product is named after the first thread that gets a name other than the one which a
/// program bears before it is executed: with the host and the version of the recorder. Before
/// and after that the name of the product stays.
pub proof fn law_product_is_named_after_the_first_program(
    s: ConverterView,
    role: SampleRole,
    record: RecordView,
    timestamp: Option<u64>,
    unwound: Option<UnwoundStack>,
)
    ensures
        ({
            let after = s.after_record(role, record, timestamp, unwound);
            let names = !s.have_product_name && (record matches RecordView::Comm(e) && lossy_text(
                e.name,
            ) != "perf-exec"@);
            &&& names ==> after.profile.product == lossy_text(record->Comm_0.name) + " on "@
                + s.host + " (perf version "@ + s.perf_version + ")"@
            &&& !names ==> after.profile.product == s.profile.product
            &&& after.have_product_name <==> s.have_product_name || names
        }),
{
}

} // verus!
