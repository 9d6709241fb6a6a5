//! What holds of whole recordings.

use vstd::prelude::*;
use crate::dispatch::OutcomeView;
use crate::events::{EventInterpretation, SampleRole};
use crate::laws::conversion::{
    law_load_only_grows, law_other_threads_are_untouched, law_profile_only_grows,
    law_record_keeps_valid, lemma_grew_twice, profile_grew, record_tid,
};
use crate::records::{CommonData, ContextSwitchRecord, RecordView};
use crate::recording::{ReadingView, StepView};
use crate::stack::UnwoundStack;
use crate::state::{lemma_valid, lemma_with_thread_of_valid, ConverterView};
use crate::tables::ThreadState;

verus! {

/// The file of a mapping that is to be loaded.
#[verifier::ext_equal]
pub enum MappedFile {
    /// It cannot be opened.
    Missing,
    /// It can be opened but not mapped, and the mapping is not loaded.
    Unmappable,
    /// It holds these bytes.
    Bytes(Seq<u8>),
}

/// A record as it is taken: the role of the samples of its event, the record, its timestamp,
/// what unwinding made of it, and the file that it has loaded.
pub struct TakenRecord {
    pub role: SampleRole,
    pub record: RecordView,
    pub timestamp: Option<u64>,
    pub unwound: Option<UnwoundStack>,
    pub file: MappedFile,
}

impl ConverterView {
    /// The state after a record was taken and what it asks to load was loaded.
    pub open spec fn after_taken(self, r: TakenRecord) -> ConverterView {
        let after = self.after_record(r.role, r.record, r.timestamp, r.unwound);
        match self.record_result(r.role, r.record, r.unwound) {
            Ok(OutcomeView::Load { pid, mapping }) => match r.file {
                MappedFile::Missing => after.after_load(pid, mapping.module(None)),
                MappedFile::Unmappable => after,
                MappedFile::Bytes(bytes) => after.after_load(pid, mapping.module(Some(bytes))),
            },
            _ => after,
        }
    }
}

/// The state after records.
pub open spec fn after_records(s: ConverterView, records: Seq<TakenRecord>) -> ConverterView
    decreases records.len(),
{
    if records.len() == 0 {
        s
    } else {
        after_records(s, records.drop_last()).after_taken(records.last())
    }
}

/// A record that is taken keeps the state valid, and takes nothing away from the profile.
proof fn lemma_taken_grows(s: ConverterView, r: TakenRecord)
    requires
        s.valid(),
    ensures
        s.after_taken(r).valid(),
        profile_grew(s.profile, s.after_taken(r).profile),
{
    law_record_keeps_valid(s, r.role, r.record, r.timestamp, r.unwound);
    law_profile_only_grows(s, r.role, r.record, r.timestamp, r.unwound);
    let after = s.after_record(r.role, r.record, r.timestamp, r.unwound);
    match s.record_result(r.role, r.record, r.unwound) {
        Ok(OutcomeView::Load { pid, mapping }) => {
            match r.file {
                MappedFile::Missing => law_load_only_grows(after, pid, mapping.module(None)),
                MappedFile::Unmappable => {},
                MappedFile::Bytes(bytes) => law_load_only_grows(
                    after,
                    pid,
                    mapping.module(Some(bytes)),
                ),
            }
            if r.file !is Unmappable {
                lemma_grew_twice(s.profile, after.profile, s.after_taken(r).profile);
            }
        },
        _ => {},
    }
}

/// However many records are taken, the state stays valid and the profile loses nothing that it
/// lists.
pub proof fn law_recording_only_grows(s: ConverterView, records: Seq<TakenRecord>)
    requires
        s.valid(),
    ensures
        after_records(s, records).valid(),
        profile_grew(s.profile, after_records(s, records).profile),
    decreases records.len(),
{
    if records.len() == 0 {
        reveal(profile_grew);
    } else {
        let before = after_records(s, records.drop_last());
        law_recording_only_grows(s, records.drop_last());
        lemma_taken_grows(before, records.last());
        lemma_grew_twice(s.profile, before.profile, after_records(s, records).profile);
    }
}

/// Taking some records and then others is taking all of them.
pub proof fn law_runs_compose(s: ConverterView, a: Seq<TakenRecord>, b: Seq<TakenRecord>)
    ensures
        after_records(s, a + b) == after_records(after_records(s, a), b),
    decreases b.len(),
{
    if b.len() == 0 {
        assert(a + b =~= a);
    } else {
        assert((a + b).drop_last() =~= a + b.drop_last());
        law_runs_compose(s, a, b.drop_last());
    }
}

/// What reading came to, with what unwinding makes of the record and the file that it has
/// loaded.
pub struct Read {
    pub reading: ReadingView,
    pub unwound: Option<UnwoundStack>,
    pub file: MappedFile,
}

impl Read {
    /// The record that is taken, where one is.
    pub open spec fn taken(self, interpretation: EventInterpretation) -> Option<TakenRecord> {
        match self.reading.step() {
            StepView::Take { attr_index, record, timestamp } => Some(
                TakenRecord {
                    role: interpretation.role(attr_index),
                    record,
                    timestamp,
                    unwound: self.unwound,
                    file: self.file,
                },
            ),
            _ => None,
        }
    }

    /// Whether the recording goes on.
    pub open spec fn goes_on(self) -> bool {
        self.reading.step() is Take || self.reading.step() is Skip
    }

    /// Whether this is a record that is passed over: it cannot be parsed, it is a context
    /// switch whose common data cannot be read, or it is of a kind that takes no part in a
    /// conversion.
    pub open spec fn is_passed_over(self) -> bool {
        match self.reading.step() {
            StepView::Skip => true,
            StepView::Take { record: RecordView::ContextSwitch(_, None), .. } => true,
            StepView::Take { record: RecordView::Other, .. } => true,
            _ => false,
        }
    }
}

/// The state after a recording was read: each record is converted as it comes, until the first
/// reading after which the recording does not go on.
pub open spec fn after_reads(
    s: ConverterView,
    interpretation: EventInterpretation,
    reads: Seq<Read>,
) -> ConverterView
    decreases reads.len(),
{
    if reads.len() == 0 || !reads[0].goes_on() {
        s
    } else {
        let next = match reads[0].taken(interpretation) {
            Some(r) => s.after_taken(r),
            None => s,
        };
        after_reads(next, interpretation, reads.drop_first())
    }
}

/// The records that are taken, in the order in which they come.
pub open spec fn taken_records(
    interpretation: EventInterpretation,
    reads: Seq<Read>,
) -> Seq<TakenRecord>
    decreases reads.len(),
{
    if reads.len() == 0 || !reads[0].goes_on() {
        Seq::empty()
    } else {
        let later = taken_records(interpretation, reads.drop_first());
        match reads[0].taken(interpretation) {
            Some(r) => seq![r] + later,
            None => later,
        }
    }
}

/// A conversion takes the records in the order in which they come, whatever their timestamps,
/// up to where the recording ends or cannot be read.
pub proof fn law_conversion_follows_the_recording(
    s: ConverterView,
    interpretation: EventInterpretation,
    reads: Seq<Read>,
)
    ensures
        after_reads(s, interpretation, reads) == after_records(
            s,
            taken_records(interpretation, reads),
        ),
    decreases reads.len(),
{
    if reads.len() > 0 && reads[0].goes_on() {
        let later = taken_records(interpretation, reads.drop_first());
        match reads[0].taken(interpretation) {
            Some(r) => {
                law_conversion_follows_the_recording(
                    s.after_taken(r),
                    interpretation,
                    reads.drop_first(),
                );
                law_runs_compose(s, seq![r], later);
                assert(seq![r].drop_last() =~= Seq::empty());
                assert(after_records(s, seq![r].drop_last()) == s);
                assert(after_records(s, seq![r]) == s.after_taken(r));
            },
            None => {
                law_conversion_follows_the_recording(s, interpretation, reads.drop_first());
            },
        }
    }
}

/// Where the recording ends or cannot be read, what was converted so far stands, whatever
/// would come later.
pub proof fn law_failed_read_keeps_what_was_converted(
    s: ConverterView,
    interpretation: EventInterpretation,
    reads: Seq<Read>,
    stop: Read,
    later: Seq<Read>,
)
    requires
        stop.reading is End || stop.reading is Failed,
    ensures
        after_reads(s, interpretation, reads + seq![stop] + later) == after_reads(
            s,
            interpretation,
            reads,
        ),
    decreases reads.len(),
{
    let all = reads + seq![stop] + later;
    if reads.len() == 0 {
        assert(all[0] == stop);
    } else {
        assert(all[0] == reads[0]);
        assert(all.drop_first() =~= reads.drop_first() + seq![stop] + later);
        let next = match reads[0].taken(interpretation) {
            Some(r) => s.after_taken(r),
            None => s,
        };
        law_failed_read_keeps_what_was_converted(
            next,
            interpretation,
            reads.drop_first(),
            stop,
            later,
        );
    }
}

/// Reading some records and then others is reading all of them.
pub proof fn law_reads_compose(
    s: ConverterView,
    interpretation: EventInterpretation,
    a: Seq<Read>,
    b: Seq<Read>,
)
    requires
        forall|i: int| 0 <= i < a.len() ==> (#[trigger] a[i]).goes_on(),
    ensures
        after_reads(s, interpretation, a + b) == after_reads(
            after_reads(s, interpretation, a),
            interpretation,
            b,
        ),
    decreases a.len(),
{
    if a.len() == 0 {
        assert(a + b =~= b);
    } else {
        assert((a + b)[0] == a[0]);
        assert((a + b).drop_first() =~= a.drop_first() + b);
        let next = match a[0].taken(interpretation) {
            Some(r) => s.after_taken(r),
            None => s,
        };
        assert forall|i: int| 0 <= i < a.drop_first().len() implies (
        #[trigger] a.drop_first()[i]).goes_on() by {
            assert(a[i + 1].goes_on());
        }
        law_reads_compose(next, interpretation, a.drop_first(), b);
    }
}

/// A recording comes to the same without the records that are passed over.
pub proof fn law_passed_over_records_leave_no_trace(
    s: ConverterView,
    interpretation: EventInterpretation,
    reads: Seq<Read>,
)
    ensures
        after_reads(s, interpretation, reads) == after_reads(
            s,
            interpretation,
            reads.filter(|read: Read| !read.is_passed_over()),
        ),
    decreases reads.len(),
{
    let keep = |read: Read| !read.is_passed_over();
    reveal(Seq::filter);
    if reads.len() == 0 {
        assert(reads.filter(keep) =~= reads);
    } else {
        let first = seq![reads[0]];
        let later = reads.drop_first();
        assert(reads =~= first + later);
        Seq::filter_distributes_over_add(first, later, keep);
        assert(first.drop_last() =~= Seq::empty());
        assert(first.drop_last().filter(keep) =~= Seq::empty());
        let next = match reads[0].taken(interpretation) {
            Some(r) => s.after_taken(r),
            None => s,
        };
        law_passed_over_records_leave_no_trace(next, interpretation, later);
        if reads[0].is_passed_over() {
            assert(first.filter(keep) =~= Seq::empty());
            assert(reads.filter(keep) =~= later.filter(keep));
            assert(next == s);
        } else {
            assert(first.filter(keep) =~= first);
            assert(reads.filter(keep)[0] == reads[0]);
            assert(reads.filter(keep).drop_first() =~= later.filter(keep));
        }
    }
}

/// Unwinding a sample makes its process known before the sample is taken. That changes nothing
/// of what the sample comes to.
pub proof fn law_unwinding_first_changes_nothing(
    s: ConverterView,
    role: SampleRole,
    record: RecordView,
    timestamp: Option<u64>,
    unwound: Option<UnwoundStack>,
    pid: i32,
)
    requires
        s.valid(),
        record matches RecordView::Sample(e) && e.pid == Some(pid),
        role != SampleRole::Unused,
        s.record_result(role, record, unwound) is Ok,
    ensures
        s.with_process(pid).record_result(role, record, unwound) == s.record_result(
            role,
            record,
            unwound,
        ),
        s.with_process(pid).after_record(role, record, timestamp, unwound) == s.after_record(
            role,
            record,
            timestamp,
            unwound,
        ),
{
}

/// The CPU time, in nanoseconds, that a record accounts for of a thread: a sample of the main
/// event, or the switch that ends a time of running.
pub open spec fn cpu_nanos_of(s: ConverterView, tid: i32, r: TakenRecord) -> int {
    if record_tid(r.record) != Some(tid) || s.record_result(r.role, r.record, r.unwound) is Err {
        0
    } else {
        match r.record {
            RecordView::Sample(e) if r.role == SampleRole::Main => s.cpu_delta_nanos(
                s.with_thread_of(e.pid->0, tid).threads[tid],
                e,
            ) as int,
            RecordView::ContextSwitch(ContextSwitchRecord::Out, Some(common)) =>
                match s.with_thread_of(common.pid->0, tid).threads[tid].state {
                ThreadState::On { last_observed_on_timestamp } => common.timestamp->0
                    - last_observed_on_timestamp,
                _ => 0,
            },
            _ => 0,
        }
    }
}

/// The CPU time, in nanoseconds, that records account for of a thread.
pub open spec fn cpu_nanos(s: ConverterView, tid: i32, records: Seq<TakenRecord>) -> int
    decreases records.len(),
{
    if records.len() == 0 {
        0
    } else {
        cpu_nanos(s, tid, records.drop_last()) + cpu_nanos_of(
            after_records(s, records.drop_last()),
            tid,
            records.last(),
        )
    }
}

/// The CPU time that records account for is that of the first and that of the others.
proof fn lemma_cpu_nanos_compose(
    s: ConverterView,
    tid: i32,
    a: Seq<TakenRecord>,
    b: Seq<TakenRecord>,
)
    ensures
        cpu_nanos(s, tid, a + b) == cpu_nanos(s, tid, a) + cpu_nanos(after_records(s, a), tid, b),
    decreases b.len(),
{
    if b.len() == 0 {
        assert(a + b =~= a);
    } else {
        assert((a + b).drop_last() =~= a + b.drop_last());
        lemma_cpu_nanos_compose(s, tid, a, b.drop_last());
        law_runs_compose(s, a, b.drop_last());
    }
}

/// What a record accounts for is the CPU time of the sample that it adds to its thread, where
/// that is kept in whole microseconds.
pub proof fn law_cpu_time_is_kept(s: ConverterView, tid: i32, r: TakenRecord)
    requires
        s.valid(),
        cpu_nanos_of(s, tid, r) > 0,
    ensures
        ({
            let after = s.after_taken(r);
            let samples = after.profile.threads[after.threads[tid].index as int].samples;
            &&& after.threads.contains_key(tid)
            &&& samples.len() > 0
            &&& samples.last().cpu_delta_micros == cpu_nanos_of(s, tid, r) / 1000
        }),
{
    match r.record {
        RecordView::Sample(e) => {
            lemma_with_thread_of_valid(s, e.pid->0, tid);
            lemma_valid(s.with_thread_of(e.pid->0, tid));
        },
        RecordView::ContextSwitch(_, Some(common)) => {
            lemma_with_thread_of_valid(s, common.pid->0, tid);
            lemma_valid(s.with_thread_of(common.pid->0, tid));
        },
        _ => {},
    }
}

/// Whether a record leaves a running thread running: it is about another thread, or it is a
/// sample, a start, or a name that does not come from executing another program.
pub open spec fn leaves_running(r: TakenRecord, tid: i32) -> bool {
    ||| record_tid(r.record) != Some(tid)
    ||| r.record is Sample
    ||| r.record is Fork
    ||| (r.record matches RecordView::Comm(e) && !e.is_execve)
}

/// Whether a thread is running, and was last seen so at this time.
pub open spec fn is_running(s: ConverterView, tid: i32, last: u64) -> bool {
    &&& s.threads.contains_key(tid)
    &&& s.threads[tid].state == (ThreadState::On { last_observed_on_timestamp: last })
}

/// A record that leaves a running thread running accounts for the time since it was last seen
/// running, and does not change how CPU times are found.
proof fn lemma_leaves_running(s: ConverterView, tid: i32, last: u64, r: TakenRecord) -> (seen: u64)
    requires
        s.valid(),
        s.have_time_based_cpu_deltas,
        is_running(s, tid, last),
        leaves_running(r, tid),
    ensures
        s.after_taken(r).have_time_based_cpu_deltas,
        is_running(s.after_taken(r), tid, seen),
        cpu_nanos_of(s, tid, r) == seen - last,
{
    let after = s.after_record(r.role, r.record, r.timestamp, r.unwound);
    if record_tid(r.record) != Some(tid) {
        law_other_threads_are_untouched(s, r.role, r.record, r.timestamp, r.unwound, tid);
        last
    } else {
        match r.record {
            RecordView::Sample(e) => {
                if r.role == SampleRole::Main && s.sample_error(e, r.unwound) is None {
                    e.timestamp->0
                } else {
                    last
                }
            },
            _ => last,
        }
    }
}

/// The records that leave a running thread running together account for the time from when it
/// was last seen running before them to when it was last seen running among them.
proof fn lemma_running_time(s: ConverterView, tid: i32, last: u64, records: Seq<TakenRecord>) -> (
    seen: u64)
    requires
        s.valid(),
        s.have_time_based_cpu_deltas,
        is_running(s, tid, last),
        forall|i: int| 0 <= i < records.len() ==> leaves_running(#[trigger] records[i], tid),
    ensures
        after_records(s, records).valid(),
        after_records(s, records).have_time_based_cpu_deltas,
        is_running(after_records(s, records), tid, seen),
        cpu_nanos(s, tid, records) == seen - last,
    decreases records.len(),
{
    if records.len() == 0 {
        last
    } else {
        let earlier = records.drop_last();
        assert forall|i: int| 0 <= i < earlier.len() implies leaves_running(
            #[trigger] earlier[i],
            tid,
        ) by {
            assert(leaves_running(records[i], tid));
        }
        let before = lemma_running_time(s, tid, last, earlier);
        lemma_taken_grows(after_records(s, earlier), records.last());
        assert(leaves_running(records[records.len() - 1], tid));
        lemma_leaves_running(after_records(s, earlier), tid, before, records.last())
    }
}

/// Where context switches are recorded, the samples of a thread between a switch in and the
/// next switch out, together with that which is added when it is switched out, account for
/// exactly the time that it was running. Records of other threads may come in between.
pub proof fn law_cpu_time_adds_up(
    s: ConverterView,
    tid: i32,
    switch_in: TakenRecord,
    came: CommonData,
    between: Seq<TakenRecord>,
    switch_out: TakenRecord,
    went: CommonData,
)
    requires
        s.valid(),
        s.have_time_based_cpu_deltas,
        came.tid == Some(tid),
        went.tid == Some(tid),
        switch_in.record == RecordView::ContextSwitch(ContextSwitchRecord::In, Some(came)),
        switch_out.record == RecordView::ContextSwitch(ContextSwitchRecord::Out, Some(went)),
        s.record_result(switch_in.role, switch_in.record, switch_in.unwound) is Ok,
        !(s.with_thread_of(came.pid->0, tid).threads[tid].state is On),
        forall|i: int| 0 <= i < between.len() ==> leaves_running(#[trigger] between[i], tid),
        after_records(s, seq![switch_in] + between).record_result(
            switch_out.role,
            switch_out.record,
            switch_out.unwound,
        ) is Ok,
    ensures
        cpu_nanos(s, tid, seq![switch_in] + between + seq![switch_out]) == went.timestamp->0
            - came.timestamp->0,
{
    let running = s.after_taken(switch_in);
    let first = seq![switch_in];
    assert(first.drop_last() =~= Seq::empty());
    assert(after_records(s, first.drop_last()) == s);
    assert(after_records(s, first) == running);
    assert(cpu_nanos(s, tid, first.drop_last()) == 0);
    assert(cpu_nanos(s, tid, first) == 0);
    lemma_taken_grows(s, switch_in);
    assert(is_running(running, tid, came.timestamp->0));
    let seen = lemma_running_time(running, tid, came.timestamp->0, between);
    law_runs_compose(s, first, between);
    lemma_cpu_nanos_compose(s, tid, first, between);
    let all = first + between + seq![switch_out];
    assert(all.drop_last() =~= first + between);
    let before = after_records(s, first + between);
    assert(is_running(before, tid, seen));
    assert(before.with_thread_of(went.pid->0, tid).threads[tid] == before.threads[tid]);
}

} // verus!
