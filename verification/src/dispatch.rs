//! What is done with each record of a recording.

use vstd::prelude::*;
use crate::converter::{mapping_result, Converter};
use crate::events::{EventInterpretation, SampleRole};
use crate::module::{Mapping, MappingView};
use crate::records::{Record, RecordView, SampleRecord, SampleRecordView};
use crate::stack::UnwoundStack;
use crate::state::{ConverterView, EventError, MmapError};

verus! {

/// What is left to do after a record was taken.
#[derive(Debug, PartialEq, Eq)]
pub enum Outcome {
    /// Nothing.
    Done,
    /// The mapping is to be loaded into the process.
    Load { pid: i32, mapping: Mapping },
    /// A thread was switched out that had been switched out before. This can be reported.
    DoubleSwitchOut { tid: i32, first: u64, again: u64 },
}

/// What an `Outcome` says.
#[verifier::ext_equal]
pub enum OutcomeView {
    Done,
    Load { pid: i32, mapping: MappingView },
    DoubleSwitchOut { tid: i32, first: u64, again: u64 },
}

impl View for Outcome {
    type V = OutcomeView;

    open spec fn view(&self) -> OutcomeView {
        match self {
            Outcome::Done => OutcomeView::Done,
            Outcome::Load { pid, mapping } => OutcomeView::Load { pid: *pid, mapping: mapping@ },
            Outcome::DoubleSwitchOut { tid, first, again } => OutcomeView::DoubleSwitchOut {
                tid: *tid,
                first: *first,
                again: *again,
            },
        }
    }
}

/// Why a record cannot be converted.
#[derive(Debug, Clone, Copy, PartialEq, Eq, Structural)]
pub enum RecordError {
    Event(EventError),
    Mmap(MmapError),
}

/// What an outcome or an error says.
pub open spec fn record_result(result: Result<Outcome, RecordError>) -> Result<
    OutcomeView,
    RecordError,
> {
    match result {
        Ok(outcome) => Ok(outcome@),
        Err(error) => Err(error),
    }
}

/// What is left to do after a mapping.
pub open spec fn mmap_outcome(pid: i32, result: Result<Option<MappingView>, MmapError>) -> Result<
    OutcomeView,
    RecordError,
> {
    match result {
        Ok(Some(mapping)) => Ok(OutcomeView::Load { pid, mapping }),
        Ok(None) => Ok(OutcomeView::Done),
        Err(error) => Err(RecordError::Mmap(error)),
    }
}

impl ConverterView {
    /// Why a sample cannot be converted, given what it is for. One that shows the stack of a
    /// switch needs no timestamp, and nothing is asked of one that is not used.
    pub open spec fn used_sample_error(
        self,
        role: SampleRole,
        e: SampleRecordView,
        unwound: Option<UnwoundStack>,
    ) -> Option<EventError> {
        match role {
            SampleRole::Main => self.sample_error(e, unwound),
            SampleRole::SchedSwitch => if e.pid is None {
                Some(EventError::MissingPid)
            } else if e.tid is None {
                Some(EventError::MissingTid)
            } else {
                None
            },
            SampleRole::Unused => None,
        }
    }

    /// What is left to do after a record, or why it cannot be converted. The role is that
    /// of the samples of the event which the record is of.
    pub open spec fn record_result(
        self,
        role: SampleRole,
        record: RecordView,
        unwound: Option<UnwoundStack>,
    ) -> Result<OutcomeView, RecordError> {
        match record {
            RecordView::Sample(e) => match self.used_sample_error(role, e, unwound) {
                Some(error) => Err(RecordError::Event(error)),
                None => Ok(OutcomeView::Done),
            },
            RecordView::ContextSwitch(e, Some(common)) => match self.switch_error(
                e,
                common.pid,
                common.tid,
                common.timestamp,
            ) {
                Some(error) => Err(RecordError::Event(error)),
                None => match self.double_switch_out(e, common.pid->0, common.tid->0) {
                    Some(first) => Ok(
                        OutcomeView::DoubleSwitchOut {
                            tid: common.tid->0,
                            first,
                            again: common.timestamp->0,
                        },
                    ),
                    None => Ok(OutcomeView::Done),
                },
            },
            RecordView::Mmap(e) => mmap_outcome(e.pid, self.mmap_result(e)),
            RecordView::Mmap2(e) => mmap_outcome(e.pid, self.mmap2_result(e)),
            _ => Ok(OutcomeView::Done),
        }
    }

    /// The state after a record. A sample or a context switch that cannot be converted
    /// changes nothing.
    pub open spec fn after_record(
        self,
        role: SampleRole,
        record: RecordView,
        timestamp: Option<u64>,
        unwound: Option<UnwoundStack>,
    ) -> ConverterView {
        match record {
            RecordView::Sample(e) => if self.used_sample_error(role, e, unwound) is Some {
                self
            } else {
                match role {
                    SampleRole::Main => self.after_sample(e, unwound),
                    SampleRole::SchedSwitch => self.after_sched_switch(e, unwound),
                    SampleRole::Unused => self,
                }
            },
            RecordView::Fork(e) => self.after_thread_start(e),
            RecordView::Exit(e) => self.after_thread_end(e),
            RecordView::Comm(e) => self.after_thread_name_update(e, timestamp),
            RecordView::Mmap(e) => self.after_mmap(e),
            RecordView::Mmap2(e) => self.after_mmap2(e),
            RecordView::ContextSwitch(e, Some(common)) => if self.switch_error(
                e,
                common.pid,
                common.tid,
                common.timestamp,
            ) is Some {
                self
            } else {
                self.after_context_switch(e, common.pid->0, common.tid->0, common.timestamp->0)
            },
            RecordView::ContextSwitch(_, None) => self,
            RecordView::Other => self,
        }
    }
}

/// Says what is left to do after a mapping.
fn outcome_of_mmap(pid: i32, result: Result<Option<Mapping>, MmapError>) -> (outcome: Result<
    Outcome,
    RecordError,
>)
    ensures
        record_result(outcome) == mmap_outcome(pid, mapping_result(result)),
{
    match result {
        Ok(Some(mapping)) => Ok(Outcome::Load { pid, mapping }),
        Ok(None) => Ok(Outcome::Done),
        Err(error) => Err(RecordError::Mmap(error)),
    }
}

impl<U: Default> Converter<U> {
    /// Takes a sample, given what it is for.
    fn handle_used_sample(
        &mut self,
        role: SampleRole,
        e: &SampleRecord,
        unwound: &Option<UnwoundStack>,
    ) -> (error: Option<EventError>)
        requires
            old(self).wf(),
            role != SampleRole::Unused ==> (unwound is Some <==> e@.can_unwind()),
        ensures
            final(self).wf(),
            final(self).keeps_unwinders(*old(self)),
            error == old(self)@.used_sample_error(role, e@, *unwound),
            final(self)@ == old(self)@.after_record(role, RecordView::Sample(e@), None, *unwound),
    {
        match role {
            SampleRole::Main => {
                let error: Option<EventError> = self.check_sample(e, unwound);
                if error.is_none() {
                    self.handle_sample(e, unwound);
                }
                error
            },
            SampleRole::SchedSwitch => {
                if e.pid.is_none() {
                    return Some(EventError::MissingPid);
                }
                if e.tid.is_none() {
                    return Some(EventError::MissingTid);
                }
                self.handle_sched_switch(e, unwound);
                None
            },
            SampleRole::Unused => None,
        }
    }

    /// Takes a record. `attr_index` is the number of the event that the record is of,
    /// `timestamp` that of the record where it has one, and `unwound` what unwinding made of
    /// the user stack of a sample that is used and holds what that takes.
    pub fn handle_record(
        &mut self,
        interpretation: &EventInterpretation,
        attr_index: usize,
        record: &Record,
        timestamp: Option<u64>,
        unwound: &Option<UnwoundStack>,
    ) -> (result: Result<Outcome, RecordError>)
        requires
            old(self).wf(),
            record matches Record::Sample(e) ==> interpretation.role(attr_index)
                != SampleRole::Unused ==> (unwound is Some <==> e@.can_unwind()),
        ensures
            final(self).wf(),
            final(self).keeps_unwinders(*old(self)),
            record_result(result) == old(self)@.record_result(
                interpretation.role(attr_index),
                record@,
                *unwound,
            ),
            final(self)@ == old(self)@.after_record(
                interpretation.role(attr_index),
                record@,
                timestamp,
                *unwound,
            ),
    {
        match record {
            Record::Sample(e) => {
                let role: SampleRole = interpretation.sample_role(attr_index);
                match self.handle_used_sample(role, e, unwound) {
                    Some(error) => Err(RecordError::Event(error)),
                    None => Ok(Outcome::Done),
                }
            },
            Record::Fork(e) => {
                self.handle_thread_start(*e);
                Ok(Outcome::Done)
            },
            Record::Exit(e) => {
                self.handle_thread_end(*e);
                Ok(Outcome::Done)
            },
            Record::Comm(e) => {
                self.handle_thread_name_update(e, timestamp);
                Ok(Outcome::Done)
            },
            Record::Mmap(e) => outcome_of_mmap(e.pid, self.handle_mmap(e)),
            Record::Mmap2(e) => outcome_of_mmap(e.pid, self.handle_mmap2(e)),
            Record::ContextSwitch(e, Some(common)) => {
                if let Some(error) = self.check_context_switch(*e, *common) {
                    return Err(RecordError::Event(error));
                }
                match self.handle_context_switch(*e, *common) {
                    Some(first) => Ok(
                        Outcome::DoubleSwitchOut {
                            tid: common.tid.unwrap(),
                            first,
                            again: common.timestamp.unwrap(),
                        },
                    ),
                    None => Ok(Outcome::Done),
                }
            },
            Record::ContextSwitch(_, None) => Ok(Outcome::Done),
            Record::Other => Ok(Outcome::Done),
        }
    }
}

} // verus!
