//! What the attributes of a recording say of its events.

use vstd::prelude::*;
use crate::text::same_text;

verus! {

/// The flag of an event whose context switches are recorded.
pub const ATTR_FLAG_BIT_CONTEXT_SWITCH: u64 = 0x0400_0000;

/// What a software event counts, as far as a conversion tells it apart.
#[derive(Debug, Clone, Copy, PartialEq, Eq, Structural)]
pub enum SoftwareCounterType {
    CpuClock,
    TaskClock,
    Other,
}

/// The type of an event, as far as a conversion tells it apart.
#[derive(Debug, Clone, Copy, PartialEq, Eq, Structural)]
pub enum PerfEventType {
    Software(SoftwareCounterType),
    Other,
}

/// When an event is sampled.
#[derive(Debug, Clone, Copy, PartialEq, Eq, Structural)]
pub enum SamplingPolicy {
    /// The event is counted, not sampled.
    NoSampling,
    /// After so many events.
    Period(u64),
    /// So many times a second.
    Frequency(u64),
}

/// An event that was recorded.
#[derive(Debug, PartialEq, Eq)]
pub struct AttributeDescription {
    pub name: Option<String>,
    pub type_: PerfEventType,
    pub sampling_policy: SamplingPolicy,
    pub flags: u64,
}

impl AttributeDescription {
    /// Whether this is the event that is sampled when threads are switched.
    pub open spec fn is_sched_switch(self) -> bool {
        self.name is Some && self.name->0@ == "sched:sched_switch"@
    }

    /// Whether samples of this event come after a given time, and after how many nanoseconds.
    /// A period of a clock event is taken to be in nanoseconds.
    pub open spec fn sampling_nanos(self) -> Option<u64> {
        match self.sampling_policy {
            SamplingPolicy::NoSampling => None,
            SamplingPolicy::Frequency(frequency) => Some(1_000_000_000u64 / frequency),
            SamplingPolicy::Period(period) => if self.type_ == PerfEventType::Software(
                SoftwareCounterType::CpuClock,
            ) || self.type_ == PerfEventType::Software(SoftwareCounterType::TaskClock) {
                Some(period)
            } else {
                None
            },
        }
    }

    /// Whether a conversion can take this as its main event: it is sampled, and if it is
    /// sampled so many times a second, then more than zero times.
    pub open spec fn can_be_main(self) -> bool {
        &&& self.sampling_policy != SamplingPolicy::NoSampling
        &&& self.sampling_policy != SamplingPolicy::Frequency(0)
    }

    /// Tests whether a conversion can take this as its main event.
    pub fn is_sampled(&self) -> (result: bool)
        ensures
            result == self.can_be_main(),
    {
        match self.sampling_policy {
            SamplingPolicy::NoSampling => false,
            SamplingPolicy::Frequency(frequency) => frequency != 0,
            SamplingPolicy::Period(_) => true,
        }
    }
}

/// Whether this is the place of the first event that is sampled when threads are switched,
/// or there is no such event.
pub open spec fn is_first_sched_switch(
    attrs: Seq<AttributeDescription>,
    index: Option<usize>,
) -> bool {
    match index {
        Some(index) => {
            &&& index < attrs.len()
            &&& attrs[index as int].is_sched_switch()
            &&& forall|i: int| 0 <= i < index ==> !(#[trigger] attrs[i]).is_sched_switch()
        },
        None => forall|i: int|
            0 <= i < attrs.len() ==> !(#[trigger] attrs[i]).is_sched_switch(),
    }
}

/// What samples are for.
#[derive(Debug, Clone, Copy, PartialEq, Eq, Structural)]
pub enum SampleRole {
    /// The sample belongs into the profile.
    Main,
    /// The sample shows the stack with which a thread is being switched out.
    SchedSwitch,
    /// The sample is of no use.
    Unused,
}

/// What the events of a recording are for.
#[derive(Debug, PartialEq, Eq)]
pub struct EventInterpretation {
    pub main_event_attr_index: usize,
    pub main_event_name: String,
    /// After how many nanoseconds a sample is taken, where that is what decides.
    pub sampling_is_time_based: Option<u64>,
    /// Whether context switches tell how long threads were running.
    pub have_time_based_cpu_deltas: bool,
    pub sched_switch_attr_index: Option<usize>,
}

impl EventInterpretation {
    /// Whether this is what the attributes of a recording say of its events.
    pub open spec fn interprets(self, attrs: Seq<AttributeDescription>) -> bool {
        &&& self.main_event_attr_index == 0
        &&& self.main_event_name@ == match attrs[0].name {
            Some(name) => name@,
            None => "<unnamed event>"@,
        }
        &&& self.sampling_is_time_based == attrs[0].sampling_nanos()
        &&& self.have_time_based_cpu_deltas == (attrs[0].flags & ATTR_FLAG_BIT_CONTEXT_SWITCH != 0)
        &&& is_first_sched_switch(attrs, self.sched_switch_attr_index)
    }

    /// Tells from the attributes of a recording what its events are for. The first event
    /// is the main one.
    pub fn divine_from_attrs(attrs: &[AttributeDescription]) -> (interpretation:
        EventInterpretation)
        requires
            attrs@.len() > 0,
            attrs@[0].can_be_main(),
        ensures
            interpretation.interprets(attrs@),
            interpretation.main_event_attr_index == 0,
            interpretation.main_event_name@ == match attrs@[0].name {
                Some(name) => name@,
                None => "<unnamed event>"@,
            },
            interpretation.sampling_is_time_based == attrs@[0].sampling_nanos(),
            interpretation.have_time_based_cpu_deltas == (attrs@[0].flags
                & ATTR_FLAG_BIT_CONTEXT_SWITCH != 0),
            is_first_sched_switch(attrs@, interpretation.sched_switch_attr_index),
    {
        let main: &AttributeDescription = &attrs[0];
        let main_event_name: String = match &main.name {
            Some(name) => name.clone(),
            None => "<unnamed event>".to_owned(),
        };
        let sampling_is_time_based: Option<u64> = match (main.type_, main.sampling_policy) {
            (_, SamplingPolicy::NoSampling) => None,
            (_, SamplingPolicy::Frequency(frequency)) => Some(1_000_000_000 / frequency),
            (
                PerfEventType::Software(
                    SoftwareCounterType::CpuClock | SoftwareCounterType::TaskClock,
                ),
                SamplingPolicy::Period(period),
            ) => Some(period),
            (_, SamplingPolicy::Period(_)) => None,
        };
        let have_time_based_cpu_deltas: bool = main.flags & ATTR_FLAG_BIT_CONTEXT_SWITCH != 0;

        let mut sched_switch_attr_index: Option<usize> = None;
        let mut i: usize = 0;
        while i < attrs.len() && sched_switch_attr_index.is_none()
            invariant
                i <= attrs@.len(),
                sched_switch_attr_index is None ==> forall|j: int|
                    0 <= j < i ==> !(#[trigger] attrs@[j]).is_sched_switch(),
                sched_switch_attr_index is Some ==> is_first_sched_switch(
                    attrs@,
                    sched_switch_attr_index,
                ),
            decreases attrs@.len() - i,
        {
            if let Some(name) = &attrs[i].name {
                if same_text(name.as_str(), "sched:sched_switch") {
                    sched_switch_attr_index = Some(i);
                }
            }
            i = i + 1;
        }

        EventInterpretation {
            main_event_attr_index: 0,
            main_event_name,
            sampling_is_time_based,
            have_time_based_cpu_deltas,
            sched_switch_attr_index,
        }
    }

    /// What the samples of an event are for.
    pub open spec fn role(self, attr_index: usize) -> SampleRole {
        if attr_index == self.main_event_attr_index {
            SampleRole::Main
        } else if self.sched_switch_attr_index == Some(attr_index) {
            SampleRole::SchedSwitch
        } else {
            SampleRole::Unused
        }
    }

    /// Tells what the samples of an event are for.
    pub fn sample_role(&self, attr_index: usize) -> (role: SampleRole)
        ensures
            role == self.role(attr_index),
    {
        if attr_index == self.main_event_attr_index {
            return SampleRole::Main;
        }
        match self.sched_switch_attr_index {
            Some(index) if index == attr_index => SampleRole::SchedSwitch,
            _ => SampleRole::Unused,
        }
    }
}

/// Whether this is what noting a timestamp comes to: the timestamp that is noted then, and that
/// of an earlier record where that is later.
pub open spec fn is_noted(
    before: u64,
    timestamp: Option<u64>,
    after: u64,
    disorder: Option<u64>,
) -> bool {
    match timestamp {
        Some(timestamp) => after == timestamp && disorder == if timestamp < before {
            Some(before)
        } else {
            None
        },
        None => after == before && disorder is None,
    }
}

/// Notes the timestamp of a record. Gives the timestamp of an earlier record where that
/// is later than this one.
pub fn note_timestamp(last_timestamp: &mut u64, timestamp: Option<u64>) -> (disorder: Option<u64>)
    ensures
        is_noted(*old(last_timestamp), timestamp, *final(last_timestamp), disorder),
        *final(last_timestamp) == match timestamp {
            Some(timestamp) => timestamp,
            None => *old(last_timestamp),
        },
        disorder == if timestamp is Some && timestamp->0 < *old(last_timestamp) {
            Some(*old(last_timestamp))
        } else {
            None
        },
{
    match timestamp {
        Some(timestamp) => {
            let last: u64 = *last_timestamp;
            *last_timestamp = timestamp;
            if timestamp < last {
                Some(last)
            } else {
                None
            }
        },
        None => None,
    }
}

} // verus!
