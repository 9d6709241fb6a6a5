//! What the attributes of a recording say of its events.

use linux_perf_event_reader::AttrFlags;
use perf_convert::events::{
    note_timestamp, AttributeDescription, EventInterpretation, PerfEventType, SampleRole,
    SamplingPolicy, SoftwareCounterType, ATTR_FLAG_BIT_CONTEXT_SWITCH,
};

fn attr(
    name: Option<&str>,
    type_: PerfEventType,
    sampling_policy: SamplingPolicy,
    flags: u64,
) -> AttributeDescription {
    AttributeDescription { name: name.map(|name| name.to_string()), type_, sampling_policy, flags }
}

fn interval(type_: PerfEventType, sampling_policy: SamplingPolicy) -> Option<u64> {
    EventInterpretation::divine_from_attrs(&[attr(None, type_, sampling_policy, 0)])
        .sampling_is_time_based
}

#[test]
fn flag_is_that_of_the_reader() {
    assert_eq!(ATTR_FLAG_BIT_CONTEXT_SWITCH, AttrFlags::CONTEXT_SWITCH.bits());
}

#[test]
fn interval_comes_from_the_sampling_policy() {
    let cpu_clock = PerfEventType::Software(SoftwareCounterType::CpuClock);
    let task_clock = PerfEventType::Software(SoftwareCounterType::TaskClock);
    let page_faults = PerfEventType::Software(SoftwareCounterType::Other);
    assert_eq!(interval(PerfEventType::Other, SamplingPolicy::Frequency(4000)), Some(250_000));
    assert_eq!(interval(cpu_clock, SamplingPolicy::Frequency(999)), Some(1_001_001));
    assert_eq!(interval(cpu_clock, SamplingPolicy::Period(1_000_000)), Some(1_000_000));
    assert_eq!(interval(task_clock, SamplingPolicy::Period(7)), Some(7));
    assert_eq!(interval(page_faults, SamplingPolicy::Period(7)), None);
    assert_eq!(interval(PerfEventType::Other, SamplingPolicy::Period(7)), None);
    assert_eq!(interval(PerfEventType::Other, SamplingPolicy::Frequency(2_000_000_000)), Some(0));
}

#[test]
fn main_event_must_be_sampled() {
    let counted = attr(None, PerfEventType::Other, SamplingPolicy::NoSampling, 0);
    let never = attr(None, PerfEventType::Other, SamplingPolicy::Frequency(0), 0);
    let often = attr(None, PerfEventType::Other, SamplingPolicy::Frequency(1), 0);
    let period = attr(None, PerfEventType::Other, SamplingPolicy::Period(0), 0);
    assert!(!counted.is_sampled());
    assert!(!never.is_sampled());
    assert!(often.is_sampled());
    assert!(period.is_sampled());
}

#[test]
fn first_event_is_the_main_one() {
    let attrs = [
        attr(
            Some("cycles"),
            PerfEventType::Other,
            SamplingPolicy::Frequency(1000),
            ATTR_FLAG_BIT_CONTEXT_SWITCH | 1,
        ),
        attr(Some("other"), PerfEventType::Other, SamplingPolicy::NoSampling, 0),
        attr(Some("sched:sched_switch"), PerfEventType::Other, SamplingPolicy::Period(1), 0),
        attr(Some("sched:sched_switch"), PerfEventType::Other, SamplingPolicy::Period(1), 0),
    ];
    let interpretation = EventInterpretation::divine_from_attrs(&attrs);
    assert_eq!(interpretation.main_event_attr_index, 0);
    assert_eq!(interpretation.main_event_name, "cycles");
    assert!(interpretation.have_time_based_cpu_deltas);
    assert_eq!(interpretation.sched_switch_attr_index, Some(2));
    assert_eq!(interpretation.sample_role(0), SampleRole::Main);
    assert_eq!(interpretation.sample_role(1), SampleRole::Unused);
    assert_eq!(interpretation.sample_role(2), SampleRole::SchedSwitch);
    assert_eq!(interpretation.sample_role(3), SampleRole::Unused);
}

#[test]
fn main_event_can_be_the_switch_event() {
    let attrs =
        [attr(Some("sched:sched_switch"), PerfEventType::Other, SamplingPolicy::Period(1), 0)];
    let interpretation = EventInterpretation::divine_from_attrs(&attrs);
    assert_eq!(interpretation.sched_switch_attr_index, Some(0));
    assert_eq!(interpretation.sample_role(0), SampleRole::Main);
}

#[test]
fn unnamed_event_without_switches() {
    let attrs = [attr(None, PerfEventType::Other, SamplingPolicy::Period(1), 1)];
    let interpretation = EventInterpretation::divine_from_attrs(&attrs);
    assert_eq!(interpretation.main_event_name, "<unnamed event>");
    assert!(!interpretation.have_time_based_cpu_deltas);
    assert_eq!(interpretation.sched_switch_attr_index, None);
}

#[test]
fn earlier_timestamps_are_noticed() {
    let mut last = 0;
    assert_eq!(note_timestamp(&mut last, Some(10)), None);
    assert_eq!(note_timestamp(&mut last, None), None);
    assert_eq!(last, 10);
    assert_eq!(note_timestamp(&mut last, Some(10)), None);
    assert_eq!(note_timestamp(&mut last, Some(4)), Some(10));
    assert_eq!(last, 4);
}
