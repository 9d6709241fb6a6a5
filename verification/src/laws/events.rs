//! What the events of a recording are taken for.

use vstd::prelude::*;
use crate::events::{
    is_first_sched_switch, is_noted, AttributeDescription, EventInterpretation, PerfEventType,
    SampleRole, SamplingPolicy, SoftwareCounterType,
};

verus! {

/// An event that is sampled so many times a second is sampled after as many nanoseconds as fit
/// that often into a second. The period of a clock is in nanoseconds. No other event is sampled
/// by time.
pub proof fn law_sampling_interval(attr: AttributeDescription)
    requires
        attr.can_be_main(),
    ensures
        ({
            let is_clock = attr.type_ == PerfEventType::Software(SoftwareCounterType::CpuClock)
                || attr.type_ == PerfEventType::Software(SoftwareCounterType::TaskClock);
            match attr.sampling_policy {
                SamplingPolicy::NoSampling => false,
                SamplingPolicy::Frequency(frequency) => attr.sampling_nanos() matches Some(nanos)
                    && nanos * frequency <= 1_000_000_000 && 1_000_000_000 < nanos * frequency
                    + frequency,
                SamplingPolicy::Period(period) => attr.sampling_nanos() == if is_clock {
                    Some(period)
                } else {
                    None
                },
            }
        }),
{
    if let SamplingPolicy::Frequency(frequency) = attr.sampling_policy {
        let n = frequency as int;
        let q = 1_000_000_000int / n;
        vstd::arithmetic::div_mod::lemma_fundamental_div_mod(1_000_000_000, n);
        assert(q * n <= 1_000_000_000 < q * n + n) by (nonlinear_arith)
            requires
                1_000_000_000 == n * q + 1_000_000_000int % n,
                0 <= 1_000_000_000int % n < n,
        ;
    }
}

/// An event that is only counted, and one that is sampled zero times a second, cannot be the main
/// event. Every other can.
pub proof fn law_main_event_is_sampled(attr: AttributeDescription)
    ensures
        attr.can_be_main() <==> match attr.sampling_policy {
            SamplingPolicy::NoSampling => false,
            SamplingPolicy::Frequency(frequency) => frequency > 0,
            SamplingPolicy::Period(_) => true,
        },
{
}

/// The event that shows the stacks of switches is the first with the name of the tracepoint for
/// switches. There is only one such place, and there is one where an event has that name.
pub proof fn law_switch_event_is_the_first_of_its_name(
    attrs: Seq<AttributeDescription>,
    index: Option<usize>,
    i: int,
)
    requires
        is_first_sched_switch(attrs, index),
        0 <= i < attrs.len(),
    ensures
        attrs[i].name matches Some(name) && name@ == "sched:sched_switch"@ ==> index is Some
            && index->0 <= i,
        index == Some(i as usize) && i <= usize::MAX ==> (attrs[i].name matches Some(name) && name@
            == "sched:sched_switch"@),
        index matches Some(index) ==> index < attrs.len(),
{
}

/// A sample has the role of its event: the main event comes first, then that for switches, and
/// the samples of all others are of no use.
pub proof fn law_roles_follow_events(interpretation: EventInterpretation, attr_index: usize)
    ensures
        interpretation.role(attr_index) == SampleRole::Main <==> attr_index
            == interpretation.main_event_attr_index,
        interpretation.role(attr_index) == SampleRole::SchedSwitch <==> attr_index
            != interpretation.main_event_attr_index && interpretation.sched_switch_attr_index
            == Some(attr_index),
{
}

/// The first event of a recording is the main one, and bears its own name if it has one. Its
/// attributes tell whether samples come by time and whether context switches are recorded.
pub proof fn law_first_event_is_the_main_one(
    interpretation: EventInterpretation,
    attrs: Seq<AttributeDescription>,
)
    requires
        interpretation.interprets(attrs),
    ensures
        interpretation.role(0) == SampleRole::Main,
        attrs[0].name matches Some(name) ==> interpretation.main_event_name@ == name@,
        attrs[0].name is None ==> interpretation.main_event_name@ == "<unnamed event>"@,
        interpretation.sampling_is_time_based == attrs[0].sampling_nanos(),
        interpretation.have_time_based_cpu_deltas <==> attrs[0].flags & 0x0400_0000u64 != 0,
        is_first_sched_switch(attrs, interpretation.sched_switch_attr_index),
{
}

/// A timestamp is out of order where it is earlier than the one noted last, which is then given,
/// and nowhere else. Each timestamp takes the place of the one before.
pub proof fn law_disorder_is_noticed(
    before: u64,
    timestamp: Option<u64>,
    after: u64,
    disorder: Option<u64>,
)
    requires
        is_noted(before, timestamp, after, disorder),
    ensures
        timestamp is None ==> after == before && disorder is None,
        timestamp matches Some(timestamp) ==> after == timestamp,
        disorder is Some <==> after < before,
        disorder matches Some(later) ==> later == before,
{
}

} // verus!
