//! Whole conversions, judged by the profile that comes out.

use fxprof_processed_profile::ReferenceTimestamp;
use perf_convert::converter::Converter;
use perf_convert::dispatch::{Outcome, RecordError};
use perf_convert::events::EventInterpretation;
use perf_convert::ids::{BuildIds, DsoBuildId, DsoKey};
use perf_convert::module::{Mapping, Module, ModuleError};
use perf_convert::profile::{DebugId, Library};
use perf_convert::records::{
    CommOrExecRecord, CommonData, ContextSwitchRecord, CpuMode, ForkOrExitRecord, Mmap2FileId,
    Mmap2Record, MmapRecord, Record, Regs, SampleRecord,
};
use perf_convert::stack::{FrameAddress, UnwoundStack, PERF_CONTEXT_KERNEL, PERF_CONTEXT_USER};
use perf_convert::state::{EventError, MmapError};
use serde_json::Value;

const FIRST: u64 = 1_000_000_000;

fn interpretation(interval: Option<u64>, switches: bool) -> EventInterpretation {
    EventInterpretation {
        main_event_attr_index: 0,
        main_event_name: "cycles".to_string(),
        sampling_is_time_based: interval,
        have_time_based_cpu_deltas: switches,
        sched_switch_attr_index: Some(1),
    }
}

fn converter_with(
    build_ids: BuildIds,
    linux_version: Option<&str>,
    interpretation: &EventInterpretation,
) -> Converter<u32> {
    Converter::new(
        "Some product",
        ReferenceTimestamp::from_millis_since_unix_epoch(0.0),
        build_ids,
        FIRST,
        "some-host",
        "6.1",
        linux_version,
        true,
        interpretation,
    )
}

fn converter(interval: Option<u64>, switches: bool) -> Converter<u32> {
    converter_with(BuildIds::new(), None, &interpretation(interval, switches))
}

fn sample(pid: i32, tid: i32, after_first: u64) -> SampleRecord {
    SampleRecord {
        pid: Some(pid),
        tid: Some(tid),
        timestamp: Some(FIRST + after_first),
        period: None,
        ip: Some(0x4000),
        cpu_mode: CpuMode::User,
        callchain: None,
        user_regs: None,
        user_stack: None,
    }
}

fn switch(pid: i32, tid: i32, after_first: u64) -> CommonData {
    CommonData { pid: Some(pid), tid: Some(tid), timestamp: Some(FIRST + after_first) }
}

fn fork(pid: i32, tid: i32, after_first: u64) -> ForkOrExitRecord {
    ForkOrExitRecord { pid, tid, timestamp: FIRST + after_first }
}

fn name(pid: i32, tid: i32, name: &[u8], is_execve: bool) -> CommOrExecRecord {
    CommOrExecRecord { pid, tid, name: name.to_vec(), is_execve }
}

fn mmap(pid: i32, path: &[u8], cpu_mode: CpuMode) -> MmapRecord {
    MmapRecord {
        pid,
        address: 0x10_0000,
        length: 0x1000,
        page_offset: 0x2000,
        is_executable: true,
        cpu_mode,
        path: path.to_vec(),
    }
}

fn json(converter: Converter<u32>) -> Value {
    serde_json::to_value(converter.finish()).unwrap()
}

/// The threads with a number, in the order of their start times.
fn threads(profile: &Value, tid: u32) -> Vec<Value> {
    let all = profile["threads"].as_array().unwrap();
    all.iter().filter(|thread| thread["tid"] == tid).cloned().collect()
}

fn thread(profile: &Value, tid: u32) -> Value {
    let mut found = threads(profile, tid);
    assert_eq!(found.len(), 1);
    found.remove(0)
}

fn numbers(column: &Value) -> Vec<f64> {
    column.as_array().unwrap().iter().map(|number| number.as_f64().unwrap()).collect()
}

fn times(thread: &Value) -> Vec<f64> {
    numbers(&thread["samples"]["time"])
}

fn weights(thread: &Value) -> Vec<f64> {
    numbers(&thread["samples"]["weight"])
}

fn cpu_deltas(thread: &Value) -> Vec<f64> {
    numbers(&thread["samples"]["threadCPUDelta"])
}

/// The frames of a sample, root first: what stands for each, and its category.
fn frames(thread: &Value, sample: usize) -> Vec<(String, u64)> {
    let mut stack = thread["samples"]["stack"][sample].as_u64();
    let mut frames = Vec::new();
    while let Some(index) = stack {
        let frame = thread["stackTable"]["frame"][index as usize].as_u64().unwrap() as usize;
        let func = thread["frameTable"]["func"][frame].as_u64().unwrap() as usize;
        let name = thread["funcTable"]["name"][func].as_u64().unwrap() as usize;
        frames.push((
            thread["stringArray"][name].as_str().unwrap().to_string(),
            thread["frameTable"]["category"][frame].as_u64().unwrap(),
        ));
        stack = thread["stackTable"]["prefix"][index as usize].as_u64();
    }
    frames.reverse();
    frames
}

fn frame(text: &str, category: u64) -> (String, u64) {
    (text.to_string(), category)
}

#[test]
fn new_profile_has_its_settings() {
    let profile = json(converter(Some(250_000), false));
    assert_eq!(profile["meta"]["product"], "Some product");
    assert_eq!(profile["meta"]["interval"], 0.25);
    assert_eq!(profile["meta"]["categories"][0]["name"], "Other");
    assert_eq!(profile["meta"]["categories"][0]["color"], "grey");
    assert_eq!(profile["meta"]["categories"][1]["name"], "User");
    assert_eq!(profile["meta"]["categories"][1]["color"], "yellow");
    assert_eq!(profile["meta"]["categories"][2]["name"], "Kernel");
    assert_eq!(profile["meta"]["categories"][2]["color"], "orange");
    assert_eq!(profile["threads"].as_array().unwrap().len(), 0);
    assert_eq!(json(converter(None, false))["meta"]["interval"], 1.0);
}

#[test]
fn times_are_counted_from_the_first_sample() {
    let converter = converter(None, false);
    assert_eq!(converter.convert_time(FIRST), 0);
    assert_eq!(converter.convert_time(FIRST + 5), 5);
    assert_eq!(converter.convert_time(FIRST - 1), 0);
}

#[test]
fn sample_adds_process_and_thread() {
    let mut converter = converter(None, false);
    let mut e = sample(10, 11, 2_000_000);
    e.period = Some(4_500);
    e.callchain = Some(vec![PERF_CONTEXT_KERNEL, 0x9000, PERF_CONTEXT_USER, 0x4001, 0x5001]);
    assert_eq!(converter.check_sample(&e, &None), None);
    converter.handle_sample(&e, &None);
    let profile = json(converter);
    let thread = thread(&profile, 11);
    assert_eq!(thread["pid"], 10);
    assert_eq!(thread["processName"], "<10>");
    assert_eq!(thread["processStartupTime"], 0.0);
    assert_eq!(thread["name"], "Thread <11>");
    assert_eq!(times(&thread), vec![2.0]);
    assert_eq!(weights(&thread), vec![1.0]);
    assert_eq!(cpu_deltas(&thread), vec![4.0]);
    assert_eq!(
        frames(&thread, 0),
        vec![frame("0x5000", 1), frame("0x4000", 1), frame("0x9000", 2)]
    );
}

#[test]
fn main_thread_has_the_number_of_its_process() {
    let mut converter = converter(None, false);
    converter.handle_sample(&sample(10, 10, 0), &None);
    converter.handle_sample(&sample(10, 10, 1_000_000), &None);
    let profile = json(converter);
    let thread = thread(&profile, 10);
    assert_eq!(thread["name"], "GeckoMain");
    assert_eq!(times(&thread), vec![0.0, 1.0]);
    assert_eq!(cpu_deltas(&thread), vec![0.0, 0.0]);
}

#[test]
fn negative_process_number_is_written_out() {
    let mut converter = converter(None, false);
    converter.handle_sample(&sample(-1, 5, 0), &None);
    let mut smallest = sample(i32::MIN, 6, 0);
    smallest.ip = None;
    converter.handle_sample(&smallest, &None);
    let profile = json(converter);
    assert_eq!(thread(&profile, 5)["processName"], "<-1>");
    assert_eq!(thread(&profile, 6)["processName"], "<-2147483648>");
    assert_eq!(frames(&thread(&profile, 6), 0), vec![]);
}

#[test]
fn unwound_frames_reach_the_profile() {
    let mut converter = converter(None, false);
    let mut e = sample(10, 10, 0);
    e.user_regs = Some(Regs { values: vec![] });
    e.user_stack = Some(vec![]);
    let unwound = UnwoundStack {
        frames: vec![
            FrameAddress::InstructionPointer(0x100),
            FrameAddress::ReturnAddress(0x201),
        ],
        broke_off: true,
    };
    converter.handle_sample(&e, &Some(unwound));
    let profile = json(converter);
    assert_eq!(
        frames(&thread(&profile, 10), 0),
        vec![frame("0x200", 1), frame("0x100", 1)]
    );
}

#[test]
fn running_time_comes_from_switches() {
    let mut converter = converter(Some(1_000_000), true);
    converter.handle_context_switch(ContextSwitchRecord::In, switch(10, 10, 1_000_000));
    converter.handle_sample(&sample(10, 10, 1_400_000), &None);
    converter.handle_sample(&sample(10, 10, 2_000_000), &None);
    converter.handle_context_switch(ContextSwitchRecord::Out, switch(10, 10, 2_100_000));
    let profile = json(converter);
    let thread = thread(&profile, 10);
    assert_eq!(times(&thread), vec![1.4, 2.0, 2.1]);
    assert_eq!(cpu_deltas(&thread), vec![400.0, 600.0, 100.0]);
    assert_eq!(cpu_deltas(&thread).iter().sum::<f64>(), 1100.0);
    assert_eq!(weights(&thread), vec![1.0, 1.0, 0.0]);
}

#[test]
fn period_is_ignored_where_switches_are_recorded() {
    let mut converter = converter(None, true);
    let mut e = sample(10, 10, 0);
    e.period = Some(9_000);
    converter.handle_sample(&e, &None);
    let profile = json(converter);
    assert_eq!(cpu_deltas(&thread(&profile, 10)), vec![0.0]);
}

#[test]
fn time_off_the_cpu_becomes_weight() {
    let mut converter = converter(Some(1_000_000), true);
    let mut shown = sample(10, 10, 0);
    shown.callchain = Some(vec![PERF_CONTEXT_KERNEL, 0x9000, PERF_CONTEXT_USER, 0x4001]);
    converter.handle_sched_switch(&shown, &None);
    converter.handle_context_switch(ContextSwitchRecord::Out, switch(10, 10, 1_000_000));
    converter.handle_context_switch(ContextSwitchRecord::In, switch(10, 10, 4_500_000));
    let profile = json(converter);
    let thread = thread(&profile, 10);
    assert_eq!(times(&thread), vec![4.5]);
    assert_eq!(weights(&thread), vec![3.0]);
    assert_eq!(cpu_deltas(&thread), vec![0.0]);
    assert_eq!(frames(&thread, 0), vec![frame("0x4000", 1)]);
}

#[test]
fn running_thread_is_switched_out_and_in() {
    let mut converter = converter(Some(1_000_000), true);
    converter.handle_context_switch(ContextSwitchRecord::In, switch(10, 10, 1_000_000));
    converter.handle_sched_switch(&sample(10, 10, 2_000_000), &None);
    converter.handle_context_switch(ContextSwitchRecord::Out, switch(10, 10, 2_000_000));
    converter.handle_context_switch(ContextSwitchRecord::In, switch(10, 10, 4_000_000));
    converter.handle_sample(&sample(10, 10, 4_500_000), &None);
    let profile = json(converter);
    let thread = thread(&profile, 10);
    assert_eq!(times(&thread), vec![2.0, 4.0, 4.5]);
    assert_eq!(cpu_deltas(&thread), vec![1000.0, 0.0, 500.0]);
    assert_eq!(weights(&thread), vec![0.0, 2.0, 1.0]);
    assert_eq!(frames(&thread, 0), vec![frame("0x4000", 1)]);
    assert_eq!(frames(&thread, 1), vec![frame("0x4000", 1)]);
}

#[test]
fn weight_is_zero_without_an_interval_or_beyond_its_range() {
    for (interval, off) in [(None, 5_000_000), (Some(1), 1 << 40)] {
        let mut converter = converter(interval, true);
        converter.handle_context_switch(ContextSwitchRecord::Out, switch(10, 10, 0));
        converter.handle_context_switch(ContextSwitchRecord::In, switch(10, 10, off));
        let profile = json(converter);
        assert_eq!(weights(&thread(&profile, 10)), vec![0.0]);
    }
    let mut converter = converter(Some(1), true);
    converter.handle_context_switch(ContextSwitchRecord::Out, switch(10, 10, 0));
    converter.handle_context_switch(ContextSwitchRecord::In, switch(10, 10, i32::MAX as u64));
    assert_eq!(weights(&thread(&json(converter), 10)), vec![i32::MAX as f64]);
}

#[test]
fn sample_of_a_thread_that_is_off_accounts_for_that_first() {
    let mut converter = converter(Some(1_000_000), true);
    converter.handle_context_switch(ContextSwitchRecord::Out, switch(10, 10, 0));
    converter.handle_sample(&sample(10, 10, 2_000_000), &None);
    converter.handle_sample(&sample(10, 10, 2_300_000), &None);
    let profile = json(converter);
    let thread = thread(&profile, 10);
    assert_eq!(times(&thread), vec![2.0, 2.0, 2.3]);
    assert_eq!(weights(&thread), vec![2.0, 1.0, 1.0]);
    assert_eq!(cpu_deltas(&thread), vec![0.0, 0.0, 300.0]);
    assert_eq!(frames(&thread, 0), vec![]);
    assert_eq!(frames(&thread, 1), vec![frame("0x4000", 1)]);
}

#[test]
fn second_switch_in_changes_nothing() {
    let mut converter = converter(Some(1_000_000), true);
    let unexpected = [
        converter.handle_context_switch(ContextSwitchRecord::In, switch(10, 10, 1_000_000)),
        converter.handle_context_switch(ContextSwitchRecord::In, switch(10, 10, 1_500_000)),
        converter.handle_context_switch(ContextSwitchRecord::Out, switch(10, 10, 2_000_000)),
    ];
    assert_eq!(unexpected, [None, None, None]);
    let profile = json(converter);
    assert_eq!(cpu_deltas(&thread(&profile, 10)), vec![1000.0]);
}

#[test]
fn second_switch_out_is_reported_and_changes_nothing() {
    let mut converter = converter(Some(1_000_000), true);
    let unexpected = [
        converter.handle_context_switch(ContextSwitchRecord::Out, switch(10, 10, 1_000_000)),
        converter.handle_context_switch(ContextSwitchRecord::Out, switch(10, 10, 1_500_000)),
        converter.handle_context_switch(ContextSwitchRecord::In, switch(10, 10, 3_000_000)),
    ];
    assert_eq!(unexpected, [None, Some(FIRST + 1_000_000), None]);
    let profile = json(converter);
    assert_eq!(weights(&thread(&profile, 10)), vec![2.0]);
}

#[test]
fn other_threads_are_left_alone() {
    let mut converter = converter(Some(1_000_000), true);
    converter.handle_sample(&sample(10, 10, 0), &None);
    converter.handle_sample(&sample(10, 11, 0), &None);
    converter.handle_context_switch(ContextSwitchRecord::Out, switch(10, 11, 1_000_000));
    converter.handle_thread_end(fork(10, 11, 2_000_000));
    let profile = json(converter);
    assert_eq!(times(&thread(&profile, 10)), vec![0.0]);
    assert_eq!(thread(&profile, 10)["unregisterTime"], Value::Null);
    assert_eq!(times(&thread(&profile, 11)), vec![0.0, 1.0]);
    assert_eq!(thread(&profile, 11)["unregisterTime"], 2.0);
}

#[test]
fn threads_start_and_end() {
    let mut converter = converter(None, false);
    converter.handle_thread_start(fork(10, 10, 1_000_000));
    converter.handle_thread_start(fork(10, 11, 2_000_000));
    converter.handle_thread_end(fork(10, 11, 3_000_000));
    converter.handle_thread_end(fork(10, 10, 4_000_000));
    let profile = json(converter);
    let main = thread(&profile, 10);
    assert_eq!(main["processStartupTime"], 1.0);
    assert_eq!(main["processShutdownTime"], 4.0);
    assert_eq!(main["registerTime"], 1.0);
    assert_eq!(main["unregisterTime"], 4.0);
    let other = thread(&profile, 11);
    assert_eq!(other["processStartupTime"], 1.0);
    assert_eq!(other["registerTime"], 2.0);
    assert_eq!(other["unregisterTime"], 3.0);
    assert_eq!(times(&main), Vec::<f64>::new());
    assert_eq!(times(&other), Vec::<f64>::new());
}

#[test]
fn number_of_an_ended_thread_is_used_anew() {
    let mut converter = converter(None, false);
    converter.handle_thread_start(fork(10, 10, 1_000_000));
    converter.handle_sample(&sample(10, 10, 1_500_000), &None);
    converter.handle_thread_end(fork(10, 10, 2_000_000));
    converter.handle_thread_start(fork(10, 10, 3_000_000));
    converter.handle_sample(&sample(10, 10, 3_500_000), &None);
    let profile = json(converter);
    let found = threads(&profile, 10);
    assert_eq!(found.len(), 2);
    assert_eq!(times(&found[0]), vec![1.5]);
    assert_eq!(found[0]["processShutdownTime"], 2.0);
    assert_eq!(times(&found[1]), vec![3.5]);
    assert_eq!(found[1]["processStartupTime"], 3.0);
    assert_eq!(found[1]["processShutdownTime"], Value::Null);
}

#[test]
fn end_of_an_unknown_thread_adds_it() {
    let mut converter = converter(None, false);
    converter.handle_thread_end(fork(10, 11, 2_000_000));
    let profile = json(converter);
    assert_eq!(thread(&profile, 11)["unregisterTime"], 2.0);
}

#[test]
fn names_are_taken_over() {
    let mut converter = converter(None, false);
    converter.handle_thread_name_update(&name(10, 10, b"program", false), None);
    converter.handle_thread_name_update(&name(10, 11, b"worker", false), None);
    let profile = json(converter);
    assert_eq!(thread(&profile, 10)["processName"], "program");
    assert_eq!(thread(&profile, 11)["processName"], "program");
    assert_eq!(thread(&profile, 11)["name"], "worker");
}

#[test]
fn name_that_is_not_utf8_is_read_as_well_as_can_be() {
    let mut converter = converter(None, false);
    converter.handle_thread_name_update(&name(10, 11, b"a\xffb", false), None);
    assert_eq!(thread(&json(converter), 11)["name"], "a\u{fffd}b");
}

#[test]
fn executed_program_starts_anew() {
    let mut converter = converter(None, false);
    converter.handle_thread_start(fork(10, 10, 1_000_000));
    converter.handle_sample(&sample(10, 10, 2_000_000), &None);
    converter.handle_thread_name_update(&name(10, 10, b"program", true), Some(FIRST + 2_500_000));
    converter.handle_sample(&sample(10, 10, 3_000_000), &None);
    let profile = json(converter);
    let found = threads(&profile, 10);
    assert_eq!(found.len(), 2);
    assert_eq!(found[0]["processName"], "<10>");
    assert_eq!(found[0]["unregisterTime"], 2.5);
    assert_eq!(found[0]["processShutdownTime"], 2.5);
    assert_eq!(times(&found[0]), vec![2.0]);
    assert_eq!(found[1]["processName"], "program");
    assert_eq!(found[1]["registerTime"], 2.0);
    assert_eq!(found[1]["processStartupTime"], 2.0);
    assert_eq!(times(&found[1]), vec![3.0]);
}

#[test]
fn program_executed_at_an_unknown_time_starts_at_the_last_sample() {
    for timestamp in [None, Some(0)] {
        let mut converter = converter(None, false);
        converter.handle_sample(&sample(10, 10, 2_000_000), &None);
        converter.handle_thread_name_update(&name(10, 10, b"program", true), timestamp);
        let profile = json(converter);
        let found = threads(&profile, 10);
        assert_eq!(found[0]["unregisterTime"], 2.0);
        assert_eq!(found[1]["registerTime"], 2.0);
    }
}

#[test]
fn program_executed_in_a_thread_leaves_the_process() {
    let mut converter = converter(None, false);
    converter.handle_sample(&sample(10, 11, 2_000_000), &None);
    converter.handle_thread_name_update(&name(10, 11, b"program", true), Some(FIRST + 3_000_000));
    let profile = json(converter);
    let found = threads(&profile, 11);
    assert_eq!(found.len(), 2);
    assert_eq!(found[0]["processShutdownTime"], Value::Null);
    assert_eq!(found[1]["name"], "program");
}

#[test]
fn product_is_named_after_the_first_program() {
    let mut converter = converter(None, false);
    converter.handle_thread_name_update(&name(9, 9, b"perf-exec", false), None);
    converter.handle_thread_name_update(&name(10, 10, b"program", true), None);
    converter.handle_thread_name_update(&name(11, 11, b"another", true), None);
    let profile = json(converter);
    assert_eq!(profile["meta"]["product"], "program on some-host (perf version 6.1)");
}

#[test]
fn product_keeps_its_name_before_a_program_is_executed() {
    let mut converter = converter(None, false);
    converter.handle_thread_name_update(&name(9, 9, b"perf-exec", false), None);
    assert_eq!(json(converter)["meta"]["product"], "Some product");
}

#[test]
fn mapping_is_to_be_loaded() {
    let mut converter = converter(None, false);
    assert_eq!(
        converter.handle_mmap(&mmap(10, b"/lib/libfoo.so", CpuMode::User)),
        Ok(Some(Mapping {
            path: "/lib/libfoo.so".to_string(),
            page_offset: 0x2000,
            address: 0x10_0000,
            length: 0x1000,
            build_id: None,
        }))
    );
}

#[test]
fn build_id_table_completes_a_mapping() {
    let mut build_ids = BuildIds::new();
    build_ids.insert(
        DsoKey::User("libfoo.so".to_string(), b"/lib/libfoo.so".to_vec()),
        DsoBuildId { path: b"/better/libfoo.so".to_vec(), build_id: vec![1, 2] },
    );
    let mut converter = converter_with(build_ids, None, &interpretation(None, false));
    let mapping =
        converter.handle_mmap(&mmap(10, b"/lib/libfoo.so", CpuMode::User)).unwrap().unwrap();
    assert_eq!(mapping.path, "/better/libfoo.so");
    assert_eq!(mapping.build_id, Some(vec![1, 2]));
}

#[test]
fn data_and_anonymous_mappings_are_ignored() {
    let mut converter = converter(None, false);
    let mut data = mmap(10, b"/lib/libfoo.so", CpuMode::User);
    data.is_executable = false;
    assert_eq!(converter.handle_mmap(&data), Ok(None));
    assert_eq!(converter.handle_mmap(&mmap(10, b"//anon", CpuMode::User)), Ok(None));
    assert_eq!(converter.handle_mmap(&mmap(10, b"[heap]", CpuMode::User)), Ok(None));
    assert_eq!(converter.handle_mmap(&mmap(10, b"[stack]", CpuMode::User)), Ok(None));
    assert_eq!(converter.handle_mmap(&mmap(10, b"[vvar]", CpuMode::User)), Ok(None));
    assert_eq!(converter.handle_mmap(&mmap(10, b"/lib/libfoo.so", CpuMode::Unknown)), Ok(None));
}

#[test]
fn path_of_a_mapping_must_be_utf8() {
    let mut converter = converter(None, false);
    assert_eq!(
        converter.handle_mmap(&mmap(10, b"/lib/\xff.so", CpuMode::User)),
        Err(MmapError::PathIsNotUtf8)
    );
}

#[test]
fn kernel_mapping_must_fit() {
    let mut converter = converter(None, false);
    let mut e = mmap(-1, b"[kernel.kallsyms]_text", CpuMode::Kernel);
    e.length = u64::MAX;
    assert_eq!(converter.handle_mmap(&e), Err(MmapError::AddressOverflow));
}

#[test]
fn kernel_module_reaches_later_processes() {
    let mut build_ids = BuildIds::new();
    build_ids.insert(
        DsoKey::Kernel,
        DsoBuildId { path: b"[kernel.kallsyms]".to_vec(), build_id: vec![0xab; 20] },
    );
    let mut converter = converter_with(build_ids, Some("6.1.0"), &interpretation(None, false));
    let mut e = sample(10, 10, 0);
    e.ip = Some(0x10_0234);
    converter.handle_sample(&e, &None);
    let kernel = mmap(-1, b"[kernel.kallsyms]_text", CpuMode::Kernel);
    assert_eq!(converter.handle_mmap(&kernel), Ok(None));
    let mut e = sample(20, 20, 0);
    e.ip = Some(0x10_0234);
    converter.handle_sample(&e, &None);
    let profile = json(converter);
    assert_eq!(frames(&thread(&profile, 10), 0), vec![frame("0x100234", 1)]);
    assert_eq!(frames(&thread(&profile, 20), 0), vec![frame("0x234", 1)]);
    assert_eq!(profile["libs"].as_array().unwrap().len(), 1);
    let lib = &profile["libs"][0];
    assert_eq!(lib["name"], "[kernel.kallsyms]");
    assert_eq!(lib["debugName"], "[kernel.kallsyms]");
    assert_eq!(lib["path"], "[kernel.kallsyms]");
    assert_eq!(lib["debugPath"], "/usr/lib/debug/boot/vmlinux-6.1.0");
    assert_eq!(lib["codeId"], "abababababababababababababababababababab");
    assert_eq!(lib["breakpadId"], "ABABABABABABABABABABABABABABABAB0");
}

#[test]
fn kernel_debug_file_is_not_guessed_without_a_version() {
    let mut converter = converter(None, false);
    let kernel = mmap(-1, b"[kernel.kallsyms]_text", CpuMode::Kernel);
    assert_eq!(converter.handle_mmap(&kernel), Ok(None));
    let mut e = sample(20, 20, 0);
    e.ip = Some(0x10_0234);
    converter.handle_sample(&e, &None);
    let profile = json(converter);
    assert_eq!(profile["libs"][0]["debugPath"], "[kernel.kallsyms]_text");
    assert_eq!(profile["libs"][0]["codeId"], Value::Null);
    assert_eq!(profile["libs"][0]["breakpadId"], "000000000000000000000000000000000");
}

fn mmap2(path: &[u8], file_id: Mmap2FileId, protection: u32) -> Mmap2Record {
    Mmap2Record {
        pid: 10,
        address: 0x10_0000,
        length: 0x1000,
        page_offset: 0x2000,
        file_id,
        protection,
        cpu_mode: CpuMode::User,
        path: path.to_vec(),
    }
}

#[test]
fn mapping_with_protection_bits_is_to_be_loaded() {
    let mut build_ids = BuildIds::new();
    build_ids.insert(
        DsoKey::User("libfoo.so".to_string(), b"/lib/libfoo.so".to_vec()),
        DsoBuildId { path: b"/better/libfoo.so".to_vec(), build_id: vec![1, 2] },
    );
    let mut converter = converter_with(build_ids, None, &interpretation(None, false));
    let path: &[u8] = b"/lib/libfoo.so";
    let mapping =
        converter.handle_mmap2(&mmap2(path, Mmap2FileId::InodeAndVersion, 5)).unwrap().unwrap();
    assert_eq!(mapping.path, "/lib/libfoo.so");
    assert_eq!(mapping.build_id, Some(vec![1, 2]));
    let mapping =
        converter.handle_mmap2(&mmap2(path, Mmap2FileId::BuildId(vec![3]), 4)).unwrap().unwrap();
    assert_eq!(mapping.build_id, Some(vec![3]));
    let unlisted = mmap2(b"/lib/libbar.so", Mmap2FileId::InodeAndVersion, 7);
    assert_eq!(converter.handle_mmap2(&unlisted).unwrap().unwrap().build_id, None);
    assert_eq!(converter.handle_mmap2(&mmap2(path, Mmap2FileId::BuildId(vec![3]), 3)), Ok(None));
    assert_eq!(
        converter.handle_mmap2(&mmap2(b"//anon", Mmap2FileId::InodeAndVersion, 7)),
        Ok(None)
    );
    assert!(converter
        .handle_mmap2(&mmap2(b"//anon", Mmap2FileId::BuildId(vec![3]), 7))
        .unwrap()
        .is_some());
    assert_eq!(
        converter.handle_mmap2(&mmap2(b"\xff", Mmap2FileId::BuildId(vec![3]), 7)),
        Err(MmapError::PathIsNotUtf8)
    );
}

#[test]
fn loaded_library_resolves_addresses() {
    let mut converter = converter(None, false);
    let mapping =
        converter.handle_mmap(&mmap(10, b"/lib/libfoo.so", CpuMode::User)).unwrap().unwrap();
    assert_eq!(converter.load_module(10, &mapping, None), Ok(None));
    let mut e = sample(10, 10, 0);
    e.callchain = Some(vec![0x10_0010, 0x10_1000]);
    converter.handle_sample(&e, &None);
    let profile = json(converter);
    assert_eq!(
        frames(&thread(&profile, 10), 0),
        vec![frame("0x2fff", 1), frame("0x2010", 1)]
    );
    assert_eq!(profile["libs"][0]["name"], "libfoo.so");
    assert_eq!(profile["libs"][0]["path"], "/lib/libfoo.so");
}

#[test]
fn mapping_that_cannot_be_loaded_is_refused() {
    let mut converter = converter(None, false);
    let mapping = Mapping {
        path: "/lib/libfoo.so".to_string(),
        page_offset: 0,
        address: 0,
        length: 0x1000,
        build_id: None,
    };
    assert_eq!(
        converter.load_module(10, &mapping, Some(b"no binary")),
        Err(ModuleError::UnrecognizedFormat)
    );
}

fn library(base_avma: u64, avma_start: u64, avma_end: u64) -> Library {
    Library {
        base_avma,
        avma_start,
        avma_end,
        name: "low".to_string(),
        debug_name: "low".to_string(),
        path: "/low".to_string(),
        debug_path: "/low".to_string(),
        debug_id: DebugId { guid: [7; 16], age: 3 },
        code_id: Some("00ff".to_string()),
    }
}

#[test]
fn frames_below_the_base_of_their_library_are_noticed() {
    let mut converter = converter(Some(1_000_000), true);
    let low = Module { unwind: None, library: Some(library(0x5000, 0x4000, 0x6000)) };
    assert_eq!(converter.add_module(10, low), None);
    let mut e = sample(10, 10, 0);
    assert_eq!(converter.check_sample(&e, &None), Some(EventError::FrameBelowBase));
    e.ip = Some(0x5000);
    assert_eq!(converter.check_sample(&e, &None), None);
    converter.handle_sample(&e, &None);
    e.ip = Some(0x3fff);
    assert_eq!(converter.check_sample(&e, &None), None);
    e.callchain = Some(vec![0x5000, 0x5000]);
    assert_eq!(converter.check_sample(&e, &None), Some(EventError::FrameBelowBase));
    assert_eq!(converter.check_sample(&sample(20, 20, 0), &None), None);

    converter.handle_sched_switch(&sample(10, 10, 0), &None);
    assert_eq!(
        converter.check_context_switch(ContextSwitchRecord::Out, switch(10, 10, 5)),
        Some(EventError::FrameBelowBase)
    );
    assert_eq!(converter.check_context_switch(ContextSwitchRecord::In, switch(10, 10, 5)), None);
    let profile = json(converter);
    let lib = &profile["libs"][0];
    assert_eq!(lib["codeId"], "00ff");
    assert_eq!(lib["breakpadId"], "070707070707070707070707070707073");
}

#[test]
fn library_at_the_same_address_takes_the_place_of_another() {
    let mut converter = converter(Some(1_000_000), true);
    let mut first = library(0x1_0040, 0x1_0000, 0x1_1000);
    first.name = "first".to_string();
    converter.add_module(10, Module { unwind: None, library: Some(first) });
    let mut e = sample(10, 10, 0);
    e.ip = Some(0x1_0010);
    assert_eq!(converter.check_sample(&e, &None), Some(EventError::FrameBelowBase));
    let mut second = library(0x1_0000, 0x1_0000, 0x1_1000);
    second.name = "second".to_string();
    converter.add_module(10, Module { unwind: None, library: Some(second) });
    assert_eq!(converter.check_sample(&e, &None), None);
    converter.handle_sample(&e, &None);
    let profile = json(converter);
    assert_eq!(frames(&thread(&profile, 10), 0), vec![frame("0x10", 1)]);
    assert_eq!(profile["libs"].as_array().unwrap().len(), 1);
    assert_eq!(profile["libs"][0]["name"], "second");
}

#[test]
fn only_the_nearest_mapping_is_looked_at() {
    let mut converter = converter(Some(1_000_000), true);
    let low = library(0x1_0800, 0x1_0000, 0x1_1000);
    converter.add_module(10, Module { unwind: None, library: Some(low) });
    let mut e = sample(10, 10, 0);
    e.ip = Some(0x1_0410);
    assert_eq!(converter.check_sample(&e, &None), Some(EventError::FrameBelowBase));
    let over = library(0x1_0300, 0x1_0400, 0x1_0500);
    converter.add_module(10, Module { unwind: None, library: Some(over) });
    assert_eq!(converter.check_sample(&e, &None), None);
    converter.handle_sample(&e, &None);
    e.ip = Some(0x1_03ff);
    assert_eq!(converter.check_sample(&e, &None), Some(EventError::FrameBelowBase));
    e.ip = Some(0x1_0600);
    assert_eq!(converter.check_sample(&e, &None), None);
    converter.handle_sample(&e, &None);
    let profile = json(converter);
    assert_eq!(frames(&thread(&profile, 10), 0), vec![frame("0x110", 1)]);
    assert_eq!(frames(&thread(&profile, 10), 1), vec![frame("0x10600", 1)]);
}

#[test]
fn addresses_behind_a_mapping_are_in_no_library() {
    let mut converter = converter(Some(1_000_000), true);
    let low = library(0x5000, 0x4000, 0x4100);
    converter.add_module(10, Module { unwind: None, library: Some(low) });
    let empty = library(0x7000, 0x8000, 0x8000);
    converter.add_module(10, Module { unwind: None, library: Some(empty) });
    let mut e = sample(10, 10, 0);
    e.ip = Some(0x4100);
    assert_eq!(converter.check_sample(&e, &None), None);
    converter.handle_sample(&e, &None);
    e.ip = Some(0x40ff);
    assert_eq!(converter.check_sample(&e, &None), Some(EventError::FrameBelowBase));
    e.callchain = Some(vec![0x8000, 0x8002]);
    assert_eq!(converter.check_sample(&e, &None), None);
    converter.handle_sample(&e, &None);
    let profile = json(converter);
    assert_eq!(frames(&thread(&profile, 10), 0), vec![frame("0x4100", 1)]);
    assert_eq!(
        frames(&thread(&profile, 10), 1),
        vec![frame("0x8001", 1), frame("0x1000", 1)]
    );
}

#[test]
fn frames_are_kept_by_their_place_in_32_bits() {
    let mut converter = converter(None, false);
    let wide = library(0x1000, 0x1000, 0x2_0000_0000);
    converter.add_module(10, Module { unwind: None, library: Some(wide) });
    let mut e = sample(10, 10, 0);
    e.callchain = Some(vec![0x1_0000_1030, 0x1031]);
    converter.handle_sample(&e, &None);
    let profile = json(converter);
    let frames = frames(&thread(&profile, 10), 0);
    assert_eq!(frames, vec![frame("0x30", 1), frame("0x30", 1)]);
}

#[test]
fn running_time_adds_up_to_the_switch_out() {
    let mut converter = converter(Some(1_000_000), true);
    converter.handle_context_switch(ContextSwitchRecord::In, switch(10, 10, 1_000_000));
    converter.handle_sample(&sample(10, 10, 3_500_000), &None);
    converter.handle_sample(&sample(20, 20, 3_600_000), &None);
    converter.handle_sample(&sample(10, 10, 4_000_000), &None);
    converter.handle_context_switch(ContextSwitchRecord::Out, switch(10, 10, 9_000_000));
    converter.handle_context_switch(ContextSwitchRecord::In, switch(10, 10, 11_000_000));
    converter.handle_context_switch(ContextSwitchRecord::Out, switch(10, 10, 12_000_000));
    let deltas = cpu_deltas(&thread(&json(converter), 10));
    assert_eq!(deltas, vec![2500.0, 500.0, 5000.0, 0.0, 1000.0]);
}

#[test]
fn low_stack_is_noticed_when_a_sample_ends_a_switch() {
    let mut converter = converter(Some(1_000_000), true);
    converter.handle_sched_switch(&sample(10, 10, 0), &None);
    converter.handle_context_switch(ContextSwitchRecord::Out, switch(10, 10, 0));
    let low = Module { unwind: None, library: Some(library(0x5000, 0x4000, 0x6000)) };
    converter.add_module(10, low);
    let mut e = sample(10, 10, 5);
    e.ip = Some(0x5000);
    assert_eq!(converter.check_sample(&e, &None), Some(EventError::FrameBelowBase));
}

#[test]
fn incomplete_samples_are_refused() {
    let converter = converter(None, false);
    let mut e = sample(10, 10, 0);
    e.timestamp = None;
    assert_eq!(converter.check_sample(&e, &None), Some(EventError::MissingTimestamp));
    e.tid = None;
    assert_eq!(converter.check_sample(&e, &None), Some(EventError::MissingTid));
    e.pid = None;
    assert_eq!(converter.check_sample(&e, &None), Some(EventError::MissingPid));
}

#[test]
fn incomplete_switches_are_refused() {
    let converter = converter(None, true);
    let check = |pid, tid, timestamp| {
        converter.check_context_switch(ContextSwitchRecord::In, CommonData { pid, tid, timestamp })
    };
    assert_eq!(check(None, None, None), Some(EventError::MissingPid));
    assert_eq!(check(Some(1), None, None), Some(EventError::MissingTid));
    assert_eq!(check(Some(1), Some(1), None), Some(EventError::MissingTimestamp));
    assert_eq!(check(Some(1), Some(1), Some(0)), None);
}

#[test]
fn time_must_not_run_backwards() {
    let mut converter = converter(Some(1_000_000), true);
    converter.handle_context_switch(ContextSwitchRecord::In, switch(10, 10, 100));
    assert_eq!(
        converter.check_sample(&sample(10, 10, 99), &None),
        Some(EventError::TimeRunsBackwards)
    );
    assert_eq!(
        converter.check_context_switch(ContextSwitchRecord::Out, switch(10, 10, 99)),
        Some(EventError::TimeRunsBackwards)
    );
    converter.handle_context_switch(ContextSwitchRecord::Out, switch(10, 10, 200));
    assert_eq!(
        converter.check_sample(&sample(10, 10, 199), &None),
        Some(EventError::TimeRunsBackwards)
    );
    assert_eq!(
        converter.check_context_switch(ContextSwitchRecord::In, switch(10, 10, 199)),
        Some(EventError::TimeRunsBackwards)
    );
    assert_eq!(converter.check_context_switch(ContextSwitchRecord::Out, switch(10, 10, 0)), None);
}

#[test]
fn interval_must_not_be_zero_when_time_is_divided_by_it() {
    let mut converter = converter(Some(0), true);
    assert_eq!(converter.check_sample(&sample(10, 10, 0), &None), None);
    converter.handle_context_switch(ContextSwitchRecord::Out, switch(10, 10, 0));
    assert_eq!(
        converter.check_sample(&sample(10, 10, 0), &None),
        Some(EventError::ZeroInterval)
    );
    assert_eq!(
        converter.check_context_switch(ContextSwitchRecord::In, switch(10, 10, 0)),
        Some(EventError::ZeroInterval)
    );
}

#[test]
fn unwinders_belong_to_processes() {
    let mut converter = converter(None, false);
    assert_eq!(*converter.get_unwinder(10), 0);
    *converter.get_unwinder(10) = 5;
    *converter.get_unwinder(20) = 6;
    converter.handle_sample(&sample(10, 10, 0), &None);
    assert_eq!(*converter.get_unwinder(10), 5);
    converter.handle_thread_end(fork(10, 10, 1));
    assert_eq!(*converter.get_unwinder(10), 0);
    assert_eq!(*converter.get_unwinder(20), 6);
}

#[test]
fn records_are_handed_to_those_who_take_them() {
    let interpretation = interpretation(Some(1_000_000), true);
    let mut converter = converter_with(BuildIds::new(), None, &interpretation);
    let mut take = |attr_index: usize, record: Record, timestamp: Option<u64>| {
        converter.handle_record(&interpretation, attr_index, &record, timestamp, &None)
    };
    assert_eq!(take(0, Record::Fork(fork(10, 10, 0)), None), Ok(Outcome::Done));
    assert_eq!(take(0, Record::Comm(name(10, 10, b"program", false)), None), Ok(Outcome::Done));
    assert_eq!(take(0, Record::Sample(sample(10, 10, 1_000_000)), None), Ok(Outcome::Done));
    assert_eq!(take(1, Record::Sample(sample(10, 10, 2_000_000)), None), Ok(Outcome::Done));
    assert_eq!(take(2, Record::Sample(sample(10, 10, 3_000_000)), None), Ok(Outcome::Done));
    let mut blank = sample(10, 10, 0);
    blank.pid = None;
    blank.tid = None;
    assert_eq!(take(2, Record::Sample(blank), None), Ok(Outcome::Done));
    let out = |after_first| {
        Record::ContextSwitch(ContextSwitchRecord::Out, Some(switch(10, 10, after_first)))
    };
    assert_eq!(take(0, out(4_000_000), None), Ok(Outcome::Done));
    assert_eq!(
        take(0, out(5_000_000), None),
        Ok(Outcome::DoubleSwitchOut {
            tid: 10,
            first: FIRST + 4_000_000,
            again: FIRST + 5_000_000,
        })
    );
    assert_eq!(
        take(0, Record::ContextSwitch(ContextSwitchRecord::In, None), None),
        Ok(Outcome::Done)
    );
    assert_eq!(
        take(0, Record::Mmap(mmap(10, b"/lib/libfoo.so", CpuMode::User)), None),
        Ok(Outcome::Load {
            pid: 10,
            mapping: Mapping {
                path: "/lib/libfoo.so".to_string(),
                page_offset: 0x2000,
                address: 0x10_0000,
                length: 0x1000,
                build_id: None,
            },
        })
    );
    assert!(matches!(
        take(0, Record::Mmap2(mmap2(b"/a", Mmap2FileId::BuildId(vec![3]), 7)), None),
        Ok(Outcome::Load { pid: 10, .. })
    ));
    assert_eq!(take(0, Record::Other, None), Ok(Outcome::Done));
    assert_eq!(take(0, Record::Exit(fork(10, 10, 6_000_000)), None), Ok(Outcome::Done));
    let profile = json(converter);
    let thread = thread(&profile, 10);
    assert_eq!(thread["processName"], "program");
    assert_eq!(times(&thread), vec![1.0, 4.0]);
    assert_eq!(cpu_deltas(&thread), vec![0.0, 3000.0]);
    assert_eq!(frames(&thread, 1), vec![frame("0x4000", 1)]);
    assert_eq!(thread["unregisterTime"], 6.0);
}

#[test]
fn refused_records_change_nothing() {
    let interpretation = interpretation(Some(1_000_000), true);
    let mut converter = converter_with(BuildIds::new(), None, &interpretation);
    for attr_index in [0, 1] {
        let record = Record::Sample(SampleRecord { tid: None, ..sample(10, 10, 0) });
        assert_eq!(
            converter.handle_record(&interpretation, attr_index, &record, None, &None),
            Err(RecordError::Event(EventError::MissingTid))
        );
    }
    let record = Record::ContextSwitch(
        ContextSwitchRecord::In,
        Some(CommonData { pid: None, tid: None, timestamp: None }),
    );
    assert_eq!(
        converter.handle_record(&interpretation, 0, &record, None, &None),
        Err(RecordError::Event(EventError::MissingPid))
    );
    let record = Record::Mmap(mmap(10, b"/lib/\xff.so", CpuMode::User));
    assert_eq!(
        converter.handle_record(&interpretation, 0, &record, None, &None),
        Err(RecordError::Mmap(MmapError::PathIsNotUtf8))
    );
    assert_eq!(json(converter)["threads"].as_array().unwrap().len(), 0);
}
