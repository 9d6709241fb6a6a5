//! Records, from bytes to what is done with them.

use fxprof_processed_profile::ReferenceTimestamp;
use perf_convert::converter::Converter;
use perf_convert::dispatch::Outcome;
use perf_convert::events::EventInterpretation;
use perf_convert::ids::BuildIds;
use perf_convert::recording::{
    is_parsable, next_step, parse_record, take_parsed, timestamp_of, ParseInfo, Reading, Step,
    UnparsedRecord, MISC_MMAP_BUILD_ID, READ_GROUP, READ_ID, READ_TOTAL_TIME_ENABLED,
    RECORD_MMAP2, RECORD_SAMPLE, SAMPLE_CALLCHAIN, SAMPLE_FORMAT_MASK, SAMPLE_IDENTIFIER,
    SAMPLE_IP, SAMPLE_PERIOD, SAMPLE_READ, SAMPLE_TID, SAMPLE_TIME,
};
use perf_convert::records::{
    CommOrExecRecord, CommonData, ContextSwitchRecord, CpuMode, ForkOrExitRecord, Mmap2FileId,
    Mmap2Record, MmapRecord, Record, Regs, SampleRecord,
};

const MMAP: u32 = 1;
const LOST: u32 = 2;
const COMM: u32 = 3;
const EXIT: u32 = 4;
const FORK: u32 = 7;
const SWITCH: u32 = 14;
const SWITCH_CPU_WIDE: u32 = 15;
const REGS_USER: u64 = 0x1000;
const STACK_USER: u64 = 0x2000;
const FLAG: u16 = 0x2000;

fn info(sample_format: u64) -> ParseInfo {
    ParseInfo {
        little_endian: true,
        sample_format,
        branch_sample_format: 0,
        read_format: 0,
        common_data_offset_from_end: None,
        sample_regs_user: 0,
        regs_count: 0,
        nonsample_record_time_offset_from_end: None,
        nonsample_record_id_offset_from_end: None,
        sample_record_time_offset_from_start: None,
        sample_record_id_offset_from_start: None,
    }
}

fn info_with_common_data() -> ParseInfo {
    ParseInfo {
        common_data_offset_from_end: Some(16),
        nonsample_record_time_offset_from_end: Some(8),
        sample_record_time_offset_from_start: Some(16),
        ..info(SAMPLE_IP | SAMPLE_TID | SAMPLE_TIME)
    }
}

fn words(words: &[u64]) -> Vec<u8> {
    words.iter().flat_map(|word| word.to_le_bytes()).collect()
}

fn pair(low: u32, high: u32) -> u64 {
    u64::from(low) | u64::from(high) << 32
}

fn parse(record_type: u32, misc: u16, data: &[u8], info: &ParseInfo) -> Option<Record> {
    assert!(is_parsable(record_type, misc, data, info));
    parse_record(record_type, misc, data, info)
}

#[test]
fn sample_is_read_field_by_field() {
    let info = info(SAMPLE_IP | SAMPLE_TID | SAMPLE_TIME | SAMPLE_PERIOD | SAMPLE_CALLCHAIN);
    let data = words(&[0x4010, pair(10, 11), 77, 500, 2, 0x4010, 0x4020]);
    assert_eq!(
        parse(RECORD_SAMPLE, 2, &data, &info),
        Some(Record::Sample(SampleRecord {
            pid: Some(10),
            tid: Some(11),
            timestamp: Some(77),
            period: Some(500),
            ip: Some(0x4010),
            cpu_mode: CpuMode::User,
            callchain: Some(vec![0x4010, 0x4020]),
            user_regs: None,
            user_stack: None,
        }))
    );
}

#[test]
fn registers_and_stack_of_a_sample_are_read() {
    let info = ParseInfo {
        sample_regs_user: 0b10_0001,
        regs_count: 2,
        ..info(SAMPLE_TID | REGS_USER | STACK_USER)
    };
    let mut data = words(&[pair(1, 2), 2, 100, 200, 3]);
    data.extend([7, 8, 9]);
    data.extend(words(&[3]));
    let mut values = vec![None; 64];
    values[0] = Some(100);
    values[5] = Some(200);
    assert_eq!(
        parse(RECORD_SAMPLE, 1, &data, &info),
        Some(Record::Sample(SampleRecord {
            pid: Some(1),
            tid: Some(2),
            timestamp: None,
            period: None,
            ip: None,
            cpu_mode: CpuMode::Kernel,
            callchain: None,
            user_regs: Some(Regs { values }),
            user_stack: Some(vec![7, 8, 9]),
        }))
    );
}

#[test]
fn cpu_modes_are_told_apart() {
    let modes = [
        CpuMode::Unknown,
        CpuMode::Kernel,
        CpuMode::User,
        CpuMode::Hypervisor,
        CpuMode::GuestKernel,
        CpuMode::GuestUser,
    ];
    for (misc, mode) in modes.into_iter().enumerate() {
        match parse(RECORD_SAMPLE, misc as u16, &[], &info(0)) {
            Some(Record::Sample(e)) => assert_eq!(e.cpu_mode, mode),
            other => panic!("{:?}", other),
        }
    }
}

#[test]
fn big_endian_records_are_read() {
    let info = ParseInfo { little_endian: false, ..info(SAMPLE_IP | SAMPLE_CALLCHAIN) };
    let data: Vec<u8> =
        [0x4010u64, 1, 0x4020].iter().flat_map(|word| word.to_be_bytes()).collect();
    match parse(RECORD_SAMPLE, 0, &data, &info) {
        Some(Record::Sample(e)) => {
            assert_eq!(e.ip, Some(0x4010));
            assert_eq!(e.callchain, Some(vec![0x4020]));
        }
        other => panic!("{:?}", other),
    }
    let bad: Vec<u8> = [0x4010u64, 1 << 61].iter().flat_map(|word| word.to_be_bytes()).collect();
    assert!(!is_parsable(RECORD_SAMPLE, 0, &bad, &info));
    let good: Vec<u8> = [0x4010u64, 0xff].iter().flat_map(|word| word.to_be_bytes()).collect();
    assert!(is_parsable(RECORD_SAMPLE, 0, &good, &info));
}

#[test]
fn lives_and_names_of_threads_are_read() {
    let mut data = words(&[pair(10, 1), pair(11, 2), 99]);
    let life = ForkOrExitRecord { pid: 10, tid: 11, timestamp: 99 };
    assert_eq!(parse(FORK, 0, &data, &info(0)), Some(Record::Fork(life)));
    assert_eq!(parse(EXIT, 0, &data, &info(0)), Some(Record::Exit(life)));
    data = words(&[pair(10, 11)]);
    data.extend(b"name\0rest");
    for (misc, is_execve) in [(0, false), (FLAG, true)] {
        assert_eq!(
            parse(COMM, misc, &data, &info(0)),
            Some(Record::Comm(CommOrExecRecord {
                pid: 10,
                tid: 11,
                name: b"name".to_vec(),
                is_execve,
            }))
        );
    }
}

#[test]
fn mappings_are_read() {
    let mut data = words(&[pair(u32::MAX, 0), 0x1000, 0x2000, 0x3000]);
    data.extend(b"/lib/libfoo.so\0");
    for (misc, is_executable) in [(1, true), (FLAG | 1, false)] {
        assert_eq!(
            parse(MMAP, misc, &data, &info(0)),
            Some(Record::Mmap(MmapRecord {
                pid: -1,
                address: 0x1000,
                length: 0x2000,
                page_offset: 0x3000,
                is_executable,
                cpu_mode: CpuMode::Kernel,
                path: b"/lib/libfoo.so".to_vec(),
            }))
        );
    }
}

fn mmap2_data(file_id: &[u8; 24]) -> Vec<u8> {
    let mut data = words(&[pair(10, 11), 0x1000, 0x2000, 0x3000]);
    data.extend(file_id);
    data.extend(words(&[pair(5, 2)]));
    data.extend(b"/lib/libfoo.so\0");
    data
}

#[test]
fn mappings_with_protection_bits_are_read() {
    let mut build_id = [0; 24];
    build_id[0] = 3;
    build_id[4..7].copy_from_slice(&[1, 2, 3]);
    let record = |file_id| {
        Some(Record::Mmap2(Mmap2Record {
            pid: 10,
            address: 0x1000,
            length: 0x2000,
            page_offset: 0x3000,
            file_id,
            protection: 5,
            cpu_mode: CpuMode::User,
            path: b"/lib/libfoo.so".to_vec(),
        }))
    };
    let data = mmap2_data(&build_id);
    assert_eq!(
        parse(RECORD_MMAP2, MISC_MMAP_BUILD_ID | 2, &data, &info(0)),
        record(Mmap2FileId::BuildId(vec![1, 2, 3]))
    );
    assert_eq!(
        parse(RECORD_MMAP2, 2, &data, &info(0)),
        record(Mmap2FileId::InodeAndVersion)
    );
}

#[test]
fn context_switches_come_with_their_common_data() {
    let info = info_with_common_data();
    let data = words(&[pair(10, 11), 99]);
    let common = CommonData { pid: Some(10), tid: Some(11), timestamp: Some(99) };
    assert_eq!(
        parse(SWITCH, 0, &data, &info),
        Some(Record::ContextSwitch(ContextSwitchRecord::In, Some(common)))
    );
    assert_eq!(
        parse(SWITCH, FLAG, &data, &info),
        Some(Record::ContextSwitch(ContextSwitchRecord::Out, Some(common)))
    );
    let mut wide = words(&[pair(20, 21)]);
    wide.extend(&data);
    assert_eq!(
        parse(SWITCH_CPU_WIDE, FLAG, &wide, &info),
        Some(Record::ContextSwitch(ContextSwitchRecord::Out, Some(common)))
    );
    assert_eq!(
        parse(SWITCH, 0, &data[..8], &info),
        Some(Record::ContextSwitch(ContextSwitchRecord::In, None))
    );
}

#[test]
fn common_data_depends_on_the_format() {
    let common = |data: &[u8], info: &ParseInfo| match parse(SWITCH, 0, data, info) {
        Some(Record::ContextSwitch(ContextSwitchRecord::In, common)) => common,
        other => panic!("{:?}", other),
    };
    let nothing = CommonData { pid: None, tid: None, timestamp: None };
    assert_eq!(common(&[], &info(SAMPLE_TID | SAMPLE_TIME)), Some(nothing));
    let time = ParseInfo { common_data_offset_from_end: Some(16), ..info(SAMPLE_TIME) };
    let data = words(&[1, 99, 2]);
    assert_eq!(common(&data, &time), Some(CommonData { timestamp: Some(99), ..nothing }));
    let all = ParseInfo {
        common_data_offset_from_end: Some(24),
        ..info(SAMPLE_TID | SAMPLE_TIME | SAMPLE_IDENTIFIER)
    };
    let data = words(&[7, pair(u32::MAX, 5), 99, 3]);
    assert_eq!(
        common(&data, &all),
        Some(CommonData { pid: Some(-1), tid: Some(5), timestamp: Some(99) })
    );
    let short = ParseInfo { common_data_offset_from_end: Some(16), ..all };
    assert_eq!(common(&data, &short), None);
    let big = ParseInfo { little_endian: false, ..all };
    let swapped: Vec<u8> = [pair(5, 6), 99, 3].iter().flat_map(|word| word.to_be_bytes()).collect();
    assert_eq!(
        common(&swapped, &big),
        Some(CommonData { pid: Some(6), tid: Some(5), timestamp: Some(99) })
    );
}

#[test]
fn timestamps_are_found() {
    let info = info_with_common_data();
    assert_eq!(timestamp_of(SWITCH, 0, &words(&[pair(10, 11), 99]), &info), Some(99));
    assert_eq!(timestamp_of(RECORD_SAMPLE, 0, &words(&[1, 2, 3]), &info), Some(3));
    assert_eq!(timestamp_of(RECORD_SAMPLE, 0, &words(&[1, 2]), &info), None);
    assert_eq!(timestamp_of(SWITCH, 0, &[1, 2], &info), None);
    assert_eq!(timestamp_of(1000, 0, &words(&[1, 2]), &info), None);
    let shifted = ParseInfo { sample_record_time_offset_from_start: Some(3), ..info };
    let data = [0, 0, 0, 4, 1, 0, 0, 0, 0, 0, 0, 9];
    assert_eq!(timestamp_of(RECORD_SAMPLE, 0, &data, &shifted), Some(0x104));
    let big = ParseInfo { little_endian: false, ..shifted };
    assert_eq!(timestamp_of(RECORD_SAMPLE, 0, &data, &big), Some(0x0401_0000_0000_0000));
}

#[test]
fn records_of_other_kinds_say_nothing() {
    assert_eq!(parse(LOST, 0, &words(&[1, 2]), &info(0)), Some(Record::Other));
    assert_eq!(parse(1000, 0, &[], &info(0)), Some(Record::Other));
}

#[test]
fn records_that_are_cut_short_cannot_be_parsed() {
    assert_eq!(parse(FORK, 0, &words(&[1, 2]), &info(0)), None);
    assert_eq!(parse(RECORD_SAMPLE, 0, &[0; 7], &info(SAMPLE_IP)), None);
    let data = words(&[2, 0x4010]);
    assert_eq!(parse(RECORD_SAMPLE, 0, &data, &info(SAMPLE_CALLCHAIN)), None);
}

#[test]
fn bits_without_a_meaning_are_dropped() {
    let unknown = ParseInfo {
        branch_sample_format: u64::MAX,
        read_format: !0x7,
        ..info(SAMPLE_IP | !SAMPLE_FORMAT_MASK)
    };
    let known = unknown.without_unknown_bits();
    assert_eq!(known.sample_format, SAMPLE_IP);
    assert_eq!(known.branch_sample_format, 0x3_ffff);
    assert_eq!(known.read_format, READ_GROUP);
    let data = words(&[0x4010]);
    assert_eq!(
        parse(RECORD_SAMPLE, 0, &data, &unknown),
        parse(RECORD_SAMPLE, 0, &data, &info(SAMPLE_IP))
    );
}

#[test]
fn long_build_ids_are_noticed() {
    let mut build_id = [0; 24];
    build_id[0] = 21;
    let data = mmap2_data(&build_id);
    assert!(!is_parsable(RECORD_MMAP2, MISC_MMAP_BUILD_ID, &data, &info(0)));
    assert!(is_parsable(RECORD_MMAP2, 0, &data, &info(0)));
    assert!(is_parsable(MMAP, MISC_MMAP_BUILD_ID, &data, &info(0)));
    assert_eq!(parse(RECORD_MMAP2, MISC_MMAP_BUILD_ID, &data[..32], &info(0)), None);
}

#[test]
fn uncountable_callchains_are_noticed() {
    let bad = 1 << 61;
    let plain = info(SAMPLE_IDENTIFIER | SAMPLE_TIME | SAMPLE_CALLCHAIN);
    assert!(!is_parsable(RECORD_SAMPLE, 0, &words(&[1, 2, bad]), &plain));
    assert!(is_parsable(RECORD_SAMPLE, 0, &words(&[bad, bad, 0]), &plain));
    assert!(is_parsable(RECORD_SAMPLE, 0, &words(&[1, 2, bad])[..23], &plain));
    assert!(is_parsable(FORK, 0, &words(&[1, 2, bad]), &plain));
    assert_eq!(parse(RECORD_SAMPLE, 0, &words(&[1, 2, bad - 1]), &plain), None);
}

#[test]
fn callchain_follows_the_counter_values() {
    let bad = 1 << 61;
    let format = SAMPLE_IP | SAMPLE_READ | SAMPLE_CALLCHAIN;
    let group = ParseInfo { read_format: READ_GROUP | READ_ID, ..info(format) };
    assert!(!is_parsable(RECORD_SAMPLE, 0, &words(&[1, bad, bad, bad]), &group));
    assert!(is_parsable(RECORD_SAMPLE, 0, &words(&[1, bad, bad, 0]), &group));
    let counted = ParseInfo { read_format: READ_ID | READ_TOTAL_TIME_ENABLED, ..info(format) };
    let data = words(&[1, 2, bad, bad, bad, bad, bad, bad]);
    assert!(!is_parsable(RECORD_SAMPLE, 0, &data, &counted));
    let data = words(&[1, 2, bad, bad, bad, bad, bad, 1, 0x4010]);
    match parse(RECORD_SAMPLE, 0, &data, &counted) {
        Some(Record::Sample(e)) => assert_eq!(e.callchain, Some(vec![0x4010])),
        other => panic!("{:?}", other),
    }
    assert!(is_parsable(RECORD_SAMPLE, 0, &words(&[1, u64::MAX, 0]), &counted));
    assert!(is_parsable(RECORD_SAMPLE, 0, &words(&[1]), &counted));
}

fn reading<'a>(record_type: u32, data: &'a [u8], info: ParseInfo) -> Reading<'a> {
    Reading::Record(UnparsedRecord { attr_index: 3, record_type, misc: 0, data, info })
}

#[test]
fn each_reading_has_its_step() {
    let info = info_with_common_data();
    let data = words(&[0x4010, pair(10, 11), 77]);
    let record = parse(RECORD_SAMPLE, 0, &data, &info).unwrap();
    assert_eq!(
        next_step(&reading(RECORD_SAMPLE, &data, info)),
        Step::Take { attr_index: 3, record, timestamp: Some(77) }
    );
    assert_eq!(next_step(&reading(RECORD_SAMPLE, &data[..10], info)), Step::Skip);
    let bad = ParseInfo { sample_format: SAMPLE_CALLCHAIN, ..info };
    assert_eq!(next_step(&reading(RECORD_SAMPLE, &words(&[1 << 61]), bad)), Step::GiveUp);
    assert_eq!(next_step(&Reading::End), Step::Stop);
    assert_eq!(next_step(&Reading::Failed), Step::Stop);
    assert_eq!(
        take_parsed(5, Some(Record::Other), Some(8)),
        Step::Take { attr_index: 5, record: Record::Other, timestamp: Some(8) }
    );
    assert_eq!(take_parsed(5, None, Some(8)), Step::Skip);
}

/// Converts a recording, and gives the profile.
fn convert(readings: &[Reading]) -> serde_json::Value {
    let interpretation = EventInterpretation {
        main_event_attr_index: 3,
        main_event_name: "cycles".to_string(),
        sampling_is_time_based: None,
        have_time_based_cpu_deltas: true,
        sched_switch_attr_index: None,
    };
    let mut converter: Converter<u32> = Converter::new(
        "Some product",
        ReferenceTimestamp::from_millis_since_unix_epoch(0.0),
        BuildIds::new(),
        0,
        "some-host",
        "6.1",
        None,
        true,
        &interpretation,
    );
    for reading in readings {
        match next_step(reading) {
            Step::Take { attr_index, record, timestamp } => {
                let outcome = converter
                    .handle_record(&interpretation, attr_index, &record, timestamp, &None);
                assert_eq!(outcome, Ok(Outcome::Done));
            }
            Step::Skip => {}
            Step::Stop => break,
            Step::GiveUp => panic!(),
        }
    }
    serde_json::to_value(converter.finish()).unwrap()
}

#[test]
fn passed_over_records_leave_no_trace() {
    let info = info_with_common_data();
    let first = words(&[0x4010, pair(10, 11), 2_000_000]);
    let second = words(&[0x4020, pair(20, 20), 1_000_000]);
    let name = {
        let mut name = words(&[pair(10, 11)]);
        name.extend(b"some\0\0\0\0");
        name
    };
    let cut = &first[..10];
    let lost = words(&[1, 2]);
    let all = [
        reading(SWITCH, cut, info),
        reading(RECORD_SAMPLE, &first, info),
        reading(RECORD_SAMPLE, cut, info),
        reading(LOST, &lost, info),
        reading(RECORD_SAMPLE, &second, info),
        reading(COMM, &name, info),
        Reading::Failed,
        reading(RECORD_SAMPLE, &first, info),
    ];
    let kept = [all[1], all[4], all[5]];
    let profile = convert(&all);
    assert_eq!(profile, convert(&kept));
    assert_eq!(profile["threads"].as_array().unwrap().len(), 2);
    assert_ne!(profile, convert(&[all[4], all[5]]));
    assert_eq!(profile["meta"]["product"], "some on some-host (perf version 6.1)");
}
