//! The reading of a recording: which records are taken, and what they say.

use vstd::prelude::*;
use linux_perf_event_reader as reader;
use linux_perf_event_reader::records::{ParsedRecord, RawRecord, RecordParseInfo};
use linux_perf_event_reader::{
    BranchSampleFormat, Endianness, ReadFormat, RecordType, SampleFormat,
};
use crate::records::{
    CommOrExecRecord, CommOrExecRecordView, CommonData, ContextSwitchRecord, CpuMode,
    ForkOrExitRecord, Mmap2FileId, Mmap2Record, Mmap2RecordView, MmapRecord, MmapRecordView, Record,
    RecordView, Regs, SampleRecord, SampleRecordView,
};
use crate::unwind::{get_word, little_endian, word_at};

verus! {

/// The type of a record that holds a sample.
pub const RECORD_SAMPLE: u32 = 9;

/// The type of a record that holds a mapping with protection bits.
pub const RECORD_MMAP2: u32 = 10;

/// The types of records that hold a context switch.
pub const RECORD_SWITCH: u32 = 14;

pub const RECORD_SWITCH_CPU_WIDE: u32 = 15;

/// The first of the types of records that do not come from the kernel.
pub const RECORD_USER_TYPE_START: u32 = 64;

/// The bit which says that a mapping with protection bits comes with a build ID.
pub const MISC_MMAP_BUILD_ID: u16 = 0x4000;

/// The bits which say what a sample holds, in the order of their values.
pub const SAMPLE_IP: u64 = 0x1;

pub const SAMPLE_TID: u64 = 0x2;

pub const SAMPLE_TIME: u64 = 0x4;

pub const SAMPLE_ADDR: u64 = 0x8;

pub const SAMPLE_READ: u64 = 0x10;

pub const SAMPLE_CALLCHAIN: u64 = 0x20;

pub const SAMPLE_ID: u64 = 0x40;

pub const SAMPLE_CPU: u64 = 0x80;

pub const SAMPLE_PERIOD: u64 = 0x100;

pub const SAMPLE_STREAM_ID: u64 = 0x200;

pub const SAMPLE_IDENTIFIER: u64 = 0x1_0000;

/// All bits that have a meaning in what a sample holds.
pub const SAMPLE_FORMAT_MASK: u64 = 0x1ff_ffff;

/// The bits which say what the counter values in a sample hold.
pub const READ_TOTAL_TIME_ENABLED: u64 = 0x1;

pub const READ_TOTAL_TIME_RUNNING: u64 = 0x2;

pub const READ_ID: u64 = 0x4;

pub const READ_GROUP: u64 = 0x8;

/// All bits that have a meaning in what the counter values hold.
pub const READ_FORMAT_MASK: u64 = 0xf;

/// All bits that have a meaning in what the branches in a sample hold.
pub const BRANCH_SAMPLE_FORMAT_MASK: u64 = 0x3_ffff;

/// What it takes to parse the records of an event.
#[derive(Debug, Clone, Copy, PartialEq, Eq)]
pub struct ParseInfo {
    pub little_endian: bool,
    pub sample_format: u64,
    pub branch_sample_format: u64,
    pub read_format: u64,
    pub common_data_offset_from_end: Option<u8>,
    pub sample_regs_user: u64,
    pub regs_count: u8,
    pub nonsample_record_time_offset_from_end: Option<u8>,
    pub nonsample_record_id_offset_from_end: Option<u8>,
    pub sample_record_time_offset_from_start: Option<u8>,
    pub sample_record_id_offset_from_start: Option<u8>,
}

impl ParseInfo {
    /// The information without bits that have no meaning.
    pub open spec fn known(self) -> ParseInfo {
        ParseInfo {
            sample_format: self.sample_format & SAMPLE_FORMAT_MASK,
            branch_sample_format: self.branch_sample_format & BRANCH_SAMPLE_FORMAT_MASK,
            read_format: self.read_format & READ_FORMAT_MASK,
            ..self
        }
    }

    /// Drops the bits that have no meaning.
    pub fn without_unknown_bits(&self) -> (info: ParseInfo)
        ensures
            info == self.known(),
    {
        ParseInfo {
            sample_format: self.sample_format & SAMPLE_FORMAT_MASK,
            branch_sample_format: self.branch_sample_format & BRANCH_SAMPLE_FORMAT_MASK,
            read_format: self.read_format & READ_FORMAT_MASK,
            ..*self
        }
    }

    /// How many words of a sample come before the counter values: one for each of these
    /// things that it holds.
    pub open spec fn leading_words(self) -> int {
        flag_count(self.sample_format, SAMPLE_IDENTIFIER) + flag_count(
            self.sample_format,
            SAMPLE_IP,
        ) + flag_count(self.sample_format, SAMPLE_TID) + flag_count(
            self.sample_format,
            SAMPLE_TIME,
        ) + flag_count(self.sample_format, SAMPLE_ADDR) + flag_count(self.sample_format, SAMPLE_ID)
            + flag_count(self.sample_format, SAMPLE_STREAM_ID) + flag_count(
            self.sample_format,
            SAMPLE_CPU,
        ) + flag_count(self.sample_format, SAMPLE_PERIOD)
    }

    /// How many words the counter values in a sample take. The first word says how many values
    /// there are, unless the values are those of a group.
    pub open spec fn read_words(self, data: Seq<u8>) -> int {
        let times = flag_count(self.read_format, READ_TOTAL_TIME_ENABLED) + flag_count(
            self.read_format,
            READ_TOTAL_TIME_RUNNING,
        );
        let ids = flag_count(self.read_format, READ_ID);
        if self.sample_format & SAMPLE_READ == 0 {
            0
        } else if self.read_format & READ_GROUP != 0 {
            1 + times + ids
        } else {
            1 + times + data_word(data, self.leading_words(), self.little_endian) * (1 + ids)
        }
    }

    /// Which word of a sample says how long the callchain is.
    pub open spec fn callchain_length_index(self, data: Seq<u8>) -> int {
        self.leading_words() + self.read_words(data)
    }
}

/// One where a bit is set, zero where it is not.
pub open spec fn flag_count(bits: u64, flag: u64) -> int {
    if bits & flag != 0 {
        1
    } else {
        0
    }
}

/// The number that the bytes in a range stand for.
pub open spec fn number_in(data: Seq<u8>, start: int, end: int, is_little_endian: bool) -> int {
    let bytes = data.subrange(start, end);
    little_endian(
        if is_little_endian {
            bytes
        } else {
            bytes.reverse()
        },
    )
}

/// The word with the given number in a run of eight-byte words.
pub open spec fn data_word(data: Seq<u8>, index: int, is_little_endian: bool) -> int {
    number_in(data, 8 * index, 8 * index + 8, is_little_endian)
}

/// Whether a record can be parsed: the build ID of a mapping has at most twenty bytes, and
/// the bytes of a callchain can be counted.
pub open spec fn can_parse(record_type: u32, misc: u16, data: Seq<u8>, info: ParseInfo) -> bool {
    &&& record_type == RECORD_MMAP2 && misc & MISC_MMAP_BUILD_ID != 0 && data.len() > 32
        ==> data[32] <= 20
    &&& record_type == RECORD_SAMPLE && info.sample_format & SAMPLE_CALLCHAIN != 0 && 8
        * info.callchain_length_index(data) + 8 <= data.len() ==> 8 * data_word(
        data,
        info.callchain_length_index(data),
        info.little_endian,
    ) <= usize::MAX
}

/// Reads a word of a run of eight-byte words.
fn read_word(data: &[u8], index: usize, is_little_endian: bool) -> (word: u64)
    requires
        8 * index + 8 <= data@.len(),
    ensures
        word == data_word(data@, index as int, is_little_endian),
{
    let ghost bytes = data@.subrange(8 * index, 8 * index + 8);
    let ghost ordered = if is_little_endian {
        bytes
    } else {
        bytes.reverse()
    };
    let len: usize = data.len();
    let mut copy: Vec<u8> = Vec::new();
    let mut i: usize = 0;
    while i < 8
        invariant
            i <= 8,
            8 * index + 8 <= len,
            len == data@.len(),
            bytes == data@.subrange(8 * index, 8 * index + 8),
            ordered == if is_little_endian {
                bytes
            } else {
                bytes.reverse()
            },
            copy@ == ordered.take(i as int),
        decreases 8 - i,
    {
        let from: usize = if is_little_endian {
            i
        } else {
            7 - i
        };
        copy.push(data[8 * index + from]);
        assert(copy@ =~= ordered.take(i + 1));
        i = i + 1;
    }
    assert(copy@ =~= ordered);
    assert(copy@.subrange(0, 8) =~= ordered);
    assert(word_at(copy@, 0) is Some);
    get_word(copy.as_slice(), 0).unwrap()
}

/// Counts a bit.
fn count_flag(bits: u64, flag: u64) -> (count: usize)
    ensures
        count == flag_count(bits, flag),
        count <= 1,
{
    if bits & flag != 0 {
        1
    } else {
        0
    }
}

/// Tests whether the bytes of the callchain of a sample can be counted.
fn has_countable_callchain(data: &[u8], info: &ParseInfo) -> (result: bool)
    requires
        info.sample_format & SAMPLE_CALLCHAIN != 0,
    ensures
        result == (8 * info.callchain_length_index(data@) + 8 <= data@.len() ==> 8 * data_word(
            data@,
            info.callchain_length_index(data@),
            info.little_endian,
        ) <= usize::MAX),
{
    let bits: u64 = info.sample_format;
    let leading: usize = count_flag(bits, SAMPLE_IDENTIFIER) + count_flag(bits, SAMPLE_IP)
        + count_flag(bits, SAMPLE_TID) + count_flag(bits, SAMPLE_TIME) + count_flag(
        bits,
        SAMPLE_ADDR,
    ) + count_flag(bits, SAMPLE_ID) + count_flag(bits, SAMPLE_STREAM_ID) + count_flag(
        bits,
        SAMPLE_CPU,
    ) + count_flag(bits, SAMPLE_PERIOD);
    assert(leading == info.leading_words());
    let times: usize = count_flag(info.read_format, READ_TOTAL_TIME_ENABLED) + count_flag(
        info.read_format,
        READ_TOTAL_TIME_RUNNING,
    );
    let ids: usize = count_flag(info.read_format, READ_ID);
    let read: u128 = if bits & SAMPLE_READ == 0 {
        0
    } else if info.read_format & READ_GROUP != 0 {
        (1 + times + ids) as u128
    } else {
        if data.len() / 8 <= leading {
            proof {
                lemma_words_are_not_negative(data@, leading as int, info.little_endian);
                assert(data_word(data@, leading as int, info.little_endian) * (1 + ids) >= 0)
                    by (nonlinear_arith)
                    requires
                        data_word(data@, leading as int, info.little_endian) >= 0,
                        ids >= 0,
                ;
            }
            return true;
        }
        let values: u64 = read_word(data, leading, info.little_endian);
        proof {
            assert(values * (1 + ids) == if ids == 0 {
                values as int
            } else {
                2 * values
            }) by (nonlinear_arith)
                requires
                    0 <= ids <= 1,
            ;
        }
        let read_values: u128 = if ids == 0 {
            values as u128
        } else {
            2 * (values as u128)
        };
        (1 + times) as u128 + read_values
    };
    assert(read == info.read_words(data@));
    if leading as u128 + read >= (data.len() / 8) as u128 {
        return true;
    }
    let index: usize = leading + read as usize;
    let length: u64 = read_word(data, index, info.little_endian);
    length as u128 * 8 <= usize::MAX as u128
}

/// Bytes never stand for a number below zero.
proof fn lemma_little_endian_is_not_negative(bytes: Seq<u8>)
    ensures
        little_endian(bytes) >= 0,
    decreases bytes.len(),
{
    if bytes.len() > 0 {
        lemma_little_endian_is_not_negative(bytes.drop_first());
    }
}

/// No word is a number below zero.
proof fn lemma_words_are_not_negative(data: Seq<u8>, index: int, is_little_endian: bool)
    ensures
        data_word(data, index, is_little_endian) >= 0,
{
    let bytes = data.subrange(8 * index, 8 * index + 8);
    lemma_little_endian_is_not_negative(bytes);
    lemma_little_endian_is_not_negative(bytes.reverse());
}

/// Tests whether a record can be parsed.
pub fn is_parsable(record_type: u32, misc: u16, data: &[u8], info: &ParseInfo) -> (result: bool)
    ensures
        result == can_parse(record_type, misc, data@, info.known()),
{
    let info: ParseInfo = info.without_unknown_bits();
    if record_type == RECORD_MMAP2 && misc & MISC_MMAP_BUILD_ID != 0 && data.len() > 32 {
        data[32] <= 20
    } else if record_type == RECORD_SAMPLE && info.sample_format & SAMPLE_CALLCHAIN != 0 {
        has_countable_callchain(data, &info)
    } else {
        true
    }
}

/// What parsing made of a record.
#[verifier::external_type_specification]
#[verifier::external_body]
pub struct ExParsedRecord<'a>(ParsedRecord<'a>);

/// What the parser has to know of an event.
#[verifier::external_type_specification]
#[verifier::external_body]
pub struct ExRecordParseInfo(RecordParseInfo);

/// What a parsed record says.
#[verifier::ext_equal]
pub enum ParsedView {
    Sample(SampleRecordView),
    Fork(ForkOrExitRecord),
    Exit(ForkOrExitRecord),
    Comm(CommOrExecRecordView),
    Mmap(MmapRecordView),
    Mmap2(Mmap2RecordView),
    ContextSwitch(ContextSwitchRecord),
    Other,
}

impl ParsedView {
    /// The CPU mode that a sample or a mapping was taken in.
    pub open spec fn cpu_mode(self) -> CpuMode {
        match self {
            ParsedView::Sample(e) => e.cpu_mode,
            ParsedView::Mmap(e) => e.cpu_mode,
            ParsedView::Mmap2(e) => e.cpu_mode,
            _ => CpuMode::Unknown,
        }
    }
}

/// The fields of what the parser has to know of an event.
pub uninterp spec fn parse_info_fields(info: RecordParseInfo) -> ParseInfo;

/// Fills a `RecordParseInfo`. The three formats go through `from_bits_truncate`, which drops
/// the bits that have no meaning.
#[verifier::external_body]
fn make_parse_info(info: &ParseInfo) -> (made: RecordParseInfo)
    ensures
        parse_info_fields(made) == info.known(),
{
    RecordParseInfo {
        endian: if info.little_endian { Endianness::LittleEndian } else { Endianness::BigEndian },
        sample_format: SampleFormat::from_bits_truncate(info.sample_format),
        branch_sample_format: BranchSampleFormat::from_bits_truncate(info.branch_sample_format),
        read_format: ReadFormat::from_bits_truncate(info.read_format),
        common_data_offset_from_end: info.common_data_offset_from_end,
        sample_regs_user: info.sample_regs_user,
        regs_count: info.regs_count,
        nonsample_record_time_offset_from_end: info.nonsample_record_time_offset_from_end,
        nonsample_record_id_offset_from_end: info.nonsample_record_id_offset_from_end,
        sample_record_time_offset_from_start: info.sample_record_time_offset_from_start,
        sample_record_id_offset_from_start: info.sample_record_id_offset_from_start,
    }
}

/// What the fields of a parsed record say.
pub uninterp spec fn parsed_fields(record: ParsedRecord) -> ParsedView;

/// What parsing makes of the bytes of a record, where it does not fail.
pub uninterp spec fn parse_result(
    record_type: u32,
    misc: u16,
    data: Seq<u8>,
    info: ParseInfo,
) -> Option<ParsedView>;

/// Calls `RawRecord::parse`: reads what the bytes of a record say, or fails. The result is
/// named; beyond that it is only said which types of records are context switches. The call
/// would panic on a build ID of more than twenty bytes and on a callchain whose bytes cannot be
/// counted.
#[verifier::external_body]
fn parse_raw<'a>(record_type: u32, misc: u16, data: &'a [u8], info: &RecordParseInfo) -> (parsed:
    Option<ParsedRecord<'a>>)
    requires
        can_parse(record_type, misc, data@, parse_info_fields(*info)),
    ensures
        match parsed {
            Some(record) => parse_result(record_type, misc, data@, parse_info_fields(*info))
                == Some(parsed_fields(record)),
            None => parse_result(record_type, misc, data@, parse_info_fields(*info)) is None,
        },
        parsed matches Some(record) ==> parsed_fields(record) is ContextSwitch ==> record_type
            == RECORD_SWITCH || record_type == RECORD_SWITCH_CPU_WIDE,
{
    RawRecord::new(RecordType(record_type), misc, data.into(), *info).parse().ok()
}

/// The process, the thread and the time that the bytes of a record other than a sample name
/// beside what the record itself says, where they can be read. They stand at the end, in front
/// of up to four other words.
pub open spec fn common_data(data: Seq<u8>, info: ParseInfo) -> Option<CommonData> {
    let format = info.sample_format;
    let little = info.little_endian;
    let words = flag_count(format, SAMPLE_TID) + flag_count(format, SAMPLE_TIME) + flag_count(
        format,
        SAMPLE_ID,
    ) + flag_count(format, SAMPLE_STREAM_ID) + flag_count(format, SAMPLE_CPU) + flag_count(
        format,
        SAMPLE_IDENTIFIER,
    );
    match info.common_data_offset_from_end {
        Some(offset) => {
            let start = data.len() - offset;
            let time = start + 8 * flag_count(format, SAMPLE_TID);
            let has_ids = format & SAMPLE_TID != 0;
            if 8 * words <= offset <= data.len() {
                Some(
                    CommonData {
                        pid: if has_ids {
                            Some(number_in(data, start, start + 4, little) as i32)
                        } else {
                            None
                        },
                        tid: if has_ids {
                            Some(number_in(data, start + 4, start + 8, little) as i32)
                        } else {
                            None
                        },
                        timestamp: if format & SAMPLE_TIME != 0 {
                            Some(number_in(data, time, time + 8, little) as u64)
                        } else {
                            None
                        },
                    },
                )
            } else {
                None
            }
        },
        None => Some(CommonData { pid: None, tid: None, timestamp: None }),
    }
}

/// Calls `RawRecord::common_data` for a record of the kernel other than a sample: reads the
/// process, the thread and the time at the end of the record, as far as the format of the event
/// has them, and fails where the record is too short for what the format has.
#[verifier::external_body]
fn read_common_data(record_type: u32, misc: u16, data: &[u8], info: &RecordParseInfo) -> (common:
    Option<CommonData>)
    requires
        record_type < RECORD_USER_TYPE_START,
        record_type != RECORD_SAMPLE,
    ensures
        common == common_data(data@, parse_info_fields(*info)),
{
    let record = RawRecord::new(RecordType(record_type), misc, data.into(), *info);
    record.common_data().ok().map(
        |common| CommonData { pid: common.pid, tid: common.tid, timestamp: common.timestamp },
    )
}

/// The timestamp that the bytes of a record hold, where they hold one. In a sample its place is
/// counted from the start, in other records of the kernel from the end.
pub open spec fn record_timestamp(record_type: u32, data: Seq<u8>, info: ParseInfo) -> Option<
    u64,
> {
    let start = if record_type >= RECORD_USER_TYPE_START {
        None
    } else if record_type == RECORD_SAMPLE {
        match info.sample_record_time_offset_from_start {
            Some(offset) => Some(offset as int),
            None => None,
        }
    } else {
        match info.nonsample_record_time_offset_from_end {
            Some(offset) => Some(data.len() - offset),
            None => None,
        }
    };
    match start {
        Some(start) if 0 <= start && start + 8 <= data.len() => Some(
            number_in(data, start, start + 8, info.little_endian) as u64,
        ),
        _ => None,
    }
}

/// Calls `RawRecord::timestamp`: reads the eight bytes that hold the timestamp of a record, or
/// gives `None` where the format of the event has none, the record does not come from the
/// kernel, or it is too short.
#[verifier::external_body]
fn read_timestamp(record_type: u32, misc: u16, data: &[u8], info: &RecordParseInfo) -> (timestamp:
    Option<u64>)
    ensures
        timestamp == record_timestamp(record_type, data@, parse_info_fields(*info)),
{
    RawRecord::new(RecordType(record_type), misc, data.into(), *info).timestamp()
}

/// Reads the CPU mode of a `ParsedRecord`, where it has one.
#[verifier::external_body]
fn get_cpu_mode(record: &ParsedRecord) -> (mode: CpuMode)
    ensures
        mode == parsed_fields(*record).cpu_mode(),
{
    match match record {
        ParsedRecord::Sample(e) => e.cpu_mode,
        ParsedRecord::Mmap(e) => e.cpu_mode,
        ParsedRecord::Mmap2(e) => e.cpu_mode,
        _ => reader::CpuMode::Unknown,
    } {
        reader::CpuMode::Unknown => CpuMode::Unknown,
        reader::CpuMode::Kernel => CpuMode::Kernel,
        reader::CpuMode::User => CpuMode::User,
        reader::CpuMode::Hypervisor => CpuMode::Hypervisor,
        reader::CpuMode::GuestKernel => CpuMode::GuestKernel,
        reader::CpuMode::GuestUser => CpuMode::GuestUser,
    }
}

/// Reads the sample in a `ParsedRecord`, where it is one. Its CPU mode is the one given.
#[verifier::external_body]
fn get_sample(record: &ParsedRecord, cpu_mode: CpuMode) -> (sample: Option<SampleRecord>)
    ensures
        match parsed_fields(*record) {
            ParsedView::Sample(e) => sample matches Some(sample) && sample@ == (SampleRecordView {
                cpu_mode,
                ..e
            }),
            _ => sample is None,
        },
{
    match record {
        ParsedRecord::Sample(e) => Some(SampleRecord {
            pid: e.pid,
            tid: e.tid,
            timestamp: e.timestamp,
            period: e.period,
            ip: e.ip,
            cpu_mode,
            callchain: e.callchain.map(|c| (0..c.len()).map(|i| c.get(i).unwrap()).collect()),
            user_regs: e.user_regs.as_ref().map(
                |regs| Regs { values: (0..64).map(|i| regs.get(i)).collect() }),
            user_stack: e.user_stack.map(|(stack, _)| stack.as_slice().into_owned()),
        }),
        _ => None,
    }
}

/// Reads the name, the start or the end of a thread in a `ParsedRecord`, where it is one.
#[verifier::external_body]
fn get_thread_record(record: &ParsedRecord) -> (result: Option<Record>)
    ensures
        match parsed_fields(*record) {
            ParsedView::Comm(e) => result matches Some(record) && record@ == RecordView::Comm(e),
            ParsedView::Fork(e) => result matches Some(record) && record@ == RecordView::Fork(e),
            ParsedView::Exit(e) => result matches Some(record) && record@ == RecordView::Exit(e),
            _ => result is None,
        },
{
    match record {
        ParsedRecord::Comm(e) => Some(Record::Comm(CommOrExecRecord {
            pid: e.pid,
            tid: e.tid,
            name: e.name.as_slice().into_owned(),
            is_execve: e.is_execve,
        })),
        ParsedRecord::Fork(e) => Some(Record::Fork(
            ForkOrExitRecord { pid: e.pid, tid: e.tid, timestamp: e.timestamp })),
        ParsedRecord::Exit(e) => Some(Record::Exit(
            ForkOrExitRecord { pid: e.pid, tid: e.tid, timestamp: e.timestamp })),
        _ => None,
    }
}

/// Reads the mapping in a `ParsedRecord`, where it is one. Its CPU mode is the one given.
#[verifier::external_body]
fn get_mmap(record: &ParsedRecord, cpu_mode: CpuMode) -> (mmap: Option<MmapRecord>)
    ensures
        match parsed_fields(*record) {
            ParsedView::Mmap(e) => mmap matches Some(mmap) && mmap@ == (MmapRecordView {
                cpu_mode,
                ..e
            }),
            _ => mmap is None,
        },
{
    match record {
        ParsedRecord::Mmap(e) => Some(MmapRecord {
            pid: e.pid,
            address: e.address,
            length: e.length,
            page_offset: e.page_offset,
            is_executable: e.is_executable,
            cpu_mode,
            path: e.path.as_slice().into_owned(),
        }),
        _ => None,
    }
}

/// Reads the mapping with protection bits in a `ParsedRecord`, where it is one. Its CPU mode is
/// the one given.
#[verifier::external_body]
fn get_mmap2(record: &ParsedRecord, cpu_mode: CpuMode) -> (mmap: Option<Mmap2Record>)
    ensures
        match parsed_fields(*record) {
            ParsedView::Mmap2(e) => mmap matches Some(mmap) && mmap@ == (Mmap2RecordView {
                cpu_mode,
                ..e
            }),
            _ => mmap is None,
        },
{
    let ParsedRecord::Mmap2(e) = record else { return None };
    Some(Mmap2Record {
        pid: e.pid,
        address: e.address,
        length: e.length,
        page_offset: e.page_offset,
        file_id: match &e.file_id {
            reader::records::Mmap2FileId::BuildId(id) => Mmap2FileId::BuildId(id.clone()),
            _ => Mmap2FileId::InodeAndVersion,
        },
        protection: e.protection,
        cpu_mode,
        path: e.path.as_slice().into_owned(),
    })
}

/// Reads the context switch in a `ParsedRecord`, where it is one.
#[verifier::external_body]
fn get_context_switch(record: &ParsedRecord) -> (result: Option<ContextSwitchRecord>)
    ensures
        match parsed_fields(*record) {
            ParsedView::ContextSwitch(e) => result == Some(e),
            _ => result is None,
        },
{
    match record {
        ParsedRecord::ContextSwitch(e) => match e {
            reader::records::ContextSwitchRecord::In { .. } => Some(ContextSwitchRecord::In),
            reader::records::ContextSwitchRecord::Out { .. } => Some(ContextSwitchRecord::Out),
        },
        _ => None,
    }
}

/// What the bytes of a record say, where they can be parsed. A context switch comes with its
/// common data where that can be read.
pub open spec fn parsed_record(
    record_type: u32,
    misc: u16,
    data: Seq<u8>,
    info: ParseInfo,
) -> Option<RecordView> {
    match parse_result(record_type, misc, data, info) {
        Some(ParsedView::Sample(e)) => Some(RecordView::Sample(e)),
        Some(ParsedView::Fork(e)) => Some(RecordView::Fork(e)),
        Some(ParsedView::Exit(e)) => Some(RecordView::Exit(e)),
        Some(ParsedView::Comm(e)) => Some(RecordView::Comm(e)),
        Some(ParsedView::Mmap(e)) => Some(RecordView::Mmap(e)),
        Some(ParsedView::Mmap2(e)) => Some(RecordView::Mmap2(e)),
        Some(ParsedView::ContextSwitch(e)) => Some(
            RecordView::ContextSwitch(e, common_data(data, info)),
        ),
        Some(ParsedView::Other) => Some(RecordView::Other),
        None => None,
    }
}

/// What a record says, where there is one.
pub open spec fn optional_record(record: Option<Record>) -> Option<RecordView> {
    match record {
        Some(record) => Some(record@),
        None => None,
    }
}

/// Parses a record. Gives `None` where that fails.
pub fn parse_record(record_type: u32, misc: u16, data: &[u8], info: &ParseInfo) -> (record: Option<
    Record,
>)
    requires
        can_parse(record_type, misc, data@, info.known()),
    ensures
        optional_record(record) == parsed_record(record_type, misc, data@, info.known()),
{
    let info: RecordParseInfo = make_parse_info(info);
    let parsed: ParsedRecord = match parse_raw(record_type, misc, data, &info) {
        Some(parsed) => parsed,
        None => return None,
    };
    let cpu_mode: CpuMode = get_cpu_mode(&parsed);
    if let Some(e) = get_sample(&parsed, cpu_mode) {
        return Some(Record::Sample(e));
    }
    if let Some(record) = get_thread_record(&parsed) {
        return Some(record);
    }
    if let Some(e) = get_mmap(&parsed, cpu_mode) {
        return Some(Record::Mmap(e));
    }
    if let Some(e) = get_mmap2(&parsed, cpu_mode) {
        return Some(Record::Mmap2(e));
    }
    if let Some(e) = get_context_switch(&parsed) {
        return Some(Record::ContextSwitch(e, read_common_data(record_type, misc, data, &info)));
    }
    Some(Record::Other)
}

/// Reads the timestamp of a record, where it has one.
pub fn timestamp_of(record_type: u32, misc: u16, data: &[u8], info: &ParseInfo) -> (timestamp:
    Option<u64>)
    ensures
        timestamp == record_timestamp(record_type, data@, info.known()),
{
    read_timestamp(record_type, misc, data, &make_parse_info(info))
}

/// A record that was read, before it is parsed, with the number of the event that it is of.
#[derive(Debug, Clone, Copy)]
pub struct UnparsedRecord<'a> {
    pub attr_index: usize,
    pub record_type: u32,
    pub misc: u16,
    pub data: &'a [u8],
    pub info: ParseInfo,
}

/// What an `UnparsedRecord` says.
#[verifier::ext_equal]
pub struct UnparsedView {
    pub attr_index: usize,
    pub record_type: u32,
    pub misc: u16,
    pub data: Seq<u8>,
    pub info: ParseInfo,
}

impl<'a> View for UnparsedRecord<'a> {
    type V = UnparsedView;

    open spec fn view(&self) -> UnparsedView {
        UnparsedView {
            attr_index: self.attr_index,
            record_type: self.record_type,
            misc: self.misc,
            data: self.data@,
            info: self.info.known(),
        }
    }
}

/// What reading a recording came to: a record, its end, or a failure.
#[derive(Debug, Clone, Copy)]
pub enum Reading<'a> {
    Record(UnparsedRecord<'a>),
    End,
    Failed,
}

/// What a `Reading` says.
#[verifier::ext_equal]
pub enum ReadingView {
    Record(UnparsedView),
    End,
    Failed,
}

impl<'a> View for Reading<'a> {
    type V = ReadingView;

    open spec fn view(&self) -> ReadingView {
        match self {
            Reading::Record(record) => ReadingView::Record(record@),
            Reading::End => ReadingView::End,
            Reading::Failed => ReadingView::Failed,
        }
    }
}

/// What is to be done after reading.
#[derive(Debug, PartialEq, Eq)]
pub enum Step {
    /// The record is taken. It is of the event with this number.
    Take { attr_index: usize, record: Record, timestamp: Option<u64> },
    /// The record could not be parsed and is passed over.
    Skip,
    /// The recording is over. What was converted so far stands.
    Stop,
    /// The record is such that nothing can go on: see `can_parse`.
    GiveUp,
}

/// What a `Step` says.
#[verifier::ext_equal]
pub enum StepView {
    Take { attr_index: usize, record: RecordView, timestamp: Option<u64> },
    Skip,
    Stop,
    GiveUp,
}

impl View for Step {
    type V = StepView;

    open spec fn view(&self) -> StepView {
        match self {
            Step::Take { attr_index, record, timestamp } => StepView::Take {
                attr_index: *attr_index,
                record: record@,
                timestamp: *timestamp,
            },
            Step::Skip => StepView::Skip,
            Step::Stop => StepView::Stop,
            Step::GiveUp => StepView::GiveUp,
        }
    }
}

/// What is to be done with a record, given what parsing made of it.
pub open spec fn step_after_parsing(
    attr_index: usize,
    record: Option<RecordView>,
    timestamp: Option<u64>,
) -> StepView {
    match record {
        Some(record) => StepView::Take { attr_index, record, timestamp },
        None => StepView::Skip,
    }
}

impl ReadingView {
    /// What is to be done after reading: a record that can be parsed is taken, one on which
    /// parsing fails is passed over, and a failure to read ends the recording as its end does.
    pub open spec fn step(self) -> StepView {
        match self {
            ReadingView::Record(raw) => if can_parse(
                raw.record_type,
                raw.misc,
                raw.data,
                raw.info,
            ) {
                step_after_parsing(
                    raw.attr_index,
                    parsed_record(raw.record_type, raw.misc, raw.data, raw.info),
                    record_timestamp(raw.record_type, raw.data, raw.info),
                )
            } else {
                StepView::GiveUp
            },
            ReadingView::End => StepView::Stop,
            ReadingView::Failed => StepView::Stop,
        }
    }
}

/// Tells what is to be done with a record, given what parsing made of it.
pub fn take_parsed(attr_index: usize, record: Option<Record>, timestamp: Option<u64>) -> (step:
    Step)
    ensures
        step@ == step_after_parsing(attr_index, optional_record(record), timestamp),
{
    match record {
        Some(record) => Step::Take { attr_index, record, timestamp },
        None => Step::Skip,
    }
}

/// Parses what was read, and tells what is to be done.
pub fn next_step(reading: &Reading) -> (step: Step)
    ensures
        step@ == reading@.step(),
{
    let raw: &UnparsedRecord = match reading {
        Reading::Record(raw) => raw,
        Reading::End => return Step::Stop,
        Reading::Failed => return Step::Stop,
    };
    if !is_parsable(raw.record_type, raw.misc, raw.data, &raw.info) {
        return Step::GiveUp;
    }
    let record: Option<Record> = parse_record(raw.record_type, raw.misc, raw.data, &raw.info);
    let timestamp: Option<u64> = timestamp_of(raw.record_type, raw.misc, raw.data, &raw.info);
    take_parsed(raw.attr_index, record, timestamp)
}

} // verus!
