//! What reading a recording comes to.

use vstd::prelude::*;
use crate::recording::{
    can_parse, common_data, data_word, number_in, parse_result, parsed_record, record_timestamp,
    ParseInfo, ParsedView, ReadingView, StepView,
};
use crate::records::RecordView;
use crate::unwind::little_endian;

verus! {

/// The number in eight bytes is read in the byte order of the recording.
pub proof fn law_words_are_read_in_byte_order(data: Seq<u8>, start: int)
    requires
        0 <= start,
        start + 8 <= data.len(),
    ensures
        number_in(data, start, start + 8, true) == data[start] + 0x100 * data[start + 1] + 0x1_0000
            * data[start + 2] + 0x100_0000 * data[start + 3] + 0x1_0000_0000 * data[start + 4]
            + 0x100_0000_0000 * data[start + 5] + 0x1_0000_0000_0000 * data[start + 6]
            + 0x100_0000_0000_0000 * data[start + 7],
        number_in(data, start, start + 8, false) == data[start + 7] + 0x100 * data[start + 6]
            + 0x1_0000 * data[start + 5] + 0x100_0000 * data[start + 4] + 0x1_0000_0000 * data[start
            + 3] + 0x100_0000_0000 * data[start + 2] + 0x1_0000_0000_0000 * data[start + 1]
            + 0x100_0000_0000_0000 * data[start],
        number_in(data, start, start + 4, true) == data[start] + 0x100 * data[start + 1] + 0x1_0000
            * data[start + 2] + 0x100_0000 * data[start + 3],
        number_in(data, start, start + 4, false) == data[start + 3] + 0x100 * data[start + 2]
            + 0x1_0000 * data[start + 1] + 0x100_0000 * data[start],
        start % 8 == 0 ==> data_word(data, start / 8, true) == number_in(
            data,
            start,
            start + 8,
            true,
        ) && data_word(data, start / 8, false) == number_in(data, start, start + 8, false),
{
    reveal_with_fuel(little_endian, 9);
}

/// The formats of an event have 25, 18 and four bits with a meaning. All others are dropped, and
/// nothing else changes.
pub proof fn law_unknown_bits_are_dropped(info: ParseInfo)
    ensures
        info.known().sample_format == info.sample_format & 0x1ff_ffff,
        info.known().branch_sample_format == info.branch_sample_format & 0x3_ffff,
        info.known().read_format == info.read_format & 0xf,
        info.known().little_endian == info.little_endian,
        info.known().common_data_offset_from_end == info.common_data_offset_from_end,
        info.known().sample_regs_user == info.sample_regs_user,
        info.known().regs_count == info.regs_count,
        info.known().nonsample_record_time_offset_from_end
            == info.nonsample_record_time_offset_from_end,
        info.known().nonsample_record_id_offset_from_end
            == info.nonsample_record_id_offset_from_end,
        info.known().sample_record_time_offset_from_start
            == info.sample_record_time_offset_from_start,
        info.known().sample_record_id_offset_from_start == info.sample_record_id_offset_from_start,
{
}

/// Every record can be parsed but two: a mapping that comes with a build ID of more than twenty
/// bytes, and a sample whose callchain has more bytes than can be counted. Where the length of
/// the callchain stands is not looked at in samples without one.
pub proof fn law_what_can_be_parsed(record_type: u32, misc: u16, data: Seq<u8>, info: ParseInfo)
    ensures
        record_type != 9 && record_type != 10 ==> can_parse(record_type, misc, data, info),
        record_type == 10 ==> (can_parse(record_type, misc, data, info) <==> misc & 0x4000u16 == 0
            || data.len() <= 32 || data[32] <= 20),
        record_type == 9 && info.sample_format & 0x20u64 == 0 ==> can_parse(
            record_type,
            misc,
            data,
            info,
        ),
        record_type == 9 && info.sample_format & 0x20u64 != 0 ==> {
            let place = info.callchain_length_index(data);
            can_parse(record_type, misc, data, info) <==> 8 * place + 8 > data.len() || 8
                * number_in(data, 8 * place, 8 * place + 8, info.little_endian) <= usize::MAX
        },
{
}

/// One for a bit that is set, zero for one that is not.
pub open spec fn set(bits: u64, flag: u64) -> int {
    if bits & flag == 0 {
        0
    } else {
        1
    }
}

/// The length of a callchain stands behind one word for each of these that a sample has: an
/// identifier, an instruction pointer, process and thread, time, address, ID, stream ID, CPU and
/// period. Counter values come in between: the value of a group, or a count and as many values,
/// with the times and the IDs that they have.
pub proof fn law_callchain_length_comes_behind_what_a_sample_has(data: Seq<u8>, info: ParseInfo)
    ensures
        ({
            let f = info.sample_format;
            let r = info.read_format;
            let words = set(f, 0x1_0000) + set(f, 0x1) + set(f, 0x2) + set(f, 0x4) + set(f, 0x8)
                + set(f, 0x40) + set(f, 0x200) + set(f, 0x80) + set(f, 0x100);
            let place = info.callchain_length_index(data);
            &&& f & 0x10u64 == 0 ==> place == words
            &&& f & 0x10u64 != 0 && r & 0x8u64 != 0 ==> place == words + 1 + set(r, 0x1) + set(
                r,
                0x2,
            ) + set(r, 0x4)
            &&& f & 0x10u64 != 0 && r & 0x8u64 == 0 && r & 0x4u64 == 0 ==> place == words + 1 + set(
                r,
                0x1,
            ) + set(r, 0x2) + number_in(data, 8 * words, 8 * words + 8, info.little_endian)
            &&& f & 0x10u64 != 0 && r & 0x8u64 == 0 && r & 0x4u64 != 0 ==> place == words + 1 + set(
                r,
                0x1,
            ) + set(r, 0x2) + 2 * number_in(data, 8 * words, 8 * words + 8, info.little_endian)
        }),
{
    let f = info.sample_format;
    let words = set(f, 0x1_0000) + set(f, 0x1) + set(f, 0x2) + set(f, 0x4) + set(f, 0x8) + set(
        f,
        0x40,
    ) + set(f, 0x200) + set(f, 0x80) + set(f, 0x100);
    assert(words == info.leading_words());
    let count = data_word(data, words, info.little_endian);
    assert(count * (1 + 1) == 2 * count && count * (1 + 0) == count) by (nonlinear_arith);
}

/// A record says what parsing found in its bytes, of the same kind; a context switch also says
/// which process and thread it is of and when it was, where its bytes do. Nothing is said where
/// parsing fails.
pub proof fn law_record_says_what_was_parsed(
    record_type: u32,
    misc: u16,
    data: Seq<u8>,
    info: ParseInfo,
)
    ensures
        ({
            let parsed = parse_result(record_type, misc, data, info);
            let record = parsed_record(record_type, misc, data, info);
            &&& parsed is None <==> record is None
            &&& parsed matches Some(ParsedView::Sample(e)) ==> record == Some(RecordView::Sample(e))
            &&& parsed matches Some(ParsedView::Fork(e)) ==> record == Some(RecordView::Fork(e))
            &&& parsed matches Some(ParsedView::Exit(e)) ==> record == Some(RecordView::Exit(e))
            &&& parsed matches Some(ParsedView::Comm(e)) ==> record == Some(RecordView::Comm(e))
            &&& parsed matches Some(ParsedView::Mmap(e)) ==> record == Some(RecordView::Mmap(e))
            &&& parsed matches Some(ParsedView::Mmap2(e)) ==> record == Some(RecordView::Mmap2(e))
            &&& parsed matches Some(ParsedView::ContextSwitch(e)) ==> record == Some(
                RecordView::ContextSwitch(e, common_data(data, info)),
            )
            &&& parsed == Some(ParsedView::Other) ==> record == Some(RecordView::Other)
        }),
{
}

/// The process and the thread stand at the given distance from the end of a record, four bytes
/// each, where the format has them, and the time in the eight bytes behind them or in their
/// place. Nothing can be read where the record is shorter than that distance, or the distance
/// than what the format has. Where no distance is given there is nothing to read.
pub proof fn law_common_data_stands_at_the_end(data: Seq<u8>, info: ParseInfo)
    ensures
        ({
            let f = info.sample_format;
            let little = info.little_endian;
            let words = set(f, 0x2) + set(f, 0x4) + set(f, 0x40) + set(f, 0x200) + set(f, 0x80)
                + set(f, 0x1_0000);
            let common = common_data(data, info);
            match info.common_data_offset_from_end {
                None => common matches Some(common) && common.pid is None && common.tid is None
                    && common.timestamp is None,
                Some(distance) => {
                    let start = data.len() - distance;
                    &&& common is Some <==> distance <= data.len() && 8 * words <= distance
                    &&& common matches Some(common) ==> {
                        &&& f & 0x2u64 == 0 ==> common.pid is None && common.tid is None
                        &&& f & 0x2u64 != 0 ==> {
                            &&& common.pid == Some(number_in(data, start, start + 4, little) as i32)
                            &&& common.tid == Some(
                                number_in(data, start + 4, start + 8, little) as i32,
                            )
                        }
                        &&& f & 0x4u64 == 0 ==> common.timestamp is None
                        &&& f & 0x4u64 != 0 && f & 0x2u64 != 0 ==> common.timestamp == Some(
                            number_in(data, start + 8, start + 16, little) as u64,
                        )
                        &&& f & 0x4u64 != 0 && f & 0x2u64 == 0 ==> common.timestamp == Some(
                            number_in(data, start, start + 8, little) as u64,
                        )
                    }
                },
            }
        }),
{
}

/// The timestamp of a sample stands at the given distance from its start, that of any other
/// record of the kernel at the given distance from its end. Other records have none, and neither
/// has a record that is too short.
pub proof fn law_timestamp_stands_at_its_distance(
    record_type: u32,
    data: Seq<u8>,
    info: ParseInfo,
)
    ensures
        ({
            let time = record_timestamp(record_type, data, info);
            let little = info.little_endian;
            &&& record_type >= 64 ==> time is None
            &&& record_type == 9 ==> match info.sample_record_time_offset_from_start {
                Some(at) => if at + 8 <= data.len() {
                    time == Some(number_in(data, at as int, at + 8, little) as u64)
                } else {
                    time is None
                },
                None => time is None,
            }
            &&& record_type < 64 && record_type != 9 ==>
                match info.nonsample_record_time_offset_from_end {
                Some(distance) => if 8 <= distance <= data.len() {
                    let at = data.len() - distance;
                    time == Some(number_in(data, at, at + 8, little) as u64)
                } else {
                    time is None
                },
                None => time is None,
            }
        }),
{
}

/// After reading, a record that can be parsed is taken as the record of its event, with its
/// timestamp; one on which parsing fails is passed over. The end of the recording and a failure
/// to read stop the conversion. Nothing goes on at a record that cannot be parsed at all.
pub proof fn law_step_follows_what_was_read(reading: ReadingView)
    ensures
        reading is End ==> reading.step() is Stop,
        reading is Failed ==> reading.step() is Stop,
        reading matches ReadingView::Record(raw) ==> {
            let record = parsed_record(raw.record_type, raw.misc, raw.data, raw.info);
            if !can_parse(raw.record_type, raw.misc, raw.data, raw.info) {
                reading.step() is GiveUp
            } else if record is None {
                reading.step() is Skip
            } else {
                reading.step() matches StepView::Take { attr_index, record: taken, timestamp }
                    && attr_index == raw.attr_index && taken == record->0 && timestamp
                    == record_timestamp(raw.record_type, raw.data, raw.info)
            }
        },
{
}

} // verus!
