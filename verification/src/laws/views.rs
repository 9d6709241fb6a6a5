//! That what is said of values says all that they hold.

use vstd::prelude::*;
use fxprof_processed_profile::CategoryPairHandle;
use crate::converter::{mapping_result, unwind_view};
use crate::dispatch::{record_result, Outcome, OutcomeView, RecordError};
use crate::ids::{
    ascii, is_memory, optional_bytes, optional_code_id, optional_key, DsoBuildId, DsoKey,
    DsoKeyView,
};
use crate::module::{
    module_result, optional_text_data, Mapping, Module, ModuleError, ModuleErrorView, TextData,
    UnwindData, UnwindDataView, UnwindModule,
};
use crate::object_file::{
    optional_data, optional_debug_id, optional_section, optional_text_segment, NamedSection,
    ObjectFile, Segment, TextSegment,
};
use crate::profile::{category_index, numbered_frames, optional_text, DebugId, Frame, Library};
use crate::recording::{optional_record, Reading, ReadingView, Step, StepView, UnparsedRecord};
use crate::records::{
    CommOrExecRecord, Mmap2FileId, Mmap2Record, MmapRecord, Record, RecordView, SampleRecord,
};
use crate::state::MmapError;
use crate::tables::{library_views, Thread};

verus! {

/// What is said of a sample is what it holds.
pub proof fn law_sample_view(e: SampleRecord)
    ensures
        e@.pid == e.pid,
        e@.tid == e.tid,
        e@.timestamp == e.timestamp,
        e@.period == e.period,
        e@.ip == e.ip,
        e@.cpu_mode == e.cpu_mode,
        e.callchain is None <==> e@.callchain is None,
        e.callchain matches Some(chain) ==> e@.callchain == Some(chain@),
        e.user_regs is None <==> e@.user_regs is None,
        e.user_regs matches Some(regs) ==> e@.user_regs == Some(regs.values@),
        e.user_stack is None <==> e@.user_stack is None,
        e.user_stack matches Some(stack) ==> e@.user_stack == Some(stack@),
{
}

/// What is said of mappings is what they hold.
pub proof fn law_mapping_views(a: MmapRecord, b: Mmap2Record, c: Mapping)
    ensures
        a@.pid == a.pid,
        a@.address == a.address,
        a@.length == a.length,
        a@.page_offset == a.page_offset,
        a@.is_executable == a.is_executable,
        a@.cpu_mode == a.cpu_mode,
        a@.path == a.path@,
        b@.pid == b.pid,
        b@.address == b.address,
        b@.length == b.length,
        b@.page_offset == b.page_offset,
        b@.protection == b.protection,
        b@.cpu_mode == b.cpu_mode,
        b@.path == b.path@,
        b.file_id matches Mmap2FileId::BuildId(build_id) ==> b@.build_id == Some(build_id@),
        b.file_id is InodeAndVersion ==> b@.build_id is None,
        c@.path == c.path@,
        c@.page_offset == c.page_offset,
        c@.address == c.address,
        c@.length == c.length,
        c@.build_id == optional_data(c.build_id),
{
}

/// What is said of a record is what it holds, and of what kind it is.
pub proof fn law_record_view(record: Record, name: CommOrExecRecord)
    ensures
        name@.pid == name.pid,
        name@.tid == name.tid,
        name@.name == name.name@,
        name@.is_execve == name.is_execve,
        record matches Record::Sample(e) ==> record@ == RecordView::Sample(e@),
        record matches Record::Fork(e) ==> record@ == RecordView::Fork(e),
        record matches Record::Exit(e) ==> record@ == RecordView::Exit(e),
        record matches Record::Comm(e) ==> record@ == RecordView::Comm(e@),
        record matches Record::Mmap(e) ==> record@ == RecordView::Mmap(e@),
        record matches Record::Mmap2(e) ==> record@ == RecordView::Mmap2(e@),
        record matches Record::ContextSwitch(e, common) ==> record@ == RecordView::ContextSwitch(
            e,
            common,
        ),
        record is Other ==> record@ is Other,
        optional_record(Some(record)) == Some(record@),
        optional_record(None) is None,
{
}

/// What is said of a library is what it holds.
pub proof fn law_library_view(library: Library, libraries: Seq<Library>, i: int)
    requires
        0 <= i < libraries.len(),
    ensures
        library@.base_avma == library.base_avma,
        library@.avma_start == library.avma_start,
        library@.avma_end == library.avma_end,
        library@.info.name == library.name@,
        library@.info.debug_name == library.debug_name@,
        library@.info.path == library.path@,
        library@.info.debug_path == library.debug_path@,
        library@.info.guid == library.debug_id.guid@,
        library@.info.age == library.debug_id.age,
        library@.info.code_id == optional_text(library.code_id),
        library@.mapped().base_avma == library.base_avma,
        library@.mapped().avma_end == library.avma_end,
        library@.mapped().info == library@.info,
        library_views(libraries).len() == libraries.len(),
        library_views(libraries)[i] == libraries[i]@,
{
}

/// What is said of something that may be missing is said of it where it is there, and that it
/// is missing where it is not.
pub proof fn law_optional_views(
    text: String,
    bytes: &[u8],
    data: Vec<u8>,
    build_id: Seq<u8>,
    section: NamedSection,
    segment: TextSegment,
    code: TextData,
    debug_id: DebugId,
    key: DsoKey,
    unwind: UnwindModule,
)
    ensures
        optional_text(Some(text)) == Some(text@),
        optional_text(None) is None,
        optional_bytes(Some(bytes)) == Some(bytes@),
        optional_bytes(None) is None,
        optional_data(Some(data)) == Some(data@),
        optional_data(None) is None,
        optional_code_id(Some(build_id)) == Some(crate::ids::hex(build_id)),
        optional_code_id(None) is None,
        optional_section(Some(section)) == Some(section@),
        optional_section(None) is None,
        optional_text_segment(Some(segment)) == Some(segment@),
        optional_text_segment(None) is None,
        optional_text_data(Some(code)) == Some(code@),
        optional_text_data(None) is None,
        optional_debug_id(Some(debug_id)) == Some((debug_id.guid@, debug_id.age)),
        optional_debug_id(None) is None,
        optional_key(Some(key)) == Some(key@),
        optional_key(None) is None,
        unwind_view(Some(unwind)) == Some(unwind@),
        unwind_view(None) is None,
{
}

/// What is said of a binary is what was read of it.
pub proof fn law_object_file_view(object: ObjectFile, section: NamedSection, segment: Segment)
    ensures
        object@.sections == object.sections@,
        object@.text == optional_section(object.text),
        object@.text_env == optional_section(object.text_env),
        object@.eh_frame == optional_section(object.eh_frame),
        object@.eh_frame_hdr == optional_section(object.eh_frame_hdr),
        object@.got == optional_section(object.got),
        object@.text_segment == optional_text_segment(object.text_segment),
        object@.build_id == optional_data(object.build_id),
        object@.debug_id == optional_debug_id(object.debug_id),
        section@.address == section.address,
        section@.size == section.size,
        section@.file_range == section.file_range,
        section@.data == optional_data(section.data),
        segment@.name == optional_data(segment.name),
        segment@.file_range == segment.file_range,
        object.text_segment matches Some(text) ==> text@.file_range == text.file_range && text@.data
            == optional_data(text.data),
{
}

/// What is said of a module is what the unwinder and the profile are told.
pub proof fn law_module_view(module: Module, unwind: UnwindModule)
    ensures
        module.unwind is None <==> module@.unwind is None,
        module.unwind matches Some(unwind) ==> module@.unwind == Some(unwind@),
        module.library is None <==> module@.library is None,
        module.library matches Some(library) ==> module@.library == Some(library@),
        unwind@.name == unwind.name@,
        unwind@.avma_start == unwind.avma_start,
        unwind@.avma_end == unwind.avma_end,
        unwind@.base_avma == unwind.base_avma,
        unwind@.base_svma == unwind.base_svma,
        unwind@.text == unwind.text,
        unwind@.text_env == unwind.text_env,
        unwind@.eh_frame == unwind.eh_frame,
        unwind@.eh_frame_hdr == unwind.eh_frame_hdr,
        unwind@.got == unwind.got,
        unwind.unwind_data matches UnwindData::EhFrameHdrAndEhFrame(hdr, data)
            ==> unwind@.unwind_data == UnwindDataView::EhFrameHdrAndEhFrame(hdr@, data@),
        unwind.unwind_data matches UnwindData::EhFrame(data) ==> unwind@.unwind_data
            == UnwindDataView::EhFrame(data@),
        unwind.unwind_data is Missing ==> unwind@.unwind_data is Missing,
        unwind@.text_data == optional_text_data(unwind.text_data),
        unwind.text_data matches Some(text) ==> text@.avma_start == text.avma_start
            && text@.avma_end == text.avma_end && text@.bytes == text.bytes@,
        module_result(Ok(module)) == Ok::<crate::module::ModuleView, ModuleErrorView>(module@),
{
}

/// What is said of an error is which one it is.
pub proof fn law_module_error_view(error: ModuleError)
    ensures
        error is AddressOverflow <==> error@ is AddressOverflow,
        error is UnrecognizedFormat <==> error@ is UnrecognizedFormat,
        error is MissingBuildId <==> error@ is MissingBuildId,
        error is NoCoveringSection <==> error@ is NoCoveringSection,
        error matches ModuleError::WrongBuildId { found, expected } ==> error@
            == (ModuleErrorView::WrongBuildId { found: found@, expected: expected@ }),
        module_result(Err(error)) == Err::<crate::module::ModuleView, ModuleErrorView>(error@),
{
}

/// What is said of an outcome is what is left to do.
pub proof fn law_outcome_view(outcome: Outcome, error: RecordError, mapping: Mapping, e: MmapError)
    ensures
        outcome is Done ==> outcome@ is Done,
        outcome matches Outcome::Load { pid, mapping } ==> outcome@ == (OutcomeView::Load {
            pid,
            mapping: mapping@,
        }),
        outcome matches Outcome::DoubleSwitchOut { tid, first, again } ==> outcome@
            == (OutcomeView::DoubleSwitchOut { tid, first, again }),
        record_result(Ok(outcome)) == Ok::<OutcomeView, RecordError>(outcome@),
        record_result(Err(error)) == Err::<OutcomeView, RecordError>(error),
        mapping_result(Ok(Some(mapping))) == Ok::<Option<crate::module::MappingView>, MmapError>(
            Some(mapping@),
        ),
        mapping_result(Ok(None)) == Ok::<Option<crate::module::MappingView>, MmapError>(None),
        mapping_result(Err(e)) == Err::<Option<crate::module::MappingView>, MmapError>(e),
{
}

/// What is said of a reading is what was read, without bits that have no meaning, and of a step
/// what is to be done.
pub proof fn law_reading_view(raw: UnparsedRecord, reading: Reading, step: Step)
    ensures
        raw@.attr_index == raw.attr_index,
        raw@.record_type == raw.record_type,
        raw@.misc == raw.misc,
        raw@.data == raw.data@,
        raw@.info == raw.info.known(),
        reading matches Reading::Record(raw) ==> reading@ == ReadingView::Record(raw@),
        reading is End ==> reading@ is End,
        reading is Failed ==> reading@ is Failed,
        step matches Step::Take { attr_index, record, timestamp } ==> step@ == (StepView::Take {
            attr_index,
            record: record@,
            timestamp,
        }),
        step is Skip ==> step@ is Skip,
        step is Stop ==> step@ is Stop,
        step is GiveUp ==> step@ is GiveUp,
{
}

/// What is said of a key and of an entry in the build ID table is what they hold.
pub proof fn law_key_view(key: DsoKey, info: DsoBuildId)
    ensures
        key is Kernel ==> key@ is Kernel,
        key is GuestKernel ==> key@ is GuestKernel,
        key is Vdso32 ==> key@ is Vdso32,
        key is VdsoX32 ==> key@ is VdsoX32,
        key is Vdso64 ==> key@ is Vdso64,
        key is Vsyscall ==> key@ is Vsyscall,
        key matches DsoKey::KernelModule(name) ==> key@ == DsoKeyView::KernelModule(name@),
        key matches DsoKey::User(name, path) ==> key@ == DsoKeyView::User(name@, path@),
        info@.path == info.path@,
        info@.build_id == info.build_id@,
{
}

/// What is said of a thread is what is remembered of it.
pub proof fn law_thread_view(thread: Thread)
    ensures
        thread@.index == crate::profile::thread_index(thread.profile_thread),
        thread@.process == crate::profile::process_index(thread.profile_process),
        thread@.last_sample_timestamp == thread.last_sample_timestamp,
        thread@.state == thread.state,
        thread.off_cpu_stack is None <==> thread@.off_cpu_stack is None,
        thread.off_cpu_stack matches Some(stack) ==> thread@.off_cpu_stack == Some(stack@),
{
}

/// Frames with the numbers of their categories are the same frames, in order.
pub proof fn law_numbered_frames(frames: Seq<(Frame, CategoryPairHandle)>, i: int)
    requires
        0 <= i < frames.len(),
    ensures
        numbered_frames(frames).len() == frames.len(),
        numbered_frames(frames)[i].0 == frames[i].0,
        numbered_frames(frames)[i].1 == category_index(frames[i].1),
{
}

/// Four paths stand for memory that belongs to no file, and no others.
pub proof fn law_memory_paths(path: Seq<u8>)
    ensures
        is_memory(path) <==> {
            ||| path =~= seq![0x2fu8, 0x2f, 0x61, 0x6e, 0x6f, 0x6e]
            ||| path =~= seq![0x5bu8, 0x73, 0x74, 0x61, 0x63, 0x6b, 0x5d]
            ||| path =~= seq![0x5bu8, 0x68, 0x65, 0x61, 0x70, 0x5d]
            ||| path =~= seq![0x5bu8, 0x76, 0x76, 0x61, 0x72, 0x5d]
        },
{
    reveal_strlit("//anon");
    reveal_strlit("[stack]");
    reveal_strlit("[heap]");
    reveal_strlit("[vvar]");
    assert(ascii("//anon"@) =~= seq![0x2fu8, 0x2f, 0x61, 0x6e, 0x6f, 0x6e]);
    assert(ascii("[stack]"@) =~= seq![0x5bu8, 0x73, 0x74, 0x61, 0x63, 0x6b, 0x5d]);
    assert(ascii("[heap]"@) =~= seq![0x5bu8, 0x68, 0x65, 0x61, 0x70, 0x5d]);
    assert(ascii("[vvar]"@) =~= seq![0x5bu8, 0x76, 0x76, 0x61, 0x72, 0x5d]);
}

} // verus!
