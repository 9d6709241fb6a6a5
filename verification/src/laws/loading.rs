//! What mappings come to: what is loaded for them, and what the profile and the unwinder are
//! told.

use vstd::prelude::*;
use vstd::utf8::{decode_utf8, valid_utf8};
use crate::dispatch::{OutcomeView, RecordError};
use crate::events::SampleRole;
use crate::ids::{dso_key, hex, identifier_guid, optional_guid, DsoKeyView};
use crate::module::{
    covering_section, image_bias, BiasError, MappingView, ModuleErrorView, ModuleView,
    UnwindDataView,
};
use crate::object_file::{
    find_text_segment, object_build_id, object_debug_id, object_file, object_section,
    object_sections, object_segment_data, object_segments, NamedSectionView, ObjectFileView,
    Section, SegmentView,
};
use crate::profile::LibraryView;
use crate::records::{CpuMode, Mmap2RecordView, MmapRecordView, RecordView};
use crate::stack::UnwoundStack;
use crate::state::{lemma_valid, lemma_with_process_valid, ConverterView, MmapError};
use crate::text::file_name;

verus! {

/// The bits for CPU modes are those of the header of a record.
pub proof fn law_cpu_mode_bits(mode: CpuMode)
    ensures
        mode.bits() == match mode {
            CpuMode::Unknown => 0u16,
            CpuMode::Kernel => 1,
            CpuMode::User => 2,
            CpuMode::Hypervisor => 3,
            CpuMode::GuestKernel => 4,
            CpuMode::GuestUser => 5,
        },
{
}

/// What is loaded for a mapping has the place of the record: its address, its length and its
/// offset in the file. The path is the one in the build ID table where the shared object is
/// there, with the build ID of the table; otherwise it is that of the record, with no build ID.
/// It must be valid UTF-8. Mappings without code and those of no shared object load nothing.
pub proof fn law_mapping_loads_what_was_mapped(
    s: ConverterView,
    role: SampleRole,
    e: MmapRecordView,
    unwound: Option<UnwoundStack>,
)
    requires
        e.pid != -1,
    ensures
        ({
            let result = s.record_result(role, RecordView::Mmap(e), unwound);
            let key = dso_key(e.path, e.cpu_mode.bits());
            let listed = key is Some && s.build_ids.contains_key(key->0);
            let path = if listed {
                s.build_ids[key->0].path
            } else {
                e.path
            };
            if !e.is_executable || key is None {
                result == Ok::<OutcomeView, RecordError>(OutcomeView::Done)
            } else if !valid_utf8(path) {
                result == Err::<OutcomeView, RecordError>(
                    RecordError::Mmap(MmapError::PathIsNotUtf8),
                )
            } else {
                &&& result matches Ok(OutcomeView::Load { pid, mapping }) && {
                    &&& pid == e.pid
                    &&& mapping.address == e.address
                    &&& mapping.length == e.length
                    &&& mapping.page_offset == e.page_offset
                    &&& mapping.path == decode_utf8(path)
                    &&& mapping.build_id == if listed {
                        Some(s.build_ids[key->0].build_id)
                    } else {
                        None
                    }
                }
            }
        }),
{
}

/// What is loaded for a mapping with protection bits has the place and the path of the record.
/// Its build ID is that of the record or, where it has none, that in the build ID table. The
/// mapping must allow execution, and be of a shared object unless it comes with a build ID.
pub proof fn law_mapping_with_protection_loads_what_was_mapped(
    s: ConverterView,
    role: SampleRole,
    e: Mmap2RecordView,
    unwound: Option<UnwoundStack>,
)
    ensures
        ({
            let result = s.record_result(role, RecordView::Mmap2(e), unwound);
            let key = dso_key(e.path, e.cpu_mode.bits());
            let listed = key is Some && s.build_ids.contains_key(key->0);
            if e.protection & 4u32 == 0 || (e.build_id is None && key is None) {
                result == Ok::<OutcomeView, RecordError>(OutcomeView::Done)
            } else if !valid_utf8(e.path) {
                result == Err::<OutcomeView, RecordError>(
                    RecordError::Mmap(MmapError::PathIsNotUtf8),
                )
            } else {
                &&& result matches Ok(OutcomeView::Load { pid, mapping }) && {
                    &&& pid == e.pid
                    &&& mapping.address == e.address
                    &&& mapping.length == e.length
                    &&& mapping.page_offset == e.page_offset
                    &&& mapping.path == decode_utf8(e.path)
                    &&& e.build_id is Some ==> mapping.build_id == e.build_id
                    &&& e.build_id is None && listed ==> mapping.build_id == Some(
                        s.build_ids[key->0].build_id,
                    )
                    &&& e.build_id is None && !listed ==> mapping.build_id is None
                }
            }
        }),
{
}

/// A mapping of code loads the same whether it was recorded with protection bits or without,
/// where the build ID table does not speak of it.
pub proof fn law_both_kinds_of_mappings_load_the_same(
    s: ConverterView,
    role: SampleRole,
    a: MmapRecordView,
    b: Mmap2RecordView,
    unwound: Option<UnwoundStack>,
)
    requires
        a.pid != -1,
        a.pid == b.pid,
        a.address == b.address,
        a.length == b.length,
        a.page_offset == b.page_offset,
        a.cpu_mode == b.cpu_mode,
        a.path == b.path,
        a.is_executable <==> b.protection & 4u32 != 0,
        b.build_id is None,
        dso_key(a.path, a.cpu_mode.bits()) matches Some(key) ==> !s.build_ids.contains_key(key),
    ensures
        s.record_result(role, RecordView::Mmap(a), unwound) == s.record_result(
            role,
            RecordView::Mmap2(b),
            unwound,
        ),
        s.after_record(role, RecordView::Mmap(a), None, unwound) == s.after_record(
            role,
            RecordView::Mmap2(b),
            None,
            unwound,
        ),
{
}

/// A mapping makes its process known where it is of something that could be loaded, and changes
/// nothing else before it is loaded.
pub proof fn law_mapping_makes_its_process_known(
    s: ConverterView,
    role: SampleRole,
    record: RecordView,
    timestamp: Option<u64>,
    unwound: Option<UnwoundStack>,
)
    requires
        record is Mmap || record is Mmap2,
        !(record matches RecordView::Mmap(e) && e.pid == -1),
    ensures
        ({
            let after = s.after_record(role, record, timestamp, unwound);
            let loads = match record {
                RecordView::Mmap(e) => e.is_executable && dso_key(
                    e.path,
                    e.cpu_mode.bits(),
                ) is Some,
                RecordView::Mmap2(e) => e.protection & 4u32 != 0 && (e.build_id is Some || dso_key(
                    e.path,
                    e.cpu_mode.bits(),
                ) is Some),
                _ => false,
            };
            let pid = match record {
                RecordView::Mmap(e) => e.pid,
                RecordView::Mmap2(e) => e.pid,
                _ => 0,
            };
            after == if loads {
                s.with_process(pid)
            } else {
                s
            }
        }),
{
}

/// A piece of the kernel is remembered behind the others, at the place of the record: its base
/// address is where it starts. It bears the name of its shared object. Its path, its debug ID
/// and its code ID come from the build ID table where it is there. The debug information of the
/// kernel itself is taken to be where a distribution installs that of the running version. It is
/// refused where its path is not valid UTF-8 or its end cannot be addressed. Nothing is loaded.
pub proof fn law_kernel_module_is_remembered(
    s: ConverterView,
    role: SampleRole,
    e: MmapRecordView,
    timestamp: Option<u64>,
    unwound: Option<UnwoundStack>,
)
    requires
        e.pid == -1,
    ensures
        ({
            let result = s.record_result(role, RecordView::Mmap(e), unwound);
            let after = s.after_record(role, RecordView::Mmap(e), timestamp, unwound);
            let key = dso_key(e.path, e.cpu_mode.bits());
            let listed = key is Some && s.build_ids.contains_key(key->0);
            let path = if listed {
                s.build_ids[key->0].path
            } else {
                e.path
            };
            if !e.is_executable || key is None {
                &&& result == Ok::<OutcomeView, RecordError>(OutcomeView::Done)
                &&& after == s
            } else if !valid_utf8(path) {
                &&& result == Err::<OutcomeView, RecordError>(
                    RecordError::Mmap(MmapError::PathIsNotUtf8),
                )
                &&& after == s
            } else if e.address + e.length > u64::MAX {
                &&& result == Err::<OutcomeView, RecordError>(
                    RecordError::Mmap(MmapError::AddressOverflow),
                )
                &&& after == s
            } else {
                let module = after.kernel_modules.last();
                let text = decode_utf8(path);
                let is_image = text.len() >= "[kernel.kallsyms]"@.len() && text.take(
                    "[kernel.kallsyms]"@.len() as int,
                ) == "[kernel.kallsyms]"@;
                &&& result == Ok::<OutcomeView, RecordError>(OutcomeView::Done)
                &&& after.kernel_modules.len() == s.kernel_modules.len() + 1
                &&& forall|i: int|
                    0 <= i < s.kernel_modules.len() ==> #[trigger] after.kernel_modules[i]
                        == s.kernel_modules[i]
                &&& after.processes == s.processes
                &&& after.threads == s.threads
                &&& after.profile == s.profile
                &&& module.avma_start == e.address
                &&& module.base_avma == e.address
                &&& module.avma_end == e.address + e.length
                &&& module.info.name == key->0.name()
                &&& module.info.debug_name == key->0.name()
                &&& module.info.path == text
                &&& module.info.debug_path == if is_image && s.linux_version is Some {
                    "/usr/lib/debug/boot/vmlinux-"@ + s.linux_version->0
                } else {
                    text
                }
                &&& module.info.age == 0
                &&& listed ==> {
                    &&& module.info.code_id == Some(hex(s.build_ids[key->0].build_id))
                    &&& module.info.guid == identifier_guid(
                        s.build_ids[key->0].build_id,
                        s.little_endian,
                    )
                }
                &&& !listed ==> {
                    &&& module.info.code_id is None
                    &&& module.info.guid == Seq::new(16, |i: int| 0u8)
                }
            }
        }),
{
}

/// Shared objects are displayed by their names; those of the kernel and of what it maps into
/// processes are in square brackets.
pub proof fn law_shared_object_names(key: DsoKeyView)
    ensures
        key is Kernel ==> key.name() == "[kernel.kallsyms]"@,
        key is GuestKernel ==> key.name() == "[guest.kernel.kallsyms]"@,
        key is Vdso32 ==> key.name() == "[vdso32]"@,
        key is VdsoX32 ==> key.name() == "[vdsox32]"@,
        key is Vdso64 ==> key.name() == "[vdso]"@,
        key is Vsyscall ==> key.name() == "[vsyscall]"@,
        key matches DsoKeyView::KernelModule(name) ==> key.name() == name,
        key matches DsoKeyView::User(name, _) ==> key.name() == name,
{
}

/// A module that was loaded adds its library to its process: behind the others, and by the start
/// of its mapping, where it takes the place of any other. One that gives the profile nothing,
/// and one that cannot be loaded, change nothing.
pub proof fn law_loaded_library_reaches_its_process(
    s: ConverterView,
    pid: i32,
    module: Result<ModuleView, ModuleErrorView>,
)
    requires
        s.valid(),
        s.processes.contains_key(pid),
    ensures
        ({
            let after = s.after_load(pid, module);
            let before = s.profile.processes[s.processes[pid] as int];
            let process = after.profile.processes[s.processes[pid] as int];
            let library = module->Ok_0.library;
            if module is Ok && library is Some {
                let start = library->0.avma_start;
                &&& process.libs == before.libs.push(library->0.info)
                &&& process.mappings.contains_key(start)
                &&& process.mappings[start].base_avma == library->0.base_avma
                &&& process.mappings[start].avma_end == library->0.avma_end
                &&& process.mappings[start].info == library->0.info
                &&& forall|other: u64|
                    other != start ==> (#[trigger] process.mappings.contains_key(other)
                        <==> before.mappings.contains_key(other))
                &&& forall|other: u64| #[trigger]
                    before.mappings.contains_key(other) && other != start
                        ==> process.mappings[other] == before.mappings[other]
            } else {
                after == s
            }
        }),
{
    lemma_valid(s);
}

/// Loading a module into a process that is not known yet makes it known first.
pub proof fn law_loading_makes_its_process_known(
    s: ConverterView,
    pid: i32,
    module: Result<ModuleView, ModuleErrorView>,
)
    requires
        s.valid(),
    ensures
        s.after_load(pid, module) == s.with_process(pid).after_load(pid, module),
        s.after_load(pid, module).processes == s.with_process(pid).processes,
{
    lemma_with_process_valid(s, pid);
}

/// Bytes in hexadecimal digits have two digits for each byte, in order: the higher one first,
/// with lower-case letters.
pub proof fn law_hex_has_two_digits_for_each_byte(bytes: Seq<u8>, i: int)
    requires
        0 <= i < bytes.len(),
    ensures
        hex(bytes).len() == 2 * bytes.len(),
        is_hex_of(hex(bytes)[2 * i], bytes[i] as int / 16),
        is_hex_of(hex(bytes)[2 * i + 1], bytes[i] as int % 16),
    decreases bytes.len(),
{
    crate::ids::lemma_hex_digits(bytes);
    crate::ids::lemma_hex_digits(bytes.drop_last());
    if i < bytes.len() - 1 {
        law_hex_has_two_digits_for_each_byte(bytes.drop_last(), i);
    }
}

/// Whether a character is the lower-case hexadecimal digit for a number.
pub open spec fn is_hex_of(c: char, number: int) -> bool {
    &&& number < 10 ==> c as int == 0x30 + number
    &&& number >= 10 ==> c as int == 0x61 + number - 10
}

/// The GUID for a build ID has its first sixteen bytes, with zeros where it is shorter. For a
/// big-endian binary the bytes of the first three fields, of four, two and two bytes, are in the
/// opposite order. Without a build ID it is all zeros.
pub proof fn law_guid_comes_from_build_id(build_id: Seq<u8>, place: int)
    requires
        0 <= place < 16,
    ensures
        ({
            let padded = |i: int|
                if i < build_id.len() {
                    build_id[i]
                } else {
                    0u8
                };
            let big = identifier_guid(build_id, false);
            &&& identifier_guid(build_id, true).len() == 16
            &&& big.len() == 16
            &&& identifier_guid(build_id, true)[place] == padded(place)
            &&& big[0] == padded(3) && big[1] == padded(2) && big[2] == padded(1) && big[3]
                == padded(0)
            &&& big[4] == padded(5) && big[5] == padded(4)
            &&& big[6] == padded(7) && big[7] == padded(6)
            &&& place >= 8 ==> big[place] == padded(place)
            &&& optional_guid(Some(build_id), true) == identifier_guid(build_id, true)
            &&& optional_guid(Some(build_id), false) == big
            &&& optional_guid(None, true) == Seq::new(16, |i: int| 0u8)
            &&& optional_guid(None, false) == Seq::new(16, |i: int| 0u8)
        }),
{
}

/// The name of a file is what follows the last slash of its path, or the whole path where there
/// is none, unless that means "one up", which names nothing. What means "here", and a slash at
/// the end, are passed over.
pub proof fn law_file_name_is_the_last_component(directory: Seq<char>, name: Seq<char>)
    requires
        forall|i: int| 0 <= i < name.len() ==> #[trigger] name[i] != '/',
    ensures
        ({
            let path = directory.push('/') + name;
            let expected = if name.len() == 0 || name == seq!['.'] {
                file_name(directory)
            } else if name == seq!['.', '.'] {
                None
            } else {
                Some(name)
            };
            &&& file_name(path) == expected
            &&& file_name(name) == if name.len() == 0 || name == seq!['.'] || name == seq![
                '.',
                '.',
            ] {
                None
            } else {
                Some(name)
            }
        }),
{
    let path = directory.push('/') + name;
    lemma_component(path, directory.len() as int + 1, path.len() as int);
    assert(path.skip(directory.len() as int + 1) =~= name);
    assert(path.take(directory.len() as int) =~= directory);
    lemma_component(name, 0, name.len() as int);
    assert(name.skip(0) =~= name);
    if name.len() == 0 {
        assert(name =~= Seq::<char>::empty());
    }
}

/// A component starts behind a slash, or at the start of the path, where no slash comes later.
proof fn lemma_component(path: Seq<char>, start: int, end: int)
    requires
        0 <= start <= end <= path.len(),
        start == 0 || path[start - 1] == '/',
        forall|i: int| start <= i < end ==> #[trigger] path[i] != '/',
    ensures
        crate::text::component_start(path, end) == start,
    decreases end,
{
    if end > start {
        assert(path[end - 1] != '/');
        lemma_component(path, start, end - 1);
    }
}

/// Whether a section holds code and lies in a range of the file.
pub open spec fn is_code_within(section: Section, start: int, end: int) -> bool {
    &&& section.is_text
    &&& section.file_range matches Some((offset, size)) && start <= offset && offset + size <= end
}

/// Whether a section holds code whose place in the file cannot be addressed.
pub open spec fn is_code_beyond(section: Section) -> bool {
    &&& section.is_text
    &&& section.file_range matches Some((offset, size)) && offset + size > u64::MAX
}

/// The bias is found from the first code section that lies in the mapped part of the file.
proof fn lemma_first_covering(sections: Seq<Section>, start: int, end: int, first: int)
    requires
        0 <= first < sections.len(),
        is_code_within(sections[first], start, end) || is_code_beyond(sections[first]),
        end <= u64::MAX,
        forall|i: int|
            0 <= i < first ==> !is_code_within(#[trigger] sections[i], start, end)
                && !is_code_beyond(sections[i]),
    ensures
        covering_section(sections, start, end) == if is_code_beyond(sections[first]) {
            Err::<Section, BiasError>(BiasError::AddressOverflow)
        } else {
            Ok(sections[first])
        },
    decreases sections.len(),
{
    if first > 0 {
        assert(!is_code_within(sections[0], start, end) && !is_code_beyond(sections[0]));
        let later = sections.drop_first();
        assert forall|i: int| 0 <= i < first - 1 implies !is_code_within(
            #[trigger] later[i],
            start,
            end,
        ) && !is_code_beyond(later[i]) by {
            assert(later[i] == sections[i + 1]);
        }
        assert(later[first - 1] == sections[first]);
        lemma_first_covering(later, start, end, first - 1);
    }
}

/// No section covers where none holds code in the mapped part of the file.
proof fn lemma_none_covering(sections: Seq<Section>, start: int, end: int)
    requires
        forall|i: int|
            0 <= i < sections.len() ==> !is_code_within(#[trigger] sections[i], start, end)
                && !is_code_beyond(sections[i]),
    ensures
        covering_section(sections, start, end) == Err::<Section, BiasError>(
            BiasError::NoCoveringSection,
        ),
    decreases sections.len(),
{
    if sections.len() > 0 {
        assert(!is_code_within(sections[0], start, end) && !is_code_beyond(sections[0]));
        let later = sections.drop_first();
        assert forall|i: int| 0 <= i < later.len() implies !is_code_within(
            #[trigger] later[i],
            start,
            end,
        ) && !is_code_beyond(later[i]) by {
            assert(later[i] == sections[i + 1]);
        }
        lemma_none_covering(later, start, end);
    }
}

/// The bias of an image comes from the first code section in the mapped part of the file: it is
/// the distance from the section's address in the file to where it is mapped. It is not known
/// where that distance is negative, or where an address or an offset cannot be expressed.
pub proof fn law_bias_comes_from_the_first_code_section(
    sections: Seq<Section>,
    page_offset: u64,
    address: u64,
    length: u64,
    first: int,
)
    requires
        page_offset + length <= u64::MAX,
        0 <= first < sections.len(),
        is_code_within(sections[first], page_offset as int, page_offset + length) || is_code_beyond(
            sections[first],
        ),
        forall|i: int|
            0 <= i < first ==> !is_code_within(
                #[trigger] sections[i],
                page_offset as int,
                page_offset + length,
            ) && !is_code_beyond(sections[i]),
    ensures
        ({
            let bias = image_bias(sections, page_offset, address, length);
            let mapped_at = address + ((sections[first].file_range->0).0 - page_offset);
            if is_code_beyond(sections[first]) || mapped_at > u64::MAX || mapped_at
                < sections[first].address {
                bias == Err::<u64, BiasError>(BiasError::AddressOverflow)
            } else {
                bias matches Ok(bias) && bias + sections[first].address == mapped_at
            }
        }),
{
    lemma_first_covering(sections, page_offset as int, page_offset + length, first);
}

/// The bias of an image is not known where no code section lies in the mapped part of the file,
/// or where that part cannot be addressed.
pub proof fn law_bias_takes_a_code_section(
    sections: Seq<Section>,
    page_offset: u64,
    address: u64,
    length: u64,
)
    ensures
        page_offset + length > u64::MAX ==> image_bias(sections, page_offset, address, length)
            == Err::<u64, BiasError>(BiasError::AddressOverflow),
        page_offset + length <= u64::MAX && (forall|i: int|
            0 <= i < sections.len() ==> !is_code_within(
                #[trigger] sections[i],
                page_offset as int,
                page_offset + length,
            ) && !is_code_beyond(sections[i])) ==> image_bias(
            sections,
            page_offset,
            address,
            length,
        ) == Err::<u64, BiasError>(BiasError::NoCoveringSection),
{
    if page_offset + length <= u64::MAX && (forall|i: int|
        0 <= i < sections.len() ==> !is_code_within(
            #[trigger] sections[i],
            page_offset as int,
            page_offset + length,
        ) && !is_code_beyond(sections[i])) {
        lemma_none_covering(sections, page_offset as int, page_offset + length);
    }
}

/// Whether a range is that of the addresses of a section: from its first to behind its last.
pub open spec fn is_range_of(range: Option<(u64, u64)>, section: Option<NamedSectionView>) -> bool {
    match section {
        Some(section) => range matches Some((start, end)) && start == section.address && end
            == section.address + section.size,
        None => range is None,
    }
}

/// Whether the addresses of a section can be expressed.
pub open spec fn is_addressable(section: Option<NamedSectionView>) -> bool {
    section matches Some(section) ==> section.address + section.size <= u64::MAX
}

/// A module is made from a file where the mapping can be addressed, the file has the build ID
/// that was asked for, if any was, the bias is known, and all its addresses can be expressed.
/// Otherwise the first of these that fails says why there is none.
pub proof fn law_module_is_refused_for_cause(mapping: MappingView, object: ObjectFileView)
    ensures
        ({
            let result = mapping.module_from_object(object);
            let bias = image_bias(
                object.sections,
                mapping.page_offset,
                mapping.address,
                mapping.length,
            );
            let text = match object.text_segment {
                Some(segment) => Some(segment.file_range),
                None => match object.text {
                    Some(section) => section.file_range,
                    None => None,
                },
            };
            if mapping.address + mapping.length > u64::MAX {
                result == Err::<ModuleView, ModuleErrorView>(ModuleErrorView::AddressOverflow)
            } else if mapping.build_id is Some && object.build_id is None {
                result == Err::<ModuleView, ModuleErrorView>(ModuleErrorView::MissingBuildId)
            } else if mapping.build_id is Some && mapping.build_id != object.build_id {
                result == Err::<ModuleView, ModuleErrorView>(
                    ModuleErrorView::WrongBuildId {
                        found: hex(object.build_id->0),
                        expected: hex(mapping.build_id->0),
                    },
                )
            } else if bias == Err::<u64, BiasError>(BiasError::NoCoveringSection) {
                result == Err::<ModuleView, ModuleErrorView>(ModuleErrorView::NoCoveringSection)
            } else if bias is Err {
                result == Err::<ModuleView, ModuleErrorView>(ModuleErrorView::AddressOverflow)
            } else if is_addressable(object.text) && is_addressable(object.text_env)
                && is_addressable(object.eh_frame) && is_addressable(object.eh_frame_hdr)
                && is_addressable(object.got) && (text matches Some((start, size))
                ==> bias->Ok_0 + start + size <= u64::MAX) {
                result is Ok
            } else {
                result == Err::<ModuleView, ModuleErrorView>(ModuleErrorView::AddressOverflow)
            }
        }),
{
}

/// Whenever a module is made from a file with a debug ID, the profile is told of its library:
/// where it is mapped, with the bias for its base address, under the name of its file, and with
/// the debug ID and the code ID of the file itself, whatever came with the mapping. Of a file
/// without a debug ID the profile is told nothing.
pub proof fn law_file_with_debug_id_reaches_the_profile(
    mapping: MappingView,
    object: ObjectFileView,
)
    requires
        mapping.module_from_object(object) is Ok,
    ensures
        ({
            let module = mapping.module_from_object(object)->Ok_0;
            match object.debug_id {
                Some((guid, age)) => module.library matches Some(library) && {
                    &&& library.avma_start == mapping.address
                    &&& library.avma_end == mapping.address + mapping.length
                    &&& image_bias(
                        object.sections,
                        mapping.page_offset,
                        mapping.address,
                        mapping.length,
                    ) == Ok::<u64, BiasError>(library.base_avma)
                    &&& library.info.guid == guid
                    &&& library.info.age == age
                    &&& object.build_id matches Some(build_id) ==> library.info.code_id == Some(
                        hex(build_id),
                    )
                    &&& object.build_id is None ==> library.info.code_id is None
                    &&& is_named_after(library, mapping.path)
                },
                None => module.library is None,
            }
        }),
{
}

/// Whether a library bears a path and the name of the file there, also for its debug
/// information. A path that names no file has a name that says so.
pub open spec fn is_named_after(library: LibraryView, path: Seq<char>) -> bool {
    &&& library.info.path == path
    &&& library.info.debug_path == path
    &&& library.info.debug_name == library.info.name
    &&& library.info.name == match file_name(path) {
        Some(name) => name,
        None => "<unknown>"@,
    }
}

/// The unwinder is told of every module that is made from a file: where it is mapped, its bias,
/// the addresses of its sections in the file, its unwind tables as far as their bytes can be
/// read, and its code. Addresses in the file are taken to start at zero.
pub proof fn law_file_reaches_the_unwinder(mapping: MappingView, object: ObjectFileView)
    requires
        mapping.module_from_object(object) is Ok,
    ensures
        ({
            let module = mapping.module_from_object(object)->Ok_0;
            let unwind = module.unwind->0;
            let eh_frame = match object.eh_frame {
                Some(section) => section.data,
                None => None,
            };
            let eh_frame_hdr = match object.eh_frame_hdr {
                Some(section) => section.data,
                None => None,
            };
            &&& module.unwind is Some
            &&& unwind.name == mapping.path
            &&& unwind.avma_start == mapping.address
            &&& unwind.avma_end == mapping.address + mapping.length
            &&& image_bias(
                object.sections,
                mapping.page_offset,
                mapping.address,
                mapping.length,
            ) == Ok::<u64, BiasError>(unwind.base_avma)
            &&& unwind.base_svma == 0
            &&& is_range_of(unwind.text, object.text)
            &&& is_range_of(unwind.text_env, object.text_env)
            &&& is_range_of(unwind.eh_frame, object.eh_frame)
            &&& is_range_of(unwind.eh_frame_hdr, object.eh_frame_hdr)
            &&& is_range_of(unwind.got, object.got)
            &&& unwind.unwind_data is Missing <==> eh_frame is None
            &&& unwind.unwind_data is EhFrame <==> eh_frame is Some && eh_frame_hdr is None
            &&& unwind.unwind_data matches UnwindDataView::EhFrame(data) ==> Some(data) == eh_frame
            &&& unwind.unwind_data matches UnwindDataView::EhFrameHdrAndEhFrame(hdr, data) ==> Some(
                data,
            ) == eh_frame && Some(hdr) == eh_frame_hdr
        }),
{
}

/// The code that the unwinder is told of is that of the text segment or, where there is none,
/// that of the text section: its bytes, and its place in the file moved by the bias. There is
/// none where the bytes or the place are not known.
pub proof fn law_code_reaches_the_unwinder(mapping: MappingView, object: ObjectFileView)
    requires
        mapping.module_from_object(object) is Ok,
    ensures
        ({
            let unwind = mapping.module_from_object(object)->Ok_0.unwind->0;
            let (place, bytes) = match (object.text_segment, object.text) {
                (Some(segment), _) => (Some(segment.file_range), segment.data),
                (None, Some(section)) => (section.file_range, section.data),
                (None, None) => (None, None),
            };
            &&& unwind.text_data is Some <==> place is Some && bytes is Some
            &&& unwind.text_data matches Some(text) ==> {
                &&& text.avma_start == unwind.base_avma + (place->0).0
                &&& text.avma_end == unwind.base_avma + (place->0).0 + (place->0).1
                &&& text.bytes == bytes->0
            }
        }),
{
}

/// Where the file cannot be read, the profile is still told of the library: its base address is
/// where the start of the file would be mapped, its identifiers come from the build ID of the
/// mapping. The unwinder is told nothing. There is no module where the mapping or the start of
/// the file cannot be addressed.
pub proof fn law_missing_file_is_guessed(mapping: MappingView)
    ensures
        mapping.module(None) == mapping.module_without_file(),
        mapping.address + mapping.length > u64::MAX || mapping.page_offset > mapping.address
            ==> mapping.module(None) == Err::<ModuleView, ModuleErrorView>(
            ModuleErrorView::AddressOverflow,
        ),
        mapping.address + mapping.length <= u64::MAX && mapping.page_offset <= mapping.address
            ==> (mapping.module(None) matches Ok(module) && module.unwind is None && (
        module.library matches Some(library) && {
            &&& library.avma_start == mapping.address
            &&& library.avma_end == mapping.address + mapping.length
            &&& library.base_avma + mapping.page_offset == mapping.address
            &&& library.info.age == 0
            &&& mapping.build_id matches Some(build_id) ==> library.info.code_id == Some(
                hex(build_id),
            ) && library.info.guid == identifier_guid(build_id, true)
            &&& mapping.build_id is None ==> library.info.code_id is None && library.info.guid
                == Seq::new(16, |i: int| 0u8)
            &&& is_named_after(library, mapping.path)
        })),
{
}

/// A file whose format is not recognized gives no module; one that is recognized is judged by
/// what it says of itself.
pub proof fn law_file_is_judged_by_what_it_says(mapping: MappingView, file: Seq<u8>)
    ensures
        object_file(file) is None ==> mapping.module(Some(file)) == Err::<
            ModuleView,
            ModuleErrorView,
        >(
            if mapping.address + mapping.length > u64::MAX {
                ModuleErrorView::AddressOverflow
            } else {
                ModuleErrorView::UnrecognizedFormat
            },
        ),
        object_file(file) matches Some(object) ==> mapping.module(Some(file))
            == mapping.module_from_object(object),
{
}

/// What is taken from a file: its sections, those of them that unwinding needs by their names,
/// its build ID and its debug ID. The text segment is the first one that bears the name
/// `__TEXT`.
pub proof fn law_object_file_is_read_by_name(file: Seq<u8>)
    ensures
        object_file(file) is Some <==> object_sections(file) is Some,
        object_file(file) matches Some(object) ==> {
            &&& Some(object.sections) == object_sections(file)
            &&& object.text == object_section(file, ".text"@)
            &&& object.text_env == object_section(file, "text_env"@)
            &&& object.eh_frame == object_section(file, ".eh_frame"@)
            &&& object.eh_frame_hdr == object_section(file, ".eh_frame_hdr"@)
            &&& object.got == object_section(file, ".got"@)
            &&& object.build_id == object_build_id(file)
            &&& object.debug_id == object_debug_id(file)
        },
{
}

/// Whether a segment bears the name `__TEXT`.
pub open spec fn is_text_segment(segment: SegmentView) -> bool {
    segment.name matches Some(name) && name =~= seq![95u8, 95, 84, 69, 88, 84]
}

/// The text segment of a file is the first that is named for it, with its place and its bytes.
pub proof fn law_text_segment_is_the_first_named(file: Seq<u8>, index: int)
    requires
        0 <= index < object_segments(file).len(),
        is_text_segment(object_segments(file)[index]),
        forall|i: int| 0 <= i < index ==> !is_text_segment(#[trigger] object_segments(file)[i]),
    ensures
        object_file(file) matches Some(object) ==> (object.text_segment matches Some(segment)
            && segment.file_range == object_segments(file)[index].file_range && segment.data
            == object_segment_data(file, index)),
{
    lemma_find_text_segment(object_segments(file), 0, index);
}

/// The search finds the first segment that is named for its code.
proof fn lemma_find_text_segment(segments: Seq<SegmentView>, from: int, index: int)
    requires
        0 <= from <= index < segments.len(),
        is_text_segment(segments[index]),
        forall|i: int| from <= i < index ==> !is_text_segment(#[trigger] segments[i]),
    ensures
        find_text_segment(segments, from) == Some(index),
    decreases index - from,
{
    assert(seq![95u8, 95, 84, 69, 88, 84] =~= crate::object_file::text_segment_name());
    if from < index {
        assert(!is_text_segment(segments[from]));
        lemma_find_text_segment(segments, from + 1, index);
    }
}

/// A file has no text segment where none is named for it.
pub proof fn law_no_text_segment_without_its_name(file: Seq<u8>)
    requires
        forall|i: int|
            0 <= i < object_segments(file).len() ==> !is_text_segment(
                #[trigger] object_segments(file)[i],
            ),
    ensures
        object_file(file) matches Some(object) ==> object.text_segment is None,
{
    lemma_find_no_text_segment(object_segments(file), 0);
}

/// The search finds nothing where no segment is named for its code.
proof fn lemma_find_no_text_segment(segments: Seq<SegmentView>, from: int)
    requires
        0 <= from <= segments.len(),
        forall|i: int| 0 <= i < segments.len() ==> !is_text_segment(#[trigger] segments[i]),
    ensures
        find_text_segment(segments, from) is None,
    decreases segments.len() - from,
{
    assert(seq![95u8, 95, 84, 69, 88, 84] =~= crate::object_file::text_segment_name());
    if from < segments.len() {
        assert(!is_text_segment(segments[from]));
        lemma_find_no_text_segment(segments, from + 1);
    }
}

} // verus!
