//! What holds of modules.

use vstd::prelude::*;
use crate::module::{covering_section, image_bias, MappingView};
use crate::object_file::{ObjectFileView, Section};
use crate::profile::{
    is_nearest, lemma_library_at, library_at, Frame, FrameLocation, LibraryView, MappedLibrary,
    ProcessView,
};

verus! {

/// The first code section that lies in a range is one of the sections, holds code, and lies
/// there.
proof fn lemma_covering_section(sections: Seq<Section>, start: int, end: int) -> (i: int)
    requires
        covering_section(sections, start, end) is Ok,
    ensures
        0 <= i < sections.len(),
        sections[i] == covering_section(sections, start, end)->Ok_0,
        sections[i].is_text,
        sections[i].file_range matches Some((offset, size)) && start <= offset && offset + size
            <= end,
    decreases sections.len(),
{
    if sections[0].is_text && (sections[0].file_range matches Some((offset, size)) && start
        <= offset && offset + size <= end) {
        0
    } else {
        lemma_covering_section(sections.drop_first(), start, end) + 1
    }
}

/// Whether a section holds code, lies in the mapped part of the file, and has the address in
/// the process that the bias gives for it.
pub open spec fn is_mapped_at(
    section: Section,
    bias: u64,
    page_offset: u64,
    address: u64,
    length: u64,
) -> bool {
    &&& section.is_text
    &&& section.file_range matches Some((offset, size)) && {
        &&& page_offset <= offset
        &&& offset + size <= page_offset + length
        &&& bias + section.address == address + (offset - page_offset)
    }
}

/// The bias of an image takes a code section in the mapping from its address in the file to
/// the place where it is mapped.
pub proof fn law_bias_places_section(
    sections: Seq<Section>,
    page_offset: u64,
    address: u64,
    length: u64,
)
    ensures
        image_bias(sections, page_offset, address, length) matches Ok(bias) ==> exists|i: int|
            0 <= i < sections.len() && is_mapped_at(
                #[trigger] sections[i],
                bias,
                page_offset,
                address,
                length,
            ),
{
    if image_bias(sections, page_offset, address, length) is Ok {
        let i = lemma_covering_section(sections, page_offset as int, page_offset + length);
        assert(is_mapped_at(
            sections[i],
            image_bias(sections, page_offset, address, length)->Ok_0,
            page_offset,
            address,
            length,
        ));
    }
}

/// The unwinder and the profile are told the same of a module: its path, where it is mapped,
/// and its base address.
pub proof fn law_unwinder_and_profile_agree(mapping: MappingView, object: ObjectFileView)
    ensures
        mapping.module_from_object(object) matches Ok(module) ==> {
            &&& module.unwind is Some
            &&& module.library matches Some(library) ==> {
                &&& library.info.path == module.unwind->0.name
                &&& library.avma_start == module.unwind->0.avma_start
                &&& library.avma_end == module.unwind->0.avma_end
                &&& library.base_avma == module.unwind->0.base_avma
            }
        },
{
}

/// A file with another build ID than the one that was mapped, or with none, gives no module.
pub proof fn law_wrong_file_is_refused(mapping: MappingView, object: ObjectFileView)
    requires
        mapping.build_id is Some,
        object.build_id != mapping.build_id,
    ensures
        mapping.module_from_object(object) is Err,
{
}

/// A library that was mapped last is found at every address of its mapping behind which no
/// other mapping starts before the address, whatever was mapped there earlier.
pub proof fn law_last_mapped_library_is_found(
    process: ProcessView,
    library: LibraryView,
    address: u64,
)
    requires
        library.avma_start <= address,
        address == library.avma_start || address < library.avma_end,
        forall|start: u64| #[trigger]
            process.mappings.contains_key(start) ==> !(library.avma_start < start <= address),
    ensures
        library_at(process.with_library(library).mappings, address) == Some(library.mapped()),
{
    let mappings = process.with_library(library).mappings;
    assert(is_nearest(mappings, address, library.avma_start));
    lemma_library_at(mappings, address, library.avma_start);
}

/// A mapping that starts between the start of another and an address hides the other there.
pub proof fn law_nearer_mapping_hides_others(
    mappings: Map<u64, MappedLibrary>,
    address: u64,
    nearer: u64,
)
    requires
        is_nearest(mappings, address, nearer),
        nearer != address,
        mappings[nearer].avma_end <= address,
    ensures
        library_at(mappings, address) is None,
        Frame::InstructionPointer(address).location(mappings) == FrameLocation::Unknown(address),
{
    lemma_library_at(mappings, address, nearer);
}

/// A profile does not tell a return address from the instruction before it.
pub proof fn law_return_address_is_kept_as_the_call(
    mappings: Map<u64, MappedLibrary>,
    address: u64,
)
    requires
        address < u64::MAX,
    ensures
        Frame::ReturnAddress((address + 1) as u64).location(mappings)
            == Frame::InstructionPointer(address).location(mappings),
{
}

} // verus!
