//! Modules: what a mapped binary means to an unwinder and to a profile.

use vstd::prelude::*;
use crate::ids::{
    code_id_for_build_id, debug_id_for_build_id, hex, optional_code_id, optional_guid, same_bytes,
};
use crate::object_file::{
    object_file, optional_data, read_object_file, NamedSection, NamedSectionView, ObjectFile,
    ObjectFileView, Section,
};
use crate::profile::{DebugId, Library, LibraryInfo, LibraryView};
use crate::text::{file_name, get_file_name};

verus! {

/// A mapping of a file into the address space of a process.
#[derive(Debug, PartialEq, Eq)]
pub struct Mapping {
    pub path: String,
    /// Where the mapping starts in the file.
    pub page_offset: u64,
    /// Where the mapping starts in the process.
    pub address: u64,
    pub length: u64,
    /// The build ID that the file should have, where that is known.
    pub build_id: Option<Vec<u8>>,
}

/// What a `Mapping` says.
#[verifier::ext_equal]
pub struct MappingView {
    pub path: Seq<char>,
    pub page_offset: u64,
    pub address: u64,
    pub length: u64,
    pub build_id: Option<Seq<u8>>,
}

impl View for Mapping {
    type V = MappingView;

    open spec fn view(&self) -> MappingView {
        MappingView {
            path: self.path@,
            page_offset: self.page_offset,
            address: self.address,
            length: self.length,
            build_id: optional_data(self.build_id),
        }
    }
}

/// Why the bias of an image is not known.
#[derive(Debug, Clone, Copy, PartialEq, Eq, Structural)]
pub enum BiasError {
    /// No code section lies within the mapped part of the file.
    NoCoveringSection,
    /// An address or a file offset does not fit in 64 bits.
    AddressOverflow,
}

/// The first code section that lies in the file range from `start` to `end`.
pub open spec fn covering_section(sections: Seq<Section>, start: int, end: int) -> Result<
    Section,
    BiasError,
>
    decreases sections.len(),
{
    if sections.len() == 0 {
        Err(BiasError::NoCoveringSection)
    } else {
        let section = sections[0];
        match section.file_range {
            Some((offset, size)) => if !section.is_text {
                covering_section(sections.drop_first(), start, end)
            } else if offset + size > u64::MAX {
                Err(BiasError::AddressOverflow)
            } else if start <= offset && offset + size <= end {
                Ok(section)
            } else {
                covering_section(sections.drop_first(), start, end)
            },
            None => covering_section(sections.drop_first(), start, end),
        }
    }
}

/// The bias of an image: what to add to the addresses in the file to get those in the
/// process. One code section in the mapping tells it.
pub open spec fn image_bias(
    sections: Seq<Section>,
    page_offset: u64,
    address: u64,
    length: u64,
) -> Result<u64, BiasError> {
    if page_offset + length > u64::MAX {
        Err(BiasError::AddressOverflow)
    } else {
        match covering_section(sections, page_offset as int, page_offset + length) {
            Ok(section) => {
                let section_address = address + (section.file_range.unwrap().0 - page_offset);
                if section.address <= section_address <= u64::MAX {
                    Ok((section_address - section.address) as u64)
                } else {
                    Err(BiasError::AddressOverflow)
                }
            },
            Err(error) => Err(error),
        }
    }
}

/// Finds the first code section that lies in a range of the file.
fn find_covering_section(sections: &[Section], start: u64, end: u64) -> (section: Result<
    Section,
    BiasError,
>)
    ensures
        section == covering_section(sections@, start as int, end as int),
        section is Ok ==> section->Ok_0.file_range is Some && start
            <= section->Ok_0.file_range.unwrap().0,
{
    let mut i: usize = 0;
    assert(sections@.skip(0) =~= sections@);
    while i < sections.len()
        invariant
            i <= sections@.len(),
            covering_section(sections@, start as int, end as int) == covering_section(
                sections@.skip(i as int),
                start as int,
                end as int,
            ),
        decreases sections@.len() - i,
    {
        assert(sections@.skip(i as int).drop_first() =~= sections@.skip(i + 1));
        let section: Section = sections[i];
        if section.is_text {
            if let Some((offset, size)) = section.file_range {
                match offset.checked_add(size) {
                    Some(section_end) => {
                        if start <= offset && section_end <= end {
                            return Ok(section);
                        }
                    },
                    None => return Err(BiasError::AddressOverflow),
                }
            }
        }
        i = i + 1;
    }
    Err(BiasError::NoCoveringSection)
}

/// Computes the bias of an image. It would make more sense to look for load commands, but
/// the binaries that stand for code made at run time have none, so a code section is used.
pub fn compute_image_bias(
    sections: &[Section],
    mapping_start_file_offset: u64,
    mapping_start_avma: u64,
    mapping_size: u64,
) -> (bias: Result<u64, BiasError>)
    ensures
        bias == image_bias(
            sections@,
            mapping_start_file_offset,
            mapping_start_avma,
            mapping_size,
        ),
{
    let mapping_end_file_offset: u64 = match mapping_start_file_offset.checked_add(mapping_size) {
        Some(end) => end,
        None => return Err(BiasError::AddressOverflow),
    };
    let section: Section = match find_covering_section(
        sections,
        mapping_start_file_offset,
        mapping_end_file_offset,
    ) {
        Ok(section) => section,
        Err(error) => return Err(error),
    };
    let section_start_file_offset: u64 = section.file_range.unwrap().0;
    let section_start_avma: u64 = match mapping_start_avma.checked_add(
        section_start_file_offset - mapping_start_file_offset,
    ) {
        Some(avma) => avma,
        None => return Err(BiasError::AddressOverflow),
    };
    match section_start_avma.checked_sub(section.address) {
        Some(bias) => Ok(bias),
        None => Err(BiasError::AddressOverflow),
    }
}

/// Why a mapped file gives no module.
#[derive(Debug, PartialEq, Eq)]
pub enum ModuleError {
    /// An address or a file offset does not fit in 64 bits.
    AddressOverflow,
    UnrecognizedFormat,
    /// The file has another build ID than the mapped one had. Both are given as code IDs.
    WrongBuildId { found: String, expected: String },
    /// The file has no build ID, and the mapped one had one.
    MissingBuildId,
    /// No code section lies within the mapped part of the file.
    NoCoveringSection,
}

/// What a `ModuleError` says.
#[verifier::ext_equal]
pub enum ModuleErrorView {
    AddressOverflow,
    UnrecognizedFormat,
    WrongBuildId { found: Seq<char>, expected: Seq<char> },
    MissingBuildId,
    NoCoveringSection,
}

impl View for ModuleError {
    type V = ModuleErrorView;

    open spec fn view(&self) -> ModuleErrorView {
        match self {
            ModuleError::AddressOverflow => ModuleErrorView::AddressOverflow,
            ModuleError::UnrecognizedFormat => ModuleErrorView::UnrecognizedFormat,
            ModuleError::WrongBuildId { found, expected } => ModuleErrorView::WrongBuildId {
                found: found@,
                expected: expected@,
            },
            ModuleError::MissingBuildId => ModuleErrorView::MissingBuildId,
            ModuleError::NoCoveringSection => ModuleErrorView::NoCoveringSection,
        }
    }
}

/// The unwind tables of a module.
#[derive(Debug, PartialEq, Eq)]
pub enum UnwindData {
    /// The bytes of `.eh_frame_hdr`, then those of `.eh_frame`.
    EhFrameHdrAndEhFrame(Vec<u8>, Vec<u8>),
    /// The bytes of `.eh_frame`.
    EhFrame(Vec<u8>),
    /// There are none.
    Missing,
}

/// What an `UnwindData` says.
#[verifier::ext_equal]
pub enum UnwindDataView {
    EhFrameHdrAndEhFrame(Seq<u8>, Seq<u8>),
    EhFrame(Seq<u8>),
    Missing,
}

impl View for UnwindData {
    type V = UnwindDataView;

    open spec fn view(&self) -> UnwindDataView {
        match self {
            UnwindData::EhFrameHdrAndEhFrame(
                hdr,
                eh_frame,
            ) => UnwindDataView::EhFrameHdrAndEhFrame(hdr@, eh_frame@),
            UnwindData::EhFrame(eh_frame) => UnwindDataView::EhFrame(eh_frame@),
            UnwindData::Missing => UnwindDataView::Missing,
        }
    }
}

/// The code of a module: the addresses in the process that it is taken to occupy, and its
/// bytes.
#[derive(Debug, PartialEq, Eq)]
pub struct TextData {
    pub avma_start: u64,
    pub avma_end: u64,
    pub bytes: Vec<u8>,
}

/// What a `TextData` says.
#[verifier::ext_equal]
pub struct TextDataView {
    pub avma_start: u64,
    pub avma_end: u64,
    pub bytes: Seq<u8>,
}

impl View for TextData {
    type V = TextDataView;

    open spec fn view(&self) -> TextDataView {
        TextDataView {
            avma_start: self.avma_start,
            avma_end: self.avma_end,
            bytes: self.bytes@,
        }
    }
}

/// What an optional `TextData` says.
pub open spec fn optional_text_data(text: Option<TextData>) -> Option<TextDataView> {
    match text {
        Some(text) => Some(text@),
        None => None,
    }
}

/// What an unwinder is told of a module. Section ranges are given by the addresses in the
/// file: from the first to before the last.
#[derive(Debug, PartialEq, Eq)]
pub struct UnwindModule {
    pub name: String,
    pub avma_start: u64,
    pub avma_end: u64,
    pub base_avma: u64,
    pub base_svma: u64,
    pub text: Option<(u64, u64)>,
    pub text_env: Option<(u64, u64)>,
    pub eh_frame: Option<(u64, u64)>,
    pub eh_frame_hdr: Option<(u64, u64)>,
    pub got: Option<(u64, u64)>,
    pub unwind_data: UnwindData,
    pub text_data: Option<TextData>,
}

/// What an `UnwindModule` says.
#[verifier::ext_equal]
pub struct UnwindModuleView {
    pub name: Seq<char>,
    pub avma_start: u64,
    pub avma_end: u64,
    pub base_avma: u64,
    pub base_svma: u64,
    pub text: Option<(u64, u64)>,
    pub text_env: Option<(u64, u64)>,
    pub eh_frame: Option<(u64, u64)>,
    pub eh_frame_hdr: Option<(u64, u64)>,
    pub got: Option<(u64, u64)>,
    pub unwind_data: UnwindDataView,
    pub text_data: Option<TextDataView>,
}

impl View for UnwindModule {
    type V = UnwindModuleView;

    open spec fn view(&self) -> UnwindModuleView {
        UnwindModuleView {
            name: self.name@,
            avma_start: self.avma_start,
            avma_end: self.avma_end,
            base_avma: self.base_avma,
            base_svma: self.base_svma,
            text: self.text,
            text_env: self.text_env,
            eh_frame: self.eh_frame,
            eh_frame_hdr: self.eh_frame_hdr,
            got: self.got,
            unwind_data: self.unwind_data@,
            text_data: optional_text_data(self.text_data),
        }
    }
}

/// What becomes of a mapping: what the unwinder is told, which needs the file, and what the
/// profile is told.
#[derive(Debug, PartialEq, Eq)]
pub struct Module {
    pub unwind: Option<UnwindModule>,
    pub library: Option<Library>,
}

/// What a `Module` says.
#[verifier::ext_equal]
pub struct ModuleView {
    pub unwind: Option<UnwindModuleView>,
    pub library: Option<LibraryView>,
}

impl View for Module {
    type V = ModuleView;

    open spec fn view(&self) -> ModuleView {
        ModuleView {
            unwind: match self.unwind {
                Some(unwind) => Some(unwind@),
                None => None,
            },
            library: match self.library {
                Some(library) => Some(library@),
                None => None,
            },
        }
    }
}

/// The view of a module or of an error.
pub open spec fn module_result(result: Result<Module, ModuleError>) -> Result<
    ModuleView,
    ModuleErrorView,
> {
    match result {
        Ok(module) => Ok(module@),
        Err(error) => Err(error@),
    }
}

/// The addresses in the file that a section occupies.
pub open spec fn svma_range(section: Option<NamedSectionView>) -> Option<(u64, u64)> {
    match section {
        Some(section) => Some((section.address, (section.address + section.size) as u64)),
        None => None,
    }
}

/// Whether the addresses of a section fit in 64 bits.
pub open spec fn section_fits(section: Option<NamedSectionView>) -> bool {
    section matches Some(section) ==> section.address + section.size <= u64::MAX
}

impl ObjectFileView {
    /// Whether the addresses of the named sections fit in 64 bits.
    pub open spec fn sections_fit(self) -> bool {
        &&& section_fits(self.text)
        &&& section_fits(self.text_env)
        &&& section_fits(self.eh_frame)
        &&& section_fits(self.eh_frame_hdr)
        &&& section_fits(self.got)
    }

    /// The unwind tables of the file. The index is of use only beside the table itself.
    pub open spec fn unwind_data(self) -> UnwindDataView {
        let eh_frame = match self.eh_frame {
            Some(section) => section.data,
            None => None,
        };
        let eh_frame_hdr = match self.eh_frame_hdr {
            Some(section) => section.data,
            None => None,
        };
        match eh_frame {
            Some(eh_frame) => match eh_frame_hdr {
                Some(hdr) => UnwindDataView::EhFrameHdrAndEhFrame(hdr, eh_frame),
                None => UnwindDataView::EhFrame(eh_frame),
            },
            None => UnwindDataView::Missing,
        }
    }

    /// Where the code lies in the file: that of the text segment, or else that of the text
    /// section.
    pub open spec fn text_file_range(self) -> Option<(u64, u64)> {
        match self.text_segment {
            Some(segment) => Some(segment.file_range),
            None => match self.text {
                Some(section) => section.file_range,
                None => None,
            },
        }
    }

    /// The bytes of the code, where they can be read.
    pub open spec fn text_bytes(self) -> Option<Seq<u8>> {
        match self.text_segment {
            Some(segment) => segment.data,
            None => match self.text {
                Some(section) => section.data,
                None => None,
            },
        }
    }

    /// Whether the addresses of the code fit in 64 bits.
    pub open spec fn text_fits(self, base_avma: u64) -> bool {
        self.text_file_range() matches Some((start, size)) ==> base_avma + start + size <= u64::MAX
    }

    /// The code of the file as it lies in the process.
    pub open spec fn text_data(self, base_avma: u64) -> Option<TextDataView> {
        match (self.text_file_range(), self.text_bytes()) {
            (Some((start, size)), Some(bytes)) => Some(
                TextDataView {
                    avma_start: (base_avma + start) as u64,
                    avma_end: (base_avma + start + size) as u64,
                    bytes,
                },
            ),
            _ => None,
        }
    }
}

impl MappingView {
    /// The name of the mapped file.
    pub open spec fn name(self) -> Seq<char> {
        match file_name(self.path) {
            Some(name) => name,
            None => "<unknown>"@,
        }
    }

    /// What a profile is told of the mapping.
    pub open spec fn library(
        self,
        base_avma: u64,
        guid: Seq<u8>,
        age: u32,
        code_id: Option<Seq<char>>,
    ) -> LibraryView {
        LibraryView {
            base_avma,
            avma_start: self.address,
            avma_end: (self.address + self.length) as u64,
            info: LibraryInfo {
                name: self.name(),
                debug_name: self.name(),
                path: self.path,
                debug_path: self.path,
                guid,
                age,
                code_id,
            },
        }
    }

    /// What an unwinder is told of the mapping.
    pub open spec fn unwind_module(self, object: ObjectFileView, base_avma: u64) ->
        UnwindModuleView {
        UnwindModuleView {
            name: self.path,
            avma_start: self.address,
            avma_end: (self.address + self.length) as u64,
            base_avma,
            base_svma: 0,
            text: svma_range(object.text),
            text_env: svma_range(object.text_env),
            eh_frame: svma_range(object.eh_frame),
            eh_frame_hdr: svma_range(object.eh_frame_hdr),
            got: svma_range(object.got),
            unwind_data: object.unwind_data(),
            text_data: object.text_data(base_avma),
        }
    }

    /// What is wrong with the build ID of a file.
    pub open spec fn build_id_error(self, found: Option<Seq<u8>>) -> Option<ModuleErrorView> {
        match (self.build_id, found) {
            (Some(expected), Some(found)) => if expected == found {
                None
            } else {
                Some(ModuleErrorView::WrongBuildId { found: hex(found), expected: hex(expected) })
            },
            (Some(_), None) => Some(ModuleErrorView::MissingBuildId),
            (None, _) => None,
        }
    }

    /// What becomes of the mapping where the mapped file says this of itself. The profile
    /// is told nothing where the file has no debug ID.
    pub open spec fn module_from_object(self, object: ObjectFileView) -> Result<
        ModuleView,
        ModuleErrorView,
    > {
        if self.address + self.length > u64::MAX {
            Err(ModuleErrorView::AddressOverflow)
        } else if self.build_id_error(object.build_id) is Some {
            Err(self.build_id_error(object.build_id)->0)
        } else {
            match image_bias(object.sections, self.page_offset, self.address, self.length) {
                Err(BiasError::NoCoveringSection) => Err(ModuleErrorView::NoCoveringSection),
                Err(BiasError::AddressOverflow) => Err(ModuleErrorView::AddressOverflow),
                Ok(base_avma) => if object.sections_fit() && object.text_fits(base_avma) {
                    Ok(
                        ModuleView {
                            unwind: Some(self.unwind_module(object, base_avma)),
                            library: match object.debug_id {
                                Some((guid, age)) => Some(
                                    self.library(
                                        base_avma,
                                        guid,
                                        age,
                                        optional_code_id(object.build_id),
                                    ),
                                ),
                                None => None,
                            },
                        },
                    )
                } else {
                    Err(ModuleErrorView::AddressOverflow)
                },
            }
        }
    }

    /// What becomes of the mapping where the mapped file cannot be read: addresses in the
    /// file are taken to be file offsets, and the identifiers come from the build ID.
    pub open spec fn module_without_file(self) -> Result<ModuleView, ModuleErrorView> {
        if self.address + self.length > u64::MAX || self.page_offset > self.address {
            Err(ModuleErrorView::AddressOverflow)
        } else {
            Ok(
                ModuleView {
                    unwind: None,
                    library: Some(
                        self.library(
                            (self.address - self.page_offset) as u64,
                            optional_guid(self.build_id, true),
                            0,
                            optional_code_id(self.build_id),
                        ),
                    ),
                },
            )
        }
    }

    /// What becomes of the mapping, given the bytes of the mapped file where it can be read.
    pub open spec fn module(self, file: Option<Seq<u8>>) -> Result<ModuleView, ModuleErrorView> {
        match file {
            Some(file) => match object_file(file) {
                Some(object) => self.module_from_object(object),
                None => if self.address + self.length > u64::MAX {
                    Err(ModuleErrorView::AddressOverflow)
                } else {
                    Err(ModuleErrorView::UnrecognizedFormat)
                },
            },
            None => self.module_without_file(),
        }
    }
}

/// Adds up the addresses of a section. Gives `Err` where they do not fit in 64 bits.
fn get_svma_range(section: &Option<NamedSection>) -> (range: Result<Option<(u64, u64)>, ()>)
    ensures
        range is Ok <==> section_fits(crate::object_file::optional_section(*section)),
        range is Ok ==> range->Ok_0 == svma_range(crate::object_file::optional_section(*section)),
{
    match section {
        Some(section) => match section.address.checked_add(section.size) {
            Some(end) => Ok(Some((section.address, end))),
            None => Err(()),
        },
        None => Ok(None),
    }
}

/// Adds up the addresses that a range of the file has in the process. Gives `None` where they
/// do not fit in 64 bits.
fn get_avma_range(base_avma: u64, file_range: (u64, u64)) -> (range: Option<(u64, u64)>)
    ensures
        range is Some <==> base_avma + file_range.0 + file_range.1 <= u64::MAX,
        range is Some ==> range->0 == (
            (base_avma + file_range.0) as u64,
            (base_avma + file_range.0 + file_range.1) as u64,
        ),
{
    match base_avma.checked_add(file_range.0) {
        Some(start) => match start.checked_add(file_range.1) {
            Some(end) => Some((start, end)),
            None => None,
        },
        None => None,
    }
}

/// Puts the bytes of the code together with their addresses.
fn make_text_data(range: (u64, u64), bytes: Option<Vec<u8>>) -> (text: Option<TextData>)
    ensures
        optional_text_data(text) == match bytes {
            Some(bytes) => Some(
                TextDataView { avma_start: range.0, avma_end: range.1, bytes: bytes@ },
            ),
            None => None,
        },
{
    match bytes {
        Some(bytes) => Some(TextData { avma_start: range.0, avma_end: range.1, bytes }),
        None => None,
    }
}

/// Takes the bytes of a section, where they can be read.
fn take_data(section: Option<NamedSection>) -> (data: Option<Vec<u8>>)
    ensures
        optional_data(data) == match section {
            Some(section) => optional_data(section.data),
            None => None,
        },
{
    match section {
        Some(section) => section.data,
        None => None,
    }
}

impl Mapping {
    /// Where the mapping ends in the process, where 64 bits can address that.
    pub fn end(&self) -> (end: Option<u64>)
        ensures
            end == if self.address + self.length <= u64::MAX {
                Some((self.address + self.length) as u64)
            } else {
                None
            },
    {
        self.address.checked_add(self.length)
    }

    /// Makes what a profile is told of the mapping.
    fn make_library(
        &self,
        avma_end: u64,
        base_avma: u64,
        debug_id: DebugId,
        code_id: Option<String>,
    ) -> (library: Library)
        requires
            avma_end == self.address + self.length,
        ensures
            library@ == self@.library(
                base_avma,
                debug_id.guid@,
                debug_id.age,
                crate::profile::optional_text(code_id),
            ),
    {
        let name: String = match get_file_name(self.path.as_str()) {
            Some(name) => name,
            None => "<unknown>".to_owned(),
        };
        Library {
            base_avma,
            avma_start: self.address,
            avma_end,
            debug_name: name.clone(),
            name,
            path: self.path.clone(),
            debug_path: self.path.clone(),
            debug_id,
            code_id,
        }
    }

    /// Tests whether a file has the build ID that it should have.
    fn check_build_id(&self, found: &Option<Vec<u8>>) -> (result: Result<(), ModuleError>)
        ensures
            result is Err <==> self@.build_id_error(optional_data(*found)) is Some,
            result is Err ==> result->Err_0@ == self@.build_id_error(optional_data(*found))->0,
    {
        match (&self.build_id, found) {
            (Some(expected), Some(found)) => {
                if same_bytes(expected.as_slice(), found.as_slice()) {
                    Ok(())
                } else {
                    Err(
                        ModuleError::WrongBuildId {
                            found: code_id_for_build_id(Some(found.as_slice())).unwrap(),
                            expected: code_id_for_build_id(Some(expected.as_slice())).unwrap(),
                        },
                    )
                }
            },
            (Some(_), None) => Err(ModuleError::MissingBuildId),
            (None, _) => Ok(()),
        }
    }
}

/// Works out what a mapping means to the unwinder and to the profile, from what the mapped
/// file says of itself.
pub fn module_from_object(mapping: &Mapping, object: ObjectFile) -> (result: Result<
    Module,
    ModuleError,
>)
    ensures
        module_result(result) == mapping@.module_from_object(object@),
        result matches Ok(module) ==> (module@.library matches Some(library) ==> library.valid()),
{
    let avma_end: u64 = match mapping.end() {
        Some(end) => end,
        None => return Err(ModuleError::AddressOverflow),
    };
    if let Err(error) = mapping.check_build_id(&object.build_id) {
        return Err(error);
    }
    let base_avma: u64 = match compute_image_bias(
        object.sections.as_slice(),
        mapping.page_offset,
        mapping.address,
        mapping.length,
    ) {
        Ok(bias) => bias,
        Err(BiasError::NoCoveringSection) => return Err(ModuleError::NoCoveringSection),
        Err(BiasError::AddressOverflow) => return Err(ModuleError::AddressOverflow),
    };
    let (text, text_env, eh_frame, eh_frame_hdr, got) = match (
        get_svma_range(&object.text),
        get_svma_range(&object.text_env),
        get_svma_range(&object.eh_frame),
        get_svma_range(&object.eh_frame_hdr),
        get_svma_range(&object.got),
    ) {
        (Ok(text), Ok(text_env), Ok(eh_frame), Ok(eh_frame_hdr), Ok(got)) => (
            text,
            text_env,
            eh_frame,
            eh_frame_hdr,
            got,
        ),
        _ => return Err(ModuleError::AddressOverflow),
    };
    let unwind_data: UnwindData = match (
        take_data(object.eh_frame),
        take_data(object.eh_frame_hdr),
    ) {
        (Some(eh_frame), Some(hdr)) => UnwindData::EhFrameHdrAndEhFrame(hdr, eh_frame),
        (Some(eh_frame), None) => UnwindData::EhFrame(eh_frame),
        (None, _) => UnwindData::Missing,
    };
    let text_data: Option<TextData> = match (object.text_segment, object.text) {
        (Some(segment), _) => match get_avma_range(base_avma, segment.file_range) {
            Some(range) => make_text_data(range, segment.data),
            None => return Err(ModuleError::AddressOverflow),
        },
        (None, Some(section)) => match section.file_range {
            Some(file_range) => match get_avma_range(base_avma, file_range) {
                Some(range) => make_text_data(range, section.data),
                None => return Err(ModuleError::AddressOverflow),
            },
            None => None,
        },
        (None, None) => None,
    };
    let unwind: UnwindModule = UnwindModule {
        name: mapping.path.clone(),
        avma_start: mapping.address,
        avma_end,
        base_avma,
        base_svma: 0,
        text,
        text_env,
        eh_frame,
        eh_frame_hdr,
        got,
        unwind_data,
        text_data,
    };
    let library: Option<Library> = match object.debug_id {
        Some(debug_id) => {
            let build_id: Option<&[u8]> = match &object.build_id {
                Some(build_id) => Some(build_id.as_slice()),
                None => None,
            };
            let code_id: Option<String> = code_id_for_build_id(build_id);
            Some(mapping.make_library(avma_end, base_avma, debug_id, code_id))
        },
        None => None,
    };
    Ok(Module { unwind: Some(unwind), library })
}

/// Works out what a mapping means to the profile where the mapped file cannot be read. The
/// base address is a guess: addresses in the file are often the same as file offsets.
pub fn module_without_file(mapping: &Mapping) -> (result: Result<Module, ModuleError>)
    ensures
        module_result(result) == mapping@.module_without_file(),
        result matches Ok(module) ==> (module@.library matches Some(library) ==> library.valid()),
{
    let avma_end: u64 = match mapping.end() {
        Some(end) => end,
        None => return Err(ModuleError::AddressOverflow),
    };
    let base_avma: u64 = match mapping.address.checked_sub(mapping.page_offset) {
        Some(base) => base,
        None => return Err(ModuleError::AddressOverflow),
    };
    let build_id: Option<&[u8]> = match &mapping.build_id {
        Some(build_id) => Some(build_id.as_slice()),
        None => None,
    };
    let debug_id: DebugId = debug_id_for_build_id(build_id, true);
    let code_id: Option<String> = code_id_for_build_id(build_id);
    let library: Library = mapping.make_library(avma_end, base_avma, debug_id, code_id);
    Ok(Module { unwind: None, library: Some(library) })
}

/// Works out what a mapping means to the unwinder and to the profile, from the bytes of the
/// mapped file where it can be read.
pub fn make_module(mapping: &Mapping, file: Option<&[u8]>) -> (result: Result<Module, ModuleError>)
    ensures
        module_result(result) == mapping@.module(crate::ids::optional_bytes(file)),
        result matches Ok(module) ==> (module@.library matches Some(library) ==> library.valid()),
{
    match file {
        Some(file) => match read_object_file(file) {
            Some(object) => module_from_object(mapping, object),
            None => match mapping.end() {
                Some(_) => Err(ModuleError::UnrecognizedFormat),
                None => Err(ModuleError::AddressOverflow),
            },
        },
        None => module_without_file(mapping),
    }
}

} // verus!
