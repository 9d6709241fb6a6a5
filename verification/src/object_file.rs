//! What a binary file says of itself.

use vstd::prelude::*;
use object::{Object, ObjectSection, ObjectSegment};
use crate::ids::same_bytes;
use crate::profile::DebugId;

verus! {

/// A section of a binary. `file_range` is where it lies in the file: offset and size.
#[derive(Debug, Clone, Copy, PartialEq, Eq)]
pub struct Section {
    /// Whether the section holds code.
    pub is_text: bool,
    pub address: u64,
    pub file_range: Option<(u64, u64)>,
}

/// A section that was found by its name, with its bytes where they can be read.
#[derive(Debug, PartialEq, Eq)]
pub struct NamedSection {
    pub address: u64,
    pub size: u64,
    pub file_range: Option<(u64, u64)>,
    pub data: Option<Vec<u8>>,
}

/// What a `NamedSection` says.
#[verifier::ext_equal]
pub struct NamedSectionView {
    pub address: u64,
    pub size: u64,
    pub file_range: Option<(u64, u64)>,
    pub data: Option<Seq<u8>>,
}

/// The bytes of an optional vector.
pub open spec fn optional_data(data: Option<Vec<u8>>) -> Option<Seq<u8>> {
    match data {
        Some(data) => Some(data@),
        None => None,
    }
}

impl View for NamedSection {
    type V = NamedSectionView;

    open spec fn view(&self) -> NamedSectionView {
        NamedSectionView {
            address: self.address,
            size: self.size,
            file_range: self.file_range,
            data: optional_data(self.data),
        }
    }
}

/// What an optional section says.
pub open spec fn optional_section(section: Option<NamedSection>) -> Option<NamedSectionView> {
    match section {
        Some(section) => Some(section@),
        None => None,
    }
}

/// A segment of a binary: its name, where it has one that can be read, and where it lies
/// in the file.
#[derive(Debug, PartialEq, Eq)]
pub struct Segment {
    pub name: Option<Vec<u8>>,
    pub file_range: (u64, u64),
}

/// What a `Segment` says.
#[verifier::ext_equal]
pub struct SegmentView {
    pub name: Option<Seq<u8>>,
    pub file_range: (u64, u64),
}

impl View for Segment {
    type V = SegmentView;

    open spec fn view(&self) -> SegmentView {
        SegmentView { name: optional_data(self.name), file_range: self.file_range }
    }
}

/// The sections of a binary file, or `None` where the format is not recognized.
pub uninterp spec fn object_sections(file: Seq<u8>) -> Option<Seq<Section>>;

/// The section of a binary file that bears a name.
pub uninterp spec fn object_section(file: Seq<u8>, name: Seq<char>) -> Option<NamedSectionView>;

/// The segments of a binary file.
pub uninterp spec fn object_segments(file: Seq<u8>) -> Seq<SegmentView>;

/// The bytes of the segment with a number, where they can be read.
pub uninterp spec fn object_segment_data(file: Seq<u8>, index: int) -> Option<Seq<u8>>;

/// The build ID of a binary file, where it has one that can be read.
pub uninterp spec fn object_build_id(file: Seq<u8>) -> Option<Seq<u8>>;

/// The debug ID of a binary file: GUID and age.
pub uninterp spec fn object_debug_id(file: Seq<u8>) -> Option<(Seq<u8>, u32)>;

/// Calls `File::parse` and `Object::sections` of `object`, and for each section
/// `ObjectSection::kind`, `address` and `file_range`. What they give is named, and not
/// spoken of further.
#[verifier::external_body]
fn read_sections(file: &[u8]) -> (sections: Option<Vec<Section>>)
    ensures
        sections is Some <==> object_sections(file@) is Some,
        sections is Some ==> sections->0@ == object_sections(file@)->0,
{
    let file = object::File::parse(file).ok()?;
    let sections = file.sections().map(|s| Section {
        is_text: matches!(s.kind(), object::SectionKind::Text),
        address: s.address(),
        file_range: s.file_range(),
    });
    Some(sections.collect())
}

/// Calls `File::parse` and `Object::section_by_name` of `object`, and `address`, `size`,
/// `file_range` and `data` of what that finds. What they give is named, and not spoken of
/// further.
#[verifier::external_body]
fn read_section(file: &[u8], name: &str) -> (section: Option<NamedSection>)
    ensures
        optional_section(section) == object_section(file@, name@),
{
    let file = object::File::parse(file).ok()?;
    let section = file.section_by_name(name)?;
    Some(NamedSection {
        address: section.address(),
        size: section.size(),
        file_range: section.file_range(),
        data: section.data().ok().map(|data| data.to_owned()),
    })
}

/// Calls `File::parse` and `Object::segments` of `object`, and for each segment
/// `ObjectSegment::name_bytes` and `file_range`. What they give is named, and not spoken of
/// further. A file that is not recognized has no segments.
#[verifier::external_body]
fn read_segments(file: &[u8]) -> (segments: Vec<Segment>)
    ensures
        segments@.map_values(|segment: Segment| segment@) == object_segments(file@),
{
    let file = match object::File::parse(file) {
        Ok(file) => file,
        Err(_) => return Vec::new(),
    };
    let segments = file.segments().map(|s| Segment {
        name: s.name_bytes().ok().flatten().map(|name| name.to_owned()),
        file_range: s.file_range(),
    });
    segments.collect()
}

/// Calls `File::parse` and `Object::segments` of `object`, and `ObjectSegment::data` of the
/// segment with a number. What that gives is named, and not spoken of further.
#[verifier::external_body]
fn read_segment_data(file: &[u8], index: usize) -> (data: Option<Vec<u8>>)
    ensures
        optional_data(data) == object_segment_data(file@, index as int),
{
    let file = object::File::parse(file).ok()?;
    let segment = file.segments().nth(index)?;
    segment.data().ok().map(|data| data.to_owned())
}

/// Calls `File::parse` and `Object::build_id` of `object`. What that gives is named, and not
/// spoken of further.
#[verifier::external_body]
fn read_build_id(file: &[u8]) -> (build_id: Option<Vec<u8>>)
    ensures
        optional_data(build_id) == object_build_id(file@),
{
    let file = object::File::parse(file).ok()?;
    file.build_id().ok().flatten().map(|build_id| build_id.to_owned())
}

/// The GUID and the age of an optional debug ID.
pub open spec fn optional_debug_id(debug_id: Option<DebugId>) -> Option<(Seq<u8>, u32)> {
    match debug_id {
        Some(debug_id) => Some((debug_id.guid@, debug_id.age)),
        None => None,
    }
}

/// Calls `File::parse` of `object` and `debug_id_for_object` of `profiler_get_symbols`. What
/// that gives is named, and not spoken of further.
#[verifier::external_body]
fn read_debug_id(file: &[u8]) -> (debug_id: Option<DebugId>)
    ensures
        optional_debug_id(debug_id) == object_debug_id(file@),
{
    let file = object::File::parse(file).ok()?;
    let id = profiler_get_symbols::debug_id_for_object(&file)?;
    Some(DebugId { guid: id.uuid().to_bytes_le(), age: id.appendix() })
}

/// The segment that holds the code of a binary, where it is named: where it lies in the
/// file, and its bytes where they can be read.
#[derive(Debug, PartialEq, Eq)]
pub struct TextSegment {
    pub file_range: (u64, u64),
    pub data: Option<Vec<u8>>,
}

/// What a `TextSegment` says.
#[verifier::ext_equal]
pub struct TextSegmentView {
    pub file_range: (u64, u64),
    pub data: Option<Seq<u8>>,
}

impl View for TextSegment {
    type V = TextSegmentView;

    open spec fn view(&self) -> TextSegmentView {
        TextSegmentView { file_range: self.file_range, data: optional_data(self.data) }
    }
}

/// What an optional segment says.
pub open spec fn optional_text_segment(segment: Option<TextSegment>) -> Option<TextSegmentView> {
    match segment {
        Some(segment) => Some(segment@),
        None => None,
    }
}

/// What a binary says of itself, as far as loading it depends on that.
#[derive(Debug, PartialEq, Eq)]
pub struct ObjectFile {
    pub sections: Vec<Section>,
    pub text: Option<NamedSection>,
    pub text_env: Option<NamedSection>,
    pub eh_frame: Option<NamedSection>,
    pub eh_frame_hdr: Option<NamedSection>,
    pub got: Option<NamedSection>,
    /// The first segment with the name `__TEXT`.
    pub text_segment: Option<TextSegment>,
    pub build_id: Option<Vec<u8>>,
    pub debug_id: Option<DebugId>,
}

/// What an `ObjectFile` says.
#[verifier::ext_equal]
pub struct ObjectFileView {
    pub sections: Seq<Section>,
    pub text: Option<NamedSectionView>,
    pub text_env: Option<NamedSectionView>,
    pub eh_frame: Option<NamedSectionView>,
    pub eh_frame_hdr: Option<NamedSectionView>,
    pub got: Option<NamedSectionView>,
    pub text_segment: Option<TextSegmentView>,
    pub build_id: Option<Seq<u8>>,
    pub debug_id: Option<(Seq<u8>, u32)>,
}

impl View for ObjectFile {
    type V = ObjectFileView;

    open spec fn view(&self) -> ObjectFileView {
        ObjectFileView {
            sections: self.sections@,
            text: optional_section(self.text),
            text_env: optional_section(self.text_env),
            eh_frame: optional_section(self.eh_frame),
            eh_frame_hdr: optional_section(self.eh_frame_hdr),
            got: optional_section(self.got),
            text_segment: optional_text_segment(self.text_segment),
            build_id: optional_data(self.build_id),
            debug_id: optional_debug_id(self.debug_id),
        }
    }
}

/// The name of the segment that holds code: `__TEXT`.
pub open spec fn text_segment_name() -> Seq<u8> {
    seq![0x5f, 0x5f, 0x54, 0x45, 0x58, 0x54]
}

/// The number of the first segment that is named for its code, from a number on.
pub open spec fn find_text_segment(segments: Seq<SegmentView>, from: int) -> Option<int>
    decreases segments.len() - from,
{
    if from >= segments.len() {
        None
    } else if segments[from].name == Some(text_segment_name()) {
        Some(from)
    } else {
        find_text_segment(segments, from + 1)
    }
}

/// What a binary file says of itself, or `None` where the format is not recognized.
pub open spec fn object_file(file: Seq<u8>) -> Option<ObjectFileView> {
    match object_sections(file) {
        Some(sections) => Some(
            ObjectFileView {
                sections,
                text: object_section(file, ".text"@),
                text_env: object_section(file, "text_env"@),
                eh_frame: object_section(file, ".eh_frame"@),
                eh_frame_hdr: object_section(file, ".eh_frame_hdr"@),
                got: object_section(file, ".got"@),
                text_segment: match find_text_segment(object_segments(file), 0) {
                    Some(index) => Some(
                        TextSegmentView {
                            file_range: object_segments(file)[index].file_range,
                            data: object_segment_data(file, index),
                        },
                    ),
                    None => None,
                },
                build_id: object_build_id(file),
                debug_id: object_debug_id(file),
            },
        ),
        None => None,
    }
}

/// Reads the segment that holds the code of a binary file, where it is named.
fn read_text_segment(file: &[u8]) -> (segment: Option<TextSegment>)
    ensures
        optional_text_segment(segment) == match find_text_segment(object_segments(file@), 0) {
            Some(index) => Some(
                TextSegmentView {
                    file_range: object_segments(file@)[index].file_range,
                    data: object_segment_data(file@, index),
                },
            ),
            None => None,
        },
{
    let segments: Vec<Segment> = read_segments(file);
    let ghost views = object_segments(file@);
    let text_name: [u8; 6] = [0x5f, 0x5f, 0x54, 0x45, 0x58, 0x54];
    assert(text_name@ =~= text_segment_name());
    let mut i: usize = 0;
    while i < segments.len()
        invariant
            i <= segments@.len(),
            views == segments@.map_values(|segment: Segment| segment@),
            views == object_segments(file@),
            text_name@ == text_segment_name(),
            find_text_segment(views, 0) == find_text_segment(views, i as int),
        decreases segments@.len() - i,
    {
        assert(views[i as int] == segments@[i as int]@);
        if let Some(name) = &segments[i].name {
            if same_bytes(name.as_slice(), text_name.as_slice()) {
                return Some(
                    TextSegment {
                        file_range: segments[i].file_range,
                        data: read_segment_data(file, i),
                    },
                );
            }
        }
        i = i + 1;
    }
    None
}

/// Reads what a binary file says of itself. Gives `None` where the format is not recognized.
pub fn read_object_file(file: &[u8]) -> (object: Option<ObjectFile>)
    ensures
        object is Some <==> object_file(file@) is Some,
        object is Some ==> object->0@ == object_file(file@)->0,
{
    let sections: Vec<Section> = match read_sections(file) {
        Some(sections) => sections,
        None => return None,
    };
    Some(
        ObjectFile {
            sections,
            text: read_section(file, ".text"),
            text_env: read_section(file, "text_env"),
            eh_frame: read_section(file, ".eh_frame"),
            eh_frame_hdr: read_section(file, ".eh_frame_hdr"),
            got: read_section(file, ".got"),
            text_segment: read_text_segment(file),
            build_id: read_build_id(file),
            debug_id: read_debug_id(file),
        },
    )
}

} // verus!
