//! Binaries, and what mapping them means.

use perf_convert::module::{
    compute_image_bias, make_module, module_from_object, module_without_file, BiasError, Mapping,
    Module, ModuleError, TextData, UnwindData, UnwindModule,
};
use perf_convert::object_file::{
    read_object_file, NamedSection, ObjectFile, Section, TextSegment,
};
use perf_convert::profile::{DebugId, Library};

const PROGBITS: u32 = 1;
const NOTE: u32 = 7;
const ALLOC: u64 = 2;
const EXECINSTR: u64 = 4;

struct ElfSection {
    name: &'static str,
    kind: u32,
    flags: u64,
    address: u64,
    offset: usize,
    data: Vec<u8>,
}

/// Puts together a little-endian 64-bit ELF file.
fn elf(sections: &[ElfSection]) -> Vec<u8> {
    let mut names: Vec<u8> = vec![0];
    let mut file: Vec<u8> = vec![0; 64];
    let mut headers: Vec<u8> = vec![0; 64];
    for section in sections {
        let name = names.len() as u32;
        names.extend_from_slice(section.name.as_bytes());
        names.push(0);
        if file.len() < section.offset + section.data.len() {
            file.resize(section.offset + section.data.len(), 0);
        }
        file[section.offset..section.offset + section.data.len()].copy_from_slice(&section.data);
        push_header(
            &mut headers,
            name,
            section.kind,
            section.flags,
            section.address,
            section.offset,
            section.data.len(),
        );
    }
    let name = names.len() as u32;
    names.extend_from_slice(b".shstrtab\0");
    push_header(&mut headers, name, 3, 0, 0, file.len(), names.len());
    file.extend_from_slice(&names);
    while file.len() % 8 != 0 {
        file.push(0);
    }
    let header_offset = file.len() as u64;
    file.extend_from_slice(&headers);

    file[0..8].copy_from_slice(&[0x7f, b'E', b'L', b'F', 2, 1, 1, 0]);
    file[16..18].copy_from_slice(&3u16.to_le_bytes());
    file[18..20].copy_from_slice(&62u16.to_le_bytes());
    file[20..24].copy_from_slice(&1u32.to_le_bytes());
    file[40..48].copy_from_slice(&header_offset.to_le_bytes());
    file[52..54].copy_from_slice(&64u16.to_le_bytes());
    file[54..56].copy_from_slice(&56u16.to_le_bytes());
    file[58..60].copy_from_slice(&64u16.to_le_bytes());
    file[60..62].copy_from_slice(&(sections.len() as u16 + 2).to_le_bytes());
    file[62..64].copy_from_slice(&(sections.len() as u16 + 1).to_le_bytes());
    file
}

fn push_header(
    headers: &mut Vec<u8>,
    name: u32,
    kind: u32,
    flags: u64,
    address: u64,
    offset: usize,
    size: usize,
) {
    headers.extend_from_slice(&name.to_le_bytes());
    headers.extend_from_slice(&kind.to_le_bytes());
    headers.extend_from_slice(&flags.to_le_bytes());
    headers.extend_from_slice(&address.to_le_bytes());
    headers.extend_from_slice(&(offset as u64).to_le_bytes());
    headers.extend_from_slice(&(size as u64).to_le_bytes());
    headers.extend_from_slice(&[0; 8]);
    headers.extend_from_slice(&4u64.to_le_bytes());
    headers.extend_from_slice(&[0; 8]);
}

fn build_id_note(build_id: &[u8]) -> Vec<u8> {
    let mut note = Vec::new();
    note.extend_from_slice(&4u32.to_le_bytes());
    note.extend_from_slice(&(build_id.len() as u32).to_le_bytes());
    note.extend_from_slice(&3u32.to_le_bytes());
    note.extend_from_slice(b"GNU\0");
    note.extend_from_slice(build_id);
    note
}

fn build_id() -> Vec<u8> {
    (1u8..=20).collect()
}

fn text_section() -> ElfSection {
    ElfSection {
        name: ".text",
        kind: PROGBITS,
        flags: ALLOC | EXECINSTR,
        address: 0x2000,
        offset: 0x1010,
        data: vec![0xc3; 16],
    }
}

fn sample_file() -> Vec<u8> {
    elf(&[
        text_section(),
        ElfSection {
            name: ".eh_frame",
            kind: PROGBITS,
            flags: ALLOC,
            address: 0x3000,
            offset: 0x1100,
            data: vec![1, 2, 3],
        },
        ElfSection {
            name: ".eh_frame_hdr",
            kind: PROGBITS,
            flags: ALLOC,
            address: 0x3100,
            offset: 0x1200,
            data: vec![4, 5],
        },
        ElfSection {
            name: "text_env",
            kind: PROGBITS,
            flags: ALLOC,
            address: 0x3200,
            offset: 0x1280,
            data: vec![6],
        },
        ElfSection {
            name: ".got",
            kind: PROGBITS,
            flags: ALLOC,
            address: 0x3300,
            offset: 0x1290,
            data: vec![7, 7, 7, 7],
        },
        ElfSection {
            name: ".note.gnu.build-id",
            kind: NOTE,
            flags: ALLOC,
            address: 0x3400,
            offset: 0x1300,
            data: build_id_note(&build_id()),
        },
    ])
}

fn mapping(build_id: Option<Vec<u8>>) -> Mapping {
    Mapping {
        path: "/usr/lib/libfoo.so".to_string(),
        page_offset: 0x1000,
        address: 0x7f00_0000_0000,
        length: 0x1000,
        build_id,
    }
}

fn text(address: u64, file_range: Option<(u64, u64)>) -> Section {
    Section { is_text: true, address, file_range }
}

fn object(sections: Vec<Section>) -> ObjectFile {
    ObjectFile {
        sections,
        text: None,
        text_env: None,
        eh_frame: None,
        eh_frame_hdr: None,
        got: None,
        text_segment: None,
        build_id: None,
        debug_id: None,
    }
}

fn named(address: u64, size: u64, file_range: Option<(u64, u64)>, data: &[u8]) -> NamedSection {
    NamedSection { address, size, file_range, data: Some(data.to_vec()) }
}

fn covered_object() -> ObjectFile {
    object(vec![text(0x2000, Some((0x1010, 16)))])
}

#[test]
fn bias_is_found_from_a_covered_text_section() {
    let sections = vec![
        Section { is_text: false, address: 5, file_range: Some((0x1000, 1)) },
        text(6, None),
        text(7, Some((0xfff, 2))),
        text(8, Some((0x1fff, 2))),
        text(0x2000, Some((0x1010, 0x10))),
        text(9, Some((0x1020, 1))),
    ];
    assert_eq!(compute_image_bias(&sections, 0x1000, 0x50000, 0x1000), Ok(0x50010 - 0x2000));
}

#[test]
fn section_may_fill_the_mapping() {
    let sections = vec![text(0x100, Some((0x1000, 0x1000)))];
    assert_eq!(compute_image_bias(&sections, 0x1000, 0x50000, 0x1000), Ok(0x50000 - 0x100));
}

#[test]
fn bias_needs_a_covered_text_section() {
    let sections = vec![text(8, Some((0x1fff, 2)))];
    assert_eq!(
        compute_image_bias(&sections, 0x1000, 0x50000, 0x1000),
        Err(BiasError::NoCoveringSection)
    );
    assert_eq!(
        compute_image_bias(&vec![], 0x1000, 0x50000, 0x1000),
        Err(BiasError::NoCoveringSection)
    );
}

#[test]
fn bias_addresses_must_fit() {
    let overflow = Err(BiasError::AddressOverflow);
    let covered = vec![text(0x2000, Some((0x1010, 16)))];
    assert_eq!(compute_image_bias(&covered, u64::MAX, 0, 1), overflow);
    assert_eq!(compute_image_bias(&covered, 0x1000, u64::MAX, 0x1000), overflow);
    assert_eq!(compute_image_bias(&covered, 0x1000, 0x1000, 0x1000), overflow);
    assert_eq!(compute_image_bias(&vec![text(0, Some((u64::MAX, 1)))], 0, 0, 0x1000), overflow);
}

#[test]
fn bias_plus_section_address_is_where_the_section_is_mapped() {
    let (page_offset, address, length) = (0x1000, 0x7f00_0000_0000, 0x1000);
    let sections = vec![text(0x2000, Some((0x1010, 16)))];
    let bias = compute_image_bias(&sections, page_offset, address, length).unwrap();
    assert_eq!(bias + 0x2000, address + (0x1010 - page_offset));
}

#[test]
fn file_is_read() {
    let object = read_object_file(&sample_file()).unwrap();
    assert!(object.sections.contains(&text(0x2000, Some((0x1010, 16)))));
    assert_eq!(object.sections.iter().filter(|section| section.is_text).count(), 1);
    assert_eq!(object.text, Some(named(0x2000, 16, Some((0x1010, 16)), &[0xc3; 16])));
    assert_eq!(object.eh_frame, Some(named(0x3000, 3, Some((0x1100, 3)), &[1, 2, 3])));
    assert_eq!(object.eh_frame_hdr, Some(named(0x3100, 2, Some((0x1200, 2)), &[4, 5])));
    assert_eq!(object.text_env, Some(named(0x3200, 1, Some((0x1280, 1)), &[6])));
    assert_eq!(object.got, Some(named(0x3300, 4, Some((0x1290, 4)), &[7; 4])));
    assert_eq!(object.text_segment, None);
    assert_eq!(object.build_id, Some(build_id()));
    let guid: [u8; 16] = [1, 2, 3, 4, 5, 6, 7, 8, 9, 10, 11, 12, 13, 14, 15, 16];
    assert_eq!(object.debug_id, Some(DebugId { guid, age: 0 }));
}

#[test]
fn file_without_most_sections_is_read() {
    let object = read_object_file(&elf(&[text_section()])).unwrap();
    assert!(object.text.is_some());
    assert_eq!(object.eh_frame, None);
    assert_eq!(object.build_id, None);
    assert!(object.debug_id.is_some());
    let bare = read_object_file(&elf(&[])).unwrap();
    assert_eq!(bare.text, None);
    assert_eq!(bare.debug_id, None);
}

#[test]
fn text_segment_of_a_mach_o_file_is_read() {
    let mut file: Vec<u8> = Vec::new();
    for word in [0xfeed_facfu32, 0x0100_0007, 3, 2, 2, 72 * 2, 0, 0] {
        file.extend_from_slice(&word.to_le_bytes());
    }
    for (name, offset, size) in [(b"__DATA\0\0", 0x200u64, 4u64), (b"__TEXT\0\0", 0x300, 6)] {
        file.extend_from_slice(&0x19u32.to_le_bytes());
        file.extend_from_slice(&72u32.to_le_bytes());
        file.extend_from_slice(name);
        file.extend_from_slice(&[0; 8]);
        file.extend_from_slice(&0x1000u64.to_le_bytes());
        file.extend_from_slice(&0x1000u64.to_le_bytes());
        file.extend_from_slice(&offset.to_le_bytes());
        file.extend_from_slice(&size.to_le_bytes());
        file.extend_from_slice(&[0; 16]);
    }
    file.resize(0x300, 0);
    file.extend_from_slice(&[9, 8, 7, 6, 5, 4]);
    let object = read_object_file(&file).unwrap();
    assert_eq!(
        object.text_segment,
        Some(TextSegment { file_range: (0x300, 6), data: Some(vec![9, 8, 7, 6, 5, 4]) })
    );
}

#[test]
fn unknown_format_is_refused() {
    assert_eq!(read_object_file(b"#!/bin/sh\necho hello world, this is a script\n"), None);
    assert_eq!(read_object_file(&[]), None);
    assert_eq!(
        make_module(&mapping(None), Some(b"not a binary at all, whatever its name says")),
        Err(ModuleError::UnrecognizedFormat)
    );
}

#[test]
fn module_is_made_from_a_file() {
    let module = make_module(&mapping(Some(build_id())), Some(&sample_file())).unwrap();
    let base_avma = 0x7f00_0000_0010 - 0x2000;
    assert_eq!(
        module.unwind,
        Some(UnwindModule {
            name: "/usr/lib/libfoo.so".to_string(),
            avma_start: 0x7f00_0000_0000,
            avma_end: 0x7f00_0000_1000,
            base_avma,
            base_svma: 0,
            text: Some((0x2000, 0x2010)),
            text_env: Some((0x3200, 0x3201)),
            eh_frame: Some((0x3000, 0x3003)),
            eh_frame_hdr: Some((0x3100, 0x3102)),
            got: Some((0x3300, 0x3304)),
            unwind_data: UnwindData::EhFrameHdrAndEhFrame(vec![4, 5], vec![1, 2, 3]),
            text_data: Some(TextData {
                avma_start: base_avma + 0x1010,
                avma_end: base_avma + 0x1020,
                bytes: vec![0xc3; 16],
            }),
        })
    );
    let guid: [u8; 16] = [1, 2, 3, 4, 5, 6, 7, 8, 9, 10, 11, 12, 13, 14, 15, 16];
    assert_eq!(
        module.library,
        Some(Library {
            base_avma,
            avma_start: 0x7f00_0000_0000,
            avma_end: 0x7f00_0000_1000,
            name: "libfoo.so".to_string(),
            debug_name: "libfoo.so".to_string(),
            path: "/usr/lib/libfoo.so".to_string(),
            debug_path: "/usr/lib/libfoo.so".to_string(),
            debug_id: DebugId { guid, age: 0 },
            code_id: Some("0102030405060708090a0b0c0d0e0f1011121314".to_string()),
        })
    );
}

#[test]
fn module_is_guessed_without_a_file() {
    let guid: [u8; 16] = [0xab, 0xcd, 0, 0, 0, 0, 0, 0, 0, 0, 0, 0, 0, 0, 0, 0];
    let expected = Module {
        unwind: None,
        library: Some(Library {
            base_avma: 0x7eff_ffff_f000,
            avma_start: 0x7f00_0000_0000,
            avma_end: 0x7f00_0000_1000,
            name: "libfoo.so".to_string(),
            debug_name: "libfoo.so".to_string(),
            path: "/usr/lib/libfoo.so".to_string(),
            debug_path: "/usr/lib/libfoo.so".to_string(),
            debug_id: DebugId { guid, age: 0 },
            code_id: Some("abcd".to_string()),
        }),
    };
    let mapping = mapping(Some(vec![0xab, 0xcd]));
    assert_eq!(make_module(&mapping, None), module_without_file(&mapping));
    assert_eq!(make_module(&mapping, None), Ok(expected));
}

#[test]
fn module_without_file_or_build_id_has_a_nil_debug_id() {
    let library = make_module(&mapping(None), None).unwrap().library.unwrap();
    assert_eq!(library.debug_id, DebugId { guid: [0; 16], age: 0 });
    assert_eq!(library.code_id, None);
}

#[test]
fn file_name_is_the_last_component() {
    let name_of = |path: &str| {
        let mapping = Mapping { path: path.to_string(), ..mapping(None) };
        make_module(&mapping, None).unwrap().library.unwrap().name
    };
    assert_eq!(name_of("/usr/lib/libc.so"), "libc.so");
    assert_eq!(name_of("libc.so"), "libc.so");
    assert_eq!(name_of("/usr/lib/"), "lib");
    assert_eq!(name_of("/usr/lib/."), "lib");
    assert_eq!(name_of("a//"), "a");
    assert_eq!(name_of(".a"), ".a");
    assert_eq!(name_of("/é/日本"), "日本");
    assert_eq!(name_of("[vdso]"), "[vdso]");
    assert_eq!(name_of("/usr/.."), "<unknown>");
    assert_eq!(name_of("/"), "<unknown>");
    assert_eq!(name_of("."), "<unknown>");
    assert_eq!(name_of(""), "<unknown>");
}

#[test]
fn file_names_are_those_of_the_standard_library() {
    for path in ["/a/b", "a/./", "a/..", "..", "...", "/", "", "//x//", "a/../b", "./", "/.", "x/.y"] {
        let mapping = Mapping { path: path.to_string(), ..mapping(None) };
        let expected = std::path::Path::new(path)
            .file_name()
            .map_or("<unknown>".to_string(), |name| name.to_string_lossy().to_string());
        assert_eq!(make_module(&mapping, None).unwrap().library.unwrap().name, expected, "{path}");
    }
}

#[test]
fn build_ids_are_compared() {
    assert_eq!(
        make_module(&mapping(Some(vec![0xab])), Some(&sample_file())),
        Err(ModuleError::WrongBuildId {
            found: "0102030405060708090a0b0c0d0e0f1011121314".to_string(),
            expected: "ab".to_string(),
        })
    );
    assert_eq!(
        make_module(&mapping(Some(vec![0xab])), Some(&elf(&[text_section()]))),
        Err(ModuleError::MissingBuildId)
    );
    assert!(make_module(&mapping(None), Some(&sample_file())).is_ok());
}

#[test]
fn mapping_must_cover_a_text_section() {
    let elsewhere = Mapping { page_offset: 0x8000, ..mapping(None) };
    assert_eq!(
        make_module(&elsewhere, Some(&sample_file())),
        Err(ModuleError::NoCoveringSection)
    );
}

#[test]
fn module_addresses_must_fit() {
    let overflow = || Err(ModuleError::AddressOverflow);
    let high = Mapping { address: u64::MAX, ..mapping(None) };
    assert_eq!(make_module(&high, None), overflow());
    assert_eq!(make_module(&high, Some(&sample_file())), overflow());
    assert_eq!(make_module(&high, Some(b"no binary")), overflow());
    let low = Mapping { address: 0xfff, ..mapping(None) };
    assert_eq!(make_module(&low, None), overflow());
    assert_eq!(make_module(&low, Some(&sample_file())), overflow());

    let mut object = covered_object();
    object.got = Some(named(u64::MAX, 1, None, &[]));
    assert_eq!(module_from_object(&mapping(None), object), overflow());
    let mut object = covered_object();
    object.text_segment = Some(TextSegment { file_range: (u64::MAX, 0), data: None });
    assert_eq!(module_from_object(&mapping(None), object), overflow());
    let mut object = covered_object();
    object.text = Some(named(0, 0, Some((0, u64::MAX)), &[]));
    assert_eq!(module_from_object(&mapping(None), object), overflow());
}

#[test]
fn profile_is_told_nothing_without_a_debug_id() {
    let module = module_from_object(&mapping(None), covered_object()).unwrap();
    assert!(module.unwind.is_some());
    assert_eq!(module.library, None);
}

#[test]
fn unwind_tables_are_picked() {
    let mut object = covered_object();
    object.eh_frame = Some(named(0, 0, None, &[1]));
    let module = module_from_object(&mapping(None), object).unwrap();
    assert_eq!(module.unwind.unwrap().unwind_data, UnwindData::EhFrame(vec![1]));
    let mut object = covered_object();
    object.eh_frame_hdr = Some(named(0, 0, None, &[1]));
    let module = module_from_object(&mapping(None), object).unwrap();
    assert_eq!(module.unwind.unwrap().unwind_data, UnwindData::Missing);
    let mut object = covered_object();
    object.eh_frame = Some(NamedSection { address: 0, size: 0, file_range: None, data: None });
    let module = module_from_object(&mapping(None), object).unwrap();
    assert_eq!(module.unwind.unwrap().unwind_data, UnwindData::Missing);
}

#[test]
fn text_segment_comes_before_the_text_section() {
    let base_avma = 0x7f00_0000_0010 - 0x2000;
    let mut object = covered_object();
    object.text = Some(named(0x2000, 16, Some((0x1010, 16)), &[1]));
    object.text_segment = Some(TextSegment { file_range: (0x10, 0x20), data: Some(vec![2]) });
    let module = module_from_object(&mapping(None), object).unwrap();
    assert_eq!(
        module.unwind.unwrap().text_data,
        Some(TextData {
            avma_start: base_avma + 0x10,
            avma_end: base_avma + 0x30,
            bytes: vec![2],
        })
    );
    let mut object = covered_object();
    object.text = Some(named(0x2000, 16, Some((0x1010, 16)), &[1]));
    object.text_segment = Some(TextSegment { file_range: (0x10, 0x20), data: None });
    let module = module_from_object(&mapping(None), object).unwrap();
    assert_eq!(module.unwind.unwrap().text_data, None);
    let mut object = covered_object();
    object.text = Some(named(0x2000, 16, None, &[1]));
    let module = module_from_object(&mapping(None), object).unwrap();
    assert_eq!(module.unwind.unwrap().text_data, None);
}
