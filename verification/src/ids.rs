//! The identifiers of binaries: build IDs, code IDs, debug IDs and the keys of shared objects.

use vstd::prelude::*;
use profiler_get_symbols::DebugIdExt;
use crate::profile::{is_hex_digit, DebugId};
use crate::records::CpuMode;

verus! {

/// The lower-case hexadecimal digit for a number below sixteen.
pub open spec fn hex_digit(d: int) -> char {
    if d < 10 {
        ('0' as int + d) as char
    } else {
        ('a' as int + d - 10) as char
    }
}

/// Bytes in hexadecimal digits, two for each byte.
pub open spec fn hex(bytes: Seq<u8>) -> Seq<char>
    decreases bytes.len(),
{
    if bytes.len() == 0 {
        Seq::empty()
    } else {
        hex(bytes.drop_last()).push(hex_digit(bytes.last() as int / 16)).push(
            hex_digit(bytes.last() as int % 16),
        )
    }
}

/// Bytes in hexadecimal digits are hexadecimal digits.
pub proof fn lemma_hex_digits(bytes: Seq<u8>)
    ensures
        hex(bytes).len() == 2 * bytes.len(),
        forall|i: int| 0 <= i < hex(bytes).len() ==> is_hex_digit(#[trigger] hex(bytes)[i]),
    decreases bytes.len(),
{
    if bytes.len() > 0 {
        lemma_hex_digits(bytes.drop_last());
    }
}

/// Calls `CodeId::from_binary` of `debugid`: the code ID for a build ID is the build ID in
/// lower-case hexadecimal digits.
#[verifier::external_body]
fn code_id_digits(build_id: &[u8]) -> (code_id: String)
    ensures
        code_id@ == hex(build_id@),
{
    debugid::CodeId::from_binary(build_id).as_str().to_string()
}

/// The code ID for an optional build ID.
pub open spec fn optional_code_id(build_id: Option<Seq<u8>>) -> Option<Seq<char>> {
    match build_id {
        Some(build_id) => Some(hex(build_id)),
        None => None,
    }
}

/// Makes the code ID for a build ID.
pub fn code_id_for_build_id(build_id: Option<&[u8]>) -> (code_id: Option<String>)
    ensures
        code_id is Some <==> build_id is Some,
        code_id is Some ==> code_id->0@ == hex(build_id->0@),
        code_id is Some ==> forall|i: int|
            0 <= i < code_id->0@.len() ==> is_hex_digit(#[trigger] code_id->0@[i]),
{
    match build_id {
        Some(build_id) => {
            proof {
                lemma_hex_digits(build_id@);
            }
            Some(code_id_digits(build_id))
        },
        None => None,
    }
}

/// Where the byte at a place of a GUID comes from in an identifier. The identifier of a
/// big-endian binary has the bytes of the first three fields in the opposite order.
pub open spec fn guid_source(place: int, little_endian: bool) -> int {
    if little_endian {
        place
    } else if place < 4 {
        3 - place
    } else if place < 6 {
        9 - place
    } else if place < 8 {
        13 - place
    } else {
        place
    }
}

/// The GUID for an identifier: its first sixteen bytes, with zeros where it is shorter.
pub open spec fn identifier_guid(identifier: Seq<u8>, little_endian: bool) -> Seq<u8> {
    Seq::new(
        16,
        |place: int|
            if guid_source(place, little_endian) < identifier.len() {
                identifier[guid_source(place, little_endian)]
            } else {
                0
            },
    )
}

/// Calls `DebugId::from_identifier`, of the trait `DebugIdExt` of `profiler_get_symbols`: the
/// debug ID for an identifier holds its first sixteen bytes, with zeros where it is shorter,
/// read as a GUID in the byte order of the binary. Its age is zero.
#[verifier::external_body]
fn debug_id_from_identifier(identifier: &[u8], little_endian: bool) -> (debug_id: DebugId)
    ensures
        debug_id.guid@ == identifier_guid(identifier@, little_endian),
        debug_id.age == 0,
{
    let id = debugid::DebugId::from_identifier(identifier, little_endian);
    DebugId { guid: id.uuid().to_bytes_le(), age: id.appendix() }
}

/// The GUID for an optional build ID. Where there is none it is all zeros.
pub open spec fn optional_guid(build_id: Option<Seq<u8>>, little_endian: bool) -> Seq<u8> {
    match build_id {
        Some(build_id) => identifier_guid(build_id, little_endian),
        None => Seq::new(16, |place: int| 0u8),
    }
}

/// Makes the debug ID for a build ID. Where there is none it is all zeros.
pub fn debug_id_for_build_id(build_id: Option<&[u8]>, little_endian: bool) -> (debug_id: DebugId)
    ensures
        debug_id.guid@ == optional_guid(optional_bytes(build_id), little_endian),
        debug_id.age == 0,
{
    match build_id {
        Some(build_id) => debug_id_from_identifier(build_id, little_endian),
        None => {
            let nil: DebugId = DebugId { guid: [0u8;16], age: 0 };
            assert(nil.guid@ =~= Seq::new(16, |place: int| 0u8));
            nil
        },
    }
}

/// The bytes of an optional slice.
pub open spec fn optional_bytes(bytes: Option<&[u8]>) -> Option<Seq<u8>> {
    match bytes {
        Some(bytes) => Some(bytes@),
        None => None,
    }
}

/// What a shared object is known by, however its path was written.
#[derive(Debug, PartialEq, Eq)]
pub enum DsoKey {
    Kernel,
    GuestKernel,
    Vdso32,
    VdsoX32,
    Vdso64,
    Vsyscall,
    KernelModule(String),
    User(String, Vec<u8>),
}

/// What a `DsoKey` says.
pub enum DsoKeyView {
    Kernel,
    GuestKernel,
    Vdso32,
    VdsoX32,
    Vdso64,
    Vsyscall,
    KernelModule(Seq<char>),
    User(Seq<char>, Seq<u8>),
}

impl View for DsoKey {
    type V = DsoKeyView;

    open spec fn view(&self) -> DsoKeyView {
        match self {
            DsoKey::Kernel => DsoKeyView::Kernel,
            DsoKey::GuestKernel => DsoKeyView::GuestKernel,
            DsoKey::Vdso32 => DsoKeyView::Vdso32,
            DsoKey::VdsoX32 => DsoKeyView::VdsoX32,
            DsoKey::Vdso64 => DsoKeyView::Vdso64,
            DsoKey::Vsyscall => DsoKeyView::Vsyscall,
            DsoKey::KernelModule(name) => DsoKeyView::KernelModule(name@),
            DsoKey::User(name, path) => DsoKeyView::User(name@, path@),
        }
    }
}

impl DsoKeyView {
    /// The name by which a shared object is displayed.
    pub open spec fn name(self) -> Seq<char> {
        match self {
            DsoKeyView::Kernel => "[kernel.kallsyms]"@,
            DsoKeyView::GuestKernel => "[guest.kernel.kallsyms]"@,
            DsoKeyView::Vdso32 => "[vdso32]"@,
            DsoKeyView::VdsoX32 => "[vdsox32]"@,
            DsoKeyView::Vdso64 => "[vdso]"@,
            DsoKeyView::Vsyscall => "[vsyscall]"@,
            DsoKeyView::KernelModule(name) => name,
            DsoKeyView::User(name, _) => name,
        }
    }
}

/// Tests whether bytes are equal.
pub(crate) fn same_bytes(a: &[u8], b: &[u8]) -> (result: bool)
    ensures
        result == (a@ == b@),
{
    if a.len() != b.len() {
        return false;
    }
    let mut i: usize = 0;
    while i < a.len()
        invariant
            i <= a@.len() == b@.len(),
            forall|j: int| 0 <= j < i ==> a@[j] == b@[j],
        decreases a@.len() - i,
    {
        if a[i] != b[i] {
            return false;
        }
        i = i + 1;
    }
    assert(a@ =~= b@);
    true
}

/// Copies bytes.
pub(crate) fn copy_bytes(bytes: &Vec<u8>) -> (copy: Vec<u8>)
    ensures
        copy@ == bytes@,
{
    let copy: Vec<u8> = bytes.clone();
    assert(copy@ =~= bytes@);
    copy
}

/// The key of the shared object with the given path, as mapped in a CPU mode. The mode is
/// given by its bits in the header of a record. Some mappings belong to no shared object.
pub uninterp spec fn dso_key(path: Seq<u8>, mode_bits: u16) -> Option<DsoKeyView>;

/// The view of an optional key.
pub open spec fn optional_key(key: Option<DsoKey>) -> Option<DsoKeyView> {
    match key {
        Some(key) => Some(key@),
        None => None,
    }
}

/// The bytes of a text in ASCII.
pub open spec fn ascii(text: Seq<char>) -> Seq<u8> {
    text.map_values(|c: char| c as u8)
}

/// Whether a path stands for memory that belongs to no file.
pub open spec fn is_memory(path: Seq<u8>) -> bool {
    ||| path == ascii("//anon"@)
    ||| path == ascii("[stack]"@)
    ||| path == ascii("[heap]"@)
    ||| path == ascii("[vvar]"@)
}

/// Calls `DsoKey::detect` of `linux_perf_data` for a path and the mode that
/// `CpuMode::from_misc` reads from the given bits. Memory that belongs to no file has no key,
/// and the image of the kernel has its own, unless it is that of a guest. Which key is found
/// for other paths is named, and not spoken of further.
#[verifier::external_body]
fn detect_dso_key(path: &[u8], mode_bits: u16) -> (key: Option<DsoKey>)
    ensures
        optional_key(key) == dso_key(path@, mode_bits),
        is_memory(path@) ==> key is None,
        ascii("[kernel.kallsyms]"@).is_prefix_of(path@) && mode_bits < 4 ==> optional_key(key)
            == Some(DsoKeyView::Kernel),
{
    let mode = linux_perf_event_reader::CpuMode::from_misc(mode_bits);
    Some(match linux_perf_data::DsoKey::detect(path, mode)? {
        linux_perf_data::DsoKey::Kernel => DsoKey::Kernel,
        linux_perf_data::DsoKey::GuestKernel => DsoKey::GuestKernel,
        linux_perf_data::DsoKey::Vdso32 => DsoKey::Vdso32,
        linux_perf_data::DsoKey::VdsoX32 => DsoKey::VdsoX32,
        linux_perf_data::DsoKey::Vdso64 => DsoKey::Vdso64,
        linux_perf_data::DsoKey::Vsyscall => DsoKey::Vsyscall,
        linux_perf_data::DsoKey::KernelModule(name) => DsoKey::KernelModule(name),
        linux_perf_data::DsoKey::User(name, path) => DsoKey::User(name, path),
    })
}

impl CpuMode {
    /// The bits that stand for a mode in the header of a record.
    pub open spec fn bits(self) -> u16 {
        match self {
            CpuMode::Unknown => 0,
            CpuMode::Kernel => 1,
            CpuMode::User => 2,
            CpuMode::Hypervisor => 3,
            CpuMode::GuestKernel => 4,
            CpuMode::GuestUser => 5,
        }
    }
}

impl DsoKey {
    /// Finds the key of the shared object with the given path, as mapped in a CPU mode.
    pub fn detect(path: &[u8], cpu_mode: CpuMode) -> (key: Option<DsoKey>)
        ensures
            optional_key(key) == dso_key(path@, cpu_mode.bits()),
            is_memory(path@) ==> key is None,
            ascii("[kernel.kallsyms]"@).is_prefix_of(path@) && cpu_mode != CpuMode::GuestKernel
                && cpu_mode != CpuMode::GuestUser ==> optional_key(key) == Some(
                DsoKeyView::Kernel,
            ),
    {
        let bits: u16 = match cpu_mode {
            CpuMode::Unknown => 0,
            CpuMode::Kernel => 1,
            CpuMode::User => 2,
            CpuMode::Hypervisor => 3,
            CpuMode::GuestKernel => 4,
            CpuMode::GuestUser => 5,
        };
        detect_dso_key(path, bits)
    }

    /// The name by which the shared object is displayed.
    pub fn name(&self) -> (name: &str)
        ensures
            name@ == self@.name(),
    {
        match self {
            DsoKey::Kernel => "[kernel.kallsyms]",
            DsoKey::GuestKernel => "[guest.kernel.kallsyms]",
            DsoKey::Vdso32 => "[vdso32]",
            DsoKey::VdsoX32 => "[vdsox32]",
            DsoKey::Vdso64 => "[vdso]",
            DsoKey::Vsyscall => "[vsyscall]",
            DsoKey::KernelModule(name) => name.as_str(),
            DsoKey::User(name, _) => name.as_str(),
        }
    }

    /// Tests whether two keys are equal.
    fn same_as(&self, other: &DsoKey) -> (result: bool)
        ensures
            result == (self@ == other@),
    {
        match (self, other) {
            (DsoKey::Kernel, DsoKey::Kernel) => true,
            (DsoKey::GuestKernel, DsoKey::GuestKernel) => true,
            (DsoKey::Vdso32, DsoKey::Vdso32) => true,
            (DsoKey::VdsoX32, DsoKey::VdsoX32) => true,
            (DsoKey::Vdso64, DsoKey::Vdso64) => true,
            (DsoKey::Vsyscall, DsoKey::Vsyscall) => true,
            (DsoKey::KernelModule(a), DsoKey::KernelModule(b)) => *a == *b,
            (DsoKey::User(a, a_path), DsoKey::User(b, b_path)) => *a == *b && same_bytes(
                a_path.as_slice(),
                b_path.as_slice(),
            ),
            _ => false,
        }
    }
}

/// What a recording says of a shared object: a path, which may be better than the one that
/// it was mapped under, and the build ID.
#[derive(Debug, PartialEq, Eq)]
pub struct DsoBuildId {
    pub path: Vec<u8>,
    pub build_id: Vec<u8>,
}

/// What a `DsoBuildId` says.
pub struct DsoBuildIdView {
    pub path: Seq<u8>,
    pub build_id: Seq<u8>,
}

impl View for DsoBuildId {
    type V = DsoBuildIdView;

    open spec fn view(&self) -> DsoBuildIdView {
        DsoBuildIdView { path: self.path@, build_id: self.build_id@ }
    }
}

/// The build IDs in a recording, by shared object.
pub struct BuildIds {
    entries: Vec<(DsoKey, DsoBuildId)>,
}

/// The build IDs in a list of entries, of which later ones replace earlier ones.
spec fn listed(entries: Seq<(DsoKey, DsoBuildId)>) -> Map<DsoKeyView, DsoBuildIdView>
    decreases entries.len(),
{
    if entries.len() == 0 {
        Map::empty()
    } else {
        listed(entries.drop_last()).insert(entries.last().0@, entries.last().1@)
    }
}

impl View for BuildIds {
    type V = Map<DsoKeyView, DsoBuildIdView>;

    closed spec fn view(&self) -> Map<DsoKeyView, DsoBuildIdView> {
        listed(self.entries@)
    }
}

impl BuildIds {
    /// Makes a table without build IDs.
    pub fn new() -> (build_ids: BuildIds)
        ensures
            build_ids@ == Map::<DsoKeyView, DsoBuildIdView>::empty(),
    {
        BuildIds { entries: Vec::new() }
    }

    /// Enters the build ID of a shared object.
    pub fn insert(&mut self, key: DsoKey, build_id: DsoBuildId)
        ensures
            final(self)@ == old(self)@.insert(key@, build_id@),
    {
        self.entries.push((key, build_id));
        assert(self.entries@.drop_last() =~= old(self).entries@);
    }

    /// Looks up a shared object.
    pub fn get(&self, key: &DsoKey) -> (build_id: Option<&DsoBuildId>)
        ensures
            build_id is Some <==> self@.contains_key(key@),
            build_id is Some ==> build_id->0@ == self@[key@],
    {
        let mut i: usize = self.entries.len();
        assert(self.entries@.take(i as int) =~= self.entries@);
        while i > 0
            invariant
                i <= self.entries@.len(),
                self@.contains_key(key@) == listed(self.entries@.take(i as int)).contains_key(key@),
                self@.contains_key(key@) ==> self@[key@] == listed(
                    self.entries@.take(i as int),
                )[key@],
            decreases i,
        {
            assert(self.entries@.take(i as int).drop_last() =~= self.entries@.take(i - 1));
            i = i - 1;
            if self.entries[i].0.same_as(key) {
                return Some(&self.entries[i].1);
            }
        }
        None
    }
}

} // verus!
