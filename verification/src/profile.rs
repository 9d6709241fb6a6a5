//! The profile that a conversion fills, and what it has been told so far.

use vstd::prelude::*;
use fxprof_processed_profile::{
    CategoryPairHandle, ProcessHandle, Profile, ReferenceTimestamp, ThreadHandle,
};

verus! {

/// The profile that is being built.
#[verifier::external_type_specification]
#[verifier::external_body]
pub struct ExProfile(Profile);

/// The moment from which the times of a profile are counted.
#[verifier::external_type_specification]
#[verifier::external_body]
pub struct ExReferenceTimestamp(ReferenceTimestamp);

/// How a profile refers to one of its processes.
#[verifier::external_type_specification]
#[verifier::external_body]
pub struct ExProcessHandle(ProcessHandle);

/// How a profile refers to one of its threads.
#[verifier::external_type_specification]
#[verifier::external_body]
pub struct ExThreadHandle(ThreadHandle);

/// How a profile refers to one of its categories.
#[verifier::external_type_specification]
#[verifier::external_body]
pub struct ExCategoryPairHandle(CategoryPairHandle);

/// A frame of a sample, without its category.
#[derive(Debug, Clone, Copy, PartialEq, Eq, Structural)]
pub enum Frame {
    /// A code address taken from the instruction pointer.
    InstructionPointer(u64),
    /// A code address taken from a return address.
    ReturnAddress(u64),
}

/// The colors of the categories of a profile.
#[derive(Debug, Clone, Copy, PartialEq, Eq, Structural)]
pub enum CategoryColor {
    Grey,
    Yellow,
    Orange,
}

/// The debug ID of a library, in the byte order in which Windows stores a GUID.
#[derive(Debug, Clone, Copy, PartialEq, Eq)]
pub struct DebugId {
    pub guid: [u8; 16],
    pub age: u32,
}

/// A library that is loaded into a process, or a piece of the kernel.
#[derive(Debug, PartialEq, Eq)]
pub struct Library {
    /// The address in the process to which the addresses in profiles and symbol files
    /// are relative.
    pub base_avma: u64,
    /// The addresses that the mapping occupies: from the first to before the last.
    pub avma_start: u64,
    pub avma_end: u64,
    pub name: String,
    pub debug_name: String,
    pub path: String,
    pub debug_path: String,
    pub debug_id: DebugId,
    /// The code ID, in lower-case hexadecimal digits.
    pub code_id: Option<String>,
}

/// What identifies a library: all that a `Library` says but for where it is mapped.
#[verifier::ext_equal]
pub struct LibraryInfo {
    pub name: Seq<char>,
    pub debug_name: Seq<char>,
    pub path: Seq<char>,
    pub debug_path: Seq<char>,
    pub guid: Seq<u8>,
    pub age: u32,
    pub code_id: Option<Seq<char>>,
}

/// What a `Library` says.
#[verifier::ext_equal]
pub struct LibraryView {
    pub base_avma: u64,
    pub avma_start: u64,
    pub avma_end: u64,
    pub info: LibraryInfo,
}

/// The characters of an optional string.
pub open spec fn optional_text(text: Option<String>) -> Option<Seq<char>> {
    match text {
        Some(text) => Some(text@),
        None => None,
    }
}

impl View for Library {
    type V = LibraryView;

    open spec fn view(&self) -> LibraryView {
        LibraryView {
            base_avma: self.base_avma,
            avma_start: self.avma_start,
            avma_end: self.avma_end,
            info: LibraryInfo {
                name: self.name@,
                debug_name: self.debug_name@,
                path: self.path@,
                debug_path: self.debug_path@,
                guid: self.debug_id.guid@,
                age: self.debug_id.age,
                code_id: optional_text(self.code_id),
            },
        }
    }
}

impl Clone for Library {
    fn clone(&self) -> (library: Library)
        ensures
            library@ == self@,
    {
        Library {
            base_avma: self.base_avma,
            avma_start: self.avma_start,
            avma_end: self.avma_end,
            name: self.name.clone(),
            debug_name: self.debug_name.clone(),
            path: self.path.clone(),
            debug_path: self.debug_path.clone(),
            debug_id: self.debug_id,
            code_id: match &self.code_id {
                Some(code_id) => Some(code_id.clone()),
                None => None,
            },
        }
    }
}

/// Whether a character is a lower-case hexadecimal digit.
pub open spec fn is_hex_digit(c: char) -> bool {
    '0' <= c <= '9' || 'a' <= c <= 'f'
}

impl LibraryView {
    /// Whether the code ID is made of lower-case hexadecimal digits.
    pub open spec fn valid(self) -> bool {
        self.info.code_id matches Some(code_id) ==> forall|i: int|
            0 <= i < code_id.len() ==> is_hex_digit(#[trigger] code_id[i])
    }

    /// The library as it is found by the start of its mapping.
    pub open spec fn mapped(self) -> MappedLibrary {
        MappedLibrary { base_avma: self.base_avma, avma_end: self.avma_end, info: self.info }
    }
}

/// A library that is found by the start of its mapping.
#[verifier::ext_equal]
pub struct MappedLibrary {
    pub base_avma: u64,
    pub avma_end: u64,
    pub info: LibraryInfo,
}

/// Whether this is the last start of a mapping at or before an address.
pub open spec fn is_nearest(
    mappings: Map<u64, MappedLibrary>,
    address: u64,
    start: u64,
) -> bool {
    &&& mappings.contains_key(start)
    &&& start <= address
    &&& forall|other: u64| #[trigger]
        mappings.contains_key(other) && other <= address ==> other <= start
}

/// The library in whose mapping an address lies. Only the mapping with the last start at or
/// before the address is looked at; its first address always lies in it.
pub open spec fn library_at(mappings: Map<u64, MappedLibrary>, address: u64) -> Option<
    MappedLibrary,
> {
    if exists|start: u64| is_nearest(mappings, address, start) {
        let start = choose|start: u64| is_nearest(mappings, address, start);
        if address == start || address < mappings[start].avma_end {
            Some(mappings[start])
        } else {
            None
        }
    } else {
        None
    }
}

impl Frame {
    /// The address by which the library of a frame is found: that of the instruction, or
    /// the one before a return address.
    pub open spec fn lookup_address(self) -> u64 {
        match self {
            Frame::InstructionPointer(address) => address,
            Frame::ReturnAddress(address) => if address == 0 {
                0
            } else {
                (address - 1) as u64
            },
        }
    }

    /// What a profile keeps of a frame. Addresses in a library are kept relative to its base
    /// address, in 32 bits.
    pub open spec fn location(self, mappings: Map<u64, MappedLibrary>) -> FrameLocation {
        match library_at(mappings, self.lookup_address()) {
            Some(library) => FrameLocation::InLibrary {
                relative_address: ((self.lookup_address() - library.base_avma)
                    % 0x1_0000_0000) as u32,
                library: library.info,
            },
            None => FrameLocation::Unknown(self.lookup_address()),
        }
    }
}

/// The library at an address is that of the only mapping that is looked at.
pub proof fn lemma_library_at(mappings: Map<u64, MappedLibrary>, address: u64, start: u64)
    requires
        is_nearest(mappings, address, start),
    ensures
        library_at(mappings, address) == if address == start || address
            < mappings[start].avma_end {
            Some(mappings[start])
        } else {
            None
        },
{
    let chosen = choose|chosen: u64| is_nearest(mappings, address, chosen);
    assert(is_nearest(mappings, address, chosen));
    assert(mappings.contains_key(chosen) && mappings.contains_key(start));
}

/// Where a frame of a sample lies.
#[verifier::ext_equal]
pub enum FrameLocation {
    /// An address in no library.
    Unknown(u64),
    /// An address in a library, relative to its base address.
    InLibrary { relative_address: u32, library: LibraryInfo },
}

/// Whether no frame lies below the base address of the library in whose mapping it is.
pub open spec fn resolvable(
    frames: Seq<(Frame, nat)>,
    mappings: Map<u64, MappedLibrary>,
) -> bool {
    forall|i: int|
        0 <= i < frames.len() ==> (library_at(
            mappings,
            (#[trigger] frames[i]).0.lookup_address(),
        ) matches Some(library) ==> library.base_avma <= frames[i].0.lookup_address())
}

/// A category of a profile.
#[verifier::ext_equal]
pub struct CategoryView {
    pub name: Seq<char>,
    pub color: CategoryColor,
}

/// A process of a profile. Times are nanoseconds after the reference time. All its libraries
/// are listed in the order in which they were added; those of them that can be found are held
/// by the starts of their mappings.
#[verifier::ext_equal]
pub struct ProcessView {
    pub pid: u32,
    pub name: Seq<char>,
    pub start_time: u64,
    pub end_time: Option<u64>,
    pub libs: Seq<LibraryInfo>,
    pub mappings: Map<u64, MappedLibrary>,
}

/// The libraries that can be found after they were added one after the other.
pub open spec fn mapped_libraries(libraries: Seq<LibraryView>) -> Map<u64, MappedLibrary>
    decreases libraries.len(),
{
    if libraries.len() == 0 {
        Map::empty()
    } else {
        mapped_libraries(libraries.drop_last()).insert(
            libraries.last().avma_start,
            libraries.last().mapped(),
        )
    }
}

impl ProcessView {
    /// The process with one more library. It takes the place of one whose mapping starts at
    /// the same address.
    pub open spec fn with_library(self, library: LibraryView) -> ProcessView {
        ProcessView {
            libs: self.libs.push(library.info),
            mappings: self.mappings.insert(library.avma_start, library.mapped()),
            ..self
        }
    }
}

/// A sample of a thread. The frames are listed root first, each with the number of its
/// category.
#[verifier::ext_equal]
pub struct SampleView {
    pub timestamp: u64,
    pub frames: Seq<(FrameLocation, nat)>,
    pub cpu_delta_micros: u64,
    pub weight: i32,
}

/// A sample as it is given to a profile.
#[verifier::ext_equal]
pub struct GivenSample {
    pub timestamp: u64,
    pub frames: Seq<(Frame, nat)>,
    pub cpu_delta_micros: u64,
    pub weight: i32,
}

impl GivenSample {
    /// What a profile keeps of a sample of a process with these mappings.
    pub open spec fn kept(self, mappings: Map<u64, MappedLibrary>) -> SampleView {
        SampleView {
            timestamp: self.timestamp,
            frames: self.frames.map_values(
                |frame: (Frame, nat)| (frame.0.location(mappings), frame.1),
            ),
            cpu_delta_micros: self.cpu_delta_micros,
            weight: self.weight,
        }
    }
}

/// A thread of a profile, with the number of its process.
#[verifier::ext_equal]
pub struct ThreadView {
    pub process: nat,
    pub tid: u32,
    pub name: Option<Seq<char>>,
    pub start_time: u64,
    pub end_time: Option<u64>,
    pub is_main: bool,
    pub samples: Seq<SampleView>,
}

/// What a profile holds: its categories, processes and threads are numbered in the order in
/// which they were added.
#[verifier::ext_equal]
pub struct ProfileView {
    pub product: Seq<char>,
    pub reference: ReferenceTimestamp,
    pub interval_nanos: u64,
    pub categories: Seq<CategoryView>,
    pub processes: Seq<ProcessView>,
    pub threads: Seq<ThreadView>,
}

impl ProfileView {
    /// Whether threads belong to processes of the profile.
    pub open spec fn valid(self) -> bool {
        forall|t: int|
            0 <= t < self.threads.len() ==> (#[trigger] self.threads[t]).process
                < self.processes.len()
    }

    /// The mappings of the process that a thread belongs to.
    pub open spec fn mappings_of_thread(self, thread: nat) -> Map<u64, MappedLibrary> {
        self.processes[self.threads[thread as int].process as int].mappings
    }

    /// The profile with a sample added to a thread.
    pub open spec fn with_sample(self, thread: nat, sample: GivenSample) -> ProfileView {
        let old = self.threads[thread as int];
        self.with_thread(
            thread,
            ThreadView {
                samples: old.samples.push(sample.kept(self.mappings_of_thread(thread))),
                ..old
            },
        )
    }

    pub open spec fn with_process(self, index: nat, process: ProcessView) -> ProfileView {
        ProfileView { processes: self.processes.update(index as int, process), ..self }
    }

    pub open spec fn with_thread(self, index: nat, thread: ThreadView) -> ProfileView {
        ProfileView { threads: self.threads.update(index as int, thread), ..self }
    }
}

/// What a profile holds: what follows from its tables.
pub uninterp spec fn profile_contents(profile: Profile) -> ProfileView;

/// The number of the process that a handle stands for.
pub uninterp spec fn process_index(handle: ProcessHandle) -> nat;

/// The number of the thread that a handle stands for.
pub uninterp spec fn thread_index(handle: ThreadHandle) -> nat;

/// The number of the category that a handle stands for.
pub uninterp spec fn category_index(handle: CategoryPairHandle) -> nat;

/// Calls `Profile::new`: the profile has its product name, its reference time, its sampling
/// interval and the category "Other", and no processes or threads.
#[verifier::external_body]
pub(crate) fn new_profile(
    product: &str,
    reference: ReferenceTimestamp,
    interval_nanos: u64,
) -> (profile: Profile)
    ensures
        profile_contents(profile) == (ProfileView {
            product: product@,
            reference,
            interval_nanos,
            categories: seq![CategoryView { name: "Other"@, color: CategoryColor::Grey }],
            processes: Seq::empty(),
            threads: Seq::empty(),
        }),
{
    Profile::new(product, reference, std::time::Duration::from_nanos(interval_nanos))
}

/// Calls `Profile::set_product`, which replaces the product name.
#[verifier::external_body]
pub(crate) fn set_product(profile: &mut Profile, product: &str)
    ensures
        profile_contents(*final(profile)) == (ProfileView {
            product: product@,
            ..profile_contents(*old(profile))
        }),
{
    profile.set_product(product);
}

/// Calls `Profile::add_category`, which adds a category behind the others. The handle's
/// number has sixteen bits. The handle is turned into one without a subcategory.
#[verifier::external_body]
pub(crate) fn add_category(
    profile: &mut Profile,
    name: &str,
    color: CategoryColor,
) -> (handle: CategoryPairHandle)
    requires
        profile_contents(*old(profile)).categories.len() <= u16::MAX,
    ensures
        category_index(handle) == profile_contents(*old(profile)).categories.len(),
        profile_contents(*final(profile)) == (ProfileView {
            categories: profile_contents(*old(profile)).categories.push(
                CategoryView { name: name@, color },
            ),
            ..profile_contents(*old(profile))
        }),
{
    let color = match color {
        CategoryColor::Grey => fxprof_processed_profile::CategoryColor::Grey,
        CategoryColor::Yellow => fxprof_processed_profile::CategoryColor::Yellow,
        CategoryColor::Orange => fxprof_processed_profile::CategoryColor::Orange,
    };
    profile.add_category(name, color).into()
}

/// Calls `Profile::add_process`, which adds a process behind the others, without libraries
/// and without an end time. It starts at the reference time.
#[verifier::external_body]
pub(crate) fn add_process(profile: &mut Profile, name: &str, pid: u32) -> (handle: ProcessHandle)
    ensures
        process_index(handle) == profile_contents(*old(profile)).processes.len(),
        profile_contents(*final(profile)) == (ProfileView {
            processes: profile_contents(*old(profile)).processes.push(
                ProcessView {
                    pid,
                    name: name@,
                    start_time: 0,
                    end_time: None,
                    libs: Seq::empty(),
                    mappings: Map::empty(),
                },
            ),
            ..profile_contents(*old(profile))
        }),
{
    let start = fxprof_processed_profile::Timestamp::from_nanos_since_reference(0);
    profile.add_process(name, pid, start)
}

/// Compares two `ProcessHandle`s with `==`: they are equal where they stand for the same
/// process.
#[verifier::external_body]
pub(crate) fn same_process(a: ProcessHandle, b: ProcessHandle) -> (result: bool)
    ensures
        result == (process_index(a) == process_index(b)),
{
    a == b
}

/// Calls `Profile::set_process_start_time`, which replaces the start time of a process.
#[verifier::external_body]
pub(crate) fn set_process_start_time(profile: &mut Profile, process: ProcessHandle, nanos: u64)
    requires
        process_index(process) < profile_contents(*old(profile)).processes.len(),
    ensures
        profile_contents(*final(profile)) == profile_contents(*old(profile)).with_process(
            process_index(process),
            ProcessView {
                start_time: nanos,
                ..profile_contents(*old(profile)).processes[process_index(process) as int]
            },
        ),
{
    let time = fxprof_processed_profile::Timestamp::from_nanos_since_reference(nanos);
    profile.set_process_start_time(process, time);
}

/// Calls `Profile::set_process_end_time`, which replaces the end time of a process.
#[verifier::external_body]
pub(crate) fn set_process_end_time(profile: &mut Profile, process: ProcessHandle, nanos: u64)
    requires
        process_index(process) < profile_contents(*old(profile)).processes.len(),
    ensures
        profile_contents(*final(profile)) == profile_contents(*old(profile)).with_process(
            process_index(process),
            ProcessView {
                end_time: Some(nanos),
                ..profile_contents(*old(profile)).processes[process_index(process) as int]
            },
        ),
{
    let time = fxprof_processed_profile::Timestamp::from_nanos_since_reference(nanos);
    profile.set_process_end_time(process, time);
}

/// Calls `Profile::set_process_name`, which replaces the name of a process.
#[verifier::external_body]
pub(crate) fn set_process_name(profile: &mut Profile, process: ProcessHandle, name: &str)
    requires
        process_index(process) < profile_contents(*old(profile)).processes.len(),
    ensures
        profile_contents(*final(profile)) == profile_contents(*old(profile)).with_process(
            process_index(process),
            ProcessView {
                name: name@,
                ..profile_contents(*old(profile)).processes[process_index(process) as int]
            },
        ),
{
    profile.set_process_name(process, name);
}

/// Calls `Profile::add_lib`, which adds a library behind the others of a process, and enters
/// it by the start of its mapping, in place of one that starts there.
#[verifier::external_body]
pub(crate) fn add_lib(profile: &mut Profile, process: ProcessHandle, library: Library)
    requires
        process_index(process) < profile_contents(*old(profile)).processes.len(),
        library@.valid(),
    ensures
        profile_contents(*final(profile)) == profile_contents(*old(profile)).with_process(
            process_index(process),
            profile_contents(*old(profile)).processes[process_index(process) as int].with_library(
                library@,
            ),
        ),
{
    let id = library.debug_id;
    profile.add_lib(process, fxprof_processed_profile::LibraryInfo {
        base_avma: library.base_avma,
        avma_range: library.avma_start..library.avma_end,
        name: library.name,
        debug_name: library.debug_name,
        path: library.path,
        debug_path: library.debug_path,
        debug_id: debugid::DebugId::from_guid_age(&id.guid, id.age).unwrap(),
        code_id: library.code_id.map(debugid::CodeId::new),
        arch: None,
    });
}

/// Calls `Profile::add_thread`, which adds a thread behind the others, without a name, an
/// end time or samples. It starts at the reference time.
#[verifier::external_body]
pub(crate) fn add_thread(
    profile: &mut Profile,
    process: ProcessHandle,
    tid: u32,
    is_main: bool,
) -> (handle: ThreadHandle)
    requires
        process_index(process) < profile_contents(*old(profile)).processes.len(),
    ensures
        thread_index(handle) == profile_contents(*old(profile)).threads.len(),
        profile_contents(*final(profile)) == (ProfileView {
            threads: profile_contents(*old(profile)).threads.push(
                ThreadView {
                    process: process_index(process),
                    tid,
                    name: None,
                    start_time: 0,
                    end_time: None,
                    is_main,
                    samples: Seq::empty(),
                },
            ),
            ..profile_contents(*old(profile))
        }),
{
    let start = fxprof_processed_profile::Timestamp::from_nanos_since_reference(0);
    profile.add_thread(process, tid, start, is_main)
}

/// Calls `Profile::set_thread_name`, which replaces the name of a thread.
#[verifier::external_body]
pub(crate) fn set_thread_name(profile: &mut Profile, thread: ThreadHandle, name: &str)
    requires
        thread_index(thread) < profile_contents(*old(profile)).threads.len(),
    ensures
        profile_contents(*final(profile)) == profile_contents(*old(profile)).with_thread(
            thread_index(thread),
            ThreadView {
                name: Some(name@),
                ..profile_contents(*old(profile)).threads[thread_index(thread) as int]
            },
        ),
{
    profile.set_thread_name(thread, name);
}

/// Calls `Profile::set_thread_start_time`, which replaces the start time of a thread.
#[verifier::external_body]
pub(crate) fn set_thread_start_time(profile: &mut Profile, thread: ThreadHandle, nanos: u64)
    requires
        thread_index(thread) < profile_contents(*old(profile)).threads.len(),
    ensures
        profile_contents(*final(profile)) == profile_contents(*old(profile)).with_thread(
            thread_index(thread),
            ThreadView {
                start_time: nanos,
                ..profile_contents(*old(profile)).threads[thread_index(thread) as int]
            },
        ),
{
    let time = fxprof_processed_profile::Timestamp::from_nanos_since_reference(nanos);
    profile.set_thread_start_time(thread, time);
}

/// Calls `Profile::set_thread_end_time`, which replaces the end time of a thread.
#[verifier::external_body]
pub(crate) fn set_thread_end_time(profile: &mut Profile, thread: ThreadHandle, nanos: u64)
    requires
        thread_index(thread) < profile_contents(*old(profile)).threads.len(),
    ensures
        profile_contents(*final(profile)) == profile_contents(*old(profile)).with_thread(
            thread_index(thread),
            ThreadView {
                end_time: Some(nanos),
                ..profile_contents(*old(profile)).threads[thread_index(thread) as int]
            },
        ),
{
    let time = fxprof_processed_profile::Timestamp::from_nanos_since_reference(nanos);
    profile.set_thread_end_time(thread, time);
}

/// The frames with the numbers of their categories.
pub open spec fn numbered_frames(frames: Seq<(Frame, CategoryPairHandle)>) -> Seq<(Frame, nat)> {
    frames.map_values(|frame: (Frame, CategoryPairHandle)| (frame.0, category_index(frame.1)))
}

/// Calls `Profile::add_sample`, which adds a sample behind the others of a thread. The CPU
/// time is kept in whole microseconds. Each frame is looked up among the mappings of the
/// thread's process; of one that lies in a library the address relative to the library's base
/// address is kept, so it may not lie below that.
#[verifier::external_body]
pub(crate) fn add_sample(
    profile: &mut Profile,
    thread: ThreadHandle,
    nanos: u64,
    frames: Vec<(Frame, CategoryPairHandle)>,
    cpu_delta_nanos: u64,
    weight: i32,
)
    requires
        profile_contents(*old(profile)).valid(),
        thread_index(thread) < profile_contents(*old(profile)).threads.len(),
        resolvable(
            numbered_frames(frames@),
            profile_contents(*old(profile)).mappings_of_thread(thread_index(thread)),
        ),
    ensures
        profile_contents(*final(profile)) == profile_contents(*old(profile)).with_sample(
            thread_index(thread),
            GivenSample {
                timestamp: nanos,
                frames: numbered_frames(frames@),
                cpu_delta_micros: cpu_delta_nanos / 1000,
                weight,
            },
        ),
{
    let frames = frames.into_iter().map(|(frame, category)| match frame {
        Frame::InstructionPointer(ip) => (fxprof_processed_profile::Frame::InstructionPointer(ip), category),
        Frame::ReturnAddress(ra) => (fxprof_processed_profile::Frame::ReturnAddress(ra), category),
    });
    let time = fxprof_processed_profile::Timestamp::from_nanos_since_reference(nanos);
    let cpu_delta = fxprof_processed_profile::CpuDelta::from_nanos(cpu_delta_nanos);
    profile.add_sample(thread, time, frames, cpu_delta, weight);
}

} // verus!
