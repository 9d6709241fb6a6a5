//! The mappings of the libraries of all processes, by which frames are looked up.

use vstd::prelude::*;
use fxprof_processed_profile::{CategoryPairHandle, ProcessHandle, Profile};
use crate::profile::{
    is_nearest, lemma_library_at, library_at, mapped_libraries, numbered_frames, process_index,
    profile_contents, resolvable, same_process, Frame, Library, LibraryView, MappedLibrary,
    ProfileView,
};
use crate::tables::library_views;

verus! {

/// The mapping of a library.
struct MappedRange {
    start: u64,
    end: u64,
    base: u64,
}

/// The mappings of a process, in the order in which they were added.
struct ProcessMappings {
    process: ProcessHandle,
    ranges: Vec<MappedRange>,
}

/// The mappings of all processes of a profile.
pub struct Mappings {
    processes: Vec<ProcessMappings>,
    /// Whether a library was added whose base address lies above the start of its mapping.
    any_above_start: bool,
}

/// The mappings that count: of those with the same start, the last.
spec fn last_ranges(ranges: Seq<MappedRange>) -> Map<u64, MappedRange>
    decreases ranges.len(),
{
    if ranges.len() == 0 {
        Map::empty()
    } else {
        last_ranges(ranges.drop_last()).insert(ranges.last().start, ranges.last())
    }
}

/// Whether a list of mappings is that of these libraries.
spec fn describes(ranges: Seq<MappedRange>, mappings: Map<u64, MappedLibrary>) -> bool {
    &&& forall|start: u64| #[trigger]
        last_ranges(ranges).contains_key(start) <==> mappings.contains_key(start)
    &&& forall|start: u64| #[trigger]
        mappings.contains_key(start) ==> last_ranges(ranges)[start] == (MappedRange {
            start,
            end: mappings[start].avma_end,
            base: mappings[start].base_avma,
        })
}

/// One more mapping at the end of a list is that of one more library.
proof fn lemma_describes_more(
    ranges: Seq<MappedRange>,
    mappings: Map<u64, MappedLibrary>,
    library: LibraryView,
)
    requires
        describes(ranges, mappings),
    ensures
        describes(
            ranges.push(
                MappedRange {
                    start: library.avma_start,
                    end: library.avma_end,
                    base: library.base_avma,
                },
            ),
            mappings.insert(library.avma_start, library.mapped()),
        ),
{
    let range = MappedRange {
        start: library.avma_start,
        end: library.avma_end,
        base: library.base_avma,
    };
    assert(ranges.push(range).drop_last() =~= ranges);
    assert(last_ranges(ranges.push(range)) == last_ranges(ranges).insert(range.start, range));
    let after = mappings.insert(library.avma_start, library.mapped());
    assert forall|start: u64| #[trigger] after.contains_key(start) implies last_ranges(
        ranges.push(range),
    )[start] == (MappedRange {
        start,
        end: after[start].avma_end,
        base: after[start].base_avma,
    }) by {
        if start != range.start {
            assert(mappings.contains_key(start));
        }
    }
}

/// Whether no base address lies above the start of its mapping.
spec fn start_at_base(mappings: Map<u64, MappedLibrary>) -> bool {
    forall|start: u64| #[trigger]
        mappings.contains_key(start) ==> mappings[start].base_avma <= start
}

/// The mappings of the processes of a profile.
pub open spec fn mappings_of(profile: ProfileView) -> Seq<Map<u64, MappedLibrary>> {
    Seq::new(profile.processes.len(), |p: int| profile.processes[p].mappings)
}

/// Finds the mapping with the last start at or before an address.
fn find_range(ranges: &Vec<MappedRange>, address: u64) -> (found: Option<usize>)
    ensures
        match found {
            Some(k) => {
                &&& k < ranges@.len()
                &&& ranges@[k as int].start <= address
                &&& last_ranges(ranges@).contains_key(ranges@[k as int].start)
                &&& last_ranges(ranges@)[ranges@[k as int].start] == ranges@[k as int]
                &&& forall|start: u64| #[trigger]
                    last_ranges(ranges@).contains_key(start) && start <= address ==> start
                        <= ranges@[k as int].start
            },
            None => forall|start: u64| #[trigger]
                last_ranges(ranges@).contains_key(start) ==> start > address,
        },
{
    let mut found: Option<usize> = None;
    let mut i: usize = 0;
    while i < ranges.len()
        invariant
            i <= ranges@.len(),
            match found {
                Some(k) => {
                    &&& k < i
                    &&& ranges@[k as int].start <= address
                    &&& last_ranges(ranges@.take(i as int)).contains_key(ranges@[k as int].start)
                    &&& last_ranges(ranges@.take(i as int))[ranges@[k as int].start]
                        == ranges@[k as int]
                    &&& forall|start: u64| #[trigger]
                        last_ranges(ranges@.take(i as int)).contains_key(start) && start
                            <= address ==> start <= ranges@[k as int].start
                },
                None => forall|start: u64| #[trigger]
                    last_ranges(ranges@.take(i as int)).contains_key(start) ==> start > address,
            },
        decreases ranges@.len() - i,
    {
        proof {
            assert(ranges@.take(i + 1).drop_last() =~= ranges@.take(i as int));
            assert(ranges@.take(i + 1).last() == ranges@[i as int]);
        }
        let start: u64 = ranges[i].start;
        proof {
            assert(last_ranges(ranges@.take(i + 1)) == last_ranges(ranges@.take(i as int)).insert(
                start,
                ranges@[i as int],
            ));
        }
        if start <= address {
            let is_later: bool = match found {
                Some(k) => start >= ranges[k].start,
                None => true,
            };
            if is_later {
                found = Some(i);
            }
        }
        i = i + 1;
    }
    assert(ranges@.take(ranges@.len() as int) =~= ranges@);
    found
}

/// Tests whether an address does not lie below the base address of the library in whose
/// mapping it is.
fn is_address_resolvable(
    ranges: &Vec<MappedRange>,
    address: u64,
    Ghost(mappings): Ghost<Map<u64, MappedLibrary>>,
) -> (result: bool)
    requires
        describes(ranges@, mappings),
    ensures
        result == (library_at(mappings, address) matches Some(library) ==> library.base_avma
            <= address),
{
    match find_range(ranges, address) {
        Some(k) => {
            let range: &MappedRange = &ranges[k];
            proof {
                assert(mappings.contains_key(range.start));
                assert forall|other: u64| #[trigger]
                    mappings.contains_key(other) && other <= address implies other
                    <= range.start by {
                    assert(last_ranges(ranges@).contains_key(other));
                }
                assert(is_nearest(mappings, address, range.start));
                lemma_library_at(mappings, address, range.start);
            }
            if address == range.start || address < range.end {
                range.base <= address
            } else {
                true
            }
        },
        None => {
            proof {
                assert forall|start: u64| !is_nearest(mappings, address, start) by {
                    if mappings.contains_key(start) {
                        assert(last_ranges(ranges@).contains_key(start));
                    }
                }
            }
            true
        },
    }
}

/// Where no base address lies above the start of its mapping, every frame can be resolved.
proof fn lemma_start_at_base(mappings: Map<u64, MappedLibrary>, address: u64)
    requires
        start_at_base(mappings),
    ensures
        library_at(mappings, address) matches Some(library) ==> library.base_avma <= address,
{
    if exists|start: u64| is_nearest(mappings, address, start) {
        let start = choose|start: u64| is_nearest(mappings, address, start);
        lemma_library_at(mappings, address, start);
    }
}

/// Where no base address lies above the start of its mapping, every frame can be resolved.
pub proof fn lemma_start_at_base_resolvable(
    libraries: Seq<LibraryView>,
    frames: Seq<(Frame, nat)>,
)
    requires
        forall|i: int|
            0 <= i < libraries.len() ==> (#[trigger] libraries[i]).base_avma
                <= libraries[i].avma_start,
    ensures
        resolvable(frames, mapped_libraries(libraries)),
{
    lemma_mapped_start_at_base(libraries);
    assert forall|i: int| 0 <= i < frames.len() implies (library_at(
        mapped_libraries(libraries),
        (#[trigger] frames[i]).0.lookup_address(),
    ) matches Some(library) ==> library.base_avma <= frames[i].0.lookup_address()) by {
        lemma_start_at_base(mapped_libraries(libraries), frames[i].0.lookup_address());
    }
}

/// Libraries whose base addresses do not lie above the starts of their mappings are found so.
proof fn lemma_mapped_start_at_base(libraries: Seq<LibraryView>)
    requires
        forall|i: int|
            0 <= i < libraries.len() ==> (#[trigger] libraries[i]).base_avma
                <= libraries[i].avma_start,
    ensures
        start_at_base(mapped_libraries(libraries)),
    decreases libraries.len(),
{
    if libraries.len() > 0 {
        assert(libraries.last().base_avma <= libraries.last().avma_start);
        assert forall|i: int| 0 <= i < libraries.drop_last().len() implies (
        #[trigger] libraries.drop_last()[i]).base_avma <= libraries.drop_last()[i].avma_start by {
            assert(libraries[i].base_avma <= libraries[i].avma_start);
        }
        lemma_mapped_start_at_base(libraries.drop_last());
    }
}

impl Mappings {
    /// Whether these are the mappings of the processes of a profile.
    pub closed spec fn lists(self, mappings: Seq<Map<u64, MappedLibrary>>) -> bool {
        &&& self.processes@.len() == mappings.len()
        &&& forall|p: int|
            #![trigger self.processes@[p]]
            #![trigger mappings[p]]
            0 <= p < mappings.len() ==> {
                &&& process_index(self.processes@[p].process) == p
                &&& describes(self.processes@[p].ranges@, mappings[p])
                &&& !self.any_above_start ==> start_at_base(mappings[p])
            }
    }

    /// Makes the mappings of no processes.
    pub fn new() -> (mappings: Mappings)
        ensures
            mappings.lists(Seq::empty()),
    {
        Mappings { processes: Vec::new(), any_above_start: false }
    }

    /// Notes a process that comes with libraries.
    pub fn add_process(&mut self, process: ProcessHandle, libraries: &[Library])
        ensures
            forall|mappings: Seq<Map<u64, MappedLibrary>>| #[trigger]
                old(self).lists(mappings) && process_index(process) == mappings.len()
                    ==> final(self).lists(
                    mappings.push(mapped_libraries(library_views(libraries@))),
                ),
    {
        let ghost views = library_views(libraries@);
        let mut ranges: Vec<MappedRange> = Vec::new();
        let mut any_above_start: bool = self.any_above_start;
        let mut i: usize = 0;
        while i < libraries.len()
            invariant
                i <= libraries@.len(),
                views == library_views(libraries@),
                describes(ranges@, mapped_libraries(views.take(i as int))),
                old(self).any_above_start ==> any_above_start,
                !any_above_start ==> start_at_base(mapped_libraries(views.take(i as int))),
            decreases libraries@.len() - i,
        {
            let library: &Library = &libraries[i];
            let ghost before = ranges@;
            ranges.push(
                MappedRange {
                    start: library.avma_start,
                    end: library.avma_end,
                    base: library.base_avma,
                },
            );
            any_above_start = any_above_start || library.base_avma > library.avma_start;
            proof {
                lemma_describes_more(before, mapped_libraries(views.take(i as int)), library@);
                assert(views.take(i + 1).drop_last() =~= views.take(i as int));
                assert(views.take(i + 1).last() == library@);
            }
            i = i + 1;
        }
        self.processes.push(ProcessMappings { process, ranges });
        self.any_above_start = any_above_start;
        assert(views.take(views.len() as int) =~= views);
    }

    /// Notes a library that is added to a process.
    pub fn add_library(&mut self, process: ProcessHandle, library: &Library)
        ensures
            forall|mappings: Seq<Map<u64, MappedLibrary>>| #[trigger]
                old(self).lists(mappings) && process_index(process) < mappings.len()
                    ==> final(self).lists(
                    mappings.update(
                        process_index(process) as int,
                        mappings[process_index(process) as int].insert(
                            library.avma_start,
                            library@.mapped(),
                        ),
                    ),
                ),
    {
        let range: MappedRange = MappedRange {
            start: library.avma_start,
            end: library.avma_end,
            base: library.base_avma,
        };
        let p: usize = self.find_process(process);
        if p < self.processes.len() {
            self.processes[p].ranges.push(range);
        }
        self.any_above_start = self.any_above_start || library.base_avma > library.avma_start;
        proof {
            assert forall|mappings: Seq<Map<u64, MappedLibrary>>| #[trigger]
                old(self).lists(mappings) && process_index(process)
                    < mappings.len() implies self.lists(
                mappings.update(
                    process_index(process) as int,
                    mappings[process_index(process) as int].insert(
                        library.avma_start,
                        library@.mapped(),
                    ),
                ),
            ) by {
                assert(p == process_index(process)) by {
                    assert forall|q: int| 0 <= q < old(self).processes@.len() implies
                        process_index((#[trigger] old(self).processes@[q]).process) == q by {}
                }
                assert(describes(old(self).processes@[p as int].ranges@, mappings[p as int]));
                lemma_describes_more(
                    old(self).processes@[p as int].ranges@,
                    mappings[p as int],
                    library@,
                );
            }
        }
    }

    /// Finds the place of a process.
    fn find_process(&self, process: ProcessHandle) -> (place: usize)
        ensures
            place <= self.processes@.len(),
            (forall|p: int|
                0 <= p < self.processes@.len() ==> process_index(
                    (#[trigger] self.processes@[p]).process,
                ) == p) && process_index(process) < self.processes@.len() ==> place
                == process_index(process),
    {
        let mut p: usize = 0;
        while p < self.processes.len()
            invariant
                p <= self.processes@.len(),
                forall|q: int|
                    0 <= q < p ==> process_index((#[trigger] self.processes@[q]).process)
                        != process_index(process),
            decreases self.processes@.len() - p,
        {
            if same_process(self.processes[p].process, process) {
                return p;
            }
            p = p + 1;
        }
        proof {
            if process_index(process) < self.processes@.len() {
                assert(process_index(self.processes@[process_index(process) as int].process)
                    != process_index(process));
            }
        }
        p
    }

    /// Tests whether no frame lies below the base address of the library of a process in whose
    /// mapping it is.
    pub fn is_resolvable(
        &self,
        profile: &Profile,
        process: ProcessHandle,
        frames: &Vec<(Frame, CategoryPairHandle)>,
    ) -> (result: bool)
        requires
            self.lists(mappings_of(profile_contents(*profile))),
            process_index(process) < profile_contents(*profile).processes.len(),
        ensures
            result == resolvable(
                numbered_frames(frames@),
                profile_contents(*profile).processes[process_index(process) as int].mappings,
            ),
    {
        let ghost p = process_index(process) as int;
        let ghost mappings = mappings_of(profile_contents(*profile))[p];
        let ghost numbered = numbered_frames(frames@);
        if !self.any_above_start {
            proof {
                assert forall|i: int| 0 <= i < numbered.len() implies (library_at(
                    mappings,
                    (#[trigger] numbered[i]).0.lookup_address(),
                ) matches Some(library) ==> library.base_avma
                    <= numbered[i].0.lookup_address()) by {
                    lemma_start_at_base(mappings, numbered[i].0.lookup_address());
                }
            }
            return true;
        }
        let place: usize = self.find_process(process);
        assert(process_index(self.processes@[p].process) == p);
        let ranges: &Vec<MappedRange> = &self.processes[place].ranges;
        let mut i: usize = 0;
        while i < frames.len()
            invariant
                i <= frames@.len(),
                numbered == numbered_frames(frames@),
                mappings
                    == profile_contents(*profile).processes[process_index(process) as int].mappings,
                describes(ranges@, mappings),
                forall|j: int|
                    0 <= j < i ==> (library_at(
                        mappings,
                        (#[trigger] numbered[j]).0.lookup_address(),
                    ) matches Some(library) ==> library.base_avma
                        <= numbered[j].0.lookup_address()),
            decreases frames@.len() - i,
        {
            let address: u64 = match frames[i].0 {
                Frame::InstructionPointer(address) => address,
                Frame::ReturnAddress(address) => address.saturating_sub(1),
            };
            assert(numbered[i as int].0 == frames@[i as int].0);
            assert(address == numbered[i as int].0.lookup_address());
            if !is_address_resolvable(ranges, address, Ghost(mappings)) {
                assert(!resolvable(numbered, mappings));
                return false;
            }
            i = i + 1;
        }
        true
    }
}

} // verus!
