//! The converter: takes the records of a recording one by one, and fills a profile.

use vstd::prelude::*;
use std::collections::HashMap;
use fxprof_processed_profile::{
    CategoryPairHandle, ProcessHandle, Profile, ReferenceTimestamp, ThreadHandle,
};
use crate::events::EventInterpretation;
use crate::ids::{
    code_id_for_build_id, copy_bytes, debug_id_for_build_id, is_memory, optional_bytes, BuildIds,
    DsoBuildId, DsoKey,
};
use crate::mappings::{lemma_start_at_base_resolvable, mappings_of, Mappings};
use crate::module::{
    make_module, Mapping, MappingView, Module, ModuleError, UnwindModule, UnwindModuleView,
};
use crate::object_file::optional_data;
use crate::profile::{
    add_category, add_lib, add_sample, mapped_libraries, new_profile, process_index,
    profile_contents, set_process_end_time, set_process_name, set_process_start_time, set_product,
    set_thread_end_time, set_thread_name, set_thread_start_time, CategoryColor, CategoryView, Frame,
    Library, ProfileView,
};
use crate::records::{
    CommOrExecRecord, CommonData, ContextSwitchRecord, ForkOrExitRecord, Mmap2FileId, Mmap2Record,
    MmapRecord, SampleRecord,
};
use crate::sampling::{add_switch_sample, compute_off_cpu_weight, observe_running};
use crate::stack::{get_sample_stack, profile_frames, StackConverter, StackFrame, UnwoundStack};
use crate::state::{
    lemma_after_context_switch_valid, lemma_after_load_valid, lemma_after_replacement_valid,
    lemma_after_sample_valid, lemma_after_sched_switch_valid, lemma_after_thread_end_valid,
    lemma_after_thread_name_update_valid, lemma_after_thread_start_valid, lemma_valid,
    lemma_with_process_valid, lemma_with_thread_of_valid, ConverterView, EventError, MmapError,
    Settings, PROT_EXEC,
};
use crate::tables::{library_views, LiveThread, Process, Processes, Thread, ThreadState, Threads};
use crate::text::{make_lossy_text, same_text, starts_with, utf8_text};

verus! {

broadcast use vstd::std_specs::hash::group_hash_axioms;

/// Converts a recording. `U` is what unwinds the stacks of one process.
pub struct Converter<U> {
    profile: Profile,
    processes: Processes<U>,
    threads: Threads,
    stack_converter: StackConverter,
    kernel_modules: Vec<Library>,
    mappings: Mappings,
    first_sample_time: u64,
    current_sample_time: u64,
    build_ids: BuildIds,
    little_endian: bool,
    have_product_name: bool,
    host: String,
    perf_version: String,
    linux_version: Option<String>,
    sampling_is_time_based: Option<u64>,
    have_time_based_cpu_deltas: bool,
}

/// The numbers of processes in the profile.
spec fn process_indexes<U>(processes: Map<i32, Process<U>>) -> Map<i32, nat> {
    processes.map_values(|process: Process<U>| process_index(process.profile_process))
}

/// What is known of threads.
spec fn live_threads(threads: Map<i32, Thread>) -> Map<i32, LiveThread> {
    threads.map_values(|thread: Thread| thread@)
}

impl<U> View for Converter<U> {
    type V = ConverterView;

    closed spec fn view(&self) -> ConverterView {
        ConverterView {
            profile: profile_contents(self.profile),
            processes: process_indexes(self.processes@),
            threads: live_threads(self.threads@),
            kernel_modules: library_views(self.kernel_modules@),
            user_category: self.stack_converter.user(),
            kernel_category: self.stack_converter.kernel(),
            first_sample_time: self.first_sample_time,
            current_sample_time: self.current_sample_time,
            build_ids: self.build_ids@,
            little_endian: self.little_endian,
            have_product_name: self.have_product_name,
            host: self.host@,
            perf_version: self.perf_version@,
            linux_version: crate::profile::optional_text(self.linux_version),
            sampling_is_time_based: self.sampling_is_time_based,
            have_time_based_cpu_deltas: self.have_time_based_cpu_deltas,
        }
    }
}

impl<U> Converter<U> {
    /// Whether the parts of the converter fit together.
    pub closed spec fn wf(self) -> bool {
        &&& self@.valid()
        &&& self.kernel_modules_start_at_base()
        &&& self.mappings.lists(mappings_of(self@.profile))
    }

    /// A converter whose parts fit together is in a valid state.
    pub proof fn lemma_wf(self)
        requires
            self.wf(),
        ensures
            self@.valid(),
    {
    }

    spec fn kernel_modules_start_at_base(self) -> bool {
        forall|i: int|
            0 <= i < self.kernel_modules@.len() ==> (#[trigger] self.kernel_modules@[i]).base_avma
                == self.kernel_modules@[i].avma_start
    }

    /// What unwinds the stacks of a process.
    pub closed spec fn unwinder(self, pid: i32) -> U {
        self.processes@[pid].unwinder
    }
}

/// Entering one more process enters its number.
proof fn lemma_process_entered<U>(processes: Map<i32, Process<U>>, pid: i32, process: Process<U>)
    ensures
        process_indexes(processes.insert(pid, process)) == process_indexes(processes).insert(
            pid,
            process_index(process.profile_process),
        ),
{
    assert(process_indexes(processes.insert(pid, process)) =~= process_indexes(processes).insert(
        pid,
        process_index(process.profile_process),
    ));
}

/// Entering one more thread enters what is known of it.
proof fn lemma_thread_entered(threads: Map<i32, Thread>, tid: i32, thread: Thread)
    ensures
        live_threads(threads.insert(tid, thread)) == live_threads(threads).insert(tid, thread@),
{
    assert(live_threads(threads.insert(tid, thread)) =~= live_threads(threads).insert(
        tid,
        thread@,
    ));
}

/// Removing a process removes its number.
proof fn lemma_process_removed<U>(processes: Map<i32, Process<U>>, pid: i32)
    ensures
        process_indexes(processes.remove(pid)) == process_indexes(processes).remove(pid),
{
    assert(process_indexes(processes.remove(pid)) =~= process_indexes(processes).remove(pid));
}

/// Removing a thread removes what is known of it.
proof fn lemma_thread_removed(threads: Map<i32, Thread>, tid: i32)
    ensures
        live_threads(threads.remove(tid)) == live_threads(threads).remove(tid),
{
    assert(live_threads(threads.remove(tid)) =~= live_threads(threads).remove(tid));
}

/// The view of a mapping that is to be loaded, or of why that cannot be said.
pub open spec fn mapping_result(result: Result<Option<Mapping>, MmapError>) -> Result<
    Option<MappingView>,
    MmapError,
> {
    match result {
        Ok(Some(mapping)) => Ok(Some(mapping@)),
        Ok(None) => Ok(None),
        Err(error) => Err(error),
    }
}

/// What the unwinder is to be told of a module.
pub open spec fn unwind_view(unwind: Option<UnwindModule>) -> Option<UnwindModuleView> {
    match unwind {
        Some(unwind) => Some(unwind@),
        None => None,
    }
}

impl<U: Default> Converter<U> {
    /// Whether what unwinds stacks was kept: each process that lives in both states has what
    /// it had, and a new one has the default.
    pub open spec fn keeps_unwinders(self, before: Converter<U>) -> bool {
        forall|pid: i32| #[trigger]
            self@.processes.contains_key(pid) ==> if before@.processes.contains_key(pid)
                && before@.processes[pid] == self@.processes[pid] {
                self.unwinder(pid) == before.unwinder(pid)
            } else {
                call_ensures(U::default, (), self.unwinder(pid))
            }
    }

    /// Makes a converter with an empty profile. Times in the profile are counted from the
    /// reference time.
    pub fn new(
        product: &str,
        reference: ReferenceTimestamp,
        build_ids: BuildIds,
        first_sample_time: u64,
        host: &str,
        perf_version: &str,
        linux_version: Option<&str>,
        little_endian: bool,
        interpretation: &EventInterpretation,
    ) -> (converter: Converter<U>)
        ensures
            converter.wf(),
            converter@ == ConverterView::initial(
                Settings {
                    product: product@,
                    reference,
                    build_ids: build_ids@,
                    first_sample_time,
                    host: host@,
                    perf_version: perf_version@,
                    linux_version: match linux_version {
                        Some(version) => Some(version@),
                        None => None,
                    },
                    little_endian,
                    sampling_is_time_based: interpretation.sampling_is_time_based,
                    have_time_based_cpu_deltas: interpretation.have_time_based_cpu_deltas,
                },
            ),
            converter@ == (ConverterView {
                profile: ProfileView {
                    product: product@,
                    reference,
                    interval_nanos: match interpretation.sampling_is_time_based {
                        Some(nanos) => nanos,
                        None => 1_000_000,
                    },
                    categories: seq![
                        CategoryView { name: "Other"@, color: CategoryColor::Grey },
                        CategoryView { name: "User"@, color: CategoryColor::Yellow },
                        CategoryView { name: "Kernel"@, color: CategoryColor::Orange },
                    ],
                    processes: Seq::empty(),
                    threads: Seq::empty(),
                },
                processes: Map::empty(),
                threads: Map::empty(),
                kernel_modules: Seq::empty(),
                user_category: 1,
                kernel_category: 2,
                first_sample_time,
                current_sample_time: first_sample_time,
                build_ids: build_ids@,
                little_endian,
                have_product_name: false,
                host: host@,
                perf_version: perf_version@,
                linux_version: match linux_version {
                    Some(version) => Some(version@),
                    None => None,
                },
                sampling_is_time_based: interpretation.sampling_is_time_based,
                have_time_based_cpu_deltas: interpretation.have_time_based_cpu_deltas,
            }),
    {
        let interval_nanos: u64 = match interpretation.sampling_is_time_based {
            Some(nanos) => nanos,
            None => 1_000_000,
        };
        let mut profile: Profile = new_profile(product, reference, interval_nanos);
        let user_category: CategoryPairHandle = add_category(
            &mut profile,
            "User",
            CategoryColor::Yellow,
        );
        let kernel_category: CategoryPairHandle = add_category(
            &mut profile,
            "Kernel",
            CategoryColor::Orange,
        );
        let converter: Converter<U> = Converter {
            profile,
            processes: Processes(HashMap::new()),
            threads: Threads(HashMap::new()),
            stack_converter: StackConverter { user_category, kernel_category },
            kernel_modules: Vec::new(),
            mappings: Mappings::new(),
            first_sample_time,
            current_sample_time: first_sample_time,
            build_ids,
            little_endian,
            have_product_name: false,
            host: host.to_owned(),
            perf_version: perf_version.to_owned(),
            linux_version: match linux_version {
                Some(version) => Some(version.to_owned()),
                None => None,
            },
            sampling_is_time_based: interpretation.sampling_is_time_based,
            have_time_based_cpu_deltas: interpretation.have_time_based_cpu_deltas,
        };
        proof {
            reveal(ConverterView::valid);
            assert(process_indexes(converter.processes@) =~= Map::empty());
            assert(live_threads(converter.threads@) =~= Map::empty());
            assert(library_views(converter.kernel_modules@) =~= Seq::empty());
            assert(mappings_of(converter@.profile) =~= Seq::empty());
            assert(converter@.profile.categories =~= seq![
                CategoryView { name: "Other"@, color: CategoryColor::Grey },
                CategoryView { name: "User"@, color: CategoryColor::Yellow },
                CategoryView { name: "Kernel"@, color: CategoryColor::Orange },
            ]);
        }
        converter
    }

    /// Gives up the profile.
    pub fn finish(self) -> (profile: Profile)
        ensures
            profile_contents(profile) == self@.profile,
    {
        self.profile
    }

    /// Converts a moment to the time of the profile.
    pub fn convert_time(&self, ktime_ns: u64) -> (nanos: u64)
        ensures
            nanos == self@.time(ktime_ns),
    {
        ktime_ns.saturating_sub(self.first_sample_time)
    }

    /// Makes sure that a process is known.
    fn enter_process(&mut self, pid: i32) -> (handle: ProcessHandle)
        requires
            old(self).wf(),
        ensures
            final(self).wf(),
            final(self)@ == old(self)@.with_process(pid),
            process_index(handle) == final(self)@.processes[pid],
            process_index(handle) < final(self)@.profile.processes.len(),
            final(self).keeps_unwinders(*old(self)),
    {
        proof {
            lemma_valid(self@);
            lemma_with_process_valid(self@, pid);
            lemma_valid(self@.with_process(pid));
            assert forall|i: int| 0 <= i < self.kernel_modules@.len() implies (
            #[trigger] self.kernel_modules@[i])@.valid() by {
                assert(self@.kernel_modules[i].valid());
            }
        }
        let is_new: bool = !self.processes.0.contains_key(&pid);
        let process: &mut Process<U> = self.processes.get_by_pid(
            pid,
            &mut self.profile,
            self.kernel_modules.as_slice(),
        );
        let handle: ProcessHandle = process.profile_process;
        if is_new {
            self.mappings.add_process(handle, self.kernel_modules.as_slice());
        }
        proof {
            if old(self)@.processes.contains_key(pid) {
                assert(self.processes@ =~= old(self).processes@);
            } else {
                lemma_process_entered(old(self).processes@, pid, self.processes@[pid]);
                assert(mappings_of(self@.profile) =~= mappings_of(old(self)@.profile).push(
                    mapped_libraries(self@.kernel_modules),
                ));
            }
        }
        handle
    }

    /// Finds what is wrong with the times of an event of a thread.
    fn find_time_error(&self, state: ThreadState, timestamp: u64) -> (error: Option<EventError>)
        ensures
            error == self@.time_error(state, timestamp),
    {
        match state {
            ThreadState::Unknown => None,
            ThreadState::Off { off_switch_timestamp } => {
                if timestamp < off_switch_timestamp {
                    Some(EventError::TimeRunsBackwards)
                } else {
                    match self.sampling_is_time_based {
                        Some(0) => Some(EventError::ZeroInterval),
                        _ => None,
                    }
                }
            },
            ThreadState::On { last_observed_on_timestamp } => {
                if timestamp < last_observed_on_timestamp {
                    Some(EventError::TimeRunsBackwards)
                } else {
                    None
                }
            },
        }
    }

    /// Tests whether the frames of the sample that is added for a living thread when it is
    /// switched do not lie below the base address of a library in whose mapping they are.
    fn is_switch_resolvable(&self, thread: &Thread) -> (result: bool)
        requires
            self.wf(),
            thread@.index < self@.profile.threads.len(),
            thread@.process == self@.profile.threads[thread@.index as int].process,
        ensures
            result == self@.switch_resolvable(thread@),
    {
        proof {
            lemma_valid(self@);
            let empty: [StackFrame; 0] = [];
            assert(empty@ =~= Seq::<StackFrame>::empty());
        }
        let frames: Vec<(Frame, CategoryPairHandle)> = match &thread.off_cpu_stack {
            Some(stack) => self.stack_converter.convert_stack_no_kernel(stack.as_slice()),
            None => self.stack_converter.convert_stack_no_kernel(&[]),
        };
        self.mappings.is_resolvable(&self.profile, thread.profile_process, &frames)
    }

    /// Finds out whether a sample of the main event can be converted, and why not.
    pub fn check_sample(&self, e: &SampleRecord, unwound: &Option<UnwoundStack>) -> (error: Option<
        EventError,
    >)
        requires
            self.wf(),
            unwound is Some <==> e@.can_unwind(),
        ensures
            error == self@.sample_error(e@, *unwound),
    {
        let pid: i32 = match e.pid {
            Some(pid) => pid,
            None => return Some(EventError::MissingPid),
        };
        let tid: i32 = match e.tid {
            Some(tid) => tid,
            None => return Some(EventError::MissingTid),
        };
        let timestamp: u64 = match e.timestamp {
            Some(timestamp) => timestamp,
            None => return Some(EventError::MissingTimestamp),
        };
        let ghost known = self@.with_thread_of(pid, tid);
        proof {
            lemma_valid(self@);
        }
        let thread: Option<&Thread> = self.threads.0.get(&tid);
        if self.have_time_based_cpu_deltas {
            if let Some(thread) = thread {
                if let Some(error) = self.find_time_error(thread.state, timestamp) {
                    return Some(error);
                }
                if let ThreadState::Off { .. } = thread.state {
                    if !self.is_switch_resolvable(thread) {
                        return Some(EventError::FrameBelowBase);
                    }
                }
            }
        }
        let stack: Vec<StackFrame> = get_sample_stack(e, unwound);
        let frames: Vec<(Frame, CategoryPairHandle)> = self.stack_converter.convert_stack(
            stack.as_slice(),
        );
        let process: Option<ProcessHandle> = match thread {
            Some(thread) => Some(thread.profile_process),
            None => match self.processes.0.get(&pid) {
                Some(process) => Some(process.profile_process),
                None => None,
            },
        };
        match process {
            Some(process) => {
                if self.mappings.is_resolvable(&self.profile, process, &frames) {
                    None
                } else {
                    Some(EventError::FrameBelowBase)
                }
            },
            None => {
                proof {
                    lemma_start_at_base_resolvable(
                        self@.kernel_modules,
                        profile_frames(
                            stack@,
                            self.stack_converter.user(),
                            self.stack_converter.kernel(),
                        ),
                    );
                    assert(known.profile.mappings_of_thread(known.threads[tid].index)
                        == mapped_libraries(self@.kernel_modules));
                }
                None
            },
        }
    }

    /// Takes a sample of the main event. `unwound` is what unwinding made of the user stack,
    /// where the sample holds what that takes.
    pub fn handle_sample(&mut self, e: &SampleRecord, unwound: &Option<UnwoundStack>)
        requires
            old(self).wf(),
            unwound is Some <==> e@.can_unwind(),
            old(self)@.sample_error(e@, *unwound) is None,
        ensures
            final(self).wf(),
            final(self)@ == old(self)@.after_sample(e@, *unwound),
            final(self).keeps_unwinders(*old(self)),
    {
        let pid: i32 = e.pid.unwrap();
        let tid: i32 = e.tid.unwrap();
        let timestamp: u64 = e.timestamp.unwrap();
        let profile_timestamp: u64 = self.convert_time(timestamp);
        let is_main: bool = pid == tid;
        let process_handle: ProcessHandle = self.enter_process(pid);
        let ghost entered = *self;
        let stack: Vec<StackFrame> = get_sample_stack(e, unwound);
        let thread: &mut Thread = self.threads.get_by_tid(
            tid,
            process_handle,
            is_main,
            &mut self.profile,
        );
        proof {
            lemma_with_thread_of_valid(old(self)@, pid, tid);
            lemma_valid(old(self)@.with_thread_of(pid, tid));
            assert(profile_contents(self.profile) == old(self)@.with_thread_of(pid, tid).profile);
            assert(thread@ == old(self)@.with_thread_of(pid, tid).threads[tid]);
        }
        let thread_handle: ThreadHandle = thread.profile_thread;

        let cpu_delta: u64 = if self.have_time_based_cpu_deltas {
            observe_running(
                &mut self.profile,
                self.stack_converter,
                self.sampling_is_time_based,
                thread,
                timestamp,
                profile_timestamp,
            )
        } else {
            match e.period {
                Some(period) => period,
                None => 0,
            }
        };

        let frames: Vec<(Frame, CategoryPairHandle)> = self.stack_converter.convert_stack(
            stack.as_slice(),
        );
        add_sample(&mut self.profile, thread_handle, profile_timestamp, frames, cpu_delta, 1);
        thread.last_sample_timestamp = Some(timestamp);
        self.current_sample_time = timestamp;
        proof {
            lemma_after_sample_valid(old(self)@, e@, *unwound);
            lemma_thread_entered(entered.threads@, tid, self.threads@[tid]);
            assert(self@ =~= old(self)@.after_sample(e@, *unwound));
            assert(mappings_of(self@.profile) =~= mappings_of(entered@.profile));
        }
    }

    /// Takes a sample that shows the stack with which a thread is switched out.
    pub fn handle_sched_switch(&mut self, e: &SampleRecord, unwound: &Option<UnwoundStack>)
        requires
            old(self).wf(),
            e.pid is Some,
            e.tid is Some,
            unwound is Some <==> e@.can_unwind(),
        ensures
            final(self).wf(),
            final(self)@ == old(self)@.after_sched_switch(e@, *unwound),
            final(self).keeps_unwinders(*old(self)),
    {
        let pid: i32 = e.pid.unwrap();
        let tid: i32 = e.tid.unwrap();
        let is_main: bool = pid == tid;
        let process_handle: ProcessHandle = self.enter_process(pid);
        let ghost entered = *self;
        let stack: Vec<StackFrame> = get_sample_stack(e, unwound);
        let thread: &mut Thread = self.threads.get_by_tid(
            tid,
            process_handle,
            is_main,
            &mut self.profile,
        );
        proof {
            lemma_with_thread_of_valid(old(self)@, pid, tid);
            lemma_valid(old(self)@.with_thread_of(pid, tid));
            assert(profile_contents(self.profile) == old(self)@.with_thread_of(pid, tid).profile);
            assert(thread@ == old(self)@.with_thread_of(pid, tid).threads[tid]);
        }
        thread.off_cpu_stack = Some(stack);
        proof {
            lemma_after_sched_switch_valid(old(self)@, e@, *unwound);
            lemma_thread_entered(entered.threads@, tid, self.threads@[tid]);
            assert(self@ =~= old(self)@.after_sched_switch(e@, *unwound));
            assert(mappings_of(self@.profile) =~= mappings_of(entered@.profile));
        }
    }

    /// Guesses where the debug information of a piece of the kernel is.
    fn guess_kernel_debug_path(&self, path: &str) -> (debug_path: String)
        ensures
            debug_path@ == self@.kernel_debug_path(path@),
    {
        if starts_with(path, "[kernel.kallsyms]") {
            if let Some(linux_version) = &self.linux_version {
                let mut debug_path: String = "/usr/lib/debug/boot/vmlinux-".to_owned();
                debug_path.append(linux_version.as_str());
                return debug_path;
            }
        }
        path.to_owned()
    }

    /// Remembers a piece of the kernel, which belongs to all processes that are yet to come.
    fn add_kernel_module(&mut self, library: Library)
        requires
            old(self).wf(),
            library@.valid(),
            library.base_avma == library.avma_start,
        ensures
            final(self).wf(),
            final(self)@ == (ConverterView {
                kernel_modules: old(self)@.kernel_modules.push(library@),
                ..old(self)@
            }),
            final(self).keeps_unwinders(*old(self)),
    {
        self.kernel_modules.push(library);
        proof {
            assert(library_views(self.kernel_modules@) =~= library_views(
                old(self).kernel_modules@,
            ).push(library@));
            reveal(ConverterView::valid);
        }
    }

    /// Takes a mapping. Gives what is to be loaded for it.
    ///
    /// The path from the build ID table takes the place of that in the record. They are
    /// usually the same, but that from the table can be better: the kernel image is often
    /// mapped as "[kernel.kallsyms]_text", where the table has the path of a debug file.
    pub fn handle_mmap(&mut self, e: &MmapRecord) -> (result: Result<Option<Mapping>, MmapError>)
        requires
            old(self).wf(),
        ensures
            final(self).wf(),
            final(self)@ == old(self)@.after_mmap(e@),
            final(self).keeps_unwinders(*old(self)),
            mapping_result(result) == old(self)@.mmap_result(e@),
            is_memory(e.path@) ==> result == Ok::<Option<Mapping>, MmapError>(None) && final(self)@
                == old(self)@,
    {
        if !e.is_executable {
            return Ok(None);
        }
        let key: DsoKey = match DsoKey::detect(e.path.as_slice(), e.cpu_mode) {
            Some(key) => key,
            None => return Ok(None),
        };
        let info: Option<&DsoBuildId> = self.build_ids.get(&key);
        let path: Option<String> = match info {
            Some(info) => utf8_text(info.path.as_slice()),
            None => utf8_text(e.path.as_slice()),
        };
        let build_id: Option<Vec<u8>> = match info {
            Some(info) => Some(copy_bytes(&info.build_id)),
            None => None,
        };
        assert(optional_data(build_id) == self@.build_id(key@));

        if e.pid != -1 {
            self.enter_process(e.pid);
            return match path {
                Some(path) => Ok(
                    Some(
                        Mapping {
                            path,
                            page_offset: e.page_offset,
                            address: e.address,
                            length: e.length,
                            build_id,
                        },
                    ),
                ),
                None => Err(MmapError::PathIsNotUtf8),
            };
        }
        let path: String = match path {
            Some(path) => path,
            None => return Err(MmapError::PathIsNotUtf8),
        };
        let avma_end: u64 = match e.address.checked_add(e.length) {
            Some(end) => end,
            None => return Err(MmapError::AddressOverflow),
        };
        let build_id: Option<&[u8]> = match &build_id {
            Some(build_id) => Some(build_id.as_slice()),
            None => None,
        };
        let library: Library = Library {
            base_avma: e.address,
            avma_start: e.address,
            avma_end,
            name: key.name().to_owned(),
            debug_name: key.name().to_owned(),
            debug_path: self.guess_kernel_debug_path(path.as_str()),
            path,
            debug_id: debug_id_for_build_id(build_id, self.little_endian),
            code_id: code_id_for_build_id(build_id),
        };
        assert(library@ =~= old(self)@.kernel_module(e@, key@));
        self.add_kernel_module(library);
        Ok(None)
    }

    /// Finds out whether a context switch can be converted, and why not.
    pub fn check_context_switch(&self, e: ContextSwitchRecord, common: CommonData) -> (error:
        Option<EventError>)
        requires
            self.wf(),
        ensures
            error == self@.switch_error(e, common.pid, common.tid, common.timestamp),
    {
        let tid: i32 = match (common.pid, common.tid) {
            (None, _) => return Some(EventError::MissingPid),
            (Some(_), None) => return Some(EventError::MissingTid),
            (Some(_), Some(tid)) => tid,
        };
        let timestamp: u64 = match common.timestamp {
            Some(timestamp) => timestamp,
            None => return Some(EventError::MissingTimestamp),
        };
        proof {
            lemma_valid(self@);
        }
        let thread: &Thread = match self.threads.0.get(&tid) {
            Some(thread) => thread,
            None => return None,
        };
        match (thread.state, e) {
            (ThreadState::Off { .. }, ContextSwitchRecord::In) => {},
            (ThreadState::On { .. }, ContextSwitchRecord::Out) => {},
            _ => return None,
        }
        if let Some(error) = self.find_time_error(thread.state, timestamp) {
            return Some(error);
        }
        if self.is_switch_resolvable(thread) {
            None
        } else {
            Some(EventError::FrameBelowBase)
        }
    }

    /// Takes a context switch. Gives the time of the switch before where a thread was
    /// switched out twice, which is not expected: only being switched out leads to not
    /// running, and between two such switches there should be one in.
    pub fn handle_context_switch(&mut self, e: ContextSwitchRecord, common: CommonData) -> (
    double_switch_out: Option<u64>)
        requires
            old(self).wf(),
            old(self)@.switch_error(e, common.pid, common.tid, common.timestamp) is None,
        ensures
            final(self).wf(),
            final(self)@ == old(self)@.after_context_switch(
                e,
                common.pid->0,
                common.tid->0,
                common.timestamp->0,
            ),
            final(self).keeps_unwinders(*old(self)),
            double_switch_out == old(self)@.double_switch_out(
                e,
                common.pid->0,
                common.tid->0,
            ),
    {
        let pid: i32 = common.pid.unwrap();
        let tid: i32 = common.tid.unwrap();
        let timestamp: u64 = common.timestamp.unwrap();
        let profile_timestamp: u64 = self.convert_time(timestamp);
        let is_main: bool = pid == tid;
        let process_handle: ProcessHandle = self.enter_process(pid);
        let ghost entered = *self;
        let thread: &mut Thread = self.threads.get_by_tid(
            tid,
            process_handle,
            is_main,
            &mut self.profile,
        );
        proof {
            lemma_with_thread_of_valid(old(self)@, pid, tid);
            lemma_valid(old(self)@.with_thread_of(pid, tid));
            assert(profile_contents(self.profile) == old(self)@.with_thread_of(pid, tid).profile);
            assert(thread@ == old(self)@.with_thread_of(pid, tid).threads[tid]);
        }
        let mut double_switch_out: Option<u64> = None;
        match (thread.state, e) {
            (ThreadState::Unknown, ContextSwitchRecord::In) => {
                thread.state = ThreadState::On { last_observed_on_timestamp: timestamp };
            },
            (ThreadState::Unknown, ContextSwitchRecord::Out) => {
                thread.state = ThreadState::Off { off_switch_timestamp: timestamp };
            },
            (ThreadState::Off { off_switch_timestamp }, ContextSwitchRecord::In) => {
                let off_duration: u64 = timestamp - off_switch_timestamp;
                let weight: i32 = compute_off_cpu_weight(self.sampling_is_time_based, off_duration);
                add_switch_sample(
                    &mut self.profile,
                    self.stack_converter,
                    thread,
                    timestamp,
                    profile_timestamp,
                    0,
                    weight,
                );
                thread.state = ThreadState::On { last_observed_on_timestamp: timestamp };
            },
            (ThreadState::On { last_observed_on_timestamp }, ContextSwitchRecord::Out) => {
                let on_duration: u64 = timestamp - last_observed_on_timestamp;
                add_switch_sample(
                    &mut self.profile,
                    self.stack_converter,
                    thread,
                    timestamp,
                    profile_timestamp,
                    on_duration,
                    0,
                );
                thread.state = ThreadState::Off { off_switch_timestamp: timestamp };
            },
            (ThreadState::On { .. }, ContextSwitchRecord::In) => {
                // The thread is already known to be running, most likely from a sample that
                // was taken just before as part of the switch. This is quite normal.
            },
            (ThreadState::Off { off_switch_timestamp }, ContextSwitchRecord::Out) => {
                double_switch_out = Some(off_switch_timestamp);
            },
        }
        proof {
            lemma_after_context_switch_valid(old(self)@, e, pid, tid, timestamp);
            lemma_thread_entered(entered.threads@, tid, self.threads@[tid]);
            assert(self@ =~= old(self)@.after_context_switch(e, pid, tid, timestamp));
            assert(mappings_of(self@.profile) =~= mappings_of(entered@.profile));
        }
        double_switch_out
    }

    /// Takes a mapping with protection bits. Gives what is to be loaded for it.
    pub fn handle_mmap2(&mut self, e: &Mmap2Record) -> (result: Result<
        Option<Mapping>,
        MmapError,
    >)
        requires
            old(self).wf(),
        ensures
            final(self).wf(),
            final(self)@ == old(self)@.after_mmap2(e@),
            final(self).keeps_unwinders(*old(self)),
            mapping_result(result) == old(self)@.mmap2_result(e@),
            is_memory(e.path@) && e.file_id is InodeAndVersion ==> result == Ok::<
                Option<Mapping>,
                MmapError,
            >(None) && final(self)@ == old(self)@,
    {
        if e.protection & PROT_EXEC == 0 {
            return Ok(None);
        }
        let build_id: Option<Vec<u8>> = match &e.file_id {
            Mmap2FileId::BuildId(build_id) => Some(copy_bytes(build_id)),
            Mmap2FileId::InodeAndVersion => {
                let key: DsoKey = match DsoKey::detect(e.path.as_slice(), e.cpu_mode) {
                    Some(key) => key,
                    None => return Ok(None),
                };
                match self.build_ids.get(&key) {
                    Some(info) => Some(copy_bytes(&info.build_id)),
                    None => None,
                }
            },
        };
        assert(optional_data(build_id) == self@.mmap2_build_id(e@));
        self.enter_process(e.pid);
        match utf8_text(e.path.as_slice()) {
            Some(path) => Ok(
                Some(
                    Mapping {
                        path,
                        page_offset: e.page_offset,
                        address: e.address,
                        length: e.length,
                        build_id,
                    },
                ),
            ),
            None => Err(MmapError::PathIsNotUtf8),
        }
    }

    /// Tells the profile of a module that was loaded into a process, and gives what the
    /// unwinder of the process is to be told.
    pub fn add_module(&mut self, pid: i32, module: Module) -> (unwind: Option<UnwindModule>)
        requires
            old(self).wf(),
            module@.library matches Some(library) ==> library.valid(),
        ensures
            final(self).wf(),
            final(self)@ == old(self)@.after_load(pid, Ok(module@)),
            final(self).keeps_unwinders(*old(self)),
            unwind_view(unwind) == module@.unwind,
    {
        let process_handle: ProcessHandle = self.enter_process(pid);
        let ghost entered = *self;
        if let Some(library) = module.library {
            self.mappings.add_library(process_handle, &library);
            add_lib(&mut self.profile, process_handle, library);
            proof {
                lemma_after_load_valid(old(self)@, pid, Ok(module@));
                let p = process_index(process_handle) as int;
                assert(mappings_of(self@.profile) =~= mappings_of(entered@.profile).update(
                    p,
                    mappings_of(entered@.profile)[p].insert(library.avma_start, library@.mapped()),
                ));
            }
        }
        module.unwind
    }

    /// Loads a mapping into a process, given the bytes of the mapped file where it can be
    /// read. Gives what the unwinder of the process is to be told.
    pub fn load_module(&mut self, pid: i32, mapping: &Mapping, file: Option<&[u8]>) -> (result:
        Result<Option<UnwindModule>, ModuleError>)
        requires
            old(self).wf(),
        ensures
            final(self).wf(),
            final(self)@ == old(self)@.after_load(pid, mapping@.module(optional_bytes(file))),
            final(self).keeps_unwinders(*old(self)),
            match mapping@.module(optional_bytes(file)) {
                Ok(module) => result matches Ok(unwind) && unwind_view(unwind) == module.unwind,
                Err(error) => result matches Err(e) && e@ == error,
            },
    {
        match make_module(mapping, file) {
            Ok(module) => Ok(self.add_module(pid, module)),
            Err(error) => {
                self.enter_process(pid);
                Err(error)
            },
        }
    }

    /// Gets what unwinds the stacks of a process, which becomes known if it was not.
    pub fn get_unwinder(&mut self, pid: i32) -> (unwinder: &mut U)
        requires
            old(self).wf(),
        ensures
            final(self).wf(),
            final(self)@ == old(self)@.with_process(pid),
            old(self)@.processes.contains_key(pid) ==> *unwinder == old(self).unwinder(pid),
            !old(self)@.processes.contains_key(pid) ==> call_ensures(U::default, (), *unwinder),
            final(self).unwinder(pid) == *final(unwinder),
            forall|p: i32| #[trigger]
                old(self)@.processes.contains_key(p) && p != pid ==> final(self).unwinder(p)
                    == old(self).unwinder(p),
    {
        self.enter_process(pid);
        let ghost entered = *self;
        proof {
            lemma_valid(self@);
            lemma_with_process_valid(old(self)@, pid);
            assert forall|p: i32| #[trigger] old(self)@.processes.contains_key(p) implies
                self.unwinder(p) == old(self).unwinder(p) by {
                assert(self@.processes.contains_key(p));
            }
            assert forall|i: int| 0 <= i < self.kernel_modules@.len() implies (
            #[trigger] self.kernel_modules@[i])@.valid() by {
                assert(self@.kernel_modules[i].valid());
            }
        }
        let process: &mut Process<U> = self.processes.get_by_pid(
            pid,
            &mut self.profile,
            self.kernel_modules.as_slice(),
        );
        let ghost handle = process.profile_process;
        let unwinder: &mut U = &mut process.unwinder;
        proof {
            let given_back = Process { profile_process: handle, unwinder: *final(unwinder) };
            lemma_process_entered(entered.processes@, pid, given_back);
            assert(process_indexes(entered.processes@.insert(pid, given_back)) =~= process_indexes(
                entered.processes@,
            ));
        }
        unwinder
    }

    /// Takes the start of a thread.
    pub fn handle_thread_start(&mut self, e: ForkOrExitRecord)
        requires
            old(self).wf(),
        ensures
            final(self).wf(),
            final(self)@ == old(self)@.after_thread_start(e),
            final(self).keeps_unwinders(*old(self)),
    {
        let is_main: bool = e.pid == e.tid;
        let start_time: u64 = self.convert_time(e.timestamp);
        let process_handle: ProcessHandle = self.enter_process(e.pid);
        let ghost entered = *self;
        if is_main {
            set_process_start_time(&mut self.profile, process_handle, start_time);
        }
        let thread: &mut Thread = self.threads.get_by_tid(
            e.tid,
            process_handle,
            is_main,
            &mut self.profile,
        );
        let thread_handle: ThreadHandle = thread.profile_thread;
        proof {
            lemma_with_thread_of_valid(old(self)@, e.pid, e.tid);
            lemma_valid(old(self)@.with_thread_of(e.pid, e.tid));
            assert(thread@ == old(self)@.with_thread_of(e.pid, e.tid).threads[e.tid]);
        }
        set_thread_start_time(&mut self.profile, thread_handle, start_time);
        proof {
            lemma_after_thread_start_valid(old(self)@, e);
            lemma_thread_entered(entered.threads@, e.tid, self.threads@[e.tid]);
            assert(self@ =~= old(self)@.after_thread_start(e));
            assert(mappings_of(self@.profile) =~= mappings_of(entered@.profile));
        }
    }

    /// Takes the end of a thread.
    pub fn handle_thread_end(&mut self, e: ForkOrExitRecord)
        requires
            old(self).wf(),
        ensures
            final(self).wf(),
            final(self)@ == old(self)@.after_thread_end(e),
            final(self).keeps_unwinders(*old(self)),
    {
        let is_main: bool = e.pid == e.tid;
        let end_time: u64 = self.convert_time(e.timestamp);
        let process_handle: ProcessHandle = self.enter_process(e.pid);
        let ghost entered = *self;
        let thread: &mut Thread = self.threads.get_by_tid(
            e.tid,
            process_handle,
            is_main,
            &mut self.profile,
        );
        let thread_handle: ThreadHandle = thread.profile_thread;
        proof {
            lemma_with_thread_of_valid(old(self)@, e.pid, e.tid);
            lemma_valid(old(self)@.with_thread_of(e.pid, e.tid));
            assert(thread@ == old(self)@.with_thread_of(e.pid, e.tid).threads[e.tid]);
        }
        set_thread_end_time(&mut self.profile, thread_handle, end_time);
        let ghost known = self.threads@;
        self.threads.0.remove(&e.tid);
        if is_main {
            set_process_end_time(&mut self.profile, process_handle, end_time);
            self.processes.0.remove(&e.pid);
        }
        proof {
            lemma_after_thread_end_valid(old(self)@, e);
            lemma_thread_entered(entered.threads@, e.tid, known[e.tid]);
            lemma_thread_removed(known, e.tid);
            lemma_process_removed(entered.processes@, e.pid);
            assert(self@ =~= old(self)@.after_thread_end(e));
            assert(mappings_of(self@.profile) =~= mappings_of(entered@.profile));
        }
    }

    /// Ends the thread whose program is replaced, and its process where it is the main one.
    fn end_replaced(&mut self, pid: i32, tid: i32, time: u64)
        requires
            old(self).wf(),
        ensures
            final(self).wf(),
            final(self)@ == old(self)@.after_replacement(pid, tid, time),
            final(self).keeps_unwinders(*old(self)),
    {
        proof {
            lemma_valid(self@);
            lemma_after_replacement_valid(self@, pid, tid, time);
            lemma_thread_removed(self.threads@, tid);
            lemma_process_removed(self.processes@, pid);
        }
        if let Some(thread) = self.threads.0.get(&tid) {
            let thread_handle: ThreadHandle = thread.profile_thread;
            assert(old(self)@.threads.contains_key(tid));
            set_thread_end_time(&mut self.profile, thread_handle, time);
            self.threads.0.remove(&tid);
        }
        if pid == tid {
            if let Some(process) = self.processes.0.get(&pid) {
                let process_handle: ProcessHandle = process.profile_process;
                assert(old(self)@.processes.contains_key(pid));
                set_process_end_time(&mut self.profile, process_handle, time);
                self.processes.0.remove(&pid);
            }
        }
        proof {
            assert(self@ =~= old(self)@.after_replacement(pid, tid, time));
            assert(mappings_of(self@.profile) =~= mappings_of(old(self)@.profile));
        }
    }

    /// Makes the product name for the name of a thread.
    fn make_product_name(&self, name: &str) -> (product: String)
        ensures
            product@ == self@.product_name(name@),
    {
        let mut product: String = name.to_owned();
        product.append(" on ");
        product.append(self.host.as_str());
        product.append(" (perf version ");
        product.append(self.perf_version.as_str());
        product.append(")");
        product
    }

    /// Takes a new name of a thread. `timestamp` is that of the record, where it has one.
    pub fn handle_thread_name_update(&mut self, e: &CommOrExecRecord, timestamp: Option<u64>)
        requires
            old(self).wf(),
        ensures
            final(self).wf(),
            final(self)@ == old(self)@.after_thread_name_update(e@, timestamp),
            final(self).keeps_unwinders(*old(self)),
    {
        let is_main: bool = e.pid == e.tid;
        let ghost before = old(self)@.before_name(e@, timestamp);
        if e.is_execve {
            // Without a timestamp in the record, take that of the last sample.
            let replaced: u64 = match timestamp {
                Some(0) | None => self.current_sample_time,
                Some(timestamp) => timestamp,
            };
            let time: u64 = self.convert_time(replaced);
            self.end_replaced(e.pid, e.tid, time);
        }
        assert(self@ == before);
        let ghost replaced = *self;
        let process_handle: ProcessHandle = self.enter_process(e.pid);
        let ghost entered = *self;
        let name: String = make_lossy_text(e.name.as_slice());
        let thread: &mut Thread = self.threads.get_by_tid(
            e.tid,
            process_handle,
            is_main,
            &mut self.profile,
        );
        let thread_handle: ThreadHandle = thread.profile_thread;
        proof {
            lemma_with_thread_of_valid(before, e.pid, e.tid);
            lemma_valid(before.with_thread_of(e.pid, e.tid));
            assert(thread@ == before.with_thread_of(e.pid, e.tid).threads[e.tid]);
        }

        set_thread_name(&mut self.profile, thread_handle, name.as_str());
        if is_main {
            set_process_name(&mut self.profile, process_handle, name.as_str());
        }
        if e.is_execve {
            // The new thread, and with it the process, starts here.
            let time: u64 = self.convert_time(self.current_sample_time);
            set_thread_start_time(&mut self.profile, thread_handle, time);
            if is_main {
                set_process_start_time(&mut self.profile, process_handle, time);
            }
        }
        if !self.have_product_name && !same_text(name.as_str(), "perf-exec") {
            let product: String = self.make_product_name(name.as_str());
            set_product(&mut self.profile, product.as_str());
            self.have_product_name = true;
        }
        proof {
            lemma_after_thread_name_update_valid(old(self)@, e@, timestamp);
            lemma_thread_entered(entered.threads@, e.tid, self.threads@[e.tid]);
            assert(self@ =~= old(self)@.after_thread_name_update(e@, timestamp));
            assert(mappings_of(self@.profile) =~= mappings_of(entered@.profile));
            lemma_valid(old(self)@);
        }
    }
}

} // verus!
