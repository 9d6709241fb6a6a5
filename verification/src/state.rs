//! The state of a conversion, and what each record does to it.

use vstd::prelude::*;
use vstd::utf8::{decode_utf8, valid_utf8};
use fxprof_processed_profile::ReferenceTimestamp;
use crate::ids::{
    dso_key, lemma_hex_digits, optional_code_id, optional_guid, DsoBuildIdView, DsoKeyView,
};
use crate::module::{MappingView, ModuleErrorView, ModuleView};
use crate::profile::{
    mapped_libraries, resolvable, CategoryColor, CategoryView, GivenSample, LibraryInfo,
    LibraryView, ProcessView, ProfileView, ThreadView,
};
use crate::records::{
    CommOrExecRecordView, ContextSwitchRecord, ForkOrExitRecord, Mmap2RecordView, MmapRecordView,
    SampleRecordView,
};
use crate::stack::{profile_frames, profile_user_frames, StackFrame, UnwoundStack};
use crate::tables::{library_infos, LiveThread, ThreadState};
use crate::text::{begins_with, lossy_text, placeholder_name};

verus! {

/// The protection bit of mappings that hold code.
pub const PROT_EXEC: u32 = 0b100;

/// The state of a conversion: what the profile holds, and what has to be remembered
/// of the records so far. Processes and threads are referred to by their numbers in the
/// profile.
#[verifier::ext_equal]
pub struct ConverterView {
    pub profile: ProfileView,
    /// The processes that are alive, by process number.
    pub processes: Map<i32, nat>,
    /// The threads that are alive, by thread number.
    pub threads: Map<i32, LiveThread>,
    /// The pieces of the kernel that were mapped.
    pub kernel_modules: Seq<LibraryView>,
    /// The categories of user frames and of kernel frames.
    pub user_category: nat,
    pub kernel_category: nat,
    pub first_sample_time: u64,
    pub current_sample_time: u64,
    pub build_ids: Map<DsoKeyView, DsoBuildIdView>,
    pub little_endian: bool,
    pub have_product_name: bool,
    pub host: Seq<char>,
    pub perf_version: Seq<char>,
    pub linux_version: Option<Seq<char>>,
    pub sampling_is_time_based: Option<u64>,
    pub have_time_based_cpu_deltas: bool,
}

/// Why a sample or a context switch cannot be converted.
#[derive(Debug, Clone, Copy, PartialEq, Eq, Structural)]
pub enum EventError {
    MissingPid,
    MissingTid,
    MissingTimestamp,
    /// It is earlier than something that is known of its thread.
    TimeRunsBackwards,
    /// Samples are taken after zero nanoseconds.
    ZeroInterval,
    /// A frame lies below the base address of the library in whose mapping it is.
    FrameBelowBase,
}

/// Why a mapping cannot be converted.
#[derive(Debug, Clone, Copy, PartialEq, Eq, Structural)]
pub enum MmapError {
    /// The path is not valid UTF-8.
    PathIsNotUtf8,
    /// The mapping ends beyond what 64 bits can address.
    AddressOverflow,
}

/// The weight of the sample for a time that a thread was not running: how many samples would
/// have been taken. Where that is not known, or too many, it is zero.
pub open spec fn off_cpu_weight(sampling_is_time_based: Option<u64>, off_duration: int) -> i32 {
    match sampling_is_time_based {
        Some(interval) => if off_duration / (interval as int) <= i32::MAX {
            (off_duration / (interval as int)) as i32
        } else {
            0
        },
        None => 0,
    }
}

impl LiveThread {
    /// The stack with which the thread was last switched out, or no frames where that is
    /// not known.
    pub open spec fn switch_stack(self) -> Seq<StackFrame> {
        match self.off_cpu_stack {
            Some(stack) => stack,
            None => Seq::empty(),
        }
    }
}

/// What is settled before the first record is taken.
#[verifier::ext_equal]
pub struct Settings {
    pub product: Seq<char>,
    pub reference: ReferenceTimestamp,
    pub build_ids: Map<DsoKeyView, DsoBuildIdView>,
    pub first_sample_time: u64,
    pub host: Seq<char>,
    pub perf_version: Seq<char>,
    pub linux_version: Option<Seq<char>>,
    pub little_endian: bool,
    pub sampling_is_time_based: Option<u64>,
    pub have_time_based_cpu_deltas: bool,
}

impl ConverterView {
    /// The state before the first record: the profile has its settings and the categories for
    /// user frames and kernel frames, and nothing is remembered.
    pub open spec fn initial(settings: Settings) -> ConverterView {
        ConverterView {
            profile: ProfileView {
                product: settings.product,
                reference: settings.reference,
                interval_nanos: match settings.sampling_is_time_based {
                    Some(nanos) => nanos,
                    None => 1_000_000,
                },
                categories: seq![
                    CategoryView { name: "Other"@, color: CategoryColor::Grey },
                    CategoryView { name: "User"@, color: CategoryColor::Yellow },
                    CategoryView { name: "Kernel"@, color: CategoryColor::Orange },
                ],
                processes: Seq::empty(),
                threads: Seq::empty(),
            },
            processes: Map::empty(),
            threads: Map::empty(),
            kernel_modules: Seq::empty(),
            user_category: 1,
            kernel_category: 2,
            first_sample_time: settings.first_sample_time,
            current_sample_time: settings.first_sample_time,
            build_ids: settings.build_ids,
            little_endian: settings.little_endian,
            have_product_name: false,
            host: settings.host,
            perf_version: settings.perf_version,
            linux_version: settings.linux_version,
            sampling_is_time_based: settings.sampling_is_time_based,
            have_time_based_cpu_deltas: settings.have_time_based_cpu_deltas,
        }
    }

    /// Whether what is remembered fits the profile: living processes and threads are in it,
    /// threads know their processes, no two of them are the same, and the code IDs of kernel
    /// modules are code IDs.
    #[verifier::opaque]
    pub open spec fn valid(self) -> bool {
        &&& self.profile.valid()
        &&& forall|pid: i32| #[trigger]
            self.processes.contains_key(pid) ==> self.processes[pid] < self.profile.processes.len()
        &&& forall|tid: i32| #[trigger]
            self.threads.contains_key(tid) ==> self.threads[tid].index < self.profile.threads.len()
                && self.threads[tid].process
                == self.profile.threads[self.threads[tid].index as int].process
        &&& forall|a: i32, b: i32|
            #![trigger self.processes[a], self.processes[b]]
            self.processes.contains_key(a) && self.processes.contains_key(b) && a != b
                ==> self.processes[a] != self.processes[b]
        &&& forall|a: i32, b: i32|
            #![trigger self.threads[a], self.threads[b]]
            self.threads.contains_key(a) && self.threads.contains_key(b) && a != b
                ==> self.threads[a].index != self.threads[b].index
        &&& forall|i: int|
            0 <= i < self.kernel_modules.len() ==> (#[trigger] self.kernel_modules[i]).valid()
    }

    /// A moment in the time of the profile, which starts at the first sample. What came
    /// before counts as the start.
    pub open spec fn time(self, timestamp: u64) -> u64 {
        if timestamp >= self.first_sample_time {
            (timestamp - self.first_sample_time) as u64
        } else {
            0
        }
    }

    /// The state once a process is known: one that is not is added to the profile, with a
    /// placeholder for its name and with the kernel's modules.
    pub open spec fn with_process(self, pid: i32) -> ConverterView {
        if self.processes.contains_key(pid) {
            self
        } else {
            ConverterView {
                profile: ProfileView {
                    processes: self.profile.processes.push(
                        ProcessView {
                            pid: pid as u32,
                            name: placeholder_name(pid),
                            start_time: 0,
                            end_time: None,
                            libs: library_infos(self.kernel_modules),
                            mappings: mapped_libraries(self.kernel_modules),
                        },
                    ),
                    ..self.profile
                },
                processes: self.processes.insert(pid, self.profile.processes.len()),
                ..self
            }
        }
    }

    /// The state once a thread is known: one that is not is added to the profile, with no
    /// name and no samples.
    pub open spec fn with_thread(self, tid: i32, process: nat, is_main: bool) -> ConverterView {
        if self.threads.contains_key(tid) {
            self
        } else {
            ConverterView {
                profile: ProfileView {
                    threads: self.profile.threads.push(
                        ThreadView {
                            process,
                            tid: tid as u32,
                            name: None,
                            start_time: 0,
                            end_time: None,
                            is_main,
                            samples: Seq::empty(),
                        },
                    ),
                    ..self.profile
                },
                threads: self.threads.insert(
                    tid,
                    LiveThread {
                        index: self.profile.threads.len(),
                        process,
                        last_sample_timestamp: None,
                        state: ThreadState::Unknown,
                        off_cpu_stack: None,
                    },
                ),
                ..self
            }
        }
    }

    /// The state once a process and one of its threads are known. The main thread has the
    /// number of the process.
    pub open spec fn with_thread_of(self, pid: i32, tid: i32) -> ConverterView {
        let known = self.with_process(pid);
        known.with_thread(tid, known.processes[pid], pid == tid)
    }

    /// The state with something else remembered of a thread.
    pub open spec fn remember(self, tid: i32, thread: LiveThread) -> ConverterView {
        ConverterView { threads: self.threads.insert(tid, thread), ..self }
    }

    /// The state with a sample added to a thread of the profile.
    pub open spec fn with_sample(self, thread: nat, sample: GivenSample) -> ConverterView {
        ConverterView { profile: self.profile.with_sample(thread, sample), ..self }
    }

    /// The state with another start time for a thread of the profile.
    pub open spec fn with_thread_start(self, thread: nat, time: u64) -> ConverterView {
        let old = self.profile.threads[thread as int];
        ConverterView {
            profile: self.profile.with_thread(thread, ThreadView { start_time: time, ..old }),
            ..self
        }
    }

    /// The state with an end time for a thread of the profile.
    pub open spec fn with_thread_end(self, thread: nat, time: u64) -> ConverterView {
        let old = self.profile.threads[thread as int];
        ConverterView {
            profile: self.profile.with_thread(thread, ThreadView { end_time: Some(time), ..old }),
            ..self
        }
    }

    /// The state with a name for a thread of the profile.
    pub open spec fn with_thread_name(self, thread: nat, name: Seq<char>) -> ConverterView {
        let old = self.profile.threads[thread as int];
        ConverterView {
            profile: self.profile.with_thread(thread, ThreadView { name: Some(name), ..old }),
            ..self
        }
    }

    /// The state with another start time for a process of the profile.
    pub open spec fn with_process_start(self, process: nat, time: u64) -> ConverterView {
        let old = self.profile.processes[process as int];
        ConverterView {
            profile: self.profile.with_process(process, ProcessView { start_time: time, ..old }),
            ..self
        }
    }

    /// The state with an end time for a process of the profile.
    pub open spec fn with_process_end(self, process: nat, time: u64) -> ConverterView {
        let old = self.profile.processes[process as int];
        ConverterView {
            profile: self.profile.with_process(
                process,
                ProcessView { end_time: Some(time), ..old },
            ),
            ..self
        }
    }

    /// The state with another name for a process of the profile.
    pub open spec fn with_process_name(self, process: nat, name: Seq<char>) -> ConverterView {
        let old = self.profile.processes[process as int];
        ConverterView {
            profile: self.profile.with_process(process, ProcessView { name, ..old }),
            ..self
        }
    }

    /// The state with a library added to a process of the profile.
    pub open spec fn with_library(self, process: nat, library: LibraryView) -> ConverterView {
        let old = self.profile.processes[process as int];
        ConverterView {
            profile: self.profile.with_process(process, old.with_library(library)),
            ..self
        }
    }

    /// The sample that is added for a thread when it is switched: the user frames of the
    /// stack with which it was last switched out.
    pub open spec fn switch_sample(
        self,
        thread: LiveThread,
        timestamp: u64,
        cpu_delta_nanos: u64,
        weight: i32,
    ) -> GivenSample {
        GivenSample {
            timestamp: self.time(timestamp),
            frames: profile_user_frames(thread.switch_stack(), self.user_category),
            cpu_delta_micros: cpu_delta_nanos / 1000u64,
            weight,
        }
    }

    /// The CPU time since something was last known of a thread, as a sample finds it.
    pub open spec fn cpu_delta_nanos(self, thread: LiveThread, e: SampleRecordView) -> u64 {
        if self.have_time_based_cpu_deltas {
            match thread.state {
                ThreadState::On { last_observed_on_timestamp } => (e.timestamp->0
                    - last_observed_on_timestamp) as u64,
                _ => 0,
            }
        } else {
            match e.period {
                Some(period) => period,
                None => 0,
            }
        }
    }

    /// What is wrong with the times of an event of a thread, given that threads are known to
    /// be running or not.
    pub open spec fn time_error(self, state: ThreadState, timestamp: u64) -> Option<EventError> {
        match state {
            ThreadState::Unknown => None,
            ThreadState::Off { off_switch_timestamp } => if timestamp < off_switch_timestamp {
                Some(EventError::TimeRunsBackwards)
            } else if self.sampling_is_time_based == Some(0u64) {
                Some(EventError::ZeroInterval)
            } else {
                None
            },
            ThreadState::On { last_observed_on_timestamp } => if timestamp
                < last_observed_on_timestamp {
                Some(EventError::TimeRunsBackwards)
            } else {
                None
            },
        }
    }

    /// Whether no frame of the sample that is added for a thread when it is switched lies
    /// below the base address of the library in whose mapping it is.
    pub open spec fn switch_resolvable(self, thread: LiveThread) -> bool {
        resolvable(
            profile_user_frames(thread.switch_stack(), self.user_category),
            self.profile.mappings_of_thread(thread.index),
        )
    }

    /// Why a sample cannot be converted, where that is so.
    pub open spec fn sample_error(
        self,
        e: SampleRecordView,
        unwound: Option<UnwoundStack>,
    ) -> Option<EventError> {
        if e.pid is None {
            Some(EventError::MissingPid)
        } else if e.tid is None {
            Some(EventError::MissingTid)
        } else if e.timestamp is None {
            Some(EventError::MissingTimestamp)
        } else {
            let known = self.with_thread_of(e.pid->0, e.tid->0);
            let thread = known.threads[e.tid->0];
            let frames = profile_frames(e.stack(unwound), self.user_category, self.kernel_category);
            if self.have_time_based_cpu_deltas && self.time_error(
                thread.state,
                e.timestamp->0,
            ) is Some {
                self.time_error(thread.state, e.timestamp->0)
            } else if self.have_time_based_cpu_deltas && thread.state is Off
                && !known.switch_resolvable(thread) {
                Some(EventError::FrameBelowBase)
            } else if !resolvable(frames, known.profile.mappings_of_thread(thread.index)) {
                Some(EventError::FrameBelowBase)
            } else {
                None
            }
        }
    }

    /// The state after a sample. A sample of a thread that is taken to be switched out first
    /// accounts for the time that the thread was not running.
    pub open spec fn after_sample(
        self,
        e: SampleRecordView,
        unwound: Option<UnwoundStack>,
    ) -> ConverterView {
        let tid = e.tid->0;
        let timestamp = e.timestamp->0;
        let known = ConverterView { current_sample_time: timestamp, ..self }.with_thread_of(
            e.pid->0,
            tid,
        );
        let thread = known.threads[tid];
        let accounted = match thread.state {
            ThreadState::Off { off_switch_timestamp } if self.have_time_based_cpu_deltas =>
                known.with_sample(
                thread.index,
                self.switch_sample(
                    thread,
                    timestamp,
                    0,
                    off_cpu_weight(
                        self.sampling_is_time_based,
                        timestamp - off_switch_timestamp,
                    ),
                ),
            ),
            _ => known,
        };
        accounted.with_sample(
            thread.index,
            GivenSample {
                timestamp: self.time(timestamp),
                frames: profile_frames(e.stack(unwound), self.user_category, self.kernel_category),
                cpu_delta_micros: self.cpu_delta_nanos(thread, e) / 1000u64,
                weight: 1,
            },
        ).remember(
            tid,
            LiveThread {
                last_sample_timestamp: Some(timestamp),
                state: if self.have_time_based_cpu_deltas {
                    ThreadState::On { last_observed_on_timestamp: timestamp }
                } else {
                    thread.state
                },
                ..thread
            },
        )
    }

    /// The state after a sample that shows the stack with which a thread is switched out.
    pub open spec fn after_sched_switch(
        self,
        e: SampleRecordView,
        unwound: Option<UnwoundStack>,
    ) -> ConverterView {
        let known = self.with_thread_of(e.pid->0, e.tid->0);
        known.remember(
            e.tid->0,
            LiveThread {
                off_cpu_stack: Some(e.stack(unwound)),
                ..known.threads[e.tid->0]
            },
        )
    }

    /// Why a context switch cannot be converted, where that is so. Switches that change
    /// nothing can always be converted.
    pub open spec fn switch_error(
        self,
        e: ContextSwitchRecord,
        pid: Option<i32>,
        tid: Option<i32>,
        timestamp: Option<u64>,
    ) -> Option<EventError> {
        if pid is None {
            Some(EventError::MissingPid)
        } else if tid is None {
            Some(EventError::MissingTid)
        } else if timestamp is None {
            Some(EventError::MissingTimestamp)
        } else {
            let known = self.with_thread_of(pid->0, tid->0);
            let thread = known.threads[tid->0];
            if (thread.state is Off && e == ContextSwitchRecord::In) || (thread.state is On && e
                == ContextSwitchRecord::Out) {
                if self.time_error(thread.state, timestamp->0) is Some {
                    self.time_error(thread.state, timestamp->0)
                } else if !known.switch_resolvable(thread) {
                    Some(EventError::FrameBelowBase)
                } else {
                    None
                }
            } else {
                None
            }
        }
    }

    /// The state after a thread was switched in or out. A thread that was running when it
    /// is switched out is accounted for the time that it was; one that was not when it is
    /// switched in, for the time that it was not.
    pub open spec fn after_context_switch(
        self,
        e: ContextSwitchRecord,
        pid: i32,
        tid: i32,
        timestamp: u64,
    ) -> ConverterView {
        let known = self.with_thread_of(pid, tid);
        let thread = known.threads[tid];
        match (thread.state, e) {
            (ThreadState::Unknown, ContextSwitchRecord::In) => known.remember(
                tid,
                LiveThread {
                    state: ThreadState::On { last_observed_on_timestamp: timestamp },
                    ..thread
                },
            ),
            (ThreadState::Unknown, ContextSwitchRecord::Out) => known.remember(
                tid,
                LiveThread {
                    state: ThreadState::Off { off_switch_timestamp: timestamp },
                    ..thread
                },
            ),
            (
                ThreadState::Off { off_switch_timestamp },
                ContextSwitchRecord::In,
            ) => known.with_sample(
                thread.index,
                self.switch_sample(
                    thread,
                    timestamp,
                    0,
                    off_cpu_weight(
                        self.sampling_is_time_based,
                        timestamp - off_switch_timestamp,
                    ),
                ),
            ).remember(
                tid,
                LiveThread {
                    last_sample_timestamp: Some(timestamp),
                    state: ThreadState::On { last_observed_on_timestamp: timestamp },
                    ..thread
                },
            ),
            (
                ThreadState::On { last_observed_on_timestamp },
                ContextSwitchRecord::Out,
            ) => known.with_sample(
                thread.index,
                self.switch_sample(
                    thread,
                    timestamp,
                    (timestamp - last_observed_on_timestamp) as u64,
                    0,
                ),
            ).remember(
                tid,
                LiveThread {
                    last_sample_timestamp: Some(timestamp),
                    state: ThreadState::Off { off_switch_timestamp: timestamp },
                    ..thread
                },
            ),
            (ThreadState::On { .. }, ContextSwitchRecord::In) => known,
            (ThreadState::Off { .. }, ContextSwitchRecord::Out) => known,
        }
    }

    /// When a thread was switched out that is now switched out again, where that is so.
    pub open spec fn double_switch_out(
        self,
        e: ContextSwitchRecord,
        pid: i32,
        tid: i32,
    ) -> Option<u64> {
        match self.with_thread_of(pid, tid).threads[tid].state {
            ThreadState::Off { off_switch_timestamp } if e == ContextSwitchRecord::Out => Some(
                off_switch_timestamp,
            ),
            _ => None,
        }
    }

    /// The state after a thread was started.
    pub open spec fn after_thread_start(self, e: ForkOrExitRecord) -> ConverterView {
        let known = self.with_thread_of(e.pid, e.tid);
        let started = known.with_thread_start(known.threads[e.tid].index, self.time(e.timestamp));
        if e.pid == e.tid {
            started.with_process_start(known.processes[e.pid], self.time(e.timestamp))
        } else {
            started
        }
    }

    /// The state after a thread ended. The process ends with its main thread.
    pub open spec fn after_thread_end(self, e: ForkOrExitRecord) -> ConverterView {
        let known = self.with_thread_of(e.pid, e.tid);
        let ended = known.with_thread_end(known.threads[e.tid].index, self.time(e.timestamp));
        let gone = ConverterView { threads: ended.threads.remove(e.tid), ..ended };
        if e.pid == e.tid {
            let all = gone.with_process_end(known.processes[e.pid], self.time(e.timestamp));
            ConverterView { processes: all.processes.remove(e.pid), ..all }
        } else {
            gone
        }
    }

    /// The state after what ran in a thread was replaced: the thread and, where it is the
    /// main one, its process have ended.
    pub open spec fn after_replacement(self, pid: i32, tid: i32, time: u64) -> ConverterView {
        let gone = if self.threads.contains_key(tid) {
            let ended = self.with_thread_end(self.threads[tid].index, time);
            ConverterView { threads: ended.threads.remove(tid), ..ended }
        } else {
            self
        };
        if pid == tid && gone.processes.contains_key(pid) {
            let all = gone.with_process_end(gone.processes[pid], time);
            ConverterView { processes: all.processes.remove(pid), ..all }
        } else {
            gone
        }
    }

    /// The product name for the name of a thread.
    pub open spec fn product_name(self, name: Seq<char>) -> Seq<char> {
        name + " on "@ + self.host + " (perf version "@ + self.perf_version + ")"@
    }

    /// The state with a product name, which is made from the first name of a thread, unless
    /// it is that which a program bears before it is executed.
    pub open spec fn with_product_name(self, name: Seq<char>) -> ConverterView {
        if !self.have_product_name && name != "perf-exec"@ {
            ConverterView {
                profile: ProfileView { product: self.product_name(name), ..self.profile },
                have_product_name: true,
                ..self
            }
        } else {
            self
        }
    }

    /// When what ran in a thread was replaced: where the record does not say, at the last
    /// sample.
    pub open spec fn replacement_timestamp(self, timestamp: Option<u64>) -> u64 {
        match timestamp {
            Some(timestamp) if timestamp != 0 => timestamp,
            _ => self.current_sample_time,
        }
    }

    /// The state in which a thread gets a name: where that is because another program is
    /// executed, what ran in the thread has ended.
    pub open spec fn before_name(self, e: CommOrExecRecordView, timestamp: Option<u64>) ->
        ConverterView {
        if e.is_execve {
            self.after_replacement(
                e.pid,
                e.tid,
                self.time(self.replacement_timestamp(timestamp)),
            )
        } else {
            self
        }
    }

    /// The state after a thread got a name. Where that is because another program is
    /// executed, a new thread starts in place of the old one.
    pub open spec fn after_thread_name_update(
        self,
        e: CommOrExecRecordView,
        timestamp: Option<u64>,
    ) -> ConverterView {
        let name = lossy_text(e.name);
        let is_main = e.pid == e.tid;
        let known = self.before_name(e, timestamp).with_thread_of(e.pid, e.tid);
        let thread = known.threads[e.tid].index;
        let process = known.processes[e.pid];
        let thread_named = known.with_thread_name(thread, name);
        let named = if is_main {
            thread_named.with_process_name(process, name)
        } else {
            thread_named
        };
        let time = self.time(self.current_sample_time);
        let thread_started = if e.is_execve {
            named.with_thread_start(thread, time)
        } else {
            named
        };
        let started = if e.is_execve && is_main {
            thread_started.with_process_start(process, time)
        } else {
            thread_started
        };
        started.with_product_name(name)
    }

    /// What the recording says of the shared object with a key.
    pub open spec fn dso_info(self, key: DsoKeyView) -> Option<DsoBuildIdView> {
        if self.build_ids.contains_key(key) {
            Some(self.build_ids[key])
        } else {
            None
        }
    }

    /// The path of a mapping: that from the build ID table where there is one.
    pub open spec fn mmap_path(self, e: MmapRecordView, key: DsoKeyView) -> Seq<u8> {
        match self.dso_info(key) {
            Some(info) => info.path,
            None => e.path,
        }
    }

    /// The build ID of the shared object with a key, where it is known.
    pub open spec fn build_id(self, key: DsoKeyView) -> Option<Seq<u8>> {
        match self.dso_info(key) {
            Some(info) => Some(info.build_id),
            None => None,
        }
    }

    /// Where the debug information of a piece of the kernel is: for the kernel itself a
    /// guess at the file that a distribution installs.
    pub open spec fn kernel_debug_path(self, path: Seq<char>) -> Seq<char> {
        match self.linux_version {
            Some(version) if begins_with(path, "[kernel.kallsyms]"@) =>
                "/usr/lib/debug/boot/vmlinux-"@ + version,
            _ => path,
        }
    }

    /// The library for a piece of the kernel.
    pub open spec fn kernel_module(self, e: MmapRecordView, key: DsoKeyView) -> LibraryView {
        let path = decode_utf8(self.mmap_path(e, key));
        LibraryView {
            base_avma: e.address,
            avma_start: e.address,
            avma_end: (e.address + e.length) as u64,
            info: LibraryInfo {
                name: key.name(),
                debug_name: key.name(),
                path,
                debug_path: self.kernel_debug_path(path),
                guid: optional_guid(self.build_id(key), self.little_endian),
                age: 0,
                code_id: optional_code_id(self.build_id(key)),
            },
        }
    }

    /// What is to be loaded for a mapping of a shared object, or why that cannot be said.
    /// Mappings without code, and those of no shared object, load nothing; nor do those of
    /// the kernel, which are remembered.
    pub open spec fn mmap_result(self, e: MmapRecordView) -> Result<
        Option<MappingView>,
        MmapError,
    > {
        match dso_key(e.path, e.cpu_mode.bits()) {
            Some(key) if e.is_executable => {
                let path = self.mmap_path(e, key);
                if !valid_utf8(path) {
                    Err(MmapError::PathIsNotUtf8)
                } else if e.pid != -1 {
                    Ok(
                        Some(
                            MappingView {
                                path: decode_utf8(path),
                                page_offset: e.page_offset,
                                address: e.address,
                                length: e.length,
                                build_id: self.build_id(key),
                            },
                        ),
                    )
                } else if e.address + e.length > u64::MAX {
                    Err(MmapError::AddressOverflow)
                } else {
                    Ok(None)
                }
            },
            _ => Ok(None),
        }
    }

    /// The state after a mapping, before what it loads is loaded.
    pub open spec fn after_mmap(self, e: MmapRecordView) -> ConverterView {
        match dso_key(e.path, e.cpu_mode.bits()) {
            Some(key) if e.is_executable => if e.pid != -1 {
                self.with_process(e.pid)
            } else if self.mmap_result(e) is Ok {
                ConverterView {
                    kernel_modules: self.kernel_modules.push(self.kernel_module(e, key)),
                    ..self
                }
            } else {
                self
            },
            _ => self,
        }
    }

    /// The build ID that a mapping with protection bits should have: its own, or that in
    /// the build ID table.
    pub open spec fn mmap2_build_id(self, e: Mmap2RecordView) -> Option<Seq<u8>> {
        match e.build_id {
            Some(build_id) => Some(build_id),
            None => match dso_key(e.path, e.cpu_mode.bits()) {
                Some(key) => self.build_id(key),
                None => None,
            },
        }
    }

    /// Whether a mapping with protection bits is of something that can be loaded: it holds
    /// code, and it has a build ID or is of a shared object.
    pub open spec fn mmap2_loads(self, e: Mmap2RecordView) -> bool {
        &&& e.protection & PROT_EXEC != 0
        &&& e.build_id is Some || dso_key(e.path, e.cpu_mode.bits()) is Some
    }

    /// What is to be loaded for a mapping with protection bits, or why that cannot be said.
    pub open spec fn mmap2_result(self, e: Mmap2RecordView) -> Result<
        Option<MappingView>,
        MmapError,
    > {
        if !self.mmap2_loads(e) {
            Ok(None)
        } else if !valid_utf8(e.path) {
            Err(MmapError::PathIsNotUtf8)
        } else {
            Ok(
                Some(
                    MappingView {
                        path: decode_utf8(e.path),
                        page_offset: e.page_offset,
                        address: e.address,
                        length: e.length,
                        build_id: self.mmap2_build_id(e),
                    },
                ),
            )
        }
    }

    /// The state after a mapping with protection bits, before what it loads is loaded.
    pub open spec fn after_mmap2(self, e: Mmap2RecordView) -> ConverterView {
        if self.mmap2_loads(e) {
            self.with_process(e.pid)
        } else {
            self
        }
    }

    /// The state after a mapping was loaded into a process.
    pub open spec fn after_load(
        self,
        pid: i32,
        module: Result<ModuleView, ModuleErrorView>,
    ) -> ConverterView {
        let known = self.with_process(pid);
        match module {
            Ok(module) => match module.library {
                Some(library) => known.with_library(known.processes[pid], library),
                None => known,
            },
            Err(_) => known,
        }
    }
}

/// The living processes and threads of a valid state are in the profile.
pub proof fn lemma_valid(s: ConverterView)
    requires
        s.valid(),
    ensures
        s.profile.valid(),
        forall|pid: i32| #[trigger]
            s.processes.contains_key(pid) ==> s.processes[pid] < s.profile.processes.len(),
        forall|tid: i32| #[trigger]
            s.threads.contains_key(tid) ==> s.threads[tid].index < s.profile.threads.len()
                && s.threads[tid].process
                == s.profile.threads[s.threads[tid].index as int].process
                && s.threads[tid].process < s.profile.processes.len(),
        forall|i: int|
            0 <= i < s.kernel_modules.len() ==> (#[trigger] s.kernel_modules[i]).valid(),
{
    reveal(ConverterView::valid);
}

/// A state stays valid when a process becomes known.
pub proof fn lemma_with_process_valid(s: ConverterView, pid: i32)
    requires
        s.valid(),
    ensures
        s.with_process(pid).valid(),
        s.with_process(pid).processes.contains_key(pid),
{
    reveal(ConverterView::valid);
}

/// A state stays valid when a thread becomes known.
pub proof fn lemma_with_thread_valid(s: ConverterView, tid: i32, process: nat, is_main: bool)
    requires
        s.valid(),
        process < s.profile.processes.len(),
    ensures
        s.with_thread(tid, process, is_main).valid(),
        s.with_thread(tid, process, is_main).threads.contains_key(tid),
{
    reveal(ConverterView::valid);
}

/// A state stays valid when a process and one of its threads become known.
pub proof fn lemma_with_thread_of_valid(s: ConverterView, pid: i32, tid: i32)
    requires
        s.valid(),
    ensures
        s.with_thread_of(pid, tid).valid(),
        s.with_thread_of(pid, tid).processes.contains_key(pid),
        s.with_thread_of(pid, tid).threads.contains_key(tid),
{
    lemma_with_process_valid(s, pid);
    let known = s.with_process(pid);
    lemma_valid(known);
    lemma_with_thread_valid(known, tid, known.processes[pid], pid == tid);
}

/// A state stays valid when processes and threads of the profile change that stay where they
/// are, and less or something else is remembered of the living ones.
proof fn lemma_change_valid(s: ConverterView, t: ConverterView)
    requires
        s.valid(),
        t.profile.processes.len() == s.profile.processes.len(),
        t.profile.threads.len() == s.profile.threads.len(),
        forall|i: int|
            0 <= i < s.profile.threads.len() ==> #[trigger] t.profile.threads[i].process
                == s.profile.threads[i].process,
        t.kernel_modules == s.kernel_modules,
        forall|pid: i32| #[trigger]
            t.processes.contains_key(pid) ==> s.processes.contains_key(pid) && s.processes[pid]
                == t.processes[pid],
        forall|tid: i32| #[trigger]
            t.threads.contains_key(tid) ==> s.threads.contains_key(tid) && s.threads[tid].index
                == t.threads[tid].index && s.threads[tid].process == t.threads[tid].process,
    ensures
        t.valid(),
{
    reveal(ConverterView::valid);
    assert forall|a: i32, b: i32|
        #![trigger t.processes[a], t.processes[b]]
        t.processes.contains_key(a) && t.processes.contains_key(b) && a != b implies t.processes[a]
        != t.processes[b] by {
        assert(s.processes[a] != s.processes[b]);
    }
    assert forall|a: i32, b: i32|
        #![trigger t.threads[a], t.threads[b]]
        t.threads.contains_key(a) && t.threads.contains_key(b) && a != b implies t.threads[a].index
        != t.threads[b].index by {
        assert(s.threads[a].index != s.threads[b].index);
    }
}

/// A sample keeps the state valid.
pub proof fn lemma_after_sample_valid(
    s: ConverterView,
    e: SampleRecordView,
    unwound: Option<UnwoundStack>,
)
    requires
        s.valid(),
    ensures
        s.after_sample(e, unwound).valid(),
{
    let now = ConverterView { current_sample_time: e.timestamp->0, ..s };
    lemma_change_valid(s, now);
    lemma_with_thread_of_valid(now, e.pid->0, e.tid->0);
    lemma_valid(now.with_thread_of(e.pid->0, e.tid->0));
    lemma_change_valid(now.with_thread_of(e.pid->0, e.tid->0), s.after_sample(e, unwound));
}

/// A sample taken at a switch keeps the state valid.
pub proof fn lemma_after_sched_switch_valid(
    s: ConverterView,
    e: SampleRecordView,
    unwound: Option<UnwoundStack>,
)
    requires
        s.valid(),
    ensures
        s.after_sched_switch(e, unwound).valid(),
{
    lemma_with_thread_of_valid(s, e.pid->0, e.tid->0);
    lemma_valid(s.with_thread_of(e.pid->0, e.tid->0));
    lemma_change_valid(s.with_thread_of(e.pid->0, e.tid->0), s.after_sched_switch(e, unwound));
}

/// A context switch keeps the state valid.
pub proof fn lemma_after_context_switch_valid(
    s: ConverterView,
    e: ContextSwitchRecord,
    pid: i32,
    tid: i32,
    timestamp: u64,
)
    requires
        s.valid(),
    ensures
        s.after_context_switch(e, pid, tid, timestamp).valid(),
{
    lemma_with_thread_of_valid(s, pid, tid);
    lemma_valid(s.with_thread_of(pid, tid));
    lemma_change_valid(
        s.with_thread_of(pid, tid),
        s.after_context_switch(e, pid, tid, timestamp),
    );
}

/// The start of a thread keeps the state valid.
pub proof fn lemma_after_thread_start_valid(s: ConverterView, e: ForkOrExitRecord)
    requires
        s.valid(),
    ensures
        s.after_thread_start(e).valid(),
{
    lemma_with_thread_of_valid(s, e.pid, e.tid);
    lemma_valid(s.with_thread_of(e.pid, e.tid));
    lemma_change_valid(s.with_thread_of(e.pid, e.tid), s.after_thread_start(e));
}

/// The end of a thread keeps the state valid.
pub proof fn lemma_after_thread_end_valid(s: ConverterView, e: ForkOrExitRecord)
    requires
        s.valid(),
    ensures
        s.after_thread_end(e).valid(),
{
    lemma_with_thread_of_valid(s, e.pid, e.tid);
    lemma_valid(s.with_thread_of(e.pid, e.tid));
    lemma_change_valid(s.with_thread_of(e.pid, e.tid), s.after_thread_end(e));
}

/// The replacement of what ran in a thread keeps the state valid.
pub proof fn lemma_after_replacement_valid(s: ConverterView, pid: i32, tid: i32, time: u64)
    requires
        s.valid(),
    ensures
        s.after_replacement(pid, tid, time).valid(),
{
    lemma_valid(s);
    lemma_change_valid(s, s.after_replacement(pid, tid, time));
}

/// A name for a thread keeps the state valid.
pub proof fn lemma_after_thread_name_update_valid(
    s: ConverterView,
    e: CommOrExecRecordView,
    timestamp: Option<u64>,
)
    requires
        s.valid(),
    ensures
        s.after_thread_name_update(e, timestamp).valid(),
{
    let time = s.time(s.replacement_timestamp(timestamp));
    lemma_after_replacement_valid(s, e.pid, e.tid, time);
    let before = s.before_name(e, timestamp);
    lemma_with_thread_of_valid(before, e.pid, e.tid);
    lemma_valid(before.with_thread_of(e.pid, e.tid));
    lemma_change_valid(
        before.with_thread_of(e.pid, e.tid),
        s.after_thread_name_update(e, timestamp),
    );
}

/// A mapping keeps the state valid.
pub proof fn lemma_after_mmap_valid(s: ConverterView, e: MmapRecordView)
    requires
        s.valid(),
    ensures
        s.after_mmap(e).valid(),
{
    lemma_with_process_valid(s, e.pid);
    match dso_key(e.path, e.cpu_mode.bits()) {
        Some(key) => {
            match s.build_id(key) {
                Some(build_id) => {
                    lemma_hex_digits(build_id);
                },
                None => {},
            }
            reveal(ConverterView::valid);
        },
        None => {},
    }
}

/// A mapping with protection bits keeps the state valid.
pub proof fn lemma_after_mmap2_valid(s: ConverterView, e: Mmap2RecordView)
    requires
        s.valid(),
    ensures
        s.after_mmap2(e).valid(),
{
    lemma_with_process_valid(s, e.pid);
}

/// Loading a mapping keeps the state valid.
pub proof fn lemma_after_load_valid(
    s: ConverterView,
    pid: i32,
    module: Result<ModuleView, ModuleErrorView>,
)
    requires
        s.valid(),
    ensures
        s.after_load(pid, module).valid(),
{
    lemma_with_process_valid(s, pid);
    lemma_valid(s.with_process(pid));
    lemma_change_valid(s.with_process(pid), s.after_load(pid, module));
}

} // verus!
