//! The processes and threads that are alive at a point of the recording.

use vstd::prelude::*;
use std::collections::HashMap;
use std::collections::hash_map::Entry;
use fxprof_processed_profile::{ProcessHandle, Profile, ThreadHandle};
use crate::profile::{
    add_lib, add_process, add_thread, mapped_libraries, process_index, profile_contents,
    thread_index, Library, LibraryInfo, LibraryView, ProcessView, ProfileView, ThreadView,
};
use crate::stack::StackFrame;
use crate::text::{make_placeholder_name, placeholder_name};

verus! {

broadcast use vstd::std_specs::hash::group_hash_axioms;

/// What is known of whether a thread is running.
#[derive(Debug, Clone, Copy, PartialEq, Eq, Structural)]
pub enum ThreadState {
    Unknown,
    /// It was switched out at this time.
    Off { off_switch_timestamp: u64 },
    /// It was last seen running at this time.
    On { last_observed_on_timestamp: u64 },
}

/// A thread that is alive.
pub struct Thread {
    pub profile_thread: ThreadHandle,
    /// The process that the thread belongs to in the profile.
    pub profile_process: ProcessHandle,
    pub last_sample_timestamp: Option<u64>,
    pub state: ThreadState,
    /// The stack with which the thread was last switched out.
    pub off_cpu_stack: Option<Vec<StackFrame>>,
}

/// What is known of a thread that is alive: its number and that of its process in the
/// profile, when it was last sampled, whether it is running, and the stack with which it was
/// last switched out.
#[verifier::ext_equal]
pub struct LiveThread {
    pub index: nat,
    pub process: nat,
    pub last_sample_timestamp: Option<u64>,
    pub state: ThreadState,
    pub off_cpu_stack: Option<Seq<StackFrame>>,
}

impl View for Thread {
    type V = LiveThread;

    open spec fn view(&self) -> LiveThread {
        LiveThread {
            index: thread_index(self.profile_thread),
            process: process_index(self.profile_process),
            last_sample_timestamp: self.last_sample_timestamp,
            state: self.state,
            off_cpu_stack: match self.off_cpu_stack {
                Some(stack) => Some(stack@),
                None => None,
            },
        }
    }
}

/// The threads that are alive, by thread number.
pub struct Threads(pub HashMap<i32, Thread>);

impl View for Threads {
    type V = Map<i32, Thread>;

    open spec fn view(&self) -> Map<i32, Thread> {
        self.0@
    }
}

impl Threads {
    /// Gets a thread. One that is not known yet is added to the profile.
    pub fn get_by_tid(
        &mut self,
        tid: i32,
        process_handle: ProcessHandle,
        is_main: bool,
        profile: &mut Profile,
    ) -> (thread: &mut Thread)
        requires
            !old(self)@.contains_key(tid) ==> process_index(process_handle) < profile_contents(
                *old(profile),
            ).processes.len(),
        ensures
            final(self)@ == old(self)@.insert(tid, *final(thread)),
            old(self)@.contains_key(tid) ==> {
                &&& *thread == old(self)@[tid]
                &&& *final(profile) == *old(profile)
            },
            !old(self)@.contains_key(tid) ==> {
                &&& thread@ == (LiveThread {
                    index: profile_contents(*old(profile)).threads.len(),
                    process: process_index(process_handle),
                    last_sample_timestamp: None,
                    state: ThreadState::Unknown,
                    off_cpu_stack: None,
                })
                &&& profile_contents(*final(profile)) == (ProfileView {
                    threads: profile_contents(*old(profile)).threads.push(
                        ThreadView {
                            process: process_index(process_handle),
                            tid: tid as u32,
                            name: None,
                            start_time: 0,
                            end_time: None,
                            is_main,
                            samples: Seq::empty(),
                        },
                    ),
                    ..profile_contents(*old(profile))
                })
            },
    {
        match self.0.entry(tid) {
            Entry::Occupied(entry) => entry.into_mut(),
            Entry::Vacant(entry) => {
                let profile_thread: ThreadHandle = add_thread(
                    profile,
                    process_handle,
                    tid as u32,
                    is_main,
                );
                entry.insert(
                    Thread {
                        profile_thread,
                        profile_process: process_handle,
                        last_sample_timestamp: None,
                        state: ThreadState::Unknown,
                        off_cpu_stack: None,
                    },
                )
            },
        }
    }
}

/// A process that is alive, and what unwinds its stacks.
pub struct Process<U> {
    pub profile_process: ProcessHandle,
    pub unwinder: U,
}

/// The processes that are alive, by process number.
pub struct Processes<U>(pub HashMap<i32, Process<U>>);

impl<U> View for Processes<U> {
    type V = Map<i32, Process<U>>;

    open spec fn view(&self) -> Map<i32, Process<U>> {
        self.0@
    }
}

/// What libraries say.
pub open spec fn library_views(libraries: Seq<Library>) -> Seq<LibraryView> {
    libraries.map_values(|library: Library| library@)
}

/// What identifies libraries.
pub open spec fn library_infos(libraries: Seq<LibraryView>) -> Seq<LibraryInfo> {
    libraries.map_values(|library: LibraryView| library.info)
}

impl<U: Default> Processes<U> {
    /// Gets a process. One that is not known yet is added to the profile, together with
    /// the modules that all processes have.
    pub fn get_by_pid(
        &mut self,
        pid: i32,
        profile: &mut Profile,
        global_modules: &[Library],
    ) -> (process: &mut Process<U>)
        requires
            forall|i: int|
                0 <= i < global_modules@.len() ==> (#[trigger] global_modules@[i])@.valid(),
        ensures
            final(self)@ == old(self)@.insert(pid, *final(process)),
            old(self)@.contains_key(pid) ==> {
                &&& *process == old(self)@[pid]
                &&& *final(profile) == *old(profile)
            },
            !old(self)@.contains_key(pid) ==> {
                &&& process_index(process.profile_process) == profile_contents(
                    *old(profile),
                ).processes.len()
                &&& call_ensures(U::default, (), process.unwinder)
                &&& profile_contents(*final(profile)) == (ProfileView {
                    processes: profile_contents(*old(profile)).processes.push(
                        ProcessView {
                            pid: pid as u32,
                            name: placeholder_name(pid),
                            start_time: 0,
                            end_time: None,
                            libs: library_infos(library_views(global_modules@)),
                            mappings: mapped_libraries(library_views(global_modules@)),
                        },
                    ),
                    ..profile_contents(*old(profile))
                })
            },
    {
        match self.0.entry(pid) {
            Entry::Occupied(entry) => entry.into_mut(),
            Entry::Vacant(entry) => {
                let name: String = make_placeholder_name(pid);
                let handle: ProcessHandle = add_process(profile, name.as_str(), pid as u32);
                let ghost before = profile_contents(*old(profile));
                let ghost process = before.processes.len() as int;
                let ghost new = profile_contents(*profile).processes[process];
                let ghost views = library_views(global_modules@);
                assert(library_infos(views.take(0)) =~= Seq::empty());
                let mut i: usize = 0;
                while i < global_modules.len()
                    invariant
                        i <= global_modules@.len(),
                        forall|i: int|
                            0 <= i < global_modules@.len() ==> (
                            #[trigger] global_modules@[i])@.valid(),
                        process_index(handle) == process,
                        process == before.processes.len(),
                        views == library_views(global_modules@),
                        profile_contents(*profile) == (ProfileView {
                            processes: before.processes.push(
                                ProcessView {
                                    libs: library_infos(views.take(i as int)),
                                    mappings: mapped_libraries(views.take(i as int)),
                                    ..new
                                },
                            ),
                            ..before
                        }),
                    decreases global_modules@.len() - i,
                {
                    let library: Library = global_modules[i].clone();
                    add_lib(profile, handle, library);
                    proof {
                        assert(views.take(i + 1).drop_last() =~= views.take(i as int));
                        assert(views.take(i + 1).last() == library@);
                        assert(library_infos(views.take(i + 1)) =~= library_infos(
                            views.take(i as int),
                        ).push(library@.info));
                        assert(profile_contents(*profile).processes =~= before.processes.push(
                            ProcessView {
                                libs: library_infos(views.take(i + 1)),
                                mappings: mapped_libraries(views.take(i + 1)),
                                ..new
                            },
                        ));
                    }
                    i = i + 1;
                }
                assert(views.take(global_modules@.len() as int) =~= views);
                entry.insert(Process { profile_process: handle, unwinder: U::default() })
            },
        }
    }
}

} // verus!
