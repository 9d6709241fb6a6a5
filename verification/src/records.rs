//! The records of a recording, as far as a conversion reads them.

use vstd::prelude::*;

verus! {

/// The CPU mode in which a record was taken.
#[derive(Debug, Clone, Copy, PartialEq, Eq, Structural)]
pub enum CpuMode {
    Unknown,
    Kernel,
    User,
    Hypervisor,
    GuestKernel,
    GuestUser,
}

/// The user registers of a sample, by register number. A register that was not
/// recorded holds `None`, and so does every register past the end.
#[derive(Debug, PartialEq, Eq)]
pub struct Regs {
    pub values: Vec<Option<u64>>,
}

impl Regs {
    /// The value that was recorded for a register.
    pub open spec fn value(self, register: int) -> Option<u64> {
        if 0 <= register < self.values@.len() {
            self.values@[register]
        } else {
            None
        }
    }

    /// Looks up the value of a register.
    pub fn get(&self, register: u64) -> (value: Option<u64>)
        ensures
            value == self.value(register as int),
    {
        if register < self.values.len() as u64 {
            self.values[register as usize]
        } else {
            None
        }
    }
}

/// A sample.
#[derive(Debug, PartialEq, Eq)]
pub struct SampleRecord {
    pub pid: Option<i32>,
    pub tid: Option<i32>,
    pub timestamp: Option<u64>,
    pub period: Option<u64>,
    pub ip: Option<u64>,
    pub cpu_mode: CpuMode,
    /// The stack that was walked while sampling, innermost frame first. Values of
    /// `PERF_CONTEXT_MAX` and above are no addresses: they announce the mode of
    /// the frames that follow.
    pub callchain: Option<Vec<u64>>,
    pub user_regs: Option<Regs>,
    /// The raw bytes on the user stack, starting at the stack pointer.
    pub user_stack: Option<Vec<u8>>,
}

/// What a `SampleRecord` says.
#[verifier::ext_equal]
pub struct SampleRecordView {
    pub pid: Option<i32>,
    pub tid: Option<i32>,
    pub timestamp: Option<u64>,
    pub period: Option<u64>,
    pub ip: Option<u64>,
    pub cpu_mode: CpuMode,
    pub callchain: Option<Seq<u64>>,
    pub user_regs: Option<Seq<Option<u64>>>,
    pub user_stack: Option<Seq<u8>>,
}

impl View for SampleRecord {
    type V = SampleRecordView;

    open spec fn view(&self) -> SampleRecordView {
        SampleRecordView {
            pid: self.pid,
            tid: self.tid,
            timestamp: self.timestamp,
            period: self.period,
            ip: self.ip,
            cpu_mode: self.cpu_mode,
            callchain: match self.callchain {
                Some(chain) => Some(chain@),
                None => None,
            },
            user_regs: match self.user_regs {
                Some(regs) => Some(regs.values@),
                None => None,
            },
            user_stack: match self.user_stack {
                Some(stack) => Some(stack@),
                None => None,
            },
        }
    }
}

impl SampleRecordView {
    /// Whether the sample holds what it takes to unwind the user stack after the fact.
    pub open spec fn can_unwind(self) -> bool {
        self.user_regs is Some && self.user_stack is Some
    }
}

/// A file or a part of one that was mapped into the address space of a process,
/// or, with a pid of -1, a piece of the kernel.
#[derive(Debug, PartialEq, Eq)]
pub struct MmapRecord {
    pub pid: i32,
    pub address: u64,
    pub length: u64,
    pub page_offset: u64,
    pub is_executable: bool,
    pub cpu_mode: CpuMode,
    pub path: Vec<u8>,
}

/// What a `MmapRecord` says.
#[verifier::ext_equal]
pub struct MmapRecordView {
    pub pid: i32,
    pub address: u64,
    pub length: u64,
    pub page_offset: u64,
    pub is_executable: bool,
    pub cpu_mode: CpuMode,
    pub path: Seq<u8>,
}

impl View for MmapRecord {
    type V = MmapRecordView;

    open spec fn view(&self) -> MmapRecordView {
        MmapRecordView {
            pid: self.pid,
            address: self.address,
            length: self.length,
            page_offset: self.page_offset,
            is_executable: self.is_executable,
            cpu_mode: self.cpu_mode,
            path: self.path@,
        }
    }
}

/// What identifies the file of a mapping.
#[derive(Debug, PartialEq, Eq)]
pub enum Mmap2FileId {
    InodeAndVersion,
    BuildId(Vec<u8>),
}

/// A mapping with its protection bits.
#[derive(Debug, PartialEq, Eq)]
pub struct Mmap2Record {
    pub pid: i32,
    pub address: u64,
    pub length: u64,
    pub page_offset: u64,
    pub file_id: Mmap2FileId,
    pub protection: u32,
    pub cpu_mode: CpuMode,
    pub path: Vec<u8>,
}

/// What a `Mmap2Record` says. The build ID is that which the record holds, if it holds one.
#[verifier::ext_equal]
pub struct Mmap2RecordView {
    pub pid: i32,
    pub address: u64,
    pub length: u64,
    pub page_offset: u64,
    pub build_id: Option<Seq<u8>>,
    pub protection: u32,
    pub cpu_mode: CpuMode,
    pub path: Seq<u8>,
}

impl View for Mmap2Record {
    type V = Mmap2RecordView;

    open spec fn view(&self) -> Mmap2RecordView {
        Mmap2RecordView {
            pid: self.pid,
            address: self.address,
            length: self.length,
            page_offset: self.page_offset,
            build_id: match self.file_id {
                Mmap2FileId::BuildId(build_id) => Some(build_id@),
                Mmap2FileId::InodeAndVersion => None,
            },
            protection: self.protection,
            cpu_mode: self.cpu_mode,
            path: self.path@,
        }
    }
}

/// The start or the end of a thread.
#[derive(Debug, Clone, Copy, PartialEq, Eq)]
pub struct ForkOrExitRecord {
    pub pid: i32,
    pub tid: i32,
    pub timestamp: u64,
}

/// A new name for a thread.
#[derive(Debug, PartialEq, Eq)]
pub struct CommOrExecRecord {
    pub pid: i32,
    pub tid: i32,
    pub name: Vec<u8>,
    pub is_execve: bool,
}

/// What a `CommOrExecRecord` says.
#[verifier::ext_equal]
pub struct CommOrExecRecordView {
    pub pid: i32,
    pub tid: i32,
    pub name: Seq<u8>,
    pub is_execve: bool,
}

impl View for CommOrExecRecord {
    type V = CommOrExecRecordView;

    open spec fn view(&self) -> CommOrExecRecordView {
        CommOrExecRecordView {
            pid: self.pid,
            tid: self.tid,
            name: self.name@,
            is_execve: self.is_execve,
        }
    }
}

/// A thread was switched in or out.
#[derive(Debug, Clone, Copy, PartialEq, Eq, Structural)]
pub enum ContextSwitchRecord {
    In,
    Out,
}

/// What most records carry beside their own data.
#[derive(Debug, Clone, Copy, PartialEq, Eq)]
pub struct CommonData {
    pub pid: Option<i32>,
    pub tid: Option<i32>,
    pub timestamp: Option<u64>,
}

/// One record of a recording.
#[derive(Debug, PartialEq, Eq)]
pub enum Record {
    Sample(SampleRecord),
    Fork(ForkOrExitRecord),
    Exit(ForkOrExitRecord),
    Comm(CommOrExecRecord),
    Mmap(MmapRecord),
    Mmap2(Mmap2Record),
    /// A context switch, with its common data where that could be read.
    ContextSwitch(ContextSwitchRecord, Option<CommonData>),
    /// A record that takes no part in a conversion.
    Other,
}

/// What a `Record` says.
#[verifier::ext_equal]
pub enum RecordView {
    Sample(SampleRecordView),
    Fork(ForkOrExitRecord),
    Exit(ForkOrExitRecord),
    Comm(CommOrExecRecordView),
    Mmap(MmapRecordView),
    Mmap2(Mmap2RecordView),
    ContextSwitch(ContextSwitchRecord, Option<CommonData>),
    Other,
}

impl View for Record {
    type V = RecordView;

    open spec fn view(&self) -> RecordView {
        match self {
            Record::Sample(e) => RecordView::Sample(e@),
            Record::Fork(e) => RecordView::Fork(*e),
            Record::Exit(e) => RecordView::Exit(*e),
            Record::Comm(e) => RecordView::Comm(e@),
            Record::Mmap(e) => RecordView::Mmap(e@),
            Record::Mmap2(e) => RecordView::Mmap2(e@),
            Record::ContextSwitch(e, common) => RecordView::ContextSwitch(*e, *common),
            Record::Other => RecordView::Other,
        }
    }
}

} // verus!
