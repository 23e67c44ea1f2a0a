//! Windows-specific syscall translator.
//!
//! Maps common Windows NT syscalls to their NTAPI numbers and provides a
//! [`WindowsSyscallTranslator`] for translating raw Windows syscall numbers.
//!
//! NT syscall numbers vary across Windows versions and architectures. The
//! numbers in this module correspond to Windows 10/11 x64 (build 19041+).

use std::collections::HashMap;
use vstd::prelude::*;
use vstd::std_specs::iter::IteratorSpec;

verus! {

broadcast use vstd::std_specs::hash::group_hash_axioms;

/// Error returned when a Windows syscall translation fails.
#[derive(Debug, Clone, PartialEq, Eq, Structural)]
pub enum WindowsSyscallError {
    UnknownSyscall(u32),
    InvalidArgument,
}

impl WindowsSyscallError {
    /// The human-readable message of the error.
    pub fn to_string(&self) -> (s: String)
        ensures
            s@ == self.message(),
    {
        match self {
            WindowsSyscallError::UnknownSyscall(num) => {
                let mut s = String::from_str("Unknown Windows syscall number: ");
                let digits = crate::text::decimal_u64(*num as u64);
                s.append(digits.as_str());
                s
            },
            WindowsSyscallError::InvalidArgument => String::from_str("Invalid argument"),
        }
    }

    /// The text that [`WindowsSyscallError::to_string`] produces.
    pub open spec fn message(&self) -> Seq<char> {
        match self {
            WindowsSyscallError::UnknownSyscall(num) => "Unknown Windows syscall number: "@
                + crate::text::spec_decimal(*num as nat),
            WindowsSyscallError::InvalidArgument => "Invalid argument"@,
        }
    }
}

/// Named identifier for a Windows NT syscall.
#[derive(Debug, Clone, Copy, PartialEq, Eq, Hash, Structural)]
pub enum WindowsSyscallName {
    NtAccessCheck,
    NtAllocateVirtualMemory,
    NtClose,
    NtCreateEvent,
    NtCreateFile,
    NtCreateKey,
    NtCreateSection,
    NtCreateThread,
    NtCreateThreadEx,
    NtCreateUserProcess,
    NtDelayExecution,
    NtDeleteKey,
    NtDeviceIoControlFile,
    NtDuplicateObject,
    NtFlushBuffersFile,
    NtFreeVirtualMemory,
    NtFsControlFile,
    NtGetContextThread,
    NtMapViewOfSection,
    NtOpenEvent,
    NtOpenFile,
    NtOpenKey,
    NtOpenProcess,
    NtOpenSection,
    NtOpenThread,
    NtProtectVirtualMemory,
    NtQueryDirectoryFile,
    NtQueryInformationFile,
    NtQueryInformationProcess,
    NtQueryInformationThread,
    NtQuerySystemInformation,
    NtQueryValueKey,
    NtQueryVirtualMemory,
    NtReadFile,
    NtReadVirtualMemory,
    NtResetEvent,
    NtResumeThread,
    NtSetContextThread,
    NtSetEvent,
    NtSetInformationFile,
    NtSetInformationProcess,
    NtSetValueKey,
    NtSuspendThread,
    NtTerminateProcess,
    NtTerminateThread,
    NtUnmapViewOfSection,
    NtWaitForMultipleObjects,
    NtWaitForSingleObject,
    NtWriteFile,
    NtWriteVirtualMemory,
    NtYieldExecution,
}

/// Result of a successful Windows syscall translation.
#[derive(Debug, Clone, PartialEq, Eq)]
pub struct WindowsSyscallResult {
    pub name: WindowsSyscallName,
    pub number: u32,
    pub args: [u64; 6],
}

/// Trait for translating raw Windows syscall numbers into structured results.
pub trait WindowsSyscallTranslator {
    fn translate(&self, syscall_num: u32, args: [u64; 6]) -> Result<
        WindowsSyscallResult,
        WindowsSyscallError,
    >;
}

/// The name that the Windows NT table gives to `number`, if any.
pub open spec fn nt_name_of(number: u32) -> Option<WindowsSyscallName> {
    match number {
        0x00 => Some(WindowsSyscallName::NtAccessCheck),
        0x04 => Some(WindowsSyscallName::NtWaitForSingleObject),
        0x05 => Some(WindowsSyscallName::NtWaitForMultipleObjects),
        0x06 => Some(WindowsSyscallName::NtReadFile),
        0x07 => Some(WindowsSyscallName::NtDeviceIoControlFile),
        0x08 => Some(WindowsSyscallName::NtWriteFile),
        0x09 => Some(WindowsSyscallName::NtFsControlFile),
        0x0E => Some(WindowsSyscallName::NtSetEvent),
        0x0F => Some(WindowsSyscallName::NtClose),
        0x11 => Some(WindowsSyscallName::NtQueryInformationFile),
        0x18 => Some(WindowsSyscallName::NtAllocateVirtualMemory),
        0x19 => Some(WindowsSyscallName::NtQueryInformationProcess),
        0x1E => Some(WindowsSyscallName::NtFreeVirtualMemory),
        0x23 => Some(WindowsSyscallName::NtQueryVirtualMemory),
        0x24 => Some(WindowsSyscallName::NtQuerySystemInformation),
        0x25 => Some(WindowsSyscallName::NtQueryInformationThread),
        0x26 => Some(WindowsSyscallName::NtOpenProcess),
        0x27 => Some(WindowsSyscallName::NtSetInformationFile),
        0x28 => Some(WindowsSyscallName::NtMapViewOfSection),
        0x2A => Some(WindowsSyscallName::NtUnmapViewOfSection),
        0x2C => Some(WindowsSyscallName::NtTerminateProcess),
        0x33 => Some(WindowsSyscallName::NtOpenFile),
        0x34 => Some(WindowsSyscallName::NtDelayExecution),
        0x36 => Some(WindowsSyscallName::NtSuspendThread),
        0x3A => Some(WindowsSyscallName::NtWriteVirtualMemory),
        0x3D => Some(WindowsSyscallName::NtReadVirtualMemory),
        0x41 => Some(WindowsSyscallName::NtFlushBuffersFile),
        0x46 => Some(WindowsSyscallName::NtYieldExecution),
        0x48 => Some(WindowsSyscallName::NtCreateEvent),
        0x49 => Some(WindowsSyscallName::NtOpenEvent),
        0x4A => Some(WindowsSyscallName::NtCreateSection),
        0x4B => Some(WindowsSyscallName::NtOpenSection),
        0x4D => Some(WindowsSyscallName::NtOpenThread),
        0x4F => Some(WindowsSyscallName::NtResumeThread),
        0x50 => Some(WindowsSyscallName::NtProtectVirtualMemory),
        0x53 => Some(WindowsSyscallName::NtTerminateThread),
        0x55 => Some(WindowsSyscallName::NtCreateFile),
        0x57 => Some(WindowsSyscallName::NtDuplicateObject),
        0x5D => Some(WindowsSyscallName::NtSetValueKey),
        0x63 => Some(WindowsSyscallName::NtDeleteKey),
        0x77 => Some(WindowsSyscallName::NtCreateKey),
        0x78 => Some(WindowsSyscallName::NtOpenKey),
        0x79 => Some(WindowsSyscallName::NtQueryValueKey),
        0x91 => Some(WindowsSyscallName::NtQueryDirectoryFile),
        0xA6 => Some(WindowsSyscallName::NtCreateThread),
        0xB9 => Some(WindowsSyscallName::NtCreateThreadEx),
        0xC1 => Some(WindowsSyscallName::NtCreateUserProcess),
        0xD1 => Some(WindowsSyscallName::NtResetEvent),
        0xD4 => Some(WindowsSyscallName::NtGetContextThread),
        0xD5 => Some(WindowsSyscallName::NtSetContextThread),
        _ => None,
    }
}

/// The NT number of `name`, or `None` for a name the table does not hold.
pub open spec fn nt_number_of(name: WindowsSyscallName) -> Option<u32> {
    match name {
        WindowsSyscallName::NtAccessCheck => Some(0x00),
        WindowsSyscallName::NtAllocateVirtualMemory => Some(0x18),
        WindowsSyscallName::NtClose => Some(0x0F),
        WindowsSyscallName::NtCreateEvent => Some(0x48),
        WindowsSyscallName::NtCreateFile => Some(0x55),
        WindowsSyscallName::NtCreateKey => Some(0x77),
        WindowsSyscallName::NtCreateSection => Some(0x4A),
        WindowsSyscallName::NtCreateThread => Some(0xA6),
        WindowsSyscallName::NtCreateThreadEx => Some(0xB9),
        WindowsSyscallName::NtCreateUserProcess => Some(0xC1),
        WindowsSyscallName::NtDelayExecution => Some(0x34),
        WindowsSyscallName::NtDeleteKey => Some(0x63),
        WindowsSyscallName::NtDeviceIoControlFile => Some(0x07),
        WindowsSyscallName::NtDuplicateObject => Some(0x57),
        WindowsSyscallName::NtFlushBuffersFile => Some(0x41),
        WindowsSyscallName::NtFreeVirtualMemory => Some(0x1E),
        WindowsSyscallName::NtFsControlFile => Some(0x09),
        WindowsSyscallName::NtGetContextThread => Some(0xD4),
        WindowsSyscallName::NtMapViewOfSection => Some(0x28),
        WindowsSyscallName::NtOpenEvent => Some(0x49),
        WindowsSyscallName::NtOpenFile => Some(0x33),
        WindowsSyscallName::NtOpenKey => Some(0x78),
        WindowsSyscallName::NtOpenProcess => Some(0x26),
        WindowsSyscallName::NtOpenSection => Some(0x4B),
        WindowsSyscallName::NtOpenThread => Some(0x4D),
        WindowsSyscallName::NtProtectVirtualMemory => Some(0x50),
        WindowsSyscallName::NtQueryDirectoryFile => Some(0x91),
        WindowsSyscallName::NtQueryInformationFile => Some(0x11),
        WindowsSyscallName::NtQueryInformationProcess => Some(0x19),
        WindowsSyscallName::NtQueryInformationThread => Some(0x25),
        WindowsSyscallName::NtQuerySystemInformation => Some(0x24),
        WindowsSyscallName::NtQueryValueKey => Some(0x79),
        WindowsSyscallName::NtQueryVirtualMemory => Some(0x23),
        WindowsSyscallName::NtReadFile => Some(0x06),
        WindowsSyscallName::NtReadVirtualMemory => Some(0x3D),
        WindowsSyscallName::NtResetEvent => Some(0xD1),
        WindowsSyscallName::NtResumeThread => Some(0x4F),
        WindowsSyscallName::NtSetContextThread => Some(0xD5),
        WindowsSyscallName::NtSetEvent => Some(0x0E),
        WindowsSyscallName::NtSetInformationFile => Some(0x27),
        WindowsSyscallName::NtSetInformationProcess => None,
        WindowsSyscallName::NtSetValueKey => Some(0x5D),
        WindowsSyscallName::NtSuspendThread => Some(0x36),
        WindowsSyscallName::NtTerminateProcess => Some(0x2C),
        WindowsSyscallName::NtTerminateThread => Some(0x53),
        WindowsSyscallName::NtUnmapViewOfSection => Some(0x2A),
        WindowsSyscallName::NtWaitForMultipleObjects => Some(0x05),
        WindowsSyscallName::NtWaitForSingleObject => Some(0x04),
        WindowsSyscallName::NtWriteFile => Some(0x08),
        WindowsSyscallName::NtWriteVirtualMemory => Some(0x3A),
        WindowsSyscallName::NtYieldExecution => Some(0x46),
    }
}

/// The Windows NT table as a map from number to name.
#[verifier::opaque]
pub open spec fn nt_table() -> Map<u32, WindowsSyscallName> {
    Map::new(|n: u32| nt_name_of(n) is Some, |n: u32| nt_name_of(n)->0)
}

/// The table holds exactly the numbers that have a name, each mapped to it.
pub proof fn lemma_nt_table_entry(n: u32)
    ensures
        #[trigger] nt_table().contains_key(n) == (nt_name_of(n) is Some),
        nt_table().contains_key(n) ==> nt_table()[n] == nt_name_of(n)->0,
{
    reveal(nt_table);
}

/// The NT table pairs numbers and names one to one: a number names `name`
/// exactly when it is the number of `name`.  No number and no name occurs
/// twice, and every name but `NtSetInformationProcess` has a number.
pub proof fn lemma_nt_table_bijective()
    ensures
        forall|name: WindowsSyscallName|
            #[trigger] nt_number_of(name) matches Some(n) ==> nt_name_of(n) == Some(name),
        forall|n: u32, name: WindowsSyscallName|
            #![trigger nt_name_of(n), nt_number_of(name)]
            nt_name_of(n) == Some(name) <==> nt_number_of(name) == Some(n),
        forall|name: WindowsSyscallName|
            #[trigger] nt_number_of(name) is None <==> name == WindowsSyscallName::NtSetInformationProcess,
{
    assert forall|name: WindowsSyscallName|
        #[trigger] nt_number_of(name) matches Some(n) ==> nt_name_of(n) == Some(name) by {
        match name {
            WindowsSyscallName::NtAccessCheck => {},
            WindowsSyscallName::NtAllocateVirtualMemory => {},
            WindowsSyscallName::NtClose => {},
            WindowsSyscallName::NtCreateEvent => {},
            WindowsSyscallName::NtCreateFile => {},
            WindowsSyscallName::NtCreateKey => {},
            WindowsSyscallName::NtCreateSection => {},
            WindowsSyscallName::NtCreateThread => {},
            WindowsSyscallName::NtCreateThreadEx => {},
            WindowsSyscallName::NtCreateUserProcess => {},
            WindowsSyscallName::NtDelayExecution => {},
            WindowsSyscallName::NtDeleteKey => {},
            WindowsSyscallName::NtDeviceIoControlFile => {},
            WindowsSyscallName::NtDuplicateObject => {},
            WindowsSyscallName::NtFlushBuffersFile => {},
            WindowsSyscallName::NtFreeVirtualMemory => {},
            WindowsSyscallName::NtFsControlFile => {},
            WindowsSyscallName::NtGetContextThread => {},
            WindowsSyscallName::NtMapViewOfSection => {},
            WindowsSyscallName::NtOpenEvent => {},
            WindowsSyscallName::NtOpenFile => {},
            WindowsSyscallName::NtOpenKey => {},
            WindowsSyscallName::NtOpenProcess => {},
            WindowsSyscallName::NtOpenSection => {},
            WindowsSyscallName::NtOpenThread => {},
            WindowsSyscallName::NtProtectVirtualMemory => {},
            WindowsSyscallName::NtQueryDirectoryFile => {},
            WindowsSyscallName::NtQueryInformationFile => {},
            WindowsSyscallName::NtQueryInformationProcess => {},
            WindowsSyscallName::NtQueryInformationThread => {},
            WindowsSyscallName::NtQuerySystemInformation => {},
            WindowsSyscallName::NtQueryValueKey => {},
            WindowsSyscallName::NtQueryVirtualMemory => {},
            WindowsSyscallName::NtReadFile => {},
            WindowsSyscallName::NtReadVirtualMemory => {},
            WindowsSyscallName::NtResetEvent => {},
            WindowsSyscallName::NtResumeThread => {},
            WindowsSyscallName::NtSetContextThread => {},
            WindowsSyscallName::NtSetEvent => {},
            WindowsSyscallName::NtSetInformationFile => {},
            WindowsSyscallName::NtSetInformationProcess => {},
            WindowsSyscallName::NtSetValueKey => {},
            WindowsSyscallName::NtSuspendThread => {},
            WindowsSyscallName::NtTerminateProcess => {},
            WindowsSyscallName::NtTerminateThread => {},
            WindowsSyscallName::NtUnmapViewOfSection => {},
            WindowsSyscallName::NtWaitForMultipleObjects => {},
            WindowsSyscallName::NtWaitForSingleObject => {},
            WindowsSyscallName::NtWriteFile => {},
            WindowsSyscallName::NtWriteVirtualMemory => {},
            WindowsSyscallName::NtYieldExecution => {},
        }
    }
    assert forall|n: u32, name: WindowsSyscallName|
        #![trigger nt_name_of(n), nt_number_of(name)]
        nt_name_of(n) == Some(name) implies nt_number_of(name) == Some(n) by {
        lemma_nt_numbers(n);
    }
    assert forall|name: WindowsSyscallName|
        #[trigger] nt_number_of(name) is None implies name == WindowsSyscallName::NtSetInformationProcess by {
        match name {
            WindowsSyscallName::NtAccessCheck => {},
            WindowsSyscallName::NtAllocateVirtualMemory => {},
            WindowsSyscallName::NtClose => {},
            WindowsSyscallName::NtCreateEvent => {},
            WindowsSyscallName::NtCreateFile => {},
            WindowsSyscallName::NtCreateKey => {},
            WindowsSyscallName::NtCreateSection => {},
            WindowsSyscallName::NtCreateThread => {},
            WindowsSyscallName::NtCreateThreadEx => {},
            WindowsSyscallName::NtCreateUserProcess => {},
            WindowsSyscallName::NtDelayExecution => {},
            WindowsSyscallName::NtDeleteKey => {},
            WindowsSyscallName::NtDeviceIoControlFile => {},
            WindowsSyscallName::NtDuplicateObject => {},
            WindowsSyscallName::NtFlushBuffersFile => {},
            WindowsSyscallName::NtFreeVirtualMemory => {},
            WindowsSyscallName::NtFsControlFile => {},
            WindowsSyscallName::NtGetContextThread => {},
            WindowsSyscallName::NtMapViewOfSection => {},
            WindowsSyscallName::NtOpenEvent => {},
            WindowsSyscallName::NtOpenFile => {},
            WindowsSyscallName::NtOpenKey => {},
            WindowsSyscallName::NtOpenProcess => {},
            WindowsSyscallName::NtOpenSection => {},
            WindowsSyscallName::NtOpenThread => {},
            WindowsSyscallName::NtProtectVirtualMemory => {},
            WindowsSyscallName::NtQueryDirectoryFile => {},
            WindowsSyscallName::NtQueryInformationFile => {},
            WindowsSyscallName::NtQueryInformationProcess => {},
            WindowsSyscallName::NtQueryInformationThread => {},
            WindowsSyscallName::NtQuerySystemInformation => {},
            WindowsSyscallName::NtQueryValueKey => {},
            WindowsSyscallName::NtQueryVirtualMemory => {},
            WindowsSyscallName::NtReadFile => {},
            WindowsSyscallName::NtReadVirtualMemory => {},
            WindowsSyscallName::NtResetEvent => {},
            WindowsSyscallName::NtResumeThread => {},
            WindowsSyscallName::NtSetContextThread => {},
            WindowsSyscallName::NtSetEvent => {},
            WindowsSyscallName::NtSetInformationFile => {},
            WindowsSyscallName::NtSetInformationProcess => {},
            WindowsSyscallName::NtSetValueKey => {},
            WindowsSyscallName::NtSuspendThread => {},
            WindowsSyscallName::NtTerminateProcess => {},
            WindowsSyscallName::NtTerminateThread => {},
            WindowsSyscallName::NtUnmapViewOfSection => {},
            WindowsSyscallName::NtWaitForMultipleObjects => {},
            WindowsSyscallName::NtWaitForSingleObject => {},
            WindowsSyscallName::NtWriteFile => {},
            WindowsSyscallName::NtWriteVirtualMemory => {},
            WindowsSyscallName::NtYieldExecution => {},
        }
    }
}

/// Whatever name the table gives to `n` has number `n`.
proof fn lemma_nt_numbers(n: u32)
    ensures
        nt_name_of(n) matches Some(name) ==> nt_number_of(name) == Some(n),
{
}

/// Windows NT syscall translator backed by a lookup table.
///
/// The default instance is populated with the standard NT syscall numbers for
/// Windows 10/11 x64.
#[derive(Debug)]
pub struct WindowsNtSyscallTranslator {
    table: HashMap<u32, WindowsSyscallName>,
}

/// Common Windows NT x64 syscall numbers (Windows 10/11, build 19041+).
impl WindowsNtSyscallTranslator {
    /// `NtClose` - close an object handle
    pub const NT_CLOSE: u32 = 0x0F;
    /// `NtCreateFile` - create or open a file
    pub const NT_CREATE_FILE: u32 = 0x55;
    /// `NtCreateSection` - create a section object
    pub const NT_CREATE_SECTION: u32 = 0x4A;
    /// `NtDeviceIoControlFile` - perform device I/O control
    pub const NT_DEVICE_IO_CONTROL_FILE: u32 = 0x07;
    /// `NtDuplicateObject` - duplicate an object handle
    pub const NT_DUPLICATE_OBJECT: u32 = 0x57;
    /// `NtFlushBuffersFile` - flush buffers for a file
    pub const NT_FLUSH_BUFFERS_FILE: u32 = 0x41;
    /// `NtFreeVirtualMemory` - free virtual memory
    pub const NT_FREE_VIRTUAL_MEMORY: u32 = 0x1E;
    /// `NtFsControlFile` - perform file system control
    pub const NT_FS_CONTROL_FILE: u32 = 0x09;
    /// `NtMapViewOfSection` - map a view of a section
    pub const NT_MAP_VIEW_OF_SECTION: u32 = 0x28;
    /// `NtOpenFile` - open a file
    pub const NT_OPEN_FILE: u32 = 0x33;
    /// `NtOpenProcess` - open a process object
    pub const NT_OPEN_PROCESS: u32 = 0x26;
    /// `NtOpenSection` - open a section object
    pub const NT_OPEN_SECTION: u32 = 0x4B;
    /// `NtOpenThread` - open a thread object
    pub const NT_OPEN_THREAD: u32 = 0x4D;
    /// `NtProtectVirtualMemory` - change virtual memory protection
    pub const NT_PROTECT_VIRTUAL_MEMORY: u32 = 0x50;
    /// `NtQueryDirectoryFile` - query a directory
    pub const NT_QUERY_DIRECTORY_FILE: u32 = 0x91;
    /// `NtQueryInformationFile` - query file information
    pub const NT_QUERY_INFORMATION_FILE: u32 = 0x11;
    /// `NtQueryInformationProcess` - query process information
    pub const NT_QUERY_INFORMATION_PROCESS: u32 = 0x19;
    /// `NtQueryInformationThread` - query thread information
    pub const NT_QUERY_INFORMATION_THREAD: u32 = 0x25;
    /// `NtQuerySystemInformation` - query system information
    pub const NT_QUERY_SYSTEM_INFORMATION: u32 = 0x24;
    /// `NtQueryVirtualMemory` - query virtual memory
    pub const NT_QUERY_VIRTUAL_MEMORY: u32 = 0x23;
    /// `NtReadFile` - read from a file
    pub const NT_READ_FILE: u32 = 0x06;
    /// `NtReadVirtualMemory` - read virtual memory
    pub const NT_READ_VIRTUAL_MEMORY: u32 = 0x3D;
    /// `NtResumeThread` - resume a thread
    pub const NT_RESUME_THREAD: u32 = 0x4F;
    /// `NtSetEvent` - set an event to signaled state
    pub const NT_SET_EVENT: u32 = 0x0E;
    /// `NtSetInformationFile` - set file information
    pub const NT_SET_INFORMATION_FILE: u32 = 0x27;
    /// `NtSuspendThread` - suspend a thread
    pub const NT_SUSPEND_THREAD: u32 = 0x36;
    /// `NtTerminateProcess` - terminate a process
    pub const NT_TERMINATE_PROCESS: u32 = 0x2C;
    /// `NtTerminateThread` - terminate a thread
    pub const NT_TERMINATE_THREAD: u32 = 0x53;
    /// `NtUnmapViewOfSection` - unmap a view of a section
    pub const NT_UNMAP_VIEW_OF_SECTION: u32 = 0x2A;
    /// `NtWaitForMultipleObjects` - wait for multiple objects
    pub const NT_WAIT_FOR_MULTIPLE_OBJECTS: u32 = 0x05;
    /// `NtWaitForSingleObject` - wait for a single object
    pub const NT_WAIT_FOR_SINGLE_OBJECT: u32 = 0x04;
    /// `NtWriteFile` - write to a file
    pub const NT_WRITE_FILE: u32 = 0x08;
    /// `NtWriteVirtualMemory` - write virtual memory
    pub const NT_WRITE_VIRTUAL_MEMORY: u32 = 0x3A;
    /// `NtYieldExecution` - yield execution
    pub const NT_YIELD_EXECUTION: u32 = 0x46;
    /// `NtDelayExecution` - delay execution
    pub const NT_DELAY_EXECUTION: u32 = 0x34;
    /// `NtAllocateVirtualMemory` - allocate virtual memory
    pub const NT_ALLOCATE_VIRTUAL_MEMORY: u32 = 0x18;
    /// `NtCreateEvent` - create an event object
    pub const NT_CREATE_EVENT: u32 = 0x48;
    /// `NtOpenEvent` - open an event object
    pub const NT_OPEN_EVENT: u32 = 0x49;
    /// `NtOpenKey` - open a registry key
    pub const NT_OPEN_KEY: u32 = 0x78;
    /// `NtCreateKey` - create a registry key
    pub const NT_CREATE_KEY: u32 = 0x77;
    /// `NtQueryValueKey` - query a registry value
    pub const NT_QUERY_VALUE_KEY: u32 = 0x79;
    /// `NtSetValueKey` - set a registry value
    pub const NT_SET_VALUE_KEY: u32 = 0x5D;
    /// `NtDeleteKey` - delete a registry key
    pub const NT_DELETE_KEY: u32 = 0x63;
    /// `NtCreateThread` - create a thread
    pub const NT_CREATE_THREAD: u32 = 0xA6;
    /// `NtCreateThreadEx` - create a thread (extended)
    pub const NT_CREATE_THREAD_EX: u32 = 0xB9;
    /// `NtCreateUserProcess` - create a user process
    pub const NT_CREATE_USER_PROCESS: u32 = 0xC1;
    /// `NtGetContextThread` - get thread context
    pub const NT_GET_CONTEXT_THREAD: u32 = 0xD4;
    /// `NtSetContextThread` - set thread context
    pub const NT_SET_CONTEXT_THREAD: u32 = 0xD5;
    /// `NtAccessCheck` - check access rights
    pub const NT_ACCESS_CHECK: u32 = 0x00;
    /// `NtResetEvent` - reset an event to non-signaled state
    pub const NT_RESET_EVENT: u32 = 0xD1;

    /// The table that every translator holds is the NT table.
    #[verifier::type_invariant]
    spec fn holds_nt_table(self) -> bool {
        self.table@ == nt_table()
    }

    /// The translator's table, as a map from number to name.
    pub closed spec fn table_view(&self) -> Map<u32, WindowsSyscallName> {
        self.table@
    }

    /// Create a new translator with the standard Windows NT syscall table.
    pub fn new() -> (t: Self)
        ensures
            t.table_view() == nt_table(),
    {
        let mut table = HashMap::new();
        table.insert(0x00, WindowsSyscallName::NtAccessCheck);
        table.insert(0x04, WindowsSyscallName::NtWaitForSingleObject);
        table.insert(0x05, WindowsSyscallName::NtWaitForMultipleObjects);
        table.insert(0x06, WindowsSyscallName::NtReadFile);
        table.insert(0x07, WindowsSyscallName::NtDeviceIoControlFile);
        table.insert(0x08, WindowsSyscallName::NtWriteFile);
        table.insert(0x09, WindowsSyscallName::NtFsControlFile);
        table.insert(0x0E, WindowsSyscallName::NtSetEvent);
        table.insert(0x0F, WindowsSyscallName::NtClose);
        table.insert(0x11, WindowsSyscallName::NtQueryInformationFile);
        table.insert(0x18, WindowsSyscallName::NtAllocateVirtualMemory);
        table.insert(0x19, WindowsSyscallName::NtQueryInformationProcess);
        table.insert(0x1E, WindowsSyscallName::NtFreeVirtualMemory);
        table.insert(0x23, WindowsSyscallName::NtQueryVirtualMemory);
        table.insert(0x24, WindowsSyscallName::NtQuerySystemInformation);
        table.insert(0x25, WindowsSyscallName::NtQueryInformationThread);
        table.insert(0x26, WindowsSyscallName::NtOpenProcess);
        table.insert(0x27, WindowsSyscallName::NtSetInformationFile);
        table.insert(0x28, WindowsSyscallName::NtMapViewOfSection);
        table.insert(0x2A, WindowsSyscallName::NtUnmapViewOfSection);
        table.insert(0x2C, WindowsSyscallName::NtTerminateProcess);
        table.insert(0x33, WindowsSyscallName::NtOpenFile);
        table.insert(0x34, WindowsSyscallName::NtDelayExecution);
        table.insert(0x36, WindowsSyscallName::NtSuspendThread);
        table.insert(0x3A, WindowsSyscallName::NtWriteVirtualMemory);
        table.insert(0x3D, WindowsSyscallName::NtReadVirtualMemory);
        table.insert(0x41, WindowsSyscallName::NtFlushBuffersFile);
        table.insert(0x46, WindowsSyscallName::NtYieldExecution);
        table.insert(0x48, WindowsSyscallName::NtCreateEvent);
        table.insert(0x49, WindowsSyscallName::NtOpenEvent);
        table.insert(0x4A, WindowsSyscallName::NtCreateSection);
        table.insert(0x4B, WindowsSyscallName::NtOpenSection);
        table.insert(0x4D, WindowsSyscallName::NtOpenThread);
        table.insert(0x4F, WindowsSyscallName::NtResumeThread);
        table.insert(0x50, WindowsSyscallName::NtProtectVirtualMemory);
        table.insert(0x53, WindowsSyscallName::NtTerminateThread);
        table.insert(0x55, WindowsSyscallName::NtCreateFile);
        table.insert(0x57, WindowsSyscallName::NtDuplicateObject);
        table.insert(0x5D, WindowsSyscallName::NtSetValueKey);
        table.insert(0x63, WindowsSyscallName::NtDeleteKey);
        table.insert(0x77, WindowsSyscallName::NtCreateKey);
        table.insert(0x78, WindowsSyscallName::NtOpenKey);
        table.insert(0x79, WindowsSyscallName::NtQueryValueKey);
        table.insert(0x91, WindowsSyscallName::NtQueryDirectoryFile);
        table.insert(0xA6, WindowsSyscallName::NtCreateThread);
        table.insert(0xB9, WindowsSyscallName::NtCreateThreadEx);
        table.insert(0xC1, WindowsSyscallName::NtCreateUserProcess);
        table.insert(0xD4, WindowsSyscallName::NtGetContextThread);
        table.insert(0xD5, WindowsSyscallName::NtSetContextThread);
        table.insert(0xD1, WindowsSyscallName::NtResetEvent);
        proof {
            reveal(nt_table);
        }
        assert(table@ =~= nt_table());
        Self { table }
    }

    /// Look up the syscall name for a given number.
    pub fn lookup_name(&self, number: u32) -> (r: Option<&WindowsSyscallName>)
        ensures
            r is None <==> nt_name_of(number) is None,
            r matches Some(name) ==> nt_name_of(number) == Some(*name),
    {
        proof {
            use_type_invariant(self);
            lemma_nt_table_entry(number);
        }
        self.table.get(&number)
    }

    /// Look up the syscall number for a given name.
    pub fn lookup_number(&self, name: WindowsSyscallName) -> (r: Option<u32>)
        ensures
            r == nt_number_of(name),
    {
        proof {
            use_type_invariant(self);
            lemma_nt_table_bijective();
        }
        match number_holding(&self.table, name) {
            Some(num) => {
                proof {
                    lemma_nt_table_entry(num);
                }
                Some(num)
            },
            None => {
                proof {
                    if let Some(k) = nt_number_of(name) {
                        lemma_nt_table_entry(k);
                        assert(self.table@.contains_key(k));
                    }
                }
                None
            },
        }
    }
}

/// Some number that `table` maps to `name`, or `None` when it maps no
/// number to `name`.
fn number_holding(table: &HashMap<u32, WindowsSyscallName>, name: WindowsSyscallName) -> (r: Option<u32>)
    ensures
        r matches Some(k) ==> table@.contains_key(k) && table@[k] == name,
        r is None ==> forall|k: u32| #[trigger] table@.contains_key(k) ==> table@[k] != name,
{
    let ghost m = table@;
    let ghost pairs = vstd::std_specs::hash::spec_hash_map_iter(table).remaining();
    assert(forall|j: int|
        0 <= j < pairs.len() ==> m.contains_key(*(#[trigger] pairs[j]).0) && m[*pairs[j].0]
            == *pairs[j].1);
    assert(forall|k: u32| #[trigger] m.contains_key(k) ==> pairs.contains((&k, &m[k])));
    for entry in it: table.iter()
        invariant
            it.seq() == pairs,
            m == table@,
            forall|j: int|
                0 <= j < pairs.len() ==> m.contains_key(*(#[trigger] pairs[j]).0) && m[*pairs[j].0]
                    == *pairs[j].1,
            forall|k: u32| #[trigger] m.contains_key(k) ==> pairs.contains((&k, &m[k])),
            forall|j: int| 0 <= j < it.index() ==> *(#[trigger] pairs[j]).1 != name,
    {
        let (num, n) = entry;
        if *n == name {
            return Some(*num);
        }
    }
    assert forall|k: u32| #[trigger] m.contains_key(k) implies m[k] != name by {
        let j = choose|j: int| 0 <= j < pairs.len() && pairs[j] == (&k, &m[k]);
        assert(*pairs[j].1 == m[k]);
    }
    None
}

impl Clone for WindowsNtSyscallTranslator {
    fn clone(&self) -> (t: Self)
        ensures
            t.table_view() == self.table_view(),
    {
        proof {
            use_type_invariant(self);
        }
        Self { table: self.table.clone() }
    }
}

impl Default for WindowsNtSyscallTranslator {
    fn default() -> (t: Self)
        ensures
            t.table_view() == nt_table(),
    {
        Self::new()
    }
}

/// What translating `syscall_num` with `args` through the NT table gives.
pub open spec fn nt_translation(syscall_num: u32, args: [u64; 6]) -> Result<
    WindowsSyscallResult,
    WindowsSyscallError,
> {
    match nt_name_of(syscall_num) {
        Some(name) => Ok(WindowsSyscallResult { name, number: syscall_num, args }),
        None => Err(WindowsSyscallError::UnknownSyscall(syscall_num)),
    }
}

impl WindowsSyscallTranslator for WindowsNtSyscallTranslator {
    /// A number in the table translates to its name with the number and
    /// arguments carried through; any other number is unknown.
    fn translate(&self, syscall_num: u32, args: [u64; 6]) -> (r: Result<
        WindowsSyscallResult,
        WindowsSyscallError,
    >)
        ensures
            r == nt_translation(syscall_num, args),
    {
        match self.lookup_name(syscall_num) {
            Some(name) => Ok(WindowsSyscallResult { name: *name, number: syscall_num, args }),
            None => Err(WindowsSyscallError::UnknownSyscall(syscall_num)),
        }
    }
}

/// Each named constant is the number that the table gives that call.
pub proof fn lemma_nt_constants_name_their_calls()
    ensures
        nt_name_of(WindowsNtSyscallTranslator::NT_CLOSE) == Some(WindowsSyscallName::NtClose),
        nt_name_of(WindowsNtSyscallTranslator::NT_CREATE_FILE) == Some(WindowsSyscallName::NtCreateFile),
        nt_name_of(WindowsNtSyscallTranslator::NT_CREATE_SECTION) == Some(WindowsSyscallName::NtCreateSection),
        nt_name_of(WindowsNtSyscallTranslator::NT_DEVICE_IO_CONTROL_FILE) == Some(WindowsSyscallName::NtDeviceIoControlFile),
        nt_name_of(WindowsNtSyscallTranslator::NT_DUPLICATE_OBJECT) == Some(WindowsSyscallName::NtDuplicateObject),
        nt_name_of(WindowsNtSyscallTranslator::NT_FLUSH_BUFFERS_FILE) == Some(WindowsSyscallName::NtFlushBuffersFile),
        nt_name_of(WindowsNtSyscallTranslator::NT_FREE_VIRTUAL_MEMORY) == Some(WindowsSyscallName::NtFreeVirtualMemory),
        nt_name_of(WindowsNtSyscallTranslator::NT_FS_CONTROL_FILE) == Some(WindowsSyscallName::NtFsControlFile),
        nt_name_of(WindowsNtSyscallTranslator::NT_MAP_VIEW_OF_SECTION) == Some(WindowsSyscallName::NtMapViewOfSection),
        nt_name_of(WindowsNtSyscallTranslator::NT_OPEN_FILE) == Some(WindowsSyscallName::NtOpenFile),
        nt_name_of(WindowsNtSyscallTranslator::NT_OPEN_PROCESS) == Some(WindowsSyscallName::NtOpenProcess),
        nt_name_of(WindowsNtSyscallTranslator::NT_OPEN_SECTION) == Some(WindowsSyscallName::NtOpenSection),
        nt_name_of(WindowsNtSyscallTranslator::NT_OPEN_THREAD) == Some(WindowsSyscallName::NtOpenThread),
        nt_name_of(WindowsNtSyscallTranslator::NT_PROTECT_VIRTUAL_MEMORY) == Some(WindowsSyscallName::NtProtectVirtualMemory),
        nt_name_of(WindowsNtSyscallTranslator::NT_QUERY_DIRECTORY_FILE) == Some(WindowsSyscallName::NtQueryDirectoryFile),
        nt_name_of(WindowsNtSyscallTranslator::NT_QUERY_INFORMATION_FILE) == Some(WindowsSyscallName::NtQueryInformationFile),
        nt_name_of(WindowsNtSyscallTranslator::NT_QUERY_INFORMATION_PROCESS) == Some(WindowsSyscallName::NtQueryInformationProcess),
        nt_name_of(WindowsNtSyscallTranslator::NT_QUERY_INFORMATION_THREAD) == Some(WindowsSyscallName::NtQueryInformationThread),
        nt_name_of(WindowsNtSyscallTranslator::NT_QUERY_SYSTEM_INFORMATION) == Some(WindowsSyscallName::NtQuerySystemInformation),
        nt_name_of(WindowsNtSyscallTranslator::NT_QUERY_VIRTUAL_MEMORY) == Some(WindowsSyscallName::NtQueryVirtualMemory),
        nt_name_of(WindowsNtSyscallTranslator::NT_READ_FILE) == Some(WindowsSyscallName::NtReadFile),
        nt_name_of(WindowsNtSyscallTranslator::NT_READ_VIRTUAL_MEMORY) == Some(WindowsSyscallName::NtReadVirtualMemory),
        nt_name_of(WindowsNtSyscallTranslator::NT_RESUME_THREAD) == Some(WindowsSyscallName::NtResumeThread),
        nt_name_of(WindowsNtSyscallTranslator::NT_SET_EVENT) == Some(WindowsSyscallName::NtSetEvent),
        nt_name_of(WindowsNtSyscallTranslator::NT_SET_INFORMATION_FILE) == Some(WindowsSyscallName::NtSetInformationFile),
        nt_name_of(WindowsNtSyscallTranslator::NT_SUSPEND_THREAD) == Some(WindowsSyscallName::NtSuspendThread),
        nt_name_of(WindowsNtSyscallTranslator::NT_TERMINATE_PROCESS) == Some(WindowsSyscallName::NtTerminateProcess),
        nt_name_of(WindowsNtSyscallTranslator::NT_TERMINATE_THREAD) == Some(WindowsSyscallName::NtTerminateThread),
        nt_name_of(WindowsNtSyscallTranslator::NT_UNMAP_VIEW_OF_SECTION) == Some(WindowsSyscallName::NtUnmapViewOfSection),
        nt_name_of(WindowsNtSyscallTranslator::NT_WAIT_FOR_MULTIPLE_OBJECTS) == Some(WindowsSyscallName::NtWaitForMultipleObjects),
        nt_name_of(WindowsNtSyscallTranslator::NT_WAIT_FOR_SINGLE_OBJECT) == Some(WindowsSyscallName::NtWaitForSingleObject),
        nt_name_of(WindowsNtSyscallTranslator::NT_WRITE_FILE) == Some(WindowsSyscallName::NtWriteFile),
        nt_name_of(WindowsNtSyscallTranslator::NT_WRITE_VIRTUAL_MEMORY) == Some(WindowsSyscallName::NtWriteVirtualMemory),
        nt_name_of(WindowsNtSyscallTranslator::NT_YIELD_EXECUTION) == Some(WindowsSyscallName::NtYieldExecution),
        nt_name_of(WindowsNtSyscallTranslator::NT_DELAY_EXECUTION) == Some(WindowsSyscallName::NtDelayExecution),
        nt_name_of(WindowsNtSyscallTranslator::NT_ALLOCATE_VIRTUAL_MEMORY) == Some(WindowsSyscallName::NtAllocateVirtualMemory),
        nt_name_of(WindowsNtSyscallTranslator::NT_CREATE_EVENT) == Some(WindowsSyscallName::NtCreateEvent),
        nt_name_of(WindowsNtSyscallTranslator::NT_OPEN_EVENT) == Some(WindowsSyscallName::NtOpenEvent),
        nt_name_of(WindowsNtSyscallTranslator::NT_OPEN_KEY) == Some(WindowsSyscallName::NtOpenKey),
        nt_name_of(WindowsNtSyscallTranslator::NT_CREATE_KEY) == Some(WindowsSyscallName::NtCreateKey),
        nt_name_of(WindowsNtSyscallTranslator::NT_QUERY_VALUE_KEY) == Some(WindowsSyscallName::NtQueryValueKey),
        nt_name_of(WindowsNtSyscallTranslator::NT_SET_VALUE_KEY) == Some(WindowsSyscallName::NtSetValueKey),
        nt_name_of(WindowsNtSyscallTranslator::NT_DELETE_KEY) == Some(WindowsSyscallName::NtDeleteKey),
        nt_name_of(WindowsNtSyscallTranslator::NT_CREATE_THREAD) == Some(WindowsSyscallName::NtCreateThread),
        nt_name_of(WindowsNtSyscallTranslator::NT_CREATE_THREAD_EX) == Some(WindowsSyscallName::NtCreateThreadEx),
        nt_name_of(WindowsNtSyscallTranslator::NT_CREATE_USER_PROCESS) == Some(WindowsSyscallName::NtCreateUserProcess),
        nt_name_of(WindowsNtSyscallTranslator::NT_GET_CONTEXT_THREAD) == Some(WindowsSyscallName::NtGetContextThread),
        nt_name_of(WindowsNtSyscallTranslator::NT_SET_CONTEXT_THREAD) == Some(WindowsSyscallName::NtSetContextThread),
        nt_name_of(WindowsNtSyscallTranslator::NT_ACCESS_CHECK) == Some(WindowsSyscallName::NtAccessCheck),
        nt_name_of(WindowsNtSyscallTranslator::NT_RESET_EVENT) == Some(WindowsSyscallName::NtResetEvent),
{
}

} // verus!
