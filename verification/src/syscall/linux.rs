//! Linux-specific syscall translator.
//!
//! Maps common Linux syscalls to their x86_64 numbers and provides a
//! [`SyscallTranslator`] implementation for the Linux/x86_64 platform.

use vstd::prelude::*;

use crate::syscall::{
    x86_name_of, x86_number_of, x86_table, x86_translation, SyscallError, SyscallName,
    SyscallResult, SyscallTranslator, X86_64SyscallTranslator,
};

verus! {

/// Linux-specific syscall translator backed by the x86_64 syscall table.
///
/// This is the primary entry-point for translating raw Linux syscall numbers
/// on the x86_64 architecture. It delegates to [`X86_64SyscallTranslator`]
/// internally so that both structs share the same canonical table.
#[derive(Debug)]
pub struct LinuxSyscallTranslator {
    inner: X86_64SyscallTranslator,
}

/// Common Linux x86_64 syscall numbers.
///
/// These constants are kept in sync with the table used by [`X86_64SyscallTranslator`].
impl LinuxSyscallTranslator {
    /// `read` - read from a file descriptor
    pub const READ: u64 = 0;
    /// `write` - write to a file descriptor
    pub const WRITE: u64 = 1;
    /// `open` - open and possibly create a file
    pub const OPEN: u64 = 2;
    /// `close` - close a file descriptor
    pub const CLOSE: u64 = 3;
    /// `stat` - get file status
    pub const STAT: u64 = 4;
    /// `fstat` - get file status
    pub const FSTAT: u64 = 5;
    /// `lstat` - get file status
    pub const LSTAT: u64 = 6;
    /// `poll` - wait for some event on a file descriptor
    pub const POLL: u64 = 7;
    /// `lseek` - reposition read/write file offset
    pub const LSEEK: u64 = 8;
    /// `mmap` - map files or devices into memory
    pub const MMAP: u64 = 9;
    /// `mprotect` - set protection on a region of memory
    pub const MPROTECT: u64 = 10;
    /// `munmap` - unmap memory
    pub const MUNMAP: u64 = 11;
    /// `brk` - change data segment size
    pub const BRK: u64 = 12;
    /// `ioctl` - control device
    pub const IOCTL: u64 = 16;
    /// `pread64` - read from a file descriptor at a given offset
    pub const PREAD64: u64 = 17;
    /// `pwrite64` - write to a file descriptor at a given offset
    pub const PWRITE64: u64 = 18;
    /// `access` - check user's permissions for a file
    pub const ACCESS: u64 = 21;
    /// `dup` - duplicate a file descriptor
    pub const DUP: u64 = 32;
    /// `dup2` - duplicate a file descriptor
    pub const DUP2: u64 = 33;
    /// `getpid` - get process identification
    pub const GETPID: u64 = 39;
    /// `socket` - create an endpoint for communication
    pub const SOCKET: u64 = 41;
    /// `connect` - initiate a connection on a socket
    pub const CONNECT: u64 = 42;
    /// `accept` - accept a connection on a socket
    pub const ACCEPT: u64 = 43;
    /// `sendto` - send a message on a socket
    pub const SENDTO: u64 = 44;
    /// `recvfrom` - receive a message from a socket
    pub const RECVFROM: u64 = 45;
    /// `bind` - bind a name to a socket
    pub const BIND: u64 = 49;
    /// `listen` - listen for connections on a socket
    pub const LISTEN: u64 = 50;
    /// `clone` - create a child process
    pub const CLONE: u64 = 56;
    /// `fork` - create a child process
    pub const FORK: u64 = 57;
    /// `execve` - execute program
    pub const EXECVE: u64 = 59;
    /// `exit` - terminate the calling process
    pub const EXIT: u64 = 60;
    /// `wait4` - wait for process to change state, BSD style
    pub const WAIT4: u64 = 61;
    /// `kill` - send signal to a process
    pub const KILL: u64 = 62;
    /// `fcntl` - manipulate file descriptor
    pub const FCNTL: u64 = 72;
    /// `fsync` - synchronize a file's in-core state with storage
    pub const FSYNC: u64 = 74;
    /// `getcwd` - get current working directory
    pub const GETCWD: u64 = 79;
    /// `chdir` - change working directory
    pub const CHDIR: u64 = 80;
    /// `rename` - change the name or location of a file
    pub const RENAME: u64 = 82;
    /// `mkdir` - create a directory
    pub const MKDIR: u64 = 83;
    /// `unlink` - delete a name and possibly the file it refers to
    pub const UNLINK: u64 = 87;
    /// `chmod` - change permissions of a file
    pub const CHMOD: u64 = 90;
    /// `getuid` - get user identity
    pub const GETUID: u64 = 102;
    /// `getgid` - get group identity
    pub const GETGID: u64 = 104;
    /// `geteuid` - get effective user identity
    pub const GETEUID: u64 = 107;
    /// `getegid` - get effective group identity
    pub const GETEGID: u64 = 108;
    /// `getppid` - get parent process ID
    pub const GETPPID: u64 = 110;
    /// `gettid` - get thread identification
    pub const GETTID: u64 = 186;
    /// `exit_group` - exit all threads in a process
    pub const EXIT_GROUP: u64 = 231;
    /// `openat` - open file relative to directory file descriptor
    pub const OPENAT: u64 = 257;
    /// `mkdirat` - create a directory relative to directory file descriptor
    pub const MKDIRAT: u64 = 258;
    /// `unlinkat` - delete a name and possibly the file it refers to
    pub const UNLINKAT: u64 = 263;
    /// `renameat2` - rename a file
    pub const RENAMEAT2: u64 = 316;
    /// `getrandom` - obtain a series of random bytes
    pub const GETRANDOM: u64 = 318;
    /// `memfd_create` - create an anonymous file
    pub const MEMFD_CREATE: u64 = 319;
    /// `copy_file_range` - copy a range of data from one file to another
    pub const COPY_FILE_RANGE: u64 = 326;
    /// `statx` - get file status (extended)
    pub const STATX: u64 = 332;
    /// `io_uring_setup` - setup a context for performing asynchronous I/O
    pub const IO_URING_SETUP: u64 = 425;
    /// `io_uring_enter` - initiate and/or complete asynchronous I/O
    pub const IO_URING_ENTER: u64 = 426;
    /// `io_uring_register` - register files or user buffers for asynchronous I/O
    pub const IO_URING_REGISTER: u64 = 427;

    /// The inner translator holds the x86_64 table.
    #[verifier::type_invariant]
    spec fn delegates_to_x86(self) -> bool {
        self.inner.table_view() == x86_table()
    }

    /// The table that this translator answers from.
    pub closed spec fn table_view(&self) -> Map<u64, SyscallName> {
        self.inner.table_view()
    }

    /// Create a new Linux-specific translator.
    pub fn new() -> (t: Self)
        ensures
            t.table_view() == x86_table(),
    {
        Self { inner: X86_64SyscallTranslator::new() }
    }

    /// Look up the syscall name for a given number.
    pub fn lookup_name(&self, number: u64) -> (r: Option<&SyscallName>)
        ensures
            r is None <==> x86_name_of(number) is None,
            r matches Some(name) ==> x86_name_of(number) == Some(*name),
    {
        self.inner.lookup_name(number)
    }

    /// Look up the syscall number for a given name.
    pub fn lookup_number(&self, name: SyscallName) -> (r: Option<u64>)
        ensures
            r == Some(x86_number_of(name)),
    {
        self.inner.lookup_number(name)
    }
}

impl Clone for LinuxSyscallTranslator {
    fn clone(&self) -> (t: Self)
        ensures
            t.table_view() == self.table_view(),
    {
        proof {
            use_type_invariant(self);
        }
        Self { inner: self.inner.clone() }
    }
}

impl Default for LinuxSyscallTranslator {
    fn default() -> (t: Self)
        ensures
            t.table_view() == x86_table(),
    {
        Self::new()
    }
}

impl SyscallTranslator for LinuxSyscallTranslator {
    /// Translates exactly as the x86_64 translator does.
    fn translate(&self, syscall_num: u64, args: [u64; 6]) -> (r: Result<SyscallResult, SyscallError>)
        ensures
            r == x86_translation(syscall_num, args),
    {
        self.inner.translate(syscall_num, args)
    }
}

/// Each named constant is the number that the x86_64 table gives that call.
pub proof fn lemma_linux_constants_name_their_calls()
    ensures
        x86_name_of(LinuxSyscallTranslator::READ) == Some(SyscallName::Read),
        x86_name_of(LinuxSyscallTranslator::WRITE) == Some(SyscallName::Write),
        x86_name_of(LinuxSyscallTranslator::OPEN) == Some(SyscallName::Open),
        x86_name_of(LinuxSyscallTranslator::CLOSE) == Some(SyscallName::Close),
        x86_name_of(LinuxSyscallTranslator::STAT) == Some(SyscallName::Stat),
        x86_name_of(LinuxSyscallTranslator::FSTAT) == Some(SyscallName::Fstat),
        x86_name_of(LinuxSyscallTranslator::LSTAT) == Some(SyscallName::Lstat),
        x86_name_of(LinuxSyscallTranslator::POLL) == Some(SyscallName::Poll),
        x86_name_of(LinuxSyscallTranslator::LSEEK) == Some(SyscallName::Lseek),
        x86_name_of(LinuxSyscallTranslator::MMAP) == Some(SyscallName::Mmap),
        x86_name_of(LinuxSyscallTranslator::MPROTECT) == Some(SyscallName::Mprotect),
        x86_name_of(LinuxSyscallTranslator::MUNMAP) == Some(SyscallName::Munmap),
        x86_name_of(LinuxSyscallTranslator::BRK) == Some(SyscallName::Brk),
        x86_name_of(LinuxSyscallTranslator::IOCTL) == Some(SyscallName::Ioctl),
        x86_name_of(LinuxSyscallTranslator::PREAD64) == Some(SyscallName::Pread64),
        x86_name_of(LinuxSyscallTranslator::PWRITE64) == Some(SyscallName::Pwrite64),
        x86_name_of(LinuxSyscallTranslator::ACCESS) == Some(SyscallName::Access),
        x86_name_of(LinuxSyscallTranslator::DUP) == Some(SyscallName::Dup),
        x86_name_of(LinuxSyscallTranslator::DUP2) == Some(SyscallName::Dup2),
        x86_name_of(LinuxSyscallTranslator::GETPID) == Some(SyscallName::Getpid),
        x86_name_of(LinuxSyscallTranslator::SOCKET) == Some(SyscallName::Socket),
        x86_name_of(LinuxSyscallTranslator::CONNECT) == Some(SyscallName::Connect),
        x86_name_of(LinuxSyscallTranslator::ACCEPT) == Some(SyscallName::Accept),
        x86_name_of(LinuxSyscallTranslator::SENDTO) == Some(SyscallName::Sendto),
        x86_name_of(LinuxSyscallTranslator::RECVFROM) == Some(SyscallName::Recvfrom),
        x86_name_of(LinuxSyscallTranslator::BIND) == Some(SyscallName::Bind),
        x86_name_of(LinuxSyscallTranslator::LISTEN) == Some(SyscallName::Listen),
        x86_name_of(LinuxSyscallTranslator::CLONE) == Some(SyscallName::Clone),
        x86_name_of(LinuxSyscallTranslator::FORK) == Some(SyscallName::Fork),
        x86_name_of(LinuxSyscallTranslator::EXECVE) == Some(SyscallName::Execve),
        x86_name_of(LinuxSyscallTranslator::EXIT) == Some(SyscallName::Exit),
        x86_name_of(LinuxSyscallTranslator::WAIT4) == Some(SyscallName::Wait4),
        x86_name_of(LinuxSyscallTranslator::KILL) == Some(SyscallName::Kill),
        x86_name_of(LinuxSyscallTranslator::FCNTL) == Some(SyscallName::Fcntl),
        x86_name_of(LinuxSyscallTranslator::FSYNC) == Some(SyscallName::Fsync),
        x86_name_of(LinuxSyscallTranslator::GETCWD) == Some(SyscallName::Getcwd),
        x86_name_of(LinuxSyscallTranslator::CHDIR) == Some(SyscallName::Chdir),
        x86_name_of(LinuxSyscallTranslator::RENAME) == Some(SyscallName::Rename),
        x86_name_of(LinuxSyscallTranslator::MKDIR) == Some(SyscallName::Mkdir),
        x86_name_of(LinuxSyscallTranslator::UNLINK) == Some(SyscallName::Unlink),
        x86_name_of(LinuxSyscallTranslator::CHMOD) == Some(SyscallName::Chmod),
        x86_name_of(LinuxSyscallTranslator::GETUID) == Some(SyscallName::Getuid),
        x86_name_of(LinuxSyscallTranslator::GETGID) == Some(SyscallName::Getgid),
        x86_name_of(LinuxSyscallTranslator::GETEUID) == Some(SyscallName::Geteuid),
        x86_name_of(LinuxSyscallTranslator::GETEGID) == Some(SyscallName::Getegid),
        x86_name_of(LinuxSyscallTranslator::GETPPID) == Some(SyscallName::Getppid),
        x86_name_of(LinuxSyscallTranslator::GETTID) == Some(SyscallName::Gettid),
        x86_name_of(LinuxSyscallTranslator::EXIT_GROUP) == Some(SyscallName::ExitGroup),
        x86_name_of(LinuxSyscallTranslator::OPENAT) == Some(SyscallName::Openat),
        x86_name_of(LinuxSyscallTranslator::MKDIRAT) == Some(SyscallName::Mkdirat),
        x86_name_of(LinuxSyscallTranslator::UNLINKAT) == Some(SyscallName::Unlinkat),
        x86_name_of(LinuxSyscallTranslator::RENAMEAT2) == Some(SyscallName::Renameat2),
        x86_name_of(LinuxSyscallTranslator::GETRANDOM) == Some(SyscallName::Getrandom),
        x86_name_of(LinuxSyscallTranslator::MEMFD_CREATE) == Some(SyscallName::MemfdCreate),
        x86_name_of(LinuxSyscallTranslator::COPY_FILE_RANGE) == Some(SyscallName::CopyFileRange),
        x86_name_of(LinuxSyscallTranslator::STATX) == Some(SyscallName::Statx),
        x86_name_of(LinuxSyscallTranslator::IO_URING_SETUP) == Some(SyscallName::IoUringSetup),
        x86_name_of(LinuxSyscallTranslator::IO_URING_ENTER) == Some(SyscallName::IoUringEnter),
        x86_name_of(LinuxSyscallTranslator::IO_URING_REGISTER) == Some(SyscallName::IoUringRegister),
{
}

} // verus!
