//! Syscall translation layer: Linux syscall names, the x86_64 syscall
//! table, and the translators built on it.

use std::collections::HashMap;
use vstd::prelude::*;
use vstd::std_specs::iter::IteratorSpec;

use crate::traits::SyscallHandler;

pub mod linux;
pub mod plugin;
pub mod windows;

verus! {

broadcast use vstd::std_specs::hash::group_hash_axioms;

/// Handler for Linux syscalls that accepts every call and reports success.
pub struct LinuxSyscallHandler;

impl SyscallHandler for LinuxSyscallHandler {
    /// Every syscall, whatever its number and arguments, yields `Ok(0)`.
    fn handle(&self, _number: u32, _args: &[u64]) -> (r: Result<u64, String>)
        ensures
            r == Ok::<u64, String>(0),
    {
        Ok(0)
    }
}

/// Error returned when a syscall translation fails.
#[derive(Debug, Clone, PartialEq, Eq, Structural)]
pub enum SyscallError {
    UnknownSyscall(u64),
    InvalidArgument,
}

impl SyscallError {
    /// The human-readable message of the error.
    pub fn to_string(&self) -> (s: String)
        ensures
            s@ == self.message(),
    {
        match self {
            SyscallError::UnknownSyscall(num) => {
                let mut s = String::from_str("Unknown syscall number: ");
                let digits = crate::text::decimal_u64(*num);
                s.append(digits.as_str());
                s
            },
            SyscallError::InvalidArgument => String::from_str("Invalid argument"),
        }
    }

    /// The text that [`SyscallError::to_string`] produces.
    pub open spec fn message(&self) -> Seq<char> {
        match self {
            SyscallError::UnknownSyscall(num) => "Unknown syscall number: "@ + crate::text::spec_decimal(
                *num as nat,
            ),
            SyscallError::InvalidArgument => "Invalid argument"@,
        }
    }
}

/// Named identifier for a Linux syscall.
#[derive(Debug, Clone, Copy, PartialEq, Eq, Hash, Structural)]
pub enum SyscallName {
    Read,
    Write,
    Open,
    Close,
    Stat,
    Fstat,
    Lstat,
    Poll,
    Lseek,
    Mmap,
    Mprotect,
    Munmap,
    Brk,
    RtSigaction,
    RtSigprocmask,
    RtSigreturn,
    Ioctl,
    Pread64,
    Pwrite64,
    Readv,
    Writev,
    Access,
    Pipe,
    Select,
    SchedYield,
    Mremap,
    Msync,
    Mincore,
    Madvise,
    Shmget,
    Shmat,
    Shmctl,
    Dup,
    Dup2,
    Pause,
    Nanosleep,
    Getitimer,
    Alarm,
    Setitimer,
    Getpid,
    Sendfile,
    Socket,
    Connect,
    Accept,
    Sendto,
    Recvfrom,
    Sendmsg,
    Recvmsg,
    Shutdown,
    Bind,
    Listen,
    Getsockname,
    Getpeername,
    Socketpair,
    Setsockopt,
    Getsockopt,
    Clone,
    Fork,
    Vfork,
    Execve,
    Exit,
    Wait4,
    Kill,
    Uname,
    Semget,
    Semop,
    Semctl,
    Shmdt,
    Msgget,
    Msgsnd,
    Msgrcv,
    Msgctl,
    Fcntl,
    Flock,
    Fsync,
    Fdatasync,
    Truncate,
    Ftruncate,
    Getdents,
    Getcwd,
    Chdir,
    Fchdir,
    Rename,
    Mkdir,
    Rmdir,
    Creat,
    Link,
    Unlink,
    Symlink,
    Readlink,
    Chmod,
    Fchmod,
    Chown,
    Fchown,
    Lchown,
    Umask,
    Gettimeofday,
    Getrlimit,
    Getrusage,
    Sysinfo,
    Times,
    Ptrace,
    Getuid,
    Syslog,
    Getgid,
    Setuid,
    Setgid,
    Geteuid,
    Getegid,
    Setpgid,
    Getppid,
    Getpgrp,
    Setsid,
    Setreuid,
    Setregid,
    Getgroups,
    Setgroups,
    Setresuid,
    Getresuid,
    Setresgid,
    Getresgid,
    Getpgid,
    Setfsuid,
    Setfsgid,
    Getsid,
    Capget,
    Capset,
    RtSigpending,
    RtSigtimedwait,
    RtSigqueueinfo,
    RtSigsuspend,
    Sigaltstack,
    Utime,
    Mknod,
    Statfs,
    Fstatfs,
    Getpriority,
    Setpriority,
    Mlock,
    Munlock,
    Mlockall,
    Munlockall,
    Vhangup,
    ModifyLdt,
    PivotRoot,
    Prctl,
    ArchPrctl,
    Adjtimex,
    Setrlimit,
    Chroot,
    Sync,
    Acct,
    Settimeofday,
    Mount,
    Umount2,
    Swapon,
    Swapoff,
    Reboot,
    Sethostname,
    Setdomainname,
    Iopl,
    Ioperm,
    Gettid,
    Readahead,
    Setxattr,
    Lsetxattr,
    Fsetxattr,
    Getxattr,
    Lgetxattr,
    Fgetxattr,
    Listxattr,
    Llistxattr,
    Flistxattr,
    Removexattr,
    Lremovexattr,
    Fremovexattr,
    Tkill,
    Time,
    Futex,
    SchedSetaffinity,
    SchedGetaffinity,
    SetThreadArea,
    IoSetup,
    IoDestroy,
    IoGetevents,
    IoSubmit,
    IoCancel,
    GetThreadArea,
    LookupDcookie,
    EpollCreate,
    RemapFilePages,
    Getdents64,
    SetTidAddress,
    RestartSyscall,
    Semtimedop,
    Fadvise64,
    TimerCreate,
    TimerSettime,
    TimerGettime,
    TimerGetoverrun,
    TimerDelete,
    ClockSettime,
    ClockGettime,
    ClockGetres,
    ClockNanosleep,
    ExitGroup,
    EpollWait,
    EpollCtl,
    Tgkill,
    Utimes,
    Mbind,
    SetMempolicy,
    GetMempolicy,
    MqOpen,
    MqTimedreceive,
    MqTimedsend,
    MqNotify,
    MqGetsetattr,
    KexecLoad,
    Waitid,
    AddKey,
    RequestKey,
    Keyctl,
    IoprioSet,
    IoprioGet,
    InotifyInit,
    InotifyAddWatch,
    InotifyRmWatch,
    MigratePages,
    Openat,
    Mkdirat,
    Mknodat,
    Fchownat,
    Futimesat,
    Newfstatat,
    Unlinkat,
    Renameat,
    Linkat,
    Symlinkat,
    Readlinkat,
    Fchmodat,
    Faccessat,
    Pselect6,
    Ppoll,
    Unshare,
    SetRobustList,
    GetRobustList,
    Splice,
    Tee,
    SyncFileRange,
    Vmsplice,
    MovePages,
    Utimensat,
    EpollPwait,
    Signalfd,
    TimerfdCreate,
    Eventfd,
    Fallocate,
    TimerfdSettime,
    TimerfdGettime,
    Accept4,
    Signalfd4,
    Eventfd2,
    EpollCreate1,
    Dup3,
    Pipe2,
    InotifyInit1,
    Preadv,
    Pwritev,
    RtTgsigqueueinfo,
    PerfEventOpen,
    Recvmmsg,
    FanotifyInit,
    FanotifyMark,
    Prlimit64,
    NameToHandleAt,
    OpenByHandleAt,
    ClockAdjtime,
    Syncfs,
    Sendmmsg,
    Setns,
    Getcpu,
    ProcessVmReadv,
    ProcessVmWritev,
    Kcmp,
    FinitModule,
    SchedSetattr,
    SchedGetattr,
    Renameat2,
    Seccomp,
    Getrandom,
    MemfdCreate,
    KexecFileLoad,
    Bpf,
    Execveat,
    Userfaultfd,
    Membarrier,
    Mlock2,
    CopyFileRange,
    Preadv2,
    Pwritev2,
    PkeyMprotect,
    PkeyAlloc,
    PkeyFree,
    Statx,
    IoPgetevents,
    Rseq,
    PidfdSendSignal,
    IoUringSetup,
    IoUringEnter,
    IoUringRegister,
}

/// Result of a successful syscall translation.
#[derive(Debug, Clone, PartialEq, Eq)]
pub struct SyscallResult {
    pub name: SyscallName,
    pub number: u64,
    pub args: [u64; 6],
}

/// Trait for translating raw syscall numbers into structured results.
pub trait SyscallTranslator {
    fn translate(&self, syscall_num: u64, args: [u64; 6]) -> Result<SyscallResult, SyscallError>;
}

/// The name that the x86_64 Linux syscall table gives to `number`, if any.
pub open spec fn x86_name_of(number: u64) -> Option<SyscallName> {
    if number < 32 {
        x86_name_of_0(number)
    } else if number < 64 {
        x86_name_of_1(number)
    } else if number < 96 {
        x86_name_of_2(number)
    } else if number < 128 {
        x86_name_of_3(number)
    } else if number < 172 {
        x86_name_of_4(number)
    } else if number < 218 {
        x86_name_of_5(number)
    } else if number < 251 {
        x86_name_of_6(number)
    } else if number < 284 {
        x86_name_of_7(number)
    } else if number < 316 {
        x86_name_of_8(number)
    } else if number < 428 {
        x86_name_of_9(number)
    } else {
        None
    }
}

/// Part 0 of the x86_64 table: numbers from 0 below 32.
pub open spec fn x86_name_of_0(number: u64) -> Option<SyscallName> {
    match number {
        0 => Some(SyscallName::Read),
        1 => Some(SyscallName::Write),
        2 => Some(SyscallName::Open),
        3 => Some(SyscallName::Close),
        4 => Some(SyscallName::Stat),
        5 => Some(SyscallName::Fstat),
        6 => Some(SyscallName::Lstat),
        7 => Some(SyscallName::Poll),
        8 => Some(SyscallName::Lseek),
        9 => Some(SyscallName::Mmap),
        10 => Some(SyscallName::Mprotect),
        11 => Some(SyscallName::Munmap),
        12 => Some(SyscallName::Brk),
        13 => Some(SyscallName::RtSigaction),
        14 => Some(SyscallName::RtSigprocmask),
        15 => Some(SyscallName::RtSigreturn),
        16 => Some(SyscallName::Ioctl),
        17 => Some(SyscallName::Pread64),
        18 => Some(SyscallName::Pwrite64),
        19 => Some(SyscallName::Readv),
        20 => Some(SyscallName::Writev),
        21 => Some(SyscallName::Access),
        22 => Some(SyscallName::Pipe),
        23 => Some(SyscallName::Select),
        24 => Some(SyscallName::SchedYield),
        25 => Some(SyscallName::Mremap),
        26 => Some(SyscallName::Msync),
        27 => Some(SyscallName::Mincore),
        28 => Some(SyscallName::Madvise),
        29 => Some(SyscallName::Shmget),
        30 => Some(SyscallName::Shmat),
        31 => Some(SyscallName::Shmctl),
        _ => None,
    }
}

/// Part 1 of the x86_64 table: numbers from 32 below 64.
pub open spec fn x86_name_of_1(number: u64) -> Option<SyscallName> {
    match number {
        32 => Some(SyscallName::Dup),
        33 => Some(SyscallName::Dup2),
        34 => Some(SyscallName::Pause),
        35 => Some(SyscallName::Nanosleep),
        36 => Some(SyscallName::Getitimer),
        37 => Some(SyscallName::Alarm),
        38 => Some(SyscallName::Setitimer),
        39 => Some(SyscallName::Getpid),
        40 => Some(SyscallName::Sendfile),
        41 => Some(SyscallName::Socket),
        42 => Some(SyscallName::Connect),
        43 => Some(SyscallName::Accept),
        44 => Some(SyscallName::Sendto),
        45 => Some(SyscallName::Recvfrom),
        46 => Some(SyscallName::Sendmsg),
        47 => Some(SyscallName::Recvmsg),
        48 => Some(SyscallName::Shutdown),
        49 => Some(SyscallName::Bind),
        50 => Some(SyscallName::Listen),
        51 => Some(SyscallName::Getsockname),
        52 => Some(SyscallName::Getpeername),
        53 => Some(SyscallName::Socketpair),
        54 => Some(SyscallName::Setsockopt),
        55 => Some(SyscallName::Getsockopt),
        56 => Some(SyscallName::Clone),
        57 => Some(SyscallName::Fork),
        58 => Some(SyscallName::Vfork),
        59 => Some(SyscallName::Execve),
        60 => Some(SyscallName::Exit),
        61 => Some(SyscallName::Wait4),
        62 => Some(SyscallName::Kill),
        63 => Some(SyscallName::Uname),
        _ => None,
    }
}

/// Part 2 of the x86_64 table: numbers from 64 below 96.
pub open spec fn x86_name_of_2(number: u64) -> Option<SyscallName> {
    match number {
        64 => Some(SyscallName::Semget),
        65 => Some(SyscallName::Semop),
        66 => Some(SyscallName::Semctl),
        67 => Some(SyscallName::Shmdt),
        68 => Some(SyscallName::Msgget),
        69 => Some(SyscallName::Msgsnd),
        70 => Some(SyscallName::Msgrcv),
        71 => Some(SyscallName::Msgctl),
        72 => Some(SyscallName::Fcntl),
        73 => Some(SyscallName::Flock),
        74 => Some(SyscallName::Fsync),
        75 => Some(SyscallName::Fdatasync),
        76 => Some(SyscallName::Truncate),
        77 => Some(SyscallName::Ftruncate),
        78 => Some(SyscallName::Getdents),
        79 => Some(SyscallName::Getcwd),
        80 => Some(SyscallName::Chdir),
        81 => Some(SyscallName::Fchdir),
        82 => Some(SyscallName::Rename),
        83 => Some(SyscallName::Mkdir),
        84 => Some(SyscallName::Rmdir),
        85 => Some(SyscallName::Creat),
        86 => Some(SyscallName::Link),
        87 => Some(SyscallName::Unlink),
        88 => Some(SyscallName::Symlink),
        89 => Some(SyscallName::Readlink),
        90 => Some(SyscallName::Chmod),
        91 => Some(SyscallName::Fchmod),
        92 => Some(SyscallName::Chown),
        93 => Some(SyscallName::Fchown),
        94 => Some(SyscallName::Lchown),
        95 => Some(SyscallName::Umask),
        _ => None,
    }
}

/// Part 3 of the x86_64 table: numbers from 96 below 128.
pub open spec fn x86_name_of_3(number: u64) -> Option<SyscallName> {
    match number {
        96 => Some(SyscallName::Gettimeofday),
        97 => Some(SyscallName::Getrlimit),
        98 => Some(SyscallName::Getrusage),
        99 => Some(SyscallName::Sysinfo),
        100 => Some(SyscallName::Times),
        101 => Some(SyscallName::Ptrace),
        102 => Some(SyscallName::Getuid),
        103 => Some(SyscallName::Syslog),
        104 => Some(SyscallName::Getgid),
        105 => Some(SyscallName::Setuid),
        106 => Some(SyscallName::Setgid),
        107 => Some(SyscallName::Geteuid),
        108 => Some(SyscallName::Getegid),
        109 => Some(SyscallName::Setpgid),
        110 => Some(SyscallName::Getppid),
        111 => Some(SyscallName::Getpgrp),
        112 => Some(SyscallName::Setsid),
        113 => Some(SyscallName::Setreuid),
        114 => Some(SyscallName::Setregid),
        115 => Some(SyscallName::Getgroups),
        116 => Some(SyscallName::Setgroups),
        117 => Some(SyscallName::Setresuid),
        118 => Some(SyscallName::Getresuid),
        119 => Some(SyscallName::Setresgid),
        120 => Some(SyscallName::Getresgid),
        121 => Some(SyscallName::Getpgid),
        122 => Some(SyscallName::Setfsuid),
        123 => Some(SyscallName::Setfsgid),
        124 => Some(SyscallName::Getsid),
        125 => Some(SyscallName::Capget),
        126 => Some(SyscallName::Capset),
        127 => Some(SyscallName::RtSigpending),
        _ => None,
    }
}

/// Part 4 of the x86_64 table: numbers from 128 below 172.
pub open spec fn x86_name_of_4(number: u64) -> Option<SyscallName> {
    match number {
        128 => Some(SyscallName::RtSigtimedwait),
        129 => Some(SyscallName::RtSigqueueinfo),
        130 => Some(SyscallName::RtSigsuspend),
        131 => Some(SyscallName::Sigaltstack),
        132 => Some(SyscallName::Utime),
        133 => Some(SyscallName::Mknod),
        137 => Some(SyscallName::Statfs),
        138 => Some(SyscallName::Fstatfs),
        140 => Some(SyscallName::Getpriority),
        141 => Some(SyscallName::Setpriority),
        149 => Some(SyscallName::Mlock),
        150 => Some(SyscallName::Munlock),
        151 => Some(SyscallName::Mlockall),
        152 => Some(SyscallName::Munlockall),
        153 => Some(SyscallName::Vhangup),
        154 => Some(SyscallName::ModifyLdt),
        155 => Some(SyscallName::PivotRoot),
        157 => Some(SyscallName::Prctl),
        158 => Some(SyscallName::ArchPrctl),
        159 => Some(SyscallName::Adjtimex),
        160 => Some(SyscallName::Setrlimit),
        161 => Some(SyscallName::Chroot),
        162 => Some(SyscallName::Sync),
        163 => Some(SyscallName::Acct),
        164 => Some(SyscallName::Settimeofday),
        165 => Some(SyscallName::Mount),
        166 => Some(SyscallName::Umount2),
        167 => Some(SyscallName::Swapon),
        168 => Some(SyscallName::Swapoff),
        169 => Some(SyscallName::Reboot),
        170 => Some(SyscallName::Sethostname),
        171 => Some(SyscallName::Setdomainname),
        _ => None,
    }
}

/// Part 5 of the x86_64 table: numbers from 172 below 218.
pub open spec fn x86_name_of_5(number: u64) -> Option<SyscallName> {
    match number {
        172 => Some(SyscallName::Iopl),
        173 => Some(SyscallName::Ioperm),
        186 => Some(SyscallName::Gettid),
        187 => Some(SyscallName::Readahead),
        188 => Some(SyscallName::Setxattr),
        189 => Some(SyscallName::Lsetxattr),
        190 => Some(SyscallName::Fsetxattr),
        191 => Some(SyscallName::Getxattr),
        192 => Some(SyscallName::Lgetxattr),
        193 => Some(SyscallName::Fgetxattr),
        194 => Some(SyscallName::Listxattr),
        195 => Some(SyscallName::Llistxattr),
        196 => Some(SyscallName::Flistxattr),
        197 => Some(SyscallName::Removexattr),
        198 => Some(SyscallName::Lremovexattr),
        199 => Some(SyscallName::Fremovexattr),
        200 => Some(SyscallName::Tkill),
        201 => Some(SyscallName::Time),
        202 => Some(SyscallName::Futex),
        203 => Some(SyscallName::SchedSetaffinity),
        204 => Some(SyscallName::SchedGetaffinity),
        205 => Some(SyscallName::SetThreadArea),
        206 => Some(SyscallName::IoSetup),
        207 => Some(SyscallName::IoDestroy),
        208 => Some(SyscallName::IoGetevents),
        209 => Some(SyscallName::IoSubmit),
        210 => Some(SyscallName::IoCancel),
        211 => Some(SyscallName::GetThreadArea),
        212 => Some(SyscallName::LookupDcookie),
        213 => Some(SyscallName::EpollCreate),
        216 => Some(SyscallName::RemapFilePages),
        217 => Some(SyscallName::Getdents64),
        _ => None,
    }
}

/// Part 6 of the x86_64 table: numbers from 218 below 251.
pub open spec fn x86_name_of_6(number: u64) -> Option<SyscallName> {
    match number {
        218 => Some(SyscallName::SetTidAddress),
        219 => Some(SyscallName::RestartSyscall),
        220 => Some(SyscallName::Semtimedop),
        221 => Some(SyscallName::Fadvise64),
        222 => Some(SyscallName::TimerCreate),
        223 => Some(SyscallName::TimerSettime),
        224 => Some(SyscallName::TimerGettime),
        225 => Some(SyscallName::TimerGetoverrun),
        226 => Some(SyscallName::TimerDelete),
        227 => Some(SyscallName::ClockSettime),
        228 => Some(SyscallName::ClockGettime),
        229 => Some(SyscallName::ClockGetres),
        230 => Some(SyscallName::ClockNanosleep),
        231 => Some(SyscallName::ExitGroup),
        232 => Some(SyscallName::EpollWait),
        233 => Some(SyscallName::EpollCtl),
        234 => Some(SyscallName::Tgkill),
        235 => Some(SyscallName::Utimes),
        237 => Some(SyscallName::Mbind),
        238 => Some(SyscallName::SetMempolicy),
        239 => Some(SyscallName::GetMempolicy),
        240 => Some(SyscallName::MqOpen),
        241 => Some(SyscallName::MqTimedreceive),
        242 => Some(SyscallName::MqTimedsend),
        243 => Some(SyscallName::MqNotify),
        244 => Some(SyscallName::MqGetsetattr),
        245 => Some(SyscallName::KexecLoad),
        246 => Some(SyscallName::Waitid),
        247 => Some(SyscallName::AddKey),
        248 => Some(SyscallName::RequestKey),
        249 => Some(SyscallName::Keyctl),
        250 => Some(SyscallName::IoprioSet),
        _ => None,
    }
}

/// Part 7 of the x86_64 table: numbers from 251 below 284.
pub open spec fn x86_name_of_7(number: u64) -> Option<SyscallName> {
    match number {
        251 => Some(SyscallName::IoprioGet),
        252 => Some(SyscallName::InotifyInit),
        253 => Some(SyscallName::InotifyAddWatch),
        254 => Some(SyscallName::InotifyRmWatch),
        256 => Some(SyscallName::MigratePages),
        257 => Some(SyscallName::Openat),
        258 => Some(SyscallName::Mkdirat),
        259 => Some(SyscallName::Mknodat),
        260 => Some(SyscallName::Fchownat),
        261 => Some(SyscallName::Futimesat),
        262 => Some(SyscallName::Newfstatat),
        263 => Some(SyscallName::Unlinkat),
        264 => Some(SyscallName::Renameat),
        265 => Some(SyscallName::Linkat),
        266 => Some(SyscallName::Symlinkat),
        267 => Some(SyscallName::Readlinkat),
        268 => Some(SyscallName::Fchmodat),
        269 => Some(SyscallName::Faccessat),
        270 => Some(SyscallName::Pselect6),
        271 => Some(SyscallName::Ppoll),
        272 => Some(SyscallName::Unshare),
        273 => Some(SyscallName::SetRobustList),
        274 => Some(SyscallName::GetRobustList),
        275 => Some(SyscallName::Splice),
        276 => Some(SyscallName::Tee),
        277 => Some(SyscallName::SyncFileRange),
        278 => Some(SyscallName::Vmsplice),
        279 => Some(SyscallName::MovePages),
        280 => Some(SyscallName::Utimensat),
        281 => Some(SyscallName::EpollPwait),
        282 => Some(SyscallName::Signalfd),
        283 => Some(SyscallName::TimerfdCreate),
        _ => None,
    }
}

/// Part 8 of the x86_64 table: numbers from 284 below 316.
pub open spec fn x86_name_of_8(number: u64) -> Option<SyscallName> {
    match number {
        284 => Some(SyscallName::Eventfd),
        285 => Some(SyscallName::Fallocate),
        286 => Some(SyscallName::TimerfdSettime),
        287 => Some(SyscallName::TimerfdGettime),
        288 => Some(SyscallName::Accept4),
        289 => Some(SyscallName::Signalfd4),
        290 => Some(SyscallName::Eventfd2),
        291 => Some(SyscallName::EpollCreate1),
        292 => Some(SyscallName::Dup3),
        293 => Some(SyscallName::Pipe2),
        294 => Some(SyscallName::InotifyInit1),
        295 => Some(SyscallName::Preadv),
        296 => Some(SyscallName::Pwritev),
        297 => Some(SyscallName::RtTgsigqueueinfo),
        298 => Some(SyscallName::PerfEventOpen),
        299 => Some(SyscallName::Recvmmsg),
        300 => Some(SyscallName::FanotifyInit),
        301 => Some(SyscallName::FanotifyMark),
        302 => Some(SyscallName::Prlimit64),
        303 => Some(SyscallName::NameToHandleAt),
        304 => Some(SyscallName::OpenByHandleAt),
        305 => Some(SyscallName::ClockAdjtime),
        306 => Some(SyscallName::Syncfs),
        307 => Some(SyscallName::Sendmmsg),
        308 => Some(SyscallName::Setns),
        309 => Some(SyscallName::Getcpu),
        310 => Some(SyscallName::ProcessVmReadv),
        311 => Some(SyscallName::ProcessVmWritev),
        312 => Some(SyscallName::Kcmp),
        313 => Some(SyscallName::FinitModule),
        314 => Some(SyscallName::SchedSetattr),
        315 => Some(SyscallName::SchedGetattr),
        _ => None,
    }
}

/// Part 9 of the x86_64 table: numbers from 316 below 428.
pub open spec fn x86_name_of_9(number: u64) -> Option<SyscallName> {
    match number {
        316 => Some(SyscallName::Renameat2),
        317 => Some(SyscallName::Seccomp),
        318 => Some(SyscallName::Getrandom),
        319 => Some(SyscallName::MemfdCreate),
        320 => Some(SyscallName::KexecFileLoad),
        321 => Some(SyscallName::Bpf),
        322 => Some(SyscallName::Execveat),
        323 => Some(SyscallName::Userfaultfd),
        324 => Some(SyscallName::Membarrier),
        325 => Some(SyscallName::Mlock2),
        326 => Some(SyscallName::CopyFileRange),
        327 => Some(SyscallName::Preadv2),
        328 => Some(SyscallName::Pwritev2),
        329 => Some(SyscallName::PkeyMprotect),
        330 => Some(SyscallName::PkeyAlloc),
        331 => Some(SyscallName::PkeyFree),
        332 => Some(SyscallName::Statx),
        333 => Some(SyscallName::IoPgetevents),
        334 => Some(SyscallName::Rseq),
        424 => Some(SyscallName::PidfdSendSignal),
        425 => Some(SyscallName::IoUringSetup),
        426 => Some(SyscallName::IoUringEnter),
        427 => Some(SyscallName::IoUringRegister),
        _ => None,
    }
}

/// The entries of the x86_64 table below `bound`.
pub open spec fn x86_table_below(bound: u64) -> Map<u64, SyscallName> {
    Map::new(|n: u64| n < bound && x86_name_of(n) is Some, |n: u64| x86_name_of(n)->0)
}

/// The x86_64 Linux syscall number of `name`.
pub open spec fn x86_number_of(name: SyscallName) -> u64 {
    match name {
        SyscallName::Read => 0,
        SyscallName::Write => 1,
        SyscallName::Open => 2,
        SyscallName::Close => 3,
        SyscallName::Stat => 4,
        SyscallName::Fstat => 5,
        SyscallName::Lstat => 6,
        SyscallName::Poll => 7,
        SyscallName::Lseek => 8,
        SyscallName::Mmap => 9,
        SyscallName::Mprotect => 10,
        SyscallName::Munmap => 11,
        SyscallName::Brk => 12,
        SyscallName::RtSigaction => 13,
        SyscallName::RtSigprocmask => 14,
        SyscallName::RtSigreturn => 15,
        SyscallName::Ioctl => 16,
        SyscallName::Pread64 => 17,
        SyscallName::Pwrite64 => 18,
        SyscallName::Readv => 19,
        SyscallName::Writev => 20,
        SyscallName::Access => 21,
        SyscallName::Pipe => 22,
        SyscallName::Select => 23,
        SyscallName::SchedYield => 24,
        SyscallName::Mremap => 25,
        SyscallName::Msync => 26,
        SyscallName::Mincore => 27,
        SyscallName::Madvise => 28,
        SyscallName::Shmget => 29,
        SyscallName::Shmat => 30,
        SyscallName::Shmctl => 31,
        SyscallName::Dup => 32,
        SyscallName::Dup2 => 33,
        SyscallName::Pause => 34,
        SyscallName::Nanosleep => 35,
        SyscallName::Getitimer => 36,
        SyscallName::Alarm => 37,
        SyscallName::Setitimer => 38,
        SyscallName::Getpid => 39,
        SyscallName::Sendfile => 40,
        SyscallName::Socket => 41,
        SyscallName::Connect => 42,
        SyscallName::Accept => 43,
        SyscallName::Sendto => 44,
        SyscallName::Recvfrom => 45,
        SyscallName::Sendmsg => 46,
        SyscallName::Recvmsg => 47,
        SyscallName::Shutdown => 48,
        SyscallName::Bind => 49,
        SyscallName::Listen => 50,
        SyscallName::Getsockname => 51,
        SyscallName::Getpeername => 52,
        SyscallName::Socketpair => 53,
        SyscallName::Setsockopt => 54,
        SyscallName::Getsockopt => 55,
        SyscallName::Clone => 56,
        SyscallName::Fork => 57,
        SyscallName::Vfork => 58,
        SyscallName::Execve => 59,
        SyscallName::Exit => 60,
        SyscallName::Wait4 => 61,
        SyscallName::Kill => 62,
        SyscallName::Uname => 63,
        SyscallName::Semget => 64,
        SyscallName::Semop => 65,
        SyscallName::Semctl => 66,
        SyscallName::Shmdt => 67,
        SyscallName::Msgget => 68,
        SyscallName::Msgsnd => 69,
        SyscallName::Msgrcv => 70,
        SyscallName::Msgctl => 71,
        SyscallName::Fcntl => 72,
        SyscallName::Flock => 73,
        SyscallName::Fsync => 74,
        SyscallName::Fdatasync => 75,
        SyscallName::Truncate => 76,
        SyscallName::Ftruncate => 77,
        SyscallName::Getdents => 78,
        SyscallName::Getcwd => 79,
        SyscallName::Chdir => 80,
        SyscallName::Fchdir => 81,
        SyscallName::Rename => 82,
        SyscallName::Mkdir => 83,
        SyscallName::Rmdir => 84,
        SyscallName::Creat => 85,
        SyscallName::Link => 86,
        SyscallName::Unlink => 87,
        SyscallName::Symlink => 88,
        SyscallName::Readlink => 89,
        SyscallName::Chmod => 90,
        SyscallName::Fchmod => 91,
        SyscallName::Chown => 92,
        SyscallName::Fchown => 93,
        SyscallName::Lchown => 94,
        SyscallName::Umask => 95,
        SyscallName::Gettimeofday => 96,
        SyscallName::Getrlimit => 97,
        SyscallName::Getrusage => 98,
        SyscallName::Sysinfo => 99,
        SyscallName::Times => 100,
        SyscallName::Ptrace => 101,
        SyscallName::Getuid => 102,
        SyscallName::Syslog => 103,
        SyscallName::Getgid => 104,
        SyscallName::Setuid => 105,
        SyscallName::Setgid => 106,
        SyscallName::Geteuid => 107,
        SyscallName::Getegid => 108,
        SyscallName::Setpgid => 109,
        SyscallName::Getppid => 110,
        SyscallName::Getpgrp => 111,
        SyscallName::Setsid => 112,
        SyscallName::Setreuid => 113,
        SyscallName::Setregid => 114,
        SyscallName::Getgroups => 115,
        SyscallName::Setgroups => 116,
        SyscallName::Setresuid => 117,
        SyscallName::Getresuid => 118,
        SyscallName::Setresgid => 119,
        SyscallName::Getresgid => 120,
        SyscallName::Getpgid => 121,
        SyscallName::Setfsuid => 122,
        SyscallName::Setfsgid => 123,
        SyscallName::Getsid => 124,
        SyscallName::Capget => 125,
        SyscallName::Capset => 126,
        SyscallName::RtSigpending => 127,
        SyscallName::RtSigtimedwait => 128,
        SyscallName::RtSigqueueinfo => 129,
        SyscallName::RtSigsuspend => 130,
        SyscallName::Sigaltstack => 131,
        SyscallName::Utime => 132,
        SyscallName::Mknod => 133,
        SyscallName::Statfs => 137,
        SyscallName::Fstatfs => 138,
        SyscallName::Getpriority => 140,
        SyscallName::Setpriority => 141,
        SyscallName::Mlock => 149,
        SyscallName::Munlock => 150,
        SyscallName::Mlockall => 151,
        SyscallName::Munlockall => 152,
        SyscallName::Vhangup => 153,
        SyscallName::ModifyLdt => 154,
        SyscallName::PivotRoot => 155,
        SyscallName::Prctl => 157,
        SyscallName::ArchPrctl => 158,
        SyscallName::Adjtimex => 159,
        SyscallName::Setrlimit => 160,
        SyscallName::Chroot => 161,
        SyscallName::Sync => 162,
        SyscallName::Acct => 163,
        SyscallName::Settimeofday => 164,
        SyscallName::Mount => 165,
        SyscallName::Umount2 => 166,
        SyscallName::Swapon => 167,
        SyscallName::Swapoff => 168,
        SyscallName::Reboot => 169,
        SyscallName::Sethostname => 170,
        SyscallName::Setdomainname => 171,
        SyscallName::Iopl => 172,
        SyscallName::Ioperm => 173,
        SyscallName::Gettid => 186,
        SyscallName::Readahead => 187,
        SyscallName::Setxattr => 188,
        SyscallName::Lsetxattr => 189,
        SyscallName::Fsetxattr => 190,
        SyscallName::Getxattr => 191,
        SyscallName::Lgetxattr => 192,
        SyscallName::Fgetxattr => 193,
        SyscallName::Listxattr => 194,
        SyscallName::Llistxattr => 195,
        SyscallName::Flistxattr => 196,
        SyscallName::Removexattr => 197,
        SyscallName::Lremovexattr => 198,
        SyscallName::Fremovexattr => 199,
        SyscallName::Tkill => 200,
        SyscallName::Time => 201,
        SyscallName::Futex => 202,
        SyscallName::SchedSetaffinity => 203,
        SyscallName::SchedGetaffinity => 204,
        SyscallName::SetThreadArea => 205,
        SyscallName::IoSetup => 206,
        SyscallName::IoDestroy => 207,
        SyscallName::IoGetevents => 208,
        SyscallName::IoSubmit => 209,
        SyscallName::IoCancel => 210,
        SyscallName::GetThreadArea => 211,
        SyscallName::LookupDcookie => 212,
        SyscallName::EpollCreate => 213,
        SyscallName::RemapFilePages => 216,
        SyscallName::Getdents64 => 217,
        SyscallName::SetTidAddress => 218,
        SyscallName::RestartSyscall => 219,
        SyscallName::Semtimedop => 220,
        SyscallName::Fadvise64 => 221,
        SyscallName::TimerCreate => 222,
        SyscallName::TimerSettime => 223,
        SyscallName::TimerGettime => 224,
        SyscallName::TimerGetoverrun => 225,
        SyscallName::TimerDelete => 226,
        SyscallName::ClockSettime => 227,
        SyscallName::ClockGettime => 228,
        SyscallName::ClockGetres => 229,
        SyscallName::ClockNanosleep => 230,
        SyscallName::ExitGroup => 231,
        SyscallName::EpollWait => 232,
        SyscallName::EpollCtl => 233,
        SyscallName::Tgkill => 234,
        SyscallName::Utimes => 235,
        SyscallName::Mbind => 237,
        SyscallName::SetMempolicy => 238,
        SyscallName::GetMempolicy => 239,
        SyscallName::MqOpen => 240,
        SyscallName::MqTimedreceive => 241,
        SyscallName::MqTimedsend => 242,
        SyscallName::MqNotify => 243,
        SyscallName::MqGetsetattr => 244,
        SyscallName::KexecLoad => 245,
        SyscallName::Waitid => 246,
        SyscallName::AddKey => 247,
        SyscallName::RequestKey => 248,
        SyscallName::Keyctl => 249,
        SyscallName::IoprioSet => 250,
        SyscallName::IoprioGet => 251,
        SyscallName::InotifyInit => 252,
        SyscallName::InotifyAddWatch => 253,
        SyscallName::InotifyRmWatch => 254,
        SyscallName::MigratePages => 256,
        SyscallName::Openat => 257,
        SyscallName::Mkdirat => 258,
        SyscallName::Mknodat => 259,
        SyscallName::Fchownat => 260,
        SyscallName::Futimesat => 261,
        SyscallName::Newfstatat => 262,
        SyscallName::Unlinkat => 263,
        SyscallName::Renameat => 264,
        SyscallName::Linkat => 265,
        SyscallName::Symlinkat => 266,
        SyscallName::Readlinkat => 267,
        SyscallName::Fchmodat => 268,
        SyscallName::Faccessat => 269,
        SyscallName::Pselect6 => 270,
        SyscallName::Ppoll => 271,
        SyscallName::Unshare => 272,
        SyscallName::SetRobustList => 273,
        SyscallName::GetRobustList => 274,
        SyscallName::Splice => 275,
        SyscallName::Tee => 276,
        SyscallName::SyncFileRange => 277,
        SyscallName::Vmsplice => 278,
        SyscallName::MovePages => 279,
        SyscallName::Utimensat => 280,
        SyscallName::EpollPwait => 281,
        SyscallName::Signalfd => 282,
        SyscallName::TimerfdCreate => 283,
        SyscallName::Eventfd => 284,
        SyscallName::Fallocate => 285,
        SyscallName::TimerfdSettime => 286,
        SyscallName::TimerfdGettime => 287,
        SyscallName::Accept4 => 288,
        SyscallName::Signalfd4 => 289,
        SyscallName::Eventfd2 => 290,
        SyscallName::EpollCreate1 => 291,
        SyscallName::Dup3 => 292,
        SyscallName::Pipe2 => 293,
        SyscallName::InotifyInit1 => 294,
        SyscallName::Preadv => 295,
        SyscallName::Pwritev => 296,
        SyscallName::RtTgsigqueueinfo => 297,
        SyscallName::PerfEventOpen => 298,
        SyscallName::Recvmmsg => 299,
        SyscallName::FanotifyInit => 300,
        SyscallName::FanotifyMark => 301,
        SyscallName::Prlimit64 => 302,
        SyscallName::NameToHandleAt => 303,
        SyscallName::OpenByHandleAt => 304,
        SyscallName::ClockAdjtime => 305,
        SyscallName::Syncfs => 306,
        SyscallName::Sendmmsg => 307,
        SyscallName::Setns => 308,
        SyscallName::Getcpu => 309,
        SyscallName::ProcessVmReadv => 310,
        SyscallName::ProcessVmWritev => 311,
        SyscallName::Kcmp => 312,
        SyscallName::FinitModule => 313,
        SyscallName::SchedSetattr => 314,
        SyscallName::SchedGetattr => 315,
        SyscallName::Renameat2 => 316,
        SyscallName::Seccomp => 317,
        SyscallName::Getrandom => 318,
        SyscallName::MemfdCreate => 319,
        SyscallName::KexecFileLoad => 320,
        SyscallName::Bpf => 321,
        SyscallName::Execveat => 322,
        SyscallName::Userfaultfd => 323,
        SyscallName::Membarrier => 324,
        SyscallName::Mlock2 => 325,
        SyscallName::CopyFileRange => 326,
        SyscallName::Preadv2 => 327,
        SyscallName::Pwritev2 => 328,
        SyscallName::PkeyMprotect => 329,
        SyscallName::PkeyAlloc => 330,
        SyscallName::PkeyFree => 331,
        SyscallName::Statx => 332,
        SyscallName::IoPgetevents => 333,
        SyscallName::Rseq => 334,
        SyscallName::PidfdSendSignal => 424,
        SyscallName::IoUringSetup => 425,
        SyscallName::IoUringEnter => 426,
        SyscallName::IoUringRegister => 427,
    }
}

/// The x86_64 Linux syscall table as a map from number to name.
#[verifier::opaque]
pub open spec fn x86_table() -> Map<u64, SyscallName> {
    Map::new(|n: u64| x86_name_of(n) is Some, |n: u64| x86_name_of(n)->0)
}

/// The table holds exactly the numbers that have a name, each mapped to it.
pub proof fn lemma_x86_table_entry(n: u64)
    ensures
        #[trigger] x86_table().contains_key(n) == (x86_name_of(n) is Some),
        x86_table().contains_key(n) ==> x86_table()[n] == x86_name_of(n)->0,
{
    reveal(x86_table);
}

/// The x86_64 table is a bijection between the numbers it holds and all
/// syscall names: every name has exactly one number, and a number names
/// `name` exactly when it is that number.  In particular no number occurs
/// twice and no name occurs twice.
pub proof fn lemma_x86_table_bijective()
    ensures
        forall|name: SyscallName| #[trigger] x86_name_of(x86_number_of(name)) == Some(name),
        forall|n: u64, name: SyscallName|
            #![trigger x86_name_of(n), x86_number_of(name)]
            x86_name_of(n) == Some(name) <==> x86_number_of(name) == n,
{
    assert forall|name: SyscallName| #[trigger] x86_name_of(x86_number_of(name)) == Some(name) by {
        match name {
            SyscallName::Read => {},
            SyscallName::Write => {},
            SyscallName::Open => {},
            SyscallName::Close => {},
            SyscallName::Stat => {},
            SyscallName::Fstat => {},
            SyscallName::Lstat => {},
            SyscallName::Poll => {},
            SyscallName::Lseek => {},
            SyscallName::Mmap => {},
            SyscallName::Mprotect => {},
            SyscallName::Munmap => {},
            SyscallName::Brk => {},
            SyscallName::RtSigaction => {},
            SyscallName::RtSigprocmask => {},
            SyscallName::RtSigreturn => {},
            SyscallName::Ioctl => {},
            SyscallName::Pread64 => {},
            SyscallName::Pwrite64 => {},
            SyscallName::Readv => {},
            SyscallName::Writev => {},
            SyscallName::Access => {},
            SyscallName::Pipe => {},
            SyscallName::Select => {},
            SyscallName::SchedYield => {},
            SyscallName::Mremap => {},
            SyscallName::Msync => {},
            SyscallName::Mincore => {},
            SyscallName::Madvise => {},
            SyscallName::Shmget => {},
            SyscallName::Shmat => {},
            SyscallName::Shmctl => {},
            SyscallName::Dup => {},
            SyscallName::Dup2 => {},
            SyscallName::Pause => {},
            SyscallName::Nanosleep => {},
            SyscallName::Getitimer => {},
            SyscallName::Alarm => {},
            SyscallName::Setitimer => {},
            SyscallName::Getpid => {},
            SyscallName::Sendfile => {},
            SyscallName::Socket => {},
            SyscallName::Connect => {},
            SyscallName::Accept => {},
            SyscallName::Sendto => {},
            SyscallName::Recvfrom => {},
            SyscallName::Sendmsg => {},
            SyscallName::Recvmsg => {},
            SyscallName::Shutdown => {},
            SyscallName::Bind => {},
            SyscallName::Listen => {},
            SyscallName::Getsockname => {},
            SyscallName::Getpeername => {},
            SyscallName::Socketpair => {},
            SyscallName::Setsockopt => {},
            SyscallName::Getsockopt => {},
            SyscallName::Clone => {},
            SyscallName::Fork => {},
            SyscallName::Vfork => {},
            SyscallName::Execve => {},
            SyscallName::Exit => {},
            SyscallName::Wait4 => {},
            SyscallName::Kill => {},
            SyscallName::Uname => {},
            SyscallName::Semget => {},
            SyscallName::Semop => {},
            SyscallName::Semctl => {},
            SyscallName::Shmdt => {},
            SyscallName::Msgget => {},
            SyscallName::Msgsnd => {},
            SyscallName::Msgrcv => {},
            SyscallName::Msgctl => {},
            SyscallName::Fcntl => {},
            SyscallName::Flock => {},
            SyscallName::Fsync => {},
            SyscallName::Fdatasync => {},
            SyscallName::Truncate => {},
            SyscallName::Ftruncate => {},
            SyscallName::Getdents => {},
            SyscallName::Getcwd => {},
            SyscallName::Chdir => {},
            SyscallName::Fchdir => {},
            SyscallName::Rename => {},
            SyscallName::Mkdir => {},
            SyscallName::Rmdir => {},
            SyscallName::Creat => {},
            SyscallName::Link => {},
            SyscallName::Unlink => {},
            SyscallName::Symlink => {},
            SyscallName::Readlink => {},
            SyscallName::Chmod => {},
            SyscallName::Fchmod => {},
            SyscallName::Chown => {},
            SyscallName::Fchown => {},
            SyscallName::Lchown => {},
            SyscallName::Umask => {},
            SyscallName::Gettimeofday => {},
            SyscallName::Getrlimit => {},
            SyscallName::Getrusage => {},
            SyscallName::Sysinfo => {},
            SyscallName::Times => {},
            SyscallName::Ptrace => {},
            SyscallName::Getuid => {},
            SyscallName::Syslog => {},
            SyscallName::Getgid => {},
            SyscallName::Setuid => {},
            SyscallName::Setgid => {},
            SyscallName::Geteuid => {},
            SyscallName::Getegid => {},
            SyscallName::Setpgid => {},
            SyscallName::Getppid => {},
            SyscallName::Getpgrp => {},
            SyscallName::Setsid => {},
            SyscallName::Setreuid => {},
            SyscallName::Setregid => {},
            SyscallName::Getgroups => {},
            SyscallName::Setgroups => {},
            SyscallName::Setresuid => {},
            SyscallName::Getresuid => {},
            SyscallName::Setresgid => {},
            SyscallName::Getresgid => {},
            SyscallName::Getpgid => {},
            SyscallName::Setfsuid => {},
            SyscallName::Setfsgid => {},
            SyscallName::Getsid => {},
            SyscallName::Capget => {},
            SyscallName::Capset => {},
            SyscallName::RtSigpending => {},
            SyscallName::RtSigtimedwait => {},
            SyscallName::RtSigqueueinfo => {},
            SyscallName::RtSigsuspend => {},
            SyscallName::Sigaltstack => {},
            SyscallName::Utime => {},
            SyscallName::Mknod => {},
            SyscallName::Statfs => {},
            SyscallName::Fstatfs => {},
            SyscallName::Getpriority => {},
            SyscallName::Setpriority => {},
            SyscallName::Mlock => {},
            SyscallName::Munlock => {},
            SyscallName::Mlockall => {},
            SyscallName::Munlockall => {},
            SyscallName::Vhangup => {},
            SyscallName::ModifyLdt => {},
            SyscallName::PivotRoot => {},
            SyscallName::Prctl => {},
            SyscallName::ArchPrctl => {},
            SyscallName::Adjtimex => {},
            SyscallName::Setrlimit => {},
            SyscallName::Chroot => {},
            SyscallName::Sync => {},
            SyscallName::Acct => {},
            SyscallName::Settimeofday => {},
            SyscallName::Mount => {},
            SyscallName::Umount2 => {},
            SyscallName::Swapon => {},
            SyscallName::Swapoff => {},
            SyscallName::Reboot => {},
            SyscallName::Sethostname => {},
            SyscallName::Setdomainname => {},
            SyscallName::Iopl => {},
            SyscallName::Ioperm => {},
            SyscallName::Gettid => {},
            SyscallName::Readahead => {},
            SyscallName::Setxattr => {},
            SyscallName::Lsetxattr => {},
            SyscallName::Fsetxattr => {},
            SyscallName::Getxattr => {},
            SyscallName::Lgetxattr => {},
            SyscallName::Fgetxattr => {},
            SyscallName::Listxattr => {},
            SyscallName::Llistxattr => {},
            SyscallName::Flistxattr => {},
            SyscallName::Removexattr => {},
            SyscallName::Lremovexattr => {},
            SyscallName::Fremovexattr => {},
            SyscallName::Tkill => {},
            SyscallName::Time => {},
            SyscallName::Futex => {},
            SyscallName::SchedSetaffinity => {},
            SyscallName::SchedGetaffinity => {},
            SyscallName::SetThreadArea => {},
            SyscallName::IoSetup => {},
            SyscallName::IoDestroy => {},
            SyscallName::IoGetevents => {},
            SyscallName::IoSubmit => {},
            SyscallName::IoCancel => {},
            SyscallName::GetThreadArea => {},
            SyscallName::LookupDcookie => {},
            SyscallName::EpollCreate => {},
            SyscallName::RemapFilePages => {},
            SyscallName::Getdents64 => {},
            SyscallName::SetTidAddress => {},
            SyscallName::RestartSyscall => {},
            SyscallName::Semtimedop => {},
            SyscallName::Fadvise64 => {},
            SyscallName::TimerCreate => {},
            SyscallName::TimerSettime => {},
            SyscallName::TimerGettime => {},
            SyscallName::TimerGetoverrun => {},
            SyscallName::TimerDelete => {},
            SyscallName::ClockSettime => {},
            SyscallName::ClockGettime => {},
            SyscallName::ClockGetres => {},
            SyscallName::ClockNanosleep => {},
            SyscallName::ExitGroup => {},
            SyscallName::EpollWait => {},
            SyscallName::EpollCtl => {},
            SyscallName::Tgkill => {},
            SyscallName::Utimes => {},
            SyscallName::Mbind => {},
            SyscallName::SetMempolicy => {},
            SyscallName::GetMempolicy => {},
            SyscallName::MqOpen => {},
            SyscallName::MqTimedreceive => {},
            SyscallName::MqTimedsend => {},
            SyscallName::MqNotify => {},
            SyscallName::MqGetsetattr => {},
            SyscallName::KexecLoad => {},
            SyscallName::Waitid => {},
            SyscallName::AddKey => {},
            SyscallName::RequestKey => {},
            SyscallName::Keyctl => {},
            SyscallName::IoprioSet => {},
            SyscallName::IoprioGet => {},
            SyscallName::InotifyInit => {},
            SyscallName::InotifyAddWatch => {},
            SyscallName::InotifyRmWatch => {},
            SyscallName::MigratePages => {},
            SyscallName::Openat => {},
            SyscallName::Mkdirat => {},
            SyscallName::Mknodat => {},
            SyscallName::Fchownat => {},
            SyscallName::Futimesat => {},
            SyscallName::Newfstatat => {},
            SyscallName::Unlinkat => {},
            SyscallName::Renameat => {},
            SyscallName::Linkat => {},
            SyscallName::Symlinkat => {},
            SyscallName::Readlinkat => {},
            SyscallName::Fchmodat => {},
            SyscallName::Faccessat => {},
            SyscallName::Pselect6 => {},
            SyscallName::Ppoll => {},
            SyscallName::Unshare => {},
            SyscallName::SetRobustList => {},
            SyscallName::GetRobustList => {},
            SyscallName::Splice => {},
            SyscallName::Tee => {},
            SyscallName::SyncFileRange => {},
            SyscallName::Vmsplice => {},
            SyscallName::MovePages => {},
            SyscallName::Utimensat => {},
            SyscallName::EpollPwait => {},
            SyscallName::Signalfd => {},
            SyscallName::TimerfdCreate => {},
            SyscallName::Eventfd => {},
            SyscallName::Fallocate => {},
            SyscallName::TimerfdSettime => {},
            SyscallName::TimerfdGettime => {},
            SyscallName::Accept4 => {},
            SyscallName::Signalfd4 => {},
            SyscallName::Eventfd2 => {},
            SyscallName::EpollCreate1 => {},
            SyscallName::Dup3 => {},
            SyscallName::Pipe2 => {},
            SyscallName::InotifyInit1 => {},
            SyscallName::Preadv => {},
            SyscallName::Pwritev => {},
            SyscallName::RtTgsigqueueinfo => {},
            SyscallName::PerfEventOpen => {},
            SyscallName::Recvmmsg => {},
            SyscallName::FanotifyInit => {},
            SyscallName::FanotifyMark => {},
            SyscallName::Prlimit64 => {},
            SyscallName::NameToHandleAt => {},
            SyscallName::OpenByHandleAt => {},
            SyscallName::ClockAdjtime => {},
            SyscallName::Syncfs => {},
            SyscallName::Sendmmsg => {},
            SyscallName::Setns => {},
            SyscallName::Getcpu => {},
            SyscallName::ProcessVmReadv => {},
            SyscallName::ProcessVmWritev => {},
            SyscallName::Kcmp => {},
            SyscallName::FinitModule => {},
            SyscallName::SchedSetattr => {},
            SyscallName::SchedGetattr => {},
            SyscallName::Renameat2 => {},
            SyscallName::Seccomp => {},
            SyscallName::Getrandom => {},
            SyscallName::MemfdCreate => {},
            SyscallName::KexecFileLoad => {},
            SyscallName::Bpf => {},
            SyscallName::Execveat => {},
            SyscallName::Userfaultfd => {},
            SyscallName::Membarrier => {},
            SyscallName::Mlock2 => {},
            SyscallName::CopyFileRange => {},
            SyscallName::Preadv2 => {},
            SyscallName::Pwritev2 => {},
            SyscallName::PkeyMprotect => {},
            SyscallName::PkeyAlloc => {},
            SyscallName::PkeyFree => {},
            SyscallName::Statx => {},
            SyscallName::IoPgetevents => {},
            SyscallName::Rseq => {},
            SyscallName::PidfdSendSignal => {},
            SyscallName::IoUringSetup => {},
            SyscallName::IoUringEnter => {},
            SyscallName::IoUringRegister => {},
        }
    }
    assert forall|n: u64, name: SyscallName|
        #![trigger x86_name_of(n), x86_number_of(name)]
        x86_name_of(n) == Some(name) implies x86_number_of(name) == n by {
        if n < 32 {
            lemma_x86_part_0_numbers(n);
        } else if n < 64 {
            lemma_x86_part_1_numbers(n);
        } else if n < 96 {
            lemma_x86_part_2_numbers(n);
        } else if n < 128 {
            lemma_x86_part_3_numbers(n);
        } else if n < 172 {
            lemma_x86_part_4_numbers(n);
        } else if n < 218 {
            lemma_x86_part_5_numbers(n);
        } else if n < 251 {
            lemma_x86_part_6_numbers(n);
        } else if n < 284 {
            lemma_x86_part_7_numbers(n);
        } else if n < 316 {
            lemma_x86_part_8_numbers(n);
        } else if n < 428 {
            lemma_x86_part_9_numbers(n);
        }
    }
}

/// Within part 0, whatever name the table gives to `n` has number `n`.
proof fn lemma_x86_part_0_numbers(n: u64)
    ensures
        x86_name_of_0(n) matches Some(name) ==> x86_number_of(name) == n,
{
}

/// Within part 1, whatever name the table gives to `n` has number `n`.
proof fn lemma_x86_part_1_numbers(n: u64)
    ensures
        x86_name_of_1(n) matches Some(name) ==> x86_number_of(name) == n,
{
}

/// Within part 2, whatever name the table gives to `n` has number `n`.
proof fn lemma_x86_part_2_numbers(n: u64)
    ensures
        x86_name_of_2(n) matches Some(name) ==> x86_number_of(name) == n,
{
}

/// Within part 3, whatever name the table gives to `n` has number `n`.
proof fn lemma_x86_part_3_numbers(n: u64)
    ensures
        x86_name_of_3(n) matches Some(name) ==> x86_number_of(name) == n,
{
}

/// Within part 4, whatever name the table gives to `n` has number `n`.
proof fn lemma_x86_part_4_numbers(n: u64)
    ensures
        x86_name_of_4(n) matches Some(name) ==> x86_number_of(name) == n,
{
}

/// Within part 5, whatever name the table gives to `n` has number `n`.
proof fn lemma_x86_part_5_numbers(n: u64)
    ensures
        x86_name_of_5(n) matches Some(name) ==> x86_number_of(name) == n,
{
}

/// Within part 6, whatever name the table gives to `n` has number `n`.
proof fn lemma_x86_part_6_numbers(n: u64)
    ensures
        x86_name_of_6(n) matches Some(name) ==> x86_number_of(name) == n,
{
}

/// Within part 7, whatever name the table gives to `n` has number `n`.
proof fn lemma_x86_part_7_numbers(n: u64)
    ensures
        x86_name_of_7(n) matches Some(name) ==> x86_number_of(name) == n,
{
}

/// Within part 8, whatever name the table gives to `n` has number `n`.
proof fn lemma_x86_part_8_numbers(n: u64)
    ensures
        x86_name_of_8(n) matches Some(name) ==> x86_number_of(name) == n,
{
}

/// Within part 9, whatever name the table gives to `n` has number `n`.
proof fn lemma_x86_part_9_numbers(n: u64)
    ensures
        x86_name_of_9(n) matches Some(name) ==> x86_number_of(name) == n,
{
}

/// Adds part 0 of the x86_64 table.
fn insert_x86_part_0(table: &mut HashMap<u64, SyscallName>)
    requires
        old(table)@ == x86_table_below(0),
    ensures
        final(table)@ == x86_table_below(32),
{
    table.insert(0, SyscallName::Read);
    table.insert(1, SyscallName::Write);
    table.insert(2, SyscallName::Open);
    table.insert(3, SyscallName::Close);
    table.insert(4, SyscallName::Stat);
    table.insert(5, SyscallName::Fstat);
    table.insert(6, SyscallName::Lstat);
    table.insert(7, SyscallName::Poll);
    table.insert(8, SyscallName::Lseek);
    table.insert(9, SyscallName::Mmap);
    table.insert(10, SyscallName::Mprotect);
    table.insert(11, SyscallName::Munmap);
    table.insert(12, SyscallName::Brk);
    table.insert(13, SyscallName::RtSigaction);
    table.insert(14, SyscallName::RtSigprocmask);
    table.insert(15, SyscallName::RtSigreturn);
    table.insert(16, SyscallName::Ioctl);
    table.insert(17, SyscallName::Pread64);
    table.insert(18, SyscallName::Pwrite64);
    table.insert(19, SyscallName::Readv);
    table.insert(20, SyscallName::Writev);
    table.insert(21, SyscallName::Access);
    table.insert(22, SyscallName::Pipe);
    table.insert(23, SyscallName::Select);
    table.insert(24, SyscallName::SchedYield);
    table.insert(25, SyscallName::Mremap);
    table.insert(26, SyscallName::Msync);
    table.insert(27, SyscallName::Mincore);
    table.insert(28, SyscallName::Madvise);
    table.insert(29, SyscallName::Shmget);
    table.insert(30, SyscallName::Shmat);
    table.insert(31, SyscallName::Shmctl);
    assert(table@ =~= x86_table_below(32));
}

/// Adds part 1 of the x86_64 table.
fn insert_x86_part_1(table: &mut HashMap<u64, SyscallName>)
    requires
        old(table)@ == x86_table_below(32),
    ensures
        final(table)@ == x86_table_below(64),
{
    table.insert(32, SyscallName::Dup);
    table.insert(33, SyscallName::Dup2);
    table.insert(34, SyscallName::Pause);
    table.insert(35, SyscallName::Nanosleep);
    table.insert(36, SyscallName::Getitimer);
    table.insert(37, SyscallName::Alarm);
    table.insert(38, SyscallName::Setitimer);
    table.insert(39, SyscallName::Getpid);
    table.insert(40, SyscallName::Sendfile);
    table.insert(41, SyscallName::Socket);
    table.insert(42, SyscallName::Connect);
    table.insert(43, SyscallName::Accept);
    table.insert(44, SyscallName::Sendto);
    table.insert(45, SyscallName::Recvfrom);
    table.insert(46, SyscallName::Sendmsg);
    table.insert(47, SyscallName::Recvmsg);
    table.insert(48, SyscallName::Shutdown);
    table.insert(49, SyscallName::Bind);
    table.insert(50, SyscallName::Listen);
    table.insert(51, SyscallName::Getsockname);
    table.insert(52, SyscallName::Getpeername);
    table.insert(53, SyscallName::Socketpair);
    table.insert(54, SyscallName::Setsockopt);
    table.insert(55, SyscallName::Getsockopt);
    table.insert(56, SyscallName::Clone);
    table.insert(57, SyscallName::Fork);
    table.insert(58, SyscallName::Vfork);
    table.insert(59, SyscallName::Execve);
    table.insert(60, SyscallName::Exit);
    table.insert(61, SyscallName::Wait4);
    table.insert(62, SyscallName::Kill);
    table.insert(63, SyscallName::Uname);
    assert(table@ =~= x86_table_below(64));
}

/// Adds part 2 of the x86_64 table.
fn insert_x86_part_2(table: &mut HashMap<u64, SyscallName>)
    requires
        old(table)@ == x86_table_below(64),
    ensures
        final(table)@ == x86_table_below(96),
{
    table.insert(64, SyscallName::Semget);
    table.insert(65, SyscallName::Semop);
    table.insert(66, SyscallName::Semctl);
    table.insert(67, SyscallName::Shmdt);
    table.insert(68, SyscallName::Msgget);
    table.insert(69, SyscallName::Msgsnd);
    table.insert(70, SyscallName::Msgrcv);
    table.insert(71, SyscallName::Msgctl);
    table.insert(72, SyscallName::Fcntl);
    table.insert(73, SyscallName::Flock);
    table.insert(74, SyscallName::Fsync);
    table.insert(75, SyscallName::Fdatasync);
    table.insert(76, SyscallName::Truncate);
    table.insert(77, SyscallName::Ftruncate);
    table.insert(78, SyscallName::Getdents);
    table.insert(79, SyscallName::Getcwd);
    table.insert(80, SyscallName::Chdir);
    table.insert(81, SyscallName::Fchdir);
    table.insert(82, SyscallName::Rename);
    table.insert(83, SyscallName::Mkdir);
    table.insert(84, SyscallName::Rmdir);
    table.insert(85, SyscallName::Creat);
    table.insert(86, SyscallName::Link);
    table.insert(87, SyscallName::Unlink);
    table.insert(88, SyscallName::Symlink);
    table.insert(89, SyscallName::Readlink);
    table.insert(90, SyscallName::Chmod);
    table.insert(91, SyscallName::Fchmod);
    table.insert(92, SyscallName::Chown);
    table.insert(93, SyscallName::Fchown);
    table.insert(94, SyscallName::Lchown);
    table.insert(95, SyscallName::Umask);
    assert(table@ =~= x86_table_below(96));
}

/// Adds part 3 of the x86_64 table.
fn insert_x86_part_3(table: &mut HashMap<u64, SyscallName>)
    requires
        old(table)@ == x86_table_below(96),
    ensures
        final(table)@ == x86_table_below(128),
{
    table.insert(96, SyscallName::Gettimeofday);
    table.insert(97, SyscallName::Getrlimit);
    table.insert(98, SyscallName::Getrusage);
    table.insert(99, SyscallName::Sysinfo);
    table.insert(100, SyscallName::Times);
    table.insert(101, SyscallName::Ptrace);
    table.insert(102, SyscallName::Getuid);
    table.insert(103, SyscallName::Syslog);
    table.insert(104, SyscallName::Getgid);
    table.insert(105, SyscallName::Setuid);
    table.insert(106, SyscallName::Setgid);
    table.insert(107, SyscallName::Geteuid);
    table.insert(108, SyscallName::Getegid);
    table.insert(109, SyscallName::Setpgid);
    table.insert(110, SyscallName::Getppid);
    table.insert(111, SyscallName::Getpgrp);
    table.insert(112, SyscallName::Setsid);
    table.insert(113, SyscallName::Setreuid);
    table.insert(114, SyscallName::Setregid);
    table.insert(115, SyscallName::Getgroups);
    table.insert(116, SyscallName::Setgroups);
    table.insert(117, SyscallName::Setresuid);
    table.insert(118, SyscallName::Getresuid);
    table.insert(119, SyscallName::Setresgid);
    table.insert(120, SyscallName::Getresgid);
    table.insert(121, SyscallName::Getpgid);
    table.insert(122, SyscallName::Setfsuid);
    table.insert(123, SyscallName::Setfsgid);
    table.insert(124, SyscallName::Getsid);
    table.insert(125, SyscallName::Capget);
    table.insert(126, SyscallName::Capset);
    table.insert(127, SyscallName::RtSigpending);
    assert(table@ =~= x86_table_below(128));
}

/// Adds part 4 of the x86_64 table.
fn insert_x86_part_4(table: &mut HashMap<u64, SyscallName>)
    requires
        old(table)@ == x86_table_below(128),
    ensures
        final(table)@ == x86_table_below(172),
{
    table.insert(128, SyscallName::RtSigtimedwait);
    table.insert(129, SyscallName::RtSigqueueinfo);
    table.insert(130, SyscallName::RtSigsuspend);
    table.insert(131, SyscallName::Sigaltstack);
    table.insert(132, SyscallName::Utime);
    table.insert(133, SyscallName::Mknod);
    table.insert(137, SyscallName::Statfs);
    table.insert(138, SyscallName::Fstatfs);
    table.insert(140, SyscallName::Getpriority);
    table.insert(141, SyscallName::Setpriority);
    table.insert(149, SyscallName::Mlock);
    table.insert(150, SyscallName::Munlock);
    table.insert(151, SyscallName::Mlockall);
    table.insert(152, SyscallName::Munlockall);
    table.insert(153, SyscallName::Vhangup);
    table.insert(154, SyscallName::ModifyLdt);
    table.insert(155, SyscallName::PivotRoot);
    table.insert(157, SyscallName::Prctl);
    table.insert(158, SyscallName::ArchPrctl);
    table.insert(159, SyscallName::Adjtimex);
    table.insert(160, SyscallName::Setrlimit);
    table.insert(161, SyscallName::Chroot);
    table.insert(162, SyscallName::Sync);
    table.insert(163, SyscallName::Acct);
    table.insert(164, SyscallName::Settimeofday);
    table.insert(165, SyscallName::Mount);
    table.insert(166, SyscallName::Umount2);
    table.insert(167, SyscallName::Swapon);
    table.insert(168, SyscallName::Swapoff);
    table.insert(169, SyscallName::Reboot);
    table.insert(170, SyscallName::Sethostname);
    table.insert(171, SyscallName::Setdomainname);
    assert(table@ =~= x86_table_below(172));
}

/// Adds part 5 of the x86_64 table.
fn insert_x86_part_5(table: &mut HashMap<u64, SyscallName>)
    requires
        old(table)@ == x86_table_below(172),
    ensures
        final(table)@ == x86_table_below(218),
{
    table.insert(172, SyscallName::Iopl);
    table.insert(173, SyscallName::Ioperm);
    table.insert(186, SyscallName::Gettid);
    table.insert(187, SyscallName::Readahead);
    table.insert(188, SyscallName::Setxattr);
    table.insert(189, SyscallName::Lsetxattr);
    table.insert(190, SyscallName::Fsetxattr);
    table.insert(191, SyscallName::Getxattr);
    table.insert(192, SyscallName::Lgetxattr);
    table.insert(193, SyscallName::Fgetxattr);
    table.insert(194, SyscallName::Listxattr);
    table.insert(195, SyscallName::Llistxattr);
    table.insert(196, SyscallName::Flistxattr);
    table.insert(197, SyscallName::Removexattr);
    table.insert(198, SyscallName::Lremovexattr);
    table.insert(199, SyscallName::Fremovexattr);
    table.insert(200, SyscallName::Tkill);
    table.insert(201, SyscallName::Time);
    table.insert(202, SyscallName::Futex);
    table.insert(203, SyscallName::SchedSetaffinity);
    table.insert(204, SyscallName::SchedGetaffinity);
    table.insert(205, SyscallName::SetThreadArea);
    table.insert(206, SyscallName::IoSetup);
    table.insert(207, SyscallName::IoDestroy);
    table.insert(208, SyscallName::IoGetevents);
    table.insert(209, SyscallName::IoSubmit);
    table.insert(210, SyscallName::IoCancel);
    table.insert(211, SyscallName::GetThreadArea);
    table.insert(212, SyscallName::LookupDcookie);
    table.insert(213, SyscallName::EpollCreate);
    table.insert(216, SyscallName::RemapFilePages);
    table.insert(217, SyscallName::Getdents64);
    assert(table@ =~= x86_table_below(218));
}

/// Adds part 6 of the x86_64 table.
fn insert_x86_part_6(table: &mut HashMap<u64, SyscallName>)
    requires
        old(table)@ == x86_table_below(218),
    ensures
        final(table)@ == x86_table_below(251),
{
    table.insert(218, SyscallName::SetTidAddress);
    table.insert(219, SyscallName::RestartSyscall);
    table.insert(220, SyscallName::Semtimedop);
    table.insert(221, SyscallName::Fadvise64);
    table.insert(222, SyscallName::TimerCreate);
    table.insert(223, SyscallName::TimerSettime);
    table.insert(224, SyscallName::TimerGettime);
    table.insert(225, SyscallName::TimerGetoverrun);
    table.insert(226, SyscallName::TimerDelete);
    table.insert(227, SyscallName::ClockSettime);
    table.insert(228, SyscallName::ClockGettime);
    table.insert(229, SyscallName::ClockGetres);
    table.insert(230, SyscallName::ClockNanosleep);
    table.insert(231, SyscallName::ExitGroup);
    table.insert(232, SyscallName::EpollWait);
    table.insert(233, SyscallName::EpollCtl);
    table.insert(234, SyscallName::Tgkill);
    table.insert(235, SyscallName::Utimes);
    table.insert(237, SyscallName::Mbind);
    table.insert(238, SyscallName::SetMempolicy);
    table.insert(239, SyscallName::GetMempolicy);
    table.insert(240, SyscallName::MqOpen);
    table.insert(241, SyscallName::MqTimedreceive);
    table.insert(242, SyscallName::MqTimedsend);
    table.insert(243, SyscallName::MqNotify);
    table.insert(244, SyscallName::MqGetsetattr);
    table.insert(245, SyscallName::KexecLoad);
    table.insert(246, SyscallName::Waitid);
    table.insert(247, SyscallName::AddKey);
    table.insert(248, SyscallName::RequestKey);
    table.insert(249, SyscallName::Keyctl);
    table.insert(250, SyscallName::IoprioSet);
    assert(table@ =~= x86_table_below(251));
}

/// Adds part 7 of the x86_64 table.
fn insert_x86_part_7(table: &mut HashMap<u64, SyscallName>)
    requires
        old(table)@ == x86_table_below(251),
    ensures
        final(table)@ == x86_table_below(284),
{
    table.insert(251, SyscallName::IoprioGet);
    table.insert(252, SyscallName::InotifyInit);
    table.insert(253, SyscallName::InotifyAddWatch);
    table.insert(254, SyscallName::InotifyRmWatch);
    table.insert(256, SyscallName::MigratePages);
    table.insert(257, SyscallName::Openat);
    table.insert(258, SyscallName::Mkdirat);
    table.insert(259, SyscallName::Mknodat);
    table.insert(260, SyscallName::Fchownat);
    table.insert(261, SyscallName::Futimesat);
    table.insert(262, SyscallName::Newfstatat);
    table.insert(263, SyscallName::Unlinkat);
    table.insert(264, SyscallName::Renameat);
    table.insert(265, SyscallName::Linkat);
    table.insert(266, SyscallName::Symlinkat);
    table.insert(267, SyscallName::Readlinkat);
    table.insert(268, SyscallName::Fchmodat);
    table.insert(269, SyscallName::Faccessat);
    table.insert(270, SyscallName::Pselect6);
    table.insert(271, SyscallName::Ppoll);
    table.insert(272, SyscallName::Unshare);
    table.insert(273, SyscallName::SetRobustList);
    table.insert(274, SyscallName::GetRobustList);
    table.insert(275, SyscallName::Splice);
    table.insert(276, SyscallName::Tee);
    table.insert(277, SyscallName::SyncFileRange);
    table.insert(278, SyscallName::Vmsplice);
    table.insert(279, SyscallName::MovePages);
    table.insert(280, SyscallName::Utimensat);
    table.insert(281, SyscallName::EpollPwait);
    table.insert(282, SyscallName::Signalfd);
    table.insert(283, SyscallName::TimerfdCreate);
    assert(table@ =~= x86_table_below(284));
}

/// Adds part 8 of the x86_64 table.
fn insert_x86_part_8(table: &mut HashMap<u64, SyscallName>)
    requires
        old(table)@ == x86_table_below(284),
    ensures
        final(table)@ == x86_table_below(316),
{
    table.insert(284, SyscallName::Eventfd);
    table.insert(285, SyscallName::Fallocate);
    table.insert(286, SyscallName::TimerfdSettime);
    table.insert(287, SyscallName::TimerfdGettime);
    table.insert(288, SyscallName::Accept4);
    table.insert(289, SyscallName::Signalfd4);
    table.insert(290, SyscallName::Eventfd2);
    table.insert(291, SyscallName::EpollCreate1);
    table.insert(292, SyscallName::Dup3);
    table.insert(293, SyscallName::Pipe2);
    table.insert(294, SyscallName::InotifyInit1);
    table.insert(295, SyscallName::Preadv);
    table.insert(296, SyscallName::Pwritev);
    table.insert(297, SyscallName::RtTgsigqueueinfo);
    table.insert(298, SyscallName::PerfEventOpen);
    table.insert(299, SyscallName::Recvmmsg);
    table.insert(300, SyscallName::FanotifyInit);
    table.insert(301, SyscallName::FanotifyMark);
    table.insert(302, SyscallName::Prlimit64);
    table.insert(303, SyscallName::NameToHandleAt);
    table.insert(304, SyscallName::OpenByHandleAt);
    table.insert(305, SyscallName::ClockAdjtime);
    table.insert(306, SyscallName::Syncfs);
    table.insert(307, SyscallName::Sendmmsg);
    table.insert(308, SyscallName::Setns);
    table.insert(309, SyscallName::Getcpu);
    table.insert(310, SyscallName::ProcessVmReadv);
    table.insert(311, SyscallName::ProcessVmWritev);
    table.insert(312, SyscallName::Kcmp);
    table.insert(313, SyscallName::FinitModule);
    table.insert(314, SyscallName::SchedSetattr);
    table.insert(315, SyscallName::SchedGetattr);
    assert(table@ =~= x86_table_below(316));
}

/// Adds part 9 of the x86_64 table.
fn insert_x86_part_9(table: &mut HashMap<u64, SyscallName>)
    requires
        old(table)@ == x86_table_below(316),
    ensures
        final(table)@ == x86_table_below(428),
{
    table.insert(316, SyscallName::Renameat2);
    table.insert(317, SyscallName::Seccomp);
    table.insert(318, SyscallName::Getrandom);
    table.insert(319, SyscallName::MemfdCreate);
    table.insert(320, SyscallName::KexecFileLoad);
    table.insert(321, SyscallName::Bpf);
    table.insert(322, SyscallName::Execveat);
    table.insert(323, SyscallName::Userfaultfd);
    table.insert(324, SyscallName::Membarrier);
    table.insert(325, SyscallName::Mlock2);
    table.insert(326, SyscallName::CopyFileRange);
    table.insert(327, SyscallName::Preadv2);
    table.insert(328, SyscallName::Pwritev2);
    table.insert(329, SyscallName::PkeyMprotect);
    table.insert(330, SyscallName::PkeyAlloc);
    table.insert(331, SyscallName::PkeyFree);
    table.insert(332, SyscallName::Statx);
    table.insert(333, SyscallName::IoPgetevents);
    table.insert(334, SyscallName::Rseq);
    table.insert(424, SyscallName::PidfdSendSignal);
    table.insert(425, SyscallName::IoUringSetup);
    table.insert(426, SyscallName::IoUringEnter);
    table.insert(427, SyscallName::IoUringRegister);
    assert(table@ =~= x86_table_below(428));
}

/// x86_64 Linux syscall translator backed by a lookup table.
#[derive(Debug)]
pub struct X86_64SyscallTranslator {
    table: HashMap<u64, SyscallName>,
}

impl X86_64SyscallTranslator {
    /// The table that every translator holds is the x86_64 table.
    #[verifier::type_invariant]
    spec fn holds_x86_table(self) -> bool {
        self.table@ == x86_table()
    }

    /// The translator's table, as a map from number to name.
    pub closed spec fn table_view(&self) -> Map<u64, SyscallName> {
        self.table@
    }

    /// Create a new translator with the standard x86_64 syscall table.
    #[verifier::rlimit(100)]
    pub fn new() -> (t: Self)
        ensures
            t.table_view() == x86_table(),
    {
        let mut table = HashMap::new();
        assert(table@ =~= x86_table_below(0));
        insert_x86_part_0(&mut table);
        insert_x86_part_1(&mut table);
        insert_x86_part_2(&mut table);
        insert_x86_part_3(&mut table);
        insert_x86_part_4(&mut table);
        insert_x86_part_5(&mut table);
        insert_x86_part_6(&mut table);
        insert_x86_part_7(&mut table);
        insert_x86_part_8(&mut table);
        insert_x86_part_9(&mut table);
        proof {
            reveal(x86_table);
        }
        assert(table@ =~= x86_table());
        Self { table }
    }

    /// Look up the syscall name for a given number.
    pub fn lookup_name(&self, number: u64) -> (r: Option<&SyscallName>)
        ensures
            r is None <==> x86_name_of(number) is None,
            r matches Some(name) ==> x86_name_of(number) == Some(*name),
    {
        proof {
            use_type_invariant(self);
            lemma_x86_table_entry(number);
        }
        self.table.get(&number)
    }

    /// Look up the syscall number for a given name.  Every name is in the
    /// table, so the answer is always its x86_64 number.
    pub fn lookup_number(&self, name: SyscallName) -> (r: Option<u64>)
        ensures
            r == Some(x86_number_of(name)),
    {
        proof {
            use_type_invariant(self);
            lemma_x86_table_bijective();
        }
        let ghost k = x86_number_of(name);
        proof {
            lemma_x86_table_entry(k);
        }
        match number_holding(&self.table, name) {
            Some(num) => {
                proof {
                    lemma_x86_table_entry(num);
                }
                Some(num)
            },
            None => {
                assert(self.table@.contains_key(k));
                None
            },
        }
    }
}

/// Some number that `table` maps to `name`, or `None` when it maps no
/// number to `name`.
fn number_holding(table: &HashMap<u64, SyscallName>, name: SyscallName) -> (r: Option<u64>)
    ensures
        r matches Some(k) ==> table@.contains_key(k) && table@[k] == name,
        r is None ==> forall|k: u64| #[trigger] table@.contains_key(k) ==> table@[k] != name,
{
    let ghost m = table@;
    let ghost pairs = vstd::std_specs::hash::spec_hash_map_iter(table).remaining();
    assert(forall|j: int|
        0 <= j < pairs.len() ==> m.contains_key(*(#[trigger] pairs[j]).0) && m[*pairs[j].0]
            == *pairs[j].1);
    assert(forall|k: u64| #[trigger] m.contains_key(k) ==> pairs.contains((&k, &m[k])));
    for entry in it: table.iter()
        invariant
            it.seq() == pairs,
            m == table@,
            forall|j: int|
                0 <= j < pairs.len() ==> m.contains_key(*(#[trigger] pairs[j]).0) && m[*pairs[j].0]
                    == *pairs[j].1,
            forall|k: u64| #[trigger] m.contains_key(k) ==> pairs.contains((&k, &m[k])),
            forall|j: int| 0 <= j < it.index() ==> *(#[trigger] pairs[j]).1 != name,
    {
        let (num, n) = entry;
        if *n == name {
            return Some(*num);
        }
    }
    assert forall|k: u64| #[trigger] m.contains_key(k) implies m[k] != name by {
        let j = choose|j: int| 0 <= j < pairs.len() && pairs[j] == (&k, &m[k]);
        assert(*pairs[j].1 == m[k]);
    }
    None
}

impl Clone for X86_64SyscallTranslator {
    fn clone(&self) -> (t: Self)
        ensures
            t.table_view() == self.table_view(),
    {
        proof {
            use_type_invariant(self);
        }
        Self { table: self.table.clone() }
    }
}

impl Default for X86_64SyscallTranslator {
    fn default() -> (t: Self)
        ensures
            t.table_view() == x86_table(),
    {
        Self::new()
    }
}

impl SyscallTranslator for X86_64SyscallTranslator {
    /// A number in the table translates to its name with the number and
    /// arguments carried through; any other number is unknown.
    fn translate(&self, syscall_num: u64, args: [u64; 6]) -> (r: Result<SyscallResult, SyscallError>)
        ensures
            r == x86_translation(syscall_num, args),
    {
        match self.lookup_name(syscall_num) {
            Some(name) => Ok(SyscallResult { name: *name, number: syscall_num, args }),
            None => Err(SyscallError::UnknownSyscall(syscall_num)),
        }
    }
}

/// What translating `syscall_num` with `args` through the x86_64 table gives.
pub open spec fn x86_translation(syscall_num: u64, args: [u64; 6]) -> Result<SyscallResult, SyscallError> {
    match x86_name_of(syscall_num) {
        Some(name) => Ok(SyscallResult { name, number: syscall_num, args }),
        None => Err(SyscallError::UnknownSyscall(syscall_num)),
    }
}

} // verus!
