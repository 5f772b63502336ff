//! Event kinds and the small enumerations carried inside raw records.
use vstd::prelude::*;

verus! {

/// The kind tag stored in every record header.
#[derive(Clone, Copy, Debug, PartialEq, Eq)]
pub enum EventKind {
    ProcessExec,
    FileAccess,
    NetworkConnect,
    ProcessFork,
    ProcessExit,
    ExecSyscall,
    FileOpen,
    FileOpenAt2,
    FileWrite,
    FileWriteV,
    FilePWrite64,
    FileRename,
    FileRenameAt,
    FileRenameAt2,
    FileUnlink,
    FileUnlinkAt,
    NetworkBind,
    NetworkListen,
}

/// The wire value of each event kind.
pub open spec fn kind_code(k: EventKind) -> u16 {
    match k {
        EventKind::ProcessExec => 1,
        EventKind::FileAccess => 2,
        EventKind::NetworkConnect => 3,
        EventKind::ProcessFork => 4,
        EventKind::ProcessExit => 5,
        EventKind::ExecSyscall => 6,
        EventKind::FileOpen => 7,
        EventKind::FileOpenAt2 => 8,
        EventKind::FileWrite => 9,
        EventKind::FileWriteV => 10,
        EventKind::FilePWrite64 => 11,
        EventKind::FileRename => 12,
        EventKind::FileRenameAt => 13,
        EventKind::FileRenameAt2 => 14,
        EventKind::FileUnlink => 15,
        EventKind::FileUnlinkAt => 16,
        EventKind::NetworkBind => 17,
        EventKind::NetworkListen => 18,
    }
}

impl EventKind {
    /// The wire value of this kind.
    pub fn as_u16(self) -> (r: u16)
        ensures
            r == kind_code(self),
    {
        match self {
            EventKind::ProcessExec => 1,
            EventKind::FileAccess => 2,
            EventKind::NetworkConnect => 3,
            EventKind::ProcessFork => 4,
            EventKind::ProcessExit => 5,
            EventKind::ExecSyscall => 6,
            EventKind::FileOpen => 7,
            EventKind::FileOpenAt2 => 8,
            EventKind::FileWrite => 9,
            EventKind::FileWriteV => 10,
            EventKind::FilePWrite64 => 11,
            EventKind::FileRename => 12,
            EventKind::FileRenameAt => 13,
            EventKind::FileRenameAt2 => 14,
            EventKind::FileUnlink => 15,
            EventKind::FileUnlinkAt => 16,
            EventKind::NetworkBind => 17,
            EventKind::NetworkListen => 18,
        }
    }
}

/// Address family of a socket record.
#[derive(Clone, Copy, Debug, PartialEq, Eq)]
pub enum NetworkFamily {
    Unknown,
    Ipv4,
    Ipv6,
}

/// The wire value of each address family (the kernel's `AF_*` numbers).
pub open spec fn family_code(f: NetworkFamily) -> u16 {
    match f {
        NetworkFamily::Unknown => 0,
        NetworkFamily::Ipv4 => 2,
        NetworkFamily::Ipv6 => 10,
    }
}

impl NetworkFamily {
    /// The wire value of this family.
    pub fn as_u16(self) -> (r: u16)
        ensures
            r == family_code(self),
    {
        match self {
            NetworkFamily::Unknown => 0,
            NetworkFamily::Ipv4 => 2,
            NetworkFamily::Ipv6 => 10,
        }
    }
}

/// Direction recorded by the network probes.
#[derive(Clone, Copy, Debug, PartialEq, Eq)]
pub enum NetworkDirection {
    Outbound,
    Listener,
}

/// The wire value of each direction.
pub open spec fn direction_code(d: NetworkDirection) -> u8 {
    match d {
        NetworkDirection::Outbound => 1,
        NetworkDirection::Listener => 2,
    }
}

impl NetworkDirection {
    /// The wire value of this direction.
    pub fn as_u8(self) -> (r: u8)
        ensures
            r == direction_code(self),
    {
        match self {
            NetworkDirection::Outbound => 1,
            NetworkDirection::Listener => 2,
        }
    }
}

/// Which exec syscall produced an exec-syscall record.
#[derive(Clone, Copy, Debug, PartialEq, Eq)]
pub enum ExecSource {
    Execve,
    Execveat,
}

/// The wire value of each exec source.
pub open spec fn source_code(s: ExecSource) -> u8 {
    match s {
        ExecSource::Execve => 1,
        ExecSource::Execveat => 2,
    }
}

impl ExecSource {
    /// The wire value of this source.
    pub fn as_u8(self) -> (r: u8)
        ensures
            r == source_code(self),
    {
        match self {
            ExecSource::Execve => 1,
            ExecSource::Execveat => 2,
        }
    }
}

} // verus!
