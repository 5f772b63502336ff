//! The record layout shared by the eBPF programs and userspace: constants,
//! the record header, the kind tags, and one fixed-layout record per probe.
pub mod codec;
pub mod file;
pub mod path_filter;
pub mod header;
pub mod kinds;
pub mod network;
pub mod process;

pub use file::{
    FileOpenAt2Event, FileOpenEvent, FilePWrite64Event, FileRenameAt2Event, FileRenameAtEvent,
    FileRenameEvent, FileUnlinkAtEvent, FileUnlinkEvent, FileWriteEvent, FileWriteVEvent,
};
pub use path_filter::{file_passes_filter, FileFilterConfig};
pub use header::EventHeader;
pub use kinds::{EventKind, ExecSource, NetworkDirection, NetworkFamily};
pub use network::{NetworkBindEvent, NetworkConnectEvent, NetworkListenEvent};
pub use process::{ExecSyscallEvent, ProcessExecEvent, ProcessExitEvent, ProcessForkEvent};



use vstd::prelude::*;

verus! {

/// Schema version written into every record header.
pub const EVENT_SCHEMA_VERSION: u16 = 1;

/// Length of a kernel task name buffer.
pub const COMM_LEN: usize = 16;

/// Length of a path buffer.
pub const PATH_LEN: usize = 256;

/// Header flag: a filename did not fit its buffer and was cut.
pub const EVENT_FLAG_FILENAME_TRUNCATED: u16 = 1;

/// Number of prefixes the in-kernel file filter can hold.
pub const FILE_FILTER_MAX_PREFIXES: usize = 8;

/// Length of each in-kernel file filter prefix.
pub const FILE_FILTER_PREFIX_LEN: usize = 64;

} // verus!
