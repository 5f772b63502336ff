//! Conversion of raw ring-buffer records into enriched, filtered and
//! annotated normalized events.
pub mod address;
pub mod file;
pub mod helpers;
pub mod network;
pub mod process;
pub mod types;

pub use file::{
    normalize_file_open, normalize_file_openat2, normalize_file_pwrite64, normalize_file_rename,
    normalize_file_renameat, normalize_file_renameat2, normalize_file_unlink,
    normalize_file_unlinkat, normalize_file_write, normalize_file_writev,
};
pub use network::{normalize_network_bind, normalize_network_connect, normalize_network_listen};
pub use process::{normalize_exec, normalize_exec_syscall, normalize_exit, normalize_fork};
pub use types::{
    FileOpen, FileOpenAt2, FilePWrite64, FileRename, FileRenameAt, FileRenameAt2, FileUnlink,
    FileUnlinkAt, FileWrite, FileWriteV, NetworkBind, NetworkConnect, NetworkListen,
    NormalizedEvent, ProcessExit, ProcessRelationship, ProcessStart,
};
