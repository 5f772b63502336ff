//! Whether the process may load eBPF programs: root, or the capabilities
//! that the kernel asks for.
use vstd::prelude::*;
use crate::text::owned;

verus! {

/// The capability set version that `capget` is asked for.
pub const LINUX_CAPABILITY_VERSION_3: u32 = 0x2008_0522;

/// `CAP_SYS_ADMIN`, enough on older kernels.
pub const CAP_SYS_ADMIN: u32 = 21;

/// `CAP_PERFMON`, needed beside `CAP_BPF`.
pub const CAP_PERFMON: u32 = 38;

/// `CAP_BPF`.
pub const CAP_BPF: u32 = 39;

/// The effective user and effective capability words of the process.
#[derive(Clone, Copy, Debug, PartialEq, Eq)]
pub struct PrivilegeStatus {
    pub euid: u32,
    pub effective_caps: [u32; 2],
}

/// Capability `cap` is set in the two capability words.
pub open spec fn cap_set(caps: Seq<u32>, cap: u32) -> bool {
    cap / 32 < 2 && caps[(cap / 32) as int] & (1u32 << (cap % 32)) != 0
}

/// Root, or `CAP_SYS_ADMIN`, or both `CAP_BPF` and `CAP_PERFMON`.
pub open spec fn privileged(s: PrivilegeStatus) -> bool {
    s.euid == 0 || cap_set(s.effective_caps@, CAP_SYS_ADMIN) || (cap_set(
        s.effective_caps@,
        CAP_BPF,
    ) && cap_set(s.effective_caps@, CAP_PERFMON))
}

/// What is said when the privileges do not suffice.
pub open spec fn insufficient_message() -> Seq<char> {
    "insufficient privileges to load eBPF programs: run as root or grant CAP_BPF and CAP_PERFMON (CAP_SYS_ADMIN also works on older kernels)"@
}

impl PrivilegeStatus {
    /// Whether these privileges let the process load eBPF programs.
    pub fn is_sufficient(&self) -> (r: bool)
        ensures
            r == privileged(*self),
    {
        self.euid == 0 || self.has_cap(CAP_SYS_ADMIN) || (self.has_cap(CAP_BPF) && self.has_cap(
            CAP_PERFMON,
        ))
    }

    /// Whether capability `cap` is effective.
    pub fn has_cap(&self, cap: u32) -> (r: bool)
        ensures
            r == cap_set(self.effective_caps@, cap),
    {
        let index = cap / 32;
        let bit = cap % 32;
        if index < 2 {
            let caps = self.effective_caps[index as usize];
            caps & (1u32 << bit) != 0
        } else {
            false
        }
    }
}

/// `Ok` when the privileges let the process load eBPF programs, else the
/// message that says what it needs.
pub fn ensure_sufficient(status: &PrivilegeStatus) -> (r: Result<(), String>)
    ensures
        r is Ok <==> privileged(*status),
        r matches Err(m) ==> m@ == insufficient_message(),
{
    if status.is_sufficient() {
        Ok(())
    } else {
        Err(
            owned(
                "insufficient privileges to load eBPF programs: run as root or grant CAP_BPF and CAP_PERFMON (CAP_SYS_ADMIN also works on older kernels)",
            ),
        )
    }
}

} // verus!
