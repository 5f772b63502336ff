use rand_guard::privilege::{
    ensure_sufficient, PrivilegeStatus, CAP_BPF, CAP_PERFMON, CAP_SYS_ADMIN,
};

fn cap_bit(cap: u32) -> [u32; 2] {
    let mut caps = [0; 2];
    caps[(cap / 32) as usize] = 1_u32 << (cap % 32);
    caps
}

#[test]
fn root_is_sufficient_without_capabilities() {
    let status = PrivilegeStatus { euid: 0, effective_caps: [0, 0] };

    assert!(status.is_sufficient());
}

#[test]
fn cap_sys_admin_is_sufficient_for_non_root() {
    let status = PrivilegeStatus { euid: 1000, effective_caps: cap_bit(CAP_SYS_ADMIN) };

    assert!(status.is_sufficient());
}

#[test]
fn cap_bpf_and_cap_perfmon_are_sufficient_for_non_root() {
    let mut caps = cap_bit(CAP_BPF);
    caps[1] |= cap_bit(CAP_PERFMON)[1];
    let status = PrivilegeStatus { euid: 1000, effective_caps: caps };

    assert!(status.is_sufficient());
}

#[test]
fn partial_capabilities_are_rejected_for_non_root() {
    let status = PrivilegeStatus { euid: 1000, effective_caps: cap_bit(CAP_BPF) };

    assert!(!status.is_sufficient());
}

#[test]
fn capability_beyond_the_two_words_is_never_set() {
    let status = PrivilegeStatus { euid: 1000, effective_caps: [u32::MAX, u32::MAX] };
    assert!(status.has_cap(63));
    assert!(!status.has_cap(64));
    assert!(!status.has_cap(1000));
}

#[test]
fn insufficient_privileges_are_explained() {
    let status = PrivilegeStatus { euid: 1000, effective_caps: [0, 0] };
    assert_eq!(
        ensure_sufficient(&status),
        Err("insufficient privileges to load eBPF programs: run as root or grant CAP_BPF and CAP_PERFMON (CAP_SYS_ADMIN also works on older kernels)".to_string())
    );
    let root = PrivilegeStatus { euid: 0, effective_caps: [0, 0] };
    assert_eq!(ensure_sufficient(&root), Ok(()));
}
