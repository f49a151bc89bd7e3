use intel_features::model::{Privilege, Status};
use intel_features::probes::msr::{next_register, register_value, AccessStep, MsrProbe, MsrReads};
use intel_features::probes::{
    Context, ContextOptions, Findings, IoErrorKind, IoFailure, Probe,
};

fn failure(kind: IoErrorKind) -> IoFailure {
    IoFailure {
        kind,
        message: "Input/output error (os error 5)".to_string(),
    }
}

fn run(values: &[(u32, u64)]) -> MsrReads {
    let mut reads: MsrReads = Vec::new();
    while let Some(reg) = next_register(&reads) {
        let v = values
            .iter()
            .find(|(r, _)| *r == reg)
            .map(|(_, v)| Ok(*v))
            .unwrap_or_else(|| Err(failure(IoErrorKind::Other)));
        reads.push((reg, v));
    }
    reads
}

fn detail<'a>(f: &'a Findings, id: &str) -> Option<&'a str> {
    f.iter().find(|(x, _)| *x == id).and_then(|(_, d)| d.detail.as_deref())
}

fn status(f: &Findings, id: &str) -> Option<Status> {
    f.iter().find(|(x, _)| *x == id).map(|(_, d)| d.status)
}

#[test]
fn vmx_capabilities_are_read_only_after_vmx_basic() {
    let without = run(&[]);
    assert!(!without.iter().any(|(r, _)| *r == 0x48B || *r == 0x481 || *r == 0x48C));
    assert!(!without.iter().any(|(r, _)| *r == 0x614 || *r == 0x610));
    assert_eq!(without.len(), 8);
    let with = run(&[(0x480, 1), (0x606, 0xa0e03)]);
    assert!(with.iter().any(|(r, _)| *r == 0x48B));
    assert!(with.iter().any(|(r, _)| *r == 0x610));
    assert_eq!(with.len(), 13);
    assert_eq!(register_value(&with, 0x480), Some(1));
    assert_eq!(register_value(&with, 0x10A), None);
}

#[test]
fn register_values_decode() {
    let reads = run(&[
        (0x10A, 0x0000_0000_0c00_0b6b),
        (0x3A, 0x5),
        (0x480, 1),
        (0x48B, 1u64 << 33),
        (0x1A2, 0x0064_0000),
        (0x606, 0x000a_0e03),
        (0x614, 0x0000_0000_0000_0078),
        (0x610, 0x0000_00a0_0000_0064),
        (0x34, 0x1_0000_0007),
        (0x13A, 0x7d),
    ]);
    let f = MsrProbe.decide(&Ok("/dev/cpu/0/msr readable".to_string()), &reads);
    assert_eq!(f[0].0, "msr");
    assert_eq!(f[0].1.status, Status::Enabled);
    assert_eq!(status(&f, "rdcl_no"), Some(Status::Present));
    assert_eq!(status(&f, "ssb_no"), Some(Status::Absent));
    assert_eq!(
        detail(&f, "rdcl_no"),
        Some("IA32_ARCH_CAPABILITIES[0] (value 0xc000b6b)")
    );
    assert_eq!(status(&f, "feature_control_locked"), Some(Status::Enabled));
    assert_eq!(detail(&f, "vmx"), Some("locked; VMX enabled outside SMX"));
    assert_eq!(status(&f, "sgx"), None);
    assert_eq!(status(&f, "ept"), Some(Status::Present));
    assert_eq!(status(&f, "vpid"), Some(Status::Absent));
    assert_eq!(status(&f, "posted_intr"), None);
    assert_eq!(detail(&f, "tjmax"), Some("100 °C"));
    // Power unit 1/8 W: 120/8 = 15 W; PL1 100/8 = 12.5 W rounds to 12; PL2 160/8 = 20 W.
    assert_eq!(detail(&f, "pkg_tdp"), Some("15 W"));
    assert_eq!(detail(&f, "pkg_power_limit"), Some("PL1 12 W, PL2 20 W"));
    assert_eq!(detail(&f, "smi_count"), Some("7 SMIs"));
    assert_eq!(detail(&f, "boot_guard"), Some("SACM_INFO = 0x7d"));
    assert_eq!(status(&f, "hwp"), None);
}

#[test]
fn unreadable_msrs_leave_msr_features_unknown() {
    let f = MsrProbe.decide(&Err("requires root".to_string()), &Vec::new());
    assert_eq!(f[0].0, "msr");
    assert_eq!(f[0].1.status, Status::Disabled);
    assert_eq!(f[0].1.detail.as_deref(), Some("requires root"));
    assert_eq!(f.len(), MsrProbe.feature_ids().len() - 4);
    assert!(f[1..].iter().all(|(_, d)| d.status == Status::Unknown));
}

#[test]
fn access_outcomes() {
    let mut user = Context::new(Privilege::User, ContextOptions::default_options());
    match MsrProbe.access(&Err(failure(IoErrorKind::PermissionDenied)), &mut user) {
        AccessStep::Unavailable(m) => assert_eq!(m, "requires root"),
        other => panic!("unexpected {other:?}"),
    }
    match MsrProbe.access(&Err(failure(IoErrorKind::Other)), &mut user) {
        AccessStep::Unavailable(m) => {
            assert_eq!(m, "open failed: Input/output error (os error 5)")
        }
        other => panic!("unexpected {other:?}"),
    }
    assert_eq!(
        MsrProbe.after_load(&Ok(()), &Ok(())),
        Ok("readable (auto-loaded msr module)".to_string())
    );
    assert_eq!(
        MsrProbe.after_load(&Err("modprobe not found".to_string()), &Ok(())),
        Err("msr module not loaded and modprobe failed: modprobe not found".to_string())
    );
}
