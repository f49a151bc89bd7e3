use intel_features::model::{Detection, Privilege, Status};
use intel_features::probes::procfs::ProcfsProbe;
use intel_features::probes::{
    all,
    undeclared_finding, unavailable, Context, ContextOptions, IoErrorKind, IoFailure, Probe,
};

#[test]
fn unavailable_marks_every_feature_unknown() {
    let out = unavailable("x", &vec!["a", "b"], "why");
    assert_eq!(out.len(), 2);
    assert_eq!(out[1].0, "b");
    assert_eq!(out[1].1.status, Status::Unknown);
    assert_eq!(out[1].1.detail.as_deref(), Some("why"));
}

#[test]
fn effective_privilege_comes_from_the_uid_line() {
    let root = Ok("Name:\tx\nUid:\t1000\t0\t0\t0\n".to_string());
    assert_eq!(
        Context::with_options(ContextOptions::default_options(), &root).privilege,
        Privilege::Root
    );
    let user = Ok("Uid:\t0\t1000\t1000\t1000\n".to_string());
    assert_eq!(Context::detect(&user).privilege, Privilege::User);
    let unreadable = Err(IoFailure {
        kind: IoErrorKind::PermissionDenied,
        message: "denied".to_string(),
    });
    assert_eq!(Context::detect(&unreadable).privilege, Privilege::User);
    assert!(!Context::detect(&unreadable).options.load_msr_module);
}

#[test]
fn module_load_is_claimed_once() {
    let mut ctx = Context::new(Privilege::Root, ContextOptions { load_msr_module: true });
    assert!(ctx.is_root());
    assert!(ctx.try_mark_module_load());
    assert!(!ctx.try_mark_module_load());
    assert!(!ctx.try_mark_module_load());
}

#[test]
fn findings_are_checked_against_the_declaring_probe() {
    let ids = ProcfsProbe.feature_ids();
    let ok = vec![("sse", Detection::new(Status::Present, "procfs"))];
    assert_eq!(undeclared_finding(&ok, "procfs", &ids), None);
    let wrong_source = vec![("sse", Detection::new(Status::Present, "cpuid"))];
    assert_eq!(undeclared_finding(&wrong_source, "procfs", &ids), Some("sse"));
    let undeclared = vec![("smt", Detection::new(Status::Present, "procfs"))];
    assert_eq!(undeclared_finding(&undeclared, "procfs", &ids), Some("smt"));
}

#[test]
fn procfs_flag_on_every_cpu_and_on_none() {
    let cpuinfo = "processor\t: 0\nflags\t\t: sse pni\n\nprocessor\t: 1\nflags\t\t: sse pni\n";
    let out = ProcfsProbe.decide(&Ok(cpuinfo.to_string()));
    let sse3 = out.iter().find(|(id, _)| *id == "sse3").unwrap();
    assert_eq!(
        sse3.1.detail.as_deref(),
        Some("/proc/cpuinfo flag 'pni' on all 2 CPUs")
    );
    let avx = out.iter().find(|(id, _)| *id == "avx").unwrap();
    assert_eq!(avx.1.status, Status::Absent);
    assert_eq!(avx.1.detail.as_deref(), Some("no 'avx' flag on any of 2 CPUs"));
    let none = ProcfsProbe.decide(&Ok("flags : sse\n".to_string()));
    assert_eq!(
        none[0].1.detail.as_deref(),
        Some("malformed /proc/cpuinfo: no processor blocks")
    );
    assert_eq!(none.len(), ProcfsProbe.feature_ids().len());
}

#[test]
fn probes_run_in_registration_order() {
    assert_eq!(
        all(),
        vec!["cpuid", "procfs", "linux-sysfs", "linux-vuln", "msr", "pci", "acpi", "efi", "dmi"]
    );
}
