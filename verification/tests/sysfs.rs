use intel_features::model::Status;
use intel_features::probes::sysfs::{PowercapEntry, SysfsProbe, SysfsReadings};
use intel_features::probes::{DirEntry, Findings, IoErrorKind, IoFailure, Probe, SystemMetadata};

fn failure(kind: IoErrorKind, message: &str) -> IoFailure {
    IoFailure {
        kind,
        message: message.to_string(),
    }
}

fn not_found<T>() -> Result<T, IoFailure> {
    Err(failure(IoErrorKind::NotFound, "No such file or directory (os error 2)"))
}

fn text(s: &str) -> Result<String, IoFailure> {
    Ok(s.to_string())
}

fn file() -> Result<SystemMetadata, IoFailure> {
    Ok(SystemMetadata { is_dir: false })
}

fn nothing() -> SysfsReadings {
    SysfsReadings {
        smt_active: not_found(),
        kvm: not_found(),
        kvm_open: not_found(),
        tpm_class: not_found(),
        tpm_dev: not_found(),
        scaling_driver: not_found(),
        scaling_governor: not_found(),
        no_turbo: not_found(),
        idle_driver: not_found(),
        idle_states: vec![],
        powercap: not_found(),
        resctrl_info: not_found(),
        resctrl: not_found(),
        ipmi: not_found(),
        ipmi_alt: not_found(),
        bluetooth: not_found(),
        sgx_enclave: not_found(),
    }
}

fn get<'a>(f: &'a Findings, id: &str) -> &'a intel_features::model::Detection {
    &f.iter().find(|(x, _)| *x == id).unwrap().1
}

#[test]
fn nothing_readable_is_unknown_or_absent_as_inspected() {
    let f = SysfsProbe.decide(&nothing());
    // `sgx` is reported only when the enclave device exists or cannot be inspected.
    assert_eq!(f.len(), SysfsProbe.feature_ids().len() - 1);
    assert_eq!(get(&f, "smt").status, Status::Unknown);
    assert_eq!(
        get(&f, "smt").detail.as_deref(),
        Some("cannot inspect smt/active: No such file or directory (os error 2)")
    );
    assert_eq!(get(&f, "kvm").status, Status::Absent);
    assert_eq!(get(&f, "tpm").status, Status::Absent);
    assert_eq!(get(&f, "resctrl").status, Status::Absent);
    assert_eq!(get(&f, "ipmi").status, Status::Absent);
    assert_eq!(get(&f, "bluetooth").detail.as_deref(), Some("no bluetooth class"));
}

#[test]
fn smt_and_turbo_values() {
    let mut r = nothing();
    r.smt_active = text("1\n");
    r.no_turbo = text("1\n");
    let f = SysfsProbe.decide(&r);
    assert_eq!(get(&f, "smt").status, Status::Enabled);
    assert_eq!(get(&f, "turbo").status, Status::Disabled);
    assert_eq!(get(&f, "turbo").detail.as_deref(), Some("no_turbo=1 (turbo off)"));
    r.smt_active = text("forceoff\n");
    let f = SysfsProbe.decide(&r);
    assert_eq!(get(&f, "smt").status, Status::Unknown);
    assert_eq!(get(&f, "smt").detail.as_deref(), Some("malformed smt/active=\"forceoff\""));
}

#[test]
fn kvm_open_outcomes() {
    let mut r = nothing();
    r.kvm = file();
    r.kvm_open = Ok(());
    assert_eq!(get(&SysfsProbe.decide(&r), "kvm").status, Status::Enabled);
    r.kvm_open = Err(failure(IoErrorKind::PermissionDenied, "denied"));
    assert_eq!(get(&SysfsProbe.decide(&r), "kvm").status, Status::Present);
    r.kvm_open = Err(failure(IoErrorKind::Other, "busy"));
    let f = SysfsProbe.decide(&r);
    assert_eq!(get(&f, "kvm").detail.as_deref(), Some("/dev/kvm open failed: busy"));
}

#[test]
fn pstate_detail_names_driver_and_governor() {
    let mut r = nothing();
    r.scaling_driver = text("acpi-cpufreq\n");
    r.scaling_governor = text("schedutil\n");
    let f = SysfsProbe.decide(&r);
    assert_eq!(get(&f, "intel_pstate").status, Status::Absent);
    assert_eq!(
        get(&f, "intel_pstate").detail.as_deref(),
        Some("driver=acpi-cpufreq, governor=schedutil")
    );
}

#[test]
fn idle_states_stop_at_the_first_missing_state() {
    let mut r = nothing();
    r.idle_driver = text("intel_idle\n");
    r.idle_states = vec![text("POLL\n"), text("C1E\n"), not_found(), text("C6\n")];
    let f = SysfsProbe.decide(&r);
    assert_eq!(get(&f, "intel_idle").status, Status::Enabled);
    assert_eq!(
        get(&f, "intel_idle").detail.as_deref(),
        Some("driver=intel_idle, states: POLL C1E")
    );
    r.idle_states = vec![text("POLL"), Err(failure(IoErrorKind::PermissionDenied, "denied"))];
    let f = SysfsProbe.decide(&r);
    assert_eq!(get(&f, "intel_idle").status, Status::Unknown);
}

#[test]
fn rapl_lists_domains_and_needs_a_full_listing() {
    let entry = |name: &str, domain: Result<String, IoFailure>| {
        Some(PowercapEntry {
            file_name: name.to_string(),
            name: domain,
        })
    };
    let mut r = nothing();
    r.powercap = Ok(vec![
        entry("intel-rapl:0", text("package-0\n")),
        entry("dtpm", text("dtpm\n")),
        entry("intel-rapl:0:0", text("core\n")),
    ]);
    let f = SysfsProbe.decide(&r);
    assert_eq!(get(&f, "rapl").status, Status::Enabled);
    assert_eq!(get(&f, "rapl").detail.as_deref(), Some("domains: package-0, core"));
    r.powercap = Ok(vec![entry("dtpm", text("dtpm"))]);
    assert_eq!(get(&SysfsProbe.decide(&r), "rapl").status, Status::Absent);
    r.powercap = Ok(vec![entry("intel-rapl:0", not_found()), None]);
    assert_eq!(get(&SysfsProbe.decide(&r), "rapl").status, Status::Unknown);
}

#[test]
fn resctrl_ipmi_bluetooth_and_sgx() {
    let mut r = nothing();
    r.resctrl = Ok(SystemMetadata { is_dir: true });
    r.ipmi_alt = file();
    r.bluetooth = Ok(vec![Some(DirEntry {
        path: "/sys/class/bluetooth/hci0".to_string(),
        file_name: "hci0".to_string(),
    })]);
    r.sgx_enclave = file();
    let f = SysfsProbe.decide(&r);
    assert_eq!(get(&f, "resctrl").status, Status::Present);
    assert_eq!(get(&f, "ipmi").status, Status::Enabled);
    assert_eq!(get(&f, "bluetooth").status, Status::Enabled);
    assert_eq!(get(&f, "sgx").status, Status::Enabled);
    assert_eq!(f.last().unwrap().0, "sgx");
    r.bluetooth = Ok(vec![None]);
    assert_eq!(get(&SysfsProbe.decide(&r), "bluetooth").status, Status::Unknown);
}
