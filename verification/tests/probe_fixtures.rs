//! The probes' decisions on fixed host readings.

use intel_features::model::{Privilege, Status};
use intel_features::probes::acpi::{AcpiProbe, AcpiReadings};
use intel_features::probes::firmware::{DmiProbe, EfiProbe, EfiReadings};
use intel_features::probes::msr::{next_register, AccessStep, MsrProbe, MsrReads};
use intel_features::probes::pci::PciProbe;
use intel_features::probes::procfs::ProcfsProbe;
use intel_features::probes::sysfs::{SysfsProbe, SysfsReadings};
use intel_features::probes::{
    Context, ContextOptions, Findings, IoErrorKind, IoFailure, SystemMetadata,
};

fn failure(kind: IoErrorKind) -> IoFailure {
    IoFailure {
        kind,
        message: format!("{kind:?}"),
    }
}

fn not_found<T>() -> Result<T, IoFailure> {
    Err(failure(IoErrorKind::NotFound))
}

fn dir() -> Result<SystemMetadata, IoFailure> {
    Ok(SystemMetadata { is_dir: true })
}

fn status(findings: &Findings, id: &str) -> Status {
    findings
        .iter()
        .find(|(found, _)| *found == id)
        .unwrap_or_else(|| panic!("missing {id}"))
        .1
        .status
}

#[test]
fn acpi_unavailable_differs_from_inspected_and_absent() {
    let missing = AcpiProbe.decide(&AcpiReadings {
        tables: not_found(),
        iommu: not_found(),
        mem_sleep: not_found(),
    });
    assert_eq!(status(&missing, "cxl"), Status::Unknown);
    let empty = AcpiProbe.decide(&AcpiReadings {
        tables: Ok(vec![]),
        iommu: not_found(),
        mem_sleep: not_found(),
    });
    assert_eq!(status(&empty, "cxl"), Status::Absent);
}

#[test]
fn partial_pci_enumeration_cannot_prove_absence() {
    let partial = PciProbe.decide(&Ok(vec![None]), &vec![]);
    assert_eq!(status(&partial, "igpu"), Status::Unknown);
    let empty = PciProbe.decide(&Ok(vec![]), &vec![]);
    assert_eq!(status(&empty, "igpu"), Status::Absent);
}

#[test]
fn procfs_reports_asymmetric_flags_across_all_blocks() {
    let cpuinfo = "processor : 0\nflags : sse avx2\n\nprocessor : 1\nflags : sse\n";
    let findings = ProcfsProbe.decide(&Ok(cpuinfo.to_string()));
    let avx2 = findings.iter().find(|(id, _)| *id == "avx2").unwrap();
    assert_eq!(avx2.1.status, Status::Present);
    assert!(avx2.1.detail.as_deref().unwrap().contains("1/2 CPUs"));
    assert_eq!(status(&findings, "sse"), Status::Present);
}

#[test]
fn malformed_cpuinfo_is_unknown_not_absent() {
    let findings = ProcfsProbe.decide(&Ok("processor : 0\n".to_string()));
    assert_eq!(status(&findings, "avx2"), Status::Unknown);
}

#[test]
fn missing_efi_interface_does_not_claim_legacy_bios() {
    let findings = EfiProbe.decide(&EfiReadings {
        root: not_found(),
        efivars: not_found(),
        secure_boot: None,
        setup_mode: None,
        esrt: not_found(),
    });
    assert_eq!(status(&findings, "uefi_boot"), Status::Unknown);
}

#[test]
fn confirmed_efi_with_missing_esrt_is_absent() {
    let findings = EfiProbe.decide(&EfiReadings {
        root: dir(),
        efivars: Ok(vec![]),
        secure_boot: None,
        setup_mode: None,
        esrt: not_found(),
    });
    assert_eq!(status(&findings, "uefi_boot"), Status::Enabled);
    assert_eq!(status(&findings, "esrt"), Status::Absent);
}

fn smbios_type16(ecc: u8) -> Vec<u8> {
    let mut data = vec![0; 0x0f];
    data[0] = 16;
    data[1] = 0x0f;
    data[6] = ecc;
    data.extend_from_slice(&[0, 0]);
    data.extend_from_slice(&[127, 4, 0, 0, 0, 0]);
    data
}

#[test]
fn smbios_ecc_none_and_unknown_are_distinct() {
    let none = DmiProbe.decide(&Ok(smbios_type16(3)));
    assert_eq!(status(&none, "memory_ecc"), Status::Absent);
    let unknown = DmiProbe.decide(&Ok(smbios_type16(2)));
    assert_eq!(status(&unknown, "memory_ecc"), Status::Unknown);
}

fn sysfs_nothing() -> SysfsReadings {
    SysfsReadings {
        smt_active: not_found(),
        kvm: not_found(),
        kvm_open: not_found(),
        tpm_class: not_found(),
        tpm_dev: not_found(),
        scaling_driver: not_found(),
        scaling_governor: not_found(),
        no_turbo: not_found(),
        idle_driver: not_found(),
        idle_states: vec![],
        powercap: not_found(),
        resctrl_info: not_found(),
        resctrl: not_found(),
        ipmi: not_found(),
        ipmi_alt: not_found(),
        bluetooth: not_found(),
        sgx_enclave: not_found(),
    }
}

#[test]
fn intel_pstate_does_not_assert_hwp() {
    let mut readings = sysfs_nothing();
    readings.scaling_driver = Ok("intel_pstate".to_string());
    let findings = SysfsProbe.decide(&readings);
    assert!(!findings.iter().any(|(id, _)| *id == "hwp"));
    assert_eq!(status(&findings, "intel_pstate"), Status::Enabled);
}

/// Runs the register schedule against a fixed set of register values.
fn read_registers(values: &[(u32, u64)]) -> MsrReads {
    let mut reads: MsrReads = Vec::new();
    while let Some(reg) = next_register(&reads) {
        let v = values
            .iter()
            .find(|(r, _)| *r == reg)
            .map(|(_, v)| Ok(*v))
            .unwrap_or_else(|| Err(failure(IoErrorKind::Other)));
        reads.push((reg, v));
    }
    reads
}

#[test]
fn hwp_state_comes_from_pm_enable_msr() {
    for (value, expected) in [(1, Status::Enabled), (0, Status::Disabled)] {
        let mut ctx = Context::new(Privilege::Root, ContextOptions::default_options());
        let access = match MsrProbe.access(&Ok(()), &mut ctx) {
            AccessStep::Ready(detail) => Ok(detail),
            other => panic!("unexpected {other:?}"),
        };
        let reads = read_registers(&[(0x770, value)]);
        let findings = MsrProbe.decide(&access, &reads);
        assert_eq!(status(&findings, "hwp"), expected);
    }
}

#[test]
fn module_loading_requires_explicit_root_opt_in_and_runs_once() {
    let mut loads = 0;
    let missing: Result<(), IoFailure> = not_found();

    let mut no_opt = Context::new(Privilege::Root, ContextOptions::default_options());
    if let AccessStep::LoadModule = MsrProbe.access(&missing, &mut no_opt) {
        loads += 1;
    }
    assert_eq!(loads, 0);

    let mut user_opt = Context::new(
        Privilege::User,
        ContextOptions {
            load_msr_module: true,
        },
    );
    if let AccessStep::LoadModule = MsrProbe.access(&missing, &mut user_opt) {
        loads += 1;
    }
    assert_eq!(loads, 0);

    let mut root_opt = Context::new(
        Privilege::Root,
        ContextOptions {
            load_msr_module: true,
        },
    );
    for _ in 0..2 {
        if let AccessStep::LoadModule = MsrProbe.access(&missing, &mut root_opt) {
            loads += 1;
        }
    }
    assert_eq!(loads, 1);
}
