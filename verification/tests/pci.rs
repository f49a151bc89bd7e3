use intel_features::model::Status;
use intel_features::probes::pci::{
    chipset_info, evaluate, rules, PciDevice, PciEntryReadings, PciProbe, Rule,
};
use intel_features::probes::IoFailure;
use intel_features::probes::IoErrorKind;

fn dev(class_hi: u8, subclass: u8, device: u16, driver: Option<&str>) -> PciDevice {
    PciDevice {
        device,
        class_hi,
        subclass,
        driver: driver.map(str::to_string),
    }
}

fn rule(feature: &str) -> Rule {
    rules().into_iter().find(|r| r.feature == feature).unwrap()
}

#[test]
fn class_match_ignores_subclass_when_0xff() {
    // igpu matches any display-class (0x03) device regardless of subclass.
    assert!(intel_features::probes::pci::matches(&dev(0x03, 0x80, 0x1234, None), &rule("igpu")));
}

#[test]
fn subclass_must_match_when_specified() {
    // ethernet is class 0x02 subclass 0x00; a wifi (0x02/0x80) must not match it.
    assert!(intel_features::probes::pci::matches(&dev(0x02, 0x00, 0x125c, None), &rule("ethernet")));
    assert!(!intel_features::probes::pci::matches(&dev(0x02, 0x80, 0x272b, None), &rule("ethernet")));
}

#[test]
fn device_id_match() {
    assert!(intel_features::probes::pci::matches(&dev(0x08, 0x00, 0x0b25, None), &rule("dsa")));
    assert!(!intel_features::probes::pci::matches(&dev(0x08, 0x00, 0x9999, None), &rule("dsa")));
}

#[test]
fn driver_name_match() {
    assert!(intel_features::probes::pci::matches(
        &dev(0x02, 0x00, 0x1, Some("igc")),
        &rule("ethernet")
    ));
}

#[test]
fn evaluate_enabled_prefers_driver_bound() {
    let devs = vec![
        dev(0x03, 0x00, 0x1, None),
        dev(0x03, 0x00, 0x2, Some("i915")),
    ];
    let d = evaluate(&rule("igpu"), &devs, true, &vec![]);
    assert_eq!(d.status, Status::Enabled);
    assert!(d.detail.unwrap().contains("i915"));
}

#[test]
fn evaluate_absent_when_no_match() {
    assert_eq!(
        evaluate(&rule("vmd"), &vec![], true, &vec![]).status,
        Status::Absent
    );
}

#[test]
fn incomplete_enumeration_without_match_is_unknown() {
    assert_eq!(
        evaluate(&rule("vmd"), &vec![], false, &vec![]).status,
        Status::Unknown
    );
}

fn entry(address: &str, vendor: &str, device: &str, class: &str) -> Option<PciEntryReadings> {
    Some(PciEntryReadings {
        address: address.to_string(),
        vendor: Ok(vendor.to_string()),
        device: Ok(device.to_string()),
        class: Ok(class.to_string()),
        driver: None,
    })
}

#[test]
fn chipset_is_the_first_intel_lpc_bridge() {
    let listing = Ok(vec![
        entry("0000:00:02.0", "0x8086", "0xa780", "0x030000"),
        entry("0000:00:1f.0", "0x8086\n", "0xa1c3\n", "0x060100\n"),
        entry("0000:00:1f.1", "0x8086", "0xa1c4", "0x060100"),
    ]);
    let c = chipset_info(&listing).unwrap();
    assert_eq!(c.device_id, 0xa1c3);
    assert_eq!(c.vendor_id, 0x8086);
    assert_eq!(c.address, "0000:00:1f.0");
    assert_eq!(c.name, "Intel PCH LPC/eSPI bridge");
    let missing: Result<Vec<Option<PciEntryReadings>>, IoFailure> = Err(IoFailure {
        kind: IoErrorKind::NotFound,
        message: "No such file or directory (os error 2)".to_string(),
    });
    assert!(chipset_info(&missing).is_none());
}

#[test]
fn pci_probe_reports_every_rule() {
    let listing = Ok(vec![entry("0000:00:02.0", "0x8086", "0xa780", "0x030000")]);
    let out = PciProbe.decide(&listing, &vec![]);
    assert_eq!(out.len(), rules().len());
    let igpu = out.iter().find(|(id, _)| *id == "igpu").unwrap();
    assert_eq!(igpu.1.status, Status::Present);
}
