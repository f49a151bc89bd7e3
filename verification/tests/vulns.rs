use intel_features::model::Status;
use intel_features::probes::vulns::{classify, VulnProbe};
use intel_features::probes::{IoErrorKind, IoFailure, Probe};

#[test]
fn not_affected_is_enabled() {
    assert_eq!(classify("Not affected").status, Status::Enabled);
}

#[test]
fn mitigation_is_enabled_and_keeps_detail() {
    let d = classify("Mitigation: Enhanced IBRS");
    assert_eq!(d.status, Status::Enabled);
    assert_eq!(d.detail.as_deref(), Some("mitigated: Enhanced IBRS"));
}

#[test]
fn vulnerable_is_disabled() {
    let d = classify("Vulnerable: No microcode");
    assert_eq!(d.status, Status::Disabled);
    assert_eq!(d.detail.as_deref(), Some("Vulnerable: No microcode"));
}

#[test]
fn unrecognised_is_unknown() {
    assert_eq!(
        classify("Processor vulnerable; something").status,
        Status::Unknown
    );
}

#[test]
fn vulnerability_files_are_keyed_by_catalog_id() {
    let listing = Ok(vec![
        Some(("meltdown".to_string(), Ok("Not affected\n".to_string()))),
        Some(("zz_new".to_string(), Ok("Vulnerable".to_string()))),
        Some(("aa_new".to_string(), Ok("Not affected".to_string()))),
        None,
    ]);
    let out = VulnProbe.decide(&listing);
    assert_eq!(out.len(), 2);
    assert_eq!(out[0].0, "meltdown");
    assert_eq!(out[0].1.status, Status::Enabled);
    assert_eq!(out[1].0, "vuln_other");
    assert_eq!(out[1].1.status, Status::Unknown);
    assert_eq!(
        out[1].1.detail.as_deref(),
        Some("aa_new = Not affected; zz_new = Vulnerable")
    );
}

#[test]
fn unreadable_vulnerability_directory_is_unknown() {
    let listing = Err(IoFailure {
        kind: IoErrorKind::PermissionDenied,
        message: "Permission denied (os error 13)".to_string(),
    });
    let out = VulnProbe.decide(&listing);
    assert_eq!(out.len(), VulnProbe.feature_ids().len());
    assert!(out.iter().all(|(_, d)| d.status == Status::Unknown));
}
