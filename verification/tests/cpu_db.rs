use intel_features::cpu_db::{feature_expectation, lookup, max_memory_channels};
use intel_features::model::ClassExpectation;

#[test]
fn identifies_modern_client_cpu() {
    let cpu = lookup("GenuineIntel", 6, 0xc6).unwrap();
    assert_eq!(cpu.codename, "Arrow Lake");
    assert_eq!(cpu.generation, "Core Ultra Series 2");
}

#[test]
fn shared_model_is_reported_as_a_range() {
    let cpu = lookup("GenuineIntel", 6, 0x55).unwrap();
    assert_eq!(cpu.generation, "1st–3rd Gen Xeon Scalable");
    assert_eq!(max_memory_channels("GenuineIntel", 6, 0x55), Some(6));
}

#[test]
fn refuses_unknown_or_non_intel_cpu() {
    assert_eq!(lookup("GenuineIntel", 6, 0xfe), None);
    assert_eq!(lookup("AuthenticAMD", 6, 0x97), None);
    assert_eq!(max_memory_channels("GenuineIntel", 6, 0xfe), None);
    assert_eq!(max_memory_channels("AuthenticAMD", 6, 0x55), None);
}

#[test]
fn class_expectations_are_conservative_and_intel_only() {
    assert_eq!(
        feature_expectation("GenuineIntel", 6, 0xc6, "npu"),
        Some(ClassExpectation::Expected)
    );
    assert_eq!(
        feature_expectation("GenuineIntel", 6, 0xc6, "igpu"),
        Some(ClassExpectation::Possible)
    );
    assert_eq!(feature_expectation("GenuineIntel", 6, 0x3c, "npu"), None);
    assert_eq!(feature_expectation("AuthenticAMD", 6, 0xc6, "npu"), None);
}

#[test]
fn expectation_needs_a_recognised_model() {
    assert_eq!(feature_expectation("GenuineIntel", 6, 0xfe, "npu"), None);
    assert_eq!(lookup("GenuineIntel", 6, 0xc6).unwrap().segment, "client");
}
