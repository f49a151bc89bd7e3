use intel_features::model::Status;
use intel_features::probes::firmware::{
    dimm_summary, ecc_state, parse_structures, system_info_from, DmiIdReadings, DmiProbe,
    EccState, Structure,
};
use intel_features::probes::pci::ChipsetInfo;
use intel_features::probes::{IoErrorKind, IoFailure};

fn type17(size_mb: u16, memory_type: u8, speed: u16) -> Vec<u8> {
    let mut f = vec![0; 0x18];
    f[0] = 17;
    f[1] = 0x18;
    f[0x0c..0x0e].copy_from_slice(&size_mb.to_le_bytes());
    f[0x12] = memory_type;
    f[0x15..0x17].copy_from_slice(&speed.to_le_bytes());
    f
}

#[test]
fn ecc_decode_is_conservative() {
    assert!(matches!(ecc_state(0x03), EccState::NoEcc));
    for v in 0x04..=0x07 {
        assert!(matches!(ecc_state(v), EccState::Ecc));
    }
    for v in [0, 1, 2, 8, 0xff] {
        assert!(matches!(ecc_state(v), EccState::Unknown));
    }
}

#[test]
fn dimm_summary_formats_gb_and_speed() {
    let f = type17(16384, 0x22, 6400);
    let s = Structure {
        stype: 17,
        formatted: &f,
    };
    assert_eq!(dimm_summary(&s).as_deref(), Some("16 GB DDR5-6400"));
}

#[test]
fn malformed_table_is_rejected() {
    assert!(parse_structures(&[17, 24, 0, 0]).is_err());
}

#[test]
fn populated_dimms_are_listed() {
    let mut table = type17(8192, 0x1a, 3200);
    table.extend_from_slice(&[0, 0]);
    let out = DmiProbe.decide(&Ok(table));
    let dimms = out.iter().find(|(id, _)| *id == "memory_dimms").unwrap();
    assert_eq!(dimms.1.status, Status::Present);
    assert_eq!(dimms.1.detail.as_deref(), Some("1 populated: 8 GB DDR4-3200"));
}

fn ok(s: &str) -> Result<String, IoFailure> {
    Ok(s.to_string())
}

fn missing() -> Result<String, IoFailure> {
    Err(IoFailure {
        kind: IoErrorKind::NotFound,
        message: "No such file or directory (os error 2)".to_string(),
    })
}

#[test]
fn system_identity_is_trimmed() {
    let ids = DmiIdReadings {
        sys_vendor: ok("Intel Corporation\n"),
        product_name: ok("S2600WFT\n"),
        board_name: ok("S2600WFT\n"),
        bios_vendor: missing(),
        bios_version: missing(),
        bios_date: missing(),
    };
    let info = system_info_from(&ids, None).unwrap();
    assert_eq!(info.vendor, "Intel Corporation");
    assert_eq!(info.board, "S2600WFT");
    assert_eq!(info.bios_version, "");
    let empty = DmiIdReadings {
        sys_vendor: missing(),
        product_name: missing(),
        board_name: missing(),
        bios_vendor: missing(),
        bios_version: missing(),
        bios_date: missing(),
    };
    assert!(system_info_from(&empty, None).is_none());
    let chipset = ChipsetInfo {
        name: "x".to_string(),
        vendor_id: 0x8086,
        device_id: 1,
        address: "0000:00:1f.0".to_string(),
    };
    assert!(system_info_from(&empty, Some(chipset)).is_some());
}
