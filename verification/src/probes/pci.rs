//! PCI device probe (no root).
//!
//! Intel (vendor 0x8086) devices under `/sys/bus/pci/devices` are matched against a
//! rule table to identify the chipset, accelerators and integrated devices. A device is
//! `Enabled` when a kernel driver is bound to it, else `Present` (silicon there but
//! unclaimed). Matching is by PCI class, by specific device id, or by bound driver name,
//! and a few features add a corroborating `/dev` or sysfs node to the detail. An
//! incomplete enumeration never proves absence.

use vstd::prelude::*;

use crate::model::{Detection, Status};
use crate::probes::{
    Probe, all_unknown, detection_is, unavailable, Findings, IoFailure, TextRead};
use crate::text::{
    chars_of, has_prefix, hex_zero_padded, parse_u32_chars, parse_u32_radix,
    push_dec, push_hex_padded, str_eq, trim, trim_bounds, dec,
};

verus! {

pub const SRC: &'static str = "pci";

pub const INTEL: u32 = 0x8086;

/// One Intel PCI device, reduced to the fields the rules match on.
#[derive(Debug)]
pub struct PciDevice {
    pub device: u16,
    pub class_hi: u8,
    pub subclass: u8,
    pub driver: Option<String>,
}

/// A feature's match criteria. A device matches if *any* criterion matches: its class
/// (subclass `0xff` = any), its device id, or its bound driver.
#[derive(Debug)]
pub struct Rule {
    pub feature: &'static str,
    pub class: Option<(u8, u8)>,
    pub devices: Vec<u16>,
    pub drivers: Vec<&'static str>,
    /// Corroborating node appended to the detail when present.
    pub node: Option<&'static str>,
}

/// The platform's LPC/eSPI bridge, which identifies the chipset.
#[derive(Debug)]
pub struct ChipsetInfo {
    pub name: String,
    pub vendor_id: u16,
    pub device_id: u16,
    /// PCI address, e.g. `0000:00:1f.0`.
    pub address: String,
}

pub type RuleView = (
    &'static str,
    Option<(u8, u8)>,
    Seq<u16>,
    Seq<&'static str>,
    Option<&'static str>,
);

pub open spec fn rule_view(r: Rule) -> RuleView {
    (r.feature, r.class, r.devices@, r.drivers@, r.node)
}

/// The rule table.
pub open spec fn rule_table() -> Seq<RuleView> {
    seq![
        ("igpu", Some((0x03u8, 0xffu8)), seq![], seq!["i915", "xe"], None),
        (
            "npu",
            Some((0x12u8, 0xffu8)),
            seq![0xad1du16, 0x7d1du16, 0x643eu16, 0xb03eu16],
            seq!["intel_vpu"],
            Some("/dev/accel/accel0"),
        ),
        (
            "gna",
            None,
            seq![0x5a11u16, 0x8a11u16, 0x9a11u16, 0x4511u16, 0x51e4u16, 0x54e4u16],
            seq!["intel_gna"],
            None,
        ),
        ("dsa", None, seq![0x0b25u16], seq![], None),
        ("iaa", None, seq![0x0cfeu16], seq![], None),
        (
            "qat",
            None,
            seq![0x4940u16, 0x4942u16, 0x4944u16, 0x4946u16, 0x37c8u16, 0x19e2u16, 0x0435u16],
            seq!["4xxx", "qat_4xxx", "c6xx", "dh895xcc"],
            None,
        ),
        ("dlb", None, seq![0x2710u16, 0x2711u16], seq!["dlb2"], None),
        ("pch", Some((0x06u8, 0x01u8)), seq![], seq![], None),
        ("csme", Some((0x07u8, 0x80u8)), seq![], seq!["mei_me"], Some("/dev/mei0")),
        (
            "ethernet",
            Some((0x02u8, 0x00u8)),
            seq![],
            seq!["igc", "e1000e", "igb", "ixgbe", "i40e", "ice"],
            None,
        ),
        ("wifi", Some((0x02u8, 0x80u8)), seq![], seq!["iwlwifi"], None),
        ("audio", Some((0x04u8, 0x03u8)), seq![], seq![], None),
        ("smbus", Some((0x0cu8, 0x05u8)), seq![], seq!["i801_smbus"], None),
        ("spi_flash", None, seq![], seq!["intel-spi"], None),
        ("thunderbolt", None, seq![], seq!["thunderbolt"], Some("/sys/bus/thunderbolt")),
        (
            "vmd",
            None,
            seq![0x9a0bu16, 0x467fu16, 0xa77fu16, 0x7d0bu16, 0xad0bu16, 0xb60bu16],
            seq!["vmd"],
            None,
        ),
    ]
}

fn rule(
    feature: &'static str,
    class: Option<(u8, u8)>,
    devices: Vec<u16>,
    drivers: Vec<&'static str>,
    node: Option<&'static str>,
) -> (r: Rule)
    ensures
        rule_view(r) == (feature, class, devices@, drivers@, node),
{
    Rule { feature, class, devices, drivers, node }
}

/// The rule table, in report order.
pub fn rules() -> (r: Vec<Rule>)
    ensures
        r@.map_values(|x: Rule| rule_view(x)) == rule_table(),
{
    let mut r: Vec<Rule> = Vec::new();
    r.push(rule("igpu", Some((0x03, 0xff)), vec![], vec!["i915", "xe"], None));
    r.push(
        rule(
            "npu",
            Some((0x12, 0xff)),
            vec![0xad1d, 0x7d1d, 0x643e, 0xb03e],
            vec!["intel_vpu"],
            Some("/dev/accel/accel0"),
        ),
    );
    r.push(
        rule(
            "gna",
            None,
            vec![0x5a11, 0x8a11, 0x9a11, 0x4511, 0x51e4, 0x54e4],
            vec!["intel_gna"],
            None,
        ),
    );
    r.push(rule("dsa", None, vec![0x0b25], vec![], None));
    r.push(rule("iaa", None, vec![0x0cfe], vec![], None));
    r.push(
        rule(
            "qat",
            None,
            vec![0x4940, 0x4942, 0x4944, 0x4946, 0x37c8, 0x19e2, 0x0435],
            vec!["4xxx", "qat_4xxx", "c6xx", "dh895xcc"],
            None,
        ),
    );
    r.push(rule("dlb", None, vec![0x2710, 0x2711], vec!["dlb2"], None));
    r.push(rule("pch", Some((0x06, 0x01)), vec![], vec![], None));
    r.push(rule("csme", Some((0x07, 0x80)), vec![], vec!["mei_me"], Some("/dev/mei0")));
    r.push(
        rule(
            "ethernet",
            Some((0x02, 0x00)),
            vec![],
            vec!["igc", "e1000e", "igb", "ixgbe", "i40e", "ice"],
            None,
        ),
    );
    r.push(rule("wifi", Some((0x02, 0x80)), vec![], vec!["iwlwifi"], None));
    r.push(rule("audio", Some((0x04, 0x03)), vec![], vec![], None));
    r.push(rule("smbus", Some((0x0c, 0x05)), vec![], vec!["i801_smbus"], None));
    r.push(rule("spi_flash", None, vec![], vec!["intel-spi"], None));
    r.push(rule("thunderbolt", None, vec![], vec!["thunderbolt"], Some("/sys/bus/thunderbolt")));
    r.push(
        rule(
            "vmd",
            None,
            vec![0x9a0b, 0x467f, 0xa77f, 0x7d0b, 0xad0b, 0xb60b],
            vec!["vmd"],
            None,
        ),
    );
    assert(r@.map_values(|x: Rule| rule_view(x)) =~~= rule_table());
    r
}

/// `dev` satisfies one of `rule`'s criteria.
pub open spec fn spec_matches(dev: PciDevice, rule: RuleView) -> bool {
    ||| (rule.1 matches Some((c, sub)) && dev.class_hi == c && (sub == 0xff || dev.subclass
        == sub))
    ||| rule.2.contains(dev.device)
    ||| (dev.driver matches Some(d) && exists|i: int|
        0 <= i < rule.3.len() && #[trigger] rule.3[i]@ == d@)
}

/// What each PCI rule recognises, by class code (base class and subclass, 0xff for any
/// subclass), Intel device id or bound kernel driver: the integrated GPU is display class
/// 03h or the i915/xe driver; the NPU class 12h, its device ids or intel_vpu; the PCH the
/// ISA bridge 06h/01h; the CSME the 07h/80h controller or mei_me; Ethernet 02h/00h, Wi-Fi
/// 02h/80h, audio 04h/03h, SMBus 0Ch/05h; the accelerators (GNA, DSA, IAA, QAT, DLB,
/// VMD) their device ids and drivers; SPI flash and Thunderbolt their drivers.
pub proof fn pci_rule_criteria(dev: PciDevice)
    ensures
        rule_table().len() == 16,
        rule_table()[0].0 == "igpu" && (spec_matches(dev, rule_table()[0]) <==>
            dev.class_hi == 0x03 ||
            (dev.driver matches Some(d) && (d@ == "i915"@ || d@ == "xe"@))),
        rule_table()[1].0 == "npu" && (spec_matches(dev, rule_table()[1]) <==>
            dev.class_hi == 0x12 ||
            (dev.device == 0xad1d || dev.device == 0x7d1d || dev.device == 0x643e ||
            dev.device == 0xb03e) || (dev.driver matches Some(d) && (d@ == "intel_vpu"@))),
        rule_table()[2].0 == "gna" && (spec_matches(dev, rule_table()[2]) <==>
            (dev.device == 0x5a11 ||
            dev.device == 0x8a11 || dev.device == 0x9a11 || dev.device == 0x4511 ||
            dev.device == 0x51e4 || dev.device == 0x54e4) ||
            (dev.driver matches Some(d) && (d@ == "intel_gna"@))),
        rule_table()[3].0 == "dsa" && (spec_matches(dev, rule_table()[3]) <==>
            (dev.device == 0x0b25)),
        rule_table()[4].0 == "iaa" && (spec_matches(dev, rule_table()[4]) <==>
            (dev.device == 0x0cfe)),
        rule_table()[5].0 == "qat" && (spec_matches(dev, rule_table()[5]) <==>
            (dev.device == 0x4940 ||
            dev.device == 0x4942 || dev.device == 0x4944 || dev.device == 0x4946 ||
            dev.device == 0x37c8 || dev.device == 0x19e2 || dev.device == 0x0435) ||
            (dev.driver matches Some(d) && (d@ == "4xxx"@ || d@ == "qat_4xxx"@ || d@ == "c6xx"@ ||
            d@ == "dh895xcc"@))),
        rule_table()[6].0 == "dlb" && (spec_matches(dev, rule_table()[6]) <==>
            (dev.device == 0x2710 ||
            dev.device == 0x2711) || (dev.driver matches Some(d) && (d@ == "dlb2"@))),
        rule_table()[7].0 == "pch" && (spec_matches(dev, rule_table()[7]) <==>
            (dev.class_hi == 0x06 && dev.subclass == 0x01)),
        rule_table()[8].0 == "csme" && (spec_matches(dev, rule_table()[8]) <==>
            (dev.class_hi == 0x07 && dev.subclass == 0x80) ||
            (dev.driver matches Some(d) && (d@ == "mei_me"@))),
        rule_table()[9].0 == "ethernet" && (spec_matches(dev, rule_table()[9]) <==>
            (dev.class_hi == 0x02 && dev.subclass == 0x00) ||
            (dev.driver matches Some(d) && (d@ == "igc"@ || d@ == "e1000e"@ || d@ == "igb"@ ||
            d@ == "ixgbe"@ || d@ == "i40e"@ || d@ == "ice"@))),
        rule_table()[10].0 == "wifi" && (spec_matches(dev, rule_table()[10]) <==>
            (dev.class_hi == 0x02 && dev.subclass == 0x80) ||
            (dev.driver matches Some(d) && (d@ == "iwlwifi"@))),
        rule_table()[11].0 == "audio" && (spec_matches(dev, rule_table()[11]) <==>
            (dev.class_hi == 0x04 && dev.subclass == 0x03)),
        rule_table()[12].0 == "smbus" && (spec_matches(dev, rule_table()[12]) <==>
            (dev.class_hi == 0x0c && dev.subclass == 0x05) ||
            (dev.driver matches Some(d) && (d@ == "i801_smbus"@))),
        rule_table()[13].0 == "spi_flash" && (spec_matches(dev, rule_table()[13]) <==>
            (dev.driver matches Some(d) && (d@ == "intel-spi"@))),
        rule_table()[14].0 == "thunderbolt" && (spec_matches(dev, rule_table()[14]) <==>
            (dev.driver matches Some(d) && (d@ == "thunderbolt"@))),
        rule_table()[15].0 == "vmd" && (spec_matches(dev, rule_table()[15]) <==>
            (dev.device == 0x9a0b ||
            dev.device == 0x467f || dev.device == 0xa77f || dev.device == 0x7d0b ||
            dev.device == 0xad0b || dev.device == 0xb60b) ||
            (dev.driver matches Some(d) && (d@ == "vmd"@))),
{
    lemma_rule_0(dev);
    lemma_rule_1(dev);
    lemma_rule_2(dev);
    lemma_rule_3(dev);
    lemma_rule_4(dev);
    lemma_rule_5(dev);
    lemma_rule_6(dev);
    lemma_rule_7(dev);
    lemma_rule_8(dev);
    lemma_rule_9(dev);
    lemma_rule_10(dev);
    lemma_rule_11(dev);
    lemma_rule_12(dev);
    lemma_rule_13(dev);
    lemma_rule_14(dev);
    lemma_rule_15(dev);
    assert(rule_table().len() == 16);
}

proof fn lemma_rule_0(dev: PciDevice)
    ensures
        rule_table()[0].0 == "igpu" && (spec_matches(dev, rule_table()[0]) <==>
            dev.class_hi == 0x03 ||
            (dev.driver matches Some(d) && (d@ == "i915"@ || d@ == "xe"@))),
{
    let t = rule_table();
    assert(t.len() == 16);
    let r = t[0];
    assert(r.0 == "igpu");
    assert(r.1 == Some((0x03u8, 0xffu8)));
    assert(r.2.len() == 0);
    assert(r.3.len() == 2);
    assert(r.3[0]@ == "i915"@);
    assert(r.3[1]@ == "xe"@);
}

proof fn lemma_rule_1(dev: PciDevice)
    ensures
        rule_table()[1].0 == "npu" && (spec_matches(dev, rule_table()[1]) <==>
            dev.class_hi == 0x12 ||
            (dev.device == 0xad1d || dev.device == 0x7d1d || dev.device == 0x643e ||
            dev.device == 0xb03e) || (dev.driver matches Some(d) && (d@ == "intel_vpu"@))),
{
    let t = rule_table();
    assert(t.len() == 16);
    let r = t[1];
    assert(r.0 == "npu");
    assert(r.1 == Some((0x12u8, 0xffu8)));
    assert(r.2.len() == 4);
    assert(r.2[0] == 0xad1d);
    assert(r.2[1] == 0x7d1d);
    assert(r.2[2] == 0x643e);
    assert(r.2[3] == 0xb03e);
    assert(r.3.len() == 1);
    assert(r.3[0]@ == "intel_vpu"@);
}

proof fn lemma_rule_2(dev: PciDevice)
    ensures
        rule_table()[2].0 == "gna" && (spec_matches(dev, rule_table()[2]) <==>
            (dev.device == 0x5a11 ||
            dev.device == 0x8a11 || dev.device == 0x9a11 || dev.device == 0x4511 ||
            dev.device == 0x51e4 || dev.device == 0x54e4) ||
            (dev.driver matches Some(d) && (d@ == "intel_gna"@))),
{
    let t = rule_table();
    assert(t.len() == 16);
    let r = t[2];
    assert(r.0 == "gna");
    assert(r.1 is None);
    assert(r.2.len() == 6);
    assert(r.2[0] == 0x5a11);
    assert(r.2[1] == 0x8a11);
    assert(r.2[2] == 0x9a11);
    assert(r.2[3] == 0x4511);
    assert(r.2[4] == 0x51e4);
    assert(r.2[5] == 0x54e4);
    assert(r.3.len() == 1);
    assert(r.3[0]@ == "intel_gna"@);
}

proof fn lemma_rule_3(dev: PciDevice)
    ensures
        rule_table()[3].0 == "dsa" && (spec_matches(dev, rule_table()[3]) <==>
            (dev.device == 0x0b25)),
{
    let t = rule_table();
    assert(t.len() == 16);
    let r = t[3];
    assert(r.0 == "dsa");
    assert(r.1 is None);
    assert(r.2.len() == 1);
    assert(r.2[0] == 0x0b25);
    assert(r.3.len() == 0);
}

proof fn lemma_rule_4(dev: PciDevice)
    ensures
        rule_table()[4].0 == "iaa" && (spec_matches(dev, rule_table()[4]) <==>
            (dev.device == 0x0cfe)),
{
    let t = rule_table();
    assert(t.len() == 16);
    let r = t[4];
    assert(r.0 == "iaa");
    assert(r.1 is None);
    assert(r.2.len() == 1);
    assert(r.2[0] == 0x0cfe);
    assert(r.3.len() == 0);
}

proof fn lemma_rule_5(dev: PciDevice)
    ensures
        rule_table()[5].0 == "qat" && (spec_matches(dev, rule_table()[5]) <==>
            (dev.device == 0x4940 ||
            dev.device == 0x4942 || dev.device == 0x4944 || dev.device == 0x4946 ||
            dev.device == 0x37c8 || dev.device == 0x19e2 || dev.device == 0x0435) ||
            (dev.driver matches Some(d) && (d@ == "4xxx"@ || d@ == "qat_4xxx"@ || d@ == "c6xx"@ ||
            d@ == "dh895xcc"@))),
{
    let t = rule_table();
    assert(t.len() == 16);
    let r = t[5];
    assert(r.0 == "qat");
    assert(r.1 is None);
    assert(r.2.len() == 7);
    assert(r.2[0] == 0x4940);
    assert(r.2[1] == 0x4942);
    assert(r.2[2] == 0x4944);
    assert(r.2[3] == 0x4946);
    assert(r.2[4] == 0x37c8);
    assert(r.2[5] == 0x19e2);
    assert(r.2[6] == 0x0435);
    assert(r.3.len() == 4);
    assert(r.3[0]@ == "4xxx"@);
    assert(r.3[1]@ == "qat_4xxx"@);
    assert(r.3[2]@ == "c6xx"@);
    assert(r.3[3]@ == "dh895xcc"@);
}

proof fn lemma_rule_6(dev: PciDevice)
    ensures
        rule_table()[6].0 == "dlb" && (spec_matches(dev, rule_table()[6]) <==>
            (dev.device == 0x2710 ||
            dev.device == 0x2711) || (dev.driver matches Some(d) && (d@ == "dlb2"@))),
{
    let t = rule_table();
    assert(t.len() == 16);
    let r = t[6];
    assert(r.0 == "dlb");
    assert(r.1 is None);
    assert(r.2.len() == 2);
    assert(r.2[0] == 0x2710);
    assert(r.2[1] == 0x2711);
    assert(r.3.len() == 1);
    assert(r.3[0]@ == "dlb2"@);
}

proof fn lemma_rule_7(dev: PciDevice)
    ensures
        rule_table()[7].0 == "pch" && (spec_matches(dev, rule_table()[7]) <==>
            (dev.class_hi == 0x06 && dev.subclass == 0x01)),
{
    let t = rule_table();
    assert(t.len() == 16);
    let r = t[7];
    assert(r.0 == "pch");
    assert(r.1 == Some((0x06u8, 0x01u8)));
    assert(r.2.len() == 0);
    assert(r.3.len() == 0);
}

proof fn lemma_rule_8(dev: PciDevice)
    ensures
        rule_table()[8].0 == "csme" && (spec_matches(dev, rule_table()[8]) <==>
            (dev.class_hi == 0x07 && dev.subclass == 0x80) ||
            (dev.driver matches Some(d) && (d@ == "mei_me"@))),
{
    let t = rule_table();
    assert(t.len() == 16);
    let r = t[8];
    assert(r.0 == "csme");
    assert(r.1 == Some((0x07u8, 0x80u8)));
    assert(r.2.len() == 0);
    assert(r.3.len() == 1);
    assert(r.3[0]@ == "mei_me"@);
}

proof fn lemma_rule_9(dev: PciDevice)
    ensures
        rule_table()[9].0 == "ethernet" && (spec_matches(dev, rule_table()[9]) <==>
            (dev.class_hi == 0x02 && dev.subclass == 0x00) ||
            (dev.driver matches Some(d) && (d@ == "igc"@ || d@ == "e1000e"@ || d@ == "igb"@ ||
            d@ == "ixgbe"@ || d@ == "i40e"@ || d@ == "ice"@))),
{
    let t = rule_table();
    assert(t.len() == 16);
    let r = t[9];
    assert(r.0 == "ethernet");
    assert(r.1 == Some((0x02u8, 0x00u8)));
    assert(r.2.len() == 0);
    assert(r.3.len() == 6);
    assert(r.3[0]@ == "igc"@);
    assert(r.3[1]@ == "e1000e"@);
    assert(r.3[2]@ == "igb"@);
    assert(r.3[3]@ == "ixgbe"@);
    assert(r.3[4]@ == "i40e"@);
    assert(r.3[5]@ == "ice"@);
}

proof fn lemma_rule_10(dev: PciDevice)
    ensures
        rule_table()[10].0 == "wifi" && (spec_matches(dev, rule_table()[10]) <==>
            (dev.class_hi == 0x02 && dev.subclass == 0x80) ||
            (dev.driver matches Some(d) && (d@ == "iwlwifi"@))),
{
    let t = rule_table();
    assert(t.len() == 16);
    let r = t[10];
    assert(r.0 == "wifi");
    assert(r.1 == Some((0x02u8, 0x80u8)));
    assert(r.2.len() == 0);
    assert(r.3.len() == 1);
    assert(r.3[0]@ == "iwlwifi"@);
}

proof fn lemma_rule_11(dev: PciDevice)
    ensures
        rule_table()[11].0 == "audio" && (spec_matches(dev, rule_table()[11]) <==>
            (dev.class_hi == 0x04 && dev.subclass == 0x03)),
{
    let t = rule_table();
    assert(t.len() == 16);
    let r = t[11];
    assert(r.0 == "audio");
    assert(r.1 == Some((0x04u8, 0x03u8)));
    assert(r.2.len() == 0);
    assert(r.3.len() == 0);
}

proof fn lemma_rule_12(dev: PciDevice)
    ensures
        rule_table()[12].0 == "smbus" && (spec_matches(dev, rule_table()[12]) <==>
            (dev.class_hi == 0x0c && dev.subclass == 0x05) ||
            (dev.driver matches Some(d) && (d@ == "i801_smbus"@))),
{
    let t = rule_table();
    assert(t.len() == 16);
    let r = t[12];
    assert(r.0 == "smbus");
    assert(r.1 == Some((0x0cu8, 0x05u8)));
    assert(r.2.len() == 0);
    assert(r.3.len() == 1);
    assert(r.3[0]@ == "i801_smbus"@);
}

proof fn lemma_rule_13(dev: PciDevice)
    ensures
        rule_table()[13].0 == "spi_flash" && (spec_matches(dev, rule_table()[13]) <==>
            (dev.driver matches Some(d) && (d@ == "intel-spi"@))),
{
    let t = rule_table();
    assert(t.len() == 16);
    let r = t[13];
    assert(r.0 == "spi_flash");
    assert(r.1 is None);
    assert(r.2.len() == 0);
    assert(r.3.len() == 1);
    assert(r.3[0]@ == "intel-spi"@);
}

proof fn lemma_rule_14(dev: PciDevice)
    ensures
        rule_table()[14].0 == "thunderbolt" && (spec_matches(dev, rule_table()[14]) <==>
            (dev.driver matches Some(d) && (d@ == "thunderbolt"@))),
{
    let t = rule_table();
    assert(t.len() == 16);
    let r = t[14];
    assert(r.0 == "thunderbolt");
    assert(r.1 is None);
    assert(r.2.len() == 0);
    assert(r.3.len() == 1);
    assert(r.3[0]@ == "thunderbolt"@);
}

proof fn lemma_rule_15(dev: PciDevice)
    ensures
        rule_table()[15].0 == "vmd" && (spec_matches(dev, rule_table()[15]) <==>
            (dev.device == 0x9a0b ||
            dev.device == 0x467f || dev.device == 0xa77f || dev.device == 0x7d0b ||
            dev.device == 0xad0b || dev.device == 0xb60b) ||
            (dev.driver matches Some(d) && (d@ == "vmd"@))),
{
    let t = rule_table();
    assert(t.len() == 16);
    let r = t[15];
    assert(r.0 == "vmd");
    assert(r.1 is None);
    assert(r.2.len() == 6);
    assert(r.2[0] == 0x9a0b);
    assert(r.2[1] == 0x467f);
    assert(r.2[2] == 0xa77f);
    assert(r.2[3] == 0x7d0b);
    assert(r.2[4] == 0xad0b);
    assert(r.2[5] == 0xb60b);
    assert(r.3.len() == 1);
    assert(r.3[0]@ == "vmd"@);
}

pub fn matches(dev: &PciDevice, rule: &Rule) -> (r: bool)
    ensures
        r == spec_matches(*dev, rule_view(*rule)),
{
    if let Some((class, sub)) = rule.class {
        if dev.class_hi == class && (sub == 0xff || dev.subclass == sub) {
            return true;
        }
    }
    let mut i: usize = 0;
    while i < rule.devices.len()
        invariant
            i <= rule.devices.len(),
            forall|j: int| 0 <= j < i ==> rule.devices@[j] != dev.device,
        decreases rule.devices.len() - i,
    {
        if rule.devices[i] == dev.device {
            assert(rule.devices@.contains(dev.device));
            return true;
        }
        i += 1;
    }
    if let Some(drv) = &dev.driver {
        let mut j: usize = 0;
        while j < rule.drivers.len()
            invariant
                j <= rule.drivers.len(),
                dev.driver == Some(*drv),
                forall|k: int| 0 <= k < j ==> rule.drivers@[k]@ != drv@,
            decreases rule.drivers.len() - j,
        {
            if str_eq(rule.drivers[j], drv.as_str()) {
                assert(rule.drivers@[j as int]@ == drv@);
                assert(dev.driver == Some(*drv));
                assert(rule_view(*rule).3[j as int]@ == drv@);
                return true;
            }
            j += 1;
        }
    }
    false
}

/// The devices of `devs` that match `rule`, in order.
pub open spec fn matched(devs: Seq<PciDevice>, rule: RuleView) -> Seq<PciDevice>
    decreases devs.len(),
{
    if devs.len() == 0 {
        Seq::<PciDevice>::empty()
    } else {
        let prev = matched(devs.drop_last(), rule);
        if spec_matches(devs.last(), rule) {
            prev.push(devs.last())
        } else {
            prev
        }
    }
}

/// Index of the first device of `devs` with a bound driver.
pub open spec fn first_bound(devs: Seq<PciDevice>) -> Option<int>
    decreases devs.len(),
{
    if devs.len() == 0 {
        None
    } else {
        match first_bound(devs.drop_last()) {
            Some(k) => Some(k),
            None => if devs.last().driver is Some {
                Some(devs.len() - 1)
            } else {
                None
            },
        }
    }
}

pub proof fn lemma_first_bound(devs: Seq<PciDevice>)
    ensures
        first_bound(devs) matches Some(k) ==> 0 <= k < devs.len() && devs[k].driver is Some,
        first_bound(devs) is None ==> forall|j: int|
            0 <= j < devs.len() ==> #[trigger] devs[j].driver is None,
    decreases devs.len(),
{
    if devs.len() > 0 {
        lemma_first_bound(devs.drop_last());
        assert forall|j: int| 0 <= j < devs.len() - 1 implies #[trigger] devs.drop_last()[j]
            == devs[j] by {}
        if first_bound(devs) is None {
            assert forall|j: int| 0 <= j < devs.len() implies #[trigger] devs[j].driver is None by {
                if j < devs.len() - 1 {
                    assert(devs.drop_last()[j] == devs[j]);
                }
            }
        }
    }
}

/// The matched device that represents the feature: a driver-bound one if any.
pub open spec fn best_device(m: Seq<PciDevice>) -> PciDevice {
    match first_bound(m) {
        Some(k) => m[k],
        None => m[0],
    }
}

pub open spec fn node_listed(nodes: Seq<&'static str>, node: &'static str) -> bool {
    exists|i: int| 0 <= i < nodes.len() && nodes[i]@ == node@
}

/// `dev 0x…[, driver …][ (+n more)][; node]`.
pub open spec fn evaluate_detail(m: Seq<PciDevice>, rule: RuleView, nodes: Seq<&'static str>) -> Seq<
    char,
> {
    let best = best_device(m);
    "dev 0x"@ + hex_zero_padded(best.device as nat, 4) + (match best.driver {
        Some(d) => ", driver "@ + d@,
        None => Seq::<char>::empty(),
    }) + (if m.len() > 1 {
        " (+"@ + dec((m.len() - 1) as nat) + " more)"@
    } else {
        Seq::<char>::empty()
    }) + (match rule.4 {
        Some(n) => if node_listed(nodes, n) {
            "; "@ + n@
        } else {
            Seq::<char>::empty()
        },
        None => Seq::<char>::empty(),
    })
}

/// The detection for `rule` given the enumerated devices.
pub open spec fn spec_evaluate(
    rule: RuleView,
    devs: Seq<PciDevice>,
    complete: bool,
    nodes: Seq<&'static str>,
) -> (Status, Seq<char>) {
    let m = matched(devs, rule);
    if m.len() == 0 {
        if complete {
            (Status::Absent, "no matching Intel PCI device"@)
        } else {
            (Status::Unknown, "PCI enumeration incomplete"@)
        }
    } else if best_device(m).driver is Some {
        (Status::Enabled, evaluate_detail(m, rule, nodes))
    } else {
        (Status::Present, evaluate_detail(m, rule, nodes))
    }
}

/// Evaluate one rule against the enumerated devices. `complete` tells whether every
/// device could be enumerated; `present_nodes` are the corroborating nodes that exist.
pub fn evaluate(
    rule: &Rule,
    devices: &Vec<PciDevice>,
    complete: bool,
    present_nodes: &Vec<&'static str>,
) -> (r: Detection)
    ensures
        detection_is(r, SRC, spec_evaluate(rule_view(*rule), devices@, complete, present_nodes@)),
{
    let mut count: usize = 0;
    let mut first: Option<usize> = None;
    let mut bound: Option<usize> = None;
    let mut i: usize = 0;
    assert(devices@.take(0) =~= Seq::<PciDevice>::empty());
    while i < devices.len()
        invariant
            i <= devices.len(),
            count == matched(devices@.take(i as int), rule_view(*rule)).len(),
            count <= i,
            count == 0 <==> first is None,
            first matches Some(f) ==> f < i && devices@[f as int] == matched(
                devices@.take(i as int),
                rule_view(*rule),
            )[0],
            match bound {
                Some(b) => b < i && first_bound(matched(devices@.take(i as int), rule_view(*rule))) is Some
                    && devices@[b as int] == matched(devices@.take(i as int), rule_view(*rule))[first_bound(
                    matched(devices@.take(i as int), rule_view(*rule)),
                )->0],
                None => first_bound(matched(devices@.take(i as int), rule_view(*rule))) is None,
            },
        decreases devices.len() - i,
    {
        let ghost pre = matched(devices@.take(i as int), rule_view(*rule));
        assert(devices@.take(i + 1).drop_last() =~= devices@.take(i as int));
        if matches(&devices[i], rule) {
            let ghost post = pre.push(devices@[i as int]);
            assert(matched(devices@.take(i + 1), rule_view(*rule)) == post);
            assert(post.drop_last() =~= pre);
            if first.is_none() {
                first = Some(i);
            } else {
                assert(post[0] == pre[0]);
            }
            if bound.is_none() && devices[i].driver.is_some() {
                bound = Some(i);
                assert(first_bound(post) == Some(pre.len() as int));
            } else if bound.is_some() {
                proof {
                    lemma_first_bound(pre);
                }
                assert(first_bound(post) == first_bound(pre));
                assert(post[first_bound(post)->0] == pre[first_bound(pre)->0]);
            } else {
                assert(first_bound(post) is None);
            }
            count += 1;
        }
        i += 1;
    }
    assert(devices@.take(i as int) =~= devices@);
    let ghost m = matched(devices@, rule_view(*rule));
    if count == 0 {
        return if complete {
            Detection::with_detail(
                Status::Absent,
                SRC,
                String::from_str("no matching Intel PCI device"),
            )
        } else {
            Detection::with_detail(Status::Unknown, SRC, String::from_str("PCI enumeration incomplete"))
        };
    }
    let best_idx = match bound {
        Some(b) => b,
        None => first.unwrap(),
    };
    let best = &devices[best_idx];
    assert(*best == best_device(m));
    let status = if best.driver.is_some() {
        Status::Enabled
    } else {
        Status::Present
    };
    let mut detail = String::from_str("dev 0x");
    push_hex_padded(&mut detail, best.device as u64, 4);
    if let Some(drv) = &best.driver {
        detail.append(", driver ");
        detail.append(drv.as_str());
    }
    if count > 1 {
        detail.append(" (+");
        push_dec(&mut detail, (count - 1) as u64);
        detail.append(" more)");
    }
    if let Some(node) = rule.node {
        if contains_node(present_nodes, node) {
            detail.append("; ");
            detail.append(node);
        }
    }
    assert(detail@ =~= evaluate_detail(m, rule_view(*rule), present_nodes@));
    Detection::with_detail(status, SRC, detail)
}

fn contains_node(nodes: &Vec<&'static str>, node: &'static str) -> (r: bool)
    ensures
        r == node_listed(nodes@, node),
{
    let mut i: usize = 0;
    while i < nodes.len()
        invariant
            i <= nodes.len(),
            forall|j: int| 0 <= j < i ==> nodes@[j]@ != node@,
        decreases nodes.len() - i,
    {
        if str_eq(nodes[i], node) {
            return true;
        }
        i += 1;
    }
    false
}

// ---- enumeration ------------------------------------------------------------------

/// What was read for one entry of `/sys/bus/pci/devices`.
#[derive(Debug)]
pub struct PciEntryReadings {
    /// The entry's name: the device's PCI address.
    pub address: String,
    /// Contents of its `vendor`, `device` and `class` files.
    pub vendor: TextRead,
    pub device: TextRead,
    pub class: TextRead,
    /// Base name of the `driver` link, when one is bound.
    pub driver: Option<String>,
}

/// Listing of `/sys/bus/pci/devices`; entries that could not be read are `None`.
pub type PciListing = Result<Vec<Option<PciEntryReadings>>, IoFailure>;

/// A `0x…`-formatted sysfs hex value.
pub open spec fn spec_parse_hex(text: Seq<char>) -> Option<u32> {
    let t = trim(text);
    let b = if has_prefix(t, "0x"@) {
        t.skip(2)
    } else {
        t
    };
    parse_u32_radix(b, 16)
}

pub open spec fn spec_read_hex(r: TextRead) -> Option<u32> {
    match r {
        Ok(s) => spec_parse_hex(s@),
        Err(_) => None,
    }
}

/// Reads a `0x…`-formatted sysfs hex file's contents.
pub fn read_hex(r: &TextRead) -> (v: Option<u32>)
    ensures
        v == spec_read_hex(*r),
{
    let text = match r {
        Ok(t) => t,
        Err(_) => return None,
    };
    let c = chars_of(text.as_str());
    let (a, b) = trim_bounds(&c);
    let ghost t = c@.subrange(a as int, b as int);
    proof {
        reveal_strlit("0x");
    }
    if b - a >= 2 && c[a] == '0' && c[a + 1] == 'x' {
        assert(has_prefix(t, "0x"@)) by {
            assert(t.take(2) =~= "0x"@);
        }
        assert(c@.subrange(a + 2, b as int) =~= t.skip(2));
        parse_u32_chars(&c, a + 2, b, 16)
    } else {
        assert(!has_prefix(t, "0x"@)) by {
            if has_prefix(t, "0x"@) {
                assert(t.take(2)[0] == '0' && t.take(2)[1] == 'x');
            }
        }
        parse_u32_chars(&c, a, b, 16)
    }
}

/// The Intel device an entry describes, if it is one.
pub open spec fn entry_device(e: PciEntryReadings) -> Option<PciDevice> {
    match spec_read_hex(e.vendor) {
        Some(v) => if v == INTEL {
            let device = match spec_read_hex(e.device) {
                Some(d) => d,
                None => 0,
            };
            let class = match spec_read_hex(e.class) {
                Some(c) => c,
                None => 0,
            };
            Some(
                PciDevice {
                    device: device as u16,
                    class_hi: ((class >> 16u32) & 0xffu32) as u8,
                    subclass: ((class >> 8u32) & 0xffu32) as u8,
                    driver: e.driver,
                },
            )
        } else {
            None
        },
        None => None,
    }
}

/// The Intel devices of an enumeration, in listing order.
pub open spec fn intel_devices(entries: Seq<Option<PciEntryReadings>>) -> Seq<PciDevice>
    decreases entries.len(),
{
    if entries.len() == 0 {
        Seq::<PciDevice>::empty()
    } else {
        let prev = intel_devices(entries.drop_last());
        match entries.last() {
            Some(e) => match entry_device(e) {
                Some(d) => prev.push(d),
                None => prev,
            },
            None => prev,
        }
    }
}

/// Every entry could be listed and its vendor read.
pub open spec fn enumeration_complete(entries: Seq<Option<PciEntryReadings>>) -> bool {
    forall|k: int|
        0 <= k < entries.len() ==> (#[trigger] entries[k] matches Some(e) && e.vendor is Ok)
}

fn clone_driver(d: &Option<String>) -> (r: Option<String>)
    ensures
        r == *d,
{
    match d {
        Some(s) => Some(s.clone()),
        None => None,
    }
}

/// The Intel device of one entry.
fn device_of(e: &PciEntryReadings) -> (r: Option<PciDevice>)
    ensures
        r == entry_device(*e),
{
    let vendor = match read_hex(&e.vendor) {
        Some(v) => v,
        None => return None,
    };
    if vendor != INTEL {
        return None;
    }
    let device = match read_hex(&e.device) {
        Some(d) => d,
        None => 0,
    };
    let class = match read_hex(&e.class) {
        Some(c) => c,
        None => 0,
    };
    Some(
        PciDevice {
            device: device as u16,
            class_hi: ((class >> 16u32) & 0xffu32) as u8,
            subclass: ((class >> 8u32) & 0xffu32) as u8,
            driver: clone_driver(&e.driver),
        },
    )
}

/// The Intel devices of an enumeration, and whether it was complete.
pub fn scan_devices(entries: &Vec<Option<PciEntryReadings>>) -> (r: (Vec<PciDevice>, bool))
    ensures
        r.0@ == intel_devices(entries@),
        r.1 == enumeration_complete(entries@),
{
    let mut devices: Vec<PciDevice> = Vec::new();
    let mut complete = true;
    let mut i: usize = 0;
    assert(entries@.take(0) =~= Seq::<Option<PciEntryReadings>>::empty());
    while i < entries.len()
        invariant
            i <= entries.len(),
            devices@ == intel_devices(entries@.take(i as int)),
            complete == enumeration_complete(entries@.take(i as int)),
        decreases entries.len() - i,
    {
        let ghost pre = entries@.take(i as int);
        assert(entries@.take(i + 1).drop_last() =~= pre);
        match &entries[i] {
            Some(e) => {
                if e.vendor.is_err() {
                    complete = false;
                }
                match device_of(e) {
                    Some(d) => devices.push(d),
                    None => {},
                }
            },
            None => {
                complete = false;
            },
        }
        proof {
            let post = entries@.take(i + 1);
            if complete {
                assert forall|k: int| 0 <= k < post.len() implies (#[trigger] post[k] matches Some(
                    e,
                ) && e.vendor is Ok) by {
                    if k < i {
                        assert(post[k] == pre[k]);
                    }
                }
            } else {
                if !enumeration_complete(pre) {
                    let k = choose|k: int|
                        0 <= k < pre.len() && !(#[trigger] pre[k] matches Some(e) && e.vendor is Ok);
                    assert(post[k] == pre[k]);
                } else {
                    assert(!(post[i as int] matches Some(e) && e.vendor is Ok));
                }
            }
        }
        i += 1;
    }
    assert(entries@.take(i as int) =~= entries@);
    (devices, complete)
}

/// The feature id of each rule, in order.
pub open spec fn pci_feature_ids() -> Seq<&'static str> {
    Seq::new(rule_table().len(), |k: int| rule_table()[k].0)
}

/// The PCI probe's findings for an enumeration: one detection per rule.
pub open spec fn pci_findings_ok(
    out: Seq<(&'static str, Detection)>,
    listing: PciListing,
    nodes: Seq<&'static str>,
) -> bool {
    match listing {
        Err(e) => all_unknown(out, SRC, pci_feature_ids(), "cannot inspect PCI devices: "@ + e.message@),
        Ok(entries) => {
            &&& out.len() == rule_table().len()
            &&& forall|k: int|
                0 <= k < rule_table().len() ==> {
                    &&& (#[trigger] out[k]).0 == rule_table()[k].0
                    &&& detection_is(
                        out[k].1,
                        SRC,
                        spec_evaluate(
                            rule_table()[k],
                            intel_devices(entries@),
                            enumeration_complete(entries@),
                            nodes,
                        ),
                    )
                }
        },
    }
}

pub struct PciProbe;

impl Probe for PciProbe {
    fn name(&self) -> (r: &'static str)
        ensures
            r == SRC,
    {
        SRC
    }

    /// The features this probe reports on.
    fn feature_ids(&self) -> (r: Vec<&'static str>)
        ensures
            r@ == pci_feature_ids(),
    {
        let rs = rules();
        let mut ids: Vec<&'static str> = Vec::new();
        let mut k: usize = 0;
        while k < rs.len()
            invariant
                k <= rs.len(),
                rs@.map_values(|x: Rule| rule_view(x)) == rule_table(),
                ids@ == pci_feature_ids().take(k as int),
            decreases rs.len() - k,
        {
            assert(rs@.map_values(|x: Rule| rule_view(x))[k as int] == rule_view(rs@[k as int]));
            ids.push(rs[k].feature);
            k += 1;
            assert(ids@ =~= pci_feature_ids().take(k as int));
        }
        assert(ids@ =~= pci_feature_ids());
        ids
    }
}

impl PciProbe {
    /// Decide every rule from the enumeration of `/sys/bus/pci/devices`; `present_nodes`
    /// are the corroborating nodes that exist on the host.
    pub fn decide(&self, listing: &PciListing, present_nodes: &Vec<&'static str>) -> (r: Findings)
        ensures
            pci_findings_ok(r@, *listing, present_nodes@),
    {
        let entries = match listing {
            Err(e) => {
                let mut reason = String::from_str("cannot inspect PCI devices: ");
                reason.append(e.message.as_str());
                let ids = self.feature_ids();
                return unavailable(SRC, &ids, reason.as_str());
            },
            Ok(entries) => entries,
        };
        let (devices, complete) = scan_devices(entries);
        let rs = rules();
        let mut out: Findings = Vec::new();
        let mut k: usize = 0;
        while k < rs.len()
            invariant
                k <= rs.len(),
                rs@.map_values(|x: Rule| rule_view(x)) == rule_table(),
                *listing == Ok::<Vec<Option<PciEntryReadings>>, IoFailure>(*entries),
                devices@ == intel_devices(entries@),
                complete == enumeration_complete(entries@),
                out@.len() == k,
                forall|j: int|
                    0 <= j < k ==> {
                        &&& (#[trigger] out@[j]).0 == rule_table()[j].0
                        &&& detection_is(
                            out@[j].1,
                            SRC,
                            spec_evaluate(rule_table()[j], devices@, complete, present_nodes@),
                        )
                    },
            decreases rs.len() - k,
        {
            assert(rs@.map_values(|x: Rule| rule_view(x))[k as int] == rule_view(rs@[k as int]));
            let det = evaluate(&rs[k], &devices, complete, present_nodes);
            out.push((rs[k].feature, det));
            k += 1;
        }
        out
    }
}

/// The first Intel ISA (LPC/eSPI) bridge of an enumeration, identifying the chipset.
pub open spec fn spec_chipset(entries: Seq<Option<PciEntryReadings>>) -> Option<(u16, Seq<char>)>
    decreases entries.len(),
{
    if entries.len() == 0 {
        None
    } else {
        match spec_chipset(entries.drop_last()) {
            Some(c) => Some(c),
            None => match entries.last() {
                Some(e) => match entry_device(e) {
                    Some(d) => if d.class_hi == 0x06 && d.subclass == 0x01 {
                        Some((d.device, e.address@))
                    } else {
                        None
                    },
                    None => None,
                },
                None => None,
            },
        }
    }
}

/// The chipset (PCH) identity: the first Intel LPC/eSPI bridge listed.
pub fn chipset_info(listing: &PciListing) -> (r: Option<ChipsetInfo>)
    ensures
        match listing {
            Err(_) => r is None,
            Ok(entries) => match spec_chipset(entries@) {
                None => r is None,
                Some((device, address)) => r matches Some(c) && c.device_id == device
                    && c.address@ == address && c.vendor_id == 0x8086
                    && c.name@ == "Intel PCH LPC/eSPI bridge"@,
            },
        },
{
    let entries = match listing {
        Err(_) => return None,
        Ok(e) => e,
    };
    let mut i: usize = 0;
    assert(entries@.take(0) =~= Seq::<Option<PciEntryReadings>>::empty());
    while i < entries.len()
        invariant
            i <= entries.len(),
            *listing == Ok::<Vec<Option<PciEntryReadings>>, IoFailure>(*entries),
            spec_chipset(entries@.take(i as int)) is None,
        decreases entries.len() - i,
    {
        assert(entries@.take(i + 1).drop_last() =~= entries@.take(i as int));
        if let Some(e) = &entries[i] {
            if let Some(d) = device_of(e) {
                if d.class_hi == 0x06 && d.subclass == 0x01 {
                    proof {
                        lemma_chipset_prefix(entries@, i + 1);
                    }
                    return Some(
                        ChipsetInfo {
                            name: String::from_str("Intel PCH LPC/eSPI bridge"),
                            vendor_id: 0x8086,
                            device_id: d.device,
                            address: e.address.clone(),
                        },
                    );
                }
            }
        }
        i += 1;
    }
    assert(entries@.take(i as int) =~= entries@);
    None
}

proof fn lemma_chipset_prefix(entries: Seq<Option<PciEntryReadings>>, n: int)
    requires
        0 <= n <= entries.len(),
        spec_chipset(entries.take(n)) is Some,
    ensures
        spec_chipset(entries) == spec_chipset(entries.take(n)),
    decreases entries.len(),
{
    if n < entries.len() {
        assert(entries.drop_last().take(n) =~= entries.take(n));
        lemma_chipset_prefix(entries.drop_last(), n);
    } else {
        assert(entries.take(n) =~= entries);
    }
}

// ---- laws -------------------------------------------------------------------------------

/// A PCI feature is reported `Absent` only when the device directory was listed in full
/// and no Intel device matched the rule.
pub proof fn pci_absence_needs_full_enumeration(
    out: Seq<(&'static str, Detection)>,
    listing: PciListing,
    nodes: Seq<&'static str>,
    k: int,
)
    requires
        pci_findings_ok(out, listing, nodes),
        0 <= k < out.len(),
        out[k].1.status == Status::Absent,
    ensures
        listing matches Ok(entries) && enumeration_complete(entries@) && matched(
            intel_devices(entries@),
            rule_table()[k],
        ).len() == 0,
{
    match listing {
        Err(e) => {
            assert(crate::probes::is_unknown_finding(
                out[k],
                pci_feature_ids()[k],
                SRC,
                "cannot inspect PCI devices: "@ + e.message@,
            ));
        },
        Ok(entries) => {
            assert(out[k].0 == rule_table()[k].0);
        },
    }
}

} // verus!
