//! Intel CPUID display-family/model database.
//!
//! Model numbers identify a processor family, not necessarily one retail generation.
//! Intel occasionally reuses a model across refreshes, so ambiguous entries deliberately
//! use ranges rather than guessing from the brand string or stepping.

use vstd::prelude::*;

use crate::model::ClassExpectation;
use crate::text::{occurs_in, str_contains, str_eq};

verus! {

/// Human-friendly identification for an Intel CPUID family/model pair.
#[derive(Debug, Clone, Copy, PartialEq, Eq)]
pub struct CpuModelInfo {
    /// Intel platform or product-family codename.
    pub codename: &'static str,
    /// Marketing generation when it can be stated without guessing.
    pub generation: &'static str,
    /// Broad market segment represented by this CPUID model.
    pub segment: &'static str,
}

pub open spec fn spec_info(
    codename: &'static str,
    generation: &'static str,
    segment: &'static str,
) -> CpuModelInfo {
    CpuModelInfo { codename, generation, segment }
}

pub fn info(codename: &'static str, generation: &'static str, segment: &'static str) -> (r:
    CpuModelInfo)
    ensures
        r == spec_info(codename, generation, segment),
{
    CpuModelInfo { codename, generation, segment }
}

/// The family/model table of recognized Intel processors.
pub open spec fn model_table(family: u32, model: u32) -> Option<CpuModelInfo> {
    match (family, model) {
        (6, 0x1a) | (6, 0x1e) | (6, 0x1f) | (6, 0x2e) => Some(
            spec_info("Nehalem", "1st Gen Core / Xeon 5500–7500", "client/server"),
        ),
        (6, 0x25) | (6, 0x2c) | (6, 0x2f) => Some(
            spec_info("Westmere", "1st Gen Core / Xeon 5600–E7", "client/server"),
        ),
        (6, 0x2a) => Some(spec_info("Sandy Bridge", "2nd Gen Core", "client")),
        (6, 0x2d) => Some(spec_info("Sandy Bridge-EP", "Xeon E5 v1", "server")),
        (6, 0x3a) => Some(spec_info("Ivy Bridge", "3rd Gen Core", "client")),
        (6, 0x3e) => Some(spec_info("Ivy Bridge-EP", "Xeon E5 v2", "server")),
        (6, 0x3c) | (6, 0x45) | (6, 0x46) => Some(spec_info("Haswell", "4th Gen Core", "client")),
        (6, 0x3f) => Some(spec_info("Haswell-EP", "Xeon E5 v3", "server")),
        (6, 0x3d) | (6, 0x47) => Some(spec_info("Broadwell", "5th Gen Core", "client")),
        (6, 0x4f) => Some(spec_info("Broadwell-EP", "Xeon E5 v4", "server")),
        (6, 0x56) => Some(spec_info("Broadwell-DE", "Xeon D-1500", "server/embedded")),
        (6, 0x4e) | (6, 0x5e) => Some(spec_info("Skylake", "6th Gen Core", "client")),
        (6, 0x55) => Some(spec_info("Skylake-SP family", "1st–3rd Gen Xeon Scalable", "server")),
        (6, 0x8e) => Some(
            spec_info("Kaby/Coffee/Whiskey Lake", "7th–8th Gen Core", "mobile client"),
        ),
        (6, 0x9e) => Some(spec_info("Kaby/Coffee Lake", "7th–9th Gen Core", "client")),
        (6, 0xa5) => Some(spec_info("Comet Lake", "10th Gen Core", "client")),
        (6, 0xa6) => Some(spec_info("Comet Lake-U", "10th Gen Core", "mobile client")),
        (6, 0x66) => Some(spec_info("Cannon Lake", "8th Gen Core", "mobile client")),
        (6, 0x7d) | (6, 0x7e) => Some(spec_info("Ice Lake", "10th Gen Core", "mobile client")),
        (6, 0x6a) => Some(spec_info("Ice Lake-SP", "3rd Gen Xeon Scalable", "server")),
        (6, 0x6c) => Some(spec_info("Ice Lake-D", "Xeon D-1700/2700", "server/embedded")),
        (6, 0xa7) => Some(spec_info("Rocket Lake", "11th Gen Core", "client")),
        (6, 0x8c) | (6, 0x8d) => Some(spec_info("Tiger Lake", "11th Gen Core", "mobile client")),
        (6, 0x8f) => Some(spec_info("Sapphire Rapids", "4th Gen Xeon Scalable", "server")),
        (6, 0xcf) => Some(spec_info("Emerald Rapids", "5th Gen Xeon Scalable", "server")),
        (6, 0xad) => Some(spec_info("Granite Rapids", "6th Gen Xeon Scalable", "server")),
        (6, 0xae) => Some(spec_info("Granite Rapids-D", "Xeon 6 SoC", "server/embedded")),
        (6, 0xd7) => Some(spec_info("Bartlett Lake", "Raptor Cove family", "client/embedded")),
        (6, 0x8a) => Some(
            spec_info("Lakefield", "Core with Intel Hybrid Technology", "mobile client"),
        ),
        (6, 0x97) | (6, 0x9a) => Some(spec_info("Alder Lake", "12th Gen Core", "client")),
        (6, 0xb7) | (6, 0xba) | (6, 0xbf) => Some(
            spec_info("Raptor Lake", "13th–14th Gen Core", "client"),
        ),
        (6, 0xaa) | (6, 0xac) => Some(
            spec_info("Meteor Lake", "Core Ultra Series 1", "mobile client"),
        ),
        (6, 0xb5) | (6, 0xc5) | (6, 0xc6) => Some(
            spec_info("Arrow Lake", "Core Ultra Series 2", "client"),
        ),
        (6, 0xbd) => Some(spec_info("Lunar Lake", "Core Ultra Series 2", "mobile client")),
        (6, 0xcc) | (6, 0xe5) => Some(
            spec_info("Panther Lake", "Core Ultra Series 3", "mobile client"),
        ),
        (6, 0x1c) | (6, 0x26) => Some(spec_info("Bonnell", "Atom Bonnell", "low-power/embedded")),
        (6, 0x27) | (6, 0x35) | (6, 0x36) => Some(
            spec_info("Saltwell", "Atom Saltwell", "low-power/embedded"),
        ),
        (6, 0x37) | (6, 0x4a) | (6, 0x4d) | (6, 0x5a) => Some(
            spec_info("Silvermont", "Atom Silvermont", "low-power/embedded"),
        ),
        (6, 0x4c) | (6, 0x75) => Some(spec_info("Airmont", "Atom Airmont", "low-power/embedded")),
        (6, 0x5c) | (6, 0x5f) => Some(
            spec_info("Goldmont", "Atom Goldmont", "low-power/embedded"),
        ),
        (6, 0x7a) => Some(spec_info("Goldmont Plus", "Atom Goldmont Plus", "low-power/embedded")),
        (6, 0x86) | (6, 0x96) | (6, 0x9c) => Some(
            spec_info("Tremont", "Atom Tremont", "low-power/embedded"),
        ),
        (6, 0xbe) => Some(
            spec_info("Alder Lake-N", "Intel Processor N-series", "low-power client"),
        ),
        (6, 0xaf) => Some(spec_info("Sierra Forest", "Xeon 6 E-core", "server")),
        (6, 0xb6) => Some(spec_info("Grand Ridge", "Atom Crestmont", "network/embedded")),
        (6, 0xdd) => Some(spec_info("Clearwater Forest", "Xeon E-core", "server")),
        (6, 0x57) => Some(spec_info("Knights Landing", "Xeon Phi x200", "many-core")),
        (6, 0x85) => Some(spec_info("Knights Mill", "Xeon Phi 72x5", "many-core")),
        (18, 0x01) | (18, 0x03) => Some(spec_info("Nova Lake", "Nova Lake family", "client")),
        (19, 0x01) => Some(spec_info("Diamond Rapids", "Diamond Rapids Xeon", "server")),
        _ => None,
    }
}

/// Only `GenuineIntel` processors are classified.
pub open spec fn spec_lookup(vendor: Seq<char>, family: u32, model: u32) -> Option<CpuModelInfo> {
    if vendor == "GenuineIntel"@ {
        model_table(family, model)
    } else {
        None
    }
}

fn table_lookup(family: u32, model: u32) -> (r: Option<CpuModelInfo>)
    ensures
        r == model_table(family, model),
{
    match (family, model) {
        (6, 0x1a) | (6, 0x1e) | (6, 0x1f) | (6, 0x2e) => Some(
            info("Nehalem", "1st Gen Core / Xeon 5500–7500", "client/server"),
        ),
        (6, 0x25) | (6, 0x2c) | (6, 0x2f) => Some(
            info("Westmere", "1st Gen Core / Xeon 5600–E7", "client/server"),
        ),
        (6, 0x2a) => Some(info("Sandy Bridge", "2nd Gen Core", "client")),
        (6, 0x2d) => Some(info("Sandy Bridge-EP", "Xeon E5 v1", "server")),
        (6, 0x3a) => Some(info("Ivy Bridge", "3rd Gen Core", "client")),
        (6, 0x3e) => Some(info("Ivy Bridge-EP", "Xeon E5 v2", "server")),
        (6, 0x3c) | (6, 0x45) | (6, 0x46) => Some(info("Haswell", "4th Gen Core", "client")),
        (6, 0x3f) => Some(info("Haswell-EP", "Xeon E5 v3", "server")),
        (6, 0x3d) | (6, 0x47) => Some(info("Broadwell", "5th Gen Core", "client")),
        (6, 0x4f) => Some(info("Broadwell-EP", "Xeon E5 v4", "server")),
        (6, 0x56) => Some(info("Broadwell-DE", "Xeon D-1500", "server/embedded")),
        (6, 0x4e) | (6, 0x5e) => Some(info("Skylake", "6th Gen Core", "client")),
        (6, 0x55) => Some(info("Skylake-SP family", "1st–3rd Gen Xeon Scalable", "server")),
        (6, 0x8e) => Some(info("Kaby/Coffee/Whiskey Lake", "7th–8th Gen Core", "mobile client")),
        (6, 0x9e) => Some(info("Kaby/Coffee Lake", "7th–9th Gen Core", "client")),
        (6, 0xa5) => Some(info("Comet Lake", "10th Gen Core", "client")),
        (6, 0xa6) => Some(info("Comet Lake-U", "10th Gen Core", "mobile client")),
        (6, 0x66) => Some(info("Cannon Lake", "8th Gen Core", "mobile client")),
        (6, 0x7d) | (6, 0x7e) => Some(info("Ice Lake", "10th Gen Core", "mobile client")),
        (6, 0x6a) => Some(info("Ice Lake-SP", "3rd Gen Xeon Scalable", "server")),
        (6, 0x6c) => Some(info("Ice Lake-D", "Xeon D-1700/2700", "server/embedded")),
        (6, 0xa7) => Some(info("Rocket Lake", "11th Gen Core", "client")),
        (6, 0x8c) | (6, 0x8d) => Some(info("Tiger Lake", "11th Gen Core", "mobile client")),
        (6, 0x8f) => Some(info("Sapphire Rapids", "4th Gen Xeon Scalable", "server")),
        (6, 0xcf) => Some(info("Emerald Rapids", "5th Gen Xeon Scalable", "server")),
        (6, 0xad) => Some(info("Granite Rapids", "6th Gen Xeon Scalable", "server")),
        (6, 0xae) => Some(info("Granite Rapids-D", "Xeon 6 SoC", "server/embedded")),
        (6, 0xd7) => Some(info("Bartlett Lake", "Raptor Cove family", "client/embedded")),
        (6, 0x8a) => Some(info("Lakefield", "Core with Intel Hybrid Technology", "mobile client")),
        (6, 0x97) | (6, 0x9a) => Some(info("Alder Lake", "12th Gen Core", "client")),
        (6, 0xb7) | (6, 0xba) | (6, 0xbf) => Some(
            info("Raptor Lake", "13th–14th Gen Core", "client"),
        ),
        (6, 0xaa) | (6, 0xac) => Some(info("Meteor Lake", "Core Ultra Series 1", "mobile client")),
        (6, 0xb5) | (6, 0xc5) | (6, 0xc6) => Some(
            info("Arrow Lake", "Core Ultra Series 2", "client"),
        ),
        (6, 0xbd) => Some(info("Lunar Lake", "Core Ultra Series 2", "mobile client")),
        (6, 0xcc) | (6, 0xe5) => Some(info("Panther Lake", "Core Ultra Series 3", "mobile client")),
        (6, 0x1c) | (6, 0x26) => Some(info("Bonnell", "Atom Bonnell", "low-power/embedded")),
        (6, 0x27) | (6, 0x35) | (6, 0x36) => Some(
            info("Saltwell", "Atom Saltwell", "low-power/embedded"),
        ),
        (6, 0x37) | (6, 0x4a) | (6, 0x4d) | (6, 0x5a) => Some(
            info("Silvermont", "Atom Silvermont", "low-power/embedded"),
        ),
        (6, 0x4c) | (6, 0x75) => Some(info("Airmont", "Atom Airmont", "low-power/embedded")),
        (6, 0x5c) | (6, 0x5f) => Some(info("Goldmont", "Atom Goldmont", "low-power/embedded")),
        (6, 0x7a) => Some(info("Goldmont Plus", "Atom Goldmont Plus", "low-power/embedded")),
        (6, 0x86) | (6, 0x96) | (6, 0x9c) => Some(
            info("Tremont", "Atom Tremont", "low-power/embedded"),
        ),
        (6, 0xbe) => Some(info("Alder Lake-N", "Intel Processor N-series", "low-power client")),
        (6, 0xaf) => Some(info("Sierra Forest", "Xeon 6 E-core", "server")),
        (6, 0xb6) => Some(info("Grand Ridge", "Atom Crestmont", "network/embedded")),
        (6, 0xdd) => Some(info("Clearwater Forest", "Xeon E-core", "server")),
        (6, 0x57) => Some(info("Knights Landing", "Xeon Phi x200", "many-core")),
        (6, 0x85) => Some(info("Knights Mill", "Xeon Phi 72x5", "many-core")),
        (18, 0x01) | (18, 0x03) => Some(info("Nova Lake", "Nova Lake family", "client")),
        (19, 0x01) => Some(info("Diamond Rapids", "Diamond Rapids Xeon", "server")),
        _ => None,
    }
}

/// Look up a CPU by CPUID vendor, display family, and display model.
///
/// Only `GenuineIntel` is classified. Unknown and future model IDs return `None` so
/// callers never present a speculative generation as fact.
pub fn lookup(vendor: &str, family: u32, model: u32) -> (r: Option<CpuModelInfo>)
    ensures
        r == spec_lookup(vendor@, family, model),
{
    if !str_eq(vendor, "GenuineIntel") {
        return None;
    }
    table_lookup(family, model)
}

/// Maximum memory channels of one socket, for unambiguous Intel family/model groups.
pub open spec fn spec_max_memory_channels(vendor: Seq<char>, family: u32, model: u32) -> Option<
    u8,
> {
    if vendor != "GenuineIntel"@ {
        None
    } else {
        match (family, model) {
            (6, 0x2d) | (6, 0x3e) | (6, 0x3f) | (6, 0x4f) => Some(4u8),
            (6, 0x55) => Some(6u8),
            (6, 0x6a) | (6, 0x8f) | (6, 0xcf) => Some(8u8),
            (6, 0x2a) | (6, 0x3a) | (6, 0x3c) | (6, 0x45) | (6, 0x46) | (6, 0x3d) | (6, 0x47) | (
                6,
                0x4e,
            ) | (6, 0x5e) | (6, 0x9e) | (6, 0xa5) | (6, 0xa7) | (6, 0x97) | (6, 0xb7) | (6, 0xba) | (
                6,
                0xbf,
            ) | (6, 0xb5) | (6, 0xc5) | (6, 0xc6) | (6, 0xd7) => Some(2u8),
            _ => None,
        }
    }
}

/// Maximum memory channels provided by one processor socket for CPU families where
/// the family/model ID gives an unambiguous answer.
///
/// This is a silicon limit, not a count of populated or currently active channels.
/// Ambiguous family/model groups deliberately return `None` rather than guessing.
pub fn max_memory_channels(vendor: &str, family: u32, model: u32) -> (r: Option<u8>)
    ensures
        r == spec_max_memory_channels(vendor@, family, model),
{
    if !str_eq(vendor, "GenuineIntel") {
        return None;
    }
    match (family, model) {
        // Xeon E5 generations use four channels per socket.
        (6, 0x2d) | (6, 0x3e) | (6, 0x3f) | (6, 0x4f) => Some(4),
        // The Skylake-SP CPUID model is shared by the first three Xeon Scalable
        // generations; all three retain six channels per socket.
        (6, 0x55) => Some(6),
        // Ice Lake-SP through Emerald Rapids Xeon Scalable families.
        (6, 0x6a) | (6, 0x8f) | (6, 0xcf) => Some(8),
        // Conventional Core client memory controllers expose two channels. Mobile/SoC
        // families, whose 32-bit subchannels make the count easy to misread, get none.
        (6, 0x2a) | (6, 0x3a) | (6, 0x3c) | (6, 0x45) | (6, 0x46) | (6, 0x3d) | (6, 0x47) | (
            6,
            0x4e,
        ) | (6, 0x5e) | (6, 0x9e) | (6, 0xa5) | (6, 0xa7) | (6, 0x97) | (6, 0xb7) | (6, 0xba) | (
            6,
            0xbf,
        ) | (6, 0xb5) | (6, 0xc5) | (6, 0xc6) | (6, 0xd7) => Some(2),
        _ => None,
    }
}

pub open spec fn is_core_ultra(family: u32, model: u32) -> bool {
    family == 6 && (model == 0xaa || model == 0xac || model == 0xb5 || model == 0xbd || model
        == 0xc5 || model == 0xc6 || model == 0xcc || model == 0xe5)
}

pub open spec fn is_recent_client(family: u32, model: u32) -> bool {
    family == 6 && (model == 0x8c || model == 0x8d || model == 0x97 || model == 0x9a || model
        == 0xb7 || model == 0xba || model == 0xbf || model == 0xaa || model == 0xac || model
        == 0xb5 || model == 0xbd || model == 0xc5 || model == 0xc6 || model == 0xcc || model
        == 0xe5)
}

pub open spec fn is_accelerator_xeon(family: u32, model: u32) -> bool {
    (family == 6 && (model == 0x8f || model == 0xcf || model == 0xad || model == 0xae)) || (
    family == 19 && model == 0x01)
}

/// Conservative class-level expectation for `feature` on the given CPU.
pub open spec fn spec_feature_expectation(
    vendor: Seq<char>,
    family: u32,
    model: u32,
    feature: Seq<char>,
) -> Option<ClassExpectation> {
    match spec_lookup(vendor, family, model) {
        None => None,
        Some(info) => {
            let seg = info.segment@;
            if is_core_ultra(family, model) && feature == "npu"@ {
                Some(ClassExpectation::Expected)
            } else if occurs_in("client"@, seg) && feature == "igpu"@ {
                Some(ClassExpectation::Possible)
            } else if seg == "mobile client"@ && (feature == "wifi"@ || feature
                == "bluetooth"@ || feature == "thunderbolt"@ || feature == "s0ix"@) {
                Some(ClassExpectation::Possible)
            } else if is_recent_client(family, model) && (feature == "vmd"@ || feature
                == "gna"@) {
                Some(ClassExpectation::Possible)
            } else if occurs_in("server"@, seg) && (feature == "ipmi"@ || feature
                == "memory_ecc"@ || feature == "numa"@) {
                Some(ClassExpectation::Possible)
            } else if is_accelerator_xeon(family, model) && (feature == "dsa"@ || feature
                == "iaa"@ || feature == "qat"@ || feature == "dlb"@ || feature == "cxl"@
                || feature == "hmat"@) {
                Some(ClassExpectation::Possible)
            } else {
                None
            }
        },
    }
}

/// Return a conservative class-level expectation for a feature.
///
/// These hints cover only capabilities that are well associated with a family/model
/// class. `Possible` means that the feature is offered by some SKU or platform
/// configuration in the class; it does not mean the current SKU was sold with it.
pub fn feature_expectation(vendor: &str, family: u32, model: u32, feature: &str) -> (r: Option<
    ClassExpectation,
>)
    ensures
        r == spec_feature_expectation(vendor@, family, model, feature@),
        r is Some ==> spec_lookup(vendor@, family, model) is Some,
{
    let model_info = match lookup(vendor, family, model) {
        Some(i) => i,
        None => return None,
    };
    let seg = model_info.segment;
    let core_ultra = family == 6 && (model == 0xaa || model == 0xac || model == 0xb5 || model
        == 0xbd || model == 0xc5 || model == 0xc6 || model == 0xcc || model == 0xe5);
    if core_ultra && str_eq(feature, "npu") {
        return Some(ClassExpectation::Expected);
    }
    if str_contains(seg, "client") && str_eq(feature, "igpu") {
        return Some(ClassExpectation::Possible);
    }
    if str_eq(seg, "mobile client") && (str_eq(feature, "wifi") || str_eq(feature, "bluetooth")
        || str_eq(feature, "thunderbolt") || str_eq(feature, "s0ix")) {
        return Some(ClassExpectation::Possible);
    }
    let recent_client = family == 6 && (model == 0x8c || model == 0x8d || model == 0x97 || model
        == 0x9a || model == 0xb7 || model == 0xba || model == 0xbf || model == 0xaa || model
        == 0xac || model == 0xb5 || model == 0xbd || model == 0xc5 || model == 0xc6 || model
        == 0xcc || model == 0xe5);
    if recent_client && (str_eq(feature, "vmd") || str_eq(feature, "gna")) {
        return Some(ClassExpectation::Possible);
    }
    if str_contains(seg, "server") && (str_eq(feature, "ipmi") || str_eq(feature, "memory_ecc")
        || str_eq(feature, "numa")) {
        return Some(ClassExpectation::Possible);
    }
    let accelerator_xeon = (family == 6 && (model == 0x8f || model == 0xcf || model == 0xad
        || model == 0xae)) || (family == 19 && model == 0x01);
    if accelerator_xeon && (str_eq(feature, "dsa") || str_eq(feature, "iaa") || str_eq(
        feature,
        "qat",
    ) || str_eq(feature, "dlb") || str_eq(feature, "cxl") || str_eq(feature, "hmat")) {
        return Some(ClassExpectation::Possible);
    }
    None
}

/// The database speaks only of Intel processors: for any other vendor string there is no
/// model information, no memory-channel figure and no class expectation.
pub proof fn database_is_intel_only(vendor: Seq<char>, family: u32, model: u32, feature: Seq<char>)
    requires
        vendor != "GenuineIntel"@,
    ensures
        spec_lookup(vendor, family, model) is None,
        spec_max_memory_channels(vendor, family, model) is None,
        spec_feature_expectation(vendor, family, model, feature) is None,
{
}

/// Class expectations: an NPU is expected on every Core Ultra model (family 6, models
/// 0xAA, 0xAC, 0xB5, 0xBD, 0xC5, 0xC6, 0xCC, 0xE5) and expected nowhere else; the
/// accelerator-bearing Xeons (family 6 models 0x8F, 0xCF, 0xAD, 0xAE, and family 19
/// model 1) may carry DSA, IAA, QAT, DLB, CXL and HMAT, and as servers may have IPMI,
/// ECC memory and NUMA.
pub proof fn class_expectation_rules(vendor: Seq<char>, family: u32, model: u32)
    requires
        vendor == "GenuineIntel"@,
    ensures
        family == 6 && (model == 0xaa || model == 0xac || model == 0xb5 || model == 0xbd || model
            == 0xc5 || model == 0xc6 || model == 0xcc || model == 0xe5) ==> spec_feature_expectation(
            vendor,
            family,
            model,
            "npu"@,
        ) == Some(ClassExpectation::Expected),
        !(family == 6 && (model == 0xaa || model == 0xac || model == 0xb5 || model == 0xbd || model
            == 0xc5 || model == 0xc6 || model == 0xcc || model == 0xe5)) ==> spec_feature_expectation(
            vendor,
            family,
            model,
            "npu"@,
        ) != Some(ClassExpectation::Expected),
        (family == 6 && (model == 0x8f || model == 0xcf || model == 0xad || model == 0xae)) || (family
            == 19 && model == 0x01) ==> {
            &&& spec_feature_expectation(vendor, family, model, "dsa"@) == Some(ClassExpectation::Possible)
            &&& spec_feature_expectation(vendor, family, model, "iaa"@) == Some(ClassExpectation::Possible)
            &&& spec_feature_expectation(vendor, family, model, "qat"@) == Some(ClassExpectation::Possible)
            &&& spec_feature_expectation(vendor, family, model, "dlb"@) == Some(ClassExpectation::Possible)
            &&& spec_feature_expectation(vendor, family, model, "cxl"@) == Some(ClassExpectation::Possible)
            &&& spec_feature_expectation(vendor, family, model, "hmat"@) == Some(ClassExpectation::Possible)
            &&& spec_feature_expectation(vendor, family, model, "ipmi"@) == Some(ClassExpectation::Possible)
            &&& spec_feature_expectation(vendor, family, model, "memory_ecc"@) == Some(
                ClassExpectation::Possible,
            )
            &&& spec_feature_expectation(vendor, family, model, "numa"@) == Some(ClassExpectation::Possible)
        },
{
    reveal_strlit("npu");
    reveal_strlit("igpu");
    reveal_strlit("wifi");
    reveal_strlit("bluetooth");
    reveal_strlit("thunderbolt");
    reveal_strlit("s0ix");
    reveal_strlit("vmd");
    reveal_strlit("gna");
    reveal_strlit("ipmi");
    reveal_strlit("memory_ecc");
    reveal_strlit("numa");
    reveal_strlit("dsa");
    reveal_strlit("iaa");
    reveal_strlit("qat");
    reveal_strlit("dlb");
    reveal_strlit("cxl");
    reveal_strlit("hmat");
    reveal_strlit("server");
    reveal_strlit("client");
    reveal_strlit("mobile client");
    if (family == 6 && (model == 0x8f || model == 0xcf || model == 0xad || model == 0xae)) || (
    family == 19 && model == 0x01) {
        let seg = spec_lookup(vendor, family, model)->0.segment@;
        reveal_strlit("server/embedded");
        assert(seg == "server"@ || seg == "server/embedded"@);
        assert(seg.subrange(0, 0 + "server"@.len() as int) =~= "server"@);
        assert(occurs_in("server"@, seg));
        assert(!occurs_in("client"@, seg)) by {
            if occurs_in("client"@, seg) {
                let i = choose|i: int| 0 <= i <= seg.len() - 6 && #[trigger] seg.subrange(i, i + 6)
                    == "client"@;
                assert(seg.subrange(i, i + 6)[0] == seg[i]);
            }
        }
    }
}

/// The Intel processors the database names, each by its CPUID display family and
/// model: codename, generation and segment. Any other family/model is not named.
pub proof fn known_intel_models(vendor: Seq<char>, family: u32, model: u32)
    requires
        vendor == "GenuineIntel"@,
    ensures
        spec_lookup(vendor, 6, 0x1a) == Some(spec_info("Nehalem", "1st Gen Core / Xeon 5500–7500", "client/server")),
        spec_lookup(vendor, 6, 0x1e) == Some(spec_info("Nehalem", "1st Gen Core / Xeon 5500–7500", "client/server")),
        spec_lookup(vendor, 6, 0x1f) == Some(spec_info("Nehalem", "1st Gen Core / Xeon 5500–7500", "client/server")),
        spec_lookup(vendor, 6, 0x2e) == Some(spec_info("Nehalem", "1st Gen Core / Xeon 5500–7500", "client/server")),
        spec_lookup(vendor, 6, 0x25) == Some(spec_info("Westmere", "1st Gen Core / Xeon 5600–E7", "client/server")),
        spec_lookup(vendor, 6, 0x2c) == Some(spec_info("Westmere", "1st Gen Core / Xeon 5600–E7", "client/server")),
        spec_lookup(vendor, 6, 0x2f) == Some(spec_info("Westmere", "1st Gen Core / Xeon 5600–E7", "client/server")),
        spec_lookup(vendor, 6, 0x2a) == Some(spec_info("Sandy Bridge", "2nd Gen Core", "client")),
        spec_lookup(vendor, 6, 0x2d) == Some(spec_info("Sandy Bridge-EP", "Xeon E5 v1", "server")),
        spec_lookup(vendor, 6, 0x3a) == Some(spec_info("Ivy Bridge", "3rd Gen Core", "client")),
        spec_lookup(vendor, 6, 0x3e) == Some(spec_info("Ivy Bridge-EP", "Xeon E5 v2", "server")),
        spec_lookup(vendor, 6, 0x3c) == Some(spec_info("Haswell", "4th Gen Core", "client")),
        spec_lookup(vendor, 6, 0x45) == Some(spec_info("Haswell", "4th Gen Core", "client")),
        spec_lookup(vendor, 6, 0x46) == Some(spec_info("Haswell", "4th Gen Core", "client")),
        spec_lookup(vendor, 6, 0x3f) == Some(spec_info("Haswell-EP", "Xeon E5 v3", "server")),
        spec_lookup(vendor, 6, 0x3d) == Some(spec_info("Broadwell", "5th Gen Core", "client")),
        spec_lookup(vendor, 6, 0x47) == Some(spec_info("Broadwell", "5th Gen Core", "client")),
        spec_lookup(vendor, 6, 0x4f) == Some(spec_info("Broadwell-EP", "Xeon E5 v4", "server")),
        spec_lookup(vendor, 6, 0x56) == Some(spec_info("Broadwell-DE", "Xeon D-1500", "server/embedded")),
        spec_lookup(vendor, 6, 0x4e) == Some(spec_info("Skylake", "6th Gen Core", "client")),
        spec_lookup(vendor, 6, 0x5e) == Some(spec_info("Skylake", "6th Gen Core", "client")),
        spec_lookup(vendor, 6, 0x55) == Some(spec_info("Skylake-SP family", "1st–3rd Gen Xeon Scalable", "server")),
        spec_lookup(vendor, 6, 0x8e) == Some(spec_info("Kaby/Coffee/Whiskey Lake", "7th–8th Gen Core", "mobile client")),
        spec_lookup(vendor, 6, 0x9e) == Some(spec_info("Kaby/Coffee Lake", "7th–9th Gen Core", "client")),
        spec_lookup(vendor, 6, 0xa5) == Some(spec_info("Comet Lake", "10th Gen Core", "client")),
        spec_lookup(vendor, 6, 0xa6) == Some(spec_info("Comet Lake-U", "10th Gen Core", "mobile client")),
        spec_lookup(vendor, 6, 0x66) == Some(spec_info("Cannon Lake", "8th Gen Core", "mobile client")),
        spec_lookup(vendor, 6, 0x7d) == Some(spec_info("Ice Lake", "10th Gen Core", "mobile client")),
        spec_lookup(vendor, 6, 0x7e) == Some(spec_info("Ice Lake", "10th Gen Core", "mobile client")),
        spec_lookup(vendor, 6, 0x6a) == Some(spec_info("Ice Lake-SP", "3rd Gen Xeon Scalable", "server")),
        spec_lookup(vendor, 6, 0x6c) == Some(spec_info("Ice Lake-D", "Xeon D-1700/2700", "server/embedded")),
        spec_lookup(vendor, 6, 0xa7) == Some(spec_info("Rocket Lake", "11th Gen Core", "client")),
        spec_lookup(vendor, 6, 0x8c) == Some(spec_info("Tiger Lake", "11th Gen Core", "mobile client")),
        spec_lookup(vendor, 6, 0x8d) == Some(spec_info("Tiger Lake", "11th Gen Core", "mobile client")),
        spec_lookup(vendor, 6, 0x8f) == Some(spec_info("Sapphire Rapids", "4th Gen Xeon Scalable", "server")),
        spec_lookup(vendor, 6, 0xcf) == Some(spec_info("Emerald Rapids", "5th Gen Xeon Scalable", "server")),
        spec_lookup(vendor, 6, 0xad) == Some(spec_info("Granite Rapids", "6th Gen Xeon Scalable", "server")),
        spec_lookup(vendor, 6, 0xae) == Some(spec_info("Granite Rapids-D", "Xeon 6 SoC", "server/embedded")),
        spec_lookup(vendor, 6, 0xd7) == Some(spec_info("Bartlett Lake", "Raptor Cove family", "client/embedded")),
        spec_lookup(vendor, 6, 0x8a) == Some(spec_info("Lakefield", "Core with Intel Hybrid Technology", "mobile client")),
        spec_lookup(vendor, 6, 0x97) == Some(spec_info("Alder Lake", "12th Gen Core", "client")),
        spec_lookup(vendor, 6, 0x9a) == Some(spec_info("Alder Lake", "12th Gen Core", "client")),
        spec_lookup(vendor, 6, 0xb7) == Some(spec_info("Raptor Lake", "13th–14th Gen Core", "client")),
        spec_lookup(vendor, 6, 0xba) == Some(spec_info("Raptor Lake", "13th–14th Gen Core", "client")),
        spec_lookup(vendor, 6, 0xbf) == Some(spec_info("Raptor Lake", "13th–14th Gen Core", "client")),
        spec_lookup(vendor, 6, 0xaa) == Some(spec_info("Meteor Lake", "Core Ultra Series 1", "mobile client")),
        spec_lookup(vendor, 6, 0xac) == Some(spec_info("Meteor Lake", "Core Ultra Series 1", "mobile client")),
        spec_lookup(vendor, 6, 0xb5) == Some(spec_info("Arrow Lake", "Core Ultra Series 2", "client")),
        spec_lookup(vendor, 6, 0xc5) == Some(spec_info("Arrow Lake", "Core Ultra Series 2", "client")),
        spec_lookup(vendor, 6, 0xc6) == Some(spec_info("Arrow Lake", "Core Ultra Series 2", "client")),
        spec_lookup(vendor, 6, 0xbd) == Some(spec_info("Lunar Lake", "Core Ultra Series 2", "mobile client")),
        spec_lookup(vendor, 6, 0xcc) == Some(spec_info("Panther Lake", "Core Ultra Series 3", "mobile client")),
        spec_lookup(vendor, 6, 0xe5) == Some(spec_info("Panther Lake", "Core Ultra Series 3", "mobile client")),
        spec_lookup(vendor, 6, 0x1c) == Some(spec_info("Bonnell", "Atom Bonnell", "low-power/embedded")),
        spec_lookup(vendor, 6, 0x26) == Some(spec_info("Bonnell", "Atom Bonnell", "low-power/embedded")),
        spec_lookup(vendor, 6, 0x27) == Some(spec_info("Saltwell", "Atom Saltwell", "low-power/embedded")),
        spec_lookup(vendor, 6, 0x35) == Some(spec_info("Saltwell", "Atom Saltwell", "low-power/embedded")),
        spec_lookup(vendor, 6, 0x36) == Some(spec_info("Saltwell", "Atom Saltwell", "low-power/embedded")),
        spec_lookup(vendor, 6, 0x37) == Some(spec_info("Silvermont", "Atom Silvermont", "low-power/embedded")),
        spec_lookup(vendor, 6, 0x4a) == Some(spec_info("Silvermont", "Atom Silvermont", "low-power/embedded")),
        spec_lookup(vendor, 6, 0x4d) == Some(spec_info("Silvermont", "Atom Silvermont", "low-power/embedded")),
        spec_lookup(vendor, 6, 0x5a) == Some(spec_info("Silvermont", "Atom Silvermont", "low-power/embedded")),
        spec_lookup(vendor, 6, 0x4c) == Some(spec_info("Airmont", "Atom Airmont", "low-power/embedded")),
        spec_lookup(vendor, 6, 0x75) == Some(spec_info("Airmont", "Atom Airmont", "low-power/embedded")),
        spec_lookup(vendor, 6, 0x5c) == Some(spec_info("Goldmont", "Atom Goldmont", "low-power/embedded")),
        spec_lookup(vendor, 6, 0x5f) == Some(spec_info("Goldmont", "Atom Goldmont", "low-power/embedded")),
        spec_lookup(vendor, 6, 0x7a) == Some(spec_info("Goldmont Plus", "Atom Goldmont Plus", "low-power/embedded")),
        spec_lookup(vendor, 6, 0x86) == Some(spec_info("Tremont", "Atom Tremont", "low-power/embedded")),
        spec_lookup(vendor, 6, 0x96) == Some(spec_info("Tremont", "Atom Tremont", "low-power/embedded")),
        spec_lookup(vendor, 6, 0x9c) == Some(spec_info("Tremont", "Atom Tremont", "low-power/embedded")),
        spec_lookup(vendor, 6, 0xbe) == Some(spec_info("Alder Lake-N", "Intel Processor N-series", "low-power client")),
        spec_lookup(vendor, 6, 0xaf) == Some(spec_info("Sierra Forest", "Xeon 6 E-core", "server")),
        spec_lookup(vendor, 6, 0xb6) == Some(spec_info("Grand Ridge", "Atom Crestmont", "network/embedded")),
        spec_lookup(vendor, 6, 0xdd) == Some(spec_info("Clearwater Forest", "Xeon E-core", "server")),
        spec_lookup(vendor, 6, 0x57) == Some(spec_info("Knights Landing", "Xeon Phi x200", "many-core")),
        spec_lookup(vendor, 6, 0x85) == Some(spec_info("Knights Mill", "Xeon Phi 72x5", "many-core")),
        spec_lookup(vendor, 18, 0x1) == Some(spec_info("Nova Lake", "Nova Lake family", "client")),
        spec_lookup(vendor, 18, 0x3) == Some(spec_info("Nova Lake", "Nova Lake family", "client")),
        spec_lookup(vendor, 19, 0x1) == Some(spec_info("Diamond Rapids", "Diamond Rapids Xeon", "server")),
        spec_lookup(vendor, family, model) is Some ==>
            (family == 6 && (model == 0x1a || model == 0x1e || model == 0x1f || model == 0x2e ||
            model == 0x25 || model == 0x2c || model == 0x2f || model == 0x2a || model == 0x2d ||
            model == 0x3a || model == 0x3e || model == 0x3c || model == 0x45 || model == 0x46 ||
            model == 0x3f || model == 0x3d || model == 0x47 || model == 0x4f || model == 0x56 ||
            model == 0x4e || model == 0x5e || model == 0x55 || model == 0x8e || model == 0x9e ||
            model == 0xa5 || model == 0xa6 || model == 0x66 || model == 0x7d || model == 0x7e ||
            model == 0x6a || model == 0x6c || model == 0xa7 || model == 0x8c || model == 0x8d ||
            model == 0x8f || model == 0xcf || model == 0xad || model == 0xae || model == 0xd7 ||
            model == 0x8a || model == 0x97 || model == 0x9a || model == 0xb7 || model == 0xba ||
            model == 0xbf || model == 0xaa || model == 0xac || model == 0xb5 || model == 0xc5 ||
            model == 0xc6 || model == 0xbd || model == 0xcc || model == 0xe5 || model == 0x1c ||
            model == 0x26 || model == 0x27 || model == 0x35 || model == 0x36 || model == 0x37 ||
            model == 0x4a || model == 0x4d || model == 0x5a || model == 0x4c || model == 0x75 ||
            model == 0x5c || model == 0x5f || model == 0x7a || model == 0x86 || model == 0x96 ||
            model == 0x9c || model == 0xbe || model == 0xaf || model == 0xb6 || model == 0xdd ||
            model == 0x57 || model == 0x85)) || (family == 18 && (model == 0x1 || model == 0x3)) ||
            (family == 19 && (model == 0x1)),
{
}

/// The memory channels per socket the database states, by CPUID display family and
/// model; no figure is given for any other model.
pub proof fn known_memory_channels(vendor: Seq<char>, family: u32, model: u32)
    requires
        vendor == "GenuineIntel"@,
    ensures
        spec_max_memory_channels(vendor, 6, 0x2d) == Some(4u8),
        spec_max_memory_channels(vendor, 6, 0x3e) == Some(4u8),
        spec_max_memory_channels(vendor, 6, 0x3f) == Some(4u8),
        spec_max_memory_channels(vendor, 6, 0x4f) == Some(4u8),
        spec_max_memory_channels(vendor, 6, 0x55) == Some(6u8),
        spec_max_memory_channels(vendor, 6, 0x6a) == Some(8u8),
        spec_max_memory_channels(vendor, 6, 0x8f) == Some(8u8),
        spec_max_memory_channels(vendor, 6, 0xcf) == Some(8u8),
        spec_max_memory_channels(vendor, 6, 0x2a) == Some(2u8),
        spec_max_memory_channels(vendor, 6, 0x3a) == Some(2u8),
        spec_max_memory_channels(vendor, 6, 0x3c) == Some(2u8),
        spec_max_memory_channels(vendor, 6, 0x45) == Some(2u8),
        spec_max_memory_channels(vendor, 6, 0x46) == Some(2u8),
        spec_max_memory_channels(vendor, 6, 0x3d) == Some(2u8),
        spec_max_memory_channels(vendor, 6, 0x47) == Some(2u8),
        spec_max_memory_channels(vendor, 6, 0x4e) == Some(2u8),
        spec_max_memory_channels(vendor, 6, 0x5e) == Some(2u8),
        spec_max_memory_channels(vendor, 6, 0x9e) == Some(2u8),
        spec_max_memory_channels(vendor, 6, 0xa5) == Some(2u8),
        spec_max_memory_channels(vendor, 6, 0xa7) == Some(2u8),
        spec_max_memory_channels(vendor, 6, 0x97) == Some(2u8),
        spec_max_memory_channels(vendor, 6, 0xb7) == Some(2u8),
        spec_max_memory_channels(vendor, 6, 0xba) == Some(2u8),
        spec_max_memory_channels(vendor, 6, 0xbf) == Some(2u8),
        spec_max_memory_channels(vendor, 6, 0xb5) == Some(2u8),
        spec_max_memory_channels(vendor, 6, 0xc5) == Some(2u8),
        spec_max_memory_channels(vendor, 6, 0xc6) == Some(2u8),
        spec_max_memory_channels(vendor, 6, 0xd7) == Some(2u8),
        spec_max_memory_channels(vendor, family, model) is Some ==>
            family == 6 && (model == 0x2d || model == 0x3e || model == 0x3f || model == 0x4f ||
            model == 0x55 || model == 0x6a || model == 0x8f || model == 0xcf || model == 0x2a ||
            model == 0x3a || model == 0x3c || model == 0x45 || model == 0x46 || model == 0x3d ||
            model == 0x47 || model == 0x4e || model == 0x5e || model == 0x9e || model == 0xa5 ||
            model == 0xa7 || model == 0x97 || model == 0xb7 || model == 0xba || model == 0xbf ||
            model == 0xb5 || model == 0xc5 || model == 0xc6 || model == 0xd7),
{
}

} // verus!
