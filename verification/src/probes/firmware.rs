//! EFI and SMBIOS/DMI probes, and the system identity shown in the banner.
//!
//! The EFI probe tells a confirmed UEFI boot from an interface it could not inspect;
//! the DMI probe parses the raw SMBIOS table for memory-array ECC (type 16) and
//! populated memory devices (type 17).

use vstd::prelude::*;

use crate::model::{Detection, Status};
use crate::probes::pci::ChipsetInfo;
use crate::probes::{
    Probe,
    all_unknown, detection_is, finding_detail, unavailable, DirEntry, Findings, IoErrorKind,
    IoFailure, Listing, MetadataRead, TextRead,
};
use crate::text::{dec, has_prefix, join, push_dec, str_has_prefix, trim, trim_owned};

verus! {

pub const EFI_SRC: &'static str = "efi";

pub const DMI_SRC: &'static str = "dmi";

pub open spec fn efi_feature_ids() -> Seq<&'static str> {
    seq!["uefi_boot", "secure_boot", "setup_mode", "esrt"]
}

pub open spec fn dmi_feature_ids() -> Seq<&'static str> {
    seq!["memory_ecc", "memory_dimms"]
}

fn efi_ids() -> (r: Vec<&'static str>)
    ensures
        r@ == efi_feature_ids(),
{
    let r = vec!["uefi_boot", "secure_boot", "setup_mode", "esrt"];
    assert(r@ =~= efi_feature_ids());
    r
}

fn dmi_ids() -> (r: Vec<&'static str>)
    ensures
        r@ == dmi_feature_ids(),
{
    let r = vec!["memory_ecc", "memory_dimms"];
    assert(r@ =~= dmi_feature_ids());
    r
}

// ---- EFI ----------------------------------------------------------------------------

pub struct EfiProbe;

/// Reads of the EFI interfaces.
#[derive(Debug)]
pub struct EfiReadings {
    /// `/sys/firmware/efi`.
    pub root: MetadataRead,
    /// `/sys/firmware/efi/efivars`.
    pub efivars: Listing,
    /// Contents of the first `SecureBoot-*` efivar, when one is listed.
    pub secure_boot: Option<Result<Vec<u8>, IoFailure>>,
    /// Contents of the first `SetupMode-*` efivar, when one is listed.
    pub setup_mode: Option<Result<Vec<u8>, IoFailure>>,
    /// `/sys/firmware/efi/esrt`.
    pub esrt: MetadataRead,
}

/// Index of the first listed entry whose name starts with `prefix`.
pub open spec fn first_prefixed(entries: Seq<Option<DirEntry>>, prefix: Seq<char>) -> Option<int>
    decreases entries.len(),
{
    if entries.len() == 0 {
        None
    } else {
        match first_prefixed(entries.drop_last(), prefix) {
            Some(k) => Some(k),
            None => match entries.last() {
                Some(e) => if has_prefix(e.file_name@, prefix) {
                    Some(entries.len() - 1)
                } else {
                    None
                },
                None => None,
            },
        }
    }
}

pub open spec fn listing_complete(entries: Seq<Option<DirEntry>>) -> bool {
    forall|k: int| 0 <= k < entries.len() ==> #[trigger] entries[k] is Some
}

/// The first listed entry whose name starts with `prefix`: the efivar to read.
pub fn first_entry_with_prefix(listing: &Listing, prefix: &str) -> (r: Option<DirEntry>)
    ensures
        match listing {
            Ok(entries) => match first_prefixed(entries@, prefix@) {
                Some(k) => r matches Some(e) && entries@[k] == Some(e),
                None => r is None,
            },
            Err(_) => r is None,
        },
{
    let entries = match listing {
        Ok(e) => e,
        Err(_) => return None,
    };
    let mut i: usize = 0;
    assert(entries@.take(0) =~= Seq::<Option<DirEntry>>::empty());
    while i < entries.len()
        invariant
            i <= entries.len(),
            *listing == Ok::<Vec<Option<DirEntry>>, IoFailure>(*entries),
            first_prefixed(entries@.take(i as int), prefix@) is None,
        decreases entries.len() - i,
    {
        assert(entries@.take(i + 1).drop_last() =~= entries@.take(i as int));
        if let Some(e) = &entries[i] {
            if str_has_prefix(e.file_name.as_str(), prefix) {
                proof {
                    lemma_first_prefixed_prefix(entries@, i + 1, prefix@);
                }
                return Some(DirEntry { path: e.path.clone(), file_name: e.file_name.clone() });
            }
        }
        i += 1;
    }
    assert(entries@.take(i as int) =~= entries@);
    None
}

proof fn lemma_first_prefixed_prefix(entries: Seq<Option<DirEntry>>, n: int, prefix: Seq<char>)
    requires
        0 <= n <= entries.len(),
        first_prefixed(entries.take(n), prefix) is Some,
    ensures
        first_prefixed(entries, prefix) == first_prefixed(entries.take(n), prefix),
    decreases entries.len(),
{
    if n < entries.len() {
        assert(entries.drop_last().take(n) =~= entries.take(n));
        lemma_first_prefixed_prefix(entries.drop_last(), n, prefix);
    } else {
        assert(entries.take(n) =~= entries);
    }
}

/// Decision for one boolean efivar (`SecureBoot`, `SetupMode`); its value is byte 4
/// (after the four attribute bytes).
pub open spec fn spec_efi_boolean(
    efivars: Listing,
    prefix: Seq<char>,
    var: Option<Result<Vec<u8>, IoFailure>>,
    label: Seq<char>,
) -> (Status, Seq<char>) {
    match efivars {
        Err(e) => (Status::Unknown, "cannot inspect efivars: "@ + e.message@),
        Ok(entries) => match first_prefixed(entries@, prefix) {
            Some(_) => match var {
                Some(Ok(bytes)) => if bytes@.len() > 4 && bytes@[4] == 1 {
                    (Status::Enabled, label + "=1"@)
                } else if bytes@.len() > 4 && bytes@[4] == 0 {
                    (Status::Disabled, label + "=0"@)
                } else {
                    (Status::Unknown, "malformed "@ + label + " efivar"@)
                },
                Some(Err(e)) => (Status::Unknown, "cannot read "@ + label + ": "@ + e.message@),
                None => (Status::Unknown, label + " efivar not read"@),
            },
            None => if listing_complete(entries@) {
                (Status::Unknown, label + " efivar absent"@)
            } else {
                (Status::Unknown, "efivar enumeration incomplete"@)
            },
        },
    }
}

fn all_listed(entries: &Vec<Option<DirEntry>>) -> (r: bool)
    ensures
        r == listing_complete(entries@),
{
    let mut i: usize = 0;
    while i < entries.len()
        invariant
            i <= entries.len(),
            forall|k: int| 0 <= k < i ==> #[trigger] entries@[k] is Some,
        decreases entries.len() - i,
    {
        if entries[i].is_none() {
            return false;
        }
        i += 1;
    }
    true
}

fn efi_boolean(
    efivars: &Listing,
    prefix: &str,
    var: &Option<Result<Vec<u8>, IoFailure>>,
    id: &'static str,
    label: &str,
) -> (r: (&'static str, Detection))
    ensures
        r.0 == id,
        detection_is(r.1, EFI_SRC, spec_efi_boolean(*efivars, prefix@, *var, label@)),
{
    let entries = match efivars {
        Err(e) => {
            let mut d = String::from_str("cannot inspect efivars: ");
            d.append(e.message.as_str());
            return finding_detail(EFI_SRC, id, Status::Unknown, d);
        },
        Ok(entries) => entries,
    };
    match first_entry_with_prefix(efivars, prefix) {
        Some(_) => match var {
            Some(Ok(bytes)) => {
                if bytes.len() > 4 && bytes[4] == 1 {
                    let mut d = String::from_str(label);
                    d.append("=1");
                    finding_detail(EFI_SRC, id, Status::Enabled, d)
                } else if bytes.len() > 4 && bytes[4] == 0 {
                    let mut d = String::from_str(label);
                    d.append("=0");
                    finding_detail(EFI_SRC, id, Status::Disabled, d)
                } else {
                    let mut d = String::from_str("malformed ");
                    d.append(label);
                    d.append(" efivar");
                    finding_detail(EFI_SRC, id, Status::Unknown, d)
                }
            },
            Some(Err(e)) => {
                let mut d = String::from_str("cannot read ");
                d.append(label);
                d.append(": ");
                d.append(e.message.as_str());
                finding_detail(EFI_SRC, id, Status::Unknown, d)
            },
            None => {
                let mut d = String::from_str(label);
                d.append(" efivar not read");
                finding_detail(EFI_SRC, id, Status::Unknown, d)
            },
        },
        None => {
            if all_listed(entries) {
                let mut d = String::from_str(label);
                d.append(" efivar absent");
                finding_detail(EFI_SRC, id, Status::Unknown, d)
            } else {
                finding_detail(
                    EFI_SRC,
                    id,
                    Status::Unknown,
                    String::from_str("efivar enumeration incomplete"),
                )
            }
        },
    }
}

/// The EFI probe's findings.
pub open spec fn efi_findings_ok(out: Seq<(&'static str, Detection)>, r: EfiReadings) -> bool {
    match r.root {
        Err(e) => all_unknown(
            out,
            EFI_SRC,
            efi_feature_ids(),
            "cannot establish EFI boot state: "@ + e.message@,
        ),
        Ok(m) => if !m.is_dir {
            all_unknown(out, EFI_SRC, efi_feature_ids(), "EFI interface is not a directory"@)
        } else {
            &&& out.len() == 4
            &&& out[0].0 == "uefi_boot" && detection_is(
                out[0].1,
                EFI_SRC,
                (Status::Enabled, "booted via UEFI"@),
            )
            &&& out[1].0 == "secure_boot" && detection_is(
                out[1].1,
                EFI_SRC,
                spec_efi_boolean(r.efivars, "SecureBoot-"@, r.secure_boot, "SecureBoot"@),
            )
            &&& out[2].0 == "setup_mode" && detection_is(
                out[2].1,
                EFI_SRC,
                spec_efi_boolean(r.efivars, "SetupMode-"@, r.setup_mode, "SetupMode"@),
            )
            &&& out[3].0 == "esrt" && detection_is(
                out[3].1,
                EFI_SRC,
                match r.esrt {
                    Ok(_) => (Status::Enabled, "ESRT present (capsule/fwupd)"@),
                    Err(e) => if e.kind == IoErrorKind::NotFound {
                        (Status::Absent, "no ESRT"@)
                    } else {
                        (Status::Unknown, "cannot inspect ESRT: "@ + e.message@)
                    },
                },
            )
        },
    }
}

impl Probe for EfiProbe {
    fn name(&self) -> (r: &'static str)
        ensures
            r == EFI_SRC,
    {
        EFI_SRC
    }

    fn feature_ids(&self) -> (r: Vec<&'static str>)
        ensures
            r@ == efi_feature_ids(),
    {
        efi_ids()
    }
}

impl EfiProbe {
    /// Decide UEFI boot, Secure Boot, Setup Mode and ESRT from the EFI interfaces. A
    /// missing EFI interface is `Unknown`, never a claim of legacy BIOS boot.
    pub fn decide(&self, r: &EfiReadings) -> (out: Findings)
        ensures
            efi_findings_ok(out@, *r),
    {
        match &r.root {
            Err(e) => {
                let mut d = String::from_str("cannot establish EFI boot state: ");
                d.append(e.message.as_str());
                return unavailable(EFI_SRC, &efi_ids(), d.as_str());
            },
            Ok(m) => {
                if !m.is_dir {
                    return unavailable(EFI_SRC, &efi_ids(), "EFI interface is not a directory");
                }
            },
        }
        let mut out: Findings = Vec::new();
        out.push(
            finding_detail(EFI_SRC, "uefi_boot", Status::Enabled, String::from_str("booted via UEFI")),
        );
        out.push(efi_boolean(&r.efivars, "SecureBoot-", &r.secure_boot, "secure_boot", "SecureBoot"));
        out.push(efi_boolean(&r.efivars, "SetupMode-", &r.setup_mode, "setup_mode", "SetupMode"));
        let esrt = match &r.esrt {
            Ok(_) => finding_detail(
                EFI_SRC,
                "esrt",
                Status::Enabled,
                String::from_str("ESRT present (capsule/fwupd)"),
            ),
            Err(e) => {
                if e.kind == IoErrorKind::NotFound {
                    finding_detail(EFI_SRC, "esrt", Status::Absent, String::from_str("no ESRT"))
                } else {
                    let mut d = String::from_str("cannot inspect ESRT: ");
                    d.append(e.message.as_str());
                    finding_detail(EFI_SRC, "esrt", Status::Unknown, d)
                }
            },
        };
        out.push(esrt);
        out
    }
}

// ---- SMBIOS ---------------------------------------------------------------------------

/// One SMBIOS structure: its type and its formatted area.
#[derive(Debug)]
pub struct Structure<'a> {
    pub stype: u8,
    pub formatted: &'a [u8],
}

pub open spec fn spec_byte(f: Seq<u8>, offset: int) -> u8 {
    if 0 <= offset < f.len() {
        f[offset]
    } else {
        0
    }
}

/// Little-endian 16-bit value at `offset`.
pub open spec fn spec_word(f: Seq<u8>, offset: int) -> Option<u16> {
    if 0 <= offset && offset + 1 < f.len() {
        Some((f[offset] + 256 * f[offset + 1]) as u16)
    } else {
        None
    }
}

/// Little-endian 32-bit value at `offset`.
pub open spec fn spec_dword(f: Seq<u8>, offset: int) -> Option<u32> {
    if 0 <= offset && offset + 3 < f.len() {
        Some(
            (f[offset] + 256 * f[offset + 1] + 65536 * f[offset + 2] + 16777216 * f[offset
                + 3]) as u32,
        )
    } else {
        None
    }
}

impl Structure<'_> {
    /// The byte at `offset`, or 0 past the end.
    pub fn byte(&self, offset: usize) -> (r: u8)
        ensures
            r == spec_byte(self.formatted@, offset as int),
    {
        if offset < self.formatted.len() {
            self.formatted[offset]
        } else {
            0
        }
    }

    pub fn word(&self, offset: usize) -> (r: Option<u16>)
        ensures
            r == spec_word(self.formatted@, offset as int),
    {
        if offset < self.formatted.len() && self.formatted.len() - offset > 1 {
            let lo = self.formatted[offset] as u16;
            let hi = self.formatted[offset + 1] as u16;
            Some(lo + 256 * hi)
        } else {
            None
        }
    }

    pub fn dword(&self, offset: usize) -> (r: Option<u32>)
        ensures
            r == spec_dword(self.formatted@, offset as int),
    {
        if offset < self.formatted.len() && self.formatted.len() - offset > 3 {
            let b0 = self.formatted[offset] as u32;
            let b1 = self.formatted[offset + 1] as u32;
            let b2 = self.formatted[offset + 2] as u32;
            let b3 = self.formatted[offset + 3] as u32;
            Some(b0 + 256 * b1 + 65536 * b2 + 16777216 * b3)
        } else {
            None
        }
    }
}

/// First position at or after `k` holding two NUL bytes (the end of a string table).
pub open spec fn double_nul(buf: Seq<u8>, k: int) -> Option<int>
    decreases buf.len() - k,
{
    if k < 0 || k + 1 >= buf.len() {
        None
    } else if buf[k] == 0 && buf[k + 1] == 0 {
        Some(k)
    } else {
        double_nul(buf, k + 1)
    }
}

/// The structures (type, start, length) of an SMBIOS table from `pos` on, or why the
/// table is malformed.
pub open spec fn parse_from(buf: Seq<u8>, pos: int) -> Result<Seq<(u8, int, int)>, Seq<char>>
    decreases buf.len() - pos,
{
    if pos < 0 || pos >= buf.len() {
        Ok(Seq::empty())
    } else if pos + 4 > buf.len() {
        Err("malformed SMBIOS header"@)
    } else {
        let stype = buf[pos];
        let length = buf[pos + 1] as int;
        if length < 4 || pos + length > buf.len() {
            Err("malformed SMBIOS structure length"@)
        } else if stype == 127 {
            Ok(Seq::empty())
        } else {
            match double_nul(buf, pos + length) {
                None => Err("unterminated SMBIOS string table"@),
                Some(end) => if pos < end + 2 <= buf.len() {
                    match parse_from(buf, end + 2) {
                        Ok(rest) => Ok(seq![(stype, pos, length)] + rest),
                        Err(e) => Err(e),
                    }
                } else {
                    Err("unterminated SMBIOS string table"@)
                },
            }
        }
    }
}

/// The structures of a raw SMBIOS table, up to the end-of-table structure (type 127).
pub fn parse_structures(buf: &[u8]) -> (r: Result<Vec<Structure<'_>>, String>)
    ensures
        match (r, parse_from(buf@, 0)) {
            (Ok(v), Ok(s)) => v@.len() == s.len() && forall|i: int|
                0 <= i < s.len() ==> (#[trigger] v@[i]).stype == s[i].0 && v@[i].formatted@
                    == buf@.subrange(s[i].1, s[i].1 + s[i].2),
            (Err(e), Err(m)) => e@ == m,
            _ => false,
        },
{
    let mut structures: Vec<Structure<'_>> = Vec::new();
    let mut pos: usize = 0;
    let ghost done: Seq<(u8, int, int)> = Seq::empty();
    while pos < buf.len()
        invariant
            pos <= buf@.len(),
            structures@.len() == done.len(),
            forall|i: int|
                0 <= i < done.len() ==> (#[trigger] structures@[i]).stype == done[i].0
                    && structures@[i].formatted@ == buf@.subrange(done[i].1, done[i].1 + done[i].2),
            parse_from(buf@, 0) == match parse_from(buf@, pos as int) {
                Ok(rest) => Ok(done + rest),
                Err(e) => Err(e),
            },
        decreases buf.len() - pos,
    {
        if buf.len() - pos < 4 {
            return Err(String::from_str("malformed SMBIOS header"));
        }
        let stype = buf[pos];
        let length = buf[pos + 1] as usize;
        if length < 4 || buf.len() - pos < length {
            return Err(String::from_str("malformed SMBIOS structure length"));
        }
        if stype == 127 {
            assert(done + Seq::<(u8, int, int)>::empty() =~= done);
            return Ok(structures);
        }
        let formatted = &buf[pos..pos + length];
        let mut end = pos + length;
        while buf.len() - end > 1 && !(buf[end] == 0 && buf[end + 1] == 0)
            invariant
                pos + length <= end <= buf@.len(),
                double_nul(buf@, (pos + length) as int) == double_nul(buf@, end as int),
            decreases buf.len() - end,
        {
            end += 1;
        }
        if buf.len() - end <= 1 {
            return Err(String::from_str("unterminated SMBIOS string table"));
        }
        proof {
            let s = (stype, pos as int, length as int);
            assert(parse_from(buf@, pos as int) == match parse_from(buf@, end + 2) {
                Ok(rest) => Ok(seq![s] + rest),
                Err(e) => Err(e),
            });
            match parse_from(buf@, end + 2) {
                Ok(rest) => {
                    assert(done + (seq![s] + rest) =~= done.push(s) + rest);
                },
                Err(_) => {},
            }
            done = done.push(s);
        }
        structures.push(Structure { stype, formatted });
        pos = end + 2;
    }
    assert(done + Seq::<(u8, int, int)>::empty() =~= done);
    Ok(structures)
}

/// ECC mode of an SMBIOS type 16 memory array.
#[derive(Debug, Clone, Copy, PartialEq, Eq, Structural)]
pub enum EccState {
    NoEcc,
    Ecc,
    Unknown,
}

pub open spec fn spec_ecc_state(value: u8) -> EccState {
    if value == 0x03 {
        EccState::NoEcc
    } else if 0x04 <= value <= 0x07 {
        EccState::Ecc
    } else {
        EccState::Unknown
    }
}

/// Memory-array error-correction type: 3 = none, 4..=7 = parity/ECC variants, anything
/// else (other, unknown, reserved) is not decided.
pub fn ecc_state(value: u8) -> (r: EccState)
    ensures
        r == spec_ecc_state(value),
{
    if value == 0x03 {
        EccState::NoEcc
    } else if 0x04 <= value && value <= 0x07 {
        EccState::Ecc
    } else {
        EccState::Unknown
    }
}

pub open spec fn spec_mem_type(value: u8) -> Seq<char> {
    if value == 0x18 {
        "DDR3"@
    } else if value == 0x1a {
        "DDR4"@
    } else if value == 0x1e {
        "LPDDR"@
    } else if value == 0x1f {
        "LPDDR2"@
    } else if value == 0x20 {
        "LPDDR3"@
    } else if value == 0x21 {
        "LPDDR4"@
    } else if value == 0x22 {
        "DDR5"@
    } else if value == 0x23 {
        "LPDDR5"@
    } else {
        "RAM"@
    }
}

/// SMBIOS memory type name.
pub fn mem_type(value: u8) -> (r: &'static str)
    ensures
        r@ == spec_mem_type(value),
{
    match value {
        0x18 => "DDR3",
        0x1a => "DDR4",
        0x1e => "LPDDR",
        0x1f => "LPDDR2",
        0x20 => "LPDDR3",
        0x21 => "LPDDR4",
        0x22 => "DDR5",
        0x23 => "LPDDR5",
        _ => "RAM",
    }
}

/// SMBIOS memory-array error correction (type 16, offset 06h): 03h means none, 04h to
/// 07h parity, single-bit ECC, multi-bit ECC and CRC, and any other value (other,
/// unknown, reserved) decides nothing.
pub proof fn ecc_code_rules(value: u8)
    ensures
        value == 3 <==> spec_ecc_state(value) == EccState::NoEcc,
        4 <= value <= 7 <==> spec_ecc_state(value) == EccState::Ecc,
        (value < 3 || value > 7) <==> spec_ecc_state(value) == EccState::Unknown,
{
}

/// SMBIOS memory device types (type 17, offset 12h): 18h DDR3, 1Ah DDR4, 1Eh LPDDR, 1Fh
/// LPDDR2, 20h LPDDR3, 21h LPDDR4, 22h DDR5, 23h LPDDR5; any other code is shown as RAM.
pub proof fn memory_type_codes(value: u8)
    ensures
        spec_mem_type(0x18) == "DDR3"@,
        spec_mem_type(0x1a) == "DDR4"@,
        spec_mem_type(0x1e) == "LPDDR"@,
        spec_mem_type(0x1f) == "LPDDR2"@,
        spec_mem_type(0x20) == "LPDDR3"@,
        spec_mem_type(0x21) == "LPDDR4"@,
        spec_mem_type(0x22) == "DDR5"@,
        spec_mem_type(0x23) == "LPDDR5"@,
        !(value == 0x18 || value == 0x1a || (0x1e <= value <= 0x23)) ==> spec_mem_type(value) == "RAM"@,
{
}

/// Size of a memory device in MB, from its size word and extended size.
pub open spec fn dimm_mb(size_raw: u16, extended: Option<u32>) -> Option<u32> {
    if size_raw == 0x7fff {
        extended
    } else if size_raw & 0x8000 != 0 {
        Some(((size_raw & 0x7fff) / 1024) as u32)
    } else {
        Some(size_raw as u32)
    }
}

pub open spec fn size_text(mb: u32) -> Seq<char> {
    if mb >= 1024 {
        dec((mb / 1024) as nat) + " GB"@
    } else {
        dec(mb as nat) + " MB"@
    }
}

/// `16 GB DDR5-6400`-style summary of a populated type 17 device.
pub open spec fn spec_dimm_summary(f: Seq<u8>) -> Option<Seq<char>> {
    match spec_word(f, 0x0c) {
        None => None,
        Some(size_raw) => if size_raw == 0 || size_raw == 0xffff {
            None
        } else {
            match dimm_mb(size_raw, spec_dword(f, 0x1c)) {
                None => None,
                Some(mb) => {
                    let memory_type = spec_mem_type(spec_byte(f, 0x12));
                    let speed = match spec_word(f, 0x15) {
                        Some(s) => s,
                        None => 0,
                    };
                    Some(
                        if speed != 0 && speed != 0xffff {
                            size_text(mb) + " "@ + memory_type + "-"@ + dec(speed as nat)
                        } else {
                            size_text(mb) + " "@ + memory_type
                        },
                    )
                },
            }
        },
    }
}

pub fn dimm_summary(s: &Structure<'_>) -> (r: Option<String>)
    ensures
        match r {
            Some(t) => spec_dimm_summary(s.formatted@) == Some(t@),
            None => spec_dimm_summary(s.formatted@) is None,
        },
{
    let size_raw = match s.word(0x0c) {
        Some(w) => w,
        None => return None,
    };
    if size_raw == 0 || size_raw == 0xffff {
        return None;
    }
    let mb: u32 = if size_raw == 0x7fff {
        match s.dword(0x1c) {
            Some(d) => d,
            None => return None,
        }
    } else if size_raw & 0x8000 != 0 {
        ((size_raw & 0x7fff) / 1024) as u32
    } else {
        size_raw as u32
    };
    let mut out = String::new();
    if mb >= 1024 {
        push_dec(&mut out, (mb / 1024) as u64);
        out.append(" GB");
    } else {
        push_dec(&mut out, mb as u64);
        out.append(" MB");
    }
    let memory_type = mem_type(s.byte(0x12));
    let speed = match s.word(0x15) {
        Some(w) => w,
        None => 0,
    };
    out.append(" ");
    out.append(memory_type);
    if speed != 0 && speed != 0xffff {
        out.append("-");
        push_dec(&mut out, speed as u64);
    }
    Some(out)
}

/// What the memory structures of a table show.
pub open spec fn ecc_states(structs: Seq<(u8, Seq<u8>)>) -> Seq<EccState>
    decreases structs.len(),
{
    if structs.len() == 0 {
        Seq::empty()
    } else {
        let prev = ecc_states(structs.drop_last());
        if structs.last().0 == 16 {
            prev.push(spec_ecc_state(spec_byte(structs.last().1, 0x06)))
        } else {
            prev
        }
    }
}

pub open spec fn dimm_summaries(structs: Seq<(u8, Seq<u8>)>) -> Seq<Seq<char>>
    decreases structs.len(),
{
    if structs.len() == 0 {
        Seq::empty()
    } else {
        let prev = dimm_summaries(structs.drop_last());
        let (t, f) = structs.last();
        if t == 17 && f.len() >= 0x17 {
            match spec_dimm_summary(f) {
                Some(d) => prev.push(d),
                None => prev,
            }
        } else {
            prev
        }
    }
}

pub open spec fn dimm_malformed(structs: Seq<(u8, Seq<u8>)>) -> bool {
    exists|i: int| 0 <= i < structs.len() && #[trigger] structs[i].0 == 17 && structs[i].1.len() < 0x17
}

pub open spec fn spec_memory_ecc(ecc: Seq<EccState>) -> (Status, Seq<char>) {
    if ecc.len() == 0 {
        (Status::Unknown, "no SMBIOS type 16 memory array"@)
    } else if ecc.contains(EccState::Unknown) || (ecc.contains(EccState::NoEcc) && ecc.contains(
        EccState::Ecc,
    )) {
        (Status::Unknown, "memory arrays have unknown or conflicting ECC modes"@)
    } else if ecc.contains(EccState::Ecc) {
        (Status::Present, "ECC-capable memory array(s)"@)
    } else {
        (Status::Absent, "SMBIOS reports no ECC"@)
    }
}

pub open spec fn spec_memory_dimms(malformed: bool, dimms: Seq<Seq<char>>) -> (Status, Seq<char>) {
    if malformed {
        (Status::Unknown, "malformed SMBIOS type 17 structure"@)
    } else if dimms.len() == 0 {
        (Status::Absent, "no populated SMBIOS type 17 devices"@)
    } else {
        (Status::Present, dec(dimms.len()) + " populated: "@ + join(dimms, ", "@))
    }
}

/// The structures of a parsed table as (type, formatted bytes).
pub open spec fn structs_view(buf: Seq<u8>, s: Seq<(u8, int, int)>) -> Seq<(u8, Seq<u8>)> {
    Seq::new(s.len(), |i: int| (s[i].0, buf.subrange(s[i].1, s[i].1 + s[i].2)))
}

/// The DMI probe's findings for the raw SMBIOS table.
pub open spec fn dmi_findings_ok(out: Seq<(&'static str, Detection)>, table: Result<Vec<u8>, IoFailure>) -> bool {
    match table {
        Err(e) => all_unknown(out, DMI_SRC, dmi_feature_ids(), "cannot inspect SMBIOS table: "@ + e.message@),
        Ok(buf) => match parse_from(buf@, 0) {
            Err(m) => all_unknown(out, DMI_SRC, dmi_feature_ids(), m),
            Ok(s) => {
                let structs = structs_view(buf@, s);
                &&& out.len() == 2
                &&& out[0].0 == "memory_ecc" && detection_is(
                    out[0].1,
                    DMI_SRC,
                    spec_memory_ecc(ecc_states(structs)),
                )
                &&& out[1].0 == "memory_dimms" && detection_is(
                    out[1].1,
                    DMI_SRC,
                    spec_memory_dimms(dimm_malformed(structs), dimm_summaries(structs)),
                )
            },
        },
    }
}

pub struct DmiProbe;

impl Probe for DmiProbe {
    fn name(&self) -> (r: &'static str)
        ensures
            r == DMI_SRC,
    {
        DMI_SRC
    }

    fn feature_ids(&self) -> (r: Vec<&'static str>)
        ensures
            r@ == dmi_feature_ids(),
    {
        dmi_ids()
    }
}

impl DmiProbe {
    /// Decide memory ECC and populated DIMMs from the raw SMBIOS table
    /// (`/sys/firmware/dmi/tables/DMI`).
    pub fn decide(&self, table: &Result<Vec<u8>, IoFailure>) -> (out: Findings)
        ensures
            dmi_findings_ok(out@, *table),
    {
        let buf = match table {
            Err(e) => {
                let mut d = String::from_str("cannot inspect SMBIOS table: ");
                d.append(e.message.as_str());
                return unavailable(DMI_SRC, &dmi_ids(), d.as_str());
            },
            Ok(buf) => buf,
        };
        let structures = match parse_structures(buf.as_slice()) {
            Ok(s) => s,
            Err(reason) => return unavailable(DMI_SRC, &dmi_ids(), reason.as_str()),
        };
        let ghost spans = parse_from(buf@, 0)->Ok_0;
        let ghost structs = structs_view(buf@, spans);
        let mut ecc: Vec<EccState> = Vec::new();
        let mut dimms: Vec<String> = Vec::new();
        let mut malformed = false;
        let mut i: usize = 0;
        assert(structs.take(0) =~= Seq::<(u8, Seq<u8>)>::empty());
        while i < structures.len()
            invariant
                i <= structures.len() == structs.len(),
                forall|k: int|
                    0 <= k < structs.len() ==> (#[trigger] structures@[k]).stype == structs[k].0
                        && structures@[k].formatted@ == structs[k].1,
                ecc@ == ecc_states(structs.take(i as int)),
                crate::text::views(dimms@) == dimm_summaries(structs.take(i as int)),
                malformed == dimm_malformed(structs.take(i as int)),
            decreases structures.len() - i,
        {
            let ghost pre = structs.take(i as int);
            let ghost post = structs.take(i + 1);
            assert(post.drop_last() =~= pre);
            let st = &structures[i];
            if st.stype == 16 {
                ecc.push(ecc_state(st.byte(0x06)));
            } else if st.stype == 17 {
                if st.formatted.len() < 0x17 {
                    malformed = true;
                    assert(post[i as int].0 == 17);
                } else {
                    match dimm_summary(st) {
                        Some(d) => {
                            dimms.push(d);
                            assert(crate::text::views(dimms@) =~= dimm_summaries(post));
                        },
                        None => {},
                    }
                }
            }
            proof {
                if malformed {
                    if dimm_malformed(pre) {
                        let k = choose|k: int|
                            0 <= k < pre.len() && #[trigger] pre[k].0 == 17 && pre[k].1.len() < 0x17;
                        assert(post[k] == pre[k]);
                    }
                } else {
                    assert forall|k: int| 0 <= k < post.len() implies !(#[trigger] post[k].0 == 17
                        && post[k].1.len() < 0x17) by {
                        if k < pre.len() {
                            assert(post[k] == pre[k]);
                        }
                    }
                }
            }
            i += 1;
        }
        assert(structs.take(i as int) =~= structs);
        let mut out: Findings = Vec::new();
        out.push(memory_ecc_finding(&ecc));
        out.push(memory_dimms_finding(malformed, &dimms));
        out
    }
}

fn has_ecc_state(ecc: &Vec<EccState>, s: EccState) -> (r: bool)
    ensures
        r == ecc@.contains(s),
{
    let mut i: usize = 0;
    while i < ecc.len()
        invariant
            i <= ecc.len(),
            forall|k: int| 0 <= k < i ==> ecc@[k] != s,
        decreases ecc.len() - i,
    {
        if ecc[i] == s {
            assert(ecc@[i as int] == s);
            return true;
        }
        i += 1;
    }
    false
}

fn memory_ecc_finding(ecc: &Vec<EccState>) -> (r: (&'static str, Detection))
    ensures
        r.0 == "memory_ecc",
        detection_is(r.1, DMI_SRC, spec_memory_ecc(ecc@)),
{
    if ecc.len() == 0 {
        return finding_detail(
            DMI_SRC,
            "memory_ecc",
            Status::Unknown,
            String::from_str("no SMBIOS type 16 memory array"),
        );
    }
    let has_none = has_ecc_state(ecc, EccState::NoEcc);
    let has_ecc = has_ecc_state(ecc, EccState::Ecc);
    let has_unknown = has_ecc_state(ecc, EccState::Unknown);
    if has_unknown || (has_none && has_ecc) {
        finding_detail(
            DMI_SRC,
            "memory_ecc",
            Status::Unknown,
            String::from_str("memory arrays have unknown or conflicting ECC modes"),
        )
    } else if has_ecc {
        finding_detail(
            DMI_SRC,
            "memory_ecc",
            Status::Present,
            String::from_str("ECC-capable memory array(s)"),
        )
    } else {
        finding_detail(DMI_SRC, "memory_ecc", Status::Absent, String::from_str("SMBIOS reports no ECC"))
    }
}

fn memory_dimms_finding(malformed: bool, dimms: &Vec<String>) -> (r: (&'static str, Detection))
    ensures
        r.0 == "memory_dimms",
        detection_is(
            r.1,
            DMI_SRC,
            spec_memory_dimms(malformed, crate::text::views(dimms@)),
        ),
{
    if malformed {
        finding_detail(
            DMI_SRC,
            "memory_dimms",
            Status::Unknown,
            String::from_str("malformed SMBIOS type 17 structure"),
        )
    } else if dimms.len() == 0 {
        finding_detail(
            DMI_SRC,
            "memory_dimms",
            Status::Absent,
            String::from_str("no populated SMBIOS type 17 devices"),
        )
    } else {
        let mut d = String::new();
        push_dec(&mut d, dimms.len() as u64);
        d.append(" populated: ");
        let joined = crate::text::join_strings(dimms, ", ");
        d.append(joined.as_str());
        finding_detail(DMI_SRC, "memory_dimms", Status::Present, d)
    }
}

// ---- system identity --------------------------------------------------------------

/// Board, BIOS and chipset identity.
#[derive(Debug)]
pub struct SystemInfo {
    pub vendor: String,
    pub product: String,
    pub board: String,
    pub bios_vendor: String,
    pub bios_version: String,
    pub bios_date: String,
    pub chipset: Option<ChipsetInfo>,
}

/// Reads of `/sys/class/dmi/id/{sys_vendor,product_name,board_name,bios_vendor,
/// bios_version,bios_date}`.
#[derive(Debug)]
pub struct DmiIdReadings {
    pub sys_vendor: TextRead,
    pub product_name: TextRead,
    pub board_name: TextRead,
    pub bios_vendor: TextRead,
    pub bios_version: TextRead,
    pub bios_date: TextRead,
}

/// A DMI id field: its trimmed contents, empty when unreadable.
pub open spec fn dmi_field(r: TextRead) -> Seq<char> {
    match r {
        Ok(s) => trim(s@),
        Err(_) => Seq::empty(),
    }
}

fn dmi_value(r: &TextRead) -> (v: String)
    ensures
        v@ == dmi_field(*r),
{
    match r {
        Ok(s) => trim_owned(s.as_str()),
        Err(_) => String::new(),
    }
}

/// The system identity, when anything identifies the system.
pub fn system_info_from(ids: &DmiIdReadings, chipset: Option<ChipsetInfo>) -> (r: Option<
    SystemInfo,
>)
    ensures
        match r {
            None => dmi_field(ids.sys_vendor).len() == 0 && dmi_field(ids.product_name).len() == 0
                && dmi_field(ids.bios_version).len() == 0 && chipset is None,
            Some(s) => {
                &&& s.vendor@ == dmi_field(ids.sys_vendor)
                &&& s.product@ == dmi_field(ids.product_name)
                &&& s.board@ == dmi_field(ids.board_name)
                &&& s.bios_vendor@ == dmi_field(ids.bios_vendor)
                &&& s.bios_version@ == dmi_field(ids.bios_version)
                &&& s.bios_date@ == dmi_field(ids.bios_date)
                &&& s.chipset == chipset
                &&& !(dmi_field(ids.sys_vendor).len() == 0 && dmi_field(ids.product_name).len() == 0
                    && dmi_field(ids.bios_version).len() == 0 && chipset is None)
            },
        },
{
    let vendor = dmi_value(&ids.sys_vendor);
    let product = dmi_value(&ids.product_name);
    let bios_version = dmi_value(&ids.bios_version);
    if vendor.unicode_len() == 0 && product.unicode_len() == 0 && bios_version.unicode_len() == 0
        && chipset.is_none() {
        return None;
    }
    Some(
        SystemInfo {
            vendor,
            product,
            board: dmi_value(&ids.board_name),
            bios_vendor: dmi_value(&ids.bios_vendor),
            bios_version,
            bios_date: dmi_value(&ids.bios_date),
            chipset,
        },
    )
}

// ---- laws -------------------------------------------------------------------------------

/// The EFI probe never claims a legacy-BIOS boot: the only finding it reports `Absent`
/// is the ESRT, and only once the EFI directory was confirmed and the ESRT node is
/// missing.
pub proof fn efi_absence_needs_confirmed_efi(out: Seq<(&'static str, Detection)>, r: EfiReadings, k: int)
    requires
        efi_findings_ok(out, r),
        0 <= k < out.len(),
        out[k].1.status == Status::Absent,
    ensures
        r.root matches Ok(m) && m.is_dir,
        out[k].0 == "esrt",
        r.esrt matches Err(e) && e.kind == IoErrorKind::NotFound,
{
    match r.root {
        Err(e) => {
            assert(crate::probes::is_unknown_finding(
                out[k],
                efi_feature_ids()[k],
                EFI_SRC,
                "cannot establish EFI boot state: "@ + e.message@,
            ));
        },
        Ok(m) => if !m.is_dir {
            assert(crate::probes::is_unknown_finding(
                out[k],
                efi_feature_ids()[k],
                EFI_SRC,
                "EFI interface is not a directory"@,
            ));
        },
    }
}

} // verus!
