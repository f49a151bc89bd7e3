//! Text rendering of a [`Report`]: the banner, one section per category with a row per
//! visible feature, and the notes. Colour is plain ANSI SGR escapes.

use vstd::prelude::*;

use crate::model::{
    status_color, status_glyph, status_label, status_rank, ClassExpectation, Detection,
    Privilege, Status,
};
use crate::probes::cpuid::Identity;
use crate::probes::firmware::SystemInfo;
use crate::report::{CategoryReport, FeatureAttention, FeatureReport, Report, TextOptions};
use crate::text::{
    dec, hex_prefixed, hex_zero_padded, join, pad_right, push_dec, push_hex_padded,
    push_hex_prefixed, push_padded,
};

verus! {

// ---- ANSI helpers -------------------------------------------------------------------

/// `text` wrapped in the SGR escape `code` when `on`.
pub open spec fn colorize(text: Seq<char>, code: Seq<char>, on: bool) -> Seq<char> {
    if on {
        "\x1b["@ + code + "m"@ + text + "\x1b[0m"@
    } else {
        text
    }
}

pub open spec fn bold(text: Seq<char>, on: bool) -> Seq<char> {
    colorize(text, "1"@, on)
}

pub open spec fn dim(text: Seq<char>, on: bool) -> Seq<char> {
    colorize(text, "2"@, on)
}

/// Appends `colorize(text, code, on)`.
pub fn push_colored(s: &mut String, text: &str, code: &str, on: bool)
    ensures
        final(s)@ == old(s)@ + colorize(text@, code@, on),
{
    if on {
        s.append("\x1b[");
        s.append(code);
        s.append("m");
        s.append(text);
        s.append("\x1b[0m");
        assert(final(s)@ =~= old(s)@ + colorize(text@, code@, on));
    } else {
        s.append(text);
    }
}

// ---- one feature row --------------------------------------------------------------

/// Glyph, label and colour of a row: the attention's when there is one, else the
/// headline status's.
pub open spec fn feature_visual(f: FeatureReport) -> (Seq<char>, Seq<char>, Seq<char>) {
    match f.attention {
        Some(FeatureAttention::Masked) => ("!"@, "masked"@, "31"@),
        Some(FeatureAttention::ExpectedMissing) => ("!"@, "missing"@, "31"@),
        Some(FeatureAttention::ExpectedDisabled) => ("✗"@, "disabled"@, "31"@),
        Some(FeatureAttention::PossibleMissing) => ("!"@, "missing"@, "33"@),
        Some(FeatureAttention::PossibleDisabled) => ("✗"@, "disabled"@, "33"@),
        None => (status_glyph(f.status), status_label(f.status), status_color(f.status)),
    }
}

/// Index of the highest-ranked detection, the last one among equals.
pub open spec fn last_max(dets: Seq<Detection>) -> int
    decreases dets.len(),
{
    if dets.len() <= 1 {
        0
    } else {
        let k = last_max(dets.drop_last());
        if status_rank(dets.last().status) >= status_rank(dets[k].status) {
            dets.len() - 1
        } else {
            k
        }
    }
}

pub open spec fn detail_or_empty(d: Detection) -> Seq<char> {
    match d.detail {
        Some(s) => s@,
        None => Seq::empty(),
    }
}

pub open spec fn sources(dets: Seq<Detection>) -> Seq<Seq<char>> {
    dets.map_values(|d: Detection| d.source@)
}

/// The evidence column.
pub open spec fn trailing(f: FeatureReport) -> Seq<char> {
    match f.attention {
        Some(FeatureAttention::Masked) => "CPUID vs procfs"@,
        Some(_) => (match f.class_expectation {
            Some(ClassExpectation::Expected) => "expected"@,
            Some(ClassExpectation::Possible) => "possible"@,
            None => "class hint"@,
        }) + " for CPU class"@,
        None => if f.detections@.len() == 0 {
            "not probed"@
        } else if f.inline_detail {
            detail_or_empty(f.detections@[last_max(f.detections@)])
        } else {
            join(sources(f.detections@), ", "@)
        },
    }
}

/// The verbose per-detection lines.
pub open spec fn detail_lines(dets: Seq<Detection>, color: bool) -> Seq<char>
    decreases dets.len(),
{
    if dets.len() == 0 {
        Seq::empty()
    } else {
        let d = dets.last();
        detail_lines(dets.drop_last(), color) + dim(
            "      └ "@ + d.source@ + ": "@ + status_label(d.status) + " "@ + detail_or_empty(d)
                + "\n"@,
            color,
        )
    }
}

/// Glyph, name and label columns of a feature row.
pub open spec fn row_head(g: Seq<char>, l: Seq<char>, c: Seq<char>, name: Seq<char>, color: bool) -> Seq<
    char,
> {
    "  "@ + colorize(g, c, color) + " "@ + pad_right(name, 22) + " "@ + colorize(
        pad_right(l, 9),
        c,
        color,
    ) + " "@
}

/// Evidence and description columns of a feature row.
pub open spec fn row_tail(t: Seq<char>, desc: Seq<char>, color: bool) -> Seq<char> {
    dim(pad_right(t, 24), color) + " "@ + desc + "\n"@
}

/// A feature row from its parts.
pub open spec fn row_of(
    g: Seq<char>,
    l: Seq<char>,
    c: Seq<char>,
    name: Seq<char>,
    t: Seq<char>,
    desc: Seq<char>,
    color: bool,
) -> Seq<char> {
    row_head(g, l, c, name, color) + row_tail(t, desc, color)
}

/// The row of a feature, without the verbose lines.
pub open spec fn row_text(f: FeatureReport, opts: TextOptions) -> Seq<char> {
    let (g, l, c) = feature_visual(f);
    row_of(g, l, c, f.name@, trailing(f), f.description@, opts.color)
}

pub open spec fn feature_line(f: FeatureReport, opts: TextOptions) -> Seq<char> {
    row_text(f, opts) + if opts.verbose {
        detail_lines(f.detections@, opts.color)
    } else {
        Seq::empty()
    }
}

fn visual(f: &FeatureReport) -> (r: (&'static str, &'static str, &'static str))
    ensures
        (r.0@, r.1@, r.2@) == feature_visual(*f),
{
    match f.attention {
        Some(FeatureAttention::Masked) => ("!", "masked", "31"),
        Some(FeatureAttention::ExpectedMissing) => ("!", "missing", "31"),
        Some(FeatureAttention::ExpectedDisabled) => ("✗", "disabled", "31"),
        Some(FeatureAttention::PossibleMissing) => ("!", "missing", "33"),
        Some(FeatureAttention::PossibleDisabled) => ("✗", "disabled", "33"),
        None => (f.status.glyph(), f.status.label(), f.status.color()),
    }
}

fn winning(dets: &Vec<Detection>) -> (k: usize)
    requires
        dets@.len() > 0,
    ensures
        k as int == last_max(dets@),
        k < dets@.len(),
{
    let mut k: usize = 0;
    let mut i: usize = 1;
    assert(dets@.take(1).len() == 1);
    while i < dets.len()
        invariant
            1 <= i <= dets@.len(),
            k < i,
            k as int == last_max(dets@.take(i as int)),
        decreases dets.len() - i,
    {
        let ghost t = dets@.take(i + 1);
        assert(t.drop_last() =~= dets@.take(i as int));
        assert(t[k as int] == dets@[k as int]);
        if dets[i].status.rank() >= dets[k].status.rank() {
            k = i;
        }
        i += 1;
    }
    assert(dets@.take(i as int) =~= dets@);
    k
}

fn trailing_text(f: &FeatureReport) -> (r: String)
    ensures
        r@ == trailing(*f),
{
    match f.attention {
        Some(FeatureAttention::Masked) => String::from_str("CPUID vs procfs"),
        Some(_) => {
            let mut s = String::from_str(
                match f.class_expectation {
                    Some(ClassExpectation::Expected) => "expected",
                    Some(ClassExpectation::Possible) => "possible",
                    None => "class hint",
                },
            );
            s.append(" for CPU class");
            s
        },
        None => if f.detections.len() == 0 {
            String::from_str("not probed")
        } else if f.inline_detail {
            let k = winning(&f.detections);
            match &f.detections[k].detail {
                Some(d) => d.clone(),
                None => String::new(),
            }
        } else {
            let mut s = String::new();
            let dets = &f.detections;
            let mut i: usize = 0;
            assert(sources(dets@).take(0) =~= Seq::<Seq<char>>::empty());
            while i < dets.len()
                invariant
                    i <= dets@.len(),
                    s@ == join(sources(dets@).take(i as int), ", "@),
                decreases dets.len() - i,
            {
                let ghost t = sources(dets@).take(i + 1);
                assert(t.drop_last() =~= sources(dets@).take(i as int));
                if i > 0 {
                    s.append(", ");
                } else {
                    assert(sources(dets@).take(0) =~= Seq::<Seq<char>>::empty());
                }
                s.append(dets[i].source);
                i += 1;
            }
            assert(sources(dets@).take(i as int) =~= sources(dets@));
            s
        },
    }
}

fn push_detail_lines(s: &mut String, dets: &Vec<Detection>, color: bool)
    ensures
        final(s)@ == old(s)@ + detail_lines(dets@, color),
{
    let mut i: usize = 0;
    assert(dets@.take(0) =~= Seq::<Detection>::empty());
    assert(old(s)@ + detail_lines(dets@.take(0), color) =~= old(s)@);
    while i < dets.len()
        invariant
            i <= dets@.len(),
            s@ == old(s)@ + detail_lines(dets@.take(i as int), color),
        decreases dets.len() - i,
    {
        let ghost t = dets@.take(i + 1);
        assert(t.drop_last() =~= dets@.take(i as int));
        let d = &dets[i];
        let mut line = String::from_str("      └ ");
        line.append(d.source);
        line.append(": ");
        line.append(d.status.label());
        line.append(" ");
        match &d.detail {
            Some(x) => line.append(x.as_str()),
            None => {},
        }
        line.append("\n");
        assert(line@ =~= "      └ "@ + d.source@ + ": "@ + status_label(d.status) + " "@
            + detail_or_empty(*d) + "\n"@);
        let ghost before = s@;
        push_colored(s, line.as_str(), "2", color);
        assert(s@ =~= old(s)@ + detail_lines(t, color));
        i += 1;
    }
    assert(dets@.take(i as int) =~= dets@);
}

fn push_row_head(s: &mut String, g: &str, l: &str, c: &str, name: &str, color: bool)
    ensures
        final(s)@ == old(s)@ + row_head(g@, l@, c@, name@, color),
{
    s.append("  ");
    push_colored(s, g, c, color);
    s.append(" ");
    let ghost a = s@;
    assert(a =~= old(s)@ + "  "@ + colorize(g@, c@, color) + " "@);
    push_padded(s, name, 22);
    s.append(" ");
    let ghost b = s@;
    assert(b =~= a + pad_right(name@, 22) + " "@);
    let mut label = String::new();
    push_padded(&mut label, l, 9);
    assert(label@ =~= pad_right(l@, 9));
    push_colored(s, label.as_str(), c, color);
    s.append(" ");
    assert(s@ =~= b + colorize(pad_right(l@, 9), c@, color) + " "@);
    assert(s@ =~= old(s)@ + row_head(g@, l@, c@, name@, color));
}

fn push_row_tail(s: &mut String, t: &str, desc: &str, color: bool)
    ensures
        final(s)@ == old(s)@ + row_tail(t@, desc@, color),
{
    let mut evidence = String::new();
    push_padded(&mut evidence, t, 24);
    assert(evidence@ =~= pad_right(t@, 24));
    push_colored(s, evidence.as_str(), "2", color);
    s.append(" ");
    s.append(desc);
    s.append("\n");
    assert(s@ =~= old(s)@ + row_tail(t@, desc@, color));
}

fn push_row_parts(
    s: &mut String,
    g: &str,
    l: &str,
    c: &str,
    name: &str,
    t: &str,
    desc: &str,
    color: bool,
)
    ensures
        final(s)@ == old(s)@ + row_of(g@, l@, c@, name@, t@, desc@, color),
{
    push_row_head(s, g, l, c, name, color);
    push_row_tail(s, t, desc, color);
    assert(s@ =~= old(s)@ + row_of(g@, l@, c@, name@, t@, desc@, color));
}

fn push_row(s: &mut String, f: &FeatureReport, opts: TextOptions)
    ensures
        final(s)@ == old(s)@ + row_text(*f, opts),
{
    let (g, l, c) = visual(f);
    let t = trailing_text(f);
    push_row_parts(s, g, l, c, f.name, t.as_str(), f.description, opts.color);
}

/// Appends the row of one feature (and, when verbose, its detection lines).
pub fn push_feature(s: &mut String, f: &FeatureReport, opts: TextOptions)
    ensures
        final(s)@ == old(s)@ + feature_line(*f, opts),
{
    push_row(s, f, opts);
    let ghost mid = s@;
    if opts.verbose {
        push_detail_lines(s, &f.detections, opts.color);
        assert(s@ =~= old(s)@ + feature_line(*f, opts));
    } else {
        assert(s@ =~= old(s)@ + feature_line(*f, opts));
    }
}

// ---- categories and notes -------------------------------------------------------------

/// Whether a feature's row is shown: always without `hide_absent`; otherwise when its
/// headline is not `Absent` and some probe covered it, or when a feature the CPU class
/// calls for is missing.
pub open spec fn visible(f: FeatureReport, hide_absent: bool) -> bool {
    ||| !hide_absent
    ||| (f.status != Status::Absent && f.detections@.len() > 0)
    ||| f.attention == Some(FeatureAttention::ExpectedMissing)
    ||| f.attention == Some(FeatureAttention::PossibleMissing)
}

pub open spec fn visible_lines(fs: Seq<FeatureReport>, opts: TextOptions) -> Seq<char>
    decreases fs.len(),
{
    if fs.len() == 0 {
        Seq::empty()
    } else {
        visible_lines(fs.drop_last(), opts) + if visible(fs.last(), opts.hide_absent) {
            feature_line(fs.last(), opts)
        } else {
            Seq::empty()
        }
    }
}

pub open spec fn any_visible(fs: Seq<FeatureReport>, hide_absent: bool) -> bool {
    exists|k: int| 0 <= k < fs.len() && #[trigger] visible(fs[k], hide_absent)
}

pub open spec fn header() -> Seq<char> {
    "    Feature                 Status    Evidence                 Purpose / notable instructions\n"@
}

pub open spec fn category_text(c: CategoryReport, opts: TextOptions) -> Seq<char> {
    if any_visible(c.features@, opts.hide_absent) {
        "\n"@ + bold(c.title@, opts.color) + "\n"@ + dim(header(), opts.color) + visible_lines(
            c.features@,
            opts,
        )
    } else {
        Seq::empty()
    }
}

pub open spec fn categories_text(cs: Seq<CategoryReport>, opts: TextOptions) -> Seq<char>
    decreases cs.len(),
{
    if cs.len() == 0 {
        Seq::empty()
    } else {
        categories_text(cs.drop_last(), opts) + category_text(cs.last(), opts)
    }
}

pub open spec fn note_lines(notes: Seq<String>, color: bool) -> Seq<char>
    decreases notes.len(),
{
    if notes.len() == 0 {
        Seq::empty()
    } else {
        note_lines(notes.drop_last(), color) + "  "@ + colorize("!"@, "33"@, color) + " "@
            + notes.last()@ + "\n"@
    }
}

pub open spec fn notes_text(notes: Seq<String>, color: bool) -> Seq<char> {
    if notes.len() == 0 {
        Seq::empty()
    } else {
        "\n"@ + bold("Notes"@, color) + "\n"@ + note_lines(notes, color)
    }
}

fn is_visible(f: &FeatureReport, hide_absent: bool) -> (r: bool)
    ensures
        r == visible(*f, hide_absent),
{
    !hide_absent || (f.status != Status::Absent && f.detections.len() > 0) || f.attention
        == Some(FeatureAttention::ExpectedMissing) || f.attention == Some(
        FeatureAttention::PossibleMissing,
    )
}

fn push_category(s: &mut String, c: &CategoryReport, opts: TextOptions)
    ensures
        final(s)@ == old(s)@ + category_text(*c, opts),
{
    let fs = &c.features;
    let mut any = false;
    let mut i: usize = 0;
    while i < fs.len()
        invariant
            i <= fs@.len(),
            any == exists|k: int| 0 <= k < i && #[trigger] visible(fs@[k], opts.hide_absent),
        decreases fs.len() - i,
    {
        if is_visible(&fs[i], opts.hide_absent) {
            any = true;
        }
        i += 1;
    }
    if !any {
        assert(old(s)@ + category_text(*c, opts) =~= old(s)@);
        return;
    }
    s.append("\n");
    push_colored(s, c.title, "1", opts.color);
    s.append("\n");
    push_colored(
        s,
        "    Feature                 Status    Evidence                 Purpose / notable instructions\n",
        "2",
        opts.color,
    );
    let ghost start = s@;
    let mut j: usize = 0;
    assert(fs@.take(0) =~= Seq::<FeatureReport>::empty());
    assert(start + visible_lines(fs@.take(0), opts) =~= start);
    while j < fs.len()
        invariant
            j <= fs@.len(),
            *fs == c.features,
            s@ == start + visible_lines(fs@.take(j as int), opts),
        decreases fs.len() - j,
    {
        let ghost t = fs@.take(j + 1);
        assert(t.drop_last() =~= fs@.take(j as int));
        if is_visible(&fs[j], opts.hide_absent) {
            push_feature(s, &fs[j], opts);
        }
        assert(s@ =~= start + visible_lines(t, opts));
        j += 1;
    }
    assert(fs@.take(j as int) =~= fs@);
    assert(s@ =~= old(s)@ + category_text(*c, opts));
}

fn push_notes(s: &mut String, notes: &Vec<String>, color: bool)
    ensures
        final(s)@ == old(s)@ + notes_text(notes@, color),
{
    if notes.len() == 0 {
        assert(old(s)@ + notes_text(notes@, color) =~= old(s)@);
        return;
    }
    s.append("\n");
    push_colored(s, "Notes", "1", color);
    s.append("\n");
    let ghost start = s@;
    let mut i: usize = 0;
    assert(notes@.take(0) =~= Seq::<String>::empty());
    assert(start + note_lines(notes@.take(0), color) =~= start);
    while i < notes.len()
        invariant
            i <= notes@.len(),
            s@ == start + note_lines(notes@.take(i as int), color),
        decreases notes.len() - i,
    {
        let ghost t = notes@.take(i + 1);
        assert(t.drop_last() =~= notes@.take(i as int));
        s.append("  ");
        push_colored(s, "!", "33", color);
        s.append(" ");
        s.append(notes[i].as_str());
        s.append("\n");
        assert(s@ =~= start + note_lines(t, color));
        i += 1;
    }
    assert(notes@.take(i as int) =~= notes@);
    assert(s@ =~= old(s)@ + notes_text(notes@, color));
}

// ---- the banner ---------------------------------------------------------------------------

pub open spec fn cpu_line(id: Identity) -> Seq<char> {
    "  CPU:       "@ + (if id.brand@.len() == 0 {
        "(unknown)"@
    } else {
        id.brand@
    }) + "\n"@
}

pub open spec fn vendor_line(id: Identity) -> Seq<char> {
    "  Vendor:    "@ + id.vendor@ + "   family "@ + hex_prefixed(id.family as nat) + " model "@
        + hex_prefixed(id.model as nat) + " stepping "@ + dec(id.stepping as nat) + "\n"@
}

pub open spec fn generation_line(id: Identity) -> Seq<char> {
    match id.model_info {
        Some(m) => "  Generation: "@ + m.codename@ + " — "@ + m.generation@ + " ("@ + m.segment@
            + ")\n"@,
        None => Seq::empty(),
    }
}

pub open spec fn topology_line(id: Identity) -> Seq<char> {
    "  Topology:  "@ + (if id.hybrid {
        dec(id.logical_cpus as nat) + " logical, hybrid: "@ + dec(id.p_cores as nat)
            + " P-core(s) + "@ + dec(id.e_cores as nat) + " E-core(s)"@
    } else {
        dec(id.logical_cpus as nat) + " logical CPU(s)"@
    }) + "\n"@
}

pub open spec fn memory_line(id: Identity) -> Seq<char> {
    match id.max_memory_channels {
        Some(c) => "  Memory:    up to "@ + dec(c as nat) + " channels per CPU socket\n"@,
        None => Seq::empty(),
    }
}

pub open spec fn microcode_line(id: Identity) -> Seq<char> {
    match id.microcode {
        Some(mc) => "  Microcode: "@ + mc@ + "\n"@,
        None => Seq::empty(),
    }
}

pub open spec fn identity_text(id: Option<Identity>) -> Seq<char> {
    match id {
        None => "  CPU:       (CPUID unavailable on this architecture)\n"@,
        Some(id) => cpu_line(id) + vendor_line(id) + generation_line(id) + topology_line(id)
            + memory_line(id) + microcode_line(id),
    }
}

/// Vendor and product name, the empty ones left out.
pub open spec fn product_text(sys: SystemInfo) -> Seq<char> {
    if sys.vendor@.len() > 0 && sys.product@.len() > 0 {
        sys.vendor@ + " "@ + sys.product@
    } else if sys.vendor@.len() > 0 {
        sys.vendor@
    } else {
        sys.product@
    }
}

pub open spec fn system_line(sys: SystemInfo) -> Seq<char> {
    if product_text(sys).len() > 0 {
        "  System:    "@ + product_text(sys) + "  (board "@ + sys.board@ + ")\n"@
    } else {
        Seq::empty()
    }
}

pub open spec fn chipset_line(sys: SystemInfo) -> Seq<char> {
    match sys.chipset {
        Some(c) => "  Chipset:   "@ + c.name@ + "  (PCI "@ + hex_zero_padded(c.vendor_id as nat, 4)
            + ":"@ + hex_zero_padded(c.device_id as nat, 4) + " at "@ + c.address@ + ")\n"@,
        None => Seq::empty(),
    }
}

pub open spec fn bios_line(sys: SystemInfo) -> Seq<char> {
    if sys.bios_version@.len() > 0 {
        "  BIOS:      "@ + sys.bios_vendor@ + " "@ + sys.bios_version@ + "  ("@ + sys.bios_date@
            + ")\n"@
    } else {
        Seq::empty()
    }
}

pub open spec fn system_text(sys: Option<SystemInfo>) -> Seq<char> {
    match sys {
        None => Seq::empty(),
        Some(sys) => system_line(sys) + chipset_line(sys) + bios_line(sys),
    }
}

pub open spec fn privilege_note(p: Privilege) -> Seq<char> {
    match p {
        Privilege::Root => "root (availability still depends on host interfaces and namespaces)"@,
        Privilege::User => "user (MSR access may report Unknown)"@,
    }
}

pub open spec fn banner_text(r: Report, color: bool) -> Seq<char> {
    bold(r.tool@ + " "@ + r.version@, color) + "\n"@ + identity_text(r.identity) + system_text(
        r.system,
    ) + "  Privilege: "@ + privilege_note(r.privilege) + "\n"@
}

fn push_cpu_line(s: &mut String, id: &Identity)
    ensures
        final(s)@ == old(s)@ + cpu_line(*id),
{
    s.append("  CPU:       ");
    if id.brand.unicode_len() == 0 {
        s.append("(unknown)");
    } else {
        s.append(id.brand.as_str());
    }
    s.append("\n");
    assert(final(s)@ =~= old(s)@ + cpu_line(*id));
}

fn push_vendor_line(s: &mut String, id: &Identity)
    ensures
        final(s)@ == old(s)@ + vendor_line(*id),
{
    s.append("  Vendor:    ");
    s.append(id.vendor.as_str());
    s.append("   family ");
    push_hex_prefixed(s, id.family as u64);
    let ghost a = s@;
    s.append(" model ");
    push_hex_prefixed(s, id.model as u64);
    s.append(" stepping ");
    push_dec(s, id.stepping as u64);
    s.append("\n");
    assert(final(s)@ =~= old(s)@ + vendor_line(*id));
}

fn push_generation_line(s: &mut String, id: &Identity)
    ensures
        final(s)@ == old(s)@ + generation_line(*id),
{
    match id.model_info {
        Some(m) => {
            s.append("  Generation: ");
            s.append(m.codename);
            s.append(" — ");
            s.append(m.generation);
            s.append(" (");
            s.append(m.segment);
            s.append(")\n");
            assert(final(s)@ =~= old(s)@ + generation_line(*id));
        },
        None => {
            assert(old(s)@ + generation_line(*id) =~= old(s)@);
        },
    }
}

fn push_topology_line(s: &mut String, id: &Identity)
    ensures
        final(s)@ == old(s)@ + topology_line(*id),
{
    s.append("  Topology:  ");
    let ghost a = s@;
    if id.hybrid {
        push_dec(s, id.logical_cpus as u64);
        s.append(" logical, hybrid: ");
        push_dec(s, id.p_cores as u64);
        s.append(" P-core(s) + ");
        push_dec(s, id.e_cores as u64);
        s.append(" E-core(s)");
    } else {
        push_dec(s, id.logical_cpus as u64);
        s.append(" logical CPU(s)");
    }
    s.append("\n");
    assert(final(s)@ =~= old(s)@ + topology_line(*id));
}

fn push_memory_and_microcode(s: &mut String, id: &Identity)
    ensures
        final(s)@ == old(s)@ + memory_line(*id) + microcode_line(*id),
{
    match id.max_memory_channels {
        Some(ch) => {
            s.append("  Memory:    up to ");
            push_dec(s, ch as u64);
            s.append(" channels per CPU socket\n");
        },
        None => {},
    }
    let ghost a = s@;
    assert(a =~= old(s)@ + memory_line(*id));
    match &id.microcode {
        Some(mc) => {
            s.append("  Microcode: ");
            s.append(mc.as_str());
            s.append("\n");
        },
        None => {},
    }
    assert(final(s)@ =~= a + microcode_line(*id));
}

fn push_identity(s: &mut String, id: &Option<Identity>)
    ensures
        final(s)@ == old(s)@ + identity_text(*id),
{
    match id {
        None => {
            s.append("  CPU:       (CPUID unavailable on this architecture)\n");
        },
        Some(id) => {
            push_cpu_line(s, id);
            push_vendor_line(s, id);
            push_generation_line(s, id);
            push_topology_line(s, id);
            push_memory_and_microcode(s, id);
            assert(final(s)@ =~= old(s)@ + identity_text(Some(*id)));
        },
    }
}

fn push_system_line(s: &mut String, sys: &SystemInfo)
    ensures
        final(s)@ == old(s)@ + system_line(*sys),
{
    let mut product = String::new();
    let v = sys.vendor.unicode_len() > 0;
    let p = sys.product.unicode_len() > 0;
    if v && p {
        product.append(sys.vendor.as_str());
        product.append(" ");
        product.append(sys.product.as_str());
    } else if v {
        product.append(sys.vendor.as_str());
    } else {
        product.append(sys.product.as_str());
    }
    assert(product@ =~= product_text(*sys));
    if product.unicode_len() > 0 {
        s.append("  System:    ");
        s.append(product.as_str());
        s.append("  (board ");
        s.append(sys.board.as_str());
        s.append(")\n");
        assert(final(s)@ =~= old(s)@ + system_line(*sys));
    } else {
        assert(old(s)@ + system_line(*sys) =~= old(s)@);
    }
}

fn push_chipset_line(s: &mut String, sys: &SystemInfo)
    ensures
        final(s)@ == old(s)@ + chipset_line(*sys),
{
    match &sys.chipset {
        Some(c) => {
            s.append("  Chipset:   ");
            s.append(c.name.as_str());
            s.append("  (PCI ");
            push_hex_padded(s, c.vendor_id as u64, 4);
            let ghost a = s@;
            s.append(":");
            push_hex_padded(s, c.device_id as u64, 4);
            s.append(" at ");
            s.append(c.address.as_str());
            s.append(")\n");
            assert(final(s)@ =~= old(s)@ + chipset_line(*sys));
        },
        None => {
            assert(old(s)@ + chipset_line(*sys) =~= old(s)@);
        },
    }
}

fn push_bios_line(s: &mut String, sys: &SystemInfo)
    ensures
        final(s)@ == old(s)@ + bios_line(*sys),
{
    if sys.bios_version.unicode_len() > 0 {
        s.append("  BIOS:      ");
        s.append(sys.bios_vendor.as_str());
        s.append(" ");
        s.append(sys.bios_version.as_str());
        s.append("  (");
        s.append(sys.bios_date.as_str());
        s.append(")\n");
        assert(final(s)@ =~= old(s)@ + bios_line(*sys));
    } else {
        assert(old(s)@ + bios_line(*sys) =~= old(s)@);
    }
}

fn push_system(s: &mut String, sys: &Option<SystemInfo>)
    ensures
        final(s)@ == old(s)@ + system_text(*sys),
{
    match sys {
        None => {
            assert(old(s)@ + system_text(*sys) =~= old(s)@);
        },
        Some(sys) => {
            push_system_line(s, sys);
            push_chipset_line(s, sys);
            push_bios_line(s, sys);
            assert(final(s)@ =~= old(s)@ + system_text(Some(*sys)));
        },
    }
}

// ---- the whole report -----------------------------------------------------------------

pub open spec fn spec_render_text(r: Report, opts: TextOptions) -> Seq<char> {
    banner_text(r, opts.color) + categories_text(r.categories@, opts) + notes_text(
        r.notes@,
        opts.color,
    )
}

impl Report {
    /// The report as grouped text: banner, visible features by category, notes.
    pub fn render_text(&self, opts: TextOptions) -> (r: String)
        ensures
            r@ == spec_render_text(*self, opts),
    {
        let mut s = String::new();
        let mut title = String::from_str(self.tool);
        title.append(" ");
        title.append(self.version);
        push_colored(&mut s, title.as_str(), "1", opts.color);
        s.append("\n");
        push_identity(&mut s, &self.identity);
        push_system(&mut s, &self.system);
        s.append("  Privilege: ");
        s.append(
            match self.privilege {
                Privilege::Root => "root (availability still depends on host interfaces and namespaces)",
                Privilege::User => "user (MSR access may report Unknown)",
            },
        );
        s.append("\n");
        assert(s@ =~= banner_text(*self, opts.color));
        let ghost start = s@;
        let cats = &self.categories;
        let mut i: usize = 0;
        assert(cats@.take(0) =~= Seq::<CategoryReport>::empty());
        assert(start + categories_text(cats@.take(0), opts) =~= start);
        while i < cats.len()
            invariant
                i <= cats@.len(),
                s@ == start + categories_text(cats@.take(i as int), opts),
            decreases cats.len() - i,
        {
            let ghost t = cats@.take(i + 1);
            assert(t.drop_last() =~= cats@.take(i as int));
            push_category(&mut s, &cats[i], opts);
            assert(s@ =~= start + categories_text(t, opts));
            i += 1;
        }
        assert(cats@.take(i as int) =~= cats@);
        push_notes(&mut s, &self.notes, opts.color);
        s
    }
}

// ---- laws -----------------------------------------------------------------------------

/// With `hide_absent` off every feature has a row; a feature its CPU class calls for
/// that is missing has a row even with `hide_absent` on; and with it on a feature whose
/// headline is `Absent` and that carries no attention has none.
pub proof fn visibility_rules(f: FeatureReport)
    ensures
        visible(f, false),
        f.attention == Some(FeatureAttention::ExpectedMissing) ==> visible(f, true),
        f.attention == Some(FeatureAttention::PossibleMissing) ==> visible(f, true),
        (f.status == Status::Absent && f.attention is None) ==> !visible(f, true),
        (f.detections@.len() == 0 && f.attention is None) ==> !visible(f, true),
{
}

} // verus!
