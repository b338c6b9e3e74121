//! The RAM-type probe's decision layer: mapping numeric memory-type
//! codes, formatting descriptors, and degrading every failure path to
//! a documented static guess, so the probe never fails.

use vstd::prelude::*;
use vstd::string::*;
use crate::numfmt::{all_digits, dec_seq, dec_val, lemma_dec_seq_form, parse_u64, u64_to_dec};
use crate::text::{
    first_field, first_field_spec, second_field, second_field_spec, trim, trim_spec,
};

verus! {

/// What the platform RAM probe produced. The caller performs the actual
/// platform queries and hands their raw outcome here; every variant maps
/// to a non-empty descriptor, so the probe as a whole never fails.
pub enum RamQuery {
    /// The structured query returned a numeric memory-type code and a
    /// configured clock speed in MHz.
    Structured { type_code: u64, speed_mhz: u64 },
    /// The structured query ran but reported no memory module at all.
    StructuredEmpty,
    /// A platform scalar describing the memory type was read as text.
    Scalar { text: String },
    /// The first matching line of a low-privilege memory-info query,
    /// if that query produced one.
    CommandLine { line: Option<String> },
    /// No query facility was available.
    Unavailable,
}

pub enum RamQueryView {
    Structured { type_code: u64, speed_mhz: u64 },
    StructuredEmpty,
    Scalar { text: Seq<char> },
    CommandLine { line: Option<Seq<char>> },
    Unavailable,
}

impl View for RamQuery {
    type V = RamQueryView;

    open spec fn view(&self) -> RamQueryView {
        match self {
            RamQuery::Structured { type_code, speed_mhz } => RamQueryView::Structured {
                type_code: *type_code,
                speed_mhz: *speed_mhz,
            },
            RamQuery::StructuredEmpty => RamQueryView::StructuredEmpty,
            RamQuery::Scalar { text } => RamQueryView::Scalar { text: text@ },
            RamQuery::CommandLine { line } => RamQueryView::CommandLine {
                line: match line {
                    Some(l) => Some(l@),
                    None => None,
                },
            },
            RamQuery::Unavailable => RamQueryView::Unavailable,
        }
    }
}

/// The memory generation named by a numeric memory-type code;
/// codes outside the known table degrade to the generic name.
pub open spec fn ram_type_name_spec(code: u64) -> Seq<char> {
    if code == 24 {
        "DDR3"@
    } else if code == 26 {
        "DDR4"@
    } else if code == 34 {
        "DDR5"@
    } else {
        "DDR"@
    }
}

/// A speed string counts as undetected when it is empty or reports zero.
pub open spec fn speed_undetected(s: Seq<char>) -> bool {
    s.len() == 0 || s[0] == '0'
}

/// The descriptor built from a type code and a speed string: the mapped
/// type name joined with the speed, or the static guess when the speed
/// was not detected.
pub open spec fn ram_descriptor_spec(code: u64, speed: Seq<char>) -> Seq<char> {
    if speed_undetected(speed) {
        "DDR4 (not detected)"@
    } else {
        ram_type_name_spec(code) + " @ "@ + speed
    }
}

/// The descriptor for a whole probe outcome.
pub open spec fn ram_type_spec(q: RamQueryView) -> Seq<char> {
    match q {
        RamQueryView::Structured { type_code, speed_mhz } => ram_descriptor_spec(
            type_code,
            dec_seq(speed_mhz as nat) + " MHz"@,
        ),
        RamQueryView::StructuredEmpty => "DDR4 (probable)"@,
        RamQueryView::Scalar { text } => if trim_spec(text).len() > 0 {
            trim_spec(text)
        } else {
            "DDR4"@
        },
        RamQueryView::CommandLine { line } => match line {
            Some(l) => match second_field_spec(l) {
                Some(t) => if t == "Unknown"@ || t.len() == 0 {
                    "DDR4"@
                } else {
                    "DDR4 @ "@ + t
                },
                None => "DDR4"@,
            },
            None => "DDR4"@,
        },
        RamQueryView::Unavailable => "DDR4"@,
    }
}

/// Whatever the probe produced, the descriptor is never empty.
pub proof fn lemma_ram_type_never_empty(q: RamQueryView)
    ensures
        ram_type_spec(q).len() > 0,
{
    reveal_strlit("DDR4 (not detected)");
    reveal_strlit("DDR4 (probable)");
    reveal_strlit("DDR4");
    reveal_strlit("DDR4 @ ");
    reveal_strlit(" @ ");
    reveal_strlit(" MHz");
    reveal_strlit("DDR3");
    reveal_strlit("DDR5");
    reveal_strlit("DDR");
}

/// Whether a field reads as a decimal number that fits in a `u64`.
pub open spec fn parses_u64(s: Seq<char>) -> bool {
    s.len() > 0 && all_digits(s) && dec_val(s) <= u64::MAX
}

/// The probe outcome read from the structured query's raw output: its
/// first two whitespace-separated fields as decimal numbers — the
/// memory-type code, then the clock speed in MHz. Output with fewer
/// fields or non-numeric ones counts as no module entry.
pub open spec fn parse_structured_ram_spec(out: Seq<char>) -> RamQueryView {
    match (first_field_spec(out), second_field_spec(out)) {
        (Some(f), Some(g)) => if parses_u64(f) && parses_u64(g) {
            RamQueryView::Structured {
                type_code: dec_val(f) as u64,
                speed_mhz: dec_val(g) as u64,
            }
        } else {
            RamQueryView::StructuredEmpty
        },
        _ => RamQueryView::StructuredEmpty,
    }
}

/// Reads the structured query's raw output into a probe outcome,
/// exactly as `parse_structured_ram_spec` describes.
pub fn parse_structured_ram(out: &str) -> (r: RamQuery)
    ensures
        r@ == parse_structured_ram_spec(out@),
{
    match first_field(out) {
        Some(f) => match second_field(out) {
            Some(g) => match (parse_u64(f.as_str()), parse_u64(g.as_str())) {
                (Some(type_code), Some(speed_mhz)) => RamQuery::Structured {
                    type_code,
                    speed_mhz,
                },
                _ => RamQuery::StructuredEmpty,
            },
            None => RamQuery::StructuredEmpty,
        },
        None => RamQuery::StructuredEmpty,
    }
}

/// A structured result with a detected (non-zero) speed always formats
/// as the mapped generation name, the separator, and the decimal speed
/// in MHz; the fallback can only appear for a zero speed.
pub proof fn lemma_structured_descriptor(type_code: u64, speed_mhz: u64)
    requires
        speed_mhz >= 1,
    ensures
        ram_type_spec(RamQueryView::Structured { type_code, speed_mhz })
            == ram_type_name_spec(type_code) + " @ "@ + dec_seq(speed_mhz as nat) + " MHz"@,
{
    lemma_dec_seq_form(speed_mhz as nat);
    let sp = dec_seq(speed_mhz as nat) + " MHz"@;
    assert(sp[0] == dec_seq(speed_mhz as nat)[0]);
    assert(!speed_undetected(sp));
    assert(ram_type_name_spec(type_code) + " @ "@ + sp =~= ram_type_name_spec(type_code)
        + " @ "@ + dec_seq(speed_mhz as nat) + " MHz"@);
}

fn ram_type_name(code: u64) -> (r: &'static str)
    ensures
        r@ == ram_type_name_spec(code),
{
    if code == 24 {
        "DDR3"
    } else if code == 26 {
        "DDR4"
    } else if code == 34 {
        "DDR5"
    } else {
        "DDR"
    }
}

/// The descriptor for a mapped type code and a textual speed, formatted
/// as `"{type} @ {speed}"`; an empty or zero speed degrades to the
/// static guess.
pub fn ram_descriptor(type_code: u64, speed: &str) -> (r: String)
    ensures
        r@ == ram_descriptor_spec(type_code, speed@),
{
    let len = speed.unicode_len();
    if len == 0 || speed.get_char(0) == '0' {
        String::from_str("DDR4 (not detected)")
    } else {
        let mut s = String::from_str(ram_type_name(type_code));
        s.append(" @ ");
        s.append(speed);
        s
    }
}

/// The descriptive RAM string for a probe outcome: structured results are
/// mapped and formatted, textual results trimmed or field-split, and every
/// failure path degrades to a documented static guess.
pub fn ram_type(q: &RamQuery) -> (r: String)
    ensures
        r@ == ram_type_spec(q@),
        r@.len() > 0,
{
    proof {
        lemma_ram_type_never_empty(q@);
    }
    match q {
        RamQuery::Structured { type_code, speed_mhz } => {
            let mut sp = u64_to_dec(*speed_mhz);
            sp.append(" MHz");
            ram_descriptor(*type_code, sp.as_str())
        },
        RamQuery::StructuredEmpty => String::from_str("DDR4 (probable)"),
        RamQuery::Scalar { text } => {
            let t = trim(text.as_str());
            if t.as_str().unicode_len() > 0 {
                t
            } else {
                String::from_str("DDR4")
            }
        },
        RamQuery::CommandLine { line } => match line {
            Some(l) => match second_field(l.as_str()) {
                Some(t) => {
                    if t == String::from_str("Unknown") || t.as_str().unicode_len() == 0 {
                        String::from_str("DDR4")
                    } else {
                        let mut s = String::from_str("DDR4 @ ");
                        s.append(t.as_str());
                        s
                    }
                },
                None => String::from_str("DDR4"),
            },
            None => String::from_str("DDR4"),
        },
        RamQuery::Unavailable => String::from_str("DDR4"),
    }
}

} // verus!
