//! The board-identity probe's decision layer: three independently
//! best-effort fields, each trimmed on success and degraded to its own
//! documented fallback on failure.

use vstd::prelude::*;
use vstd::string::*;
use crate::text::{trim, trim_spec};

verus! {

/// Raw outcome of the three board-identity queries. The caller performs
/// the platform reads; `None` stands for a failed read or a query that
/// did not run or exited non-zero.
pub enum BoardQuery {
    /// Contents of the DMI-style sysfs identity files, where readable.
    SysfsTree { vendor: Option<String>, name: Option<String>, bios: Option<String> },
    /// Output of the three management-instrumentation queries, where
    /// each ran and exited zero.
    Instrumentation { manufacturer: Option<String>, product: Option<String>, bios: Option<String> },
}

pub enum BoardQueryView {
    SysfsTree { vendor: Option<Seq<char>>, name: Option<Seq<char>>, bios: Option<Seq<char>> },
    Instrumentation {
        manufacturer: Option<Seq<char>>,
        product: Option<Seq<char>>,
        bios: Option<Seq<char>>,
    },
}

pub open spec fn opt_str_view(o: Option<String>) -> Option<Seq<char>> {
    match o {
        Some(s) => Some(s@),
        None => None,
    }
}

impl View for BoardQuery {
    type V = BoardQueryView;

    open spec fn view(&self) -> BoardQueryView {
        match self {
            BoardQuery::SysfsTree { vendor, name, bios } => BoardQueryView::SysfsTree {
                vendor: opt_str_view(*vendor),
                name: opt_str_view(*name),
                bios: opt_str_view(*bios),
            },
            BoardQuery::Instrumentation { manufacturer, product, bios } => {
                BoardQueryView::Instrumentation {
                    manufacturer: opt_str_view(*manufacturer),
                    product: opt_str_view(*product),
                    bios: opt_str_view(*bios),
                }
            },
        }
    }
}

/// A successfully read field is trimmed of surrounding whitespace;
/// a failed one degrades to its documented fallback.
pub open spec fn board_field_spec(raw: Option<Seq<char>>, fallback: Seq<char>) -> Seq<char> {
    match raw {
        Some(s) => trim_spec(s),
        None => fallback,
    }
}

pub open spec fn board_vendor_spec(q: BoardQueryView) -> Seq<char> {
    match q {
        BoardQueryView::SysfsTree { vendor, .. } => board_field_spec(vendor, "N/A"@),
        BoardQueryView::Instrumentation { manufacturer, .. } => board_field_spec(
            manufacturer,
            "Generic"@,
        ),
    }
}

pub open spec fn board_model_spec(q: BoardQueryView) -> Seq<char> {
    match q {
        BoardQueryView::SysfsTree { name, .. } => board_field_spec(name, "N/A"@),
        BoardQueryView::Instrumentation { product, .. } => board_field_spec(
            product,
            "PC Windows"@,
        ),
    }
}

pub open spec fn board_bios_spec(q: BoardQueryView) -> Seq<char> {
    match q {
        BoardQueryView::SysfsTree { bios, .. } => board_field_spec(bios, "N/A"@),
        BoardQueryView::Instrumentation { bios, .. } => board_field_spec(bios, "N/A"@),
    }
}

fn board_field(raw: &Option<String>, fallback: &str) -> (r: String)
    ensures
        r@ == board_field_spec(opt_str_view(*raw), fallback@),
{
    match raw {
        Some(s) => trim(s.as_str()),
        None => String::from_str(fallback),
    }
}

/// The three board-identity strings — vendor, model, BIOS version — each
/// independently best-effort: a field that could not be read degrades to
/// its own fallback without affecting the other two.
pub fn board_strings(q: &BoardQuery) -> (r: (String, String, String))
    ensures
        r.0@ == board_vendor_spec(q@),
        r.1@ == board_model_spec(q@),
        r.2@ == board_bios_spec(q@),
{
    match q {
        BoardQuery::SysfsTree { vendor, name, bios } => (
            board_field(vendor, "N/A"),
            board_field(name, "N/A"),
            board_field(bios, "N/A"),
        ),
        BoardQuery::Instrumentation { manufacturer, product, bios } => (
            board_field(manufacturer, "Generic"),
            board_field(product, "PC Windows"),
            board_field(bios, "N/A"),
        ),
    }
}

/// The motherboard label, `"{vendor} {model}"`.
pub fn motherboard_label(vendor: &str, model: &str) -> (r: String)
    ensures
        r@ == vendor@ + " "@ + model@,
{
    let mut s = String::from_str(vendor);
    s.append(" ");
    s.append(model);
    s
}

} // verus!
