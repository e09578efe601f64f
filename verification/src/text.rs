//! Text pieces of error messages: decimal numbers and the debug text of
//! export formats.

use vstd::prelude::*;
use crate::modeling_cmd::{ExportFormat, StlCoords};

verus! {

/// The decimal digit for a value in `0..10`.
pub open spec fn digit_char(d: nat) -> char {
    (48 + d) as char
}

/// The decimal text of `n`, without sign or leading zeros.
pub open spec fn decimal(n: nat) -> Seq<char>
    decreases n,
{
    if n < 10 {
        seq![digit_char(n)]
    } else {
        decimal(n / 10) + seq![digit_char(n % 10)]
    }
}

/// The decimal text of `n`, from `u32::to_string` (its `Display`, which
/// writes the plain decimal digits).
#[verifier::external_body]
pub(crate) fn u32_to_string(n: u32) -> (s: String)
    ensures
        s@ == decimal(n as nat),
{
    n.to_string()
}

/// The quoted and escaped text that `Debug` writes for a string.
pub uninterp spec fn quoted_debug(s: Seq<char>) -> Seq<char>;

/// The `Debug` text of a string (`format!("{:?}", s)`): the string in
/// double quotes with `str::escape_debug` escapes. Named, not spelled out.
#[verifier::external_body]
pub(crate) fn debug_quoted(s: &String) -> (r: String)
    ensures
        r@ == quoted_debug(s@),
{
    format!("{:?}", s)
}

/// The `Debug` text of an optional string.
pub open spec fn option_text(o: Option<String>) -> Seq<char> {
    match o {
        None => "None"@,
        Some(s) => "Some("@ + quoted_debug(s@) + ")"@,
    }
}

/// The derived `Debug` text of an export format.
pub open spec fn export_format_text(f: ExportFormat) -> Seq<char> {
    match f {
        ExportFormat::Step {} => "Step"@,
        ExportFormat::Stl { coords } => match coords {
            None => "Stl { coords: None }"@,
            Some(c) => "Stl { coords: "@ + "Some(StlCoords { up: "@ + option_text(c.up)
                + ", forward: "@ + option_text(c.forward) + " }) }"@,
        },
        ExportFormat::Gltf { storage } => "Gltf { storage: "@ + option_text(storage) + " }"@,
        ExportFormat::Obj {} => "Obj"@,
        ExportFormat::Ply {} => "Ply"@,
    }
}

fn option_to_text(o: &Option<String>) -> (s: String)
    ensures
        s@ == option_text(*o),
{
    match o {
        None => String::from_str("None"),
        Some(v) => {
            let mut s = String::from_str("Some(");
            let q = debug_quoted(v);
            s.append(q.as_str());
            s.append(")");
            s
        },
    }
}

fn stl_coords_text(c: &StlCoords) -> (s: String)
    ensures
        s@ == "Some(StlCoords { up: "@ + option_text(c.up) + ", forward: "@ + option_text(
            c.forward,
        ) + " }) }"@,
{
    let mut s = String::from_str("Some(StlCoords { up: ");
    let up = option_to_text(&c.up);
    s.append(up.as_str());
    s.append(", forward: ");
    let fw = option_to_text(&c.forward);
    s.append(fw.as_str());
    s.append(" }) }");
    s
}

impl ExportFormat {
    /// The `Debug` text of the format, as a derived `Debug` writes it.
    pub fn debug_text(&self) -> (s: String)
        ensures
            s@ == export_format_text(*self),
    {
        match self {
            ExportFormat::Step {} => String::from_str("Step"),
            ExportFormat::Stl { coords } => match coords {
                None => String::from_str("Stl { coords: None }"),
                Some(c) => {
                    let mut s = String::from_str("Stl { coords: ");
                    let rest = stl_coords_text(c);
                    s.append(rest.as_str());
                    proof {
                        assert(s@ =~= export_format_text(*self));
                    }
                    s
                },
            },
            ExportFormat::Gltf { storage } => {
                let mut s = String::from_str("Gltf { storage: ");
                let t = option_to_text(storage);
                s.append(t.as_str());
                s.append(" }");
                s
            },
            ExportFormat::Obj {} => String::from_str("Obj"),
            ExportFormat::Ply {} => String::from_str("Ply"),
        }
    }
}

} // verus!
