//! Which element an invocation is for, and the reading of a heading
//! level argument: the decisions of the entry point, kept apart from the
//! input plumbing around them.

use vstd::prelude::*;

use crate::strutil::dec_value;
use crate::strutil::is_digit_seq;
use crate::strutil::parse_u64_dec;
use crate::strutil::str_equal;

verus! {

/// The elements this plugin renders.
#[derive(Clone, Copy, Debug, PartialEq, Eq, Structural)]
pub enum ElementKind {
    Cite,
    Document,
    Heading,
    /// The `\TeX` logo macro.
    TexLogo,
    /// The `\LaTeX` logo macro.
    LatexLogo,
    Note,
    NoteLabel,
    Label,
    Reference,
    FancyImage,
    FancyTable,
    FancyBigTable,
    ElementNumber,
}

/// Which element a transform name denotes, `None` for one this plugin
/// does not support.
pub open spec fn spec_element_kind(s: Seq<char>) -> Option<ElementKind> {
    if s == "cite"@ {
        Some(ElementKind::Cite)
    } else if s == "__document"@ {
        Some(ElementKind::Document)
    } else if s == "__heading"@ {
        Some(ElementKind::Heading)
    } else if s == "tex"@ || s == "Tex"@ {
        Some(ElementKind::TexLogo)
    } else if s == "latex"@ || s == "Latex"@ {
        Some(ElementKind::LatexLogo)
    } else if s == "note"@ {
        Some(ElementKind::Note)
    } else if s == "note-label"@ {
        Some(ElementKind::NoteLabel)
    } else if s == "label"@ {
        Some(ElementKind::Label)
    } else if s == "reference"@ {
        Some(ElementKind::Reference)
    } else if s == "fancy-image"@ {
        Some(ElementKind::FancyImage)
    } else if s == "fancy-table"@ {
        Some(ElementKind::FancyTable)
    } else if s == "fancy-big-table"@ {
        Some(ElementKind::FancyBigTable)
    } else if s == "element-number"@ {
        Some(ElementKind::ElementNumber)
    } else {
        None
    }
}

/// Reads a transform name. `None` stands for an element this plugin
/// does not support, which the caller reports.
pub fn element_kind(s: &str) -> (r: Option<ElementKind>)
    ensures
        r == spec_element_kind(s@),
{
    if str_equal(s, "cite") {
        Some(ElementKind::Cite)
    } else if str_equal(s, "__document") {
        Some(ElementKind::Document)
    } else if str_equal(s, "__heading") {
        Some(ElementKind::Heading)
    } else if str_equal(s, "tex") || str_equal(s, "Tex") {
        Some(ElementKind::TexLogo)
    } else if str_equal(s, "latex") || str_equal(s, "Latex") {
        Some(ElementKind::LatexLogo)
    } else if str_equal(s, "note") {
        Some(ElementKind::Note)
    } else if str_equal(s, "note-label") {
        Some(ElementKind::NoteLabel)
    } else if str_equal(s, "label") {
        Some(ElementKind::Label)
    } else if str_equal(s, "reference") {
        Some(ElementKind::Reference)
    } else if str_equal(s, "fancy-image") {
        Some(ElementKind::FancyImage)
    } else if str_equal(s, "fancy-table") {
        Some(ElementKind::FancyTable)
    } else if str_equal(s, "fancy-big-table") {
        Some(ElementKind::FancyBigTable)
    } else if str_equal(s, "element-number") {
        Some(ElementKind::ElementNumber)
    } else {
        None
    }
}

/// Reads the level argument of a heading: a decimal number up to 255.
/// `None` on anything else, and the entry point then refuses the
/// invocation.
pub fn parse_level(s: &str) -> (r: Option<u8>)
    ensures
        match r {
            Some(v) => is_digit_seq(s@) && dec_value(s@) == v as nat,
            None => !is_digit_seq(s@) || dec_value(s@) > 255,
        },
{
    match parse_u64_dec(s) {
        Some(v) => {
            if v <= 255 {
                Some(v as u8)
            } else {
                None
            }
        },
        None => None,
    }
}

} // verus!
