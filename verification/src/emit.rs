//! The per-element emitters: given one element's argument values, each
//! produces the ordered host operations that render the element and feed
//! the structure log. Figure and table wrappers place their structural
//! marker immediately before their label entry, so a later scan sees the
//! right last-kind at the label.

use vstd::prelude::*;

use crate::events::EventView;
use crate::events::StructureEvent;
use crate::events::encode_entry;
use crate::events::encode_event;
use crate::events::exec_level_char;
use crate::ops::HostOp;
use crate::ops::OpView;
use crate::ops::OutputFormat;
use crate::ops::TransformError;
use crate::strutil::digit_char;
use crate::strutil::spec_escape_quotes;
use crate::strutil::escape_quotes;

verus! {

/// The operations of a citation: a styled span in HTML, a biblatex
/// `\cite` with an optional post-note in LaTeX and any other format.
pub open spec fn spec_cite_ops(key: Seq<char>, postnote: Seq<char>, fmt: OutputFormat) -> Seq<
    OpView,
> {
    if fmt is Html {
        seq![
            OpView::Raw(
                "<span style=\"background: #0000000d; font-style: italic; border-radius: 1rem; padding: 0.2rem 0.5rem 0.2rem 0.5rem; font-size: 80%;\">"@
                    + key + " "@ + postnote + "</span>"@,
            ),
        ]
    } else {
        seq![
            OpView::Raw(
                "\\cite"@ + (if postnote.len() == 0 {
                    Seq::<char>::empty()
                } else {
                    "["@ + postnote + "]"@
                }) + "{"@ + key + "}"@,
            ),
        ]
    }
}

/// Renders a citation. A key is required; the post-note may be empty.
pub fn cite_ops(key: &str, postnote: &str, fmt: OutputFormat) -> (r: Result<
    Vec<HostOp>,
    TransformError,
>)
    ensures
        match r {
            Ok(ops) => key@.len() > 0 && ops.deep_view() == spec_cite_ops(key@, postnote@, fmt),
            Err(e) => key@.len() == 0 && e == TransformError::MissingKey,
        },
{
    if key.is_empty() {
        return Err(TransformError::MissingKey);
    }
    let mut ops: Vec<HostOp> = Vec::new();
    match fmt {
        OutputFormat::Html => {
            let mut s: String =
                "<span style=\"background: #0000000d; font-style: italic; border-radius: 1rem; padding: 0.2rem 0.5rem 0.2rem 0.5rem; font-size: 80%;\">".to_owned();
            s.append(key);
            s.append(" ");
            s.append(postnote);
            s.append("</span>");
            ops.push(HostOp::Raw(s));
        },
        _ => {
            let mut s: String = "\\cite".to_owned();
            if !postnote.is_empty() {
                s.append("[");
                s.append(postnote);
                s.append("]");
            }
            s.append("{");
            s.append(key);
            s.append("}");
            ops.push(HostOp::Raw(s));
        },
    }
    proof {
        assert(ops.deep_view() =~~= spec_cite_ops(key@, postnote@, fmt));
    }
    Ok(ops)
}

/// The operations of a LaTeX logo macro: the bare word in HTML, the
/// macro itself in LaTeX.
pub open spec fn spec_latex_command_ops(command: Seq<char>, fmt: OutputFormat) -> Seq<OpView> {
    if fmt is Html {
        seq![OpView::Text(command)]
    } else {
        seq![OpView::Text("\\"@ + command + "{}"@)]
    }
}

/// Renders a logo macro such as `\TeX`. The element must not consume any
/// input: content that is absent or nonempty is rejected.
pub fn latex_command_ops(command: &str, data: Option<&str>, fmt: OutputFormat) -> (r: Result<
    Vec<HostOp>,
    TransformError,
>)
    requires
        !(fmt is Other),
    ensures
        match r {
            Ok(ops) => (data matches Some(d) && d@.len() == 0) && ops.deep_view()
                == spec_latex_command_ops(command@, fmt),
            Err(e) => !(data matches Some(d) && d@.len() == 0) && e
                == TransformError::ConsumedInput,
        },
{
    match data {
        Some(d) => {
            if !d.is_empty() {
                return Err(TransformError::ConsumedInput);
            }
        },
        None => {
            return Err(TransformError::ConsumedInput);
        },
    }
    let mut ops: Vec<HostOp> = Vec::new();
    match fmt {
        OutputFormat::Html => {
            ops.push(HostOp::Text(command.to_owned()));
        },
        _ => {
            let mut s: String = "\\".to_owned();
            s.append(command);
            s.append("{}");
            ops.push(HostOp::Text(s));
        },
    }
    proof {
        assert(ops.deep_view() =~~= spec_latex_command_ops(command@, fmt));
    }
    Ok(ops)
}

/// The operations of a label element: in HTML it registers the label in
/// the structure log and renders an anchor; in LaTeX it renders `\label`
/// and leaves the log alone; any other format produces nothing.
pub open spec fn spec_label_ops(label: Seq<char>, fmt: OutputFormat) -> Seq<OpView> {
    match fmt {
        OutputFormat::Html => seq![
            OpView::PushStructure(encode_entry(EventView::Label(label))),
            OpView::Text(
                "<span id=\""@ + spec_escape_quotes(label) + "\"></span>"@,
            ),
        ],
        OutputFormat::Latex => seq![
            OpView::Text("\\label{"@ + spec_escape_quotes(label) + "}"@),
        ],
        OutputFormat::Other => Seq::empty(),
    }
}

/// Renders a label element.
pub fn label_ops(label: &str, fmt: OutputFormat) -> (r: Vec<HostOp>)
    ensures
        r.deep_view() == spec_label_ops(label@, fmt),
{
    let mut ops: Vec<HostOp> = Vec::new();
    match fmt {
        OutputFormat::Html => {
            let entry = encode_event(&StructureEvent::Label(label.to_owned()));
            ops.push(HostOp::PushStructure(entry));
            let mut s: String = "<span id=\"".to_owned();
            let esc = escape_quotes(label);
            s.append(esc.as_str());
            s.append("\"></span>");
            ops.push(HostOp::Text(s));
        },
        OutputFormat::Latex => {
            let mut s: String = "\\label{".to_owned();
            let esc = escape_quotes(label);
            s.append(esc.as_str());
            s.append("}");
            ops.push(HostOp::Text(s));
        },
        OutputFormat::Other => {
        },
    }
    proof {
        assert(ops.deep_view() =~~= spec_label_ops(label@, fmt));
    }
    ops
}

/// The LaTeX sectioning command that opens a heading of each level.
pub open spec fn latex_heading_command(l: int) -> Seq<char> {
    if l == 1 {
        "\\chapter{"@
    } else if l == 2 {
        "\\section{"@
    } else if l == 3 {
        "\\subsection{"@
    } else if l == 4 {
        "\\subsubsection{"@
    } else if l == 5 {
        "\\paragraph{"@
    } else {
        "\\subparagraph{"@
    }
}

/// The operations of a heading of a valid level: in HTML it records the
/// heading in the structure log and wraps the children in a tag; in
/// LaTeX it wraps them in the sectioning command; any other format
/// produces nothing.
pub open spec fn spec_heading_ops(l: int, fmt: OutputFormat) -> Seq<OpView> {
    match fmt {
        OutputFormat::Html => seq![
            OpView::PushStructure(encode_entry(EventView::Heading(l))),
            OpView::Text("<h"@ + seq![digit_char(l as nat)] + ">"@),
            OpView::SpliceChildren,
            OpView::Text("</h"@ + seq![digit_char(l as nat)] + ">"@),
        ],
        OutputFormat::Latex => seq![
            OpView::Text(latex_heading_command(l)),
            OpView::SpliceChildren,
            OpView::Text("}"@),
        ],
        OutputFormat::Other => Seq::empty(),
    }
}

/// Renders a heading. A level outside one to six is an input error: it
/// is reported and neither output nor log entry is produced.
pub fn heading_ops(level: u8, fmt: OutputFormat) -> (r: Result<Vec<HostOp>, TransformError>)
    ensures
        match r {
            Ok(ops) => 1 <= level <= 6 && ops.deep_view() == spec_heading_ops(level as int, fmt),
            Err(e) => !(1 <= level <= 6) && e == TransformError::HeadingLevel(level),
        },
{
    if level < 1 || level > 6 {
        return Err(TransformError::HeadingLevel(level));
    }
    let mut ops: Vec<HostOp> = Vec::new();
    match fmt {
        OutputFormat::Html => {
            let entry = encode_event(&StructureEvent::Heading(level));
            ops.push(HostOp::PushStructure(entry));
            let mut open_tag: String = "<h".to_owned();
            crate::strutil::push_char(&mut open_tag, exec_level_char(level));
            open_tag.append(">");
            ops.push(HostOp::Text(open_tag));
            ops.push(HostOp::SpliceChildren);
            let mut close_tag: String = "</h".to_owned();
            crate::strutil::push_char(&mut close_tag, exec_level_char(level));
            close_tag.append(">");
            ops.push(HostOp::Text(close_tag));
            proof {
                assert(open_tag@ =~= "<h"@ + seq![digit_char(level as nat)] + ">"@);
                assert(close_tag@ =~= "</h"@ + seq![digit_char(level as nat)] + ">"@);
            }
        },
        OutputFormat::Latex => {
            let command: String = if level == 1 {
                "\\chapter{".to_owned()
            } else if level == 2 {
                "\\section{".to_owned()
            } else if level == 3 {
                "\\subsection{".to_owned()
            } else if level == 4 {
                "\\subsubsection{".to_owned()
            } else if level == 5 {
                "\\paragraph{".to_owned()
            } else {
                "\\subparagraph{".to_owned()
            };
            ops.push(HostOp::Text(command));
            ops.push(HostOp::SpliceChildren);
            ops.push(HostOp::Text("}".to_owned()));
        },
        OutputFormat::Other => {
        },
    }
    proof {
        assert(ops.deep_view() =~~= spec_heading_ops(level as int, fmt));
    }
    Ok(ops)
}

/// The operations of a cross-reference: a hyperlink around an
/// element-number invocation in HTML, `\ref` in LaTeX, nothing in any
/// other format.
pub open spec fn spec_reference_ops(label: Seq<char>, fmt: OutputFormat) -> Seq<OpView> {
    match fmt {
        OutputFormat::Html => seq![
            OpView::Raw("<a href=\"#"@ + spec_escape_quotes(label) + "\">"@),
            OpView::InlineContent("[element-number]("@ + label + ")"@),
            OpView::Raw("</a>"@),
        ],
        OutputFormat::Latex => seq![
            OpView::Raw("\\ref{"@ + spec_escape_quotes(label) + "}"@),
        ],
        OutputFormat::Other => Seq::empty(),
    }
}

/// Renders a cross-reference to a label. The number itself is produced
/// later, by the resolution engine, through the element-number
/// invocation this emits.
pub fn reference_ops(label: &str, fmt: OutputFormat) -> (r: Vec<HostOp>)
    ensures
        r.deep_view() == spec_reference_ops(label@, fmt),
{
    let mut ops: Vec<HostOp> = Vec::new();
    match fmt {
        OutputFormat::Html => {
            let mut open_tag: String = "<a href=\"#".to_owned();
            let esc = escape_quotes(label);
            open_tag.append(esc.as_str());
            open_tag.append("\">");
            ops.push(HostOp::Raw(open_tag));
            let mut invoc: String = "[element-number](".to_owned();
            invoc.append(label);
            invoc.append(")");
            ops.push(HostOp::InlineContent(invoc));
            ops.push(HostOp::Raw("</a>".to_owned()));
        },
        OutputFormat::Latex => {
            let mut s: String = "\\ref{".to_owned();
            let esc = escape_quotes(label);
            s.append(esc.as_str());
            s.append("}");
            ops.push(HostOp::Raw(s));
        },
        OutputFormat::Other => {
        },
    }
    proof {
        assert(ops.deep_view() =~~= spec_reference_ops(label@, fmt));
    }
    ops
}


/// The caption a figure wrapper hands on: in HTML it is prefixed with a
/// bold figure number, produced through an element-number invocation.
pub open spec fn spec_figure_caption(label: Seq<char>, caption: Seq<char>, fmt: OutputFormat) -> Seq<
    char,
> {
    if fmt is Html {
        "**Figure [element-number]("@ + label + "):** "@ + caption
    } else {
        caption
    }
}

/// The image invocation a figure wrapper delegates to the host.
pub open spec fn spec_figure_invocation(
    alt: Seq<char>,
    caption_used: Seq<char>,
    label: Seq<char>,
    width: Seq<char>,
    embed: Seq<char>,
    cap_align: Seq<char>,
    data: Seq<char>,
) -> Seq<char> {
    "[image \""@ + alt + "\" \""@ + caption_used + "\" \""@ + label + "\" \""@ + width + "\" \""@
        + embed + "\" \""@ + cap_align + "\"](((\n"@ + data + "\n)))"@
}

/// The operations of a figure wrapper: the figure marker, then the label
/// entry, in that order, then the delegated image invocation.
pub open spec fn spec_figure_ops(
    alt: Seq<char>,
    caption: Seq<char>,
    label: Seq<char>,
    width: Seq<char>,
    embed: Seq<char>,
    cap_align: Seq<char>,
    data: Seq<char>,
    fmt: OutputFormat,
) -> Seq<OpView> {
    seq![
        OpView::PushStructure(encode_entry(EventView::Figure)),
        OpView::PushStructure(encode_entry(EventView::Label(label))),
        OpView::BlockContent(
            spec_figure_invocation(
                alt,
                spec_figure_caption(label, caption, fmt),
                label,
                width,
                embed,
                cap_align,
                data,
            ),
        ),
    ]
}

/// Renders a figure wrapper. The width is handed over as the host wrote
/// it; this core does not interpret it.
pub fn figure_ops(
    alt: &str,
    caption: &str,
    label: &str,
    width: &str,
    embed: &str,
    cap_align: &str,
    data: &str,
    fmt: OutputFormat,
) -> (r: Vec<HostOp>)
    ensures
        r.deep_view() == spec_figure_ops(
            alt@,
            caption@,
            label@,
            width@,
            embed@,
            cap_align@,
            data@,
            fmt,
        ),
{
    let caption_used: String = match fmt {
        OutputFormat::Html => {
            let mut c: String = "**Figure [element-number](".to_owned();
            c.append(label);
            c.append("):** ");
            c.append(caption);
            c
        },
        _ => caption.to_owned(),
    };
    let mut invoc: String = "[image \"".to_owned();
    invoc.append(alt);
    invoc.append("\" \"");
    invoc.append(caption_used.as_str());
    invoc.append("\" \"");
    invoc.append(label);
    invoc.append("\" \"");
    invoc.append(width);
    invoc.append("\" \"");
    invoc.append(embed);
    invoc.append("\" \"");
    invoc.append(cap_align);
    invoc.append("\"](((\n");
    invoc.append(data);
    invoc.append("\n)))");
    let mut ops: Vec<HostOp> = Vec::new();
    ops.push(HostOp::PushStructure(encode_event(&StructureEvent::FigurePlaced)));
    ops.push(HostOp::PushStructure(encode_event(&StructureEvent::Label(label.to_owned()))));
    ops.push(HostOp::BlockContent(invoc));
    proof {
        assert(ops.deep_view() =~~= spec_figure_ops(
            alt@,
            caption@,
            label@,
            width@,
            embed@,
            cap_align@,
            data@,
            fmt,
        ));
    }
    ops
}

/// The caption a table wrapper hands on, with its bold number in HTML.
pub open spec fn spec_table_caption(label: Seq<char>, caption: Seq<char>, fmt: OutputFormat) -> Seq<
    char,
> {
    if fmt is Html {
        "**Table [element-number]("@ + label + "):** "@ + caption
    } else {
        caption
    }
}

/// The table invocation a table wrapper delegates to the host.
pub open spec fn spec_table_invocation(
    caption_used: Seq<char>,
    label: Seq<char>,
    header: Seq<char>,
    alignment: Seq<char>,
    borders: Seq<char>,
    delimiter: Seq<char>,
    strip: Seq<char>,
    data: Seq<char>,
) -> Seq<char> {
    "[table \""@ + caption_used + "\" \""@ + label + "\" \""@ + header + "\" \""@ + alignment
        + "\" \""@ + borders + "\" \""@ + delimiter + "\" \""@ + strip + "\"](((\n"@ + data
        + "\n)))"@
}

/// The operations of a table wrapper: the table marker, then the label
/// entry, then the delegated table invocation.
pub open spec fn spec_table_ops(
    caption: Seq<char>,
    label: Seq<char>,
    header: Seq<char>,
    alignment: Seq<char>,
    borders: Seq<char>,
    delimiter: Seq<char>,
    strip: Seq<char>,
    data: Seq<char>,
    fmt: OutputFormat,
) -> Seq<OpView> {
    seq![
        OpView::PushStructure(encode_entry(EventView::Table)),
        OpView::PushStructure(encode_entry(EventView::Label(label))),
        OpView::BlockContent(
            spec_table_invocation(
                spec_table_caption(label, caption, fmt),
                label,
                header,
                alignment,
                borders,
                delimiter,
                strip,
                data,
            ),
        ),
    ]
}

/// Renders a table wrapper.
pub fn table_ops(
    caption: &str,
    label: &str,
    header: &str,
    alignment: &str,
    borders: &str,
    delimiter: &str,
    strip: &str,
    data: &str,
    fmt: OutputFormat,
) -> (r: Vec<HostOp>)
    ensures
        r.deep_view() == spec_table_ops(
            caption@,
            label@,
            header@,
            alignment@,
            borders@,
            delimiter@,
            strip@,
            data@,
            fmt,
        ),
{
    let caption_used: String = match fmt {
        OutputFormat::Html => {
            let mut c: String = "**Table [element-number](".to_owned();
            c.append(label);
            c.append("):** ");
            c.append(caption);
            c
        },
        _ => caption.to_owned(),
    };
    let mut invoc: String = "[table \"".to_owned();
    invoc.append(caption_used.as_str());
    invoc.append("\" \"");
    invoc.append(label);
    invoc.append("\" \"");
    invoc.append(header);
    invoc.append("\" \"");
    invoc.append(alignment);
    invoc.append("\" \"");
    invoc.append(borders);
    invoc.append("\" \"");
    invoc.append(delimiter);
    invoc.append("\" \"");
    invoc.append(strip);
    invoc.append("\"](((\n");
    invoc.append(data);
    invoc.append("\n)))");
    let mut ops: Vec<HostOp> = Vec::new();
    ops.push(HostOp::PushStructure(encode_event(&StructureEvent::TablePlaced)));
    ops.push(HostOp::PushStructure(encode_event(&StructureEvent::Label(label.to_owned()))));
    ops.push(HostOp::BlockContent(invoc));
    proof {
        assert(ops.deep_view() =~~= spec_table_ops(
            caption@,
            label@,
            header@,
            alignment@,
            borders@,
            delimiter@,
            strip@,
            data@,
            fmt,
        ));
    }
    ops
}

/// The big-table invocation a block-content table wrapper delegates.
pub open spec fn spec_big_table_invocation(
    caption_used: Seq<char>,
    label: Seq<char>,
    alignment: Seq<char>,
    borders: Seq<char>,
    col_delimiter: Seq<char>,
    row_delimiter: Seq<char>,
    data: Seq<char>,
) -> Seq<char> {
    "[big-table \""@ + caption_used + "\" \""@ + label + "\" \""@ + alignment + "\" \""@ + borders
        + "\" \""@ + col_delimiter + "\" \""@ + row_delimiter + "\"](((\n"@ + data + "\n)))"@
}

/// The operations of the big-table wrapper: the same table marker and
/// label entry, then the delegated big-table invocation.
pub open spec fn spec_big_table_ops(
    caption: Seq<char>,
    label: Seq<char>,
    alignment: Seq<char>,
    borders: Seq<char>,
    col_delimiter: Seq<char>,
    row_delimiter: Seq<char>,
    data: Seq<char>,
    fmt: OutputFormat,
) -> Seq<OpView> {
    seq![
        OpView::PushStructure(encode_entry(EventView::Table)),
        OpView::PushStructure(encode_entry(EventView::Label(label))),
        OpView::BlockContent(
            spec_big_table_invocation(
                spec_table_caption(label, caption, fmt),
                label,
                alignment,
                borders,
                col_delimiter,
                row_delimiter,
                data,
            ),
        ),
    ]
}

/// Renders a big-table wrapper, the block-content variant of the table.
pub fn big_table_ops(
    caption: &str,
    label: &str,
    alignment: &str,
    borders: &str,
    col_delimiter: &str,
    row_delimiter: &str,
    data: &str,
    fmt: OutputFormat,
) -> (r: Vec<HostOp>)
    ensures
        r.deep_view() == spec_big_table_ops(
            caption@,
            label@,
            alignment@,
            borders@,
            col_delimiter@,
            row_delimiter@,
            data@,
            fmt,
        ),
{
    let caption_used: String = match fmt {
        OutputFormat::Html => {
            let mut c: String = "**Table [element-number](".to_owned();
            c.append(label);
            c.append("):** ");
            c.append(caption);
            c
        },
        _ => caption.to_owned(),
    };
    let mut invoc: String = "[big-table \"".to_owned();
    invoc.append(caption_used.as_str());
    invoc.append("\" \"");
    invoc.append(label);
    invoc.append("\" \"");
    invoc.append(alignment);
    invoc.append("\" \"");
    invoc.append(borders);
    invoc.append("\" \"");
    invoc.append(col_delimiter);
    invoc.append("\" \"");
    invoc.append(row_delimiter);
    invoc.append("\"](((\n");
    invoc.append(data);
    invoc.append("\n)))");
    let mut ops: Vec<HostOp> = Vec::new();
    ops.push(HostOp::PushStructure(encode_event(&StructureEvent::TablePlaced)));
    ops.push(HostOp::PushStructure(encode_event(&StructureEvent::Label(label.to_owned()))));
    ops.push(HostOp::BlockContent(invoc));
    proof {
        assert(ops.deep_view() =~~= spec_big_table_ops(
            caption@,
            label@,
            alignment@,
            borders@,
            col_delimiter@,
            row_delimiter@,
            data@,
            fmt,
        ));
    }
    ops
}

} // verus!
