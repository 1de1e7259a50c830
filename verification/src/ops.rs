//! What one invocation hands back to the host: an ordered list of
//! operations, each either an output fragment or an append-request
//! against a host-owned list. The host applies the appends before any
//! later invocation reads the log.

use vstd::prelude::*;

verus! {

/// The output format the host asked for.
#[derive(Clone, Copy, Debug, PartialEq, Eq, Structural)]
pub enum OutputFormat {
    Html,
    Latex,
    /// Any format this plugin does not render.
    Other,
}

/// Which format a format name denotes.
pub open spec fn spec_format(s: Seq<char>) -> OutputFormat {
    if s == seq!['h', 't', 'm', 'l'] {
        OutputFormat::Html
    } else if s == seq!['l', 'a', 't', 'e', 'x'] {
        OutputFormat::Latex
    } else {
        OutputFormat::Other
    }
}

impl OutputFormat {
    /// Reads a format name.
    pub fn from_name(s: &str) -> (r: OutputFormat)
        ensures
            r == spec_format(s@),
    {
        proof {
            reveal_strlit("html");
            reveal_strlit("latex");
            assert("html"@ =~= seq!['h', 't', 'm', 'l']);
            assert("latex"@ =~= seq!['l', 'a', 't', 'e', 'x']);
        }
        if crate::strutil::str_equal(s, "html") {
            OutputFormat::Html
        } else if crate::strutil::str_equal(s, "latex") {
            OutputFormat::Latex
        } else {
            OutputFormat::Other
        }
    }
}

/// An input this plugin rejects, reported to the host; no operations are
/// produced beside it.
#[derive(Clone, Copy, Debug, PartialEq, Eq, Structural)]
pub enum TransformError {
    /// A citation without a key.
    MissingKey,
    /// An element that must not consume input was handed content.
    ConsumedInput,
    /// A heading level outside one to six.
    HeadingLevel(u8),
}

/// Mathematical form of one host operation.
#[verifier::ext_equal]
pub enum OpView {
    PushStructure(Seq<char>),
    PushNote(Seq<char>),
    Raw(Seq<char>),
    InlineContent(Seq<char>),
    BlockContent(Seq<char>),
    Text(Seq<char>),
    NoteLabel(u64),
    SpliceChildren,
    SpliceImports,
}

/// One operation for the host to apply, in order.
#[derive(Debug)]
pub enum HostOp {
    /// Append one entry to the document's structure log.
    PushStructure(String),
    /// Append one note payload to the document's note list.
    PushNote(String),
    /// A raw output fragment.
    Raw(String),
    /// Inline content for the host to compile.
    InlineContent(String),
    /// Block content for the host to compile.
    BlockContent(String),
    /// A plain string in the output list.
    Text(String),
    /// An invocation of the note-label element carrying a note id.
    NoteLabel(u64),
    /// The host's already-rendered child fragments stand here.
    SpliceChildren,
    /// The import fragments gathered from other packages stand here.
    SpliceImports,
}

impl View for HostOp {
    type V = OpView;

    open spec fn view(&self) -> OpView {
        match self {
            HostOp::PushStructure(s) => OpView::PushStructure(s@),
            HostOp::PushNote(s) => OpView::PushNote(s@),
            HostOp::Raw(s) => OpView::Raw(s@),
            HostOp::InlineContent(s) => OpView::InlineContent(s@),
            HostOp::BlockContent(s) => OpView::BlockContent(s@),
            HostOp::Text(s) => OpView::Text(s@),
            HostOp::NoteLabel(id) => OpView::NoteLabel(*id),
            HostOp::SpliceChildren => OpView::SpliceChildren,
            HostOp::SpliceImports => OpView::SpliceImports,
        }
    }
}

impl DeepView for HostOp {
    type V = OpView;

    open spec fn deep_view(&self) -> OpView {
        self.view()
    }
}

} // verus!
