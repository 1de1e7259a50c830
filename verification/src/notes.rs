//! The footnote subsystem, adjacent to the structure log: notes are
//! registered in a host-owned list under a deterministic identifier (a
//! counter the caller scopes to the document compile, so output is
//! reproducible), and the note-label element later looks the identifier
//! up to render the footnote mark. The payload format is this plugin's
//! own: the identifier in decimal, one colon, then the note text.

use vstd::prelude::*;

use crate::ops::HostOp;
use crate::ops::OpView;
use crate::ops::OutputFormat;
use crate::strutil::dec_digits;
use crate::strutil::dec_value;
use crate::strutil::is_digit_seq;
use crate::strutil::lemma_dec_digits_are_digits;
use crate::strutil::lemma_dec_value_of_digits;
use crate::strutil::parse_u64_dec;
use crate::strutil::push_char;
use crate::strutil::u64_to_dec;

verus! {

/// One registered note: its identifier and its raw text.
#[derive(Debug)]
pub struct Note {
    pub id: u64,
    pub text: String,
}

impl View for Note {
    type V = (u64, Seq<char>);

    open spec fn view(&self) -> (u64, Seq<char>) {
        (self.id, self.text@)
    }
}

impl DeepView for Note {
    type V = (u64, Seq<char>);

    open spec fn deep_view(&self) -> (u64, Seq<char>) {
        self.view()
    }
}

/// The stored form of a note: identifier, colon, text.
pub open spec fn spec_note_payload(id: nat, note: Seq<char>) -> Seq<char> {
    dec_digits(id) + seq![':'] + note
}

/// Where the first colon stands, the length when there is none.
pub open spec fn first_colon(s: Seq<char>) -> nat
    decreases s.len(),
{
    if s.len() == 0 {
        0
    } else if s[0] == ':' {
        0
    } else {
        (1 + first_colon(s.drop_first())) as nat
    }
}

/// The first colon is a colon, and nothing before it is one.
pub proof fn lemma_first_colon(s: Seq<char>)
    ensures
        first_colon(s) <= s.len(),
        forall|i: int| 0 <= i < first_colon(s) ==> s[i] != ':',
        first_colon(s) < s.len() ==> s[first_colon(s) as int] == ':',
    decreases s.len(),
{
    if s.len() == 0 || s[0] == ':' {
    } else {
        lemma_first_colon(s.drop_first());
        assert forall|i: int| 0 <= i < first_colon(s) implies s[i] != ':' by {
            if i > 0 {
                assert(s.drop_first()[i - 1] != ':');
            }
        }
    }
}

/// What a stored payload denotes: the identifier before the first colon
/// and the text after it, or nothing when the front is not a number.
pub open spec fn spec_parse_note_payload(s: Seq<char>) -> Option<(nat, Seq<char>)> {
    let k = first_colon(s);
    if k < s.len() && is_digit_seq(s.take(k as int)) {
        Some((dec_value(s.take(k as int)), s.skip(k as int + 1)))
    } else {
        None
    }
}

/// Reading a payload back yields the identifier and text it was written
/// from, whatever the text holds.
pub proof fn lemma_note_payload_round_trip(id: nat, note: Seq<char>)
    ensures
        spec_parse_note_payload(spec_note_payload(id, note)) == Some((id, note)),
{
    let s = spec_note_payload(id, note);
    let d = dec_digits(id);
    lemma_dec_digits_are_digits(id);
    lemma_first_colon(s);
    assert(forall|i: int| 0 <= i < d.len() ==> #[trigger] s[i] == d[i]);
    assert(forall|i: int| 0 <= i < d.len() ==> s[i] != ':');
    assert(s[d.len() as int] == ':');
    let k = first_colon(s);
    assert(k == d.len()) by {
        if k < d.len() {
            assert(s[k as int] != ':');
        }
        if k > d.len() {
            assert(s[d.len() as int] != ':');
        }
    }
    assert(s.take(k as int) =~= d);
    lemma_dec_value_of_digits(id);
    assert(s.skip(k as int + 1) =~= note);
}

/// Writes the stored form of a note.
pub fn encode_note_payload(id: u64, note: &str) -> (r: String)
    ensures
        r@ == spec_note_payload(id as nat, note@),
{
    let mut s = u64_to_dec(id);
    push_char(&mut s, ':');
    s.append(note);
    proof {
        assert(s@ =~= spec_note_payload(id as nat, note@));
    }
    s
}

/// Reads a stored note back; `None` on text that is not a payload or
/// whose identifier does not fit.
pub fn parse_note_payload(s: &str) -> (r: Option<Note>)
    ensures
        match r {
            Some(nt) => spec_parse_note_payload(s@) == Some((nt.id as nat, nt.text@)),
            None => spec_parse_note_payload(s@) is None || (spec_parse_note_payload(s@)
                matches Some((v, _)) && v > u64::MAX),
        },
{
    let n = s.unicode_len();
    let mut k: usize = 0;
    while k < n && s.get_char(k) != ':'
        invariant
            k <= n,
            n == s@.len(),
            forall|i: int| 0 <= i < k ==> s@[i] != ':',
        decreases n - k,
    {
        k = k + 1;
    }
    proof {
        lemma_first_colon(s@);
        assert(k == first_colon(s@)) by {
            let z = first_colon(s@);
            if k < z {
                assert(s@[k as int] != ':');
            }
            if z < k {
                assert(s@[z as int] != ':');
            }
        }
    }
    if k == n {
        return None;
    }
    let prefix = s.substring_char(0, k);
    proof {
        assert(prefix@ =~= s@.take(k as int));
    }
    match parse_u64_dec(prefix) {
        Some(v) => {
            let rest = s.substring_char(k + 1, n);
            proof {
                assert(rest@ =~= s@.skip(k as int + 1));
            }
            Some(Note { id: v, text: rest.to_owned() })
        },
        None => None,
    }
}

/// The operations of the note element: a footnote in LaTeX; in HTML the
/// payload is pushed onto the note list and a note-label invocation is
/// left behind to render the mark once the list is complete.
pub open spec fn spec_note_ops(id: u64, note: Seq<char>, fmt: OutputFormat) -> Seq<OpView> {
    if fmt is Latex {
        seq![
            OpView::Text("\\footnote{"@),
            OpView::InlineContent(note),
            OpView::Text("}"@),
        ]
    } else {
        seq![
            OpView::PushNote(spec_note_payload(id as nat, note)),
            OpView::NoteLabel(id),
        ]
    }
}

/// Renders a note. The identifier is the document-scoped counter value
/// the caller assigned to this note.
pub fn note_ops(id: u64, note: &str, fmt: OutputFormat) -> (r: Vec<HostOp>)
    requires
        !(fmt is Other),
    ensures
        r.deep_view() == spec_note_ops(id, note@, fmt),
{
    let mut ops: Vec<HostOp> = Vec::new();
    match fmt {
        OutputFormat::Latex => {
            ops.push(HostOp::Text("\\footnote{".to_owned()));
            ops.push(HostOp::InlineContent(note.to_owned()));
            ops.push(HostOp::Text("}".to_owned()));
        },
        _ => {
            ops.push(HostOp::PushNote(encode_note_payload(id, note)));
            ops.push(HostOp::NoteLabel(id));
        },
    }
    proof {
        assert(ops.deep_view() =~~= spec_note_ops(id, note@, fmt));
    }
    ops
}

/// The one-based position of a note among the registered identifiers:
/// the number its footnote mark shows. `None` when the identifier was
/// never registered.
pub fn note_number(ids: &Vec<u64>, id: u64) -> (r: Option<usize>)
    ensures
        match r {
            Some(num) => 1 <= num <= ids.len() && ids@[num - 1] == id && forall|j: int|
                0 <= j < num - 1 ==> ids@[j] != id,
            None => forall|j: int| 0 <= j < ids.len() ==> ids@[j] != id,
        },
{
    let mut i: usize = 0;
    while i < ids.len()
        invariant
            i <= ids.len(),
            forall|j: int| 0 <= j < i ==> ids@[j] != id,
        decreases ids.len() - i,
    {
        if ids[i] == id {
            return Some(i + 1);
        }
        i = i + 1;
    }
    None
}

/// The footnote mark of one note: back-link anchor, link to the note,
/// and the number in superscript.
pub open spec fn spec_note_label_ops(id: u64, number: u64) -> Seq<OpView> {
    seq![
        OpView::Text(
            "<a id=\"note-backlink:"@ + dec_digits(id as nat) + "\"></a><a href=\"#note:"@
                + dec_digits(id as nat) + "\"><sup>"@ + dec_digits(number as nat) + "</sup></a>"@,
        ),
    ]
}

/// Renders the footnote mark of a note, HTML only.
pub fn note_label_ops(id: u64, number: u64) -> (r: Vec<HostOp>)
    ensures
        r.deep_view() == spec_note_label_ops(id, number),
{
    let mut s: String = "<a id=\"note-backlink:".to_owned();
    let id_dec = u64_to_dec(id);
    s.append(id_dec.as_str());
    s.append("\"></a><a href=\"#note:");
    s.append(id_dec.as_str());
    s.append("\"><sup>");
    let num_dec = u64_to_dec(number);
    s.append(num_dec.as_str());
    s.append("</sup></a>");
    let mut ops: Vec<HostOp> = Vec::new();
    ops.push(HostOp::Text(s));
    proof {
        assert(ops.deep_view() =~~= spec_note_label_ops(id, number));
    }
    ops
}

} // verus!
