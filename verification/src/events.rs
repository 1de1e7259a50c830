//! The structure events: the immutable facts that accumulate in the
//! document-wide log, and their flat string encoding (`"h1"`..`"h6"`,
//! `"fig"`, `"tab"`, `"label/"` + name) so all events share one list of
//! strings owned by the host.

use vstd::prelude::*;

use crate::strutil::digit_char;
use crate::strutil::digit_val;

verus! {

/// Mathematical form of one structure event.
pub enum EventView {
    Heading(int),
    Figure,
    Table,
    Label(Seq<char>),
}

/// One immutable fact appended to the structure log.
#[derive(Debug)]
pub enum StructureEvent {
    /// A heading of the given level was rendered.
    Heading(u8),
    /// A figure-producing element was rendered.
    FigurePlaced,
    /// A table-producing element was rendered.
    TablePlaced,
    /// A named label was placed at this point of the document.
    Label(String),
}

impl View for StructureEvent {
    type V = EventView;

    open spec fn view(&self) -> EventView {
        match self {
            StructureEvent::Heading(l) => EventView::Heading(*l as int),
            StructureEvent::FigurePlaced => EventView::Figure,
            StructureEvent::TablePlaced => EventView::Table,
            StructureEvent::Label(name) => EventView::Label(name@),
        }
    }
}

impl DeepView for StructureEvent {
    type V = EventView;

    open spec fn deep_view(&self) -> EventView {
        self.view()
    }
}

/// A well-formed event: heading levels stay inside one to six.
pub open spec fn wf_event(ev: EventView) -> bool {
    match ev {
        EventView::Heading(l) => 1 <= l <= 6,
        _ => true,
    }
}

/// The reserved prefix that distinguishes a label entry.
pub open spec fn label_prefix() -> Seq<char> {
    seq!['l', 'a', 'b', 'e', 'l', '/']
}

/// The string under which a well-formed event stands in the log.
pub open spec fn encode_entry(ev: EventView) -> Seq<char> {
    match ev {
        EventView::Heading(l) => seq!['h', digit_char(if 1 <= l <= 6 {
            l as nat
        } else {
            1
        })],
        EventView::Figure => seq!['f', 'i', 'g'],
        EventView::Table => seq!['t', 'a', 'b'],
        EventView::Label(name) => label_prefix() + name,
    }
}

/// The event a log entry stands for, if any: unknown entries carry no
/// structural meaning and are ignored by the resolution engine.
pub open spec fn parse_entry(s: Seq<char>) -> Option<EventView> {
    if s == seq!['f', 'i', 'g'] {
        Some(EventView::Figure)
    } else if s == seq!['t', 'a', 'b'] {
        Some(EventView::Table)
    } else if s.len() == 2 && s[0] == 'h' && 1 <= digit_val(s[1]) <= 6 {
        Some(EventView::Heading(digit_val(s[1]) as int))
    } else if s.len() >= 6 && s.take(6) == label_prefix() {
        Some(EventView::Label(s.skip(6)))
    } else {
        None
    }
}

/// Whatever is written for a well-formed event is read back as the same
/// event: the emitters and the resolution engine agree on the encoding.
pub proof fn lemma_encode_parse_round_trip(ev: EventView)
    requires
        wf_event(ev),
    ensures
        parse_entry(encode_entry(ev)) == Some(ev),
{
    match ev {
        EventView::Heading(l) => {
            let s = encode_entry(ev);
            assert(s.len() == 2);
            assert(digit_val(digit_char(l as nat)) == l as nat);
        },
        EventView::Figure => {
        },
        EventView::Table => {
        },
        EventView::Label(name) => {
            let s = encode_entry(ev);
            assert(s.len() >= 6);
            assert(s.take(6) =~= label_prefix());
            assert(s.skip(6) =~= name);
        },
    }
}

pub(crate) fn exec_level_char(l: u8) -> (c: char)
    requires
        1 <= l <= 6,
    ensures
        c == digit_char(l as nat),
{
    match l {
        1 => '1',
        2 => '2',
        3 => '3',
        4 => '4',
        5 => '5',
        _ => '6',
    }
}

/// Writes one event as a log entry string.
pub fn encode_event(ev: &StructureEvent) -> (r: String)
    requires
        wf_event(ev@),
    ensures
        r@ == encode_entry(ev@),
{
    match ev {
        StructureEvent::Heading(l) => {
            let mut s = String::new();
            crate::strutil::push_char(&mut s, 'h');
            crate::strutil::push_char(&mut s, exec_level_char(*l));
            proof {
                assert(s@ =~= encode_entry(ev@));
            }
            s
        },
        StructureEvent::FigurePlaced => {
            let s: String = "fig".to_owned();
            proof {
                reveal_strlit("fig");
                assert(s@ =~= encode_entry(ev@));
            }
            s
        },
        StructureEvent::TablePlaced => {
            let s: String = "tab".to_owned();
            proof {
                reveal_strlit("tab");
                assert(s@ =~= encode_entry(ev@));
            }
            s
        },
        StructureEvent::Label(name) => {
            let mut s: String = "label/".to_owned();
            proof {
                reveal_strlit("label/");
            }
            s.append(name.as_str());
            proof {
                assert(s@ =~= encode_entry(ev@));
            }
            s
        },
    }
}

/// Reads one log entry back as an event, `None` for an entry that the
/// resolution engine ignores.
pub fn parse_event(s: &str) -> (r: Option<StructureEvent>)
    ensures
        r.deep_view() == parse_entry(s@),
{
    proof {
        reveal_strlit("fig");
        reveal_strlit("tab");
        reveal_strlit("label/");
    }
    if crate::strutil::str_equal(s, "fig") {
        proof {
            assert(s@ =~= seq!['f', 'i', 'g']);
        }
        Some(StructureEvent::FigurePlaced)
    } else if crate::strutil::str_equal(s, "tab") {
        proof {
            assert(s@ =~= seq!['t', 'a', 'b']);
        }
        Some(StructureEvent::TablePlaced)
    } else {
        proof {
            assert(s@ != seq!['f', 'i', 'g'] && s@ != seq!['t', 'a', 'b']) by {
                assert("fig"@ =~= seq!['f', 'i', 'g']);
                assert("tab"@ =~= seq!['t', 'a', 'b']);
            }
        }
        let n = s.unicode_len();
        if n == 2 && s.get_char(0) == 'h' {
            let c = s.get_char(1);
            let level: u8 = match c {
                '1' => 1,
                '2' => 2,
                '3' => 3,
                '4' => 4,
                '5' => 5,
                '6' => 6,
                _ => 0,
            };
            if level >= 1 {
                Some(StructureEvent::Heading(level))
            } else {
                None
            }
        } else if n >= 6 {
            let pre = s.substring_char(0, 6);
            if crate::strutil::str_equal(pre, "label/") {
                proof {
                    assert(s@.take(6) =~= label_prefix());
                }
                let rest = s.substring_char(6, n);
                proof {
                    assert(rest@ =~= s@.skip(6));
                }
                Some(StructureEvent::Label(rest.to_owned()))
            } else {
                proof {
                    assert("label/"@ =~= label_prefix());
                }
                None
            }
        } else {
            None
        }
    }
}

} // verus!
