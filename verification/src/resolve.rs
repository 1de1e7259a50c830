//! The resolution engine: a pure replay of the structure log that turns
//! a label name into its display number. The engine owns no state; every
//! call folds the whole log from the beginning and stops at the first
//! entry that places the requested label. A label never placed resolves
//! to the empty string.

use vstd::prelude::*;

use crate::counters::CounterState;
use crate::counters::Counters;
use crate::counters::apply_event;
use crate::counters::counters_le;
use crate::counters::init_counters;
use crate::counters::lemma_apply_event_bound;
use crate::counters::render_number;
use crate::events::EventView;
use crate::events::StructureEvent;
use crate::events::parse_entry;
use crate::events::parse_event;
use crate::strutil::str_equal;

verus! {

/// The number the scan produces when started in state `c` on the rest of
/// the log: the state projected at the first label named `target`, or
/// nothing when no such label follows.
pub open spec fn resolve_from(c: Counters, log: Seq<EventView>, target: Seq<char>) -> Seq<char>
    decreases log.len(),
{
    if log.len() == 0 {
        Seq::empty()
    } else {
        match log[0] {
            EventView::Label(name) => if name == target {
                render_number(c)
            } else {
                resolve_from(c, log.drop_first(), target)
            },
            _ => resolve_from(apply_event(c, log[0]), log.drop_first(), target),
        }
    }
}

/// The display number of a label in a log of events.
pub open spec fn resolve_events(log: Seq<EventView>, target: Seq<char>) -> Seq<char> {
    resolve_from(init_counters(), log, target)
}

/// The events that a sequence of log entry strings stands for, in order,
/// entries without structural meaning left out.
pub open spec fn parse_log(entries: Seq<Seq<char>>) -> Seq<EventView>
    decreases entries.len(),
{
    if entries.len() == 0 {
        Seq::empty()
    } else {
        (match parse_entry(entries[0]) {
            Some(ev) => seq![ev],
            None => Seq::empty(),
        }) + parse_log(entries.drop_first())
    }
}

/// The display number of a label in the host's log of entry strings.
pub open spec fn resolve_entries(entries: Seq<Seq<char>>, target: Seq<char>) -> Seq<char> {
    resolve_events(parse_log(entries), target)
}

/// Resolves a label against the whole structure log, handed over as the
/// host keeps it: one entry string per event. Returns the display number
/// of the first entry placing the label, or the empty string when the
/// label is absent. A pure function of its arguments: two calls on the
/// same log and label return the same string.
pub fn resolve_label(log: &Vec<String>, target: &str) -> (r: String)
    ensures
        r@ == resolve_entries(log.deep_view(), target@),
{
    let ghost entries = log.deep_view();
    let mut cs = CounterState::new();
    let mut i: usize = 0;
    proof {
        assert(entries.skip(0) =~= entries);
    }
    while i < log.len()
        invariant
            i <= log.len(),
            entries == log.deep_view(),
            entries.len() == log.len(),
            cs.wf(),
            counters_le(cs@, i as nat),
            resolve_entries(entries, target@) == resolve_from(
                cs@,
                parse_log(entries.skip(i as int)),
                target@,
            ),
        decreases log.len() - i,
    {
        proof {
            assert(entries.skip(i as int).drop_first() =~= entries.skip(i as int + 1));
            assert(entries.skip(i as int)[0] == entries[i as int]);
        }
        let entry = &log[i];
        proof {
            assert(entry@ == entries[i as int]);
        }
        match parse_event(entry.as_str()) {
            Some(ev) => {
                proof {
                    assert(parse_log(entries.skip(i as int)) == seq![ev@] + parse_log(
                        entries.skip(i as int + 1),
                    ));
                    assert((seq![ev@] + parse_log(entries.skip(i as int + 1))).drop_first()
                        =~= parse_log(entries.skip(i as int + 1)));
                }
                match ev {
                    StructureEvent::Label(name) => {
                        if str_equal(name.as_str(), target) {
                            let out = cs.render();
                            proof {
                                assert(out@ == resolve_entries(log.deep_view(), target@));
                            }
                            return out;
                        }
                    },
                    other => {
                        proof {
                            lemma_apply_event_bound(cs@, other@, i as nat);
                        }
                        cs.apply(&other);
                    },
                }
            },
            None => {
                proof {
                    assert(parse_log(entries.skip(i as int)) =~= parse_log(
                        entries.skip(i as int + 1),
                    ));
                }
            },
        }
        i = i + 1;
    }
    proof {
        assert(entries.skip(log.len() as int) =~= Seq::<Seq<char>>::empty());
    }
    String::new()
}

} // verus!
