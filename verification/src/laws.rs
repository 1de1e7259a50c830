//! Laws of the numbering scheme, stated over the mathematical model and
//! proved once and for all: chapter-scoped figure and table counters,
//! the reset of deeper section counters, and the empty result for absent
//! labels and for labels without structural context.

use vstd::prelude::*;

use crate::counters::Counters;
use crate::counters::apply_event;
use crate::counters::init_counters;
use crate::counters::render_number;
use crate::events::EventView;
use crate::events::parse_entry;
use crate::resolve::parse_log;
use crate::resolve::resolve_entries;
use crate::resolve::resolve_events;
use crate::resolve::resolve_from;

verus! {

/// A level-one heading starts the figure and table counters over, and a
/// figure placed after it counts as the first of the new chapter: figure
/// numbering is chapter-scoped.
pub proof fn lemma_chapter_reset(c: Counters)
    ensures
        apply_event(c, EventView::Heading(1)).fig == 0,
        apply_event(c, EventView::Heading(1)).tab == 0,
        apply_event(apply_event(c, EventView::Heading(1)), EventView::Figure).fig == 1,
        apply_event(apply_event(c, EventView::Heading(1)), EventView::Table).tab == 1,
{
}

/// A heading of level `l` steps its own section counter, sets every
/// deeper one back to zero, and leaves the shallower ones as they were.
pub proof fn lemma_heading_reset(c: Counters, l: int)
    requires
        c.secs.len() == 5,
        1 <= l <= 5,
    ensures
        apply_event(c, EventView::Heading(l)).secs[l - 1] == c.secs[l - 1] + 1,
        forall|i: int| l <= i < 5 ==> apply_event(c, EventView::Heading(l)).secs[i] == 0,
        forall|i: int| 0 <= i < l - 1 ==> apply_event(c, EventView::Heading(l)).secs[i]
            == c.secs[i],
{
}

/// Some event of the log places the label.
pub open spec fn log_places_label(log: Seq<EventView>, target: Seq<char>) -> bool {
    exists|i: int| 0 <= i < log.len() && log[i] == EventView::Label(target)
}

/// Some entry of the host's string log places the label.
pub open spec fn entries_place_label(entries: Seq<Seq<char>>, target: Seq<char>) -> bool {
    exists|i: int|
        0 <= i < entries.len() && parse_entry(entries[i]) == Some(EventView::Label(target))
}

proof fn lemma_absent_from(c: Counters, log: Seq<EventView>, target: Seq<char>)
    requires
        !log_places_label(log, target),
    ensures
        resolve_from(c, log, target) == Seq::<char>::empty(),
    decreases log.len(),
{
    if log.len() > 0 {
        assert(!log_places_label(log.drop_first(), target)) by {
            if log_places_label(log.drop_first(), target) {
                let i = choose|i: int|
                    0 <= i < log.drop_first().len() && log.drop_first()[i] == EventView::Label(
                        target,
                    );
                assert(log[i + 1] == EventView::Label(target));
            }
        }
        match log[0] {
            EventView::Label(name) => {
                if name == target {
                    assert(log[0] == EventView::Label(target));
                    assert(log_places_label(log, target));
                } else {
                    lemma_absent_from(c, log.drop_first(), target);
                }
            },
            _ => {
                lemma_absent_from(apply_event(c, log[0]), log.drop_first(), target);
            },
        }
    }
}

/// A label that no event of the log places resolves to the empty string,
/// whatever else the log holds: an unresolved reference is silent.
pub proof fn lemma_absent_label_resolves_empty(log: Seq<EventView>, target: Seq<char>)
    requires
        !log_places_label(log, target),
    ensures
        resolve_events(log, target) == Seq::<char>::empty(),
{
    lemma_absent_from(init_counters(), log, target);
}

proof fn lemma_parse_log_places(entries: Seq<Seq<char>>, target: Seq<char>)
    requires
        log_places_label(parse_log(entries), target),
    ensures
        entries_place_label(entries, target),
    decreases entries.len(),
{
    if entries.len() > 0 {
        let head = parse_entry(entries[0]);
        if head == Some(EventView::Label(target)) {
            assert(entries_place_label(entries, target));
        } else {
            assert(log_places_label(parse_log(entries.drop_first()), target)) by {
                let i = choose|i: int|
                    0 <= i < parse_log(entries).len() && parse_log(entries)[i]
                        == EventView::Label(target);
                let tail = parse_log(entries.drop_first());
                match head {
                    Some(ev) => {
                        assert(parse_log(entries) == seq![ev] + tail);
                        assert(i != 0);
                        assert(tail[i - 1] == EventView::Label(target));
                    },
                    None => {
                        assert(parse_log(entries) == Seq::<EventView>::empty() + tail);
                        assert(tail[i] =~= parse_log(entries)[i]);
                    },
                }
            }
            lemma_parse_log_places(entries.drop_first(), target);
            let j = choose|j: int|
                0 <= j < entries.drop_first().len() && parse_entry(entries.drop_first()[j])
                    == Some(EventView::Label(target));
            assert(parse_entry(entries[j + 1]) == Some(EventView::Label(target)));
        }
    }
}

/// The same law over the host's string log: when no entry of the log is
/// `"label/"` followed by the target name, resolution returns the empty
/// string.
pub proof fn lemma_absent_entry_resolves_empty(entries: Seq<Seq<char>>, target: Seq<char>)
    requires
        !entries_place_label(entries, target),
    ensures
        resolve_entries(entries, target) == Seq::<char>::empty(),
{
    if log_places_label(parse_log(entries), target) {
        lemma_parse_log_places(entries, target);
    }
    lemma_absent_label_resolves_empty(parse_log(entries), target);
}

proof fn lemma_label_without_context_from(
    c: Counters,
    log: Seq<EventView>,
    target: Seq<char>,
    k: int,
)
    requires
        c.last is Start,
        0 <= k < log.len(),
        log[k] == EventView::Label(target),
        forall|j: int| 0 <= j < k ==> log[j] is Label,
    ensures
        resolve_from(c, log, target) == Seq::<char>::empty(),
    decreases k,
{
    match log[0] {
        EventView::Label(name) => {
            if name == target {
                assert(render_number(c) == Seq::<char>::empty());
            } else {
                assert(k != 0);
                assert(forall|j: int|
                    0 <= j < k - 1 ==> #[trigger] log.drop_first()[j] == log[j + 1]);
                lemma_label_without_context_from(c, log.drop_first(), target, k - 1);
            }
        },
        _ => {
            assert(log[0] is Label);
        },
    }
}

/// A label placed before any heading, figure or table resolves to the
/// empty string: with no structural context there is no number to show.
pub proof fn lemma_label_without_context(log: Seq<EventView>, target: Seq<char>, k: int)
    requires
        0 <= k < log.len(),
        log[k] == EventView::Label(target),
        forall|j: int| 0 <= j < k ==> log[j] is Label,
    ensures
        resolve_events(log, target) == Seq::<char>::empty(),
{
    lemma_label_without_context_from(init_counters(), log, target, k);
}

} // verus!
