//! The counter state derived from the structure log: five section
//! counters, a figure counter, a table counter and the last-kind marker.
//! It is never stored; every resolution call folds the log from the
//! start with `apply_event` and projects a display number with
//! `render_number` at the step where the scan halts.

use vstd::prelude::*;

use crate::events::EventView;
use crate::strutil::dec_digits;
use crate::strutil::push_char;
use crate::strutil::u64_to_dec;

verus! {

/// The kind of the most recent structural event, which decides the
/// numbering scheme of a label.
#[derive(Clone, Copy, Debug)]
pub enum LastKind {
    /// No heading, figure or table has been seen yet.
    Start,
    Heading,
    Figure,
    Table,
}

/// Mathematical counter state: section counters for levels one to five,
/// the figure and table counters, and the last-kind marker.
#[verifier::ext_equal]
pub struct Counters {
    pub secs: Seq<nat>,
    pub fig: nat,
    pub tab: nat,
    pub last: LastKind,
}

/// The fresh state at the start of every resolution call.
pub open spec fn init_counters() -> Counters {
    Counters {
        secs: seq![0nat, 0nat, 0nat, 0nat, 0nat],
        fig: 0,
        tab: 0,
        last: LastKind::Start,
    }
}

/// One step of the fold. A heading of level one to five resets every
/// deeper section counter, steps its own, and for level one starts the
/// chapter-scoped figure and table counters over; a level-six heading
/// has no counter of its own and only marks the last kind. A label
/// leaves the state as it is.
pub open spec fn apply_event(c: Counters, ev: EventView) -> Counters {
    match ev {
        EventView::Heading(l) => {
            if 1 <= l <= 5 {
                Counters {
                    secs: Seq::new(
                        5,
                        |i: int|
                            if i + 1 > l {
                                0nat
                            } else if i + 1 == l {
                                (c.secs[i] + 1) as nat
                            } else {
                                c.secs[i]
                            },
                    ),
                    fig: if l == 1 {
                        0nat
                    } else {
                        c.fig
                    },
                    tab: if l == 1 {
                        0nat
                    } else {
                        c.tab
                    },
                    last: LastKind::Heading,
                }
            } else if l == 6 {
                Counters { secs: c.secs, fig: c.fig, tab: c.tab, last: LastKind::Heading }
            } else {
                c
            }
        },
        EventView::Figure => Counters {
            secs: c.secs,
            fig: c.fig + 1,
            tab: c.tab,
            last: LastKind::Figure,
        },
        EventView::Table => Counters {
            secs: c.secs,
            fig: c.fig,
            tab: c.tab + 1,
            last: LastKind::Table,
        },
        EventView::Label(_) => c,
    }
}

/// Every counter is at most the given bound.
pub open spec fn counters_le(c: Counters, b: nat) -> bool {
    &&& c.fig <= b
    &&& c.tab <= b
    &&& forall|i: int| 0 <= i < c.secs.len() ==> c.secs[i] <= b
}

/// One fold step raises no counter by more than one.
pub proof fn lemma_apply_event_bound(c: Counters, ev: EventView, b: nat)
    requires
        c.secs.len() == 5,
        counters_le(c, b),
    ensures
        apply_event(c, ev).secs.len() == 5,
        counters_le(apply_event(c, ev), b + 1),
{
}

/// How many leading section counters are nonzero.
pub open spec fn nonzero_prefix_len(s: Seq<nat>) -> nat
    decreases s.len(),
{
    if s.len() == 0 || s[0] == 0 {
        0
    } else {
        (1 + nonzero_prefix_len(s.drop_first())) as nat
    }
}

/// The nonzero prefix ends exactly at the first zero.
pub proof fn lemma_nonzero_prefix_len(s: Seq<nat>)
    ensures
        nonzero_prefix_len(s) <= s.len(),
        forall|i: int| 0 <= i < nonzero_prefix_len(s) ==> s[i] != 0,
        nonzero_prefix_len(s) < s.len() ==> s[nonzero_prefix_len(s) as int] == 0,
    decreases s.len(),
{
    if s.len() == 0 || s[0] == 0 {
    } else {
        lemma_nonzero_prefix_len(s.drop_first());
        let k = nonzero_prefix_len(s.drop_first());
        assert forall|i: int| 0 <= i < nonzero_prefix_len(s) implies s[i] != 0 by {
            if i > 0 {
                assert(s.drop_first()[i - 1] != 0);
            }
        }
    }
}

/// The counters joined with dots, each in decimal.
pub open spec fn spec_number_list(s: Seq<nat>) -> Seq<char>
    decreases s.len(),
{
    if s.len() == 0 {
        Seq::empty()
    } else if s.len() == 1 {
        dec_digits(s[0])
    } else {
        spec_number_list(s.drop_last()) + seq!['.'] + dec_digits(s.last())
    }
}

/// The display number that the state projects at the matching label:
/// chapter dot figure count after a figure, chapter dot table count
/// after a table, the nonzero prefix of the section counters after a
/// heading, and nothing when no structural event came before.
pub open spec fn render_number(c: Counters) -> Seq<char> {
    match c.last {
        LastKind::Figure => dec_digits(c.secs[0]) + seq!['.'] + dec_digits(c.fig),
        LastKind::Table => dec_digits(c.secs[0]) + seq!['.'] + dec_digits(c.tab),
        LastKind::Heading => spec_number_list(c.secs.take(nonzero_prefix_len(c.secs) as int)),
        LastKind::Start => Seq::empty(),
    }
}

/// Executable counter state, the fold's working copy.
pub struct CounterState {
    pub secs: Vec<u64>,
    pub fig: u64,
    pub tab: u64,
    pub last: LastKind,
}

impl View for CounterState {
    type V = Counters;

    open spec fn view(&self) -> Counters {
        Counters {
            secs: self.secs@.map_values(|v: u64| v as nat),
            fig: self.fig as nat,
            tab: self.tab as nat,
            last: self.last,
        }
    }
}

impl CounterState {
    /// The five section counters are present.
    pub open spec fn wf(&self) -> bool {
        self.secs.len() == 5
    }

    /// The fresh state at the start of a resolution call.
    pub fn new() -> (r: CounterState)
        ensures
            r.wf(),
            r@ == init_counters(),
    {
        let r = CounterState { secs: vec![0u64, 0u64, 0u64, 0u64, 0u64], fig: 0, tab: 0, last: LastKind::Start };
        proof {
            assert(r@ =~= init_counters());
        }
        r
    }

    /// Folds one event into the state.
    pub fn apply(&mut self, ev: &crate::events::StructureEvent)
        requires
            old(self).wf(),
            counters_le(old(self)@, (u64::MAX - 1) as nat),
        ensures
            final(self).wf(),
            final(self)@ == apply_event(old(self)@, ev@),
    {
        match ev {
            crate::events::StructureEvent::Heading(l) => {
                let lv = *l;
                if 1 <= lv && lv <= 5 {
                    let li = lv as usize;
                    let mut j: usize = li;
                    while j < 5
                        invariant
                            li <= j <= 5,
                            self.secs.len() == 5,
                            self.fig == old(self).fig,
                            self.tab == old(self).tab,
                            self.last == old(self).last,
                            forall|i: int| 0 <= i < li ==> self.secs@[i] == old(self).secs@[i],
                            forall|i: int| li <= i < j ==> self.secs@[i] == 0,
                            forall|i: int| j <= i < 5 ==> self.secs@[i] == old(self).secs@[i],
                        decreases 5 - j,
                    {
                        self.secs[j] = 0;
                        j = j + 1;
                    }
                    proof {
                        assert(old(self)@.secs[li as int - 1] == old(self).secs@[li as int
                            - 1] as nat);
                    }
                    let stepped = self.secs[li - 1] + 1;
                    self.secs[li - 1] = stepped;
                    if lv == 1 {
                        self.fig = 0;
                        self.tab = 0;
                    }
                    self.last = LastKind::Heading;
                    proof {
                        assert(self@ =~= apply_event(old(self)@, ev@));
                    }
                } else if lv == 6 {
                    self.last = LastKind::Heading;
                    proof {
                        assert(self@ =~= apply_event(old(self)@, ev@));
                    }
                } else {
                    proof {
                        assert(self@ =~= apply_event(old(self)@, ev@));
                    }
                }
            },
            crate::events::StructureEvent::FigurePlaced => {
                self.fig = self.fig + 1;
                self.last = LastKind::Figure;
                proof {
                    assert(self@ =~= apply_event(old(self)@, ev@));
                }
            },
            crate::events::StructureEvent::TablePlaced => {
                self.tab = self.tab + 1;
                self.last = LastKind::Table;
                proof {
                    assert(self@ =~= apply_event(old(self)@, ev@));
                }
            },
            crate::events::StructureEvent::Label(_) => {
                proof {
                    assert(self@ =~= apply_event(old(self)@, ev@));
                }
            },
        }
    }

    /// Projects the display number of the current state.
    pub fn render(&self) -> (r: String)
        requires
            self.wf(),
        ensures
            r@ == render_number(self@),
    {
        match self.last {
            LastKind::Start => String::new(),
            LastKind::Figure => {
                let mut s = u64_to_dec(self.secs[0]);
                push_char(&mut s, '.');
                let f = u64_to_dec(self.fig);
                s.append(f.as_str());
                proof {
                    assert(s@ =~= render_number(self@));
                }
                s
            },
            LastKind::Table => {
                let mut s = u64_to_dec(self.secs[0]);
                push_char(&mut s, '.');
                let t = u64_to_dec(self.tab);
                s.append(t.as_str());
                proof {
                    assert(s@ =~= render_number(self@));
                }
                s
            },
            LastKind::Heading => {
                let ghost m = self@.secs;
                let mut k: usize = 0;
                while k < 5 && self.secs[k] != 0
                    invariant
                        self.wf(),
                        k <= 5,
                        m == self@.secs,
                        forall|i: int| 0 <= i < k ==> m[i] != 0,
                    decreases 5 - k,
                {
                    k = k + 1;
                }
                proof {
                    lemma_nonzero_prefix_len(m);
                    assert(k == nonzero_prefix_len(m)) by {
                        let z = nonzero_prefix_len(m);
                        if k < z {
                            assert(m[k as int] != 0);
                        }
                        if z < k {
                            assert(m[z as int] != 0);
                        }
                    }
                }
                let mut s = String::new();
                let mut i: usize = 0;
                while i < k
                    invariant
                        self.wf(),
                        i <= k <= 5,
                        m == self@.secs,
                        s@ == spec_number_list(m.take(i as int)),
                    decreases k - i,
                {
                    if i > 0 {
                        push_char(&mut s, '.');
                    }
                    let d = u64_to_dec(self.secs[i]);
                    s.append(d.as_str());
                    proof {
                        assert(m.take(i as int + 1).drop_last() =~= m.take(i as int));
                        assert(s@ =~= spec_number_list(m.take(i as int + 1)));
                    }
                    i = i + 1;
                }
                proof {
                    assert(s@ =~= render_number(self@));
                }
                s
            },
        }
    }
}

} // verus!
