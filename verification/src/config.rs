//! Sampling cadences and the cadence that each event kind is assigned to.

use vstd::prelude::*;
use std::collections::HashMap;
use crate::event::{EventKind, Taxonomy};

verus! {

/// The seconds of a week, the period of the weekly cadence.
pub const WEEK: i64 = 604_800;

/// How often an event kind is collected and uploaded.
#[derive(Clone, Copy, Debug, PartialEq, Eq, Structural)]
pub enum SamplingFrequency {
    Daily,
    Weekly,
}

impl SamplingFrequency {
    /// Whether the cadence is due at `now` when its last successful run was
    /// at `last`. The daily cadence keeps no time and is due at every run;
    /// the weekly one is due once a week or more has gone by.
    pub open spec fn due(self, last: int, now: int) -> bool {
        match self {
            SamplingFrequency::Daily => true,
            SamplingFrequency::Weekly => now - last >= WEEK,
        }
    }

    /// Whether the cadence is due at `now`, both times in seconds.
    pub fn is_due(self, last: i64, now: i64) -> (due: bool)
        ensures
            due == self.due(last as int, now as int),
    {
        match self {
            SamplingFrequency::Daily => true,
            SamplingFrequency::Weekly => {
                let elapsed: i128 = now as i128 - last as i128;
                elapsed >= WEEK as i128
            },
        }
    }
}

/// The cadence of each event kind that has one.
pub struct Frequencies {
    by_kind: HashMap<usize, SamplingFrequency>,
}

impl View for Frequencies {
    type V = Map<usize, SamplingFrequency>;

    closed spec fn view(&self) -> Map<usize, SamplingFrequency> {
        self.by_kind@
    }
}

impl Frequencies {
    /// No kind has a cadence.
    pub fn new() -> (frequencies: Frequencies)
        ensures
            frequencies@ == Map::<usize, SamplingFrequency>::empty(),
    {
        Frequencies { by_kind: HashMap::new() }
    }

    /// Assigns `kind` to `frequency`, in place of the cadence it had.
    pub fn set(&mut self, kind: EventKind, frequency: SamplingFrequency)
        ensures
            final(self)@ == old(self)@.insert(kind.index, frequency),
    {
        self.by_kind.insert(kind.index, frequency);
    }

    /// The cadence of `kind`, if it has one.
    pub fn get(&self, kind: EventKind) -> (frequency: Option<SamplingFrequency>)
        ensures
            frequency == if self@.contains_key(kind.index) {
                Some(self@[kind.index])
            } else {
                None
            },
    {
        match self.by_kind.get(&kind.index) {
            Some(frequency) => Some(*frequency),
            None => None,
        }
    }
}

/// Whether the kind at `index` is assigned to `cadence`.
pub open spec fn sampled(
    frequencies: Map<usize, SamplingFrequency>,
    cadence: SamplingFrequency,
    index: int,
) -> bool {
    frequencies.contains_key(index as usize) && frequencies[index as usize] == cadence
}

/// The kinds among the first `count` that are assigned to `cadence`, in the
/// order of the schema.
pub open spec fn selected(
    count: nat,
    frequencies: Map<usize, SamplingFrequency>,
    cadence: SamplingFrequency,
) -> Seq<EventKind>
    decreases count,
{
    if count == 0 {
        Seq::empty()
    } else {
        let before = selected((count - 1) as nat, frequencies, cadence);
        if sampled(frequencies, cadence, count - 1) {
            before.push(EventKind { index: (count - 1) as usize })
        } else {
            before
        }
    }
}

/// The kinds of the taxonomy that are assigned to `cadence`, in the order of
/// the schema.
pub fn kinds_at(taxonomy: &Taxonomy, frequencies: &Frequencies, cadence: SamplingFrequency) -> (kinds:
    Vec<EventKind>)
    ensures
        kinds@ == selected(taxonomy@.len(), frequencies@, cadence),
{
    let count = taxonomy.len();
    let mut kinds: Vec<EventKind> = Vec::new();
    let mut i: usize = 0;
    while i < count
        invariant
            i <= count,
            kinds@ == selected(i as nat, frequencies@, cadence),
        decreases count - i,
    {
        let kind = EventKind { index: i };
        if let Some(frequency) = frequencies.get(kind) {
            if frequency == cadence {
                kinds.push(kind);
            }
        }
        i += 1;
    }
    kinds
}

/// A kind is selected exactly when it is one of the first `count` and
/// assigned to the cadence; the selected kinds stand in rising order.
pub proof fn lemma_selected(
    count: nat,
    frequencies: Map<usize, SamplingFrequency>,
    cadence: SamplingFrequency,
)
    requires
        count <= usize::MAX,
    ensures
        forall|kind: EventKind|
            selected(count, frequencies, cadence).contains(kind) <==> kind.index < count && sampled(
                frequencies,
                cadence,
                kind.index as int,
            ),
        forall|i: int, j: int|
            0 <= i < j < selected(count, frequencies, cadence).len() ==> selected(
                count,
                frequencies,
                cadence,
            )[i].index < selected(count, frequencies, cadence)[j].index,
    decreases count,
{
    let all = selected(count, frequencies, cadence);
    if count > 0 {
        let before = selected((count - 1) as nat, frequencies, cadence);
        lemma_selected((count - 1) as nat, frequencies, cadence);
        let last = EventKind { index: (count - 1) as usize };
        assert forall|kind: EventKind| all.contains(kind) <==> kind.index < count && sampled(
            frequencies,
            cadence,
            kind.index as int,
        ) by {
            if sampled(frequencies, cadence, count - 1) {
                assert(all[all.len() - 1] == last);
                if before.contains(kind) {
                    let at = choose|at: int| 0 <= at < before.len() && before[at] == kind;
                    assert(all[at] == kind);
                }
            }
        }
        assert forall|i: int, j: int| 0 <= i < j < all.len() implies all[i].index
            < all[j].index by {
            if j == before.len() {
                assert(before.contains(before[i]));
            }
        }
    }
}

} // verus!
