//! What switches have been observed to take.

use vstd::prelude::*;

use crate::names::NameMap;
use crate::policy::opt_nanos;
use crate::time::Duration;
use crate::types::opt_name;

verus! {

/// A switch from one model, or from none, to another.
pub type SwitchPair = (Option<Seq<char>>, Seq<char>);

/// Smoothed durations of the switches that were observed, by direction.
///
/// The view maps each observed switch to its estimated nanoseconds.
pub struct SwitchCostTracker {
    cold: NameMap<Duration>,
    warm: NameMap<NameMap<Duration>>,
}

impl View for SwitchCostTracker {
    type V = Map<SwitchPair, nat>;

    closed spec fn view(&self) -> Map<SwitchPair, nat> {
        Map::new(
            |p: SwitchPair| self.row(p.0).contains_key(p.1),
            |p: SwitchPair| self.row(p.0)[p.1]@,
        )
    }
}

/// The estimate of one switch.
pub open spec fn estimate_of(costs: Map<SwitchPair, nat>, from: Option<Seq<char>>, to: Seq<char>)
    -> Option<nat> {
    if costs.contains_key((from, to)) {
        Some(costs[(from, to)])
    } else {
        None
    }
}

/// The estimates after a switch was observed: the first observation stands as it is, and a later
/// one is smoothed.
pub open spec fn observed(
    costs: Map<SwitchPair, nat>,
    from: Option<Seq<char>>,
    to: Seq<char>,
    took: nat,
    smoothed: nat,
) -> Map<SwitchPair, nat> {
    costs.insert(
        (from, to),
        if costs.contains_key((from, to)) {
            smoothed
        } else {
            took
        },
    )
}

impl SwitchCostTracker {
    spec fn row(self, from: Option<Seq<char>>) -> Map<Seq<char>, Duration> {
        match from {
            None => self.cold@,
            Some(f) => if self.warm@.contains_key(f) {
                self.warm@[f]@
            } else {
                Map::empty()
            },
        }
    }

    /// A tracker that has observed nothing.
    pub fn new() -> (costs: SwitchCostTracker)
        ensures
            costs@ == Map::<SwitchPair, nat>::empty(),
    {
        let costs = SwitchCostTracker { cold: NameMap::new(), warm: NameMap::new() };
        assert(costs@ =~= Map::<SwitchPair, nat>::empty());
        costs
    }

    /// The estimate of one switch; `from` is nothing for a cold start.
    pub fn estimate(&self, from: Option<&str>, to: &str) -> (cost: Option<Duration>)
        ensures
            opt_nanos(cost) == estimate_of(
                self@,
                match from {
                    Some(f) => Some(f@),
                    None => None,
                },
                to@,
            ),
    {
        let row = match from {
            None => Some(&self.cold),
            Some(f) => self.warm.get(f),
        };
        match row {
            Some(row) => match row.get(to) {
                Some(d) => Some(*d),
                None => None,
            },
            None => None,
        }
    }

    /// The estimates of the switches from one model, or of the cold starts.
    pub fn estimates_from(&self, from: &Option<String>) -> (costs: NameMap<Duration>)
        ensures
            forall|to: Seq<char>| #[trigger]
                costs@.contains_key(to) <==> self@.contains_key((opt_name(*from), to)),
            forall|to: Seq<char>| #[trigger]
                costs@.contains_key(to) ==> costs@[to]@ == self@[(opt_name(*from), to)],
    {
        let row = match from {
            None => Some(&self.cold),
            Some(f) => self.warm.get(f.as_str()),
        };
        match row {
            Some(row) => copy_row(row),
            None => NameMap::new(),
        }
    }

    /// Takes note of a switch that `took` some time, given the smoothed duration for the case that
    /// the switch has been observed before.
    pub fn record(&mut self, from: &Option<String>, to: &str, took: Duration, smoothed: Duration)
        ensures
            final(self)@ == observed(old(self)@, opt_name(*from), to@, took@, smoothed@),
    {
        match from {
            None => {
                let cost = if self.cold.contains_key(to) {
                    smoothed
                } else {
                    took
                };
                self.cold.insert(to.to_owned(), cost);
            },
            Some(f) => {
                let mut row: NameMap<Duration> = NameMap::new();
                let _known = self.warm.swap(f.as_str(), &mut row);
                let cost = if row.contains_key(to) {
                    smoothed
                } else {
                    took
                };
                row.insert(to.to_owned(), cost);
                self.warm.insert(f.clone(), row);
            },
        }
        assert(self@ =~= observed(old(self)@, opt_name(*from), to@, took@, smoothed@));
    }
}

/// A copy of a table of durations.
fn copy_row(row: &NameMap<Duration>) -> (copy: NameMap<Duration>)
    ensures
        copy@ == row@,
{
    let n = row.len();
    let mut copy: NameMap<Duration> = NameMap::new();
    let mut i: usize = 0;
    while i < n
        invariant
            i <= n,
            n == row.names().len(),
            row.keyed(),
            forall|k: Seq<char>| #[trigger]
                copy@.contains_key(k) ==> row@.contains_key(k) && copy@[k] == row@[k],
            forall|j: int| 0 <= j < i ==> copy@.contains_key(#[trigger] row.names()[j]),
        decreases n - i,
    {
        copy.insert(row.name_at(i).clone(), *row.value_at(i));
        i = i + 1;
    }
    assert forall|k: Seq<char>| #[trigger] row@.contains_key(k) implies copy@.contains_key(k) by {
        assert(row.names().contains(k));
        let j = choose|j: int| 0 <= j < row.names().len() && row.names()[j] == k;
        assert(copy@.contains_key(row.names()[j]));
    }
    assert(copy@ =~= row@);
    copy
}

/// Estimates are directional: observing a switch says nothing of any other pair of models, the
/// reverse one among them, and afterwards the observed pair has an estimate.
pub proof fn law_costs_directional(
    costs: Map<SwitchPair, nat>,
    from: Option<Seq<char>>,
    to: Seq<char>,
    took: nat,
    smoothed: nat,
    other: SwitchPair,
)
    requires
        other != (from, to),
    ensures
        estimate_of(observed(costs, from, to, took, smoothed), from, to) is Some,
        estimate_of(observed(costs, from, to, took, smoothed), other.0, other.1) == estimate_of(
            costs,
            other.0,
            other.1,
        ),
{
}

/// A pair has an estimate exactly when it was observed, and the estimate is what was kept of it.
pub proof fn law_estimate_is_what_was_kept(
    costs: Map<SwitchPair, nat>,
    from: Option<Seq<char>>,
    to: Seq<char>,
)
    ensures
        estimate_of(costs, from, to) is Some <==> costs.contains_key((from, to)),
        costs.contains_key((from, to)) ==> estimate_of(costs, from, to) == Some(costs[(from, to)]),
{
}

/// The first observation of a pair is its estimate, and each later one makes the smoothed duration
/// its estimate; no other pair gains, loses or changes one.
pub proof fn law_observation_is_kept(
    costs: Map<SwitchPair, nat>,
    from: Option<Seq<char>>,
    to: Seq<char>,
    took: nat,
    smoothed: nat,
    other: SwitchPair,
)
    requires
        other != (from, to),
    ensures
        ({
            let after = observed(costs, from, to, took, smoothed);
            &&& after.contains_key((from, to))
            &&& !costs.contains_key((from, to)) ==> after[(from, to)] == took
            &&& costs.contains_key((from, to)) ==> after[(from, to)] == smoothed
            &&& after.contains_key(other) <==> costs.contains_key(other)
            &&& costs.contains_key(other) ==> after[other] == costs[other]
        }),
{
}

} // verus!
