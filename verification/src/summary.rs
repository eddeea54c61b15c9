//! Accumulated scores of a group of activities.

use vstd::prelude::*;

verus! {

/// The mathematical content of a summary: four unbounded totals.
pub struct SummaryTotals {
    pub score: int,
    pub weighted_score: int,
    pub weight: int,
    pub count: int,
}

impl SummaryTotals {
    /// The additive identity.
    pub open spec fn zero() -> SummaryTotals {
        SummaryTotals { score: 0, weighted_score: 0, weight: 0, count: 0 }
    }

    /// Component-wise addition.
    pub open spec fn plus(self, other: SummaryTotals) -> SummaryTotals {
        SummaryTotals {
            score: self.score + other.score,
            weighted_score: self.weighted_score + other.weighted_score,
            weight: self.weight + other.weight,
            count: self.count + other.count,
        }
    }

    /// Whether every total fits a machine word.
    pub open spec fn fits(self) -> bool {
        &&& 0 <= self.score <= u64::MAX
        &&& 0 <= self.weighted_score <= u64::MAX
        &&& 0 <= self.weight <= u64::MAX
        &&& 0 <= self.count <= u64::MAX
    }
}

/// The sum of a sequence of totals, taken from the left.
pub open spec fn sum_totals(items: Seq<SummaryTotals>) -> SummaryTotals
    decreases items.len(),
{
    if items.len() == 0 {
        SummaryTotals::zero()
    } else {
        sum_totals(items.drop_last()).plus(items.last())
    }
}

/// Score, weighted score, weight and number of the activities of one group.
#[derive(Clone, Copy, Debug, PartialEq, Eq, Structural)]
pub struct Summary {
    pub bc: u64,
    pub weighted_bc: u64,
    pub weight: u64,
    pub count: u64,
}

impl View for Summary {
    type V = SummaryTotals;

    open spec fn view(&self) -> SummaryTotals {
        SummaryTotals {
            score: self.bc as int,
            weighted_score: self.weighted_bc as int,
            weight: self.weight as int,
            count: self.count as int,
        }
    }
}

impl Default for Summary {
    /// The summary of no activity: the identity of addition.
    fn default() -> (summary: Summary)
        ensures
            summary@ == SummaryTotals::zero(),
    {
        Summary { bc: 0, weighted_bc: 0, weight: 0, count: 0 }
    }
}

impl Summary {
    /// Adds `other` to this summary, component by component.
    pub fn add_assign(&mut self, other: Summary)
        requires
            old(self)@.plus(other@).fits(),
        ensures
            final(self)@ == old(self)@.plus(other@),
    {
        *self = Summary {
            bc: self.bc + other.bc,
            weighted_bc: self.weighted_bc + other.weighted_bc,
            weight: self.weight + other.weight,
            count: self.count + other.count,
        };
    }

    /// Adds `other` to this summary where every total still fits a machine
    /// word, and leaves the summary as it is where one does not.
    pub fn checked_add_assign(&mut self, other: Summary) -> (added: bool)
        ensures
            added == old(self)@.plus(other@).fits(),
            added ==> final(self)@ == old(self)@.plus(other@),
            !added ==> *final(self) == *old(self),
    {
        if other.bc <= u64::MAX - self.bc && other.weighted_bc <= u64::MAX - self.weighted_bc
            && other.weight <= u64::MAX - self.weight && other.count <= u64::MAX - self.count {
            self.add_assign(other);
            true
        } else {
            false
        }
    }
}

/// Within the machine's range, adding `b` to `a` and adding `a` to `b` give
/// the same summary, field by field.
pub proof fn add_assign_commutes(a: Summary, b: Summary, a_then_b: Summary, b_then_a: Summary)
    requires
        a_then_b@ == a@.plus(b@),
        b_then_a@ == b@.plus(a@),
    ensures
        a_then_b == b_then_a,
{
}

/// Within the machine's range, adding three summaries one after the other
/// gives the same summary however they are grouped.
pub proof fn add_assign_associates(
    a: Summary,
    b: Summary,
    c: Summary,
    left: Summary,
    right: Summary,
)
    requires
        left@ == a@.plus(b@).plus(c@),
        right@ == a@.plus(b@.plus(c@)),
    ensures
        left == right,
{
}

/// Addition of summaries does not depend on the order of its operands.
pub proof fn plus_commutative(a: SummaryTotals, b: SummaryTotals)
    ensures
        a.plus(b) == b.plus(a),
{
}

/// Addition of summaries does not depend on how the operands are grouped.
pub proof fn plus_associative(a: SummaryTotals, b: SummaryTotals, c: SummaryTotals)
    ensures
        a.plus(b).plus(c) == a.plus(b.plus(c)),
{
}

/// The default summary is neutral for addition, on either side.
pub proof fn plus_identity(a: SummaryTotals)
    ensures
        a.plus(SummaryTotals::zero()) == a,
        SummaryTotals::zero().plus(a) == a,
{
}

/// Three contributions merged in any of their six orders give the same
/// totals.
pub proof fn merge_order_irrelevant(a: SummaryTotals, b: SummaryTotals, c: SummaryTotals)
    ensures
        sum_totals(seq![a, b, c]) == a.plus(b).plus(c),
        sum_totals(seq![a, b, c]) == sum_totals(seq![a, c, b]),
        sum_totals(seq![a, b, c]) == sum_totals(seq![b, a, c]),
        sum_totals(seq![a, b, c]) == sum_totals(seq![b, c, a]),
        sum_totals(seq![a, b, c]) == sum_totals(seq![c, a, b]),
        sum_totals(seq![a, b, c]) == sum_totals(seq![c, b, a]),
{
    sum_of_three(a, b, c);
    sum_of_three(a, c, b);
    sum_of_three(b, a, c);
    sum_of_three(b, c, a);
    sum_of_three(c, a, b);
    sum_of_three(c, b, a);
}

proof fn sum_is_fold(
    items: Seq<SummaryTotals>,
    merge: spec_fn(SummaryTotals, SummaryTotals) -> SummaryTotals,
)
    requires
        forall|a: SummaryTotals, b: SummaryTotals| #[trigger] merge(a, b) == a.plus(b),
    ensures
        sum_totals(items) == items.fold_left(SummaryTotals::zero(), merge),
    decreases items.len(),
{
    if items.len() > 0 {
        sum_is_fold(items.drop_last(), merge);
    }
}

/// Contributions merged in any order give the same totals: two sequences
/// that hold the same contributions, each as often as the other, have the
/// same sum.
pub proof fn sum_in_any_order(first: Seq<SummaryTotals>, second: Seq<SummaryTotals>)
    requires
        first.to_multiset() == second.to_multiset(),
    ensures
        sum_totals(first) == sum_totals(second),
{
    let merge = |total: SummaryTotals, part: SummaryTotals| total.plus(part);
    assert(vstd::seq_lib::commutative_foldl(merge));
    sum_is_fold(first, merge);
    sum_is_fold(second, merge);
    vstd::seq_lib::lemma_fold_left_permutation(first, second, merge, SummaryTotals::zero());
}

proof fn sum_of_three(a: SummaryTotals, b: SummaryTotals, c: SummaryTotals)
    ensures
        sum_totals(seq![a, b, c]) == a.plus(b).plus(c),
{
    let s3 = seq![a, b, c];
    let s2 = seq![a, b];
    let s1 = seq![a];
    assert(s3.drop_last() =~= s2);
    assert(s2.drop_last() =~= s1);
    assert(s1.drop_last() =~= Seq::<SummaryTotals>::empty());
    assert(sum_totals(s1.drop_last()) == SummaryTotals::zero());
    assert(sum_totals(s1) == SummaryTotals::zero().plus(a));
    assert(sum_totals(s2) == sum_totals(s1).plus(b));
    assert(sum_totals(s3) == sum_totals(s2).plus(c));
}

} // verus!
