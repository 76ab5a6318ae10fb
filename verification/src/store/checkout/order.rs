//! Putting loans in the order of their checkout.
//!
//! The order is stable: loans checked out at the same instant stay in the
//! order in which they were given.
use vstd::prelude::*;
use crate::database::tables::LoanRecord;

verus! {

/// Whether `a` may stand before `b`: checked out no later, where the order
/// ascends; no earlier, where it descends.
pub open spec fn may_precede(a: LoanRecord, b: LoanRecord, ascending: bool) -> bool {
    if ascending {
        a.checked_out_at <= b.checked_out_at
    } else {
        a.checked_out_at >= b.checked_out_at
    }
}

/// Whether the loans stand in order.
pub open spec fn ordered(s: Seq<LoanRecord>, ascending: bool) -> bool {
    forall|i: int, j: int| 0 <= i < j < s.len() ==> may_precede(s[i], s[j], ascending)
}

/// An ordered sequence with one more loan put in its place: behind every
/// loan that may precede it.
pub open spec fn place(s: Seq<LoanRecord>, x: LoanRecord, ascending: bool) -> Seq<LoanRecord>
    decreases s.len(),
{
    if s.len() == 0 {
        seq![x]
    } else if may_precede(s.last(), x, ascending) {
        s.push(x)
    } else {
        place(s.drop_last(), x, ascending).push(s.last())
    }
}

/// The loans in order.
pub open spec fn arrange(s: Seq<LoanRecord>, ascending: bool) -> Seq<LoanRecord>
    decreases s.len(),
{
    if s.len() == 0 {
        Seq::empty()
    } else {
        place(arrange(s.drop_last(), ascending), s.last(), ascending)
    }
}

/// Placing a loan is inserting it at the place behind which nothing may
/// precede it.
proof fn lemma_place_is_insert(s: Seq<LoanRecord>, x: LoanRecord, ascending: bool, p: int)
    requires
        0 <= p <= s.len(),
        forall|k: int| p <= k < s.len() ==> !may_precede(#[trigger] s[k], x, ascending),
        p > 0 ==> may_precede(s[p - 1], x, ascending),
    ensures
        place(s, x, ascending) == s.insert(p, x),
    decreases s.len(),
{
    if s.len() == 0 {
        assert(s.insert(p, x) =~= seq![x]);
    } else if p == s.len() {
        assert(s.insert(p, x) =~= s.push(x));
    } else {
        assert(!may_precede(s[s.len() - 1], x, ascending));
        lemma_place_is_insert(s.drop_last(), x, ascending, p);
        assert(s.drop_last().insert(p, x).push(s.last()) =~= s.insert(p, x));
    }
}

/// Placing a loan keeps the order and adds exactly that loan.
pub proof fn lemma_place(s: Seq<LoanRecord>, x: LoanRecord, ascending: bool)
    requires
        ordered(s, ascending),
    ensures
        ordered(place(s, x, ascending), ascending),
        place(s, x, ascending).len() == s.len() + 1,
        place(s, x, ascending).to_multiset() == s.to_multiset().insert(x),
    decreases s.len(),
{
    broadcast use vstd::seq_lib::group_to_multiset_ensures;

    let r = place(s, x, ascending);
    if s.len() == 0 {
        assert(s =~= Seq::empty());
        assert(r =~= Seq::<LoanRecord>::empty().push(x));
    } else if may_precede(s.last(), x, ascending) {
        assert forall|i: int, j: int| 0 <= i < j < r.len() implies may_precede(
            r[i],
            r[j],
            ascending,
        ) by {
            if j == s.len() {
                if i < s.len() - 1 {
                    assert(may_precede(s[i], s[s.len() - 1], ascending));
                }
            }
        }
    } else {
        let front = s.drop_last();
        assert forall|i: int, j: int| 0 <= i < j < front.len() implies may_precede(
            front[i],
            front[j],
            ascending,
        ) by {
            assert(may_precede(s[i], s[j], ascending));
        }
        lemma_place(front, x, ascending);
        let inner = place(front, x, ascending);
        assert(s =~= front.push(s.last()));
        assert(s.to_multiset() == front.to_multiset().insert(s.last()));
        assert(r.to_multiset() == inner.to_multiset().insert(s.last()));
        assert(r.to_multiset() =~= s.to_multiset().insert(x));
        // every loan of `inner` is `x` or a loan of `front`
        assert forall|i: int, j: int| 0 <= i < j < r.len() implies may_precede(
            r[i],
            r[j],
            ascending,
        ) by {
            if j == inner.len() {
                // r[j] is the last of s; r[i] is of inner
                assert(inner.to_multiset().count(inner[i]) > 0);
                if inner[i] == x {
                } else {
                    assert(front.to_multiset().count(inner[i]) > 0);
                    let k = choose|k: int| 0 <= k < front.len() && front[k] == inner[i];
                    assert(may_precede(s[k], s[s.len() - 1], ascending));
                }
            } else {
                assert(may_precede(inner[i], inner[j], ascending));
            }
        }
    }
}

/// Arranging puts the loans in order, and keeps each of them, as often as
/// it was there.
pub proof fn lemma_arrange(s: Seq<LoanRecord>, ascending: bool)
    ensures
        ordered(arrange(s, ascending), ascending),
        arrange(s, ascending).len() == s.len(),
        arrange(s, ascending).to_multiset() == s.to_multiset(),
    decreases s.len(),
{
    broadcast use vstd::seq_lib::group_to_multiset_ensures;

    if s.len() == 0 {
        assert(s =~= Seq::empty());
    } else {
        lemma_arrange(s.drop_last(), ascending);
        lemma_place(arrange(s.drop_last(), ascending), s.last(), ascending);
        assert(s =~= s.drop_last().push(s.last()));
    }
}

/// Arranging brings up no loan that was not given.
pub proof fn lemma_arrange_members(s: Seq<LoanRecord>, ascending: bool, i: int)
    requires
        0 <= i < arrange(s, ascending).len(),
    ensures
        s.contains(arrange(s, ascending)[i]),
{
    broadcast use vstd::seq_lib::group_to_multiset_ensures;

    lemma_arrange(s, ascending);
    let x = arrange(s, ascending)[i];
    assert(arrange(s, ascending).contains(x));
    assert(arrange(s, ascending).to_multiset().count(x) > 0);
    assert(s.to_multiset().count(x) > 0);
}

/// Whether `a` may stand before `b`.
fn precedes(a: &LoanRecord, b: &LoanRecord, ascending: bool) -> (r: bool)
    ensures
        r == may_precede(*a, *b, ascending),
{
    if ascending {
        a.checked_out_at <= b.checked_out_at
    } else {
        a.checked_out_at >= b.checked_out_at
    }
}

/// Puts loans in the order of their checkout, ascending or descending.
pub fn arrange_loans(loans: Vec<LoanRecord>, ascending: bool) -> (r: Vec<LoanRecord>)
    ensures
        r@ == arrange(loans@, ascending),
{
    let mut result: Vec<LoanRecord> = Vec::new();
    let mut i: usize = 0;
    while i < loans.len()
        invariant
            i <= loans.len(),
            result@ == arrange(loans@.take(i as int), ascending),
            result@.len() == i,
        decreases loans.len() - i,
    {
        let x = loans[i];
        let mut p: usize = result.len();
        while p > 0 && !precedes(&result[p - 1], &x, ascending)
            invariant
                p <= result.len(),
                forall|k: int|
                    p <= k < result.len() ==> !may_precede(#[trigger] result@[k], x, ascending),
            decreases p,
        {
            p -= 1;
        }
        proof {
            lemma_place_is_insert(result@, x, ascending, p as int);
            assert(loans@.take(i + 1).drop_last() =~= loans@.take(i as int));
            assert(loans@.take(i + 1).last() == x);
        }
        result.insert(p, x);
        i += 1;
    }
    assert(loans@.take(loans.len() as int) =~= loans@);
    result
}

} // verus!
