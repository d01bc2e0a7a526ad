//! The auction of one cycle: the bids in the order they came, and the rule
//! that picks the winner.

use vstd::prelude::*;
use crate::constants::MAX_BID_AMOUNT;
use crate::state::pubkey::Pubkey;

verus! {

/// One bid.
#[derive(Clone, Copy, Debug, PartialEq, Eq)]
pub struct BidEntry {
    pub bidder: Pubkey,
    pub amount: u64,
}

/// The auction of one cycle of one pool.
#[derive(Clone, Debug, PartialEq, Eq)]
pub struct BidState {
    /// The pool the auction belongs to.
    pub pool: Pubkey,
    /// The cycle the auction is for.
    pub cycle: u8,
    /// The bids; in the order they were submitted until the auction is
    /// resolved, highest first afterwards.
    pub bids: Vec<BidEntry>,
    /// The winner, once resolved.
    pub winner: Option<Pubkey>,
}

/// An auction as a mathematical value.
pub struct BidStateView {
    pub pool: Pubkey,
    pub cycle: u8,
    pub bids: Seq<BidEntry>,
    pub winner: Option<Pubkey>,
}

impl View for BidState {
    type V = BidStateView;

    open spec fn view(&self) -> BidStateView {
        BidStateView { pool: self.pool, cycle: self.cycle, bids: self.bids@, winner: self.winner }
    }
}

/// `w` is the position of the winning bid: no bid is higher, and every
/// earlier bid is strictly lower.
pub open spec fn is_winning_index(bids: Seq<BidEntry>, w: int) -> bool {
    &&& 0 <= w < bids.len()
    &&& forall|j: int| 0 <= j < bids.len() ==> (#[trigger] bids[j]).amount <= bids[w].amount
    &&& forall|j: int| 0 <= j < w ==> (#[trigger] bids[j]).amount < bids[w].amount
}

/// The position of the winning bid among `bids`, which must not be empty.
pub open spec fn winning_index(bids: Seq<BidEntry>) -> int {
    choose|w: int| is_winning_index(bids, w)
}

/// The winning bid among `bids`, which must not be empty.
pub open spec fn winning_bid(bids: Seq<BidEntry>) -> BidEntry {
    bids[winning_index(bids)]
}

/// The test "has bid exactly `amount`".
pub open spec fn has_amount(amount: u64) -> spec_fn(BidEntry) -> bool {
    |entry: BidEntry| entry.amount == amount
}

/// No bid in `bids` is followed by a higher one.
pub open spec fn is_descending(bids: Seq<BidEntry>) -> bool {
    forall|i: int, j: int|
        0 <= i < j < bids.len() ==> (#[trigger] bids[i]).amount >= (#[trigger] bids[j]).amount
}

/// `sorted` holds the bids of `bids` from the highest down, and bids of one
/// amount stand in it in the order in which they stand in `bids`.
pub open spec fn is_stable_descending(sorted: Seq<BidEntry>, bids: Seq<BidEntry>) -> bool {
    &&& sorted.len() == bids.len()
    &&& is_descending(sorted)
    &&& forall|amount: u64| #[trigger]
        sorted.filter(has_amount(amount)) == bids.filter(has_amount(amount))
}

/// At most one position is the winning one.
pub proof fn lemma_winning_index_unique(bids: Seq<BidEntry>, a: int, b: int)
    requires
        is_winning_index(bids, a),
        is_winning_index(bids, b),
    ensures
        a == b,
{
    if a < b {
        assert(bids[a].amount < bids[b].amount);
        assert(bids[b].amount <= bids[a].amount);
    }
    if b < a {
        assert(bids[b].amount < bids[a].amount);
        assert(bids[a].amount <= bids[b].amount);
    }
}

/// Among one or more bids one wins: it has the highest amount of all, and
/// of the bids with that amount it was submitted first.
pub proof fn lemma_winning_bid(bids: Seq<BidEntry>)
    requires
        bids.len() > 0,
    ensures
        is_winning_index(bids, winning_index(bids)),
        forall|j: int| 0 <= j < bids.len() ==> (#[trigger] bids[j]).amount <= winning_bid(bids).amount,
        forall|j: int|
            0 <= j < bids.len() && (#[trigger] bids[j]).amount == winning_bid(bids).amount
                ==> winning_index(bids) <= j,
    decreases bids.len(),
{
    if bids.len() == 1 {
        assert(is_winning_index(bids, 0));
    } else {
        let front = bids.drop_last();
        lemma_winning_bid(front);
        let w = winning_index(front);
        let last = bids.len() - 1;
        if bids[last].amount > front[w].amount {
            assert forall|j: int| 0 <= j < bids.len() implies (#[trigger] bids[j]).amount
                <= bids[last].amount by {
                if j < last {
                    assert(front[j].amount <= front[w].amount);
                }
            }
            assert forall|j: int| 0 <= j < last implies (#[trigger] bids[j]).amount
                < bids[last].amount by {
                assert(front[j].amount <= front[w].amount);
            }
            assert(is_winning_index(bids, last));
        } else {
            assert forall|j: int| 0 <= j < bids.len() implies (#[trigger] bids[j]).amount
                <= bids[w].amount by {
                if j < last {
                    assert(front[j].amount <= front[w].amount);
                }
            }
            assert forall|j: int| 0 <= j < w implies (#[trigger] bids[j]).amount
                < bids[w].amount by {
                assert(front[j].amount < front[w].amount);
            }
            assert(is_winning_index(bids, w));
        }
    }
}

/// A bid at the winning position is the winning bid.
pub proof fn lemma_winning_bid_at(bids: Seq<BidEntry>, w: int)
    requires
        is_winning_index(bids, w),
    ensures
        winning_index(bids) == w,
        winning_bid(bids) == bids[w],
{
    lemma_winning_index_unique(bids, w, winning_index(bids));
}

/// The position of the winning bid, if there is any bid.
pub fn find_winning_index(bids: &Vec<BidEntry>) -> (found: Option<usize>)
    ensures
        found is None <==> bids@.len() == 0,
        found matches Some(w) ==> is_winning_index(bids@, w as int) && w as int == winning_index(
            bids@,
        ) && bids@[w as int] == winning_bid(bids@),
{
    if bids.len() == 0 {
        return None;
    }
    let mut w: usize = 0;
    let mut i: usize = 1;
    while i < bids.len()
        invariant
            1 <= i <= bids.len(),
            w < i,
            forall|j: int| 0 <= j < i ==> (#[trigger] bids@[j]).amount <= bids@[w as int].amount,
            forall|j: int| 0 <= j < w ==> (#[trigger] bids@[j]).amount < bids@[w as int].amount,
        decreases bids.len() - i,
    {
        if bids[i].amount > bids[w].amount {
            w = i;
        }
        i += 1;
    }
    proof {
        lemma_winning_bid_at(bids@, w as int);
    }
    Some(w)
}

/// No bid passes a test for an amount that nobody bid.
proof fn lemma_filter_absent(bids: Seq<BidEntry>, amount: u64)
    requires
        forall|k: int| 0 <= k < bids.len() ==> (#[trigger] bids[k]).amount != amount,
    ensures
        bids.filter(has_amount(amount)) == Seq::<BidEntry>::empty(),
    decreases bids.len(),
{
    reveal(Seq::filter);
    if bids.len() > 0 {
        lemma_filter_absent(bids.drop_last(), amount);
    }
}

/// A bid that passes a test comes from the bids that were tested.
proof fn lemma_filter_present(bids: Seq<BidEntry>, amount: u64)
    requires
        bids.filter(has_amount(amount)).len() > 0,
    ensures
        exists|k: int| 0 <= k < bids.len() && (#[trigger] bids[k]).amount == amount,
{
    if forall|k: int| 0 <= k < bids.len() ==> (#[trigger] bids[k]).amount != amount {
        lemma_filter_absent(bids, amount);
    }
}

/// Testing one more bid adds it to the result exactly when it passes.
proof fn lemma_filter_push(bids: Seq<BidEntry>, entry: BidEntry, amount: u64)
    ensures
        bids.push(entry).filter(has_amount(amount)) == if entry.amount == amount {
            bids.filter(has_amount(amount)).push(entry)
        } else {
            bids.filter(has_amount(amount))
        },
{
    reveal(Seq::filter);
    assert(bids.push(entry).drop_last() =~= bids);
}

/// The first bid that passes a test is the first result.
proof fn lemma_filter_first(bids: Seq<BidEntry>, first: int)
    requires
        0 <= first < bids.len(),
        forall|k: int| 0 <= k < first ==> (#[trigger] bids[k]).amount != bids[first].amount,
    ensures
        bids.filter(has_amount(bids[first].amount)).len() > 0,
        bids.filter(has_amount(bids[first].amount))[0] == bids[first],
{
    let amount = bids[first].amount;
    let head = bids.subrange(0, first);
    let tail = bids.subrange(first + 1, bids.len() as int);
    let empty = Seq::<BidEntry>::empty();
    assert(bids =~= head.push(bids[first]) + tail);
    Seq::filter_distributes_over_add(head.push(bids[first]), tail, has_amount(amount));
    lemma_filter_push(head, bids[first], amount);
    lemma_filter_absent(head, amount);
    assert(head.filter(has_amount(amount)).push(bids[first]) =~= empty.push(bids[first]));
}

/// Putting a bid in front of the lower ones leaves the bids of every amount
/// in the order in which they came.
proof fn lemma_insert_keeps_order(sorted: Seq<BidEntry>, at: int, entry: BidEntry, amount: u64)
    requires
        0 <= at <= sorted.len(),
        forall|k: int| at <= k < sorted.len() ==> (#[trigger] sorted[k]).amount < entry.amount,
    ensures
        sorted.insert(at, entry).filter(has_amount(amount)) == if entry.amount == amount {
            sorted.filter(has_amount(amount)).push(entry)
        } else {
            sorted.filter(has_amount(amount))
        },
{
    let head = sorted.subrange(0, at);
    let tail = sorted.subrange(at, sorted.len() as int);
    assert(sorted =~= head + tail);
    assert(sorted.insert(at, entry) =~= head.push(entry) + tail);
    Seq::filter_distributes_over_add(head, tail, has_amount(amount));
    Seq::filter_distributes_over_add(head.push(entry), tail, has_amount(amount));
    lemma_filter_push(head, entry, amount);
    if entry.amount == amount {
        lemma_filter_absent(tail, amount);
        assert(head.filter(has_amount(amount)) + Seq::<BidEntry>::empty() =~= head.filter(
            has_amount(amount),
        ));
        assert(head.filter(has_amount(amount)).push(entry) + Seq::<BidEntry>::empty()
            =~= head.filter(has_amount(amount)).push(entry));
    }
}

/// The highest bid, and of equal ones the earliest, comes first when the
/// bids are arranged from the highest down without reordering equal ones.
pub proof fn lemma_stable_descending_head(sorted: Seq<BidEntry>, bids: Seq<BidEntry>)
    requires
        bids.len() > 0,
        is_stable_descending(sorted, bids),
    ensures
        sorted[0] == winning_bid(bids),
{
    lemma_winning_bid(bids);
    let w = winning_index(bids);
    let top = bids[w].amount;
    assert(sorted.filter(has_amount(top)) == bids.filter(has_amount(top)));
    lemma_filter_first(bids, w);
    lemma_filter_present(sorted, top);
    let k = choose|k: int| 0 <= k < sorted.len() && (#[trigger] sorted[k]).amount == top;
    assert(sorted[0].amount >= sorted[k].amount);
    let head = sorted[0].amount;
    assert(sorted.filter(has_amount(head)) == bids.filter(has_amount(head)));
    lemma_filter_first(sorted, 0);
    lemma_filter_present(bids, head);
    assert(head == top);
}

/// Two arrangements of equal length that both run from the highest bid down
/// and hold the same bids of every amount in the same order are the same.
proof fn lemma_arrangement_unique(a: Seq<BidEntry>, b: Seq<BidEntry>)
    requires
        a.len() == b.len(),
        is_descending(a),
        is_descending(b),
        forall|amount: u64| #[trigger] a.filter(has_amount(amount)) == b.filter(has_amount(amount)),
    ensures
        a == b,
    decreases a.len(),
{
    if a.len() == 0 {
        assert(a =~= b);
    } else {
        let last = a.len() - 1;
        let (front_a, front_b) = (a.drop_last(), b.drop_last());
        assert(a =~= front_a.push(a[last]));
        assert(b =~= front_b.push(b[last]));
        let low = a[last].amount;
        lemma_filter_push(front_a, a[last], low);
        assert(a.filter(has_amount(low)) == b.filter(has_amount(low)));
        lemma_filter_present(b, low);
        let k = choose|k: int| 0 <= k < b.len() && (#[trigger] b[k]).amount == low;
        assert(k == last || b[k].amount >= b[last].amount);
        let other = b[last].amount;
        lemma_filter_push(front_b, b[last], other);
        assert(a.filter(has_amount(other)) == b.filter(has_amount(other)));
        lemma_filter_present(a, other);
        let h = choose|h: int| 0 <= h < a.len() && (#[trigger] a[h]).amount == other;
        assert(h == last || a[h].amount >= a[last].amount);
        assert(low == other);
        lemma_filter_push(front_b, b[last], low);
        assert(a.filter(has_amount(low)).last() == a[last]);
        assert(b.filter(has_amount(low)).last() == b[last]);
        assert(a[last] == b[last]);
        assert forall|amount: u64| #[trigger]
            front_a.filter(has_amount(amount)) == front_b.filter(has_amount(amount)) by {
            lemma_filter_push(front_a, a[last], amount);
            lemma_filter_push(front_b, b[last], amount);
            assert(a.filter(has_amount(amount)) == b.filter(has_amount(amount)));
            if amount == low {
                assert(front_a.filter(has_amount(amount)) =~= a.filter(
                    has_amount(amount),
                ).drop_last());
                assert(front_b.filter(has_amount(amount)) =~= b.filter(
                    has_amount(amount),
                ).drop_last());
            }
        }
        assert forall|i: int, j: int| 0 <= i < j < front_a.len() implies (#[trigger] front_a[i]).amount
            >= (#[trigger] front_a[j]).amount by {
            assert(a[i].amount >= a[j].amount);
        }
        assert forall|i: int, j: int| 0 <= i < j < front_b.len() implies (#[trigger] front_b[i]).amount
            >= (#[trigger] front_b[j]).amount by {
            assert(b[i].amount >= b[j].amount);
        }
        lemma_arrangement_unique(front_a, front_b);
    }
}

/// There is only one way to arrange bids from the highest down without
/// reordering equal ones.
pub proof fn lemma_stable_descending_unique(
    first: Seq<BidEntry>,
    second: Seq<BidEntry>,
    bids: Seq<BidEntry>,
)
    requires
        is_stable_descending(first, bids),
        is_stable_descending(second, bids),
    ensures
        first == second,
{
    assert forall|amount: u64| #[trigger]
        first.filter(has_amount(amount)) == second.filter(has_amount(amount)) by {
        assert(first.filter(has_amount(amount)) == bids.filter(has_amount(amount)));
        assert(second.filter(has_amount(amount)) == bids.filter(has_amount(amount)));
    }
    lemma_arrangement_unique(first, second);
}

/// Arranges the bids from the highest down; bids of one amount keep the
/// order in which they were submitted.
pub fn sort_bids_descending(bids: &mut Vec<BidEntry>)
    ensures
        is_stable_descending(final(bids)@, old(bids)@),
{
    let mut sorted: Vec<BidEntry> = Vec::new();
    let mut i: usize = 0;
    while i < bids.len()
        invariant
            i <= bids.len(),
            sorted.len() == i,
            is_descending(sorted@),
            forall|amount: u64| #[trigger]
                sorted@.filter(has_amount(amount)) == bids@.subrange(0, i as int).filter(
                    has_amount(amount),
                ),
        decreases bids.len() - i,
    {
        let entry = bids[i];
        let mut at: usize = 0;
        while at < sorted.len() && sorted[at].amount >= entry.amount
            invariant
                at <= sorted.len(),
                forall|k: int| 0 <= k < at ==> (#[trigger] sorted@[k]).amount >= entry.amount,
            decreases sorted.len() - at,
        {
            at += 1;
        }
        let ghost before = sorted@;
        proof {
            assert forall|k: int| at <= k < before.len() implies (#[trigger] before[k]).amount
                < entry.amount by {
                if at < k {
                    assert(before[at as int].amount >= before[k].amount);
                }
            }
            before.insert_ensures(at as int, entry);
        }
        sorted.insert(at, entry);
        proof {
            let after = sorted@;
            assert forall|a: int, b: int| 0 <= a < b < after.len() implies (#[trigger] after[a]).amount
                >= (#[trigger] after[b]).amount by {
                if b < at {
                    assert(before[a].amount >= before[b].amount);
                } else if b == at {
                    assert(before[a].amount >= entry.amount);
                } else if a < at {
                    assert(before[a].amount >= entry.amount);
                    assert(after[b] == before[b - 1]);
                    assert(before[b - 1].amount < entry.amount);
                } else if a == at {
                    assert(after[b] == before[b - 1]);
                    assert(before[b - 1].amount < entry.amount);
                } else {
                    assert(after[a] == before[a - 1]);
                    assert(after[b] == before[b - 1]);
                    assert(before[a - 1].amount >= before[b - 1].amount);
                }
            }
            let seen = bids@.subrange(0, i as int);
            assert(bids@.subrange(0, i + 1) =~= seen.push(entry));
            assert forall|amount: u64| #[trigger]
                after.filter(has_amount(amount)) == bids@.subrange(0, i + 1).filter(
                    has_amount(amount),
                ) by {
                lemma_insert_keeps_order(before, at as int, entry, amount);
                lemma_filter_push(seen, entry, amount);
                assert(before.filter(has_amount(amount)) == seen.filter(has_amount(amount)));
            }
        }
        i += 1;
    }
    proof {
        assert(bids@.subrange(0, i as int) =~= bids@);
    }
    *bids = sorted;
}

impl BidState {
    /// Whether the auction can be closed: every member has bid, or some bid
    /// has reached the ceiling.
    pub fn should_finalize_bidding(&self, total_members: u8) -> (ready: bool)
        ensures
            ready == (self.bids@.len() >= total_members || exists|i: int|
                0 <= i < self.bids@.len() && (#[trigger] self.bids@[i]).amount >= MAX_BID_AMOUNT),
    {
        if self.bids.len() >= total_members as usize {
            return true;
        }
        let mut i: usize = 0;
        while i < self.bids.len()
            invariant
                i <= self.bids.len(),
                forall|j: int| 0 <= j < i ==> (#[trigger] self.bids@[j]).amount < MAX_BID_AMOUNT,
            decreases self.bids.len() - i,
        {
            if self.bids[i].amount >= MAX_BID_AMOUNT {
                return true;
            }
            i += 1;
        }
        false
    }

    /// The highest amount bid so far, if anything was bid.
    pub fn get_winning_bid_amount(&self) -> (amount: Option<u64>)
        ensures
            self.bids@.len() == 0 ==> amount is None,
            self.bids@.len() > 0 ==> amount == Some(winning_bid(self.bids@).amount),
    {
        match find_winning_index(&self.bids) {
            Some(w) => Some(self.bids[w].amount),
            None => None,
        }
    }
}

} // verus!
