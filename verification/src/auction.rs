//! Auctions: who bids, and which bid wins.

use crate::types::Bid;
use vstd::prelude::*;

verus! {

/// The place of the first bid at or after `from` whose bidder is none of
/// the `players` players.
pub open spec fn first_unknown_bidder(players: nat, bids: Seq<Bid>, from: int) -> Option<int>
    decreases bids.len() - from,
{
    if from < 0 || from >= bids.len() {
        None
    } else if !(0 <= bids[from].0.0 < players) {
        Some(from)
    } else {
        first_unknown_bidder(players, bids, from + 1)
    }
}

/// The better of the bid at `best` and the bids from `from` on, where a
/// later bid wins only if it is strictly higher.
pub open spec fn winner_from(bids: Seq<Bid>, from: int, best: int) -> int
    decreases bids.len() - from,
{
    if from < 0 || from >= bids.len() {
        best
    } else if bids[from].1.0 > bids[best].1.0 {
        winner_from(bids, from + 1, from)
    } else {
        winner_from(bids, from + 1, best)
    }
}

/// The place of the winning bid; 0 where there is none.
pub open spec fn spec_winner(bids: Seq<Bid>) -> int {
    winner_from(bids, 1, 0)
}

/// What it means to win: no bid is higher, and every earlier bid is lower.
pub open spec fn wins(bids: Seq<Bid>, w: int) -> bool {
    &&& 0 <= w < bids.len()
    &&& forall|j: int| 0 <= j < bids.len() ==> (#[trigger] bids[j]).1.0 <= bids[w].1.0
    &&& forall|j: int| 0 <= j < w ==> (#[trigger] bids[j]).1.0 < bids[w].1.0
}

proof fn lemma_winner_from(bids: Seq<Bid>, from: int, best: int)
    requires
        0 <= best < from <= bids.len(),
        forall|j: int| 0 <= j < from ==> (#[trigger] bids[j]).1.0 <= bids[best].1.0,
        forall|j: int| 0 <= j < best ==> (#[trigger] bids[j]).1.0 < bids[best].1.0,
    ensures
        wins(bids, winner_from(bids, from, best)),
    decreases bids.len() - from,
{
    if from < bids.len() {
        if bids[from].1.0 > bids[best].1.0 {
            lemma_winner_from(bids, from + 1, from);
        } else {
            lemma_winner_from(bids, from + 1, best);
        }
    }
}

/// The highest bid wins, and of equal bids the one that came first: where
/// there is a bid at all, the winner is at least as high as every bid and
/// strictly higher than every bid before it.
pub proof fn lemma_highest_first_wins(bids: Seq<Bid>)
    requires
        bids.len() > 0,
    ensures
        wins(bids, spec_winner(bids)),
{
    lemma_winner_from(bids, 1, 0);
}

/// At most one bid wins.
pub proof fn lemma_winner_unique(bids: Seq<Bid>, a: int, b: int)
    requires
        wins(bids, a),
        wins(bids, b),
    ensures
        a == b,
{
    if a < b {
        assert(bids[a].1.0 < bids[b].1.0);
        assert(bids[b].1.0 <= bids[a].1.0);
    } else if b < a {
        assert(bids[b].1.0 < bids[a].1.0);
        assert(bids[a].1.0 <= bids[b].1.0);
    }
}

/// The place of the winning bid, or `None` where nobody bid.
pub fn winner(bids: &Vec<Bid>) -> (w: Option<usize>)
    ensures
        bids@.len() == 0 <==> w is None,
        w matches Some(i) ==> i == spec_winner(bids@) && wins(bids@, i as int),
{
    if bids.len() == 0 {
        return None;
    }
    let mut best: usize = 0;
    let mut i: usize = 1;
    while i < bids.len()
        invariant
            0 <= best < i <= bids.len(),
            winner_from(bids@, i as int, best as int) == spec_winner(bids@),
        decreases bids.len() - i,
    {
        if bids[i].1.0 > bids[best].1.0 {
            best = i;
        }
        i += 1;
    }
    proof {
        lemma_highest_first_wins(bids@);
    }
    Some(best)
}

/// The place of the first bid whose bidder is none of the `players` players.
pub fn unknown_bidder(players: usize, bids: &Vec<Bid>) -> (r: Option<usize>)
    ensures
        match r {
            Some(i) => first_unknown_bidder(players as nat, bids@, 0) == Some(i as int) && i
                < bids@.len(),
            None => first_unknown_bidder(players as nat, bids@, 0) is None,
        },
{
    let mut i: usize = 0;
    while i < bids.len()
        invariant
            0 <= i <= bids.len(),
            first_unknown_bidder(players as nat, bids@, 0) == first_unknown_bidder(
                players as nat,
                bids@,
                i as int,
            ),
        decreases bids.len() - i,
    {
        let id: i8 = bids[i].0.0;
        if id < 0 || id as usize >= players {
            return Some(i);
        }
        i += 1;
    }
    None
}

} // verus!
