//! The merge engine: combines one depth snapshot per exchange into a ranked
//! top-of-book summary with spread.

use vstd::prelude::*;

use crate::binance;
use crate::bitstamp;

verus! {

broadcast use vstd::seq_lib::group_to_multiset_ensures;

/// How many levels each side of a summary keeps.
pub const TOP_N: usize = 10;

/// The exchange a price level came from.
#[derive(Clone, Copy, PartialEq, Eq, Structural, Debug)]
pub enum Exchange {
    Binance,
    Bitstamp,
}

/// One merged price level: the source exchange, price and amount in
/// fixed-point atoms, and the exchange's order id where it assigns one.
#[derive(Clone, Copy, PartialEq, Eq, Debug)]
pub struct Level {
    pub exchange: Exchange,
    pub price: u64,
    pub amount: u64,
    pub order_id: Option<u64>,
}

/// The merged top-of-book view: the spread in atoms (negative when the books
/// cross), the best bids in descending price order, and the best asks in
/// ascending price order, each side capped at `TOP_N` levels.
#[derive(Clone, PartialEq, Eq, Debug)]
pub struct Summary {
    pub spread: i128,
    pub bids: Vec<Level>,
    pub asks: Vec<Level>,
}

/// The mathematical value of a `Summary`.
pub struct SummaryView {
    pub spread: i128,
    pub bids: Seq<Level>,
    pub asks: Seq<Level>,
}

impl View for Summary {
    type V = SummaryView;

    open spec fn view(&self) -> SummaryView {
        SummaryView { spread: self.spread, bids: self.bids@, asks: self.asks@ }
    }
}

/// Levels in weakly descending price order.
pub open spec fn sorted_desc(s: Seq<Level>) -> bool {
    forall|i: int, j: int| 0 <= i < j < s.len() ==> s[i].price >= s[j].price
}

/// Levels in weakly ascending price order.
pub open spec fn sorted_asc(s: Seq<Level>) -> bool {
    forall|i: int, j: int| 0 <= i < j < s.len() ==> s[i].price <= s[j].price
}

/// No two levels share a price.
pub open spec fn distinct_prices(s: Seq<Level>) -> bool {
    forall|i: int, j: int| 0 <= i < j < s.len() ==> s[i].price != s[j].price
}

/// The level a binance depth row contributes.
pub open spec fn spec_level_of_binance(p: binance::model::Price) -> Level {
    Level { exchange: Exchange::Binance, price: p.amount, amount: p.quantity, order_id: None }
}

/// The level a bitstamp order-book row contributes.
pub open spec fn spec_level_of_bitstamp(p: bitstamp::order_book::Price) -> Level {
    Level {
        exchange: Exchange::Bitstamp,
        price: p.price,
        amount: p.quantity,
        order_id: Some(p.order_id),
    }
}

/// All bid levels both snapshots contribute, in arrival order.
pub open spec fn spec_merged_bids(
    a: binance::model::DepthView,
    b: bitstamp::order_book::OrderBookView,
) -> Seq<Level> {
    a.bids.map_values(|p: binance::model::Price| spec_level_of_binance(p)) + b.bids.map_values(
        |p: bitstamp::order_book::Price| spec_level_of_bitstamp(p),
    )
}

/// All ask levels both snapshots contribute, in arrival order.
pub open spec fn spec_merged_asks(
    a: binance::model::DepthView,
    b: bitstamp::order_book::OrderBookView,
) -> Seq<Level> {
    a.asks.map_values(|p: binance::model::Price| spec_level_of_binance(p)) + b.asks.map_values(
        |p: bitstamp::order_book::Price| spec_level_of_bitstamp(p),
    )
}

/// `r` is the ranked top of `input`: some ordering of all of `input` sorted
/// by `desc`, truncated to its first `n`.
pub open spec fn is_top_of(r: Seq<Level>, input: Seq<Level>, n: int, desc: bool) -> bool {
    exists|s: Seq<Level>|
        #![trigger s.to_multiset()]
        {
            &&& s.to_multiset() == input.to_multiset()
            &&& if desc {
                sorted_desc(s)
            } else {
                sorted_asc(s)
            }
            &&& r == s.take(if n <= s.len() {
                n
            } else {
                s.len() as int
            })
        }
}

/// Index of a maximal-price level in `v[from..]`, favouring the earliest.
fn find_extreme(v: &Vec<Level>, desc: bool) -> (r: usize)
    requires
        v@.len() > 0,
    ensures
        0 <= r < v@.len(),
        forall|k: int|
            0 <= k < v@.len() ==> if desc {
                v@[r as int].price >= (#[trigger] v@[k]).price
            } else {
                v@[r as int].price <= (#[trigger] v@[k]).price
            },
{
    let mut best: usize = 0;
    let mut i: usize = 1;
    while i < v.len()
        invariant
            0 <= best < i <= v@.len(),
            forall|k: int|
                0 <= k < i ==> if desc {
                    v@[best as int].price >= (#[trigger] v@[k]).price
                } else {
                    v@[best as int].price <= (#[trigger] v@[k]).price
                },
        decreases v@.len() - i,
    {
        let better = if desc {
            v[i].price > v[best].price
        } else {
            v[i].price < v[best].price
        };
        if better {
            best = i;
        }
        i = i + 1;
    }
    best
}

/// Sort levels by price, descending when `desc`, ascending otherwise.
/// Returns a reordering of the input (same multiset of levels).
fn sort_levels(input: Vec<Level>, desc: bool) -> (r: Vec<Level>)
    ensures
        r@.to_multiset() == input@.to_multiset(),
        r@.len() == input@.len(),
        desc ==> sorted_desc(r@),
        !desc ==> sorted_asc(r@),
{
    let mut rest = input;
    let ghost all = rest@.to_multiset();
    let mut out: Vec<Level> = Vec::new();
    proof {
        assert(out@.to_multiset().add(rest@.to_multiset()) =~= all);
    }
    while rest.len() > 0
        invariant
            out@.to_multiset().add(rest@.to_multiset()) == all,
            out@.len() + rest@.len() == input@.len(),
            all == input@.to_multiset(),
            desc ==> sorted_desc(out@),
            !desc ==> sorted_asc(out@),
            forall|k: int|
                0 <= k < rest@.len() && out@.len() > 0 ==> if desc {
                    out@.last().price >= (#[trigger] rest@[k]).price
                } else {
                    out@.last().price <= (#[trigger] rest@[k]).price
                },
        decreases rest@.len(),
    {
        let m = find_extreme(&rest, desc);
        let ghost old_out = out@;
        let ghost old_rest = rest@;
        let x = rest.remove(m);
        out.push(x);
        proof {
            assert(old_rest.remove(m as int).to_multiset() =~= old_rest.to_multiset().remove(x));
            assert(old_out.push(x).to_multiset() =~= old_out.to_multiset().insert(x));
            assert(out@.to_multiset().add(rest@.to_multiset()) =~= all);
            assert(forall|k: int|
                0 <= k < rest@.len() ==> rest@[k] == if k < m {
                    old_rest[k]
                } else {
                    old_rest[k + 1]
                });
            assert(forall|i: int| 0 <= i < old_out.len() ==> out@[i] == old_out[i]);
        }
    }
    out
}

/// The spread between the best bid and the best ask: their difference, or 0
/// when either side is empty.
pub open spec fn spec_spread(bids: Seq<Level>, asks: Seq<Level>) -> int {
    if bids.len() > 0 && asks.len() > 0 {
        bids[0].price - asks[0].price
    } else {
        0
    }
}

/// Merge one snapshot from each exchange into a summary ranked to a
/// configured top `n`.
///
/// The bids are all bid levels of both snapshots, ranked by descending
/// price and truncated to the top `n`; the asks mirror this with
/// ascending price.  Levels of equal price may stand in either order.  The
/// spread is best bid minus best ask, `0` when either side is empty.
pub fn merge_top_n(
    a: binance::model::Depth,
    b: bitstamp::order_book::OrderBookData,
    n: usize,
) -> (r: Summary)
    ensures
        is_top_of(r.bids@, spec_merged_bids(a@, b@), n as int, true),
        is_top_of(r.asks@, spec_merged_asks(a@, b@), n as int, false),
        sorted_desc(r.bids@),
        sorted_asc(r.asks@),
        r.bids@.len() <= n,
        r.asks@.len() <= n,
        r.bids@.len() == if spec_merged_bids(a@, b@).len() <= n {
            spec_merged_bids(a@, b@).len() as int
        } else {
            n as int
        },
        r.asks@.len() == if spec_merged_asks(a@, b@).len() <= n {
            spec_merged_asks(a@, b@).len() as int
        } else {
            n as int
        },
        r.spread == spec_spread(r.bids@, r.asks@),
{
    let mut bid_input: Vec<Level> = Vec::new();
    let mut i: usize = 0;
    while i < a.bids.len()
        invariant
            0 <= i <= a.bids@.len(),
            bid_input@ =~= a.bids@.take(i as int).map_values(
                |p: binance::model::Price| spec_level_of_binance(p),
            ),
        decreases a.bids@.len() - i,
    {
        let p = a.bids[i];
        bid_input.push(Level { exchange: Exchange::Binance, price: p.amount, amount: p.quantity, order_id: None });
        proof {
            assert(bid_input@ =~= a.bids@.take(i + 1).map_values(
                |p: binance::model::Price| spec_level_of_binance(p),
            ));
        }
        i = i + 1;
    }
    let mut j: usize = 0;
    while j < b.bids.len()
        invariant
            0 <= j <= b.bids@.len(),
            bid_input@ =~= spec_merged_bids(a@, b@).take(a.bids@.len() + j),
        decreases b.bids@.len() - j,
    {
        let p = b.bids[j];
        bid_input.push(Level { exchange: Exchange::Bitstamp, price: p.price, amount: p.quantity, order_id: Some(p.order_id) });
        proof {
            assert(bid_input@ =~= spec_merged_bids(a@, b@).take(a.bids@.len() + j + 1));
        }
        j = j + 1;
    }
    proof {
        assert(a.bids@.take(a.bids@.len() as int) =~= a.bids@);
        assert(bid_input@ =~= spec_merged_bids(a@, b@));
    }
    let mut bids = sort_levels(bid_input, true);
    let ghost sorted_bids = bids@;
    bids.truncate(n);
    proof {
        assert(bids@ == sorted_bids.take(if n as int <= sorted_bids.len() {
            n as int
        } else {
            sorted_bids.len() as int
        }));
    }

    let mut ask_input: Vec<Level> = Vec::new();
    let mut i: usize = 0;
    while i < a.asks.len()
        invariant
            0 <= i <= a.asks@.len(),
            ask_input@ =~= a.asks@.take(i as int).map_values(
                |p: binance::model::Price| spec_level_of_binance(p),
            ),
        decreases a.asks@.len() - i,
    {
        let p = a.asks[i];
        ask_input.push(Level { exchange: Exchange::Binance, price: p.amount, amount: p.quantity, order_id: None });
        proof {
            assert(ask_input@ =~= a.asks@.take(i + 1).map_values(
                |p: binance::model::Price| spec_level_of_binance(p),
            ));
        }
        i = i + 1;
    }
    let mut j: usize = 0;
    while j < b.asks.len()
        invariant
            0 <= j <= b.asks@.len(),
            ask_input@ =~= spec_merged_asks(a@, b@).take(a.asks@.len() + j),
        decreases b.asks@.len() - j,
    {
        let p = b.asks[j];
        ask_input.push(Level { exchange: Exchange::Bitstamp, price: p.price, amount: p.quantity, order_id: Some(p.order_id) });
        proof {
            assert(ask_input@ =~= spec_merged_asks(a@, b@).take(a.asks@.len() + j + 1));
        }
        j = j + 1;
    }
    proof {
        assert(a.asks@.take(a.asks@.len() as int) =~= a.asks@);
        assert(ask_input@ =~= spec_merged_asks(a@, b@));
    }
    let mut asks = sort_levels(ask_input, false);
    let ghost sorted_asks = asks@;
    asks.truncate(n);
    proof {
        assert(asks@ == sorted_asks.take(if n as int <= sorted_asks.len() {
            n as int
        } else {
            sorted_asks.len() as int
        }));
    }

    let spread: i128 = if bids.len() > 0 && asks.len() > 0 {
        (bids[0].price as i128) - (asks[0].price as i128)
    } else {
        0
    };
    Summary { spread, bids, asks }
}

/// Merge one snapshot from each exchange into the summary served to
/// subscribers, ranked to the configured `TOP_N`.
pub fn make_merged_market_depth(a: binance::model::Depth, b: bitstamp::order_book::OrderBookData) -> (r:
    Summary)
    ensures
        is_top_of(r.bids@, spec_merged_bids(a@, b@), TOP_N as int, true),
        is_top_of(r.asks@, spec_merged_asks(a@, b@), TOP_N as int, false),
        sorted_desc(r.bids@),
        sorted_asc(r.asks@),
        r.bids@.len() <= TOP_N,
        r.asks@.len() <= TOP_N,
        r.spread == spec_spread(r.bids@, r.asks@),
{
    merge_top_n(a, b, TOP_N)
}

/// Every level of a ranked top stands in the input it was ranked from.
pub proof fn lemma_top_levels_come_from_input(r: Seq<Level>, input: Seq<Level>, n: int, desc: bool)
    requires
        0 <= n,
        is_top_of(r, input, n, desc),
    ensures
        forall|i: int| 0 <= i < r.len() ==> input.contains(#[trigger] r[i]),
{
    let s = choose|s: Seq<Level>|
        #![trigger s.to_multiset()]
        {
            &&& s.to_multiset() == input.to_multiset()
            &&& if desc {
                sorted_desc(s)
            } else {
                sorted_asc(s)
            }
            &&& r == s.take(if n <= s.len() {
                n
            } else {
                s.len() as int
            })
        };
    assert forall|i: int| 0 <= i < r.len() implies input.contains(#[trigger] r[i]) by {
        assert(r[i] == s[i]);
        assert(s.contains(r[i]));
        assert(s.to_multiset().count(r[i]) > 0);
        assert(input.to_multiset().count(r[i]) > 0);
    }
}

/// When all prices in the input are distinct, the ranked bids are strictly
/// descending and the ranked asks strictly ascending.
pub proof fn lemma_top_strictly_sorted(r: Seq<Level>, input: Seq<Level>, n: int, desc: bool)
    requires
        0 <= n,
        is_top_of(r, input, n, desc),
        distinct_prices(input),
        desc ==> sorted_desc(r),
        !desc ==> sorted_asc(r),
    ensures
        forall|i: int, j: int|
            0 <= i < j < r.len() ==> if desc {
                r[i].price > r[j].price
            } else {
                r[i].price < r[j].price
            },
{
    let s = choose|s: Seq<Level>|
        #![trigger s.to_multiset()]
        {
            &&& s.to_multiset() == input.to_multiset()
            &&& if desc {
                sorted_desc(s)
            } else {
                sorted_asc(s)
            }
            &&& r == s.take(if n <= s.len() {
                n
            } else {
                s.len() as int
            })
        };
    assert forall|i: int, j: int| 0 <= i < j < r.len() implies (if desc {
        r[i].price > r[j].price
    } else {
        r[i].price < r[j].price
    }) by {
        assert(s[i] == r[i] && s[j] == r[j]);
        if r[i].price == r[j].price {
            lemma_distinct_multiset_distinct(s, input, i, j);
        }
    }
}

/// Two positions of `s` cannot share a price when `s` reorders an input of
/// pairwise-distinct prices.
proof fn lemma_distinct_multiset_distinct(s: Seq<Level>, input: Seq<Level>, i: int, j: int)
    requires
        s.to_multiset() == input.to_multiset(),
        distinct_prices(input),
        0 <= i < j < s.len(),
    ensures
        s[i].price != s[j].price,
{
    if s[i].price == s[j].price {
        if s[i] == s[j] {
            // The same level twice: its multiset count is at least 2, so the
            // input holds it twice as well, against distinctness.
            lemma_dup_count(s, i, j);
            assert(input.to_multiset().count(s[i]) >= 2);
            lemma_count_at_most_one(input, s[i]);
        } else {
            // Two different levels with one price: both stand in the input.
            assert(s.contains(s[i]) && s.contains(s[j]));
            assert(s.to_multiset().count(s[i]) > 0);
            assert(s.to_multiset().count(s[j]) > 0);
            assert(input.contains(s[i]) && input.contains(s[j]));
            let a = choose|a: int| 0 <= a < input.len() && input[a] == s[i];
            let b = choose|b: int| 0 <= b < input.len() && input[b] == s[j];
            assert(a != b);
            assert(input[a].price != input[b].price);
        }
    }
}

/// A value at two positions has multiset count at least 2.
proof fn lemma_dup_count(s: Seq<Level>, i: int, j: int)
    requires
        0 <= i < j < s.len(),
        s[i] == s[j],
    ensures
        s.to_multiset().count(s[i]) >= 2,
{
    let t = s.remove(j);
    assert(t.to_multiset() =~= s.to_multiset().remove(s[j]));
    assert(t[i] == s[i]);
    assert(t.contains(s[i]));
    assert(t.to_multiset().count(s[i]) > 0);
    assert(s.to_multiset().count(s[i]) == t.to_multiset().count(s[i]) + 1);
}

/// Under price distinctness, no level stands in the input twice.
proof fn lemma_count_at_most_one(input: Seq<Level>, x: Level)
    requires
        distinct_prices(input),
    ensures
        input.to_multiset().count(x) <= 1,
{
    if input.to_multiset().count(x) >= 2 {
        assert(input.to_multiset().count(x) > 0);
        assert(input.contains(x));
        let a = choose|a: int| 0 <= a < input.len() && input[a] == x;
        let t = input.remove(a);
        assert(t.to_multiset() =~= input.to_multiset().remove(x));
        assert(t.to_multiset().count(x) >= 1);
        assert(t.contains(x));
        let b = choose|b: int| 0 <= b < t.len() && t[b] == x;
        let orig = if b < a {
            b
        } else {
            b + 1
        };
        assert(input[orig] == x);
        assert(orig != a);
        assert(input[orig].price == input[a].price);
        assert(false);
    }
}

} // verus!
