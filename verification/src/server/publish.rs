//! The publication layer: one merge engine per subscriber, fail-fast error
//! propagation toward the subscriber, and orderly teardown bookkeeping.
//!
//! The asynchronous plumbing (sockets, task spawning, the stream transport)
//! stays outside the library; what is here are the decisions it drives: what
//! each tick yields, when the merged stream must end, and which adapters an
//! unsubscribe must be sent to.

use vstd::prelude::*;

use crate::binance::error::BinanceError;
use crate::binance::model::Depth;
use crate::bitstamp::currency_pair::CurrencyPair;
use crate::bitstamp::error::BitstampError;
use crate::bitstamp::order_book::OrderBookData;
use crate::server::model::{
    is_top_of, make_merged_market_depth, sorted_asc, sorted_desc, spec_merged_asks,
    spec_merged_bids, spec_spread, Summary, SummaryView, TOP_N,
};

verus! {

/// The error a subscriber sees.  Detailed adapter errors (which may hold raw
/// wire payloads) are never forwarded verbatim; the subscriber gets only a
/// generic message.
#[derive(Clone, PartialEq, Eq, Debug)]
pub enum ServeError {
    Internal { message: String },
}

/// What a correctly merged summary is: each side the ranked top of the two
/// snapshots' levels, and the spread read off the ranked tops.
pub open spec fn is_merged_summary(
    r: SummaryView,
    a: crate::binance::model::DepthView,
    b: crate::bitstamp::order_book::OrderBookView,
) -> bool {
    &&& is_top_of(r.bids, spec_merged_bids(a, b), TOP_N as int, true)
    &&& is_top_of(r.asks, spec_merged_asks(a, b), TOP_N as int, false)
    &&& sorted_desc(r.bids)
    &&& sorted_asc(r.asks)
    &&& r.bids.len() <= TOP_N
    &&& r.asks.len() <= TOP_N
    &&& r.spread == spec_spread(r.bids, r.asks)
}

/// Ranking law: a merged summary's bids descend and its asks ascend, each
/// side holds at most `TOP_N` levels, and when no two contributed levels
/// share a price the orders are strict.
pub proof fn lemma_summary_ranking(
    r: SummaryView,
    a: crate::binance::model::DepthView,
    b: crate::bitstamp::order_book::OrderBookView,
)
    requires
        is_merged_summary(r, a, b),
    ensures
        sorted_desc(r.bids) && r.bids.len() <= TOP_N,
        sorted_asc(r.asks) && r.asks.len() <= TOP_N,
        crate::server::model::distinct_prices(spec_merged_bids(a, b)) ==> forall|i: int, j: int|
            0 <= i < j < r.bids.len() ==> r.bids[i].price > r.bids[j].price,
        crate::server::model::distinct_prices(spec_merged_asks(a, b)) ==> forall|i: int, j: int|
            0 <= i < j < r.asks.len() ==> r.asks[i].price < r.asks[j].price,
{
    if crate::server::model::distinct_prices(spec_merged_bids(a, b)) {
        crate::server::model::lemma_top_strictly_sorted(
            r.bids,
            spec_merged_bids(a, b),
            TOP_N as int,
            true,
        );
    }
    if crate::server::model::distinct_prices(spec_merged_asks(a, b)) {
        crate::server::model::lemma_top_strictly_sorted(
            r.asks,
            spec_merged_asks(a, b),
            TOP_N as int,
            false,
        );
    }
}

/// Spread law: a merged summary's spread is the top bid price minus the top
/// ask price whenever both sides are non-empty, and 0 when either side is
/// empty.
pub proof fn lemma_summary_spread(
    r: SummaryView,
    a: crate::binance::model::DepthView,
    b: crate::bitstamp::order_book::OrderBookView,
)
    requires
        is_merged_summary(r, a, b),
    ensures
        r.bids.len() > 0 && r.asks.len() > 0 ==> r.spread == r.bids[0].price - r.asks[0].price,
        r.bids.len() == 0 || r.asks.len() == 0 ==> r.spread == 0,
{
}

/// One tick of the merge engine: one result from each source, one result
/// out.  A summary comes only when both sources delivered a snapshot; any
/// source error makes the tick an error (fail-fast), with the binance side
/// reported first, and only the generic message leaving the engine.
pub fn merge_tick(a: Result<Depth, BinanceError>, b: Result<OrderBookData, BitstampError>) -> (r:
    Result<Summary, ServeError>)
    ensures
        r is Err <==> (a is Err || b is Err),
        r matches Ok(s) ==> a matches Ok(da) && b matches Ok(db) && is_merged_summary(
            s@,
            da@,
            db@,
        ),
        a is Err ==> (r matches Err(ServeError::Internal { message }) && message@
            == "Retrieving binance order-book"@),
        a is Ok && b is Err ==> (r matches Err(ServeError::Internal { message }) && message@
            == "Internal error"@),
{
    match a {
        Err(_) => Err(
            ServeError::Internal { message: String::from_str("Retrieving binance order-book") },
        ),
        Ok(da) => match b {
            Err(_) => Err(ServeError::Internal { message: String::from_str("Internal error") }),
            Ok(db) => Ok(make_merged_market_depth(da, db)),
        },
    }
}

/// The merged stream a subscriber sees, over a recorded run of both source
/// streams: sources are paired tick by tick; every tick before the first
/// failed one yields its summary; the first failed tick yields one error and
/// nothing follows it; pairing stops when the shorter source ends.
pub fn merge_streams(
    avec: Vec<Result<Depth, BinanceError>>,
    bvec: Vec<Result<OrderBookData, BitstampError>>,
) -> (r: Vec<Result<Summary, ServeError>>)
    ensures
        r@.len() <= avec@.len() && r@.len() <= bvec@.len(),
        forall|i: int|
            0 <= i < r@.len() ==> ((#[trigger] r@[i]) is Err <==> (avec@[i] is Err
                || bvec@[i] is Err)),
        forall|i: int|
            0 <= i < r@.len() ==> ((#[trigger] r@[i]) matches Ok(s) ==> avec@[i] matches Ok(da)
                && bvec@[i] matches Ok(db) && is_merged_summary(s@, da@, db@)),
        // Nothing is emitted after an error ...
        forall|i: int| 0 <= i < r@.len() - 1 ==> (#[trigger] r@[i]) is Ok,
        // ... and the stream ends early only on an error.
        r@.len() < avec@.len() && r@.len() < bvec@.len() ==> r@.len() > 0 && r@[r@.len() - 1] is Err,
{
    let mut r: Vec<Result<Summary, ServeError>> = Vec::new();
    let ghost aseq = avec@;
    let ghost bseq = bvec@;
    let mut a_iter = avec;
    let mut b_iter = bvec;
    let n = if a_iter.len() <= b_iter.len() {
        a_iter.len()
    } else {
        b_iter.len()
    };
    let mut i: usize = 0;
    while i < n
        invariant
            aseq == avec@,
            bseq == bvec@,
            n <= aseq.len() && n <= bseq.len(),
            a_iter@ =~= aseq.subrange(i as int, aseq.len() as int),
            b_iter@ =~= bseq.subrange(i as int, bseq.len() as int),
            0 <= i <= n,
            r@.len() == i,
            forall|k: int|
                0 <= k < i ==> ((#[trigger] r@[k]) is Err <==> (aseq[k] is Err || bseq[k] is Err)),
            forall|k: int|
                0 <= k < i ==> ((#[trigger] r@[k]) matches Ok(s) ==> aseq[k] matches Ok(da)
                    && bseq[k] matches Ok(db) && is_merged_summary(s@, da@, db@)),
            forall|k: int| 0 <= k < i ==> (#[trigger] r@[k]) is Ok,
        decreases n - i,
    {
        let a = a_iter.remove(0);
        let b = b_iter.remove(0);
        proof {
            assert(a == aseq[i as int]);
            assert(b == bseq[i as int]);
            assert(a_iter@ =~= aseq.subrange(i + 1, aseq.len() as int));
            assert(b_iter@ =~= bseq.subrange(i + 1, bseq.len() as int));
        }
        let out = merge_tick(a, b);
        let is_err = out.is_err();
        r.push(out);
        i = i + 1;
        if is_err {
            return r;
        }
    }
    r
}

/// The server that answers summary-stream requests for one instrument.
pub struct SummaryServer {
    pub instrument: CurrencyPair,
}

impl SummaryServer {
    /// A server for one instrument.
    pub fn new(instrument: CurrencyPair) -> (r: SummaryServer)
        ensures
            r.instrument == instrument,
    {
        SummaryServer { instrument }
    }
}

/// Where one feed adapter of a subscription stands.
#[derive(Clone, Copy, PartialEq, Eq, Structural, Debug)]
pub enum AdapterState {
    /// The connection is being established.
    Connecting,
    /// Subscribed and delivering snapshots.
    Streaming,
    /// An unsubscribe was sent; awaiting the close.
    Closing,
    /// Torn down.
    Closed,
    /// Ended by a transport or decode error.
    Failed,
}

/// Does the adapter hold a live upstream subscription that teardown must
/// still unsubscribe?
pub open spec fn needs_unsubscribe(s: AdapterState) -> bool {
    s == AdapterState::Connecting || s == AdapterState::Streaming
}

/// What cancelling a subscription does: every adapter that still holds a
/// live upstream subscription is told to unsubscribe — each exactly once,
/// listed in ascending order — and moves to `Closing`; the others are left
/// as they stand.
pub open spec fn cancel_post(
    before: Seq<AdapterState>,
    after: Seq<AdapterState>,
    sends: Seq<usize>,
) -> bool {
    &&& after.len() == before.len()
    &&& forall|i: int|
        0 <= i < before.len() ==> after[i] == if needs_unsubscribe(#[trigger] before[i]) {
            AdapterState::Closing
        } else {
            before[i]
        }
    &&& forall|k: int| 0 <= k < sends.len() ==> (#[trigger] sends[k] as int) < before.len()
    &&& forall|k: int|
        0 <= k < sends.len() ==> needs_unsubscribe(before[#[trigger] sends[k] as int])
    &&& forall|i: int|
        0 <= i < before.len() && needs_unsubscribe(#[trigger] before[i]) ==> sends.contains(
            i as usize,
        )
    &&& forall|k1: int, k2: int| 0 <= k1 < k2 < sends.len() ==> sends[k1] < sends[k2]
}

/// One subscriber's set of feed adapters.
pub struct Session {
    pub adapters: Vec<AdapterState>,
}

impl Session {
    /// A session over `n` streaming adapters.
    pub fn new(n: usize) -> (r: Session)
        ensures
            r.adapters@.len() == n,
            forall|i: int| 0 <= i < n ==> r.adapters@[i] == AdapterState::Streaming,
    {
        let mut adapters: Vec<AdapterState> = Vec::new();
        let mut i: usize = 0;
        while i < n
            invariant
                0 <= i <= n,
                adapters@.len() == i,
                forall|k: int| 0 <= k < i ==> adapters@[k] == AdapterState::Streaming,
            decreases n - i,
        {
            adapters.push(AdapterState::Streaming);
            i = i + 1;
        }
        Session { adapters }
    }

    /// Record that one adapter's stream failed.
    pub fn mark_failed(&mut self, i: usize)
        requires
            i < old(self).adapters@.len(),
        ensures
            final (self).adapters@ == old(self).adapters@.update(
                i as int,
                AdapterState::Failed,
            ),
    {
        self.adapters.set(i, AdapterState::Failed);
    }

    /// Cancel the subscription: returns the indices of the adapters an
    /// unsubscribe must be sent to — every adapter still holding a live
    /// upstream subscription, each exactly once — and marks them closing.
    pub fn cancel(&mut self) -> (sends: Vec<usize>)
        ensures
            cancel_post(old(self).adapters@, final (self).adapters@, sends@),
    {
        let ghost before = self.adapters@;
        let mut sends: Vec<usize> = Vec::new();
        let mut i: usize = 0;
        let n = self.adapters.len();
        while i < n
            invariant
                n == before.len() == self.adapters@.len(),
                0 <= i <= n,
                forall|k: int|
                    i <= k < n ==> #[trigger] self.adapters@[k] == before[k],
                forall|k: int|
                    0 <= k < i ==> #[trigger] self.adapters@[k] == if needs_unsubscribe(
                        before[k],
                    ) {
                        AdapterState::Closing
                    } else {
                        before[k]
                    },
                forall|k: int| 0 <= k < sends@.len() ==> (#[trigger] sends@[k] as int) < i,
                forall|k: int|
                    0 <= k < sends@.len() ==> needs_unsubscribe(
                        before[#[trigger] sends@[k] as int],
                    ),
                forall|j: int|
                    0 <= j < i && needs_unsubscribe(#[trigger] before[j]) ==> sends@.contains(
                        j as usize,
                    ),
                forall|k1: int, k2: int| 0 <= k1 < k2 < sends@.len() ==> sends@[k1] < sends@[k2],
            decreases n - i,
        {
            let st = self.adapters[i];
            let live = match st {
                AdapterState::Connecting => true,
                AdapterState::Streaming => true,
                _ => false,
            };
            if live {
                let ghost old_sends = sends@;
                sends.push(i);
                self.adapters.set(i, AdapterState::Closing);
                proof {
                    assert(forall|j: int|
                        0 <= j < old_sends.len() ==> #[trigger] sends@[j] == old_sends[j]);
                    assert forall|j: int|
                        0 <= j < i && needs_unsubscribe(#[trigger] before[j]) implies sends@.contains(
                        j as usize,
                    ) by {
                        assert(old_sends.contains(j as usize));
                        let k = choose|k: int|
                            0 <= k < old_sends.len() && old_sends[k] == j as usize;
                        assert(sends@[k] == j as usize);
                    }
                    assert(sends@[sends@.len() - 1] == i as usize);
                    assert(sends@.contains(i as usize));
                }
            }
            i = i + 1;
        }
        sends
    }
}

/// Cancelling is exhaustive and idempotent: the first cancel reaches every
/// adapter that held a live subscription exactly once, and a second cancel
/// has nothing left to send to.
pub proof fn lemma_unsubscribe_exactly_once(
    ads0: Seq<AdapterState>,
    ads1: Seq<AdapterState>,
    ads2: Seq<AdapterState>,
    sends1: Seq<usize>,
    sends2: Seq<usize>,
)
    requires
        cancel_post(ads0, ads1, sends1),
        cancel_post(ads1, ads2, sends2),
    ensures
        forall|i: int|
            0 <= i < ads0.len() && needs_unsubscribe(#[trigger] ads0[i]) ==> sends1.contains(
                i as usize,
            ),
        forall|k1: int, k2: int|
            0 <= k1 < k2 < sends1.len() ==> sends1[k1] != sends1[k2],
        sends2.len() == 0,
{
    assert forall|k1: int, k2: int|
        0 <= k1 < k2 < sends1.len() implies sends1[k1] != sends1[k2] by {
        assert(sends1[k1] < sends1[k2]);
    }
    if sends2.len() > 0 {
        let i = sends2[0] as int;
        assert(needs_unsubscribe(ads1[i]));
        assert(ads1[i] == if needs_unsubscribe(ads0[i]) {
            AdapterState::Closing
        } else {
            ads0[i]
        });
        assert(false);
    }
}

} // verus!
