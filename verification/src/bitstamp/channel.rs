//! Channel names: a channel type and a currency pair, rendered on the wire
//! as `<type>_<pair>` (for example `detail_order_book_ethbtc`).

use vstd::prelude::*;

use crate::bitstamp::currency_pair::{
    all_name_chars, lemma_pair_name_wf, lemma_pair_round_trip, pair_from_name, pair_name,
    spec_pair_from_name, spec_pair_name, CurrencyPair,
};
use crate::bitstamp::error::{BitstampError, DecodeContext};
use crate::text::str_eq;

verus! {

/// The kind of data a channel carries.
#[derive(Clone, Copy, PartialEq, Eq, Structural, Debug)]
pub enum ChannelType {
    /// The stream of live order events.
    LiveOrders,
    /// The detailed order-book snapshot stream.
    DetailOrderBook,
}

/// The wire name of a channel type.
pub open spec fn spec_channel_type_name(t: ChannelType) -> Seq<char> {
    match t {
        ChannelType::LiveOrders => "live_orders"@,
        ChannelType::DetailOrderBook => "detail_order_book"@,
    }
}

/// The channel type a wire name denotes, if any.
pub open spec fn spec_channel_type_from_name(s: Seq<char>) -> Option<ChannelType> {
    if s == "live_orders"@ {
        Some(ChannelType::LiveOrders)
    } else if s == "detail_order_book"@ {
        Some(ChannelType::DetailOrderBook)
    } else {
        None
    }
}

/// Render a channel type as its wire name.
pub fn channel_type_name(t: ChannelType) -> (r: &'static str)
    ensures
        r@ == spec_channel_type_name(t),
{
    match t {
        ChannelType::LiveOrders => "live_orders",
        ChannelType::DetailOrderBook => "detail_order_book",
    }
}

/// Parse a wire name back into a channel type.
pub fn channel_type_from_name(s: &str) -> (r: Option<ChannelType>)
    ensures
        r == spec_channel_type_from_name(s@),
{
    if str_eq(s, "live_orders") {
        Some(ChannelType::LiveOrders)
    } else if str_eq(s, "detail_order_book") {
        Some(ChannelType::DetailOrderBook)
    } else {
        None
    }
}

/// Parsing a channel type's own wire name gives that type back.
pub proof fn lemma_channel_type_round_trip(t: ChannelType)
    ensures
        spec_channel_type_from_name(spec_channel_type_name(t)) == Some(t),
{
    reveal_strlit("live_orders");
    reveal_strlit("detail_order_book");
    assert("live_orders"@.len() == 11);
    assert("detail_order_book"@.len() == 17);
}

impl Default for ChannelType {
    /// The live-orders channel.
    fn default() -> (r: Self)
        ensures
            r == ChannelType::LiveOrders,
    {
        ChannelType::LiveOrders
    }
}

/// One subscribable channel: a channel type on one currency pair.
#[derive(Clone, Copy, PartialEq, Eq, Structural, Debug)]
pub struct Channel {
    pub channel_type: ChannelType,
    pub pair: CurrencyPair,
}

/// The full wire name of a channel: `<type>_<pair>`.
pub open spec fn spec_channel_name(c: Channel) -> Seq<char> {
    spec_channel_type_name(c.channel_type) + "_"@ + spec_pair_name(c.pair)
}

/// Index of the last `_` in `s`, or -1 if there is none.
pub open spec fn last_underscore(s: Seq<char>) -> int
    decreases s.len(),
{
    if s.len() == 0 {
        -1
    } else if s.last() == '_' {
        s.len() - 1
    } else {
        last_underscore(s.drop_last())
    }
}

/// The channel a wire name denotes, if any: the part after the last `_` must
/// name a currency pair and the part before it a channel type.
pub open spec fn spec_channel_from_name(s: Seq<char>) -> Option<Channel> {
    let k = last_underscore(s);
    if k < 0 {
        None
    } else {
        let t = spec_channel_type_from_name(s.subrange(0, k));
        let p = spec_pair_from_name(s.subrange(k + 1, s.len() as int));
        if t is Some && p is Some {
            Some(Channel { channel_type: t->0, pair: p->0 })
        } else {
            None
        }
    }
}

/// Render a channel as its wire name.
pub fn channel_name(c: Channel) -> (r: String)
    ensures
        r@ == spec_channel_name(c),
{
    let mut s = String::from_str(channel_type_name(c.channel_type));
    s.append("_");
    s.append(pair_name(c.pair));
    s
}

/// The last underscore is in range.
proof fn lemma_last_underscore_range(s: Seq<char>)
    ensures
        -1 <= last_underscore(s) < s.len(),
        last_underscore(s) >= 0 ==> s[last_underscore(s)] == '_',
    decreases s.len(),
{
    if s.len() > 0 && s.last() != '_' {
        lemma_last_underscore_range(s.drop_last());
    }
}

/// If `s[k]` is an underscore and nothing after `k` is one, the last
/// underscore is exactly `k`.
proof fn lemma_last_underscore_exact(s: Seq<char>, k: int)
    requires
        0 <= k < s.len(),
        s[k] == '_',
        forall|j: int| k < j < s.len() ==> s[j] != '_',
    ensures
        last_underscore(s) == k,
    decreases s.len(),
{
    if k == s.len() - 1 {
    } else {
        assert(s.last() != '_');
        let t = s.drop_last();
        assert(forall|j: int| k < j < t.len() ==> #[trigger] t[j] == s[j]);
        lemma_last_underscore_exact(t, k);
    }
}

/// If nothing in `s` is an underscore, there is no last underscore.
proof fn lemma_last_underscore_none(s: Seq<char>)
    requires
        forall|j: int| 0 <= j < s.len() ==> s[j] != '_',
    ensures
        last_underscore(s) == -1,
    decreases s.len(),
{
    if s.len() > 0 {
        let t = s.drop_last();
        assert(forall|j: int| 0 <= j < t.len() ==> #[trigger] t[j] == s[j]);
        lemma_last_underscore_none(t);
    }
}

/// Parsing a channel's own wire name gives that channel back.
pub proof fn lemma_channel_round_trip(c: Channel)
    ensures
        spec_channel_from_name(spec_channel_name(c)) == Some(c),
{
    let s = spec_channel_name(c);
    let tn = spec_channel_type_name(c.channel_type);
    let pn = spec_pair_name(c.pair);
    let k = tn.len() as int;
    reveal_strlit("_");
    reveal_strlit("live_orders");
    reveal_strlit("detail_order_book");
    assert(s[k] == '_');
    lemma_pair_name_wf(c.pair);
    assert(forall|j: int| k < j < s.len() ==> s[j] == pn[j - k - 1]);
    assert(forall|j: int|
        k < j < s.len() ==> crate::bitstamp::currency_pair::is_name_char(#[trigger] s[j]));
    assert(forall|j: int| k < j < s.len() ==> s[j] != '_');
    lemma_last_underscore_exact(s, k);
    assert(s.subrange(0, k) =~= tn);
    assert(s.subrange(k + 1, s.len() as int) =~= pn);
    lemma_channel_type_round_trip(c.channel_type);
    lemma_pair_round_trip(c.pair);
}

/// Parse a wire name back into a channel.  Returns exactly what the name
/// denotes; the error says which part failed: a `DecodingGeneral` when there
/// is no `_` at all, otherwise a `Decoding` whose context names the channel
/// type or the currency pair as the offending part.
pub fn channel_from_name(s: &str) -> (r: Result<Channel, BitstampError>)
    ensures
        r matches Ok(c) ==> spec_channel_from_name(s@) == Some(c),
        r is Err ==> spec_channel_from_name(s@) is None,
        r matches Err(e) ==> match e {
            BitstampError::DecodingGeneral { .. } => last_underscore(s@) == -1,
            BitstampError::Decoding { context, input } => {
                let k = last_underscore(s@);
                &&& k >= 0
                &&& context == DecodeContext::ChannelTypeName || context
                    == DecodeContext::ChannelPairName
                &&& (context == DecodeContext::ChannelTypeName ==> input@ == s@.subrange(0, k)
                    && spec_channel_type_from_name(s@.subrange(0, k)) is None)
                &&& (context == DecodeContext::ChannelPairName ==> input@ == s@.subrange(
                    k + 1,
                    s@.len() as int,
                ) && spec_pair_from_name(s@.subrange(k + 1, s@.len() as int)) is None)
            },
            _ => false,
        },
{
    let n = s.unicode_len();
    // Find the last underscore.
    let mut k: usize = n;
    loop
        invariant
            n == s@.len(),
            0 <= k <= n,
            forall|j: int| k <= j < n ==> s@[j] != '_',
        ensures
            0 <= k <= n,
            if k == 0 {
                last_underscore(s@) == -1
            } else {
                last_underscore(s@) == k - 1
            },
        decreases k,
    {
        if k == 0 {
            proof {
                lemma_last_underscore_none(s@);
            }
            break;
        }
        if s.get_char(k - 1) == '_' {
            proof {
                lemma_last_underscore_exact(s@, k - 1);
            }
            break;
        }
        k = k - 1;
    }
    if k == 0 {
        let mut reason = String::from_str(
            "Expected input to contain at least 2 parts, separated by `_`: Input: ",
        );
        reason.append(s);
        return Err(BitstampError::DecodingGeneral { reason });
    }
    let prefix = s.substring_char(0, k - 1);
    let suffix = s.substring_char(k, n);
    let channel_type = match channel_type_from_name(prefix) {
        Some(t) => t,
        None => {
            return Err(
                BitstampError::Decoding {
                    context: DecodeContext::ChannelTypeName,
                    input: String::from_str(prefix),
                },
            );
        },
    };
    let pair = match pair_from_name(suffix) {
        Some(p) => p,
        None => {
            return Err(
                BitstampError::Decoding {
                    context: DecodeContext::ChannelPairName,
                    input: String::from_str(suffix),
                },
            );
        },
    };
    Ok(Channel { channel_type, pair })
}

} // verus!
