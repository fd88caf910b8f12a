//! The quote pipeline's fan-in and reduction: collecting one enriched
//! quote per registry entry, then partitioning, ranking and summarising
//! the batch.

use vstd::prelude::*;

use crate::finnhub_api::symbol_quote::{enrich_quote, frontend_of, is_sentinel, sentinel_quote,
    spec_enriched, to_frontend, FetchOutcome, SymbolQuoteExtended, SymbolQuoteFrontend};
use crate::finnhub_api::{Endpoint, FinnhubAPI};
use crate::indices::IndexEntry;

verus! {

/// A client for one request: the given token, aimed at `endpoint`.
pub fn setup_finnhub_api(endpoint: Endpoint, api_token: &str) -> (r: FinnhubAPI)
    ensures
        r.spec_endpoint() == endpoint,
        r.spec_api_key() == api_token@,
{
    let mut finnhub_api = FinnhubAPI::new(api_token);
    finnhub_api.endpoint(endpoint);
    finnhub_api
}

/// What the fan-in step owes for each registry slot: the enriched quote
/// of the slot's outcome, or the empty sentinel where the fetch task
/// itself was destroyed and reported nothing.
pub open spec fn collected_matches(
    entry: IndexEntry,
    outcome: Option<FetchOutcome>,
    now_millis: u128,
    q: SymbolQuoteExtended,
) -> bool {
    match outcome {
        Some(o) => q == spec_enriched(entry, o, now_millis),
        None => is_sentinel(q, now_millis),
    }
}

/// Copies one fetch outcome field by field.
fn clone_outcome(o: &FetchOutcome) -> (r: FetchOutcome)
    ensures
        r == *o,
{
    match o {
        FetchOutcome::Parsed(q, remaining, reset) => FetchOutcome::Parsed(
            *q,
            clone_opt_string(remaining),
            clone_opt_string(reset),
        ),
        FetchOutcome::Undecodable(remaining, reset) => FetchOutcome::Undecodable(
            clone_opt_string(remaining),
            clone_opt_string(reset),
        ),
        FetchOutcome::TransportFailed => FetchOutcome::TransportFailed,
    }
}

/// Copies an optional string.
fn clone_opt_string(o: &Option<String>) -> (r: Option<String>)
    ensures
        r == *o,
{
    match o {
        Some(s) => Some(s.clone()),
        None => None,
    }
}

/// The fan-in step: one enriched quote per registry entry, in registry
/// order, whatever each task came back with. The batch always has exactly
/// the registry's length.
pub fn collect_batch(
    registry: &Vec<IndexEntry>,
    outcomes: &Vec<Option<FetchOutcome>>,
    now_millis: u128,
) -> (r: Vec<SymbolQuoteExtended>)
    requires
        outcomes@.len() == registry@.len(),
    ensures
        r@.len() == registry@.len(),
        forall|i: int|
            0 <= i < r@.len() ==> collected_matches(
                registry@[i],
                outcomes@[i],
                now_millis,
                #[trigger] r@[i],
            ),
{
    let mut out: Vec<SymbolQuoteExtended> = Vec::new();
    let mut i: usize = 0;
    while i < registry.len()
        invariant
            0 <= i <= registry@.len(),
            outcomes@.len() == registry@.len(),
            out@.len() == i,
            forall|j: int|
                0 <= j < i ==> collected_matches(
                    registry@[j],
                    outcomes@[j],
                    now_millis,
                    #[trigger] out@[j],
                ),
        decreases registry@.len() - i,
    {
        let q = match &outcomes[i] {
            Some(o) => enrich_quote(&registry[i], clone_outcome(o), now_millis),
            None => sentinel_quote(now_millis),
        };
        out.push(q);
        i = i + 1;
    }
    out
}

/// The derived market label: more gainers than losers, the reverse, or
/// neither.
#[derive(Clone, Copy, Debug, PartialEq, Eq, Structural)]
pub enum Sentiment {
    Bullish,
    Bearish,
    Neutral,
}

impl Sentiment {
    /// The label's wire spelling.
    pub open spec fn spec_str(&self) -> Seq<char> {
        match self {
            Sentiment::Bullish => "bullish"@,
            Sentiment::Bearish => "bearish"@,
            Sentiment::Neutral => "neutral"@,
        }
    }

    /// The label's wire spelling as a borrowed string.
    pub fn as_str(&self) -> (r: &str)
        ensures
            r@ == self.spec_str(),
    {
        match self {
            Sentiment::Bullish => "bullish",
            Sentiment::Bearish => "bearish",
            Sentiment::Neutral => "neutral",
        }
    }
}

/// An average kept exact: the sum of the scaled delta-percent values and
/// the number of quotes it ranges over. The quotient is taken only at the
/// serialization edge; an empty partition yields no average at all rather
/// than a propagated not-a-number.
#[derive(Clone, Copy, Debug, PartialEq, Eq, Structural)]
pub struct PercentAverage {
    pub sum: i128,
    pub count: usize,
}

/// The sentiment summary of one batch.
#[derive(Clone, Debug)]
pub struct AggregateResult {
    /// Quotes that gained, largest delta percent first.
    pub gainers: Vec<SymbolQuoteFrontend>,
    /// Quotes that lost, most negative delta percent first.
    pub losers: Vec<SymbolQuoteFrontend>,
    /// The market label derived from the partition sizes.
    pub sentiment: Sentiment,
    /// The exact average gain, absent when nothing gained.
    pub avg_gain_percent: Option<PercentAverage>,
    /// The exact average loss, absent when nothing lost.
    pub avg_loss_percent: Option<PercentAverage>,
    /// The smallest remaining call budget anywhere in the batch.
    pub rate_limit_remaining_min: u32,
    /// The reset time selected by the last-in-submission-order policy:
    /// deliberately the batch's final element, not the maximum across the
    /// batch, for compatibility with the service's observed behaviour.
    pub rate_limit_reset_selected: u128,
}

/// A quote that gained: positive delta percent.
pub open spec fn gain_pred() -> spec_fn(SymbolQuoteFrontend) -> bool {
    |q: SymbolQuoteFrontend| q.delta_percent > 0
}

/// A quote that lost: negative delta percent.
pub open spec fn loss_pred() -> spec_fn(SymbolQuoteFrontend) -> bool {
    |q: SymbolQuoteFrontend| q.delta_percent < 0
}

/// A zero-mover: delta percent exactly zero, excluded from both rankings.
pub open spec fn zero_pred() -> spec_fn(SymbolQuoteFrontend) -> bool {
    |q: SymbolQuoteFrontend| q.delta_percent == 0
}

/// The frontend projection as a first-class function.
pub open spec fn frontend_fn() -> spec_fn(SymbolQuoteExtended) -> SymbolQuoteFrontend {
    |q: SymbolQuoteExtended| frontend_of(q)
}

/// The batch's quotes stripped to their frontend slices, in batch order.
pub open spec fn spec_frontends(s: Seq<SymbolQuoteExtended>) -> Seq<SymbolQuoteFrontend> {
    s.map_values(frontend_fn())
}

/// Inserts `q` into a descending-sorted run, after every quote that gains
/// at least as much: a later tie never overtakes an earlier one.
pub open spec fn insert_desc(s: Seq<SymbolQuoteFrontend>, q: SymbolQuoteFrontend)
    -> Seq<SymbolQuoteFrontend>
    decreases s.len(),
{
    if s.len() == 0 {
        seq![q]
    } else if s.last().delta_percent >= q.delta_percent {
        s.push(q)
    } else {
        insert_desc(s.drop_last(), q).push(s.last())
    }
}

/// Stable insertion sort, largest delta percent first.
pub open spec fn sort_desc(s: Seq<SymbolQuoteFrontend>) -> Seq<SymbolQuoteFrontend>
    decreases s.len(),
{
    if s.len() == 0 {
        Seq::empty()
    } else {
        insert_desc(sort_desc(s.drop_last()), s.last())
    }
}

/// Inserts `q` into an ascending-sorted run, after every quote that lost
/// at least as much: a later tie never overtakes an earlier one.
pub open spec fn insert_asc(s: Seq<SymbolQuoteFrontend>, q: SymbolQuoteFrontend)
    -> Seq<SymbolQuoteFrontend>
    decreases s.len(),
{
    if s.len() == 0 {
        seq![q]
    } else if s.last().delta_percent <= q.delta_percent {
        s.push(q)
    } else {
        insert_asc(s.drop_last(), q).push(s.last())
    }
}

/// Stable insertion sort, most negative delta percent first.
pub open spec fn sort_asc(s: Seq<SymbolQuoteFrontend>) -> Seq<SymbolQuoteFrontend>
    decreases s.len(),
{
    if s.len() == 0 {
        Seq::empty()
    } else {
        insert_asc(sort_asc(s.drop_last()), s.last())
    }
}

/// The ranked gainers of a batch.
pub open spec fn spec_gainers(s: Seq<SymbolQuoteExtended>) -> Seq<SymbolQuoteFrontend> {
    sort_desc(spec_frontends(s).filter(gain_pred()))
}

/// The ranked losers of a batch.
pub open spec fn spec_losers(s: Seq<SymbolQuoteExtended>) -> Seq<SymbolQuoteFrontend> {
    sort_asc(spec_frontends(s).filter(loss_pred()))
}

/// The batch's zero-movers, in batch order.
pub open spec fn spec_zero_movers(s: Seq<SymbolQuoteExtended>) -> Seq<SymbolQuoteFrontend> {
    spec_frontends(s).filter(zero_pred())
}

/// The sum of a run's scaled delta-percent values.
pub open spec fn sum_delta_percent(s: Seq<SymbolQuoteFrontend>) -> int
    decreases s.len(),
{
    if s.len() == 0 {
        0
    } else {
        sum_delta_percent(s.drop_last()) + s.last().delta_percent
    }
}

/// The exact average of a run: nothing for an empty run.
pub open spec fn spec_avg(s: Seq<SymbolQuoteFrontend>) -> Option<PercentAverage> {
    if s.len() == 0 {
        None
    } else {
        Some(PercentAverage { sum: sum_delta_percent(s) as i128, count: s.len() as usize })
    }
}

/// The label derived from the partition sizes.
pub open spec fn sentiment_of(gainers: int, losers: int) -> Sentiment {
    if gainers > losers {
        Sentiment::Bullish
    } else if losers > gainers {
        Sentiment::Bearish
    } else {
        Sentiment::Neutral
    }
}

/// The smallest remaining-budget value across a batch.
pub open spec fn spec_min_remaining(s: Seq<SymbolQuoteExtended>) -> int
    decreases s.len(),
{
    if s.len() == 0 {
        0
    } else if s.len() == 1 {
        s[0].rate_limit_info.remaining as int
    } else if (s.last().rate_limit_info.remaining as int) < spec_min_remaining(s.drop_last()) {
        s.last().rate_limit_info.remaining as int
    } else {
        spec_min_remaining(s.drop_last())
    }
}

/// Everything `aggregate` owes for a batch: ranked partitions, label,
/// exact averages, the batch-wide minimum remaining budget, and the reset
/// time of the batch's last element in registry order.
pub open spec fn aggregate_matches(s: Seq<SymbolQuoteExtended>, r: AggregateResult) -> bool {
    &&& r.gainers@ == spec_gainers(s)
    &&& r.losers@ == spec_losers(s)
    &&& r.sentiment == sentiment_of(spec_gainers(s).len() as int, spec_losers(s).len() as int)
    &&& r.avg_gain_percent == spec_avg(spec_gainers(s))
    &&& r.avg_loss_percent == spec_avg(spec_losers(s))
    &&& r.rate_limit_remaining_min == spec_min_remaining(s)
    &&& r.rate_limit_reset_selected == s.last().rate_limit_info.reset_at
}

/// Inserts one quote into a descending run.
fn insert_sorted_desc(v: Vec<SymbolQuoteFrontend>, q: SymbolQuoteFrontend) -> (r: Vec<
    SymbolQuoteFrontend>)
    ensures
        r@ == insert_desc(v@, q),
    decreases v@.len(),
{
    let mut v = v;
    if v.len() == 0 {
        v.push(q);
        proof {
            assert(v@ =~= seq![q]);
        }
        v
    } else if v[v.len() - 1].delta_percent >= q.delta_percent {
        v.push(q);
        v
    } else {
        let last = v.pop().unwrap();
        let mut r = insert_sorted_desc(v, q);
        r.push(last);
        r
    }
}

/// Stable insertion sort of a gainers run, largest delta percent first.
pub fn sort_desc_vec(v: Vec<SymbolQuoteFrontend>) -> (r: Vec<SymbolQuoteFrontend>)
    ensures
        r@ == sort_desc(v@),
    decreases v@.len(),
{
    let mut v = v;
    if v.len() == 0 {
        v
    } else {
        let last = v.pop().unwrap();
        let sorted = sort_desc_vec(v);
        insert_sorted_desc(sorted, last)
    }
}

/// Inserts one quote into an ascending run.
fn insert_sorted_asc(v: Vec<SymbolQuoteFrontend>, q: SymbolQuoteFrontend) -> (r: Vec<
    SymbolQuoteFrontend>)
    ensures
        r@ == insert_asc(v@, q),
    decreases v@.len(),
{
    let mut v = v;
    if v.len() == 0 {
        v.push(q);
        proof {
            assert(v@ =~= seq![q]);
        }
        v
    } else if v[v.len() - 1].delta_percent <= q.delta_percent {
        v.push(q);
        v
    } else {
        let last = v.pop().unwrap();
        let mut r = insert_sorted_asc(v, q);
        r.push(last);
        r
    }
}

/// Stable insertion sort of a losers run, most negative first.
pub fn sort_asc_vec(v: Vec<SymbolQuoteFrontend>) -> (r: Vec<SymbolQuoteFrontend>)
    ensures
        r@ == sort_asc(v@),
    decreases v@.len(),
{
    let mut v = v;
    if v.len() == 0 {
        v
    } else {
        let last = v.pop().unwrap();
        let sorted = sort_asc_vec(v);
        insert_sorted_asc(sorted, last)
    }
}

/// The exact average of a run's delta-percent values: the sum never
/// leaves `i128`, and an empty run yields nothing.
pub fn average_of(v: &Vec<SymbolQuoteFrontend>) -> (r: Option<PercentAverage>)
    ensures
        r == spec_avg(v@),
{
    if v.len() == 0 {
        return None;
    }
    let mut sum: i128 = 0;
    let mut i: usize = 0;
    while i < v.len()
        invariant
            0 <= i <= v@.len(),
            sum == sum_delta_percent(v@.take(i as int)),
            (i as int) * (i64::MIN as int) <= sum <= (i as int) * (i64::MAX as int),
        decreases v@.len() - i,
    {
        proof {
            assert(v@.take(i + 1).drop_last() =~= v@.take(i as int));
            assert(v@.take(i + 1).last() == v@[i as int]);
        }
        sum = sum + v[i].delta_percent as i128;
        i = i + 1;
    }
    proof {
        assert(v@.take(v@.len() as int) =~= v@);
    }
    Some(PercentAverage { sum, count: v.len() })
}

/// The smallest remaining-budget value across a non-empty batch.
pub fn min_remaining(quotes: &Vec<SymbolQuoteExtended>) -> (r: u32)
    requires
        quotes@.len() > 0,
    ensures
        r == spec_min_remaining(quotes@),
{
    let mut min: u32 = quotes[0].rate_limit_info.remaining;
    let mut i: usize = 1;
    proof {
        assert(quotes@.take(1).len() == 1);
        assert(quotes@.take(1)[0] == quotes@[0]);
    }
    while i < quotes.len()
        invariant
            1 <= i <= quotes@.len(),
            min == spec_min_remaining(quotes@.take(i as int)),
        decreases quotes@.len() - i,
    {
        proof {
            assert(quotes@.take(i + 1).drop_last() =~= quotes@.take(i as int));
            assert(quotes@.take(i + 1).last() == quotes@[i as int]);
        }
        let x = quotes[i].rate_limit_info.remaining;
        if x < min {
            min = x;
        }
        i = i + 1;
    }
    proof {
        assert(quotes@.take(quotes@.len() as int) =~= quotes@);
    }
    min
}

/// Reduces a non-empty batch into its sentiment summary: partition by the
/// sign of the delta percent, rank each side, label the mood, average
/// each side exactly, and carry the rate-limit telemetry — the minimum
/// remaining budget over the whole batch and the reset time of the last
/// quote in registry order.
pub fn aggregate(quotes: &Vec<SymbolQuoteExtended>) -> (r: AggregateResult)
    requires
        quotes@.len() > 0,
    ensures
        aggregate_matches(quotes@, r),
{
    let ghost s = quotes@;
    let mut gainers_raw: Vec<SymbolQuoteFrontend> = Vec::new();
    let mut losers_raw: Vec<SymbolQuoteFrontend> = Vec::new();
    let mut i: usize = 0;
    while i < quotes.len()
        invariant
            0 <= i <= s.len(),
            s == quotes@,
            gainers_raw@ == spec_frontends(s.take(i as int)).filter(gain_pred()),
            losers_raw@ == spec_frontends(s.take(i as int)).filter(loss_pred()),
        decreases s.len() - i,
    {
        let f = to_frontend(&quotes[i]);
        proof {
            assert(s.take(i + 1) =~= s.take(i as int).push(s[i as int]));
            s.take(i as int).lemma_push_map_commute(frontend_fn(), s[i as int]);
            assert(spec_frontends(s.take(i + 1)) == spec_frontends(s.take(i as int)).push(f));
            spec_frontends(s.take(i as int)).lemma_filter_push(f, gain_pred());
            spec_frontends(s.take(i as int)).lemma_filter_push(f, loss_pred());
        }
        if f.delta_percent > 0 {
            gainers_raw.push(f);
        } else if f.delta_percent < 0 {
            losers_raw.push(f);
        }
        i = i + 1;
    }
    proof {
        assert(s.take(s.len() as int) =~= s);
    }
    let gainers = sort_desc_vec(gainers_raw);
    let losers = sort_asc_vec(losers_raw);
    let avg_gain_percent = average_of(&gainers);
    let avg_loss_percent = average_of(&losers);
    let sentiment = if gainers.len() > losers.len() {
        Sentiment::Bullish
    } else if losers.len() > gainers.len() {
        Sentiment::Bearish
    } else {
        Sentiment::Neutral
    };
    let rate_limit_remaining_min = min_remaining(quotes);
    let rate_limit_reset_selected = quotes[quotes.len() - 1].rate_limit_info.reset_at;
    AggregateResult {
        gainers,
        losers,
        sentiment,
        avg_gain_percent,
        avg_loss_percent,
        rate_limit_remaining_min,
        rate_limit_reset_selected,
    }
}

/// A run ranked by falling delta percent.
pub open spec fn sorted_desc(s: Seq<SymbolQuoteFrontend>) -> bool {
    forall|i: int, j: int|
        0 <= i < j < s.len() ==> #[trigger] s[i].delta_percent >= #[trigger] s[j].delta_percent
}

/// A run ranked by rising delta percent.
pub open spec fn sorted_asc(s: Seq<SymbolQuoteFrontend>) -> bool {
    forall|i: int, j: int|
        0 <= i < j < s.len() ==> #[trigger] s[i].delta_percent <= #[trigger] s[j].delta_percent
}

/// No two quotes of the run share a delta percent.
pub open spec fn no_dup_dp(s: Seq<SymbolQuoteFrontend>) -> bool {
    forall|i: int, j: int|
        0 <= i < j < s.len() ==> #[trigger] s[i].delta_percent != #[trigger] s[j].delta_percent
}

/// The quotes whose delta percent is exactly `d`.
pub open spec fn dp_is(d: int) -> spec_fn(SymbolQuoteFrontend) -> bool {
    |q: SymbolQuoteFrontend| q.delta_percent == d
}

proof fn lemma_insert_desc_props(s: Seq<SymbolQuoteFrontend>, q: SymbolQuoteFrontend)
    requires
        sorted_desc(s),
    ensures
        insert_desc(s, q).len() == s.len() + 1,
        sorted_desc(insert_desc(s, q)),
        insert_desc(s, q).to_multiset() =~= s.to_multiset().insert(q),
    decreases s.len(),
{
    broadcast use vstd::seq_lib::group_to_multiset_ensures;
    broadcast use vstd::multiset::group_multiset_axioms;

    let r = insert_desc(s, q);
    if s.len() == 0 {
        assert(r =~= s.push(q));
    } else if s.last().delta_percent >= q.delta_percent {
        assert(r == s.push(q));
        assert forall|i: int, j: int| 0 <= i < j < r.len() implies r[i].delta_percent
            >= r[j].delta_percent by {
            if j < s.len() {
            } else {
                if i < s.len() - 1 {
                    assert(s[i].delta_percent >= s[s.len() - 1].delta_percent);
                }
            }
        }
    } else {
        assert(sorted_desc(s.drop_last()));
        lemma_insert_desc_props(s.drop_last(), q);
        let inner = insert_desc(s.drop_last(), q);
        assert(r == inner.push(s.last()));
        assert(s =~= s.drop_last().push(s.last()));
        assert(s.to_multiset() =~= s.drop_last().to_multiset().insert(s.last()));
        assert(r.to_multiset() =~= inner.to_multiset().insert(s.last()));
        assert(r.to_multiset() =~= s.to_multiset().insert(q));
        assert forall|k: int| 0 <= k < inner.len() implies inner[k].delta_percent
            >= s.last().delta_percent by {
            assert(inner.contains(inner[k]));
            assert(inner.to_multiset().count(inner[k]) > 0);
            if inner[k] != q {
                assert(s.drop_last().to_multiset().count(inner[k]) > 0);
                assert(s.drop_last().contains(inner[k]));
                let m = choose|m: int|
                    0 <= m < s.drop_last().len() && s.drop_last()[m] == inner[k];
                assert(s[m] == inner[k]);
                assert(s[m].delta_percent >= s[s.len() - 1].delta_percent);
            }
        }
        assert forall|i: int, j: int| 0 <= i < j < r.len() implies r[i].delta_percent
            >= r[j].delta_percent by {
            if j < inner.len() {
                assert(inner[i].delta_percent >= inner[j].delta_percent);
            } else {
                assert(r[j] == s.last());
                assert(r[i] == inner[i]);
            }
        }
    }
}

proof fn lemma_sort_desc_props(s: Seq<SymbolQuoteFrontend>)
    ensures
        sort_desc(s).len() == s.len(),
        sorted_desc(sort_desc(s)),
        sort_desc(s).to_multiset() =~= s.to_multiset(),
    decreases s.len(),
{
    broadcast use vstd::seq_lib::group_to_multiset_ensures;
    broadcast use vstd::multiset::group_multiset_axioms;

    if s.len() > 0 {
        lemma_sort_desc_props(s.drop_last());
        lemma_insert_desc_props(sort_desc(s.drop_last()), s.last());
        assert(s =~= s.drop_last().push(s.last()));
        assert(s.to_multiset() =~= s.drop_last().to_multiset().insert(s.last()));
    }
}

proof fn lemma_insert_asc_props(s: Seq<SymbolQuoteFrontend>, q: SymbolQuoteFrontend)
    requires
        sorted_asc(s),
    ensures
        insert_asc(s, q).len() == s.len() + 1,
        sorted_asc(insert_asc(s, q)),
        insert_asc(s, q).to_multiset() =~= s.to_multiset().insert(q),
    decreases s.len(),
{
    broadcast use vstd::seq_lib::group_to_multiset_ensures;
    broadcast use vstd::multiset::group_multiset_axioms;

    let r = insert_asc(s, q);
    if s.len() == 0 {
        assert(r =~= s.push(q));
    } else if s.last().delta_percent <= q.delta_percent {
        assert(r == s.push(q));
        assert forall|i: int, j: int| 0 <= i < j < r.len() implies r[i].delta_percent
            <= r[j].delta_percent by {
            if j < s.len() {
            } else {
                if i < s.len() - 1 {
                    assert(s[i].delta_percent <= s[s.len() - 1].delta_percent);
                }
            }
        }
    } else {
        assert(sorted_asc(s.drop_last()));
        lemma_insert_asc_props(s.drop_last(), q);
        let inner = insert_asc(s.drop_last(), q);
        assert(r == inner.push(s.last()));
        assert(s =~= s.drop_last().push(s.last()));
        assert(s.to_multiset() =~= s.drop_last().to_multiset().insert(s.last()));
        assert(r.to_multiset() =~= inner.to_multiset().insert(s.last()));
        assert(r.to_multiset() =~= s.to_multiset().insert(q));
        assert forall|k: int| 0 <= k < inner.len() implies inner[k].delta_percent
            <= s.last().delta_percent by {
            assert(inner.contains(inner[k]));
            assert(inner.to_multiset().count(inner[k]) > 0);
            if inner[k] != q {
                assert(s.drop_last().to_multiset().count(inner[k]) > 0);
                assert(s.drop_last().contains(inner[k]));
                let m = choose|m: int|
                    0 <= m < s.drop_last().len() && s.drop_last()[m] == inner[k];
                assert(s[m] == inner[k]);
                assert(s[m].delta_percent <= s[s.len() - 1].delta_percent);
            }
        }
        assert forall|i: int, j: int| 0 <= i < j < r.len() implies r[i].delta_percent
            <= r[j].delta_percent by {
            if j < inner.len() {
                assert(inner[i].delta_percent <= inner[j].delta_percent);
            } else {
                assert(r[j] == s.last());
                assert(r[i] == inner[i]);
            }
        }
    }
}

proof fn lemma_sort_asc_props(s: Seq<SymbolQuoteFrontend>)
    ensures
        sort_asc(s).len() == s.len(),
        sorted_asc(sort_asc(s)),
        sort_asc(s).to_multiset() =~= s.to_multiset(),
    decreases s.len(),
{
    broadcast use vstd::seq_lib::group_to_multiset_ensures;
    broadcast use vstd::multiset::group_multiset_axioms;

    if s.len() > 0 {
        lemma_sort_asc_props(s.drop_last());
        lemma_insert_asc_props(sort_asc(s.drop_last()), s.last());
        assert(s =~= s.drop_last().push(s.last()));
        assert(s.to_multiset() =~= s.drop_last().to_multiset().insert(s.last()));
    }
}

/// Law: for every batch, the gainers ranking falls and the losers
/// ranking rises by delta percent; equal neighbours can only come from
/// tied quotes.
pub proof fn lemma_rankings_ordered(s: Seq<SymbolQuoteExtended>)
    ensures
        sorted_desc(spec_gainers(s)),
        sorted_asc(spec_losers(s)),
{
    lemma_sort_desc_props(spec_frontends(s).filter(gain_pred()));
    lemma_sort_asc_props(spec_frontends(s).filter(loss_pred()));
}

/// No two quotes of `t` that both satisfy `pred` share a delta percent.
pub open spec fn no_dup_dp_among(t: Seq<SymbolQuoteFrontend>, pred: spec_fn(SymbolQuoteFrontend)
    -> bool) -> bool {
    forall|i: int, j: int|
        0 <= i < j < t.len() && pred(#[trigger] t[i]) && pred(#[trigger] t[j]) ==> t[
            i
        ].delta_percent != t[j].delta_percent
}

proof fn lemma_filter_no_dup(t: Seq<SymbolQuoteFrontend>, pred: spec_fn(SymbolQuoteFrontend) -> bool)
    requires
        no_dup_dp_among(t, pred),
    ensures
        no_dup_dp(t.filter(pred)),
    decreases t.len(),
{
    if t.len() > 0 {
        assert(no_dup_dp_among(t.drop_last(), pred));
        lemma_filter_no_dup(t.drop_last(), pred);
        t.drop_last().lemma_filter_push(t.last(), pred);
        assert(t =~= t.drop_last().push(t.last()));
        let f0 = t.drop_last().filter(pred);
        if pred(t.last()) {
            assert(t.filter(pred) == f0.push(t.last()));
            assert forall|i: int, j: int| 0 <= i < j < f0.len() + 1 implies #[trigger] t.filter(
                pred,
            )[i].delta_percent != #[trigger] t.filter(pred)[j].delta_percent by {
                if j == f0.len() {
                    assert(f0.contains(f0[i]));
                    t.drop_last().lemma_filter_pred(pred, i);
                    t.drop_last().lemma_filter_contains_rev(pred, f0[i]);
                    let m = choose|m: int|
                        0 <= m < t.drop_last().len() && t.drop_last()[m] == f0[i];
                    assert(t[m] == f0[i]);
                    assert(pred(t[m]) && pred(t[t.len() - 1]));
                    assert(t[m].delta_percent != t[t.len() - 1].delta_percent);
                } else {
                    assert(f0[i].delta_percent != f0[j].delta_percent);
                }
            }
        } else {
            assert(t.filter(pred) == f0);
        }
    }
}

proof fn lemma_insert_desc_elems(s: Seq<SymbolQuoteFrontend>, q: SymbolQuoteFrontend)
    ensures
        forall|x: SymbolQuoteFrontend|
            insert_desc(s, q).contains(x) ==> s.contains(x) || x == q,
    decreases s.len(),
{
    let r = insert_desc(s, q);
    if s.len() == 0 {
        assert forall|x: SymbolQuoteFrontend| r.contains(x) implies s.contains(x) || x == q by {
            let k = choose|k: int| 0 <= k < r.len() && r[k] == x;
            assert(r[0] == q);
        }
    } else if s.last().delta_percent >= q.delta_percent {
        assert forall|x: SymbolQuoteFrontend| r.contains(x) implies s.contains(x) || x == q by {
            let k = choose|k: int| 0 <= k < r.len() && r[k] == x;
            if k < s.len() {
                assert(s[k] == x);
            }
        }
    } else {
        lemma_insert_desc_elems(s.drop_last(), q);
        let inner = insert_desc(s.drop_last(), q);
        assert(r == inner.push(s.last()));
        assert forall|x: SymbolQuoteFrontend| r.contains(x) implies s.contains(x) || x == q by {
            let k = choose|k: int| 0 <= k < r.len() && r[k] == x;
            if k < inner.len() {
                assert(inner[k] == x);
                assert(inner.contains(x));
                if !(x == q) {
                    assert(s.drop_last().contains(x));
                    let m = choose|m: int|
                        0 <= m < s.drop_last().len() && s.drop_last()[m] == x;
                    assert(s[m] == x);
                }
            } else {
                assert(x == s.last());
                assert(s[s.len() - 1] == x);
            }
        }
    }
}

proof fn lemma_insert_desc_no_dup(s: Seq<SymbolQuoteFrontend>, q: SymbolQuoteFrontend)
    requires
        no_dup_dp(s),
        forall|k: int| 0 <= k < s.len() ==> #[trigger] s[k].delta_percent != q.delta_percent,
    ensures
        no_dup_dp(insert_desc(s, q)),
    decreases s.len(),
{
    let r = insert_desc(s, q);
    if s.len() == 0 {
    } else if s.last().delta_percent >= q.delta_percent {
        assert forall|i: int, j: int| 0 <= i < j < r.len() implies r[i].delta_percent
            != r[j].delta_percent by {
            if j < s.len() {
            } else {
                assert(r[i] == s[i]);
            }
        }
    } else {
        assert(no_dup_dp(s.drop_last()));
        lemma_insert_desc_no_dup(s.drop_last(), q);
        lemma_insert_desc_elems(s.drop_last(), q);
        let inner = insert_desc(s.drop_last(), q);
        assert(r == inner.push(s.last()));
        assert forall|i: int, j: int| 0 <= i < j < r.len() implies r[i].delta_percent
            != r[j].delta_percent by {
            if j < inner.len() {
                assert(inner[i].delta_percent != inner[j].delta_percent);
            } else {
                assert(r[j] == s.last());
                assert(r[i] == inner[i]);
                assert(inner.contains(inner[i]));
                if inner[i] == q {
                } else {
                    assert(s.drop_last().contains(inner[i]));
                    let m = choose|m: int|
                        0 <= m < s.drop_last().len() && s.drop_last()[m] == inner[i];
                    assert(s[m] == inner[i]);
                    assert(s[m].delta_percent != s[s.len() - 1].delta_percent);
                }
            }
        }
    }
}

proof fn lemma_sort_desc_no_dup(t: Seq<SymbolQuoteFrontend>)
    requires
        no_dup_dp(t),
    ensures
        no_dup_dp(sort_desc(t)),
        forall|x: SymbolQuoteFrontend| sort_desc(t).contains(x) ==> t.contains(x),
    decreases t.len(),
{
    if t.len() > 0 {
        assert(no_dup_dp(t.drop_last()));
        lemma_sort_desc_no_dup(t.drop_last());
        let u = sort_desc(t.drop_last());
        assert forall|k: int| 0 <= k < u.len() implies #[trigger] u[k].delta_percent
            != t.last().delta_percent by {
            assert(u.contains(u[k]));
            assert(t.drop_last().contains(u[k]));
            let m = choose|m: int| 0 <= m < t.drop_last().len() && t.drop_last()[m] == u[k];
            assert(t[m] == u[k]);
            assert(t[m].delta_percent != t[t.len() - 1].delta_percent);
        }
        lemma_insert_desc_no_dup(u, t.last());
        lemma_insert_desc_elems(u, t.last());
        assert(sort_desc(t) == insert_desc(u, t.last()));
        assert forall|x: SymbolQuoteFrontend| sort_desc(t).contains(x) implies t.contains(x) by {
            assert(insert_desc(u, t.last()).contains(x));
            assert(u.contains(x) || x == t.last());
            if u.contains(x) {
                assert(t.drop_last().contains(x));
                let m = choose|m: int| 0 <= m < t.drop_last().len() && t.drop_last()[m] == x;
                assert(t[m] == x);
            } else {
                assert(t[t.len() - 1] == x);
            }
        }
    }
}

proof fn lemma_insert_asc_elems(s: Seq<SymbolQuoteFrontend>, q: SymbolQuoteFrontend)
    ensures
        forall|x: SymbolQuoteFrontend|
            insert_asc(s, q).contains(x) ==> s.contains(x) || x == q,
    decreases s.len(),
{
    let r = insert_asc(s, q);
    if s.len() == 0 {
        assert forall|x: SymbolQuoteFrontend| r.contains(x) implies s.contains(x) || x == q by {
            let k = choose|k: int| 0 <= k < r.len() && r[k] == x;
            assert(r[0] == q);
        }
    } else if s.last().delta_percent <= q.delta_percent {
        assert forall|x: SymbolQuoteFrontend| r.contains(x) implies s.contains(x) || x == q by {
            let k = choose|k: int| 0 <= k < r.len() && r[k] == x;
            if k < s.len() {
                assert(s[k] == x);
            }
        }
    } else {
        lemma_insert_asc_elems(s.drop_last(), q);
        let inner = insert_asc(s.drop_last(), q);
        assert(r == inner.push(s.last()));
        assert forall|x: SymbolQuoteFrontend| r.contains(x) implies s.contains(x) || x == q by {
            let k = choose|k: int| 0 <= k < r.len() && r[k] == x;
            if k < inner.len() {
                assert(inner[k] == x);
                assert(inner.contains(x));
                if !(x == q) {
                    assert(s.drop_last().contains(x));
                    let m = choose|m: int|
                        0 <= m < s.drop_last().len() && s.drop_last()[m] == x;
                    assert(s[m] == x);
                }
            } else {
                assert(x == s.last());
                assert(s[s.len() - 1] == x);
            }
        }
    }
}

proof fn lemma_insert_asc_no_dup(s: Seq<SymbolQuoteFrontend>, q: SymbolQuoteFrontend)
    requires
        no_dup_dp(s),
        forall|k: int| 0 <= k < s.len() ==> #[trigger] s[k].delta_percent != q.delta_percent,
    ensures
        no_dup_dp(insert_asc(s, q)),
    decreases s.len(),
{
    let r = insert_asc(s, q);
    if s.len() == 0 {
    } else if s.last().delta_percent <= q.delta_percent {
        assert forall|i: int, j: int| 0 <= i < j < r.len() implies r[i].delta_percent
            != r[j].delta_percent by {
            if j < s.len() {
            } else {
                assert(r[i] == s[i]);
            }
        }
    } else {
        assert(no_dup_dp(s.drop_last()));
        lemma_insert_asc_no_dup(s.drop_last(), q);
        lemma_insert_asc_elems(s.drop_last(), q);
        let inner = insert_asc(s.drop_last(), q);
        assert(r == inner.push(s.last()));
        assert forall|i: int, j: int| 0 <= i < j < r.len() implies r[i].delta_percent
            != r[j].delta_percent by {
            if j < inner.len() {
                assert(inner[i].delta_percent != inner[j].delta_percent);
            } else {
                assert(r[j] == s.last());
                assert(r[i] == inner[i]);
                assert(inner.contains(inner[i]));
                if inner[i] == q {
                } else {
                    assert(s.drop_last().contains(inner[i]));
                    let m = choose|m: int|
                        0 <= m < s.drop_last().len() && s.drop_last()[m] == inner[i];
                    assert(s[m] == inner[i]);
                    assert(s[m].delta_percent != s[s.len() - 1].delta_percent);
                }
            }
        }
    }
}

proof fn lemma_sort_asc_no_dup(t: Seq<SymbolQuoteFrontend>)
    requires
        no_dup_dp(t),
    ensures
        no_dup_dp(sort_asc(t)),
        forall|x: SymbolQuoteFrontend| sort_asc(t).contains(x) ==> t.contains(x),
    decreases t.len(),
{
    if t.len() > 0 {
        assert(no_dup_dp(t.drop_last()));
        lemma_sort_asc_no_dup(t.drop_last());
        let u = sort_asc(t.drop_last());
        assert forall|k: int| 0 <= k < u.len() implies #[trigger] u[k].delta_percent
            != t.last().delta_percent by {
            assert(u.contains(u[k]));
            assert(t.drop_last().contains(u[k]));
            let m = choose|m: int| 0 <= m < t.drop_last().len() && t.drop_last()[m] == u[k];
            assert(t[m] == u[k]);
            assert(t[m].delta_percent != t[t.len() - 1].delta_percent);
        }
        lemma_insert_asc_no_dup(u, t.last());
        lemma_insert_asc_elems(u, t.last());
        assert(sort_asc(t) == insert_asc(u, t.last()));
        assert forall|x: SymbolQuoteFrontend| sort_asc(t).contains(x) implies t.contains(x) by {
            assert(insert_asc(u, t.last()).contains(x));
            assert(u.contains(x) || x == t.last());
            if u.contains(x) {
                assert(t.drop_last().contains(x));
                let m = choose|m: int| 0 <= m < t.drop_last().len() && t.drop_last()[m] == x;
                assert(t[m] == x);
            } else {
                assert(t[t.len() - 1] == x);
            }
        }
    }
}

/// Law: when no two gainers of the batch tie and no two losers tie, the
/// gainers ranking is strictly descending and the losers ranking is
/// strictly ascending. (With tied quotes strictness cannot hold; ties
/// keep batch order instead — see `lemma_ties_stable`.)
pub proof fn lemma_rankings_strict(s: Seq<SymbolQuoteExtended>)
    requires
        forall|i: int, j: int|
            0 <= i < j < s.len() && #[trigger] s[i].delta_percent > 0 && #[trigger] s[
                j
            ].delta_percent > 0 ==> s[i].delta_percent != s[j].delta_percent,
        forall|i: int, j: int|
            0 <= i < j < s.len() && #[trigger] s[i].delta_percent < 0 && #[trigger] s[
                j
            ].delta_percent < 0 ==> s[i].delta_percent != s[j].delta_percent,
    ensures
        forall|i: int, j: int|
            0 <= i < j < spec_gainers(s).len() ==> #[trigger] spec_gainers(s)[i].delta_percent
                > #[trigger] spec_gainers(s)[j].delta_percent,
        forall|i: int, j: int|
            0 <= i < j < spec_losers(s).len() ==> #[trigger] spec_losers(s)[i].delta_percent
                < #[trigger] spec_losers(s)[j].delta_percent,
{
    lemma_rankings_ordered(s);
    let f = spec_frontends(s);
    assert(no_dup_dp_among(f, gain_pred())) by {
        assert forall|i: int, j: int|
            0 <= i < j < f.len() && gain_pred()(#[trigger] f[i]) && gain_pred()(
                #[trigger] f[j],
            ) implies f[i].delta_percent != f[j].delta_percent by {
            assert(f[i] == frontend_of(s[i]));
            assert(f[j] == frontend_of(s[j]));
        }
    }
    assert(no_dup_dp_among(f, loss_pred())) by {
        assert forall|i: int, j: int|
            0 <= i < j < f.len() && loss_pred()(#[trigger] f[i]) && loss_pred()(
                #[trigger] f[j],
            ) implies f[i].delta_percent != f[j].delta_percent by {
            assert(f[i] == frontend_of(s[i]));
            assert(f[j] == frontend_of(s[j]));
        }
    }
    lemma_filter_no_dup(f, gain_pred());
    lemma_filter_no_dup(f, loss_pred());
    lemma_sort_desc_no_dup(f.filter(gain_pred()));
    lemma_sort_asc_no_dup(f.filter(loss_pred()));
}

proof fn lemma_filter_partition(t: Seq<SymbolQuoteFrontend>)
    ensures
        t.filter(gain_pred()).to_multiset().add(t.filter(loss_pred()).to_multiset()).add(
            t.filter(zero_pred()).to_multiset(),
        ) =~= t.to_multiset(),
    decreases t.len(),
{
    broadcast use vstd::seq_lib::group_to_multiset_ensures;
    broadcast use vstd::multiset::group_multiset_axioms;

    if t.len() == 0 {
        t.lemma_filter_len(gain_pred());
        t.lemma_filter_len(loss_pred());
        t.lemma_filter_len(zero_pred());
        assert(t.filter(gain_pred()) =~= t);
        assert(t.filter(loss_pred()) =~= t);
        assert(t.filter(zero_pred()) =~= t);
        assert forall|x: SymbolQuoteFrontend| #[trigger] t.to_multiset().count(x) == 0 by {
            assert(!t.contains(x));
        }
    } else {
        lemma_filter_partition(t.drop_last());
        t.drop_last().lemma_filter_push(t.last(), gain_pred());
        t.drop_last().lemma_filter_push(t.last(), loss_pred());
        t.drop_last().lemma_filter_push(t.last(), zero_pred());
        assert(t =~= t.drop_last().push(t.last()));
        assert(t.to_multiset() =~= t.drop_last().to_multiset().insert(t.last()));
    }
}

/// Law: gainers, losers and zero-movers partition the batch — together
/// they hold exactly the batch's quotes, no overlap and no omission, and
/// each side holds only quotes of its sign.
pub proof fn lemma_partition(s: Seq<SymbolQuoteExtended>)
    ensures
        spec_gainers(s).to_multiset().add(spec_losers(s).to_multiset()).add(
            spec_zero_movers(s).to_multiset(),
        ) =~= spec_frontends(s).to_multiset(),
        forall|i: int|
            0 <= i < spec_gainers(s).len() ==> #[trigger] spec_gainers(s)[i].delta_percent > 0,
        forall|i: int|
            0 <= i < spec_losers(s).len() ==> #[trigger] spec_losers(s)[i].delta_percent < 0,
        forall|i: int|
            0 <= i < spec_zero_movers(s).len() ==> #[trigger] spec_zero_movers(
                s,
            )[i].delta_percent == 0,
{
    broadcast use vstd::seq_lib::group_to_multiset_ensures;
    broadcast use vstd::multiset::group_multiset_axioms;

    let f = spec_frontends(s);
    lemma_filter_partition(f);
    lemma_sort_desc_props(f.filter(gain_pred()));
    lemma_sort_asc_props(f.filter(loss_pred()));
    assert forall|i: int| 0 <= i < spec_gainers(s).len() implies #[trigger] spec_gainers(
        s,
    )[i].delta_percent > 0 by {
        let g = spec_gainers(s);
        assert(g.contains(g[i]));
        assert(g.to_multiset().count(g[i]) > 0);
        assert(f.filter(gain_pred()).contains(g[i]));
        let k = choose|k: int|
            0 <= k < f.filter(gain_pred()).len() && f.filter(gain_pred())[k] == g[i];
        f.lemma_filter_pred(gain_pred(), k);
    }
    assert forall|i: int| 0 <= i < spec_losers(s).len() implies #[trigger] spec_losers(
        s,
    )[i].delta_percent < 0 by {
        let l = spec_losers(s);
        assert(l.contains(l[i]));
        assert(l.to_multiset().count(l[i]) > 0);
        assert(f.filter(loss_pred()).contains(l[i]));
        let k = choose|k: int|
            0 <= k < f.filter(loss_pred()).len() && f.filter(loss_pred())[k] == l[i];
        f.lemma_filter_pred(loss_pred(), k);
    }
    assert forall|i: int| 0 <= i < spec_zero_movers(s).len() implies #[trigger] spec_zero_movers(
        s,
    )[i].delta_percent == 0 by {
        f.lemma_filter_pred(zero_pred(), i);
    }
}

proof fn lemma_insert_desc_stable(s: Seq<SymbolQuoteFrontend>, q: SymbolQuoteFrontend, d: int)
    ensures
        insert_desc(s, q).filter(dp_is(d)) == if q.delta_percent == d {
            s.filter(dp_is(d)).push(q)
        } else {
            s.filter(dp_is(d))
        },
    decreases s.len(),
{
    let r = insert_desc(s, q);
    if s.len() == 0 {
        assert(r =~= s.push(q));
        s.lemma_filter_push(q, dp_is(d));
    } else if s.last().delta_percent >= q.delta_percent {
        s.lemma_filter_push(q, dp_is(d));
    } else {
        lemma_insert_desc_stable(s.drop_last(), q, d);
        let inner = insert_desc(s.drop_last(), q);
        assert(r == inner.push(s.last()));
        inner.lemma_filter_push(s.last(), dp_is(d));
        s.drop_last().lemma_filter_push(s.last(), dp_is(d));
        assert(s =~= s.drop_last().push(s.last()));
    }
}

proof fn lemma_sort_desc_stable(t: Seq<SymbolQuoteFrontend>, d: int)
    ensures
        sort_desc(t).filter(dp_is(d)) == t.filter(dp_is(d)),
    decreases t.len(),
{
    if t.len() == 0 {
        assert(t =~= Seq::<SymbolQuoteFrontend>::empty());
        assert(sort_desc(t) == Seq::<SymbolQuoteFrontend>::empty());
    } else {
        lemma_sort_desc_stable(t.drop_last(), d);
        lemma_insert_desc_stable(sort_desc(t.drop_last()), t.last(), d);
        t.drop_last().lemma_filter_push(t.last(), dp_is(d));
        assert(t =~= t.drop_last().push(t.last()));
    }
}

proof fn lemma_insert_asc_stable(s: Seq<SymbolQuoteFrontend>, q: SymbolQuoteFrontend, d: int)
    ensures
        insert_asc(s, q).filter(dp_is(d)) == if q.delta_percent == d {
            s.filter(dp_is(d)).push(q)
        } else {
            s.filter(dp_is(d))
        },
    decreases s.len(),
{
    let r = insert_asc(s, q);
    if s.len() == 0 {
        assert(r =~= s.push(q));
        s.lemma_filter_push(q, dp_is(d));
    } else if s.last().delta_percent <= q.delta_percent {
        s.lemma_filter_push(q, dp_is(d));
    } else {
        lemma_insert_asc_stable(s.drop_last(), q, d);
        let inner = insert_asc(s.drop_last(), q);
        assert(r == inner.push(s.last()));
        inner.lemma_filter_push(s.last(), dp_is(d));
        s.drop_last().lemma_filter_push(s.last(), dp_is(d));
        assert(s =~= s.drop_last().push(s.last()));
    }
}

proof fn lemma_sort_asc_stable(t: Seq<SymbolQuoteFrontend>, d: int)
    ensures
        sort_asc(t).filter(dp_is(d)) == t.filter(dp_is(d)),
    decreases t.len(),
{
    if t.len() == 0 {
        assert(t =~= Seq::<SymbolQuoteFrontend>::empty());
        assert(sort_asc(t) == Seq::<SymbolQuoteFrontend>::empty());
    } else {
        lemma_sort_asc_stable(t.drop_last(), d);
        lemma_insert_asc_stable(sort_asc(t.drop_last()), t.last(), d);
        t.drop_last().lemma_filter_push(t.last(), dp_is(d));
        assert(t =~= t.drop_last().push(t.last()));
    }
}

/// Law: ties keep batch order. Among the quotes that share one delta
/// percent, each ranking lists them exactly as the filtered batch does —
/// ranking never reorders equals.
pub proof fn lemma_ties_stable(s: Seq<SymbolQuoteExtended>, d: int)
    ensures
        spec_gainers(s).filter(dp_is(d)) == spec_frontends(s).filter(gain_pred()).filter(
            dp_is(d),
        ),
        spec_losers(s).filter(dp_is(d)) == spec_frontends(s).filter(loss_pred()).filter(dp_is(d)),
{
    lemma_sort_desc_stable(spec_frontends(s).filter(gain_pred()), d);
    lemma_sort_asc_stable(spec_frontends(s).filter(loss_pred()), d);
}

/// Law: the reported remaining budget is the minimum over the whole,
/// unpartitioned batch — no smaller value exists and some quote carries
/// exactly it.
pub proof fn lemma_min_remaining_is_min(s: Seq<SymbolQuoteExtended>)
    requires
        s.len() > 0,
    ensures
        forall|i: int|
            0 <= i < s.len() ==> spec_min_remaining(s) <= #[trigger] s[
                i
            ].rate_limit_info.remaining,
        exists|i: int|
            0 <= i < s.len() && spec_min_remaining(s) == #[trigger] s[
                i
            ].rate_limit_info.remaining,
    decreases s.len(),
{
    if s.len() == 1 {
        assert(spec_min_remaining(s) == s[0].rate_limit_info.remaining);
    } else {
        lemma_min_remaining_is_min(s.drop_last());
        assert forall|i: int| 0 <= i < s.len() implies spec_min_remaining(s) <= #[trigger] s[
            i
        ].rate_limit_info.remaining by {
            if i < s.len() - 1 {
                assert(s.drop_last()[i] == s[i]);
                assert(spec_min_remaining(s.drop_last()) <= s[i].rate_limit_info.remaining);
            }
        }
        if (s.last().rate_limit_info.remaining as int) < spec_min_remaining(s.drop_last()) {
            assert(spec_min_remaining(s) == s[s.len() - 1].rate_limit_info.remaining);
        } else {
            let j = choose|j: int|
                0 <= j < s.drop_last().len() && spec_min_remaining(s.drop_last())
                    == #[trigger] s.drop_last()[j].rate_limit_info.remaining;
            assert(s[j] == s.drop_last()[j]);
            assert(spec_min_remaining(s) == s[j].rate_limit_info.remaining);
        }
    }
}

/// Law: the summary is a function of the batch alone — any two summaries
/// of one batch agree on every served field, so aggregating twice yields
/// identical output.
pub proof fn lemma_aggregate_deterministic(
    s: Seq<SymbolQuoteExtended>,
    r1: AggregateResult,
    r2: AggregateResult,
)
    requires
        aggregate_matches(s, r1),
        aggregate_matches(s, r2),
    ensures
        r1.gainers@ == r2.gainers@,
        r1.losers@ == r2.losers@,
        r1.sentiment == r2.sentiment,
        r1.avg_gain_percent == r2.avg_gain_percent,
        r1.avg_loss_percent == r2.avg_loss_percent,
        r1.rate_limit_remaining_min == r2.rate_limit_remaining_min,
        r1.rate_limit_reset_selected == r2.rate_limit_reset_selected,
{
}

} // verus!
