//! KPI accumulation over a telemetry trace, scanned once in order.
//!
//! The accumulator keeps the last decision (its side, mid and desired
//! quantity; the side gives slippage its sign),
//! the order-lifecycle clocks in microseconds, every fill (price, quantity,
//! fee) in order, and the event counters. From it come the latency KPIs:
//! time-to-ack (`ts_ack_rx - ts_order_tx`), time-to-first-fill and
//! time-to-complete. The price KPIs (average fill price, slippage, fill
//! ratio, total fees) are double arithmetic over the recorded fills.

use vstd::prelude::*;

use crate::events::{FillType, Side, TelemetryEnvelope, TelemetryEvent};
use crate::ieee::Ieee64;

verus! {

/// One fill as the KPIs use it.
#[derive(Clone, Copy, Debug, PartialEq, Eq, Structural)]
pub struct FillRecord {
    pub price: Ieee64,
    pub quantity: Ieee64,
    pub fee: Ieee64,
}

/// KPI accumulators, built by scanning the event log once.
pub struct KpiState {
    /// Side of the last strategy decision.
    pub decision_side: Option<Side>,
    /// Decision mid of the last strategy decision.
    pub decision_price: Option<Ieee64>,
    /// Desired quantity of the last strategy decision.
    pub desired_quantity: Option<Ieee64>,
    /// Order transmit clock of the last submitted order, in microseconds.
    pub ts_order_tx_us: Option<i128>,
    /// Ack receipt clock of the last ack, in microseconds.
    pub ts_ack_rx_us: Option<i128>,
    /// Receipt clock of the first fill that carried one.
    pub ts_first_fill_us: Option<i128>,
    /// Receipt clock of the last full fill that carried one.
    pub ts_done_fill_us: Option<i128>,
    /// Cumulative quantity reported by the last fill.
    pub cumulative_quantity: Ieee64,
    /// Every fill, in the order of the trace.
    pub fills: Vec<FillRecord>,
    pub fill_count: u32,
    pub partial_fills: u32,
    pub complete_fills: u32,
    pub events_total: u64,
    pub events_market_l1: u64,
    pub events_market_l2: u64,
}

/// The accumulator as a mathematical value.
pub struct KpiModel {
    pub decision_side: Option<Side>,
    pub decision_price: Option<Ieee64>,
    pub desired_quantity: Option<Ieee64>,
    pub ts_order_tx_us: Option<int>,
    pub ts_ack_rx_us: Option<int>,
    pub ts_first_fill_us: Option<int>,
    pub ts_done_fill_us: Option<int>,
    pub cumulative_quantity: Ieee64,
    pub fills: Seq<FillRecord>,
    pub fill_count: nat,
    pub partial_fills: nat,
    pub complete_fills: nat,
    pub events_total: nat,
    pub events_market_l1: nat,
    pub events_market_l2: nat,
}

/// The integer value of an optional clock reading.
pub open spec fn opt_int(x: Option<i128>) -> Option<int> {
    match x {
        Some(v) => Some(v as int),
        None => None,
    }
}

impl View for KpiState {
    type V = KpiModel;

    open spec fn view(&self) -> KpiModel {
        KpiModel {
            decision_side: self.decision_side,
            decision_price: self.decision_price,
            desired_quantity: self.desired_quantity,
            ts_order_tx_us: opt_int(self.ts_order_tx_us),
            ts_ack_rx_us: opt_int(self.ts_ack_rx_us),
            ts_first_fill_us: opt_int(self.ts_first_fill_us),
            ts_done_fill_us: opt_int(self.ts_done_fill_us),
            cumulative_quantity: self.cumulative_quantity,
            fills: self.fills@,
            fill_count: self.fill_count as nat,
            partial_fills: self.partial_fills as nat,
            complete_fills: self.complete_fills as nat,
            events_total: self.events_total as nat,
            events_market_l1: self.events_market_l1 as nat,
            events_market_l2: self.events_market_l2 as nat,
        }
    }
}

/// Nothing seen yet.
pub open spec fn initial_model() -> KpiModel {
    KpiModel {
        decision_side: None,
        decision_price: None,
        desired_quantity: None,
        ts_order_tx_us: None,
        ts_ack_rx_us: None,
        ts_first_fill_us: None,
        ts_done_fill_us: None,
        cumulative_quantity: Ieee64::spec_zero(),
        fills: Seq::empty(),
        fill_count: 0,
        partial_fills: 0,
        complete_fills: 0,
        events_total: 0,
        events_market_l1: 0,
        events_market_l2: 0,
    }
}

/// The effect of a fill on the accumulator.
pub open spec fn fill_step(m: KpiModel, env: TelemetryEnvelope) -> KpiModel
    recommends
        env.event is TradeFill,
{
    let e = env.event->TradeFill_0;
    let m2 = KpiModel {
        cumulative_quantity: e.cumulative_quantity,
        fills: m.fills.push(FillRecord { price: e.fill_price, quantity: e.fill_quantity, fee: e.fee }),
        fill_count: m.fill_count + 1,
        ..m
    };
    match env.timestamps.ts_fill_rx {
        Some(t) => {
            let us = t.spec_micros();
            let m3 = if m2.ts_first_fill_us is None {
                KpiModel { ts_first_fill_us: Some(us), ..m2 }
            } else {
                m2
            };
            if e.fill_type == FillType::Full {
                KpiModel { ts_done_fill_us: Some(us), complete_fills: m3.complete_fills + 1, ..m3 }
            } else {
                KpiModel { partial_fills: m3.partial_fills + 1, ..m3 }
            }
        },
        None => m2,
    }
}

/// The accumulator after seeing one more envelope.
pub open spec fn step(m: KpiModel, env: TelemetryEnvelope) -> KpiModel {
    let m1 = KpiModel { events_total: m.events_total + 1, ..m };
    match env.event {
        TelemetryEvent::MarketL1(_) => KpiModel { events_market_l1: m1.events_market_l1 + 1, ..m1 },
        TelemetryEvent::MarketL2(_) => KpiModel { events_market_l2: m1.events_market_l2 + 1, ..m1 },
        TelemetryEvent::StrategyDecision(e) => KpiModel {
            decision_side: Some(e.side),
            decision_price: Some(e.decision_price),
            desired_quantity: Some(e.desired_quantity),
            ..m1
        },
        TelemetryEvent::OrderSubmitted(_) => match env.timestamps.ts_order_tx {
            Some(t) => KpiModel { ts_order_tx_us: Some(t.spec_micros()), ..m1 },
            None => m1,
        },
        TelemetryEvent::OrderAck(_) => match env.timestamps.ts_ack_rx {
            Some(t) => KpiModel { ts_ack_rx_us: Some(t.spec_micros()), ..m1 },
            None => m1,
        },
        TelemetryEvent::TradeFill(_) => fill_step(m1, env),
        _ => m1,
    }
}

/// The accumulator after scanning a whole trace from the start.
pub open spec fn replay(envs: Seq<TelemetryEnvelope>) -> KpiModel
    decreases envs.len(),
{
    if envs.len() == 0 {
        initial_model()
    } else {
        step(replay(envs.drop_last()), envs.last())
    }
}

/// `to - from` when both clocks are known and the difference fits in an
/// `i128` (it always does for clocks read from timestamps).
pub open spec fn latency_between(from: Option<i128>, to: Option<i128>) -> Option<i128> {
    match (from, to) {
        (Some(a), Some(b)) => if i128::MIN <= b - a <= i128::MAX {
            Some((b - a) as i128)
        } else {
            None
        },
        _ => None,
    }
}

fn latency(from: Option<i128>, to: Option<i128>) -> (r: Option<i128>)
    ensures
        r == latency_between(from, to),
{
    match (from, to) {
        (Some(a), Some(b)) => b.checked_sub(a),
        _ => None,
    }
}

impl KpiState {
    /// An accumulator that has seen nothing.
    pub fn new() -> (s: KpiState)
        ensures
            s@ == initial_model(),
    {
        let s = KpiState {
            decision_side: None,
            decision_price: None,
            desired_quantity: None,
            ts_order_tx_us: None,
            ts_ack_rx_us: None,
            ts_first_fill_us: None,
            ts_done_fill_us: None,
            cumulative_quantity: Ieee64::zero(),
            fills: Vec::new(),
            fill_count: 0,
            partial_fills: 0,
            complete_fills: 0,
            events_total: 0,
            events_market_l1: 0,
            events_market_l2: 0,
        };
        assert(s@.fills =~= Seq::<FillRecord>::empty());
        s
    }

    /// Account for one more envelope of the trace. Each counter that the
    /// envelope moves must have room for one more.
    pub fn ingest(&mut self, envelope: &TelemetryEnvelope)
        requires
            old(self).events_total < u64::MAX,
            envelope.event is MarketL1 ==> old(self).events_market_l1 < u64::MAX,
            envelope.event is MarketL2 ==> old(self).events_market_l2 < u64::MAX,
            envelope.event is TradeFill ==> old(self).fill_count < u32::MAX,
            full_fill_clock(*envelope) is Some ==> old(self).complete_fills < u32::MAX,
            fill_clock(*envelope) is Some && full_fill_clock(*envelope) is None
                ==> old(self).partial_fills < u32::MAX,
        ensures
            final(self)@ == step(old(self)@, *envelope),
            old(self).ts_first_fill_us is Some ==> final(self).ts_first_fill_us
                == old(self).ts_first_fill_us,
    {
        self.events_total = self.events_total + 1;
        let ts = &envelope.timestamps;

        match &envelope.event {
            TelemetryEvent::MarketL1(_) => {
                self.events_market_l1 = self.events_market_l1 + 1;
            },
            TelemetryEvent::MarketL2(_) => {
                self.events_market_l2 = self.events_market_l2 + 1;
            },
            TelemetryEvent::StrategyDecision(e) => {
                self.decision_side = Some(e.side);
                self.decision_price = Some(e.decision_price);
                self.desired_quantity = Some(e.desired_quantity);
            },
            TelemetryEvent::OrderSubmitted(_) => {
                if let Some(t) = &ts.ts_order_tx {
                    self.ts_order_tx_us = Some(t.timestamp_micros());
                }
            },
            TelemetryEvent::OrderAck(_) => {
                if let Some(t) = &ts.ts_ack_rx {
                    self.ts_ack_rx_us = Some(t.timestamp_micros());
                }
            },
            TelemetryEvent::TradeFill(e) => {
                self.cumulative_quantity = e.cumulative_quantity;
                self.fills.push(
                    FillRecord { price: e.fill_price, quantity: e.fill_quantity, fee: e.fee },
                );
                self.fill_count = self.fill_count + 1;

                if let Some(t) = &ts.ts_fill_rx {
                    let us = t.timestamp_micros();
                    if self.ts_first_fill_us.is_none() {
                        self.ts_first_fill_us = Some(us);
                    }
                    if e.fill_type == FillType::Full {
                        self.ts_done_fill_us = Some(us);
                        self.complete_fills = self.complete_fills + 1;
                    } else {
                        self.partial_fills = self.partial_fills + 1;
                    }
                }
            },
            TelemetryEvent::RiskCheck(_)
            | TelemetryEvent::OrderRejected(_)
            | TelemetryEvent::SystemLatency(_) => {},
        }
    }

    /// Time-to-ack: `ts_ack_rx - ts_order_tx` in microseconds, when both
    /// are known.
    pub fn time_to_ack(&self) -> (r: Option<i128>)
        ensures
            r == latency_between(self.ts_order_tx_us, self.ts_ack_rx_us),
    {
        latency(self.ts_order_tx_us, self.ts_ack_rx_us)
    }

    /// Time-to-first-fill: first `ts_fill_rx - ts_order_tx` in microseconds.
    pub fn time_to_first_fill(&self) -> (r: Option<i128>)
        ensures
            r == latency_between(self.ts_order_tx_us, self.ts_first_fill_us),
    {
        latency(self.ts_order_tx_us, self.ts_first_fill_us)
    }

    /// Time-to-complete: final full fill's `ts_fill_rx - ts_order_tx`.
    pub fn time_to_complete(&self) -> (r: Option<i128>)
        ensures
            r == latency_between(self.ts_order_tx_us, self.ts_done_fill_us),
    {
        latency(self.ts_order_tx_us, self.ts_done_fill_us)
    }
}

/// The fill-receipt clock of a fill envelope, in microseconds; `None` for
/// other events and for fills without that clock.
pub open spec fn fill_clock(env: TelemetryEnvelope) -> Option<int> {
    match env.event {
        TelemetryEvent::TradeFill(_) => match env.timestamps.ts_fill_rx {
            Some(t) => Some(t.spec_micros()),
            None => None,
        },
        _ => None,
    }
}

/// The fill-receipt clock of a full (final) fill envelope.
pub open spec fn full_fill_clock(env: TelemetryEnvelope) -> Option<int> {
    match env.event {
        TelemetryEvent::TradeFill(e) => if e.fill_type == FillType::Full {
            fill_clock(env)
        } else {
            None
        },
        _ => None,
    }
}

/// Counting over a replayed trace: every envelope is counted once, every
/// fill is recorded, and the partial and complete fills (those carrying a
/// receipt clock) are among the fills; the market-data counts are among
/// the envelopes.
pub proof fn lemma_replay_counts(envs: Seq<TelemetryEnvelope>)
    ensures
        replay(envs).events_total == envs.len(),
        replay(envs).fill_count == replay(envs).fills.len(),
        replay(envs).partial_fills + replay(envs).complete_fills <= replay(envs).fill_count,
        replay(envs).events_market_l1 + replay(envs).events_market_l2 <= replay(envs).events_total,
    decreases envs.len(),
{
    if envs.len() > 0 {
        lemma_replay_counts(envs.drop_last());
    }
}

/// Time-to-first-fill starts from the first fill of the trace that carries
/// a receipt clock: the accumulator holds that fill's clock, and holds none
/// exactly when no fill carries one.
#[verifier::spinoff_prover]
#[verifier::rlimit(40)]
pub proof fn lemma_first_fill_clock(envs: Seq<TelemetryEnvelope>)
    ensures
        (replay(envs).ts_first_fill_us is None) <==> (forall|i: int|
            0 <= i < envs.len() ==> #[trigger] fill_clock(envs[i]) is None),
        forall|i: int|
            0 <= i < envs.len() && #[trigger] fill_clock(envs[i]) is Some && (forall|j: int|
                0 <= j < i ==> fill_clock(envs[j]) is None) ==> replay(envs).ts_first_fill_us
                == fill_clock(envs[i]),
    decreases envs.len(),
{
    if envs.len() > 0 {
        let prefix = envs.drop_last();
        lemma_first_fill_clock(prefix);
        assert forall|i: int| 0 <= i < prefix.len() implies prefix[i] == envs[i] by {}
        let last = envs.last();
        let m1 = KpiModel { events_total: replay(prefix).events_total + 1, ..replay(prefix) };
        if last.event is TradeFill {
            assert(replay(envs) == fill_step(m1, last));
        }
        if replay(prefix).ts_first_fill_us is None {
            if fill_clock(last) is None {
                assert forall|i: int| 0 <= i < envs.len() implies #[trigger] fill_clock(envs[i]) is None by {
                    if i < prefix.len() {
                        assert(fill_clock(prefix[i]) is None);
                    }
                }
            }
        } else {
            let k = choose|k: int| 0 <= k < prefix.len() && #[trigger] fill_clock(prefix[k]) is Some;
            assert(fill_clock(envs[k]) is Some);
        }
        assert forall|i: int|
            0 <= i < envs.len() && #[trigger] fill_clock(envs[i]) is Some && (forall|j: int|
                0 <= j < i ==> fill_clock(envs[j]) is None) implies replay(envs).ts_first_fill_us
            == fill_clock(envs[i]) by {
            if i < prefix.len() {
                assert(fill_clock(prefix[i]) is Some);
                assert forall|j: int| 0 <= j < i implies fill_clock(prefix[j]) is None by {
                    assert(fill_clock(envs[j]) is None);
                }
            } else {
                assert forall|j: int| 0 <= j < prefix.len() implies #[trigger] fill_clock(prefix[j]) is None by {
                    assert(fill_clock(envs[j]) is None);
                }
            }
        }
    }
}

/// Time-to-complete ends at the last full fill of the trace that carries a
/// receipt clock: the accumulator holds that fill's clock, and holds none
/// exactly when no full fill carries one.
#[verifier::spinoff_prover]
#[verifier::rlimit(40)]
pub proof fn lemma_done_fill_clock(envs: Seq<TelemetryEnvelope>)
    ensures
        (replay(envs).ts_done_fill_us is None) <==> (forall|i: int|
            0 <= i < envs.len() ==> #[trigger] full_fill_clock(envs[i]) is None),
        forall|i: int|
            0 <= i < envs.len() && #[trigger] full_fill_clock(envs[i]) is Some && (forall|j: int|
                i < j < envs.len() ==> full_fill_clock(envs[j]) is None) ==> replay(
                envs,
            ).ts_done_fill_us == full_fill_clock(envs[i]),
    decreases envs.len(),
{
    if envs.len() > 0 {
        let prefix = envs.drop_last();
        let n = prefix.len() as int;
        lemma_done_fill_clock(prefix);
        assert forall|i: int| 0 <= i < prefix.len() implies prefix[i] == envs[i] by {}
        let last = envs.last();
        let m1 = KpiModel { events_total: replay(prefix).events_total + 1, ..replay(prefix) };
        if last.event is TradeFill {
            assert(replay(envs) == fill_step(m1, last));
        }
        if full_fill_clock(last) is Some {
            assert(replay(envs).ts_done_fill_us == full_fill_clock(last));
            assert(full_fill_clock(envs[n]) is Some);
        } else {
            assert(replay(envs).ts_done_fill_us == replay(prefix).ts_done_fill_us);
            if replay(prefix).ts_done_fill_us is None {
                assert forall|i: int| 0 <= i < envs.len() implies #[trigger] full_fill_clock(envs[i]) is None by {
                    if i < n {
                        assert(full_fill_clock(prefix[i]) is None);
                    }
                }
            } else {
                let k = choose|k: int| 0 <= k < n && #[trigger] full_fill_clock(prefix[k]) is Some;
                assert(full_fill_clock(envs[k]) is Some);
            }
            assert forall|i: int|
                0 <= i < envs.len() && #[trigger] full_fill_clock(envs[i]) is Some && (forall|j: int|
                    i < j < envs.len() ==> full_fill_clock(envs[j]) is None) implies replay(
                envs,
            ).ts_done_fill_us == full_fill_clock(envs[i]) by {
                assert(i < n);
                assert(full_fill_clock(prefix[i]) is Some);
                assert forall|j: int| i < j < n implies full_fill_clock(prefix[j]) is None by {
                    assert(full_fill_clock(envs[j]) is None);
                }
            }
        }
    }
}

/// A bound on every microsecond clock read from a timestamp.
pub open spec fn clock_bound() -> int {
    9_223_372_036_854_775_808int * 1_000_000 + 4_294_968
}

/// The clocks an accumulator keeps are readings of timestamps, so they lie
/// within `clock_bound`.
pub open spec fn clocks_bounded(m: KpiModel) -> bool {
    &&& m.ts_order_tx_us matches Some(x) ==> -clock_bound() <= x <= clock_bound()
    &&& m.ts_ack_rx_us matches Some(x) ==> -clock_bound() <= x <= clock_bound()
    &&& m.ts_first_fill_us matches Some(x) ==> -clock_bound() <= x <= clock_bound()
    &&& m.ts_done_fill_us matches Some(x) ==> -clock_bound() <= x <= clock_bound()
}

proof fn lemma_replay_clocks_bounded(envs: Seq<TelemetryEnvelope>)
    ensures
        clocks_bounded(replay(envs)),
    decreases envs.len(),
{
    if envs.len() > 0 {
        lemma_replay_clocks_bounded(envs.drop_last());
        let last = envs.last();
        let prefix = envs.drop_last();
        let m1 = KpiModel { events_total: replay(prefix).events_total + 1, ..replay(prefix) };
        if last.event is TradeFill {
            assert(replay(envs) == fill_step(m1, last));
        }
    }
}

/// For an accumulator that scanned a trace, each latency KPI is reported
/// exactly when both of its clocks were seen, and is their difference.
pub proof fn lemma_latencies_reported(s: KpiState, envs: Seq<TelemetryEnvelope>)
    requires
        s@ == replay(envs),
    ensures
        latency_between(s.ts_order_tx_us, s.ts_ack_rx_us) is Some <==> (s.ts_order_tx_us is Some
            && s.ts_ack_rx_us is Some),
        latency_between(s.ts_order_tx_us, s.ts_first_fill_us) is Some <==> (s.ts_order_tx_us is Some
            && s.ts_first_fill_us is Some),
        latency_between(s.ts_order_tx_us, s.ts_done_fill_us) is Some <==> (s.ts_order_tx_us is Some
            && s.ts_done_fill_us is Some),
{
    lemma_replay_clocks_bounded(envs);
}

/// How many envelopes of `envs` carry a fill.
pub open spec fn count_fills(envs: Seq<TelemetryEnvelope>) -> nat
    decreases envs.len(),
{
    if envs.len() == 0 {
        0
    } else {
        count_fills(envs.drop_last()) + if envs.last().event is TradeFill {
            1nat
        } else {
            0nat
        }
    }
}

/// Every fill envelope of the trace, and only those, is counted and
/// recorded as a fill.
pub proof fn lemma_fill_count(envs: Seq<TelemetryEnvelope>)
    ensures
        replay(envs).fill_count == count_fills(envs),
        replay(envs).fills.len() == count_fills(envs),
    decreases envs.len(),
{
    if envs.len() > 0 {
        lemma_fill_count(envs.drop_last());
        lemma_replay_counts(envs);
        let prefix = envs.drop_last();
        let last = envs.last();
        let m1 = KpiModel { events_total: replay(prefix).events_total + 1, ..replay(prefix) };
        if last.event is TradeFill {
            assert(replay(envs) == fill_step(m1, last));
        }
    }
}

/// The first-fill clock, once known, never changes: whatever the trace
/// goes on with, the accumulator keeps the clock it held after the first
/// `k` envelopes.
pub proof fn lemma_first_fill_kept(envs: Seq<TelemetryEnvelope>, k: int)
    requires
        0 <= k <= envs.len(),
        replay(envs.take(k)).ts_first_fill_us is Some,
    ensures
        replay(envs).ts_first_fill_us == replay(envs.take(k)).ts_first_fill_us,
    decreases envs.len(),
{
    if k < envs.len() {
        let prefix = envs.drop_last();
        assert(prefix.take(k) =~= envs.take(k));
        lemma_first_fill_kept(prefix, k);
        let last = envs.last();
        let m1 = KpiModel { events_total: replay(prefix).events_total + 1, ..replay(prefix) };
        if last.event is TradeFill {
            assert(replay(envs) == fill_step(m1, last));
        }
    } else {
        assert(envs.take(k) =~= envs);
    }
}

/// A run of `ingest` calls from a fresh accumulator: `states[i + 1]` is
/// the accumulator after ingesting `envs[i]` from `states[i]`, and
/// `states[0]` is what `KpiState::new` gives. The accumulator then is the
/// replay of the trace, so every law stated of `replay` holds of it: one
/// count per call, one fill recorded per fill envelope, partial and
/// complete fills among the fills, the first-fill clock kept once known.
pub proof fn lemma_ingest_run_is_replay(states: Seq<KpiModel>, envs: Seq<TelemetryEnvelope>)
    requires
        states.len() == envs.len() + 1,
        states[0] == initial_model(),
        forall|i: int| 0 <= i < envs.len() ==> states[i + 1] == step(states[i], #[trigger] envs[i]),
    ensures
        states.last() == replay(envs),
        states.last().events_total == envs.len(),
        states.last().fill_count == count_fills(envs),
        states.last().fills.len() == count_fills(envs),
        states.last().partial_fills + states.last().complete_fills <= states.last().fill_count,
        states.last().events_market_l1 + states.last().events_market_l2 <= states.last().events_total,
    decreases envs.len(),
{
    if envs.len() > 0 {
        let n = envs.len() - 1;
        let earlier = states.drop_last();
        assert forall|i: int| 0 <= i < envs.drop_last().len() implies earlier[i + 1] == step(
            earlier[i],
            #[trigger] envs.drop_last()[i],
        ) by {
            assert(states[i + 1] == step(states[i], envs[i]));
        }
        lemma_ingest_run_is_replay(earlier, envs.drop_last());
        assert(states[n + 1] == step(states[n], envs[n]));
        assert(envs.last() == envs[n]);
    }
    lemma_replay_counts(envs);
    lemma_fill_count(envs);
}

/// `v` is what `f` gives for the last envelope of `envs` that it gives a
/// value for, and `None` when it gives a value for none of them.
pub open spec fn is_last_given<V>(
    envs: Seq<TelemetryEnvelope>,
    f: spec_fn(TelemetryEnvelope) -> Option<V>,
    v: Option<V>,
) -> bool {
    &&& (v is None) <==> (forall|i: int| 0 <= i < envs.len() ==> #[trigger] f(envs[i]) is None)
    &&& forall|i: int|
        0 <= i < envs.len() && #[trigger] f(envs[i]) is Some && (forall|j: int|
            i < j < envs.len() ==> f(envs[j]) is None) ==> v == f(envs[i])
}

/// Extending a trace by one envelope: the last value given is the new
/// envelope's, when `f` gives one for it, and otherwise the earlier one.
proof fn lemma_last_given_step<V>(
    envs: Seq<TelemetryEnvelope>,
    f: spec_fn(TelemetryEnvelope) -> Option<V>,
    earlier: Option<V>,
    v: Option<V>,
)
    requires
        envs.len() > 0,
        is_last_given(envs.drop_last(), f, earlier),
        v == (if f(envs.last()) is Some {
            f(envs.last())
        } else {
            earlier
        }),
    ensures
        is_last_given(envs, f, v),
{
    let prefix = envs.drop_last();
    let n = prefix.len() as int;
    assert(envs[n] == envs.last());
    assert forall|i: int| 0 <= i < n implies prefix[i] == envs[i] by {}
    if f(envs.last()) is Some {
        assert(f(envs[n]) is Some);
        assert forall|i: int|
            0 <= i < envs.len() && #[trigger] f(envs[i]) is Some && (forall|j: int|
                i < j < envs.len() ==> f(envs[j]) is None) implies v == f(envs[i]) by {
            if i < n {
                assert(f(envs[n]) is None);
            }
        }
    } else {
        if earlier is None {
            assert forall|i: int| 0 <= i < envs.len() implies #[trigger] f(envs[i]) is None by {
                if i < n {
                    assert(f(prefix[i]) is None);
                }
            }
        } else {
            let k = choose|k: int| 0 <= k < n && #[trigger] f(prefix[k]) is Some;
            assert(f(envs[k]) is Some);
        }
        assert forall|i: int|
            0 <= i < envs.len() && #[trigger] f(envs[i]) is Some && (forall|j: int|
                i < j < envs.len() ==> f(envs[j]) is None) implies v == f(envs[i]) by {
            assert(i < n);
            assert(f(prefix[i]) is Some);
            assert forall|j: int| i < j < n implies f(prefix[j]) is None by {
                assert(f(envs[j]) is None);
            }
        }
    }
}

/// The order-transmit clock of a submitted order, in microseconds; `None`
/// for other events and for orders without that clock.
pub open spec fn order_tx_clock(env: TelemetryEnvelope) -> Option<int> {
    match env.event {
        TelemetryEvent::OrderSubmitted(_) => match env.timestamps.ts_order_tx {
            Some(t) => Some(t.spec_micros()),
            None => None,
        },
        _ => None,
    }
}

/// Time-to-ack, time-to-first-fill and time-to-complete are measured from
/// the last submitted order of the trace that carries a transmit clock: the
/// accumulator holds that order's clock, and none when no order carries one.
pub proof fn lemma_order_tx_clock(envs: Seq<TelemetryEnvelope>)
    ensures
        is_last_given(envs, |e: TelemetryEnvelope| order_tx_clock(e), replay(envs).ts_order_tx_us),
    decreases envs.len(),
{
    if envs.len() > 0 {
        lemma_order_tx_clock(envs.drop_last());
        lemma_last_given_step(
            envs,
            |e: TelemetryEnvelope| order_tx_clock(e),
            replay(envs.drop_last()).ts_order_tx_us,
            replay(envs).ts_order_tx_us,
        );
    }
}

/// The ack-receipt clock of an ack, in microseconds; `None` for other
/// events and for acks without that clock.
pub open spec fn ack_clock(env: TelemetryEnvelope) -> Option<int> {
    match env.event {
        TelemetryEvent::OrderAck(_) => match env.timestamps.ts_ack_rx {
            Some(t) => Some(t.spec_micros()),
            None => None,
        },
        _ => None,
    }
}

/// The side of a strategy decision.
pub open spec fn decision_side_of(env: TelemetryEnvelope) -> Option<Side> {
    match env.event {
        TelemetryEvent::StrategyDecision(e) => Some(e.side),
        _ => None,
    }
}

/// The decision mid of a strategy decision.
pub open spec fn decision_price_of(env: TelemetryEnvelope) -> Option<Ieee64> {
    match env.event {
        TelemetryEvent::StrategyDecision(e) => Some(e.decision_price),
        _ => None,
    }
}

/// The desired quantity of a strategy decision.
pub open spec fn desired_quantity_of(env: TelemetryEnvelope) -> Option<Ieee64> {
    match env.event {
        TelemetryEvent::StrategyDecision(e) => Some(e.desired_quantity),
        _ => None,
    }
}

/// The cumulative filled quantity a fill reports, whatever its type.
pub open spec fn fill_cumulative(env: TelemetryEnvelope) -> Option<Ieee64> {
    match env.event {
        TelemetryEvent::TradeFill(e) => Some(e.cumulative_quantity),
        _ => None,
    }
}

/// The price, quantity and fee of a fill.
pub open spec fn fill_record_of(env: TelemetryEnvelope) -> Option<FillRecord> {
    match env.event {
        TelemetryEvent::TradeFill(e) => Some(
            FillRecord { price: e.fill_price, quantity: e.fill_quantity, fee: e.fee },
        ),
        _ => None,
    }
}

/// The values `f` gives for the envelopes of `envs`, in trace order.
pub open spec fn values_given<V>(
    envs: Seq<TelemetryEnvelope>,
    f: spec_fn(TelemetryEnvelope) -> Option<V>,
) -> Seq<V>
    decreases envs.len(),
{
    if envs.len() == 0 {
        Seq::empty()
    } else {
        match f(envs.last()) {
            Some(v) => values_given(envs.drop_last(), f).push(v),
            None => values_given(envs.drop_last(), f),
        }
    }
}

/// How many envelopes of `envs` satisfy `p`.
pub open spec fn count_where(envs: Seq<TelemetryEnvelope>, p: spec_fn(TelemetryEnvelope) -> bool) -> nat
    decreases envs.len(),
{
    if envs.len() == 0 {
        0
    } else {
        count_where(envs.drop_last(), p) + if p(envs.last()) {
            1nat
        } else {
            0nat
        }
    }
}

/// What the accumulator holds after a trace, field by field, in terms of
/// the trace itself:
/// - the ack clock is that of the last ack carrying one;
/// - the decision side, mid and desired quantity are those of the last
///   strategy decision;
/// - the cumulative quantity is the one reported by the last fill, of any
///   type, and `+0.0` when there is no fill;
/// - the fills are the price, quantity and fee of every fill, in order;
/// - the market-data counts are the numbers of L1 and L2 envelopes, the
///   complete fills the full fills carrying a receipt clock and the
///   partial fills the other fills carrying one.
pub proof fn lemma_replay_fields(envs: Seq<TelemetryEnvelope>)
    ensures
        is_last_given(envs, |e: TelemetryEnvelope| ack_clock(e), replay(envs).ts_ack_rx_us),
        is_last_given(envs, |e: TelemetryEnvelope| decision_side_of(e), replay(envs).decision_side),
        is_last_given(envs, |e: TelemetryEnvelope| decision_price_of(e), replay(envs).decision_price),
        is_last_given(
            envs,
            |e: TelemetryEnvelope| desired_quantity_of(e),
            replay(envs).desired_quantity,
        ),
        is_last_given(
            envs,
            |e: TelemetryEnvelope| fill_cumulative(e),
            if count_fills(envs) == 0 {
                None
            } else {
                Some(replay(envs).cumulative_quantity)
            },
        ),
        count_fills(envs) == 0 ==> replay(envs).cumulative_quantity == Ieee64::spec_zero(),
        replay(envs).fills == values_given(envs, |e: TelemetryEnvelope| fill_record_of(e)),
        replay(envs).events_market_l1 == count_where(envs, |e: TelemetryEnvelope| e.event is MarketL1),
        replay(envs).events_market_l2 == count_where(envs, |e: TelemetryEnvelope| e.event is MarketL2),
        replay(envs).complete_fills == count_where(
            envs,
            |e: TelemetryEnvelope| full_fill_clock(e) is Some,
        ),
        replay(envs).partial_fills == count_where(
            envs,
            |e: TelemetryEnvelope| fill_clock(e) is Some && full_fill_clock(e) is None,
        ),
    decreases envs.len(),
{
    if envs.len() > 0 {
        let prefix = envs.drop_last();
        lemma_replay_fields(prefix);
        let last = envs.last();
        let m1 = KpiModel { events_total: replay(prefix).events_total + 1, ..replay(prefix) };
        if last.event is TradeFill {
            assert(replay(envs) == fill_step(m1, last));
        }
        lemma_last_given_step(
            envs,
            |e: TelemetryEnvelope| ack_clock(e),
            replay(prefix).ts_ack_rx_us,
            replay(envs).ts_ack_rx_us,
        );
        lemma_last_given_step(
            envs,
            |e: TelemetryEnvelope| decision_side_of(e),
            replay(prefix).decision_side,
            replay(envs).decision_side,
        );
        lemma_last_given_step(
            envs,
            |e: TelemetryEnvelope| decision_price_of(e),
            replay(prefix).decision_price,
            replay(envs).decision_price,
        );
        lemma_last_given_step(
            envs,
            |e: TelemetryEnvelope| desired_quantity_of(e),
            replay(prefix).desired_quantity,
            replay(envs).desired_quantity,
        );
        lemma_last_given_step(
            envs,
            |e: TelemetryEnvelope| fill_cumulative(e),
            if count_fills(prefix) == 0 {
                None
            } else {
                Some(replay(prefix).cumulative_quantity)
            },
            if count_fills(envs) == 0 {
                None
            } else {
                Some(replay(envs).cumulative_quantity)
            },
        );
    }
}

} // verus!
