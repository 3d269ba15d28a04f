//! A telemetry session: one trace ID shared by every event of a run, and a
//! validating writer. Writing is never fatal: an event that cannot be
//! written is dropped and the session goes on.

use vstd::prelude::*;

use crate::events::{
    Side, StrategyDecisionEvent, SystemLatencyEvent, TelemetryEnvelope, TelemetryEvent,
    SCHEMA_VERSION,
};
use crate::ids::{is_uuid_v4, lemma_uuid_v4_not_nil, DecisionId, SymbolId, TraceId};
use crate::ieee::Ieee64;
use crate::timestamps::{now, EventTimestamps};
use crate::validate::{event_rules_hold, is_valid, lemma_validation_table, positive};
use crate::writer::{lemma_write_appends, write_outcome, writes, JsonlWriter, WriteError, WriterState};

verus! {

/// Timestamps with the local receipt clock set and no other.
pub open spec fn only_local_rx(ts: EventTimestamps) -> bool {
    &&& ts.ts_local_rx is Some
    &&& ts.ts_exchange is None
    &&& ts.ts_decision is None
    &&& ts.ts_order_tx is None
    &&& ts.ts_ack_rx is None
    &&& ts.ts_fill_rx is None
}

/// Timestamps with the decision clock set and no other.
pub open spec fn only_decision(ts: EventTimestamps) -> bool {
    &&& ts.ts_decision is Some
    &&& ts.ts_exchange is None
    &&& ts.ts_local_rx is None
    &&& ts.ts_order_tx is None
    &&& ts.ts_ack_rx is None
    &&& ts.ts_fill_rx is None
}

/// A `system.latency` event for `component` with percentile "instant".
pub open spec fn is_instant_latency(event: TelemetryEvent, component: Seq<char>, us: u64) -> bool {
    &&& event matches TelemetryEvent::SystemLatency(e)
    &&& e.component@ == component
    &&& e.latency_us == us
    &&& e.percentile@ == "instant"@
}

/// A model-less `strategy.decision` event with a fresh decision ID.
pub open spec fn is_plain_decision(
    event: TelemetryEvent,
    symbol: Seq<char>,
    side: Side,
    quantity: Ieee64,
    mid_price: Ieee64,
    reason: Seq<char>,
) -> bool {
    &&& event matches TelemetryEvent::StrategyDecision(e)
    &&& is_uuid_v4(e.decision_id.0)
    &&& e.symbol.0@ == symbol
    &&& e.side == side
    &&& e.desired_quantity == quantity
    &&& e.decision_price == mid_price
    &&& e.model_id is None
    &&& e.model_version is None
    &&& e.confidence is None
    &&& e.reason@ == reason
}

/// Whether an envelope of trace `trace` with these timestamps and this
/// event, stamped with the current schema version, passes validation.
spec fn passes_rules(trace: TraceId, ts: EventTimestamps, event: TelemetryEvent) -> bool {
    &&& ts.any_set()
    &&& trace.0 != 0
    &&& event_rules_hold(event)
}

/// One emit of a session: some envelope of trace `trace`, stamped with the
/// current schema version, was written (queued, rejected or dropped as
/// `writes` says).
pub open spec fn session_step<E: Fn(&TelemetryEnvelope) -> Result<String, String>>(
    before: WriterState,
    encode: E,
    trace: TraceId,
    after: WriterState,
) -> bool {
    exists|env: TelemetryEnvelope|
        {
            &&& env.trace_id == trace
            &&& env.schema_version@ == SCHEMA_VERSION@
            &&& #[trigger] writes(before, encode, env, after)
        }
}

/// `line` is what `encode` gave for some envelope of trace `trace` stamped
/// with the current schema version.
pub open spec fn encodes_under<E: Fn(&TelemetryEnvelope) -> Result<String, String>>(
    encode: E,
    trace: TraceId,
    line: Seq<char>,
) -> bool {
    exists|env: TelemetryEnvelope, text: String|
        {
            &&& env.trace_id == trace
            &&& env.schema_version@ == SCHEMA_VERSION@
            &&& #[trigger] call_ensures(encode, (&env,), Ok::<String, String>(text))
            &&& text@ == line
        }
}

/// A live telemetry session. Create one at startup.
///
/// All events share the same `trace_id` for the duration of the session.
/// Errors in write never propagate (telemetry is non-fatal).
pub struct TelemetrySession<E> {
    trace_id: TraceId,
    writer: JsonlWriter<E>,
}

impl<E: Fn(&TelemetryEnvelope) -> Result<String, String>> TelemetrySession<E> {
    /// The session's invariant: its writer's, and a version 4 trace ID.
    pub closed spec fn wf(&self) -> bool {
        &&& self.writer.wf()
        &&& is_uuid_v4(self.trace_id.0)
    }

    /// The trace every event of the session belongs to.
    pub closed spec fn trace(&self) -> TraceId {
        self.trace_id
    }

    /// What the session's writer has done.
    pub closed spec fn log(&self) -> WriterState {
        self.writer@
    }

    /// The encoder of the session's writer.
    pub closed spec fn encoder(&self) -> E {
        self.writer.encoder()
    }

    /// Open a session with a fresh trace ID and a writer using `encode`.
    pub fn open(encode: E) -> (s: Self)
        requires
            forall|e: &TelemetryEnvelope| call_requires(encode, (e,)),
        ensures
            s.wf(),
            is_uuid_v4(s.trace().0),
            s.encoder() == encode,
            s.log() == (WriterState { pending: Seq::empty(), written: 0, rejected: 0 }),
    {
        TelemetrySession { trace_id: TraceId::new(), writer: JsonlWriter::new(encode) }
    }

    /// The session's trace ID.
    pub fn trace_id(&self) -> (t: TraceId)
        ensures
            t == self.trace(),
    {
        self.trace_id
    }

    /// Emit an arbitrary event. Errors are swallowed.
    fn emit(&mut self, event: TelemetryEvent, timestamps: EventTimestamps)
        requires
            old(self).wf(),
            passes_rules(old(self).trace(), timestamps, event) ==> old(self).log().written
                < u64::MAX,
            !passes_rules(old(self).trace(), timestamps, event) ==> old(self).log().rejected
                < u64::MAX,
        ensures
            final(self).wf(),
            final(self).trace() == old(self).trace(),
            final(self).encoder() == old(self).encoder(),
            exists|env: TelemetryEnvelope|
                {
                    &&& env.trace_id == old(self).trace()
                    &&& env.timestamps == timestamps
                    &&& env.event == event
                    &&& env.schema_version@ == SCHEMA_VERSION@
                    &&& #[trigger] writes(old(self).log(), old(self).encoder(), env, final(self).log())
                },
    {
        let ghost ev = event;
        let env = TelemetryEnvelope::new(self.trace_id, timestamps, event);
        proof {
            lemma_validation_table(env);
            assert(is_valid(env) == passes_rules(old(self).trace(), timestamps, ev));
        }
        let ghost before = self.writer@;
        let _ = self.writer.write(&env);
        assert(writes(before, self.writer.encoder(), env, self.writer@));
        assert(writes(old(self).log(), old(self).encoder(), env, self.log()));
    }

    /// Emit a startup latency event (call once all systems are live).
    /// It is never rejected.
    pub fn emit_startup(&mut self, startup_us: u64)
        requires
            old(self).wf(),
            old(self).log().written < u64::MAX,
        ensures
            final(self).wf(),
            final(self).trace() == old(self).trace(),
            final(self).encoder() == old(self).encoder(),
            final(self).log().rejected == old(self).log().rejected,
            session_step(old(self).log(), old(self).encoder(), old(self).trace(), final(self).log()),
            exists|env: TelemetryEnvelope|
                {
                    &&& env.trace_id == old(self).trace()
                    &&& only_local_rx(env.timestamps)
                    &&& is_instant_latency(env.event, "startup"@, startup_us)
                    &&& env.schema_version@ == SCHEMA_VERSION@
                    &&& #[trigger] writes(old(self).log(), old(self).encoder(), env, final(self).log())
                },
    {
        self.emit_instant_latency(String::from_str("startup"), startup_us);
    }

    /// Emit a latency event for a DB or cache boundary call.
    /// It is never rejected.
    pub fn emit_boundary_latency(&mut self, component: &str, elapsed_us: u64)
        requires
            old(self).wf(),
            old(self).log().written < u64::MAX,
        ensures
            final(self).wf(),
            final(self).trace() == old(self).trace(),
            final(self).encoder() == old(self).encoder(),
            final(self).log().rejected == old(self).log().rejected,
            session_step(old(self).log(), old(self).encoder(), old(self).trace(), final(self).log()),
            exists|env: TelemetryEnvelope|
                {
                    &&& env.trace_id == old(self).trace()
                    &&& only_local_rx(env.timestamps)
                    &&& is_instant_latency(env.event, component@, elapsed_us)
                    &&& env.schema_version@ == SCHEMA_VERSION@
                    &&& #[trigger] writes(old(self).log(), old(self).encoder(), env, final(self).log())
                },
    {
        self.emit_instant_latency(String::from_str(component), elapsed_us);
    }

    fn emit_instant_latency(&mut self, component: String, us: u64)
        requires
            old(self).wf(),
            old(self).log().written < u64::MAX,
        ensures
            final(self).wf(),
            final(self).trace() == old(self).trace(),
            final(self).encoder() == old(self).encoder(),
            final(self).log().rejected == old(self).log().rejected,
            session_step(old(self).log(), old(self).encoder(), old(self).trace(), final(self).log()),
            exists|env: TelemetryEnvelope|
                {
                    &&& env.trace_id == old(self).trace()
                    &&& only_local_rx(env.timestamps)
                    &&& is_instant_latency(env.event, component@, us)
                    &&& env.schema_version@ == SCHEMA_VERSION@
                    &&& #[trigger] writes(old(self).log(), old(self).encoder(), env, final(self).log())
                },
    {
        let event = TelemetryEvent::SystemLatency(
            SystemLatencyEvent { component, latency_us: us, percentile: String::from_str("instant") },
        );
        let timestamps = EventTimestamps::local_now();
        let ghost ev = event;
        proof {
            lemma_uuid_v4_not_nil(old(self).trace().0);
        }
        self.emit(event, timestamps);
        proof {
            let env = choose|env: TelemetryEnvelope|
                {
                    &&& env.trace_id == old(self).trace()
                    &&& env.timestamps == timestamps
                    &&& env.event == ev
                    &&& env.schema_version@ == SCHEMA_VERSION@
                    &&& #[trigger] writes(old(self).log(), old(self).encoder(), env, self.log())
                };
            lemma_uuid_v4_not_nil(old(self).trace().0);
            assert(is_valid(env));
            assert(session_step(old(self).log(), old(self).encoder(), old(self).trace(), self.log()));
        }
    }

    /// Emit a minimal strategy decision event, so that the KPIs can compute
    /// slippage against the decision mid. It is rejected exactly when the
    /// quantity or the mid is not positive.
    pub fn emit_decision(
        &mut self,
        symbol: &str,
        side: Side,
        quantity: Ieee64,
        mid_price: Ieee64,
        reason: &str,
    )
        requires
            old(self).wf(),
            (positive(quantity) && positive(mid_price) && symbol@.len() > 0) ==> old(self).log().written
                < u64::MAX,
            !(positive(quantity) && positive(mid_price) && symbol@.len() > 0) ==> old(self).log().rejected
                < u64::MAX,
        ensures
            final(self).wf(),
            final(self).trace() == old(self).trace(),
            final(self).encoder() == old(self).encoder(),
            !(positive(quantity) && positive(mid_price) && symbol@.len() > 0) == (final(self).log().rejected
                == old(self).log().rejected + 1),
            session_step(old(self).log(), old(self).encoder(), old(self).trace(), final(self).log()),
            exists|env: TelemetryEnvelope|
                {
                    &&& env.trace_id == old(self).trace()
                    &&& only_decision(env.timestamps)
                    &&& is_plain_decision(env.event, symbol@, side, quantity, mid_price, reason@)
                    &&& env.schema_version@ == SCHEMA_VERSION@
                    &&& #[trigger] writes(old(self).log(), old(self).encoder(), env, final(self).log())
                },
    {
        let decision_id = DecisionId::new();
        let event = TelemetryEvent::StrategyDecision(
            StrategyDecisionEvent {
                decision_id,
                symbol: SymbolId(String::from_str(symbol)),
                side,
                desired_quantity: quantity,
                decision_price: mid_price,
                model_id: None,
                model_version: None,
                confidence: None,
                reason: String::from_str(reason),
            },
        );
        let timestamps = EventTimestamps { ts_decision: Some(now()), ..EventTimestamps::empty() };
        let ghost ev = event;
        proof {
            lemma_uuid_v4_not_nil(old(self).trace().0);
            lemma_uuid_v4_not_nil(decision_id.0);
            assert(passes_rules(old(self).trace(), timestamps, ev) == (positive(quantity)
                && positive(mid_price) && symbol@.len() > 0));
        }
        self.emit(event, timestamps);
        proof {
            let env = choose|env: TelemetryEnvelope|
                {
                    &&& env.trace_id == old(self).trace()
                    &&& env.timestamps == timestamps
                    &&& env.event == ev
                    &&& env.schema_version@ == SCHEMA_VERSION@
                    &&& #[trigger] writes(old(self).log(), old(self).encoder(), env, self.log())
                };
            lemma_uuid_v4_not_nil(old(self).trace().0);
            lemma_uuid_v4_not_nil(env.event->StrategyDecision_0.decision_id.0);
            assert(is_valid(env) == (positive(quantity) && positive(mid_price) && symbol@.len()
                > 0));
            assert(session_step(old(self).log(), old(self).encoder(), old(self).trace(), self.log()));
        }
    }

    /// Hands out the lines written since the last flush, for the caller to
    /// append to the session's log file.
    pub fn flush(&mut self) -> (lines: Vec<String>)
        requires
            old(self).wf(),
        ensures
            final(self).wf(),
            final(self).trace() == old(self).trace(),
            final(self).encoder() == old(self).encoder(),
            lines@.map_values(|s: String| s@) == old(self).log().pending,
            final(self).log() == (WriterState { pending: Seq::empty(), ..old(self).log() }),
    {
        self.writer.flush()
    }

    /// How many events the session wrote and how many were rejected.
    pub fn stats(&self) -> (r: (u64, u64))
        ensures
            r.0 == self.log().written,
            r.1 == self.log().rejected,
    {
        (self.writer.events_written(), self.writer.events_rejected())
    }
}

/// A session's run of emits: `logs[i + 1]` is its writer after one emit
/// from `logs[i]`, each under the trace `trace` (the session's trace never
/// changes, by the `ensures` of every emit). Then every line the run added
/// to the log is the encoding of an envelope of that one trace, stamped
/// with the current schema version; what was queued before stays; and the
/// run added at most one line per emit.
pub proof fn lemma_one_trace_per_session<E: Fn(&TelemetryEnvelope) -> Result<String, String>>(
    logs: Seq<WriterState>,
    encode: E,
    trace: TraceId,
)
    requires
        logs.len() >= 1,
        forall|i: int|
            0 <= i < logs.len() - 1 ==> session_step(#[trigger] logs[i], encode, trace, logs[i + 1]),
    ensures
        logs[0].pending.is_prefix_of(logs.last().pending),
        logs.last().pending.len() <= logs[0].pending.len() + logs.len() - 1,
        forall|k: int|
            logs[0].pending.len() <= k < logs.last().pending.len() ==> encodes_under(
                encode,
                trace,
                #[trigger] logs.last().pending[k],
            ),
    decreases logs.len(),
{
    if logs.len() > 1 {
        let prefix = logs.drop_last();
        let n = logs.len() - 2;
        assert forall|i: int| 0 <= i < prefix.len() - 1 implies session_step(
            #[trigger] prefix[i],
            encode,
            trace,
            prefix[i + 1],
        ) by {
            assert(session_step(logs[i], encode, trace, logs[i + 1]));
        }
        lemma_one_trace_per_session(prefix, encode, trace);
        assert(prefix.last() == logs[n]);
        assert(session_step(logs[n], encode, trace, logs[n + 1]));
        let before = logs[n];
        let after = logs[n + 1];
        assert(after == logs.last());
        let env = choose|env: TelemetryEnvelope|
            {
                &&& env.trace_id == trace
                &&& env.schema_version@ == SCHEMA_VERSION@
                &&& #[trigger] writes(before, encode, env, after)
            };
        lemma_write_appends(before, encode, env, after);
        if after.pending.len() > before.pending.len() {
            let (encoded, r) = choose|encoded: Result<String, String>, r: Result<bool, WriteError>|
                call_ensures(encode, (&env,), encoded) && write_outcome(before, encoded, after, r);
            assert(is_valid(env));
            let text = encoded->Ok_0;
            assert(after.pending == before.pending.push(text@));
            assert(encodes_under(encode, trace, text@));
        }
        assert forall|k: int|
            logs[0].pending.len() <= k < logs.last().pending.len() implies encodes_under(
            encode,
            trace,
            #[trigger] logs.last().pending[k],
        ) by {
            if k < before.pending.len() {
                assert(logs.last().pending[k] == before.pending[k]);
            }
        }
    }
}

/// `std::time::Instant`, carried through opaque.
#[verifier::external_type_specification]
#[verifier::external_body]
pub struct ExInstant(std::time::Instant);

/// Calls `std::time::Instant::now`; nothing is stated of the instant.
#[verifier::external_body]
fn instant_now() -> std::time::Instant {
    std::time::Instant::now()
}

/// Calls `std::time::Instant::elapsed`; nothing is stated of the duration,
/// which depends on the clock.
#[verifier::external_body]
fn elapsed_since(start: &std::time::Instant) -> std::time::Duration {
    start.elapsed()
}

/// Calls `std::time::Duration::as_micros`; nothing is stated of the
/// duration, so nothing of its microseconds either.
#[verifier::external_body]
fn whole_micros(d: &std::time::Duration) -> u128 {
    d.as_micros()
}

/// Measure wall-clock microseconds for a synchronous closure: returns what
/// the closure returned and the elapsed microseconds (truncated to 64 bits).
pub fn measure_us<F, T>(f: F) -> (r: (T, u64))
    where
        F: FnOnce() -> T,
    requires
        call_requires(f, ()),
    ensures
        call_ensures(f, (), r.0),
{
    let start = instant_now();
    let result = f();
    let elapsed = elapsed_since(&start);
    let us = whole_micros(&elapsed) as u64;
    (result, us)
}

} // verus!
