//! The validating JSONL framer: one JSON object per line, appended only.
//!
//! Each envelope is validated before it is written; an invalid envelope is
//! rejected (not fixed) and counted. A valid one is encoded by the encoder
//! the writer was made with, checked to be a single line, and queued; the
//! caller appends the queued lines to the log (`flush`).

use vstd::prelude::*;

use crate::events::TelemetryEnvelope;
use crate::validate::{is_valid, validate};
use vstd::std_specs::iter::IteratorSpec;

verus! {

/// Why a valid envelope was not written.
#[derive(Clone, Debug)]
pub enum WriteError {
    /// The encoder failed, with its message.
    Encode(String),
    /// The encoding holds a line break, so it would not be one JSONL record.
    NotOneLine,
}

/// What a writer has done: the lines waiting to be appended to the log,
/// and how many envelopes it wrote and rejected since it was made.
pub struct WriterState {
    pub pending: Seq<Seq<char>>,
    pub written: nat,
    pub rejected: nat,
}

/// A text that is one JSONL record: it holds no line break.
pub open spec fn is_one_line(s: Seq<char>) -> bool {
    !s.contains('\n')
}

/// The effect of writing a valid envelope whose encoding came out as
/// `encoded`: on success the line is queued and counted; otherwise nothing
/// changes and the error is returned.
pub open spec fn write_outcome(
    before: WriterState,
    encoded: Result<String, String>,
    after: WriterState,
    result: Result<bool, WriteError>,
) -> bool {
    match encoded {
        Ok(line) => if is_one_line(line@) {
            &&& after == WriterState {
                pending: before.pending.push(line@),
                written: before.written + 1,
                rejected: before.rejected,
            }
            &&& result == Ok::<bool, WriteError>(true)
        } else {
            &&& after == before
            &&& result == Err::<bool, WriteError>(WriteError::NotOneLine)
        },
        Err(message) => {
            &&& after == before
            &&& result matches Err(WriteError::Encode(m)) && m@ == message@
        },
    }
}

/// The effect on a writer's state of writing `env` with encoder `encode`:
/// an invalid envelope is counted as rejected; a valid one is encoded and
/// then queued or dropped as `write_outcome` says.
pub open spec fn writes<E: Fn(&TelemetryEnvelope) -> Result<String, String>>(
    before: WriterState,
    encode: E,
    env: TelemetryEnvelope,
    after: WriterState,
) -> bool {
    if !is_valid(env) {
        after == WriterState { rejected: before.rejected + 1, ..before }
    } else {
        exists|encoded: Result<String, String>, r: Result<bool, WriteError>|
            call_ensures(encode, (&env,), encoded) && write_outcome(before, encoded, after, r)
    }
}

/// One write with its result: an invalid envelope gives `Ok(false)` and is
/// counted as rejected; a valid one is encoded and then queued or dropped,
/// with the result, as `write_outcome` says.
pub open spec fn write_step<E: Fn(&TelemetryEnvelope) -> Result<String, String>>(
    before: WriterState,
    encode: E,
    env: TelemetryEnvelope,
    after: WriterState,
    result: Result<bool, WriteError>,
) -> bool {
    if !is_valid(env) {
        &&& result == Ok::<bool, WriteError>(false)
        &&& after == WriterState { rejected: before.rejected + 1, ..before }
    } else {
        exists|encoded: Result<String, String>|
            call_ensures(encode, (&env,), encoded) && write_outcome(before, encoded, after, result)
    }
}

/// One flush: the queued lines are handed out, in order, and none stay
/// queued; the counters do not move.
pub open spec fn flush_step(before: WriterState, out: Seq<Seq<char>>, after: WriterState) -> bool {
    &&& out == before.pending
    &&& after == (WriterState { pending: Seq::<Seq<char>>::empty(), ..before })
}

/// Writes telemetry envelopes as JSONL lines.
/// Validates each envelope before writing; bad envelopes are rejected.
pub struct JsonlWriter<E> {
    encode: E,
    pending: Vec<String>,
    events_written: u64,
    events_rejected: u64,
}

impl<E> View for JsonlWriter<E> {
    type V = WriterState;

    closed spec fn view(&self) -> WriterState {
        WriterState {
            pending: self.pending@.map_values(|s: String| s@),
            written: self.events_written as nat,
            rejected: self.events_rejected as nat,
        }
    }
}

/// Whether `s` contains a line break.
fn has_line_break(s: &str) -> (r: bool)
    ensures
        r == s@.contains('\n'),
{
    broadcast use vstd::string::group_string_axioms;

    let mut it = s.chars();
    let ghost chars = s@;
    let ghost mut seen: int = 0;
    assert(chars.skip(0) =~= chars);
    loop
        invariant
            chars == s@,
            0 <= seen <= chars.len(),
            it.remaining() == chars.skip(seen),
            forall|j: int| 0 <= j < seen ==> chars[j] != '\n',
        decreases chars.len() - seen,
    {
        let ghost before = it;
        let next = it.next();
        match next {
            Some(c) => {
                assert(before.remaining().len() > 0);
                assert(c == chars[seen]);
                if c == '\n' {
                    assert(chars[seen] == '\n');
                    return true;
                }
                assert(chars.skip(seen).drop_first() =~= chars.skip(seen + 1));
                proof {
                    seen = seen + 1;
                }
            },
            None => {
                assert(seen == chars.len());
                assert(!chars.contains('\n'));
                return false;
            },
        }
    }
}

impl<E: Fn(&TelemetryEnvelope) -> Result<String, String>> JsonlWriter<E> {
    /// The encoder that turns a valid envelope into its JSON text.
    pub closed spec fn encoder(&self) -> E {
        self.encode
    }

    /// The writer's invariant: the encoder accepts every envelope, and every
    /// queued line is a single JSONL record.
    pub closed spec fn wf(&self) -> bool {
        &&& forall|e: &TelemetryEnvelope| call_requires(self.encode, (e,))
        &&& forall|i: int| 0 <= i < self.pending@.len() ==> is_one_line(#[trigger] self.pending@[i]@)
    }

    /// A writer with nothing written, nothing rejected, nothing queued.
    pub fn new(encode: E) -> (w: Self)
        requires
            forall|e: &TelemetryEnvelope| call_requires(encode, (e,)),
        ensures
            w.wf(),
            w.encoder() == encode,
            w@.pending == Seq::<Seq<char>>::empty(),
            w@.written == 0,
            w@.rejected == 0,
    {
        let w = JsonlWriter { encode, pending: Vec::new(), events_written: 0, events_rejected: 0 };
        assert(w@.pending =~= Seq::<Seq<char>>::empty());
        w
    }

    /// Write a validated event. Returns `Ok(true)` if written, `Ok(false)`
    /// if rejected by validation (the encoder is then not called).
    pub fn write(&mut self, envelope: &TelemetryEnvelope) -> (r: Result<bool, WriteError>)
        requires
            old(self).wf(),
            is_valid(*envelope) ==> old(self)@.written < u64::MAX,
            !is_valid(*envelope) ==> old(self)@.rejected < u64::MAX,
        ensures
            final(self).wf(),
            final(self).encoder() == old(self).encoder(),
            writes(old(self)@, old(self).encoder(), *envelope, final(self)@),
            write_step(old(self)@, old(self).encoder(), *envelope, final(self)@, r),
            !is_valid(*envelope) ==> {
                &&& r == Ok::<bool, WriteError>(false)
                &&& final(self)@ == (WriterState { rejected: old(self)@.rejected + 1, ..old(self)@ })
            },
            is_valid(*envelope) ==> exists|encoded: Result<String, String>|
                call_ensures(old(self).encoder(), (envelope,), encoded) && write_outcome(
                    old(self)@,
                    encoded,
                    final(self)@,
                    r,
                ),
    {
        let errors = validate(envelope);
        if errors.len() != 0 {
            self.events_rejected = self.events_rejected + 1;
            return Ok(false);
        }
        let encoded = (self.encode)(envelope);
        let ghost out = encoded;
        let ghost start = self@;
        match encoded {
            Ok(line) => {
                if has_line_break(line.as_str()) {
                    let r = Err(WriteError::NotOneLine);
                    assert(write_outcome(start, out, self@, r));
                    return r;
                }
                let ghost before = self.pending@;
                self.pending.push(line);
                self.events_written = self.events_written + 1;
                proof {
                    assert(self.pending@.map_values(|s: String| s@) =~= before.map_values(
                        |s: String| s@,
                    ).push(line@));
                    assert forall|i: int| 0 <= i < self.pending@.len() implies is_one_line(
                        #[trigger] self.pending@[i]@,
                    ) by {
                        if i < before.len() {
                            assert(self.pending@[i] == before[i]);
                        }
                    }
                    assert(write_outcome(start, out, self@, Ok(true)));
                }
                Ok(true)
            },
            Err(message) => {
                let r = Err(WriteError::Encode(message));
                assert(write_outcome(start, out, self@, r));
                r
            },
        }
    }

    /// Hands out the lines queued since the last flush, in the order they
    /// were written, for the caller to append to the log; none stay queued.
    pub fn flush(&mut self) -> (lines: Vec<String>)
        requires
            old(self).wf(),
        ensures
            final(self).wf(),
            final(self).encoder() == old(self).encoder(),
            lines@.map_values(|s: String| s@) == old(self)@.pending,
            forall|i: int| 0 <= i < lines@.len() ==> is_one_line(#[trigger] lines@[i]@),
            final(self)@ == (WriterState { pending: Seq::<Seq<char>>::empty(), ..old(self)@ }),
            flush_step(old(self)@, lines@.map_values(|s: String| s@), final(self)@),
    {
        let mut lines: Vec<String> = Vec::new();
        std::mem::swap(&mut lines, &mut self.pending);
        assert(self@.pending =~= Seq::<Seq<char>>::empty());
        lines
    }

    /// Takes back the count of one written envelope whose line, handed out
    /// by `flush`, could not be appended to the log: only envelopes that
    /// reached the log count as written.
    pub fn retract_written(&mut self)
        requires
            old(self).wf(),
            old(self)@.written > 0,
        ensures
            final(self).wf(),
            final(self).encoder() == old(self).encoder(),
            final(self)@ == (WriterState { written: (old(self)@.written - 1) as nat, ..old(self)@ }),
    {
        self.events_written = self.events_written - 1;
    }

    /// How many events were successfully written.
    pub fn events_written(&self) -> (n: u64)
        ensures
            n == self@.written,
    {
        self.events_written
    }

    /// How many events were rejected by validation.
    pub fn events_rejected(&self) -> (n: u64)
        ensures
            n == self@.rejected,
    {
        self.events_rejected
    }
}

/// How many envelopes of `envs` fail validation.
pub open spec fn count_invalid(envs: Seq<TelemetryEnvelope>) -> nat
    decreases envs.len(),
{
    if envs.len() == 0 {
        0
    } else {
        count_invalid(envs.drop_last()) + if is_valid(envs.last()) {
            0nat
        } else {
            1nat
        }
    }
}

/// One write: the log is append-only (what was queued stays, in order, and
/// at most one line is added), counters never go down and move by at most
/// one, a valid envelope is never counted as rejected, and an invalid one
/// is counted as rejected and adds nothing to the log.
pub proof fn lemma_write_appends<E: Fn(&TelemetryEnvelope) -> Result<String, String>>(
    before: WriterState,
    encode: E,
    env: TelemetryEnvelope,
    after: WriterState,
)
    requires
        writes(before, encode, env, after),
    ensures
        before.pending.is_prefix_of(after.pending),
        after.pending.len() <= before.pending.len() + 1,
        after.pending.len() - before.pending.len() == after.written - before.written,
        before.written <= after.written,
        is_valid(env) ==> after.rejected == before.rejected,
        !is_valid(env) ==> after == (WriterState { rejected: before.rejected + 1, ..before }),
{
    if is_valid(env) {
        let (encoded, r) = choose|encoded: Result<String, String>, r: Result<bool, WriteError>|
            call_ensures(encode, (&env,), encoded) && write_outcome(before, encoded, after, r);
        assert(before.pending.is_prefix_of(after.pending)) by {
            if after.pending.len() > before.pending.len() {
                assert(after.pending == before.pending.push(encoded->Ok_0@));
            }
        }
    } else {
        assert(before.pending.is_prefix_of(after.pending));
    }
}

/// A run of writes: `states[i + 1]` is the writer after writing `envs[i]`
/// from `states[i]`. Over the run exactly the invalid envelopes are counted
/// as rejected, the log only grows, and at most the valid envelopes add a
/// line each.
pub proof fn lemma_rejections_counted<E: Fn(&TelemetryEnvelope) -> Result<String, String>>(
    states: Seq<WriterState>,
    encode: E,
    envs: Seq<TelemetryEnvelope>,
)
    requires
        states.len() == envs.len() + 1,
        forall|i: int|
            0 <= i < envs.len() ==> writes(states[i], encode, #[trigger] envs[i], states[i + 1]),
    ensures
        states.last().rejected == states[0].rejected + count_invalid(envs),
        states[0].pending.is_prefix_of(states.last().pending),
        states.last().written - states[0].written == states.last().pending.len()
            - states[0].pending.len(),
        states.last().written <= states[0].written + envs.len() - count_invalid(envs),
    decreases envs.len(),
{
    if envs.len() > 0 {
        let n = envs.len() - 1;
        let prefix_states = states.drop_last();
        let prefix_envs = envs.drop_last();
        assert forall|i: int| 0 <= i < prefix_envs.len() implies writes(
            prefix_states[i],
            encode,
            #[trigger] prefix_envs[i],
            prefix_states[i + 1],
        ) by {
            assert(writes(states[i], encode, envs[i], states[i + 1]));
        }
        lemma_rejections_counted(prefix_states, encode, prefix_envs);
        assert(writes(states[n], encode, envs[n], states[n + 1]));
        lemma_write_appends(states[n], encode, envs[n], states[n + 1]);
        assert(envs.last() == envs[n]);
        assert(prefix_states.last() == states[n]);
        assert(states.last() == states[n + 1]);
    }
}

/// How many of `results` are `Ok(b)`.
pub open spec fn count_ok(results: Seq<Result<bool, WriteError>>, b: bool) -> nat
    decreases results.len(),
{
    if results.len() == 0 {
        0
    } else {
        count_ok(results.drop_last(), b) + if results.last() == Ok::<bool, WriteError>(b) {
            1nat
        } else {
            0nat
        }
    }
}

/// A run of writes with their results: `states[i + 1]` is the writer after
/// writing `envs[i]` from `states[i]`, which returned `results[i]`. Over the
/// run the writer counts one written envelope per `Ok(true)` and one
/// rejected envelope per `Ok(false)`, and nothing for an error.
pub proof fn lemma_counts_match_results<E: Fn(&TelemetryEnvelope) -> Result<String, String>>(
    states: Seq<WriterState>,
    encode: E,
    envs: Seq<TelemetryEnvelope>,
    results: Seq<Result<bool, WriteError>>,
)
    requires
        states.len() == envs.len() + 1,
        results.len() == envs.len(),
        forall|i: int|
            0 <= i < envs.len() ==> write_step(
                states[i],
                encode,
                #[trigger] envs[i],
                states[i + 1],
                results[i],
            ),
    ensures
        states.last().written == states[0].written + count_ok(results, true),
        states.last().rejected == states[0].rejected + count_ok(results, false),
    decreases envs.len(),
{
    if envs.len() > 0 {
        let n = envs.len() - 1;
        let prefix_states = states.drop_last();
        let prefix_envs = envs.drop_last();
        let prefix_results = results.drop_last();
        assert forall|i: int| 0 <= i < prefix_envs.len() implies write_step(
            prefix_states[i],
            encode,
            #[trigger] prefix_envs[i],
            prefix_states[i + 1],
            prefix_results[i],
        ) by {
            assert(write_step(states[i], encode, envs[i], states[i + 1], results[i]));
        }
        lemma_counts_match_results(prefix_states, encode, prefix_envs, prefix_results);
        assert(write_step(states[n], encode, envs[n], states[n + 1], results[n]));
        assert(prefix_results =~= results.drop_last());
        assert(results.last() == results[n]);
        assert(prefix_states.last() == states[n]);
        assert(states.last() == states[n + 1]);
        if is_valid(envs[n]) {
            let encoded = choose|encoded: Result<String, String>|
                call_ensures(encode, (&envs[n],), encoded) && write_outcome(
                    states[n],
                    encoded,
                    states[n + 1],
                    results[n],
                );
            assert(write_outcome(states[n], encoded, states[n + 1], results[n]));
        }
    }
}

/// One call on a writer, with what it gave back: a write of an envelope
/// with its result, or a flush with the lines it handed out.
pub enum WriterCall {
    Write(TelemetryEnvelope, Result<bool, WriteError>),
    Flush(Seq<Seq<char>>),
}

/// What one call does to a writer's state.
pub open spec fn call_step<E: Fn(&TelemetryEnvelope) -> Result<String, String>>(
    before: WriterState,
    encode: E,
    call: WriterCall,
    after: WriterState,
) -> bool {
    match call {
        WriterCall::Write(env, r) => write_step(before, encode, env, after, r),
        WriterCall::Flush(out) => flush_step(before, out, after),
    }
}

/// The envelopes of a run of calls whose write returned `Ok(true)`, in
/// the order they were written.
pub open spec fn written_envelopes(calls: Seq<WriterCall>) -> Seq<TelemetryEnvelope>
    decreases calls.len(),
{
    if calls.len() == 0 {
        Seq::empty()
    } else {
        let earlier = written_envelopes(calls.drop_last());
        match calls.last() {
            WriterCall::Write(env, r) => if r == Ok::<bool, WriteError>(true) {
                earlier.push(env)
            } else {
                earlier
            },
            WriterCall::Flush(_) => earlier,
        }
    }
}

/// Every line the flushes of a run of calls handed out, in order.
pub open spec fn handed_out(calls: Seq<WriterCall>) -> Seq<Seq<char>>
    decreases calls.len(),
{
    if calls.len() == 0 {
        Seq::empty()
    } else {
        let earlier = handed_out(calls.drop_last());
        match calls.last() {
            WriterCall::Write(_, _) => earlier,
            WriterCall::Flush(out) => earlier + out,
        }
    }
}

/// `line` is a text that the encoder gives back for `env`.
pub open spec fn encodes<E: Fn(&TelemetryEnvelope) -> Result<String, String>>(
    encode: E,
    env: TelemetryEnvelope,
    line: Seq<char>,
) -> bool {
    exists|text: String|
        #[trigger] call_ensures(encode, (&env,), Ok::<String, String>(text)) && text@ == line
}

/// `lines` are the encodings of `envs`, one each, in the same order.
pub open spec fn encodings_of<E: Fn(&TelemetryEnvelope) -> Result<String, String>>(
    encode: E,
    envs: Seq<TelemetryEnvelope>,
    lines: Seq<Seq<char>>,
) -> bool {
    &&& lines.len() == envs.len()
    &&& forall|k: int| 0 <= k < envs.len() ==> encodes(encode, envs[k], #[trigger] lines[k])
}

/// A run of writes and flushes: `states[i + 1]` is the writer after
/// `calls[i]` from `states[i]`. The lines the flushes handed out, followed
/// by the lines still queued, are the lines queued at the start followed by
/// the encodings of exactly the envelopes whose write returned `Ok(true)`,
/// one each, in the order they were written; and the writer counted one
/// written envelope for each of them. For a writer fresh from `new`, what
/// was appended to the log is therefore the encoding of each written
/// envelope, in order.
pub proof fn lemma_log_is_written_encodings<E: Fn(&TelemetryEnvelope) -> Result<String, String>>(
    states: Seq<WriterState>,
    encode: E,
    calls: Seq<WriterCall>,
)
    requires
        states.len() == calls.len() + 1,
        forall|i: int|
            0 <= i < calls.len() ==> call_step(states[i], encode, #[trigger] calls[i], states[i + 1]),
    ensures
        exists|lines: Seq<Seq<char>>|
            #[trigger] encodings_of(encode, written_envelopes(calls), lines) && handed_out(calls)
                + states.last().pending == states[0].pending + lines,
        states.last().written == states[0].written + written_envelopes(calls).len(),
    decreases calls.len(),
{
    if calls.len() == 0 {
        let lines = Seq::<Seq<char>>::empty();
        assert(encodings_of(encode, written_envelopes(calls), lines));
        assert(handed_out(calls) + states.last().pending =~= states[0].pending + lines);
    } else {
        let n = calls.len() - 1;
        let earlier_states = states.drop_last();
        let earlier = calls.drop_last();
        assert forall|i: int| 0 <= i < earlier.len() implies call_step(
            earlier_states[i],
            encode,
            #[trigger] earlier[i],
            earlier_states[i + 1],
        ) by {
            assert(call_step(states[i], encode, calls[i], states[i + 1]));
        }
        lemma_log_is_written_encodings(earlier_states, encode, earlier);
        let before = states[n];
        let after = states[n + 1];
        assert(earlier_states.last() == before);
        assert(states.last() == after);
        assert(calls.last() == calls[n]);
        assert(call_step(before, encode, calls[n], after));
        let lines0 = choose|lines: Seq<Seq<char>>|
            #[trigger] encodings_of(encode, written_envelopes(earlier), lines) && handed_out(earlier)
                + before.pending == states[0].pending + lines;
        let wenv0 = written_envelopes(earlier);
        match calls[n] {
            WriterCall::Write(env, r) => {
                assert(handed_out(calls) == handed_out(earlier));
                if !is_valid(env) {
                    assert(written_envelopes(calls) == wenv0);
                    assert(encodings_of(encode, written_envelopes(calls), lines0));
                } else {
                    let encoded = choose|encoded: Result<String, String>|
                        call_ensures(encode, (&env,), encoded) && write_outcome(
                            before,
                            encoded,
                            after,
                            r,
                        );
                    if r == Ok::<bool, WriteError>(true) {
                        let text = encoded->Ok_0;
                        assert(after.pending == before.pending.push(text@));
                        assert(call_ensures(encode, (&env,), Ok::<String, String>(text)));
                        assert(encodes(encode, env, text@));
                        let lines = lines0.push(text@);
                        assert(written_envelopes(calls) == wenv0.push(env));
                        assert(encodings_of(encode, written_envelopes(calls), lines)) by {
                            assert forall|k: int|
                                0 <= k < wenv0.len() + 1 implies encodes(
                                encode,
                                wenv0.push(env)[k],
                                #[trigger] lines[k],
                            ) by {
                                if k < wenv0.len() {
                                    assert(lines[k] == lines0[k]);
                                    assert(encodes(encode, wenv0[k], lines0[k]));
                                }
                            }
                        }
                        let h = handed_out(earlier);
                        assert(h + before.pending.push(text@) =~= (h + before.pending).push(text@));
                        assert(states[0].pending + lines0.push(text@) =~= (states[0].pending
                            + lines0).push(text@));
                        assert(handed_out(calls) + after.pending == states[0].pending + lines);
                    } else {
                        assert(after == before);
                        assert(written_envelopes(calls) == wenv0);
                        assert(encodings_of(encode, written_envelopes(calls), lines0));
                    }
                }
            },
            WriterCall::Flush(out) => {
                assert(written_envelopes(calls) == wenv0);
                assert(encodings_of(encode, written_envelopes(calls), lines0));
                assert(handed_out(calls) == handed_out(earlier) + out);
                assert(handed_out(calls) + after.pending =~= handed_out(earlier) + before.pending);
            },
        }
    }
}

} // verus!
