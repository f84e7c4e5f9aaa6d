//! The listener actor's verified core: configuration, connection state,
//! resume cursor, the per-line rule of a connection attempt, the backoff
//! policy of the supervised loop, and the decisions of the command loop.
//!
//! The runtime around the library performs the outside work (the HTTP
//! request, the channel sends, the sleeps) and hands every outcome to these
//! functions; they decide what happens next and what the consumer sees.

use vstd::prelude::*;

use crate::events::ConnectionState;
use crate::events::ListenerCommand;
use crate::events::ListenerError;
use crate::events::ListenerEvent;
use crate::events::ServerEvent;
use crate::retry::BACKOFF_MAX_MS;
use crate::retry::BACKOFF_MIN_MS;
use crate::retry::Backoff;
use crate::wire::Credentials;
use crate::wire::LineFields;
use crate::wire::RequestPlan;
use crate::wire::decode_fields;
use crate::wire::decode_min_time;
use crate::wire::event_from_fields;
use crate::wire::fields_of;
use crate::wire::min_time_of;

verus! {

/// An attempt that failed after running at least this long (four minutes)
/// counts as stable: the backoff generator is reset before the next delay is
/// drawn, so long-lived connections earn back a fast retry.
pub const STABLE_UPTIME_MS: u64 = 240000;

/// Configuration of one listener: the endpoint, the topic, and the resume
/// cursor (`since`), a monotonically non-decreasing timestamp. The cursor is
/// advanced only by the actor itself, after each successfully parsed line.
#[derive(Debug, Clone, PartialEq, Eq)]
pub struct ListenerConfig {
    pub endpoint: String,
    pub topic: String,
    pub since: u64,
}

/// The single-owner core of one listener: its configuration, its connection
/// state, and its backoff generator. Exactly one task owns a value of this
/// type; every other party sees it only through commands and events.
#[derive(Debug, Clone, PartialEq, Eq)]
pub struct ListenerActor {
    pub config: ListenerConfig,
    pub state: ConnectionState,
    pub backoff: Backoff,
}

/// One input the command loop can wake up on: the supervised loop ended
/// cleanly, or the command channel yielded a command (`None`: the channel
/// closed with all senders dropped, an abnormal condition).
#[derive(Debug, Clone, Copy, PartialEq, Eq)]
pub enum LoopInput {
    SupervisedEnded,
    Command(Option<ListenerCommand>),
}

/// What one command-loop iteration decided: whether the loop keeps running
/// (with a fresh attempt racing the next command), and the reply owed for a
/// `GetState`.
#[derive(Debug, Clone, PartialEq, Eq)]
pub struct LoopStep {
    pub continue_running: bool,
    pub reply: Option<ConnectionState>,
}

/// Whether an input ends the command loop: the supervised loop's clean end,
/// a `Shutdown`, and a closed command channel do; `Restart` and `GetState`
/// do not.
pub open spec fn stops_loop(input: LoopInput) -> bool {
    match input {
        LoopInput::SupervisedEnded => true,
        LoopInput::Command(None) => true,
        LoopInput::Command(Some(ListenerCommand::Shutdown)) => true,
        LoopInput::Command(Some(ListenerCommand::Restart)) => false,
        LoopInput::Command(Some(ListenerCommand::GetState)) => false,
    }
}

/// The cursor after a line with timestamp `time` was minimally decoded: the
/// maximum of the previous cursor and the timestamp.
pub open spec fn advanced_cursor(since: u64, time: u64) -> u64 {
    if time > since {
        time
    } else {
        since
    }
}

/// What a fully decoded server event means for the consumer: a `Message` is
/// forwarded, `Open` and `KeepAlive` are observed only.
pub open spec fn line_event(event: ServerEvent) -> Option<ListenerEvent> {
    match event {
        ServerEvent::Message(m) => Some(ListenerEvent::Message(m)),
        ServerEvent::Open { .. } => None,
        ServerEvent::KeepAlive { .. } => None,
    }
}

/// The whole effect of handling one line whose minimal decode yielded
/// `min_time` and whose full decode yielded `event`: the cursor advances to
/// the maximum of itself and the timestamp as soon as the minimal decode
/// succeeds (even if the full decode then fails); each decode failure is the
/// matching error carrying the raw line; a decoded event is forwarded or
/// dropped by its kind; nothing else of the actor changes.
pub open spec fn line_step(
    pre: ListenerActor,
    post: ListenerActor,
    min_time: Option<u64>,
    event: Option<ServerEvent>,
    raw: Seq<char>,
    r: Result<Option<ListenerEvent>, ListenerError>,
) -> bool {
    &&& post.state == pre.state
    &&& post.backoff == pre.backoff
    &&& post.config.endpoint == pre.config.endpoint
    &&& post.config.topic == pre.config.topic
    &&& post.config.since == (match min_time {
        Some(t) => advanced_cursor(pre.config.since, t),
        None => pre.config.since,
    })
    &&& (match min_time {
        None => r matches Err(ListenerError::InvalidMinMessage(l)) && l@ == raw,
        Some(_) => match event {
            None => r matches Err(ListenerError::InvalidMessage(l)) && l@ == raw,
            Some(ev) => r == Ok::<Option<ListenerEvent>, ListenerError>(line_event(ev)),
        },
    })
}

/// The consumer-visible outcome of one line whose full decode yielded
/// `fields`: a `message` is forwarded with its id, timestamp and raw
/// payload; an `open` or `keepalive` with a topic is observed silently; an
/// unknown tag or a missing topic fails the attempt with the raw line.
pub open spec fn line_outcome(
    fields: LineFields,
    raw: Seq<char>,
    r: Result<Option<ListenerEvent>, ListenerError>,
) -> bool {
    if fields.tag@ == "open"@ || fields.tag@ == "keepalive"@ {
        match fields.topic {
            Some(_) => r == Ok::<Option<ListenerEvent>, ListenerError>(None),
            None => r matches Err(ListenerError::InvalidMessage(l)) && l@ == raw,
        }
    } else if fields.tag@ == "message"@ {
        r matches Ok(Some(ListenerEvent::Message(m))) && m.id == fields.id && m.time == fields.time
            && m.raw@ == raw
    } else {
        r matches Err(ListenerError::InvalidMessage(l)) && l@ == raw
    }
}

impl ListenerActor {
    /// Well-formedness: the backoff generator is well-formed.
    pub open spec fn wf(self) -> bool {
        self.backoff.wf()
    }

    /// The backoff generator the supervised loop charges a failure against:
    /// reset to the minimum if the failed attempt ran stably long, the
    /// current generator otherwise.
    pub open spec fn failure_backoff(self, uptime_ms: u64, entropy: u64) -> Backoff {
        if uptime_ms > STABLE_UPTIME_MS {
            Backoff::spec_new(BACKOFF_MIN_MS, BACKOFF_MAX_MS, entropy)
        } else {
            self.backoff
        }
    }

    /// A fresh actor: initial state, the configured cursor, a backoff
    /// generator at its minimum. The generator lives as long as the actor:
    /// an external `Restart` does not reset it.
    pub fn new(config: ListenerConfig, entropy: u64) -> (r: Self)
        ensures
            r.wf(),
            r.config == config,
            r.state == ConnectionState::Unitialized,
            r.backoff == Backoff::spec_new(BACKOFF_MIN_MS, BACKOFF_MAX_MS, entropy),
    {
        ListenerActor {
            config,
            state: ConnectionState::Unitialized,
            backoff: Backoff::fresh(entropy),
        }
    }

    /// Record a new connection state and hand back the state-change event
    /// owed to the consumer. Nothing else of the actor changes.
    pub fn set_state(&mut self, state: ConnectionState) -> (ev: ListenerEvent)
        ensures
            final(self).state == state,
            final(self).config == old(self).config,
            final(self).backoff == old(self).backoff,
            ev == ListenerEvent::ConnectionStateChanged(state),
    {
        let copy = state.duplicate();
        self.state = state;
        ListenerEvent::ConnectionStateChanged(copy)
    }

    /// The actor announces its initial state when it starts.
    pub fn on_start(&mut self) -> (ev: ListenerEvent)
        ensures
            final(self).state == ConnectionState::Unitialized,
            final(self).config == old(self).config,
            final(self).backoff == old(self).backoff,
            ev == ListenerEvent::ConnectionStateChanged(ConnectionState::Unitialized),
    {
        self.set_state(ConnectionState::Unitialized)
    }

    /// The request was accepted: the attempt is connected before the first
    /// line is necessarily available.
    pub fn on_connected(&mut self) -> (ev: ListenerEvent)
        ensures
            final(self).state == ConnectionState::Connected,
            final(self).config == old(self).config,
            final(self).backoff == old(self).backoff,
            ev == ListenerEvent::ConnectionStateChanged(ConnectionState::Connected),
    {
        self.set_state(ConnectionState::Connected)
    }

    /// The plan of one subscription request: the URL ingredients with the
    /// current cursor, the streaming newline-delimited JSON headers, and
    /// basic auth exactly when credentials are present.
    pub fn topic_request(&self, credentials: Option<Credentials>) -> (r: RequestPlan)
        ensures
            r.endpoint == self.config.endpoint,
            r.topic == self.config.topic,
            r.since == self.config.since,
            r.content_type@ == "application/x-ndjson"@,
            r.transfer_encoding@ == "chunked"@,
            r.basic_auth == credentials,
    {
        RequestPlan {
            endpoint: self.config.endpoint.clone(),
            topic: self.config.topic.clone(),
            since: self.config.since,
            content_type: "application/x-ndjson".to_owned(),
            transfer_encoding: "chunked".to_owned(),
            basic_auth: credentials,
        }
    }

    /// Handle one line of the stream, given what its minimal decode and its
    /// full decode yielded. The cursor advances before the full decode is
    /// consulted, so a full-decode failure still makes forward progress on
    /// reconnect; an error ends the attempt and the cursor never regresses.
    pub fn handle_line(
        &mut self,
        min_time: Option<u64>,
        event: Option<ServerEvent>,
        raw: &str,
    ) -> (r: Result<Option<ListenerEvent>, ListenerError>)
        ensures
            line_step(*old(self), *final(self), min_time, event, raw@, r),
            old(self).config.since <= final(self).config.since,
    {
        let t: u64 = match min_time {
            Some(t) => t,
            None => {
                return Err(ListenerError::InvalidMinMessage(raw.to_owned()));
            },
        };
        if t > self.config.since {
            self.config.since = t;
        }
        match event {
            None => Err(ListenerError::InvalidMessage(raw.to_owned())),
            Some(ServerEvent::Message(m)) => Ok(Some(ListenerEvent::Message(m))),
            Some(ServerEvent::Open { .. }) => Ok(None),
            Some(ServerEvent::KeepAlive { .. }) => Ok(None),
        }
    }

    /// Decode one raw line of the stream and handle it: the minimal decode
    /// drives the cursor, the full decode drives forwarding, and each
    /// failure is the matching error carrying the line.
    pub fn process_line(&mut self, line: &str) -> (r: Result<
        Option<ListenerEvent>,
        ListenerError,
    >)
        ensures
            final(self).state == old(self).state,
            final(self).backoff == old(self).backoff,
            final(self).config.endpoint == old(self).config.endpoint,
            final(self).config.topic == old(self).config.topic,
            final(self).config.since == (match min_time_of(line@) {
                Some(t) => advanced_cursor(old(self).config.since, t),
                None => old(self).config.since,
            }),
            old(self).config.since <= final(self).config.since,
            (match min_time_of(line@) {
                None => r matches Err(ListenerError::InvalidMinMessage(l)) && l@ == line@,
                Some(_) => match fields_of(line@) {
                    None => r matches Err(ListenerError::InvalidMessage(l)) && l@ == line@,
                    Some(f) => line_outcome(f, line@, r),
                },
            }),
    {
        let min_time = decode_min_time(line);
        let fields = decode_fields(line);
        let event = match fields {
            Some(f) => event_from_fields(f, line),
            None => None,
        };
        let r = self.handle_line(min_time, event, line);
        proof {
            reveal_strlit("open");
            reveal_strlit("message");
            reveal_strlit("keepalive");
            assert("open"@.len() == 4);
            assert("message"@.len() == 7);
            assert("keepalive"@.len() == 9);
            if min_time_of(line@) is Some && fields_of(line@) is Some {
                let f = fields_of(line@)->0;
                assert(crate::wire::decoded_event(f, line@, event));
                assert(line_outcome(f, line@, r));
            }
        }
        r
    }

    /// The supervised loop's policy once an attempt ended. A clean end stops
    /// the loop for good: the actor is unchanged and nothing more is
    /// emitted. A failure yields the `Reconnecting` state-change event to
    /// emit and the delay to sleep, charged against the backoff generator —
    /// reset first if the attempt ran stably long — which then escalates for
    /// the next round.
    pub fn attempt_done(
        &mut self,
        result: Result<(), ListenerError>,
        uptime_ms: u64,
        entropy: u64,
    ) -> (r: Option<(ListenerEvent, u64)>)
        requires
            old(self).wf(),
        ensures
            final(self).wf(),
            final(self).config == old(self).config,
            result is Ok ==> r is None && *final(self) == *old(self),
            (match result {
                Err(e) => {
                    let b = old(self).failure_backoff(uptime_ms, entropy);
                    &&& final(self).state == (ConnectionState::Reconnecting {
                        retry_count: b.count,
                        delay_ms: b.spec_delay(),
                        error: Some(e),
                    })
                    &&& final(self).backoff == b.spec_advanced(entropy)
                    &&& (r matches Some((ev, delay_ms))
                        && ev == ListenerEvent::ConnectionStateChanged(final(self).state)
                        && delay_ms == b.spec_delay())
                },
                Ok(_) => true,
            }),
    {
        match result {
            Ok(_) => None,
            Err(e) => {
                if uptime_ms > STABLE_UPTIME_MS {
                    self.backoff = Backoff::fresh(entropy);
                }
                let retry_count: u64 = self.backoff.count();
                let delay_ms: u64 = self.backoff.next_delay();
                let ev = self.set_state(ConnectionState::Reconnecting {
                    retry_count,
                    delay_ms,
                    error: Some(e),
                });
                self.backoff.advance(entropy);
                Some((ev, delay_ms))
            },
        }
    }

    /// The command loop's decision on one input. `GetState` answers with the
    /// most recently set state and cancels nothing; `Restart` keeps the loop
    /// running with a fresh attempt; `Shutdown`, a closed command channel,
    /// and the supervised loop's clean end stop the loop. The actor is only
    /// borrowed: no input changes its state, cursor, or backoff generator.
    pub fn loop_step(&self, input: LoopInput) -> (r: LoopStep)
        ensures
            r.continue_running == !stops_loop(input),
            r.reply == (if input == LoopInput::Command(Some(ListenerCommand::GetState)) {
                Some(self.state)
            } else {
                None::<ConnectionState>
            }),
    {
        match input {
            LoopInput::SupervisedEnded => LoopStep { continue_running: false, reply: None },
            LoopInput::Command(None) => LoopStep { continue_running: false, reply: None },
            LoopInput::Command(Some(ListenerCommand::Shutdown)) => LoopStep {
                continue_running: false,
                reply: None,
            },
            LoopInput::Command(Some(ListenerCommand::Restart)) => LoopStep {
                continue_running: true,
                reply: None,
            },
            LoopInput::Command(Some(ListenerCommand::GetState)) => LoopStep {
                continue_running: true,
                reply: Some(self.state.duplicate()),
            },
        }
    }
}

/// How many inputs the command loop processes from a sequence of inputs: it
/// takes one iteration per input until an input stops it, that stopping
/// input included.
pub open spec fn iterations_taken(inputs: Seq<LoopInput>) -> int
    decreases inputs.len(),
{
    if inputs.len() == 0 {
        0
    } else if stops_loop(inputs[0]) {
        1
    } else {
        1 + iterations_taken(inputs.drop_first())
    }
}

/// The loop never processes more inputs than it is given.
pub proof fn lemma_iterations_bound(inputs: Seq<LoopInput>)
    ensures
        0 <= iterations_taken(inputs) <= inputs.len(),
    decreases inputs.len(),
{
    if inputs.len() != 0 && !stops_loop(inputs[0]) {
        lemma_iterations_bound(inputs.drop_first());
    }
}

/// Law: once the command loop takes a stopping input — a `Shutdown`, a
/// closed command channel, or the supervised loop's clean end — it processes
/// no later input at all. Outbound events are produced only inside processed
/// iterations, so after a `Shutdown` no further events are produced and the
/// actor's task ends.
pub proof fn lemma_shutdown_ends_loop(inputs: Seq<LoopInput>, i: int)
    requires
        0 <= i < inputs.len(),
        stops_loop(inputs[i]),
    ensures
        iterations_taken(inputs) <= i + 1,
    decreases i,
{
    if !stops_loop(inputs[0]) {
        lemma_shutdown_ends_loop(inputs.drop_first(), i - 1);
    }
}

/// If none of the first `i + 1` inputs stops the loop, the loop runs past
/// all of them: it takes at least `i + 2` iterations, unless the inputs end
/// first, in which case it takes them all.
pub proof fn lemma_loop_runs_on(inputs: Seq<LoopInput>, i: int)
    requires
        0 <= i < inputs.len(),
        forall|j: int| 0 <= j <= i ==> !stops_loop(inputs[j]),
    ensures
        iterations_taken(inputs) >= i + 2 || iterations_taken(inputs) == inputs.len(),
    decreases i,
{
    assert(!stops_loop(inputs[0]));
    let rest = inputs.drop_first();
    assert(iterations_taken(inputs) == 1 + iterations_taken(rest));
    if i == 0 {
        if inputs.len() > 1 {
            if !stops_loop(rest[0]) {
                lemma_iterations_bound(rest.drop_first());
            }
            assert(iterations_taken(rest) >= 1);
        }
    } else {
        assert forall|j: int| 0 <= j <= i - 1 implies !stops_loop(rest[j]) by {
            assert(rest[j] == inputs[j + 1]);
        }
        lemma_loop_runs_on(rest, i - 1);
        assert(iterations_taken(rest) >= i + 1 || iterations_taken(rest) == rest.len());
    }
}

/// Law: a `Restart` abandons the in-flight attempt but does not end the
/// command loop — the iteration after it is still taken, so a new attempt
/// begins — and, because `loop_step` only borrows the actor, the backoff
/// generator and its attempt counter carry over a restart unchanged.
pub proof fn lemma_restart_continues(inputs: Seq<LoopInput>, i: int)
    requires
        0 <= i < inputs.len(),
        forall|j: int| 0 <= j < i ==> !stops_loop(inputs[j]),
        inputs[i] == LoopInput::Command(Some(ListenerCommand::Restart)),
    ensures
        iterations_taken(inputs) >= i + 2 || iterations_taken(inputs) == inputs.len(),
{
    lemma_loop_runs_on(inputs, i);
}

/// Law: the cursor after processing a message is the maximum of the previous
/// cursor and the message timestamp. It never regresses, and a message with
/// timestamp `c2`, replayed after a reconnect that resumed at any cursor
/// `c1 <= c2`, lands the cursor exactly at `c2` — the message is processed
/// again rather than lost.
pub proof fn lemma_cursor_replay(c1: u64, c2: u64)
    requires
        c1 <= c2,
    ensures
        advanced_cursor(c1, c2) == c2,
        advanced_cursor(c2, c2) == c2,
        forall|c: u64, t: u64| #[trigger] advanced_cursor(c, t) >= c && advanced_cursor(c, t) >= t,
{
}

/// Law: two failures in a row, each with uptime at or below the stability
/// threshold, produce non-decreasing `Reconnecting` delays, both bounded by
/// the generator's configured maximum and minimum.
pub proof fn lemma_reconnect_delay_escalates(a: ListenerActor, u1: u64, e1: u64, u2: u64)
    requires
        a.wf(),
        u1 <= STABLE_UPTIME_MS,
        u2 <= STABLE_UPTIME_MS,
    ensures
        ({
            let b1 = a.failure_backoff(u1, e1);
            let after = ListenerActor { backoff: b1.spec_advanced(e1), ..a };
            let b2 = after.failure_backoff(u2, e1);
            &&& b2.spec_delay() >= b1.spec_delay()
            &&& b1.min_ms <= b1.spec_delay() <= b1.max_ms
            &&& b2.min_ms <= b2.spec_delay() <= b2.max_ms
        }),
{
    crate::retry::lemma_backoff_escalates(a.backoff, e1);
}

/// Law: a failure after a stable run (uptime above the threshold) resets the
/// delay toward the configured minimum: the next delay is at least the
/// minimum and below twice the minimum.
pub proof fn lemma_reconnect_delay_resets(a: ListenerActor, uptime_ms: u64, entropy: u64)
    requires
        a.wf(),
        uptime_ms > STABLE_UPTIME_MS,
    ensures
        BACKOFF_MIN_MS <= a.failure_backoff(uptime_ms, entropy).spec_delay() < 2 * BACKOFF_MIN_MS,
{
    crate::retry::lemma_backoff_reset(BACKOFF_MIN_MS, BACKOFF_MAX_MS, entropy);
}

} // verus!
