use vstd::prelude::*;

use crate::backoff::{growth_exact, BackoffPolicy};
use crate::builder::{Config, MAX_TIMER_MS};
use crate::state::{NextPoll, State};

verus! {

/// What polling the transport's inbound stream gave.
#[derive(Debug, Clone, Copy, PartialEq, Eq, Structural)]
pub enum Inbound {
    /// Nothing yet.
    Pending,
    /// A message that the caller's conversion turned into an output.
    Message,
    /// A message that the caller's conversion refused.
    ConversionFailed,
    /// An error of the transport itself.
    TransportFailed,
    /// The stream ended: the transport is closed.
    Closed,
}

/// What polling the outbound queue gave.
#[derive(Debug)]
pub enum Outbound<W> {
    /// The queue is empty for now.
    Pending,
    /// The next input, converted into a wire message.
    Message(W),
    /// The next input, which the caller's conversion refused.
    ConversionFailed,
    /// Every producer is gone and the queue is closed.
    Closed,
}

/// What polling the transport's send readiness, or its flush, gave.
#[derive(Debug, Clone, Copy, PartialEq, Eq, Structural)]
pub enum Readiness {
    /// Not yet.
    Pending,
    /// Done.
    Ready,
    /// The transport failed.
    Failed,
}

/// What the engine asks its driver to do next.
#[derive(Debug)]
pub enum Action<W> {
    /// Read the transport's state and report it with `on_state`.
    QueryState,
    /// Poll the reconnect timer and report with `on_timer`.
    PollTimer,
    /// Open a new transport to the url and report with `on_open`.
    Open,
    /// Poll the transport's inbound stream and report with `on_inbound`.
    PollInbound,
    /// Read the transport's state and report it with `on_open_check`.
    CheckOpen,
    /// Poll the outbound queue and report with `on_queue`.
    PollQueue,
    /// Poll the transport's send readiness and report with `on_ready`.
    PollReady,
    /// Hand this message to the transport and report with `on_send`.
    StartSend(W),
    /// Poll the transport's flush and report with `on_flush`.
    PollFlush,
    /// End the poll with the item that the last report carried.
    Emit,
    /// End the poll with this change of the connection's state.
    EmitState(State),
    /// End the poll with no progress: a wake-up has been registered.
    Suspend,
    /// End the poll with the end of the stream.
    End,
}

/// What becomes of the transport before the action of a [`Step`].
#[derive(Debug, Clone, Copy, PartialEq, Eq, Structural)]
pub enum Disconnect {
    /// Keep it.
    Stay,
    /// Close and drop it (best effort); no reconnect follows.
    Close,
    /// Close and drop it (best effort), and arm the reconnect timer for this
    /// many milliseconds.
    Reconnect(u32),
}

/// The engine's answer to a report: what becomes of the transport, then an
/// action.
#[derive(Debug)]
pub struct Step<W> {
    /// Whether the transport is dropped first, and whether a reconnect is timed.
    pub disconnect: Disconnect,
    /// What to do next.
    pub action: Action<W>,
}

/// Where the engine stands within a poll.
#[derive(Debug, Clone, Copy, PartialEq, Eq, Structural)]
pub enum Phase {
    /// Between polls.
    Idle,
    /// Waiting for `on_state`.
    AwaitState,
    /// Waiting for `on_timer`.
    AwaitTimer,
    /// Waiting for `on_open`.
    AwaitOpen,
    /// Waiting for `on_inbound`.
    AwaitInbound,
    /// Waiting for `on_open_check`.
    AwaitOpenCheck,
    /// Waiting for `on_queue`.
    AwaitQueue,
    /// Waiting for `on_ready`.
    AwaitReady,
    /// Waiting for `on_send`.
    AwaitSend,
    /// Waiting for `on_flush`.
    AwaitFlush,
}

/// The engine as the contracts see it.
pub struct EngineView<W> {
    /// Where a new transport is opened.
    pub url: Seq<char>,
    /// Paces the reconnect attempts.
    pub policy: BackoffPolicy,
    /// Whether changes of the connection's state are items of the stream.
    pub annotated: bool,
    /// Whether the driver holds a transport.
    pub connected: bool,
    /// The last state observed of the transport.
    pub state: State,
    /// A converted message that the transport was not ready to accept.
    pub held: Option<W>,
    /// Reconnect attempts made so far.
    pub retry: nat,
    /// The concern to service first in the next pass.
    pub next_poll: NextPoll,
    /// Whether the stream has ended for good.
    pub terminated: bool,
    /// The delay that the reconnect timer was last armed with.
    pub timer_ms: u32,
    /// Where the engine stands within a poll.
    pub phase: Phase,
    /// The concern that the current pass started with.
    pub first: NextPoll,
    /// How many concerns the current pass services: 2 while open, else 1.
    pub pass_len: nat,
    /// Which concern of the current pass is being serviced.
    pub idx: nat,
    /// Whether a message was held when the current pass began.
    pub queued: bool,
}

/// A delay as the reconnect timer counts it: at most `u32::MAX` milliseconds.
pub open spec fn timer_cap(x: int) -> int {
    if x <= MAX_TIMER_MS {
        x
    } else {
        MAX_TIMER_MS as int
    }
}

/// The delays that the reconnect timer may be armed with after `retry`
/// attempts: one that the policy gives, as the timer counts it. It is never
/// longer than `max_ms`, never shorter than `min_ms` unless `max_ms` is, and,
/// while the growth is exact, within the policy's window for `retry`.
pub open spec fn delay_allowed(p: BackoffPolicy, retry: nat, ms: u32) -> bool {
    &&& p.spec_max_ms() matches Some(m) ==> ms <= m
    &&& ms >= timer_cap(p.spec_min_ms() as int) || (p.spec_max_ms() matches Some(m) && ms
        == timer_cap(m as int))
    &&& ms > 0 || p.spec_max_ms() == Some(0u64)
    &&& growth_exact(p.spec_min_ms(), retry) ==> timer_cap(p.delay_floor(retry)) <= ms
        <= timer_cap(p.delay_ceiling(retry))
}

/// Whether every reconnect attempt of the budget has been made.
pub open spec fn attempts_spent<W>(v: EngineView<W>) -> bool {
    v.retry >= v.policy.spec_max_retries()
}

/// The concern of the current pass that is being serviced.
pub open spec fn concern<W>(v: EngineView<W>) -> NextPoll {
    if v.idx == 0 {
        v.first
    } else {
        v.first.other()
    }
}

/// Ends the poll with `action`.
pub open spec fn stop<W>(v: EngineView<W>, action: Action<W>) -> (EngineView<W>, Step<W>) {
    (EngineView { phase: Phase::Idle, ..v }, Step { disconnect: Disconnect::Stay, action })
}

/// The transport is dropped. Unless the engine has ended, the reconnect timer
/// is armed with `ms`; whether an attempt follows is decided when it elapses.
pub open spec fn disconnected<W>(v: EngineView<W>, ms: u32) -> EngineView<W> {
    EngineView {
        connected: false,
        state: State::Closed,
        timer_ms: if v.terminated {
            0
        } else {
            ms
        },
        phase: Phase::Idle,
        ..v
    }
}

/// What a drop does to the transport: close it, and time a reconnect unless
/// the engine has ended.
pub open spec fn teardown<W>(v: EngineView<W>, ms: u32) -> Disconnect {
    if v.terminated {
        Disconnect::Close
    } else {
        Disconnect::Reconnect(ms)
    }
}

/// Drops the connection and ends the poll with `action`.
pub open spec fn drop_with<W>(v: EngineView<W>, ms: u32, action: Action<W>) -> (
    EngineView<W>,
    Step<W>,
) {
    (disconnected(v, ms), Step { disconnect: teardown(v, ms), action })
}

/// The engine after it ended for good.
pub open spec fn ended<W>(v: EngineView<W>) -> EngineView<W> {
    EngineView {
        connected: false,
        state: State::Closed,
        timer_ms: 0,
        phase: Phase::Idle,
        terminated: true,
        ..v
    }
}

/// Ends for good and ends the poll with `action`.
pub open spec fn end_with<W>(v: EngineView<W>, action: Action<W>) -> (EngineView<W>, Step<W>) {
    (ended(v), Step { disconnect: Disconnect::Close, action })
}

/// The head of the reconnect loop: observe the transport if there is one,
/// else wait for the reconnect timer.
pub open spec fn top<W>(v: EngineView<W>) -> (EngineView<W>, Step<W>) {
    if v.connected {
        (
            EngineView { phase: Phase::AwaitState, ..v },
            Step { disconnect: Disconnect::Stay, action: Action::QueryState },
        )
    } else {
        (
            EngineView { phase: Phase::AwaitTimer, ..v },
            Step { disconnect: Disconnect::Stay, action: Action::PollTimer },
        )
    }
}

/// Services the current concern of the pass, and makes the other one first
/// for the next pass.
pub open spec fn run_concern<W>(v: EngineView<W>) -> (EngineView<W>, Step<W>) {
    let c = concern(v);
    let v2 = EngineView { next_poll: c.other(), ..v };
    match c {
        NextPoll::Socket => (
            EngineView { phase: Phase::AwaitInbound, ..v2 },
            Step { disconnect: Disconnect::Stay, action: Action::PollInbound },
        ),
        NextPoll::Channel => (
            EngineView { phase: Phase::AwaitOpenCheck, ..v2 },
            Step { disconnect: Disconnect::Stay, action: Action::CheckOpen },
        ),
    }
}

/// Starts a pass: both concerns, fairest first, while open; else only the
/// transport, to observe it opening.
pub open spec fn begin_pass<W>(v: EngineView<W>) -> (EngineView<W>, Step<W>) {
    let open = v.state == State::Open;
    run_concern(
        EngineView {
            first: if open { v.next_poll } else { NextPoll::Socket },
            pass_len: if open { 2 } else { 1 },
            idx: 0,
            queued: v.held is Some,
            ..v
        },
    )
}

/// Ends a pass: suspend while connected, unless a held message was just sent;
/// else go round the reconnect loop again.
pub open spec fn end_pass<W>(v: EngineView<W>) -> (EngineView<W>, Step<W>) {
    if v.connected && !(v.queued && v.held is None) {
        stop(v, Action::Suspend)
    } else {
        top(v)
    }
}

/// Moves on to the pass's next concern, or ends the pass.
pub open spec fn end_concern<W>(v: EngineView<W>) -> (EngineView<W>, Step<W>) {
    if v.idx + 1 < v.pass_len {
        run_concern(EngineView { idx: v.idx + 1, ..v })
    } else {
        end_pass(v)
    }
}

/// A poll begins.
pub open spec fn begin_poll_spec<W>(v: EngineView<W>) -> (EngineView<W>, Step<W>) {
    if v.terminated {
        stop(v, Action::End)
    } else {
        top(v)
    }
}

/// The transport reported state `s`.
pub open spec fn on_state_spec<W>(v: EngineView<W>, s: State) -> (EngineView<W>, Step<W>) {
    if v.state != s {
        let v2 = EngineView { state: s, ..v };
        if v.annotated {
            stop(v2, Action::EmitState(s))
        } else {
            begin_pass(v2)
        }
    } else {
        begin_pass(v)
    }
}

/// The reconnect timer has or has not elapsed. Once `max_retries` attempts
/// have been made, the elapsed timer ends the stream and nothing is opened.
pub open spec fn on_timer_spec<W>(v: EngineView<W>, elapsed: bool) -> (EngineView<W>, Step<W>) {
    if !elapsed {
        stop(v, Action::Suspend)
    } else if attempts_spent(v) {
        end_with(v, Action::End)
    } else {
        (
            EngineView { retry: v.retry + 1, phase: Phase::AwaitOpen, ..v },
            Step { disconnect: Disconnect::Stay, action: Action::Open },
        )
    }
}

/// Opening a transport succeeded or failed.
pub open spec fn on_open_spec<W>(v: EngineView<W>, ok: bool) -> (EngineView<W>, Step<W>) {
    if !ok {
        end_with(v, Action::Emit)
    } else {
        let v2 = EngineView { connected: true, state: State::Connecting, ..v };
        if v.annotated {
            stop(v2, Action::EmitState(State::Connecting))
        } else {
            begin_pass(v2)
        }
    }
}

/// The inbound stream gave `x`.
pub open spec fn on_inbound_spec<W>(v: EngineView<W>, x: Inbound, ms: u32) -> (
    EngineView<W>,
    Step<W>,
) {
    match x {
        Inbound::Pending => end_concern(v),
        Inbound::Message => stop(v, Action::Emit),
        Inbound::ConversionFailed => stop(v, Action::Emit),
        Inbound::TransportFailed => drop_with(v, ms, Action::Emit),
        Inbound::Closed => if v.annotated {
            drop_with(v, ms, Action::EmitState(State::Closed))
        } else {
            (
                EngineView { phase: Phase::AwaitTimer, ..disconnected(v, ms) },
                Step { disconnect: teardown(v, ms), action: Action::PollTimer },
            )
        },
    }
}

/// The transport reported state `s` before the outbound concern.
pub open spec fn on_open_check_spec<W>(v: EngineView<W>, s: State) -> (EngineView<W>, Step<W>) {
    if s != State::Open {
        end_concern(v)
    } else if v.held is Some {
        (
            EngineView { phase: Phase::AwaitReady, ..v },
            Step { disconnect: Disconnect::Stay, action: Action::PollReady },
        )
    } else {
        (
            EngineView { phase: Phase::AwaitQueue, ..v },
            Step { disconnect: Disconnect::Stay, action: Action::PollQueue },
        )
    }
}

/// The outbound queue gave `x`.
pub open spec fn on_queue_spec<W>(v: EngineView<W>, x: Outbound<W>) -> (EngineView<W>, Step<W>) {
    match x {
        Outbound::Pending => end_concern(v),
        Outbound::Message(w) => (
            EngineView { held: Some(w), phase: Phase::AwaitReady, ..v },
            Step { disconnect: Disconnect::Stay, action: Action::PollReady },
        ),
        Outbound::ConversionFailed => end_with(v, Action::Emit),
        Outbound::Closed => end_with(v, Action::End),
    }
}

/// The transport's send readiness is `x`, for the held message.
pub open spec fn on_ready_spec<W>(v: EngineView<W>, x: Readiness, ms: u32) -> (
    EngineView<W>,
    Step<W>,
) {
    match x {
        Readiness::Pending => end_concern(v),
        Readiness::Failed => drop_with(v, ms, Action::Emit),
        Readiness::Ready => (
            EngineView { held: None, phase: Phase::AwaitSend, ..v },
            Step { disconnect: Disconnect::Stay, action: Action::StartSend(v.held->Some_0) },
        ),
    }
}

/// The transport took the message, or refused it.
pub open spec fn on_send_spec<W>(v: EngineView<W>, ok: bool, ms: u32) -> (EngineView<W>, Step<W>) {
    if ok {
        (
            EngineView { phase: Phase::AwaitFlush, ..v },
            Step { disconnect: Disconnect::Stay, action: Action::PollFlush },
        )
    } else {
        drop_with(v, ms, Action::Emit)
    }
}

/// The transport's flush is `x`.
pub open spec fn on_flush_spec<W>(v: EngineView<W>, x: Readiness, ms: u32) -> (
    EngineView<W>,
    Step<W>,
) {
    match x {
        Readiness::Pending => stop(v, Action::Suspend),
        Readiness::Failed => drop_with(v, ms, Action::Emit),
        Readiness::Ready => end_concern(v),
    }
}

/// Whether the engine is servicing a concern of a pass.
pub open spec fn in_pass(p: Phase) -> bool {
    p == Phase::AwaitInbound || p == Phase::AwaitOpenCheck || p == Phase::AwaitQueue || p
        == Phase::AwaitReady || p == Phase::AwaitSend || p == Phase::AwaitFlush
}

/// What holds of the engine between any two calls.
pub open spec fn inv<W>(v: EngineView<W>) -> bool {
    &&& v.policy.wf()
    &&& v.retry <= v.policy.spec_max_retries()
    &&& v.terminated ==> v.phase == Phase::Idle && !v.connected
    &&& in_pass(v.phase) ==> v.connected && !v.terminated && v.idx < v.pass_len <= 2
    &&& v.phase == Phase::AwaitReady ==> v.held is Some
    &&& v.phase == Phase::AwaitQueue ==> v.held is None
    &&& v.phase == Phase::AwaitState ==> v.connected && !v.terminated
    &&& (v.phase == Phase::AwaitTimer || v.phase == Phase::AwaitOpen) ==> !v.connected
        && !v.terminated
}

/// The reconnect-and-multiplex engine of a reconnecting websocket.
///
/// The engine holds no transport, timer or queue: its driver does, and turns
/// each poll of the stream into a conversation. `begin_poll` starts it; each
/// [`Action`] that asks for a report names the method that takes it; `Emit`,
/// `EmitState`, `Suspend` and `End` finish the poll. Before the action of a
/// [`Step`], the driver drops its transport and arms the reconnect timer when
/// `disconnect` says so.
#[derive(Debug)]
pub struct Engine<W> {
    url: String,
    policy: BackoffPolicy,
    annotated: bool,
    connected: bool,
    state: State,
    held: Option<W>,
    retry: u64,
    next_poll: NextPoll,
    terminated: bool,
    timer_ms: u32,
    phase: Phase,
    first: NextPoll,
    pass_len: usize,
    idx: usize,
    queued: bool,
}

impl<W> View for Engine<W> {
    type V = EngineView<W>;

    closed spec fn view(&self) -> EngineView<W> {
        EngineView {
            url: self.url@,
            policy: self.policy,
            annotated: self.annotated,
            connected: self.connected,
            state: self.state,
            held: self.held,
            retry: self.retry as nat,
            next_poll: self.next_poll,
            terminated: self.terminated,
            timer_ms: self.timer_ms,
            phase: self.phase,
            first: self.first,
            pass_len: self.pass_len as nat,
            idx: self.idx as nat,
            queued: self.queued,
        }
    }
}

impl<W> Engine<W> {
    /// The engine's invariant, which every method keeps.
    pub open spec fn wf(&self) -> bool {
        inv(self@)
    }

    /// An engine for a transport that the driver has just opened with the
    /// configuration's url. With `annotated`, changes of the connection's
    /// state are items of the stream too.
    pub fn new(config: Config, annotated: bool) -> (r: Engine<W>)
        ensures
            r.wf(),
            r@.url == config@.url,
            r@.policy.spec_min_ms() == config@.backoff_min,
            r@.policy.spec_max_ms() == config@.backoff_max,
            r@.policy.spec_max_retries() == config@.max_retries,
            r@.annotated == annotated,
            r@.connected,
            r@.state == State::Connecting,
            r@.held is None,
            r@.retry == 0,
            r@.next_poll == NextPoll::Socket,
            !r@.terminated,
            r@.timer_ms == 0,
            r@.phase == Phase::Idle,
    {
        let policy = config.policy();
        Engine {
            url: config.into_url(),
            policy,
            annotated,
            connected: true,
            state: State::Connecting,
            held: None,
            retry: 0,
            next_poll: NextPoll::Socket,
            terminated: false,
            timer_ms: 0,
            phase: Phase::Idle,
            first: NextPoll::Socket,
            pass_len: 1,
            idx: 0,
            queued: false,
        }
    }

    /// Starts a poll of the stream. A terminated engine ends it at once.
    pub fn begin_poll(&mut self) -> (r: Step<W>)
        requires
            old(self).wf(),
            old(self)@.phase == Phase::Idle,
        ensures
            final(self).wf(),
            (final(self)@, r) == begin_poll_spec(old(self)@),
    {
        if self.terminated {
            Step { disconnect: Disconnect::Stay, action: Action::End }
        } else {
            self.top()
        }
    }

    /// Reports the transport's state, after `QueryState`. A change is an item
    /// of an annotated stream; then a pass begins.
    pub fn on_state(&mut self, s: State) -> (r: Step<W>)
        requires
            old(self).wf(),
            old(self)@.phase == Phase::AwaitState,
        ensures
            final(self).wf(),
            (final(self)@, r) == on_state_spec(old(self)@, s),
    {
        if self.state != s {
            self.state = s;
            if self.annotated {
                self.phase = Phase::Idle;
                return Step { disconnect: Disconnect::Stay, action: Action::EmitState(s) };
            }
        }
        self.begin_pass()
    }

    /// Reports whether the reconnect timer elapsed, after `PollTimer`. An
    /// elapsed timer leads to the next attempt, or ends the stream once
    /// `max_retries` attempts have been made.
    pub fn on_timer(&mut self, elapsed: bool) -> (r: Step<W>)
        requires
            old(self).wf(),
            old(self)@.phase == Phase::AwaitTimer,
        ensures
            final(self).wf(),
            (final(self)@, r) == on_timer_spec(old(self)@, elapsed),
    {
        if !elapsed {
            self.phase = Phase::Idle;
            Step { disconnect: Disconnect::Stay, action: Action::Suspend }
        } else if self.retry >= self.policy.max_retries() as u64 {
            self.end();
            Step { disconnect: Disconnect::Close, action: Action::End }
        } else {
            self.retry = self.retry + 1;
            self.phase = Phase::AwaitOpen;
            Step { disconnect: Disconnect::Stay, action: Action::Open }
        }
    }

    /// Reports whether opening a new transport succeeded, after `Open`. A
    /// failure is reported once, then the stream ends.
    pub fn on_open(&mut self, ok: bool) -> (r: Step<W>)
        requires
            old(self).wf(),
            old(self)@.phase == Phase::AwaitOpen,
        ensures
            final(self).wf(),
            (final(self)@, r) == on_open_spec(old(self)@, ok),
    {
        if !ok {
            self.end();
            return Step { disconnect: Disconnect::Close, action: Action::Emit };
        }
        self.connected = true;
        self.state = State::Connecting;
        if self.annotated {
            self.phase = Phase::Idle;
            Step { disconnect: Disconnect::Stay, action: Action::EmitState(State::Connecting) }
        } else {
            self.begin_pass()
        }
    }

    /// Reports what the inbound stream gave, after `PollInbound`. A message or
    /// a refused conversion is an item; a transport error is an item and drops
    /// the connection; the end of the stream drops it too. Each drop times a
    /// reconnect.
    pub fn on_inbound(&mut self, x: Inbound) -> (r: Step<W>)
        requires
            old(self).wf(),
            old(self)@.phase == Phase::AwaitInbound,
        ensures
            final(self).wf(),
            (final(self)@, r) == on_inbound_spec(old(self)@, x, final(self)@.timer_ms),
            r.disconnect matches Disconnect::Reconnect(ms) ==> delay_allowed(
                old(self)@.policy,
                old(self)@.retry,
                ms,
            ),
    {
        match x {
            Inbound::Pending => self.end_concern(),
            Inbound::Message | Inbound::ConversionFailed => {
                self.phase = Phase::Idle;
                Step { disconnect: Disconnect::Stay, action: Action::Emit }
            },
            Inbound::TransportFailed => {
                let d = self.disconnect();
                Step { disconnect: d, action: Action::Emit }
            },
            Inbound::Closed => {
                let d = self.disconnect();
                if self.annotated {
                    Step { disconnect: d, action: Action::EmitState(State::Closed) }
                } else {
                    self.phase = Phase::AwaitTimer;
                    Step { disconnect: d, action: Action::PollTimer }
                }
            },
        }
    }

    /// Reports the transport's state, after `CheckOpen`. Only an open
    /// transport gets a message: the held one, else the queue's next.
    pub fn on_open_check(&mut self, s: State) -> (r: Step<W>)
        requires
            old(self).wf(),
            old(self)@.phase == Phase::AwaitOpenCheck,
        ensures
            final(self).wf(),
            (final(self)@, r) == on_open_check_spec(old(self)@, s),
    {
        if s != State::Open {
            self.end_concern()
        } else if self.held.is_some() {
            self.phase = Phase::AwaitReady;
            Step { disconnect: Disconnect::Stay, action: Action::PollReady }
        } else {
            self.phase = Phase::AwaitQueue;
            Step { disconnect: Disconnect::Stay, action: Action::PollQueue }
        }
    }

    /// Reports what the outbound queue gave, after `PollQueue`. A message is
    /// held until the transport is ready for it; a refused conversion is an
    /// item and ends the stream; a closed queue ends it.
    pub fn on_queue(&mut self, x: Outbound<W>) -> (r: Step<W>)
        requires
            old(self).wf(),
            old(self)@.phase == Phase::AwaitQueue,
        ensures
            final(self).wf(),
            (final(self)@, r) == on_queue_spec(old(self)@, x),
    {
        match x {
            Outbound::Pending => self.end_concern(),
            Outbound::Message(w) => {
                self.held = Some(w);
                self.phase = Phase::AwaitReady;
                Step { disconnect: Disconnect::Stay, action: Action::PollReady }
            },
            Outbound::ConversionFailed => {
                self.end();
                Step { disconnect: Disconnect::Close, action: Action::Emit }
            },
            Outbound::Closed => {
                self.end();
                Step { disconnect: Disconnect::Close, action: Action::End }
            },
        }
    }

    /// Reports the transport's send readiness, after `PollReady`. When ready,
    /// the held message goes out; when not, it stays held.
    pub fn on_ready(&mut self, x: Readiness) -> (r: Step<W>)
        requires
            old(self).wf(),
            old(self)@.phase == Phase::AwaitReady,
        ensures
            final(self).wf(),
            (final(self)@, r) == on_ready_spec(old(self)@, x, final(self)@.timer_ms),
            r.disconnect matches Disconnect::Reconnect(ms) ==> delay_allowed(
                old(self)@.policy,
                old(self)@.retry,
                ms,
            ),
    {
        match x {
            Readiness::Pending => self.end_concern(),
            Readiness::Failed => {
                let d = self.disconnect();
                Step { disconnect: d, action: Action::Emit }
            },
            Readiness::Ready => {
                let w = self.held.take().unwrap();
                self.phase = Phase::AwaitSend;
                Step { disconnect: Disconnect::Stay, action: Action::StartSend(w) }
            },
        }
    }

    /// Reports whether the transport took the message, after `StartSend`.
    pub fn on_send(&mut self, ok: bool) -> (r: Step<W>)
        requires
            old(self).wf(),
            old(self)@.phase == Phase::AwaitSend,
        ensures
            final(self).wf(),
            (final(self)@, r) == on_send_spec(old(self)@, ok, final(self)@.timer_ms),
            r.disconnect matches Disconnect::Reconnect(ms) ==> delay_allowed(
                old(self)@.policy,
                old(self)@.retry,
                ms,
            ),
    {
        if ok {
            self.phase = Phase::AwaitFlush;
            Step { disconnect: Disconnect::Stay, action: Action::PollFlush }
        } else {
            let d = self.disconnect();
            Step { disconnect: d, action: Action::Emit }
        }
    }

    /// Reports the transport's flush, after `PollFlush`.
    pub fn on_flush(&mut self, x: Readiness) -> (r: Step<W>)
        requires
            old(self).wf(),
            old(self)@.phase == Phase::AwaitFlush,
        ensures
            final(self).wf(),
            (final(self)@, r) == on_flush_spec(old(self)@, x, final(self)@.timer_ms),
            r.disconnect matches Disconnect::Reconnect(ms) ==> delay_allowed(
                old(self)@.policy,
                old(self)@.retry,
                ms,
            ),
    {
        match x {
            Readiness::Pending => {
                self.phase = Phase::Idle;
                Step { disconnect: Disconnect::Stay, action: Action::Suspend }
            },
            Readiness::Failed => {
                let d = self.disconnect();
                Step { disconnect: d, action: Action::Emit }
            },
            Readiness::Ready => self.end_concern(),
        }
    }

    /// Drops the transport. Unless the engine has ended, the reconnect timer
    /// is armed with a delay of the policy, and the attempts made so far still
    /// count; whether an attempt follows is decided when the timer elapses. The
    /// driver closes its transport with the code and
    /// reason it chooses.
    pub fn close_transport(&mut self) -> (r: Disconnect)
        requires
            old(self).wf(),
        ensures
            final(self).wf(),
            final(self)@ == disconnected(old(self)@, final(self)@.timer_ms),
            r == teardown(old(self)@, final(self)@.timer_ms),
            !old(self)@.terminated ==> r is Reconnect && !final(self)@.terminated,
            r matches Disconnect::Reconnect(ms) ==> delay_allowed(
                old(self)@.policy,
                old(self)@.retry,
                ms,
            ),
    {
        self.disconnect()
    }

    /// Closes for good: the transport is dropped, no reconnect is timed, and
    /// every later poll ends the stream at once.
    pub fn close_permanently(&mut self)
        requires
            old(self).wf(),
        ensures
            final(self).wf(),
            final(self)@ == ended(old(self)@),
    {
        self.end();
    }

    /// Whether the stream has ended for good.
    pub fn is_terminated(&self) -> (r: bool)
        ensures
            r == self@.terminated,
    {
        self.terminated
    }

    /// Whether the outbound queue still takes input: only until the engine
    /// terminates.
    pub fn admits_input(&self) -> (r: bool)
        ensures
            r == !self@.terminated,
    {
        !self.terminated
    }

    /// The url that each reconnect opens.
    pub fn url(&self) -> (r: &str)
        ensures
            r@ == self@.url,
    {
        self.url.as_str()
    }

    /// The last state observed of the transport.
    pub fn state(&self) -> (r: State)
        ensures
            r == self@.state,
    {
        self.state
    }

    /// Reconnect attempts made so far.
    pub fn retry_count(&self) -> (r: u64)
        ensures
            r == self@.retry,
    {
        self.retry
    }

    /// The delay that the reconnect timer was last armed with.
    pub fn timer_ms(&self) -> (r: u32)
        ensures
            r == self@.timer_ms,
    {
        self.timer_ms
    }

    /// Whether a converted message waits for the transport to be ready.
    pub fn has_held_message(&self) -> (r: bool)
        ensures
            r == self@.held is Some,
    {
        self.held.is_some()
    }

    /// The concern that the next pass services first.
    pub fn next_poll(&self) -> (r: NextPoll)
        ensures
            r == self@.next_poll,
    {
        self.next_poll
    }

    /// Where the engine stands within a poll.
    pub fn phase(&self) -> (r: Phase)
        ensures
            r == self@.phase,
    {
        self.phase
    }

    fn disconnect(&mut self) -> (d: Disconnect)
        requires
            old(self).wf(),
        ensures
            final(self)@ == disconnected(old(self)@, final(self)@.timer_ms),
            d == teardown(old(self)@, final(self)@.timer_ms),
            d matches Disconnect::Reconnect(ms) ==> delay_allowed(
                old(self)@.policy,
                old(self)@.retry,
                ms,
            ),
    {
        self.connected = false;
        self.state = State::Closed;
        self.phase = Phase::Idle;
        if self.terminated {
            self.timer_ms = 0;
            return Disconnect::Close;
        }
        let ms: u32 = match self.policy.next(self.retry) {
            Some(d) => if d > MAX_TIMER_MS as u128 {
                0xffff_ffff
            } else {
                d as u32
            },
            None => 0,
        };
        self.timer_ms = ms;
        Disconnect::Reconnect(ms)
    }

    fn end(&mut self)
        ensures
            final(self)@ == ended(old(self)@),
    {
        self.connected = false;
        self.state = State::Closed;
        self.timer_ms = 0;
        self.phase = Phase::Idle;
        self.terminated = true;
    }

    fn top(&mut self) -> (r: Step<W>)
        ensures
            (final(self)@, r) == top(old(self)@),
    {
        if self.connected {
            self.phase = Phase::AwaitState;
            Step { disconnect: Disconnect::Stay, action: Action::QueryState }
        } else {
            self.phase = Phase::AwaitTimer;
            Step { disconnect: Disconnect::Stay, action: Action::PollTimer }
        }
    }

    fn run_concern(&mut self) -> (r: Step<W>)
        ensures
            (final(self)@, r) == run_concern(old(self)@),
    {
        let c = if self.idx == 0 {
            self.first
        } else {
            self.first.next()
        };
        self.next_poll = c.next();
        match c {
            NextPoll::Socket => {
                self.phase = Phase::AwaitInbound;
                Step { disconnect: Disconnect::Stay, action: Action::PollInbound }
            },
            NextPoll::Channel => {
                self.phase = Phase::AwaitOpenCheck;
                Step { disconnect: Disconnect::Stay, action: Action::CheckOpen }
            },
        }
    }

    fn begin_pass(&mut self) -> (r: Step<W>)
        ensures
            (final(self)@, r) == begin_pass(old(self)@),
    {
        if self.state == State::Open {
            self.first = self.next_poll;
            self.pass_len = 2;
        } else {
            self.first = NextPoll::Socket;
            self.pass_len = 1;
        }
        self.idx = 0;
        self.queued = self.held.is_some();
        self.run_concern()
    }

    fn end_pass(&mut self) -> (r: Step<W>)
        ensures
            (final(self)@, r) == end_pass(old(self)@),
    {
        if self.connected && !(self.queued && self.held.is_none()) {
            self.phase = Phase::Idle;
            Step { disconnect: Disconnect::Stay, action: Action::Suspend }
        } else {
            self.top()
        }
    }

    fn end_concern(&mut self) -> (r: Step<W>)
        requires
            old(self).idx < old(self).pass_len <= 2,
        ensures
            (final(self)@, r) == end_concern(old(self)@),
    {
        if self.idx + 1 < self.pass_len {
            self.idx = self.idx + 1;
            self.run_concern()
        } else {
            self.end_pass()
        }
    }
}

} // verus!
