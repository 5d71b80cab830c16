use vstd::prelude::*;

use crate::engine::{
    begin_pass, begin_poll_spec, disconnected, ended, inv, on_flush_spec, on_inbound_spec,
    on_open_check_spec, on_open_spec, on_queue_spec, on_ready_spec, on_send_spec, on_state_spec,
    on_timer_spec, run_concern, teardown, Action, Disconnect, EngineView, Inbound, Outbound, Phase,
    Readiness, Step,
};
use crate::state::{NextPoll, State};

verus! {

/// The held message survives a transition, unless it went to the transport.
pub open spec fn keeps_held<W>(v: EngineView<W>, t: (EngineView<W>, Step<W>)) -> bool {
    t.0.held == v.held || (t.0.held is None && t.1.action == Action::StartSend(v.held->Some_0))
}

/// A transition that does not read the outbound queue.
pub open spec fn leaves_queue<W>(t: (EngineView<W>, Step<W>)) -> bool {
    !(t.1.action is PollQueue)
}

/// A drop of the connection always times a reconnect until the engine ends,
/// also at the last attempt of the budget: the engine is not ended by it.
pub proof fn lemma_drop_rearms_until_ended<W>(v: EngineView<W>, ms: u32)
    requires
        inv(v),
        !v.terminated,
    ensures
        teardown(v, ms) == Disconnect::Reconnect(ms),
        !disconnected(v, ms).terminated,
        disconnected(v, ms).timer_ms == ms,
        disconnected(v, ms).retry == v.retry,
{
}

/// Once `max_retries` reconnect attempts have been made, the elapsed timer
/// ends the stream for good without opening a transport, and every later poll
/// ends it at once.
pub proof fn lemma_spent_attempts_end_the_stream<W>(v: EngineView<W>)
    requires
        inv(v),
        v.phase == Phase::AwaitTimer,
        v.retry >= v.policy.spec_max_retries(),
    ensures
        on_timer_spec(v, true).1.action is End,
        on_timer_spec(v, true).0.terminated,
        begin_poll_spec(on_timer_spec(v, true).0).1.action is End,
{
}

/// No reconnect attempt goes past the budget: an elapsed timer opens a
/// transport only while fewer than `max_retries` attempts have been made, and
/// the count stays within `max_retries`.
pub proof fn lemma_attempts_within_budget<W>(v: EngineView<W>)
    requires
        inv(v),
        v.phase == Phase::AwaitTimer,
    ensures
        on_timer_spec(v, true).1.action is Open ==> v.retry < v.policy.spec_max_retries(),
        on_timer_spec(v, true).0.retry <= v.policy.spec_max_retries(),
{
}

/// A terminated engine ends every poll at once, unchanged: it opens nothing,
/// reads nothing and reports no error, whatever waits in the queue.
pub proof fn lemma_terminated_stays_ended<W>(v: EngineView<W>)
    requires
        inv(v),
        v.terminated,
    ensures
        begin_poll_spec(v) == (v, Step::<W> { disconnect: Disconnect::Stay, action: Action::End }),
{
}

/// Termination is final: closing again keeps the engine terminated.
pub proof fn lemma_termination_is_final<W>(v: EngineView<W>, ms: u32)
    requires
        v.terminated,
    ensures
        disconnected(v, ms).terminated,
        ended(v).terminated,
{
}

/// The outbound queue is read only right after the transport reported that
/// it is open: no other report leads to reading it.
pub proof fn lemma_queue_read_only_when_open<W>(
    v: EngineView<W>,
    s: State,
    elapsed: bool,
    ok: bool,
    i: Inbound,
    x: Outbound<W>,
    rd: Readiness,
    ms: u32,
)
    requires
        inv(v),
    ensures
        on_open_check_spec(v, s).1.action is PollQueue ==> s == State::Open,
        v.phase == Phase::Idle ==> leaves_queue(begin_poll_spec(v)),
        v.phase == Phase::AwaitState ==> leaves_queue(on_state_spec(v, s)),
        v.phase == Phase::AwaitTimer ==> leaves_queue(on_timer_spec(v, elapsed)),
        v.phase == Phase::AwaitOpen ==> leaves_queue(on_open_spec(v, ok)),
        v.phase == Phase::AwaitInbound ==> leaves_queue(on_inbound_spec(v, i, ms)),
        v.phase == Phase::AwaitQueue ==> leaves_queue(on_queue_spec(v, x)),
        v.phase == Phase::AwaitReady ==> leaves_queue(on_ready_spec(v, rd, ms)),
        v.phase == Phase::AwaitSend ==> leaves_queue(on_send_spec(v, ok, ms)),
        v.phase == Phase::AwaitFlush ==> leaves_queue(on_flush_spec(v, rd, ms)),
{
}

/// A held message is never dropped: every report keeps it, but the one that
/// hands it to the transport; and whenever the transport is open for the
/// outbound concern, the held message is retried before the queue is read.
pub proof fn lemma_held_message_kept<W>(
    v: EngineView<W>,
    s: State,
    elapsed: bool,
    ok: bool,
    i: Inbound,
    x: Outbound<W>,
    rd: Readiness,
    ms: u32,
)
    requires
        inv(v),
        v.held is Some,
    ensures
        v.phase == Phase::Idle ==> keeps_held(v, begin_poll_spec(v)),
        v.phase == Phase::AwaitState ==> keeps_held(v, on_state_spec(v, s)),
        v.phase == Phase::AwaitTimer ==> keeps_held(v, on_timer_spec(v, elapsed)),
        v.phase == Phase::AwaitOpen ==> keeps_held(v, on_open_spec(v, ok)),
        v.phase == Phase::AwaitInbound ==> keeps_held(v, on_inbound_spec(v, i, ms)),
        v.phase == Phase::AwaitOpenCheck ==> keeps_held(v, on_open_check_spec(v, s)),
        v.phase == Phase::AwaitReady ==> keeps_held(v, on_ready_spec(v, rd, ms)),
        v.phase == Phase::AwaitSend ==> keeps_held(v, on_send_spec(v, ok, ms)),
        v.phase == Phase::AwaitFlush ==> keeps_held(v, on_flush_spec(v, rd, ms)),
        v.phase == Phase::AwaitOpenCheck && s == State::Open ==> on_open_check_spec(
            v,
            s,
        ).1.action is PollReady,
{
}

/// The concerns alternate: a pass on an open transport starts with the
/// concern that the last one serviced second or skipped, and servicing a
/// concern makes the other one first for the next pass.
pub proof fn lemma_concerns_alternate<W>(v: EngineView<W>)
    ensures
        v.state == State::Open && v.next_poll == NextPoll::Socket ==> begin_pass(v).1.action
            is PollInbound,
        v.state == State::Open && v.next_poll == NextPoll::Channel ==> begin_pass(v).1.action
            is CheckOpen,
        v.state == State::Open ==> begin_pass(v).0.next_poll == v.next_poll.other(),
        v.state == State::Open ==> begin_pass(v).0.pass_len == 2,
        run_concern(v).1.action is PollInbound ==> run_concern(v).0.next_poll
            == NextPoll::Channel,
        run_concern(v).1.action is CheckOpen ==> run_concern(v).0.next_poll == NextPoll::Socket,
{
}

} // verus!
