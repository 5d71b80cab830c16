use std::collections::VecDeque;

use reconnecting_websocket::{
    Action, BackoffPolicy, Disconnect, Engine, Inbound, NextPoll, Outbound, Phase, Readiness,
    SocketBuilder, State, Step,
};

/// What one poll of the stream produced.
#[derive(Debug, Clone, PartialEq, Eq)]
enum Out {
    Item(Result<u32, String>),
    Changed(State),
    Pending,
    End,
}

/// A scripted transport, timer and queue around an engine.
struct Sim {
    engine: Engine<u32>,
    connected: bool,
    transport_state: State,
    timer_elapsed: bool,
    open_ok: bool,
    opens: usize,
    inbound: VecDeque<Result<u32, String>>,
    inbound_closed: bool,
    queue: VecDeque<u32>,
    ready: bool,
    echo: bool,
    sent: Vec<u32>,
    timers: Vec<u32>,
    trace: Vec<&'static str>,
}

impl Sim {
    fn new(max_retries: u32, annotated: bool) -> Sim {
        let config = SocketBuilder::new("ws://example.test/feed".to_string())
            .set_backoff_min(100)
            .set_max_retries(max_retries)
            .into_config()
            .unwrap();
        Sim {
            engine: Engine::new(config, annotated),
            connected: true,
            transport_state: State::Connecting,
            timer_elapsed: false,
            open_ok: true,
            opens: 0,
            inbound: VecDeque::new(),
            inbound_closed: false,
            queue: VecDeque::new(),
            ready: true,
            echo: true,
            sent: Vec::new(),
            timers: Vec::new(),
            trace: Vec::new(),
        }
    }

    fn poll(&mut self) -> Out {
        let mut item: Option<Result<u32, String>> = None;
        let mut step: Step<u32> = self.engine.begin_poll();
        loop {
            match step.disconnect {
                Disconnect::Stay => {},
                Disconnect::Close => self.connected = false,
                Disconnect::Reconnect(ms) => {
                    self.connected = false;
                    self.inbound_closed = false;
                    self.timer_elapsed = false;
                    self.timers.push(ms);
                },
            }
            step = match step.action {
                Action::QueryState => self.engine.on_state(self.transport_state),
                Action::PollTimer => self.engine.on_timer(self.timer_elapsed),
                Action::Open => {
                    self.opens += 1;
                    if self.open_ok {
                        self.connected = true;
                        self.transport_state = State::Connecting;
                    } else {
                        item = Some(Err("open failed".to_string()));
                    }
                    self.engine.on_open(self.open_ok)
                },
                Action::PollInbound => {
                    self.trace.push("inbound");
                    match self.inbound.pop_front() {
                        Some(Ok(v)) => {
                            item = Some(Ok(v));
                            self.engine.on_inbound(Inbound::Message)
                        },
                        Some(Err(e)) => {
                            item = Some(Err(e));
                            self.engine.on_inbound(Inbound::ConversionFailed)
                        },
                        None => if self.inbound_closed {
                            self.engine.on_inbound(Inbound::Closed)
                        } else {
                            self.engine.on_inbound(Inbound::Pending)
                        },
                    }
                },
                Action::CheckOpen => {
                    self.trace.push("outbound");
                    self.engine.on_open_check(self.transport_state)
                },
                Action::PollQueue => match self.queue.pop_front() {
                    Some(v) => self.engine.on_queue(Outbound::Message(v)),
                    None => self.engine.on_queue(Outbound::Pending),
                },
                Action::PollReady => if self.ready {
                    self.engine.on_ready(Readiness::Ready)
                } else {
                    self.engine.on_ready(Readiness::Pending)
                },
                Action::StartSend(w) => {
                    self.sent.push(w);
                    if self.echo {
                        self.inbound.push_back(Ok(w));
                    }
                    self.engine.on_send(true)
                },
                Action::PollFlush => self.engine.on_flush(Readiness::Ready),
                Action::Emit => return Out::Item(item.expect("an item to emit")),
                Action::EmitState(s) => return Out::Changed(s),
                Action::Suspend => return Out::Pending,
                Action::End => return Out::End,
            };
        }
    }

    /// Polls until the transport has been seen open.
    fn open_up(&mut self) {
        self.transport_state = State::Open;
        for _ in 0..4 {
            if self.engine.state() == State::Open {
                return;
            }
            self.poll();
        }
        assert_eq!(self.engine.state(), State::Open);
    }
}

#[test]
fn ten_inputs_come_back_in_order() {
    let mut sim = Sim::new(5, true);
    assert_eq!(sim.poll(), Out::Pending);
    sim.open_up();
    for i in 0..10u32 {
        sim.queue.push_back(i);
    }
    let mut outputs = Vec::new();
    for _ in 0..100 {
        match sim.poll() {
            Out::Item(Ok(v)) => outputs.push(v),
            Out::Pending => {},
            other => panic!("unexpected {:?}", other),
        }
        if outputs.len() == 10 {
            break;
        }
    }
    assert_eq!(outputs, (0..10u32).collect::<Vec<u32>>());
    assert_eq!(sim.sent, (0..10u32).collect::<Vec<u32>>());
    assert_eq!(sim.opens, 0);
    assert_eq!(sim.engine.state(), State::Open);
}

#[test]
fn closed_transport_arms_timer_then_reopens() {
    let mut sim = Sim::new(5, true);
    sim.open_up();
    sim.inbound_closed = true;
    assert_eq!(sim.poll(), Out::Changed(State::Closed));
    assert!(!sim.connected);
    assert_eq!(sim.timers.len(), 1);
    assert!(sim.timers[0] >= 100 && sim.timers[0] <= 60_000);
    assert_eq!(sim.engine.retry_count(), 0);
    assert_eq!(sim.poll(), Out::Pending);
    assert_eq!(sim.opens, 0);
    sim.timer_elapsed = true;
    assert_eq!(sim.poll(), Out::Changed(State::Connecting));
    assert_eq!(sim.opens, 1);
    assert_eq!(sim.engine.retry_count(), 1);
    assert!(sim.connected);
}

#[test]
fn stream_ends_once_retries_are_spent() {
    let mut sim = Sim::new(1, false);
    sim.open_up();
    let mut ended = false;
    for _ in 0..20 {
        sim.transport_state = State::Open;
        sim.inbound_closed = sim.connected;
        sim.timer_elapsed = true;
        match sim.poll() {
            Out::End => {
                ended = true;
                break;
            },
            _ => {},
        }
    }
    assert!(ended);
    assert_eq!(sim.opens, 1);
    assert_eq!(sim.engine.retry_count(), 1);
    assert_eq!(sim.timers.len(), 2);
    assert!(sim.engine.is_terminated());
    assert!(!sim.engine.admits_input());
    assert_eq!(sim.poll(), Out::End);
    assert_eq!(sim.opens, 1);
}

#[test]
fn inbound_conversion_failure_is_one_item() {
    let mut sim = Sim::new(5, true);
    sim.open_up();
    sim.inbound.push_back(Ok(1));
    sim.inbound.push_back(Err("bad payload".to_string()));
    sim.inbound.push_back(Ok(2));
    let mut items = Vec::new();
    for _ in 0..10 {
        match sim.poll() {
            Out::Item(r) => items.push(r),
            Out::Pending => break,
            other => panic!("unexpected {:?}", other),
        }
    }
    assert_eq!(items, vec![Ok(1), Err("bad payload".to_string()), Ok(2)]);
    assert_eq!(sim.engine.state(), State::Open);
    assert!(sim.connected);
    assert!(!sim.engine.is_terminated());
}

#[test]
fn backoff_delays_stay_within_bounds() {
    let policy = BackoffPolicy::new(5, 100, Some(60_000));
    for retry in 0..=5u64 {
        let d = policy.next(retry).expect("a delay while attempts remain");
        assert!(d >= 100 && d <= 60_000, "retry {} gave {}", retry, d);
    }
    let capped = BackoffPolicy::new(40, 100, Some(1_000));
    assert!(capped.next(30).unwrap() <= 1_000);
    assert!(capped.next(30).unwrap() >= 100);
}

#[test]
fn backoff_delay_grows_from_the_minimum() {
    let policy = BackoffPolicy::new(10, 100, None);
    let d0 = policy.next(0).unwrap();
    let d3 = policy.next(3).unwrap();
    assert!(d0 >= 100 && d0 < 130);
    assert!(d3 >= 560 && d3 <= 1_040);
    assert!(d0 < d3);
}

#[test]
fn backoff_is_exhausted_past_max_retries() {
    let policy = BackoffPolicy::new(5, 100, Some(60_000));
    assert_eq!(policy.next(6), None);
    assert_eq!(policy.next(1_000), None);
    assert_eq!(policy.max_retries(), 5);
    assert_eq!(policy.min_ms(), 100);
    assert_eq!(policy.max_ms(), Some(60_000));
}

#[test]
fn terminated_engine_always_ends() {
    let mut sim = Sim::new(5, true);
    sim.open_up();
    sim.queue.push_back(7);
    sim.queue.push_back(8);
    sim.engine.close_permanently();
    for _ in 0..3 {
        assert_eq!(sim.poll(), Out::End);
    }
    assert_eq!(sim.queue.len(), 2);
    assert!(sim.sent.is_empty());
    assert_eq!(sim.engine.phase(), Phase::Idle);
}

#[test]
fn terminated_engine_refuses_input() {
    let mut sim = Sim::new(5, false);
    assert!(sim.engine.admits_input());
    sim.engine.close_permanently();
    assert!(!sim.engine.admits_input());
    assert!(sim.engine.is_terminated());
}

#[test]
fn queue_untouched_while_not_open() {
    let mut sim = Sim::new(5, false);
    sim.queue.push_back(1);
    sim.queue.push_back(2);
    for _ in 0..5 {
        assert_eq!(sim.poll(), Out::Pending);
        assert_eq!(sim.queue.len(), 2);
    }
    sim.transport_state = State::Closing;
    sim.poll();
    assert_eq!(sim.queue.len(), 2);
    assert!(sim.sent.is_empty());
}

#[test]
fn held_message_is_retried_until_sent() {
    let mut sim = Sim::new(5, false);
    sim.open_up();
    sim.echo = false;
    sim.ready = false;
    sim.queue.push_back(42);
    sim.queue.push_back(43);
    assert_eq!(sim.poll(), Out::Pending);
    assert!(sim.engine.has_held_message());
    assert_eq!(sim.queue.len(), 1);
    for _ in 0..3 {
        assert_eq!(sim.poll(), Out::Pending);
        assert!(sim.engine.has_held_message());
        assert_eq!(sim.queue.len(), 1);
    }
    sim.ready = true;
    sim.poll();
    assert_eq!(sim.sent, vec![42, 43]);
    assert!(!sim.engine.has_held_message());
}

#[test]
fn held_message_survives_a_reconnect() {
    let mut sim = Sim::new(5, false);
    sim.open_up();
    sim.echo = false;
    sim.ready = false;
    sim.queue.push_back(9);
    sim.poll();
    assert!(sim.engine.has_held_message());
    sim.engine.close_transport();
    sim.connected = false;
    assert!(sim.engine.has_held_message());
    sim.timer_elapsed = true;
    sim.ready = true;
    sim.poll();
    sim.open_up();
    sim.poll();
    assert_eq!(sim.sent, vec![9]);
}

#[test]
fn concerns_alternate_between_polls() {
    let mut sim = Sim::new(5, false);
    sim.open_up();
    sim.echo = false;
    for i in 0..3u32 {
        sim.inbound.push_back(Ok(100 + i));
        sim.queue.push_back(i);
    }
    assert_eq!(sim.engine.next_poll(), NextPoll::Socket);
    sim.trace.clear();
    assert_eq!(sim.poll(), Out::Item(Ok(100)));
    assert_eq!(sim.engine.next_poll(), NextPoll::Channel);
    assert_eq!(sim.poll(), Out::Item(Ok(101)));
    assert_eq!(sim.poll(), Out::Item(Ok(102)));
    assert_eq!(sim.trace, vec!["inbound", "outbound", "inbound", "outbound", "inbound"]);
    assert_eq!(sim.sent, vec![0, 1]);
}

#[test]
fn failed_reopen_is_reported_then_ends() {
    let mut sim = Sim::new(5, false);
    sim.open_up();
    sim.engine.close_transport();
    sim.connected = false;
    sim.timer_elapsed = true;
    sim.open_ok = false;
    assert_eq!(sim.poll(), Out::Item(Err("open failed".to_string())));
    assert!(sim.engine.is_terminated());
    assert_eq!(sim.poll(), Out::End);
    assert_eq!(sim.opens, 1);
}

#[test]
fn outbound_conversion_failure_ends_the_stream() {
    let mut engine: Engine<u32> =
        Engine::new(SocketBuilder::new("ws://h".to_string()).into_config().unwrap(), false);
    let step = engine.begin_poll();
    assert!(matches!(step.action, Action::QueryState));
    let step = engine.on_state(State::Open);
    assert!(matches!(step.action, Action::PollInbound));
    let step = engine.on_inbound(Inbound::Pending);
    assert!(matches!(step.action, Action::CheckOpen));
    let step = engine.on_open_check(State::Open);
    assert!(matches!(step.action, Action::PollQueue));
    let step = engine.on_queue(Outbound::ConversionFailed);
    assert!(matches!(step.action, Action::Emit));
    assert_eq!(step.disconnect, Disconnect::Close);
    assert!(engine.is_terminated());
    assert!(matches!(engine.begin_poll().action, Action::End));
}

#[test]
fn closed_queue_ends_the_stream() {
    let mut engine: Engine<u32> =
        Engine::new(SocketBuilder::new("ws://h".to_string()).into_config().unwrap(), false);
    engine.begin_poll();
    engine.on_state(State::Open);
    engine.on_inbound(Inbound::Pending);
    engine.on_open_check(State::Open);
    let step = engine.on_queue(Outbound::Closed);
    assert!(matches!(step.action, Action::End));
    assert!(engine.is_terminated());
    assert!(!engine.admits_input());
}

#[test]
fn transport_error_is_reported_and_drops_the_connection() {
    let mut engine: Engine<u32> =
        Engine::new(SocketBuilder::new("ws://h".to_string()).into_config().unwrap(), true);
    assert!(matches!(engine.begin_poll().action, Action::QueryState));
    assert!(matches!(engine.on_state(State::Connecting).action, Action::PollInbound));
    let step = engine.on_inbound(Inbound::TransportFailed);
    assert!(matches!(step.action, Action::Emit));
    let ms = match step.disconnect {
        Disconnect::Reconnect(ms) => ms,
        other => panic!("expected a timed reconnect, got {:?}", other),
    };
    assert!(ms >= 100 && ms <= 129);
    assert_eq!(engine.state(), State::Closed);
    assert_eq!(engine.timer_ms(), ms);
    assert!(!engine.is_terminated());
    assert_eq!(engine.url(), "ws://h");
}

#[test]
fn send_failure_drops_the_connection() {
    let mut engine: Engine<u32> =
        Engine::new(SocketBuilder::new("ws://h".to_string()).into_config().unwrap(), false);
    engine.begin_poll();
    engine.on_state(State::Open);
    engine.on_inbound(Inbound::Pending);
    engine.on_open_check(State::Open);
    assert!(matches!(engine.on_queue(Outbound::Message(5)).action, Action::PollReady));
    let step = engine.on_ready(Readiness::Ready);
    assert!(matches!(step.action, Action::StartSend(5)));
    let step = engine.on_send(false);
    assert!(matches!(step.action, Action::Emit));
    assert!(matches!(step.disconnect, Disconnect::Reconnect(_)));
    assert_eq!(engine.state(), State::Closed);
}

#[test]
fn last_attempt_rearms_then_the_timer_ends_the_stream() {
    let mut sim = Sim::new(1, true);
    sim.open_up();
    assert!(matches!(sim.engine.close_transport(), Disconnect::Reconnect(_)));
    sim.connected = false;
    sim.timer_elapsed = true;
    assert_eq!(sim.poll(), Out::Changed(State::Connecting));
    assert_eq!(sim.engine.retry_count(), 1);
    let ms = match sim.engine.close_transport() {
        Disconnect::Reconnect(ms) => ms,
        other => panic!("expected a timed reconnect, got {:?}", other),
    };
    assert!(ms >= 100 && ms <= 60_000);
    assert!(!sim.engine.is_terminated());
    assert_eq!(sim.engine.retry_count(), 1);
    sim.connected = false;
    sim.timer_elapsed = false;
    assert_eq!(sim.poll(), Out::Pending);
    sim.timer_elapsed = true;
    assert_eq!(sim.poll(), Out::End);
    assert!(sim.engine.is_terminated());
    assert_eq!(sim.opens, 1);
}

#[test]
fn drop_at_the_last_attempt_ends_when_the_timer_elapses() {
    let mut sim = Sim::new(1, false);
    sim.open_up();
    sim.engine.close_transport();
    sim.connected = false;
    sim.timer_elapsed = true;
    sim.poll();
    sim.open_up();
    sim.inbound_closed = true;
    assert_eq!(sim.poll(), Out::Pending);
    assert!(!sim.engine.is_terminated());
    assert_eq!(sim.timers.len(), 1);
    sim.timer_elapsed = true;
    assert_eq!(sim.poll(), Out::End);
    assert!(sim.engine.is_terminated());
    assert_eq!(sim.opens, 1);
}

#[test]
fn default_policy_gives_a_wait_at_the_last_attempt() {
    let policy = BackoffPolicy::new(u32::MAX, 100, Some(60_000));
    let d = policy.next(u32::MAX as u64).expect("a wait within the budget");
    assert!(d >= 100 && d <= 60_000);
    assert_eq!(policy.next(u32::MAX as u64 + 1), None);
}

#[test]
fn backoff_wait_never_exceeds_a_short_maximum() {
    let policy = BackoffPolicy::new(5, 500, Some(100));
    for retry in 0..=5u64 {
        assert_eq!(policy.next(retry), Some(100));
    }
}

#[test]
fn backoff_waits_do_not_decrease() {
    let policy = BackoffPolicy::new(20, 100, Some(60_000));
    for _ in 0..20 {
        let mut last = 0u128;
        for retry in 0..=20u64 {
            let d = policy.next(retry).unwrap();
            assert!(d >= last, "retry {} gave {} after {}", retry, d, last);
            last = d;
        }
    }
}
