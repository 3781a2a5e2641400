//! The agent run-loop state machine: a per-process counter served once per
//! connection, and cooperative shutdown between an external stop signal and
//! the accept loop.

use vstd::prelude::*;

verus! {

/// Name the agent service is registered under.
pub const SERVICE_NAME: &'static str = "porcelet-agent";

/// Display name the agent service is registered with.
pub const SERVICE_DISPLAY_NAME: &'static str = "Porcelet Agent";

/// Well-known local pipe address the agent listens on.
pub const SERVICE_PIPE: &'static str = "\\\\.\\pipe\\porcelet-agent-socket";

/// State of the capacity-one shutdown notification slot.
#[derive(PartialEq, Eq, Structural, Debug, Clone, Copy)]
pub enum ShutdownSlot {
    /// No shutdown has been requested.
    Empty,
    /// A shutdown request is pending delivery to the accept loop.
    Signaled,
    /// The request was consumed; the slot accepts no further signals.
    Closed,
}

/// One event the accept loop can observe at its select point.
#[derive(PartialEq, Eq, Structural, Debug, Clone, Copy)]
pub enum AgentEvent {
    /// A client connected to the listening endpoint.
    ConnectionArrived,
    /// Accepting a connection failed; the loop stays available.
    AcceptFailed,
    /// The shutdown slot delivered a stop request.
    ShutdownRequested,
}

/// What the loop does in response to one event.
#[derive(PartialEq, Eq, Structural, Debug, Clone, Copy)]
pub enum AgentAction {
    /// Hand the connection to a concurrent task that writes this counter
    /// value to the client and closes the connection. The platform
    /// provisions the next listening endpoint before the hand-off, so a new
    /// client can always be accepted while this one is served.
    Serve(u64),
    /// Log the failure and keep accepting; other connections are unaffected.
    KeepListening,
    /// Leave the accept loop; no further connection is accepted.
    ExitLoop,
}

/// Spec-level state of the agent.
pub struct AgentView {
    /// Next counter value to serve.
    pub counter: u64,
    /// State of the shutdown slot.
    pub shutdown: ShutdownSlot,
    /// Whether the accept loop has exited.
    pub exited: bool,
}

/// The counter after one post-increment; it wraps only at the 64-bit
/// boundary.
pub open spec fn wrap_inc(c: u64) -> u64 {
    if c == u64::MAX {
        0
    } else {
        (c + 1) as u64
    }
}

/// State after the accept loop observes `event`. Once the loop has exited
/// nothing observes events any more, so the state is unchanged.
pub open spec fn step(v: AgentView, event: AgentEvent) -> AgentView {
    if v.exited {
        v
    } else {
        match event {
            AgentEvent::ConnectionArrived => AgentView { counter: wrap_inc(v.counter), ..v },
            AgentEvent::AcceptFailed => v,
            AgentEvent::ShutdownRequested => AgentView {
                shutdown: ShutdownSlot::Closed,
                exited: true,
                ..v
            },
        }
    }
}

/// Action the accept loop takes when it observes `event`.
pub open spec fn step_action(v: AgentView, event: AgentEvent) -> AgentAction {
    if v.exited {
        AgentAction::ExitLoop
    } else {
        match event {
            AgentEvent::ConnectionArrived => AgentAction::Serve(v.counter),
            AgentEvent::AcceptFailed => AgentAction::KeepListening,
            AgentEvent::ShutdownRequested => AgentAction::ExitLoop,
        }
    }
}

/// State after a shutdown signal: it fills an empty slot and is a silent
/// no-op when a signal is already pending or the slot is closed.
pub open spec fn signal_step(v: AgentView) -> AgentView {
    if v.shutdown == ShutdownSlot::Empty {
        AgentView { shutdown: ShutdownSlot::Signaled, ..v }
    } else {
        v
    }
}

/// The state of a freshly started agent: counter at zero, shutdown slot
/// empty, accept loop live.
pub open spec fn fresh_agent() -> AgentView {
    AgentView { counter: 0, shutdown: ShutdownSlot::Empty, exited: false }
}

/// State after the accept loop observes `events` in order.
pub open spec fn run_steps(v: AgentView, events: Seq<AgentEvent>) -> AgentView
    decreases events.len(),
{
    if events.len() == 0 {
        v
    } else {
        run_steps(step(v, events[0]), events.skip(1))
    }
}

/// The counter values handed to connection tasks while the accept loop
/// observes `events` in order, in the order the values are assigned.
pub open spec fn served_values(v: AgentView, events: Seq<AgentEvent>) -> Seq<u64>
    decreases events.len(),
{
    if events.len() == 0 {
        Seq::empty()
    } else {
        match step_action(v, events[0]) {
            AgentAction::Serve(value) => seq![value] + served_values(
                step(v, events[0]),
                events.skip(1),
            ),
            _ => served_values(step(v, events[0]), events.skip(1)),
        }
    }
}

/// A run of `n` connection arrivals and nothing else.
pub open spec fn conn_events(n: nat) -> Seq<AgentEvent> {
    Seq::new(n, |i: int| AgentEvent::ConnectionArrived)
}

/// Once the accept loop has exited, events change nothing and nothing more
/// is served.
proof fn lemma_exited_is_final(v: AgentView, events: Seq<AgentEvent>)
    requires
        v.exited,
    ensures
        run_steps(v, events) == v,
        served_values(v, events) == Seq::<u64>::empty(),
    decreases events.len(),
{
    if events.len() > 0 {
        lemma_exited_is_final(v, events.skip(1));
    }
}

/// A run splits at any point `k`: the state and the served values of the
/// whole run are those of the first `k` events continued by the rest.
proof fn lemma_run_split(v: AgentView, events: Seq<AgentEvent>, k: int)
    requires
        0 <= k <= events.len(),
    ensures
        run_steps(v, events) == run_steps(run_steps(v, events.take(k)), events.skip(k)),
        served_values(v, events) == served_values(v, events.take(k)) + served_values(
            run_steps(v, events.take(k)),
            events.skip(k),
        ),
    decreases k,
{
    if k == 0 {
        assert(events.take(0) =~= Seq::<AgentEvent>::empty());
        assert(events.skip(0) =~= events);
        assert(served_values(v, events.take(0)) + served_values(v, events) =~= served_values(
            v,
            events,
        ));
    } else {
        let v1 = step(v, events[0]);
        let rest = events.skip(1);
        lemma_run_split(v1, rest, k - 1);
        assert(rest.take(k - 1) =~= events.take(k).skip(1));
        assert(rest.skip(k - 1) =~= events.skip(k));
        assert(events.take(k)[0] == events[0]);
        match step_action(v, events[0]) {
            AgentAction::Serve(value) => {
                assert(seq![value] + served_values(v1, rest) == served_values(v, events));
                assert(seq![value] + (served_values(v1, rest.take(k - 1)) + served_values(
                    run_steps(v1, rest.take(k - 1)),
                    rest.skip(k - 1),
                )) =~= (seq![value] + served_values(v1, rest.take(k - 1))) + served_values(
                    run_steps(v1, rest.take(k - 1)),
                    rest.skip(k - 1),
                ));
            },
            _ => {},
        }
    }
}

/// Core counting argument: from a live agent whose counter will not wrap
/// past the run, `n` connection arrivals serve the `n` consecutive counter
/// values and leave the loop live.
proof fn lemma_consecutive_connections(v: AgentView, n: nat)
    requires
        !v.exited,
        v.counter + n <= u64::MAX + 1,
    ensures
        served_values(v, conn_events(n)).len() == n,
        forall|i: int|
            0 <= i < n ==> served_values(v, conn_events(n))[i] == v.counter + i,
        !run_steps(v, conn_events(n)).exited,
        run_steps(v, conn_events(n)).shutdown == v.shutdown,
    decreases n,
{
    if n > 0 {
        let v1 = step(v, AgentEvent::ConnectionArrived);
        assert(conn_events(n).skip(1) =~= conn_events((n - 1) as nat));
        lemma_consecutive_connections(v1, (n - 1) as nat);
        let served = served_values(v, conn_events(n));
        let rest = served_values(v1, conn_events((n - 1) as nat));
        assert(served == seq![v.counter] + rest);
        assert forall|i: int| 0 <= i < n implies served[i] == v.counter + i by {
            if i > 0 {
                assert(served[i] == rest[i - 1]);
            }
        }
    }
}

/// Law: for N sequential connections to a freshly started agent, the
/// observed counter values are 0, 1, …, N−1 in connection order — strictly
/// increasing, with no repeats and no gaps.
pub proof fn lemma_sequential_connection_values(n: nat)
    requires
        n <= u64::MAX + 1,
    ensures
        served_values(fresh_agent(), conn_events(n)).len() == n,
        forall|i: int|
            0 <= i < n ==> served_values(fresh_agent(), conn_events(n))[i] == i,
        forall|i: int, j: int|
            0 <= i < j < n ==> served_values(fresh_agent(), conn_events(n))[i] < served_values(
                fresh_agent(),
                conn_events(n),
            )[j],
{
    lemma_consecutive_connections(fresh_agent(), n);
}

/// Law: for M concurrent connections to a freshly started agent, the set of
/// observed values is exactly {0, 1, …, M−1}, with no duplicates and no
/// omissions. Concurrent connections race for the next value, so which
/// client observes which value is left open; the collection of values is
/// not.
pub proof fn lemma_concurrent_value_set(m: nat)
    requires
        m <= u64::MAX + 1,
    ensures
        served_values(fresh_agent(), conn_events(m)).len() == m,
        served_values(fresh_agent(), conn_events(m)).no_duplicates(),
        forall|x: u64| served_values(fresh_agent(), conn_events(m)).contains(x) <==> x < m,
{
    lemma_consecutive_connections(fresh_agent(), m);
    let served = served_values(fresh_agent(), conn_events(m));
    assert forall|x: u64| served.contains(x) <==> x < m by {
        if x < m {
            assert(served[x as int] == x);
        }
    }
}

/// Law: after a shutdown request is processed no further connection is
/// served, and the values already handed to connection tasks are exactly
/// those assigned before the shutdown was processed; those tasks are not
/// retracted and complete on their own.
pub proof fn lemma_no_service_after_shutdown(v: AgentView, events: Seq<AgentEvent>, k: int)
    requires
        0 <= k < events.len(),
        events[k] == AgentEvent::ShutdownRequested,
    ensures
        run_steps(v, events.take(k + 1)).exited,
        served_values(v, events) == served_values(v, events.take(k + 1)),
{
    let before = run_steps(v, events.take(k));
    let at = run_steps(v, events.take(k + 1));
    lemma_run_split(v, events.take(k + 1), k);
    assert(events.take(k + 1).take(k) =~= events.take(k));
    assert(events.take(k + 1).skip(k) =~= seq![AgentEvent::ShutdownRequested]);
    assert(seq![AgentEvent::ShutdownRequested].skip(1) =~= Seq::<AgentEvent>::empty());
    assert(run_steps(before, seq![AgentEvent::ShutdownRequested]) == run_steps(
        step(before, AgentEvent::ShutdownRequested),
        seq![AgentEvent::ShutdownRequested].skip(1),
    ));
    assert(at == step(before, AgentEvent::ShutdownRequested));
    lemma_run_split(v, events, k + 1);
    lemma_exited_is_final(at, events.skip(k + 1));
    assert(served_values(v, events) =~= served_values(v, events.take(k + 1)));
}

/// Law: a shutdown signal is idempotent and invisible to everything but the
/// slot itself — a second signal, or one sent after the loop has exited,
/// changes nothing and raises no error.
pub proof fn lemma_signal_idempotent(v: AgentView)
    ensures
        signal_step(signal_step(v)) == signal_step(v),
        v.shutdown != ShutdownSlot::Empty ==> signal_step(v) == v,
        signal_step(v).counter == v.counter,
        signal_step(v).exited == v.exited,
{
}

/// The 8-byte big-endian wire image of the counter value `v`: the whole
/// payload of one connection, with no handshake and no framing around it.
pub open spec fn counter_bytes(v: u64) -> Seq<u8> {
    seq![
        (v >> 56) as u8,
        (v >> 48) as u8,
        (v >> 40) as u8,
        (v >> 32) as u8,
        (v >> 24) as u8,
        (v >> 16) as u8,
        (v >> 8) as u8,
        v as u8,
    ]
}

/// The counter value that the 8-byte wire image `b` carries.
pub open spec fn counter_value(b: Seq<u8>) -> u64
    recommends
        b.len() == 8,
{
    ((b[0] as u64) << 56) | ((b[1] as u64) << 48) | ((b[2] as u64) << 40) | ((b[3] as u64) << 32)
        | ((b[4] as u64) << 24) | ((b[5] as u64) << 16) | ((b[6] as u64) << 8) | (b[7] as u64)
}

/// Encode a counter value as the connection's 8-byte payload.
pub fn encode_counter(v: u64) -> (b: Vec<u8>)
    ensures
        b@ == counter_bytes(v),
{
    let mut b: Vec<u8> = Vec::new();
    b.push((v >> 56) as u8);
    b.push((v >> 48) as u8);
    b.push((v >> 40) as u8);
    b.push((v >> 32) as u8);
    b.push((v >> 24) as u8);
    b.push((v >> 16) as u8);
    b.push((v >> 8) as u8);
    b.push(v as u8);
    proof {
        assert(b@ =~= counter_bytes(v));
    }
    b
}

/// Decode a connection's payload. Exactly 8 bytes carry a counter value;
/// anything shorter or longer is a truncated or malformed read and decodes
/// to nothing.
pub fn decode_counter(b: &Vec<u8>) -> (r: Option<u64>)
    ensures
        b@.len() == 8 ==> r == Some(counter_value(b@)),
        b@.len() != 8 ==> r is None,
{
    if b.len() != 8 {
        return None;
    }
    let v = ((b[0] as u64) << 56) | ((b[1] as u64) << 48) | ((b[2] as u64) << 40) | ((b[3]
        as u64) << 32) | ((b[4] as u64) << 24) | ((b[5] as u64) << 16) | ((b[6] as u64) << 8) | (
    b[7] as u64);
    Some(v)
}

/// Law: the wire contract round-trips — the payload written for a counter
/// value decodes to that value, and re-encoding a decoded 8-byte payload
/// gives the payload back.
pub proof fn lemma_counter_codec_round_trip(v: u64, b: Seq<u8>)
    requires
        b.len() == 8,
    ensures
        counter_value(counter_bytes(v)) == v,
        counter_bytes(counter_value(b)) == b,
{
    assert((((v >> 56) as u8) as u64) << 56 | (((v >> 48) as u8) as u64) << 48 | (((v >> 40)
        as u8) as u64) << 40 | (((v >> 32) as u8) as u64) << 32 | (((v >> 24) as u8) as u64) << 24
        | (((v >> 16) as u8) as u64) << 16 | (((v >> 8) as u8) as u64) << 8 | ((v as u8) as u64)
        == v) by (bit_vector);
    let b0 = b[0];
    let b1 = b[1];
    let b2 = b[2];
    let b3 = b[3];
    let b4 = b[4];
    let b5 = b[5];
    let b6 = b[6];
    let b7 = b[7];
    let w = ((b0 as u64) << 56) | ((b1 as u64) << 48) | ((b2 as u64) << 40) | ((b3 as u64) << 32)
        | ((b4 as u64) << 24) | ((b5 as u64) << 16) | ((b6 as u64) << 8) | (b7 as u64);
    assert((w >> 56) as u8 == b0 && (w >> 48) as u8 == b1 && (w >> 40) as u8 == b2 && (w >> 32)
        as u8 == b3 && (w >> 24) as u8 == b4 && (w >> 16) as u8 == b5 && (w >> 8) as u8 == b6 && w
        as u8 == b7) by (bit_vector)
        requires
            w == ((b0 as u64) << 56) | ((b1 as u64) << 48) | ((b2 as u64) << 40) | ((b3
                as u64) << 32) | ((b4 as u64) << 24) | ((b5 as u64) << 16) | ((b6 as u64) << 8) | (
            b7 as u64),
    ;
    assert(counter_bytes(counter_value(b)) =~= b);
}

/// A service control notification delivered by the OS service host.
#[derive(PartialEq, Eq, Structural, Debug, Clone, Copy)]
pub enum ServiceControlEvent {
    /// The host asks the service to stop.
    Stop,
    /// The host checks that the service is responsive; every service must
    /// accept it, even as a no-op.
    Interrogate,
    /// Any other control notification.
    Other,
}

/// The control callback's answer to the host.
#[derive(PartialEq, Eq, Structural, Debug, Clone, Copy)]
pub enum ControlHandlerResult {
    NoError,
    NotImplemented,
}

/// The control callback's decision: a stop notification signals shutdown —
/// a silent no-op if one is already pending or consumed — and returns
/// control to the host; interrogate is accepted as a no-op; anything else
/// is not implemented. The agent changes in no other way.
pub fn handle_control_event(agent: &mut Agent, event: ServiceControlEvent) -> (r:
    ControlHandlerResult)
    ensures
        event is Stop ==> final(agent)@ == signal_step(old(agent)@) && r
            == ControlHandlerResult::NoError,
        !(event is Stop) ==> final(agent)@ == old(agent)@,
        event is Interrogate ==> r == ControlHandlerResult::NoError,
        event is Other ==> r == ControlHandlerResult::NotImplemented,
{
    match event {
        ServiceControlEvent::Stop => {
            agent.signal_shutdown();
            ControlHandlerResult::NoError
        },
        ServiceControlEvent::Interrogate => ControlHandlerResult::NoError,
        ServiceControlEvent::Other => ControlHandlerResult::NotImplemented,
    }
}

/// The agent: a per-process counter, a capacity-one shutdown slot, and the
/// accept loop built over them. The platform layer owns the listening
/// endpoint and feeds each observed event to `handle_event`.
pub struct Agent {
    counter: u64,
    shutdown: ShutdownSlot,
    exited: bool,
}

impl View for Agent {
    type V = AgentView;

    closed spec fn view(&self) -> AgentView {
        AgentView { counter: self.counter, shutdown: self.shutdown, exited: self.exited }
    }
}

impl Agent {
    /// Create an agent whose counter starts at zero and whose shutdown slot
    /// is empty. The counter's scope is the process lifetime only.
    pub fn new() -> (a: Agent)
        ensures
            a@ == (AgentView { counter: 0, shutdown: ShutdownSlot::Empty, exited: false }),
    {
        Agent { counter: 0, shutdown: ShutdownSlot::Empty, exited: false }
    }

    /// Request agent shutdown.
    ///
    /// Non-blocking and safe to call from contexts unrelated to the agent
    /// task; if the slot is already full or closed the call is a silent
    /// no-op, because a shutdown already in progress needs no second signal.
    pub fn signal_shutdown(&mut self)
        ensures
            final(self)@ == signal_step(old(self)@),
    {
        if self.shutdown == ShutdownSlot::Empty {
            self.shutdown = ShutdownSlot::Signaled;
        }
    }

    /// One iteration of the accept loop: observe `event`, update the state,
    /// and say what the loop does next.
    pub fn handle_event(&mut self, event: AgentEvent) -> (action: AgentAction)
        ensures
            final(self)@ == step(old(self)@, event),
            action == step_action(old(self)@, event),
    {
        if self.exited {
            return AgentAction::ExitLoop;
        }
        match event {
            AgentEvent::ConnectionArrived => {
                let value = self.counter;
                self.counter = if value == u64::MAX {
                    0
                } else {
                    value + 1
                };
                AgentAction::Serve(value)
            },
            AgentEvent::AcceptFailed => AgentAction::KeepListening,
            AgentEvent::ShutdownRequested => {
                self.shutdown = ShutdownSlot::Closed;
                self.exited = true;
                AgentAction::ExitLoop
            },
        }
    }
}

} // verus!
