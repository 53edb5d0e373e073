//! The tunnel relay: the state machine behind a CONNECT tunnel.
//!
//! After the 200 acknowledgment, the client connection and the
//! SOCKS5-negotiated upstream connection are each split into a read half
//! and a write half, and two copy loops run concurrently: client-read to
//! upstream-write, and upstream-read to client-write.  The driver performs
//! the reads and writes; this module is the machine it consults.  Each
//! observation (a chunk of bytes read, an end-of-stream, an I/O error, the
//! outcome of the SOCKS5 negotiation) is one event; each step returns the
//! next state and the action owed for the event.  The tunnel is finished
//! only when both directions have stopped — the two loops are joined, never
//! raced — and it counts as clean only when both ended at end-of-stream.
//!
//! There is no idle timeout and no cap on concurrent tunnels: a peer that
//! goes silent without closing keeps its tunnel's resources held until it
//! closes or errors.  That is a deliberate trait of the design, kept here,
//! and worth weighing before exposing the proxy beyond a local machine.

use vstd::prelude::*;

verus! {

/// One direction of the tunnel's byte flow.
#[derive(Debug, Clone, Copy, PartialEq, Eq, Structural)]
pub enum Direction {
    /// Bytes read from the client, owed to the upstream's write half.
    ClientToUpstream,
    /// Bytes read from the upstream, owed to the client's write half.
    UpstreamToClient,
}

/// The state of one copy loop.
#[derive(Debug, Clone, Copy, PartialEq, Eq, Structural)]
pub enum PipeState {
    /// The loop is still relaying bytes.
    Open,
    /// The source reached end-of-stream; the loop is finished.
    ClosedEof,
    /// A read or write failed; the loop is finished.
    ClosedError,
}

/// The state of one CONNECT tunnel.
#[derive(Debug, Clone, Copy, PartialEq, Eq, Structural)]
pub enum TunnelState {
    /// The 200 acknowledgment is out; the SOCKS5 negotiation with the
    /// upstream proxy has not finished yet.
    Negotiating,
    /// Both connections are split and the two copy loops run, each with
    /// its own [`PipeState`].
    Relaying { client_to_upstream: PipeState, upstream_to_client: PipeState },
    /// The SOCKS5 negotiation failed; the client connection was dropped
    /// without a byte ever flowing (the optimistic 200 was already out).
    Aborted,
}

/// One observation the driver reports to the tunnel.
#[derive(Debug, PartialEq, Eq)]
pub enum TunnelEvent {
    /// The SOCKS5 negotiation to the target authority succeeded.
    UpstreamConnected,
    /// The SOCKS5 negotiation failed.
    UpstreamConnectFailed,
    /// `bytes` were read from the source side of `dir`.
    Data { dir: Direction, bytes: Vec<u8> },
    /// The source side of `dir` reached end-of-stream.
    Eof { dir: Direction },
    /// A read or write on `dir` failed.
    StreamError { dir: Direction },
}

/// Mathematical model of a [`TunnelEvent`].
pub enum SpecTunnelEvent {
    UpstreamConnected,
    UpstreamConnectFailed,
    Data { dir: Direction, bytes: Seq<u8> },
    Eof { dir: Direction },
    StreamError { dir: Direction },
}

impl View for TunnelEvent {
    type V = SpecTunnelEvent;

    open spec fn view(&self) -> SpecTunnelEvent {
        match self {
            TunnelEvent::UpstreamConnected => SpecTunnelEvent::UpstreamConnected,
            TunnelEvent::UpstreamConnectFailed => SpecTunnelEvent::UpstreamConnectFailed,
            TunnelEvent::Data { dir, bytes } => (SpecTunnelEvent::Data {
                dir: *dir,
                bytes: bytes@,
            }),
            TunnelEvent::Eof { dir } => (SpecTunnelEvent::Eof { dir: *dir }),
            TunnelEvent::StreamError { dir } => (SpecTunnelEvent::StreamError { dir: *dir }),
        }
    }
}

/// What the driver owes after a step.
#[derive(Debug, PartialEq, Eq)]
pub enum TunnelAction {
    /// Write `bytes`, unmodified and in order, to the sink side of `dir`.
    Write { dir: Direction, bytes: Vec<u8> },
    /// Shut down the sink side of `dir`: the peer that `dir` feeds sees
    /// end-of-stream.
    ShutdownWrite { dir: Direction },
    /// Drop both connections.
    CloseBoth,
    /// Nothing to do for this event.
    Continue,
}

/// Mathematical model of a [`TunnelAction`].
pub enum SpecTunnelAction {
    Write { dir: Direction, bytes: Seq<u8> },
    ShutdownWrite { dir: Direction },
    CloseBoth,
    Continue,
}

impl View for TunnelAction {
    type V = SpecTunnelAction;

    open spec fn view(&self) -> SpecTunnelAction {
        match self {
            TunnelAction::Write { dir, bytes } => (SpecTunnelAction::Write {
                dir: *dir,
                bytes: bytes@,
            }),
            TunnelAction::ShutdownWrite { dir } => (SpecTunnelAction::ShutdownWrite { dir: *dir }),
            TunnelAction::CloseBoth => SpecTunnelAction::CloseBoth,
            TunnelAction::Continue => SpecTunnelAction::Continue,
        }
    }
}

/// Whether the copy loop of direction `d` is still relaying.
pub open spec fn spec_dir_open(s: TunnelState, d: Direction) -> bool {
    match s {
        TunnelState::Relaying { client_to_upstream, upstream_to_client } => match d {
            Direction::ClientToUpstream => client_to_upstream is Open,
            Direction::UpstreamToClient => upstream_to_client is Open,
        },
        _ => false,
    }
}

/// The relaying state with the pipe of direction `d` replaced by `p`.
pub open spec fn spec_set_pipe(s: TunnelState, d: Direction, p: PipeState) -> TunnelState {
    match s {
        TunnelState::Relaying { client_to_upstream, upstream_to_client } => match d {
            Direction::ClientToUpstream => (TunnelState::Relaying {
                client_to_upstream: p,
                upstream_to_client,
            }),
            Direction::UpstreamToClient => (TunnelState::Relaying {
                client_to_upstream,
                upstream_to_client: p,
            }),
        },
        _ => s,
    }
}

/// The tunnel is finished: either the negotiation failed, or both copy
/// loops have stopped.  Both loops are awaited — the end of one never cuts
/// the other short.
pub open spec fn spec_tunnel_finished(s: TunnelState) -> bool {
    match s {
        TunnelState::Negotiating => false,
        TunnelState::Relaying { client_to_upstream, upstream_to_client } => !(client_to_upstream
            is Open) && !(upstream_to_client is Open),
        TunnelState::Aborted => true,
    }
}

/// A finished tunnel closed cleanly: both directions ended at
/// end-of-stream, with no error on either side.
pub open spec fn spec_tunnel_clean(s: TunnelState) -> bool {
    s == (TunnelState::Relaying {
        client_to_upstream: PipeState::ClosedEof,
        upstream_to_client: PipeState::ClosedEof,
    })
}

/// One step of the tunnel state machine: the next state and the action
/// owed for the event.
///
/// - Connection events only matter while negotiating: success opens both
///   pipes, failure aborts the tunnel and drops both connections.
/// - A chunk read on an open direction is written, unmodified, to that
///   direction's sink.
/// - End-of-stream or an error on an open direction stops that copy loop
///   and shuts down the sink it fed; the opposite direction runs on
///   untouched, on its own terms.
/// - An event that cannot occur in the current state changes nothing.
pub open spec fn spec_tunnel_step(s: TunnelState, e: SpecTunnelEvent) -> (TunnelState,
    SpecTunnelAction) {
    match e {
        SpecTunnelEvent::UpstreamConnected => if s is Negotiating {
            (
                TunnelState::Relaying {
                    client_to_upstream: PipeState::Open,
                    upstream_to_client: PipeState::Open,
                },
                SpecTunnelAction::Continue,
            )
        } else {
            (s, SpecTunnelAction::Continue)
        },
        SpecTunnelEvent::UpstreamConnectFailed => if s is Negotiating {
            (TunnelState::Aborted, SpecTunnelAction::CloseBoth)
        } else {
            (s, SpecTunnelAction::Continue)
        },
        SpecTunnelEvent::Data { dir, bytes } => if spec_dir_open(s, dir) {
            (s, SpecTunnelAction::Write { dir, bytes })
        } else {
            (s, SpecTunnelAction::Continue)
        },
        SpecTunnelEvent::Eof { dir } => if spec_dir_open(s, dir) {
            (spec_set_pipe(s, dir, PipeState::ClosedEof), SpecTunnelAction::ShutdownWrite { dir })
        } else {
            (s, SpecTunnelAction::Continue)
        },
        SpecTunnelEvent::StreamError { dir } => if spec_dir_open(s, dir) {
            (spec_set_pipe(s, dir, PipeState::ClosedError), SpecTunnelAction::ShutdownWrite { dir })
        } else {
            (s, SpecTunnelAction::Continue)
        },
    }
}

/// The state a tunnel starts in, right after the 200 acknowledgment.
pub fn tunnel_initial() -> (s: TunnelState)
    ensures
        s == TunnelState::Negotiating,
{
    TunnelState::Negotiating
}

/// Whether the copy loop of direction `d` is still relaying.
pub fn dir_open(s: &TunnelState, d: Direction) -> (b: bool)
    ensures
        b == spec_dir_open(*s, d),
{
    match s {
        TunnelState::Relaying { client_to_upstream, upstream_to_client } => match d {
            Direction::ClientToUpstream => matches!(client_to_upstream, PipeState::Open),
            Direction::UpstreamToClient => matches!(upstream_to_client, PipeState::Open),
        },
        _ => false,
    }
}

/// Run one step of the tunnel state machine.
pub fn tunnel_step(s: TunnelState, e: TunnelEvent) -> (r: (TunnelState, TunnelAction))
    ensures
        r.0 == spec_tunnel_step(s, e@).0,
        r.1@ == spec_tunnel_step(s, e@).1,
{
    match e {
        TunnelEvent::UpstreamConnected => {
            if matches!(s, TunnelState::Negotiating) {
                (
                    TunnelState::Relaying {
                        client_to_upstream: PipeState::Open,
                        upstream_to_client: PipeState::Open,
                    },
                    TunnelAction::Continue,
                )
            } else {
                (s, TunnelAction::Continue)
            }
        },
        TunnelEvent::UpstreamConnectFailed => {
            if matches!(s, TunnelState::Negotiating) {
                (TunnelState::Aborted, TunnelAction::CloseBoth)
            } else {
                (s, TunnelAction::Continue)
            }
        },
        TunnelEvent::Data { dir, bytes } => {
            if dir_open(&s, dir) {
                (s, TunnelAction::Write { dir, bytes })
            } else {
                (s, TunnelAction::Continue)
            }
        },
        TunnelEvent::Eof { dir } => {
            if dir_open(&s, dir) {
                (set_pipe(s, dir, PipeState::ClosedEof), TunnelAction::ShutdownWrite { dir })
            } else {
                (s, TunnelAction::Continue)
            }
        },
        TunnelEvent::StreamError { dir } => {
            if dir_open(&s, dir) {
                (set_pipe(s, dir, PipeState::ClosedError), TunnelAction::ShutdownWrite { dir })
            } else {
                (s, TunnelAction::Continue)
            }
        },
    }
}

/// The relaying state with the pipe of direction `d` replaced by `p`.
fn set_pipe(s: TunnelState, d: Direction, p: PipeState) -> (r: TunnelState)
    ensures
        r == spec_set_pipe(s, d, p),
{
    match s {
        TunnelState::Relaying { client_to_upstream, upstream_to_client } => match d {
            Direction::ClientToUpstream => TunnelState::Relaying {
                client_to_upstream: p,
                upstream_to_client,
            },
            Direction::UpstreamToClient => TunnelState::Relaying {
                client_to_upstream,
                upstream_to_client: p,
            },
        },
        _ => s,
    }
}

/// Whether the tunnel is finished (both copy loops stopped, or the
/// negotiation failed).
pub fn tunnel_finished(s: &TunnelState) -> (b: bool)
    ensures
        b == spec_tunnel_finished(*s),
{
    match s {
        TunnelState::Negotiating => false,
        TunnelState::Relaying { client_to_upstream, upstream_to_client } => !matches!(
            client_to_upstream,
            PipeState::Open,
        ) && !matches!(upstream_to_client, PipeState::Open),
        TunnelState::Aborted => true,
    }
}

/// Whether a finished tunnel closed cleanly, for the closing log line:
/// clean when both directions ended at end-of-stream, an error otherwise.
pub fn tunnel_clean(s: &TunnelState) -> (b: bool)
    ensures
        b == spec_tunnel_clean(*s),
{
    match s {
        TunnelState::Relaying { client_to_upstream, upstream_to_client } => matches!(
            client_to_upstream,
            PipeState::ClosedEof,
        ) && matches!(upstream_to_client, PipeState::ClosedEof),
        _ => false,
    }
}

/// The models of a sequence of events.
pub open spec fn spec_event_views(evs: Seq<TunnelEvent>) -> Seq<SpecTunnelEvent> {
    evs.map_values(|e: TunnelEvent| e@)
}

/// The models of a sequence of actions.
pub open spec fn spec_action_views(acts: Seq<TunnelAction>) -> Seq<SpecTunnelAction> {
    acts.map_values(|a: TunnelAction| a@)
}

/// A whole run of the tunnel: the state after every event of `evs` has
/// been stepped through, and the actions owed for them, in order.
pub open spec fn spec_tunnel_run(s: TunnelState, evs: Seq<SpecTunnelEvent>) -> (TunnelState, Seq<
    SpecTunnelAction,
>)
    decreases evs.len(),
{
    if evs.len() == 0 {
        (s, Seq::empty())
    } else {
        let first = spec_tunnel_step(s, evs[0]);
        let rest = spec_tunnel_run(first.0, evs.skip(1));
        (rest.0, seq![first.1] + rest.1)
    }
}

/// The bytes a run of actions writes to the sink of direction `d`,
/// concatenated in order.
pub open spec fn spec_written(acts: Seq<SpecTunnelAction>, d: Direction) -> Seq<u8>
    decreases acts.len(),
{
    if acts.len() == 0 {
        Seq::empty()
    } else {
        (match acts[0] {
            SpecTunnelAction::Write { dir, bytes } => if dir == d {
                bytes
            } else {
                Seq::empty()
            },
            _ => Seq::empty(),
        }) + spec_written(acts.skip(1), d)
    }
}

/// The bytes offered on direction `d` that arrive while that direction is
/// relaying, concatenated in order: the bytes the tunnel accepts.
pub open spec fn spec_accepted(s: TunnelState, evs: Seq<SpecTunnelEvent>, d: Direction) -> Seq<u8>
    decreases evs.len(),
{
    if evs.len() == 0 {
        Seq::empty()
    } else {
        (match evs[0] {
            SpecTunnelEvent::Data { dir, bytes } => if dir == d && spec_dir_open(s, dir) {
                bytes
            } else {
                Seq::empty()
            },
            _ => Seq::empty(),
        }) + spec_accepted(spec_tunnel_step(s, evs[0]).0, evs.skip(1), d)
    }
}

/// Byte fidelity of the relay: over any run, from any state, the bytes
/// written to the sink of a direction are exactly the bytes read on that
/// direction while it was relaying — unmodified, in order, and nothing
/// else.  Arbitrary byte content is covered, and each direction on its
/// own; and since a tunnel's output is a function of its own events alone,
/// no byte of one tunnel can ever surface in another.
pub proof fn lemma_relay_fidelity(s: TunnelState, evs: Seq<SpecTunnelEvent>, d: Direction)
    ensures
        spec_written(spec_tunnel_run(s, evs).1, d) == spec_accepted(s, evs, d),
    decreases evs.len(),
{
    if evs.len() == 0 {
    } else {
        let first = spec_tunnel_step(s, evs[0]);
        let rest = spec_tunnel_run(first.0, evs.skip(1));
        lemma_relay_fidelity(first.0, evs.skip(1), d);
        assert((seq![first.1] + rest.1).skip(1) =~= rest.1);
    }
}

/// Two concurrent tunnels cannot interfere: each one's output on a
/// direction is exactly its own accepted input there, so bytes fed to one
/// tunnel are never observed on the other.
pub proof fn lemma_tunnel_isolation(
    s_a: TunnelState,
    evs_a: Seq<SpecTunnelEvent>,
    s_b: TunnelState,
    evs_b: Seq<SpecTunnelEvent>,
    d: Direction,
)
    ensures
        spec_written(spec_tunnel_run(s_a, evs_a).1, d) == spec_accepted(s_a, evs_a, d),
        spec_written(spec_tunnel_run(s_b, evs_b).1, d) == spec_accepted(s_b, evs_b, d),
{
    lemma_relay_fidelity(s_a, evs_a, d);
    lemma_relay_fidelity(s_b, evs_b, d);
}

/// When the peer of direction `d` closes (end-of-stream on `d`'s source),
/// the very next step stops that copy loop and shuts down the sink it fed,
/// so the other end sees end-of-stream in turn; the opposite direction is
/// left exactly as it was, to finish on its own terms.
pub proof fn lemma_peer_close_shuts_sink(s: TunnelState, d: Direction)
    requires
        spec_dir_open(s, d),
    ensures
        spec_tunnel_step(s, SpecTunnelEvent::Eof { dir: d }).1 == (SpecTunnelAction::ShutdownWrite {
            dir: d,
        }),
        !spec_dir_open(spec_tunnel_step(s, SpecTunnelEvent::Eof { dir: d }).0, d),
        forall|o: Direction|
            o != d ==> spec_dir_open(spec_tunnel_step(s, SpecTunnelEvent::Eof { dir: d }).0, o)
                == spec_dir_open(s, o),
{
}

/// While relaying, the tunnel stays a relaying tunnel, and a direction
/// that has stopped never starts again.
pub proof fn lemma_closed_direction_stays_closed(
    s: TunnelState,
    evs: Seq<SpecTunnelEvent>,
    d: Direction,
)
    requires
        s is Relaying,
        !spec_dir_open(s, d),
    ensures
        spec_tunnel_run(s, evs).0 is Relaying,
        !spec_dir_open(spec_tunnel_run(s, evs).0, d),
    decreases evs.len(),
{
    if evs.len() == 0 {
    } else {
        let first = spec_tunnel_step(s, evs[0]);
        lemma_closed_direction_stays_closed(first.0, evs.skip(1), d);
    }
}

/// No leak across a finished direction: once a direction has stopped, no
/// run will ever write another byte to its sink.
pub proof fn lemma_no_write_after_close(s: TunnelState, evs: Seq<SpecTunnelEvent>, d: Direction)
    requires
        s is Relaying,
        !spec_dir_open(s, d),
    ensures
        spec_written(spec_tunnel_run(s, evs).1, d) == Seq::<u8>::empty(),
    decreases evs.len(),
{
    lemma_relay_fidelity(s, evs, d);
    lemma_accepted_empty_when_closed(s, evs, d);
}

/// A direction that has stopped accepts nothing more.
proof fn lemma_accepted_empty_when_closed(s: TunnelState, evs: Seq<SpecTunnelEvent>, d: Direction)
    requires
        s is Relaying,
        !spec_dir_open(s, d),
    ensures
        spec_accepted(s, evs, d) == Seq::<u8>::empty(),
    decreases evs.len(),
{
    if evs.len() == 0 {
    } else {
        let first = spec_tunnel_step(s, evs[0]);
        lemma_closed_direction_stays_closed(s, evs.take(1), d);
        lemma_accepted_empty_when_closed(first.0, evs.skip(1), d);
        assert(Seq::<u8>::empty() + Seq::<u8>::empty() =~= Seq::<u8>::empty());
    }
}

/// After a failed negotiation nothing ever flows: the tunnel is finished
/// for good, and no later event makes it write a byte in either direction.
/// Together with the dispatcher's contract — the 200 acknowledgment is
/// produced before negotiation is attempted — this is the optimistic
/// accept: the client gets its 200, then the connection dies silently.
pub proof fn lemma_connect_failure_no_data(evs: Seq<SpecTunnelEvent>, d: Direction)
    requires
        evs.len() > 0,
        evs[0] == SpecTunnelEvent::UpstreamConnectFailed,
    ensures
        spec_tunnel_run(TunnelState::Negotiating, evs).0 == TunnelState::Aborted,
        spec_tunnel_run(TunnelState::Negotiating, evs).1[0] == SpecTunnelAction::CloseBoth,
        spec_tunnel_finished(spec_tunnel_run(TunnelState::Negotiating, evs).0),
        spec_written(spec_tunnel_run(TunnelState::Negotiating, evs).1, d) == Seq::<u8>::empty(),
{
    let first = spec_tunnel_step(TunnelState::Negotiating, evs[0]);
    let rest = spec_tunnel_run(first.0, evs.skip(1));
    lemma_aborted_is_absorbing(evs.skip(1), d);
    assert((seq![first.1] + rest.1).skip(1) =~= rest.1);
    assert(Seq::<u8>::empty() + Seq::<u8>::empty() =~= Seq::<u8>::empty());
}

/// An aborted tunnel stays aborted and never writes.
proof fn lemma_aborted_is_absorbing(evs: Seq<SpecTunnelEvent>, d: Direction)
    ensures
        spec_tunnel_run(TunnelState::Aborted, evs).0 == TunnelState::Aborted,
        spec_written(spec_tunnel_run(TunnelState::Aborted, evs).1, d) == Seq::<u8>::empty(),
    decreases evs.len(),
{
    if evs.len() == 0 {
    } else {
        let first = spec_tunnel_step(TunnelState::Aborted, evs[0]);
        let rest = spec_tunnel_run(first.0, evs.skip(1));
        lemma_aborted_is_absorbing(evs.skip(1), d);
        assert((seq![first.1] + rest.1).skip(1) =~= rest.1);
        assert(Seq::<u8>::empty() + Seq::<u8>::empty() =~= Seq::<u8>::empty());
    }
}

/// Step a tunnel through a whole list of events, collecting the actions
/// owed for them, in order.
pub fn tunnel_run(s: TunnelState, events: Vec<TunnelEvent>) -> (r: (TunnelState, Vec<TunnelAction>))
    ensures
        r.0 == spec_tunnel_run(s, spec_event_views(events@)).0,
        spec_action_views(r.1@) == spec_tunnel_run(s, spec_event_views(events@)).1,
{
    let ghost all = spec_event_views(events@);
    let mut remaining = events;
    let mut state = s;
    let mut actions: Vec<TunnelAction> = Vec::new();
    proof {
        assert(spec_action_views(actions@) + spec_tunnel_run(state, spec_event_views(remaining@)).1
            =~= spec_tunnel_run(s, all).1);
    }
    while remaining.len() > 0
        invariant
            spec_tunnel_run(s, all).0 == spec_tunnel_run(state, spec_event_views(remaining@)).0,
            spec_tunnel_run(s, all).1 == spec_action_views(actions@) + spec_tunnel_run(
                state,
                spec_event_views(remaining@),
            ).1,
        decreases remaining@.len(),
    {
        let ghost prev = remaining@;
        let ghost prev_actions = actions@;
        let e = remaining.remove(0);
        let stepped = tunnel_step(state, e);
        proof {
            assert(spec_event_views(prev).skip(1) =~= spec_event_views(remaining@));
            assert(spec_event_views(prev)[0] == e@);
        }
        state = stepped.0;
        actions.push(stepped.1);
        proof {
            assert(spec_action_views(actions@) =~= spec_action_views(prev_actions) + seq![
                stepped.1@,
            ]);
            assert((spec_action_views(prev_actions) + seq![stepped.1@]) + spec_tunnel_run(
                state,
                spec_event_views(remaining@),
            ).1 =~= spec_action_views(prev_actions) + (seq![stepped.1@] + spec_tunnel_run(
                state,
                spec_event_views(remaining@),
            ).1));
        }
    }
    proof {
        assert(spec_event_views(remaining@) =~= Seq::<SpecTunnelEvent>::empty());
        assert(spec_action_views(actions@) + Seq::<SpecTunnelAction>::empty() =~= spec_action_views(
            actions@,
        ));
    }
    (state, actions)
}

} // verus!
