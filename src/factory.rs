//! The connection sequence that produces a session, as a state machine. The
//! asynchronous caller performs the action that each state names, reports
//! whether it succeeded, and moves on to the state that `advance` gives.
use std::collections::HashMap;
use vstd::prelude::*;
use tokio::sync::mpsc::{Receiver, Sender};
use crate::bridge::{open_bridge, CHANNEL_CAPACITY};
use crate::protocol::{InboundEvent, OutboundCommand};
use crate::session::{games_of, GodotArchipelagoClient};

verus! {

/// Where a connection attempt stands.
#[derive(Clone, Copy, Debug, PartialEq, Eq, Structural)]
pub enum FactoryState {
    Connecting,
    Handshaking,
    Splitting,
    Spawning,
    Ready,
    Failed,
}

/// The work that a state asks for.
#[derive(Clone, Copy, Debug, PartialEq, Eq, Structural)]
pub enum FactoryAction {
    /// Open a transport connection to the address.
    OpenTransport,
    /// Receive the room metadata and the data package.
    AwaitHandshake,
    /// Split the connection into a writer half and a reader half.
    SplitConnection,
    /// Open the channels, start the writer and reader tasks and build the
    /// session.
    SpawnTasks,
    /// Nothing more: hand the session, or the failure, to the caller.
    Finish,
}

pub open spec fn action_of(state: FactoryState) -> FactoryAction {
    match state {
        FactoryState::Connecting => FactoryAction::OpenTransport,
        FactoryState::Handshaking => FactoryAction::AwaitHandshake,
        FactoryState::Splitting => FactoryAction::SplitConnection,
        FactoryState::Spawning => FactoryAction::SpawnTasks,
        FactoryState::Ready | FactoryState::Failed => FactoryAction::Finish,
    }
}

pub open spec fn is_terminal(state: FactoryState) -> bool {
    state == FactoryState::Ready || state == FactoryState::Failed
}

/// The state after the current state's action, given whether it succeeded.
pub open spec fn next_state(state: FactoryState, succeeded: bool) -> FactoryState {
    if is_terminal(state) {
        state
    } else if !succeeded {
        FactoryState::Failed
    } else {
        match state {
            FactoryState::Connecting => FactoryState::Handshaking,
            FactoryState::Handshaking => FactoryState::Splitting,
            FactoryState::Splitting => FactoryState::Spawning,
            _ => FactoryState::Ready,
        }
    }
}

/// The state reached from `state` when the actions report `outcomes` in turn.
pub open spec fn run(state: FactoryState, outcomes: Seq<bool>) -> FactoryState
    decreases outcomes.len(),
{
    if outcomes.len() == 0 {
        state
    } else {
        run(next_state(state, outcomes[0]), outcomes.drop_first())
    }
}

/// The action that a state asks for.
pub fn next_action(state: FactoryState) -> (action: FactoryAction)
    ensures
        action == action_of(state),
{
    match state {
        FactoryState::Connecting => FactoryAction::OpenTransport,
        FactoryState::Handshaking => FactoryAction::AwaitHandshake,
        FactoryState::Splitting => FactoryAction::SplitConnection,
        FactoryState::Spawning => FactoryAction::SpawnTasks,
        FactoryState::Ready | FactoryState::Failed => FactoryAction::Finish,
    }
}

/// Moves the connection sequence on: a failed action ends it in `Failed`, a
/// successful one leads to the next step, and `Ready` and `Failed` stay put.
pub fn advance(state: FactoryState, succeeded: bool) -> (next: FactoryState)
    ensures
        next == next_state(state, succeeded),
{
    match state {
        FactoryState::Ready | FactoryState::Failed => state,
        _ => {
            if !succeeded {
                FactoryState::Failed
            } else {
                match state {
                    FactoryState::Connecting => FactoryState::Handshaking,
                    FactoryState::Handshaking => FactoryState::Splitting,
                    FactoryState::Splitting => FactoryState::Spawning,
                    _ => FactoryState::Ready,
                }
            }
        },
    }
}

/// The channel ends that the background tasks own: the writer task takes
/// commands from `writer_queue`, the reader task puts events into
/// `reader_queue`.
pub struct TaskEnds {
    pub writer_queue: Receiver<OutboundCommand>,
    pub reader_queue: Sender<InboundEvent>,
}

/// Makes sessions; the host calls it to connect.
pub struct GodotArchipelagoClientFactory {
    pub x: i32,
}

impl GodotArchipelagoClientFactory {
    pub fn new() -> (f: GodotArchipelagoClientFactory)
        ensures
            f.x == 10,
    {
        GodotArchipelagoClientFactory { x: 10 }
    }

    /// The last step of the connection sequence: opens the session's two
    /// channels and builds the session from the handshake's metadata. The
    /// returned ends belong to the writer and reader tasks that the caller
    /// starts.
    pub fn build_session(
        &self,
        url: String,
        room_info: serde_json::Value,
        data_package: Option<HashMap<String, serde_json::Value>>,
    ) -> (r: (GodotArchipelagoClient, TaskEnds))
        ensures
            r.0.spec_url() == url@,
            r.0.spec_room_info() == room_info,
            match data_package {
                Some(m) => r.0.spec_data_package() == m@,
                None => r.0.spec_data_package() == Map::<String, serde_json::Value>::empty(),
            },
            r.0.spec_sent() == Seq::<OutboundCommand>::empty(),
            !r.0.spec_refused(),
            r.0.spec_capacity() == CHANNEL_CAPACITY,
            r.0.spec_received() == Seq::<InboundEvent>::empty(),
            !r.0.spec_disconnected(),
            r.0.spec_inbound_capacity() == CHANNEL_CAPACITY,
            r.0.spec_polls() == 0,
    {
        let ends = open_bridge();
        let games = games_of(data_package);
        let client = GodotArchipelagoClient::new(url, room_info, games, ends.outbound_tx, ends.inbound_rx);
        (client, TaskEnds { writer_queue: ends.outbound_rx, reader_queue: ends.inbound_tx })
    }
}

/// A connection attempt ends in `Ready` exactly when its first four actions
/// succeed, and otherwise in `Failed` once those four have been reported.
pub proof fn lemma_ready_iff_every_step_succeeds(outcomes: Seq<bool>)
    requires
        outcomes.len() >= 4,
    ensures
        run(FactoryState::Connecting, outcomes) == FactoryState::Ready
            <==> (outcomes[0] && outcomes[1] && outcomes[2] && outcomes[3]),
        is_terminal(run(FactoryState::Connecting, outcomes)),
{
    let s0 = outcomes.take(4);
    let s1 = s0.drop_first();
    let s2 = s1.drop_first();
    let s3 = s2.drop_first();
    let s4 = s3.drop_first();
    assert(s0[0] == outcomes[0] && s1[0] == outcomes[1] && s2[0] == outcomes[2] && s3[0] == outcomes[3]);
    assert(s4.len() == 0);
    let a = next_state(FactoryState::Connecting, outcomes[0]);
    let b = next_state(a, outcomes[1]);
    let c = next_state(b, outcomes[2]);
    let d = next_state(c, outcomes[3]);
    assert(run(d, s4) == d);
    assert(run(c, s3) == d);
    assert(run(b, s2) == d);
    assert(run(a, s1) == d);
    assert(run(FactoryState::Connecting, s0) == d);
    assert(is_terminal(d));
    lemma_terminal_stays(d, outcomes.skip(4));
    lemma_run_split(FactoryState::Connecting, outcomes, 4);
}

proof fn lemma_terminal_stays(state: FactoryState, outcomes: Seq<bool>)
    requires
        is_terminal(state),
    ensures
        run(state, outcomes) == state,
    decreases outcomes.len(),
{
    if outcomes.len() > 0 {
        lemma_terminal_stays(state, outcomes.drop_first());
    }
}

proof fn lemma_run_split(state: FactoryState, outcomes: Seq<bool>, k: int)
    requires
        0 <= k <= outcomes.len(),
    ensures
        run(state, outcomes) == run(run(state, outcomes.take(k)), outcomes.skip(k)),
    decreases k,
{
    if k == 0 {
        assert(outcomes.skip(0) =~= outcomes);
    } else {
        let rest = outcomes.drop_first();
        lemma_run_split(next_state(state, outcomes[0]), rest, k - 1);
        assert(outcomes.take(k).drop_first() =~= rest.take(k - 1));
        assert(outcomes.skip(k) =~= rest.skip(k - 1));
    }
}

} // verus!
