//! The session: the host-facing side of one connection. It owns the sending
//! end of the outbound channel and the receiving end of the inbound channel,
//! plus the metadata that the handshake delivered.
use std::collections::HashMap;
use vstd::prelude::*;
use tokio::sync::mpsc::{Receiver, Sender};
use crate::bridge::{
    accepted, bound, disconnected, drain_now, drained, exhausted, inbound_bound,
    lemma_drain_yields_queue_in_order, outside_runtime, polls, refused, send_blocking, taken,
    was_delivered, ChannelModel, OutsideRuntime,
};
use crate::protocol::{ClientStatus, DataStorageOperation, InboundEvent, NetworkVersion, OutboundCommand};

verus! {

/// Major, minor and build number of the protocol version that `connect`
/// announces.
pub const PROTOCOL_MAJOR: u32 = 0;
pub const PROTOCOL_MINOR: u32 = 4;
pub const PROTOCOL_BUILD: u32 = 4;

/// The protocol version that a `Connect` command announces.
pub open spec fn is_announced_version(v: NetworkVersion) -> bool {
    &&& v.major == PROTOCOL_MAJOR
    &&& v.minor == PROTOCOL_MINOR
    &&& v.build == PROTOCOL_BUILD
    &&& v.class@ == "Version"@
}

/// `c` is the `Connect` command for these arguments: an empty uuid and the
/// announced protocol version.
pub open spec fn is_connect_for(
    c: OutboundCommand,
    game: String,
    name: String,
    password: Option<String>,
    items_handling: Option<i32>,
    tags: Vec<String>,
) -> bool {
    c matches OutboundCommand::Connect {
        game: g, name: n, password: p, items_handling: ih, tags: t, uuid: u, version: v,
    } && g == game && n == name && p == password && ih == items_handling && t == tags
        && u@ == Seq::<char>::empty() && is_announced_version(v)
}

/// `c` is the data-storage write for these arguments, its operations in the
/// given order.
pub open spec fn is_set_for(
    c: OutboundCommand,
    key: String,
    default: serde_json::Value,
    want_reply: bool,
    operations: Seq<(String, serde_json::Value)>,
) -> bool {
    c matches OutboundCommand::SetValue { key: k, default: d, want_reply: w, operations: ops }
        && k == key && d == default && w == want_reply
        && ops@.len() == operations.len()
        && forall|i: int| 0 <= i < ops@.len() ==>
            (#[trigger] ops@[i]).replace == operations[i].0
            && ops@[i].value == operations[i].1
}

impl OutboundCommand {
    /// The command that logs a player into a slot: an empty uuid and the
    /// protocol version this library speaks.
    pub fn connect(
        game: String,
        name: String,
        password: Option<String>,
        items_handling: Option<i32>,
        tags: Vec<String>,
    ) -> (r: OutboundCommand)
        ensures
            is_connect_for(r, game, name, password, items_handling, tags),
    {
        OutboundCommand::Connect {
            game,
            name,
            password,
            items_handling,
            tags,
            uuid: String::new(),
            version: NetworkVersion {
                major: PROTOCOL_MAJOR,
                minor: PROTOCOL_MINOR,
                build: PROTOCOL_BUILD,
                class: "Version".to_owned(),
            },
        }
    }

    /// A chat message.
    pub fn say(text: String) -> (r: OutboundCommand)
        ensures
            r == (OutboundCommand::Say { text }),
    {
        OutboundCommand::Say { text }
    }

    /// A report of checked locations.
    pub fn location_checks(locations: Vec<i32>) -> (r: OutboundCommand)
        ensures
            r == (OutboundCommand::LocationChecks { locations }),
    {
        OutboundCommand::LocationChecks { locations }
    }

    /// A request for what the given locations hold.
    pub fn location_scouts(locations: Vec<i32>, create_as_hint: i32) -> (r: OutboundCommand)
        ensures
            r == (OutboundCommand::LocationScouts { locations, create_as_hint }),
    {
        OutboundCommand::LocationScouts { locations, create_as_hint }
    }

    /// A status update.
    pub fn status_update(status: ClientStatus) -> (r: OutboundCommand)
        ensures
            r == (OutboundCommand::StatusUpdate { status }),
    {
        OutboundCommand::StatusUpdate { status }
    }

    /// A message to other clients, chosen by game, slot or tag.
    pub fn bounce(
        games: Option<Vec<String>>,
        slots: Option<Vec<String>>,
        tags: Option<Vec<String>>,
        data: serde_json::Value,
    ) -> (r: OutboundCommand)
        ensures
            r == (OutboundCommand::Bounce { games, slots, tags, data }),
    {
        OutboundCommand::Bounce { games, slots, tags, data }
    }

    /// A read of data-storage keys.
    pub fn get(keys: Vec<String>) -> (r: OutboundCommand)
        ensures
            r == (OutboundCommand::Get { keys }),
    {
        OutboundCommand::Get { keys }
    }

    /// A data-storage write: each pair is an operation's name and operand,
    /// applied in order to the key's value, which starts from `default`.
    pub fn set(
        key: String,
        default: serde_json::Value,
        want_reply: bool,
        operations: Vec<(String, serde_json::Value)>,
    ) -> (r: OutboundCommand)
        ensures
            is_set_for(r, key, default, want_reply, operations@),
    {
        let ghost original = operations@;
        let mut rest = operations;
        let mut ops: Vec<DataStorageOperation> = Vec::new();
        while rest.len() > 0
            invariant
                ops@.len() + rest@.len() == original.len(),
                rest@ == original.skip(ops@.len() as int),
                forall|i: int| 0 <= i < ops@.len() ==>
                    (#[trigger] ops@[i]).replace == original[i].0 && ops@[i].value == original[i].1,
            decreases rest@.len(),
        {
            let (replace, value) = rest.remove(0);
            ops.push(DataStorageOperation { replace, value });
        }
        OutboundCommand::SetValue { key, default, want_reply, operations: ops }
    }
}

/// The game metadata that a session caches: the data package's games, or no
/// games when the server sent no data package.
pub fn games_of(package: Option<HashMap<String, serde_json::Value>>) -> (games: HashMap<String, serde_json::Value>)
    ensures
        match package {
            Some(m) => games@ == m@,
            None => games@ == Map::<String, serde_json::Value>::empty(),
        },
{
    match package {
        Some(m) => m,
        None => HashMap::new(),
    }
}

/// A live session, as the host's calling code sees it.
pub struct GodotArchipelagoClient {
    url: String,
    room_info: serde_json::Value,
    data_package: HashMap<String, serde_json::Value>,
    send_message_queue: Sender<OutboundCommand>,
    receive_message_queue: Receiver<InboundEvent>,
}

impl GodotArchipelagoClient {
    pub closed spec fn spec_url(&self) -> Seq<char> {
        self.url@
    }

    pub closed spec fn spec_room_info(&self) -> serde_json::Value {
        self.room_info
    }

    pub closed spec fn spec_data_package(&self) -> Map<String, serde_json::Value> {
        self.data_package@
    }

    /// Every command that the outbound channel accepted from this session.
    pub closed spec fn spec_sent(&self) -> Seq<OutboundCommand> {
        accepted(self.send_message_queue)
    }

    /// Whether a send found the writer's end gone; then every later send fails.
    pub closed spec fn spec_refused(&self) -> bool {
        refused(self.send_message_queue)
    }

    /// The number of commands that the outbound channel buffers.
    pub closed spec fn spec_capacity(&self) -> nat {
        bound(self.send_message_queue)
    }

    /// Every event that this session has drained, in arrival order.
    pub closed spec fn spec_received(&self) -> Seq<InboundEvent> {
        taken(self.receive_message_queue)
    }

    /// Whether the last receive found no event buffered.
    pub closed spec fn spec_exhausted(&self) -> bool {
        exhausted(self.receive_message_queue)
    }

    /// The number of events that the inbound channel buffers.
    pub closed spec fn spec_inbound_capacity(&self) -> nat {
        inbound_bound(self.receive_message_queue)
    }

    /// How many non-blocking receives this session has made.
    pub closed spec fn spec_polls(&self) -> nat {
        polls(self.receive_message_queue)
    }

    /// Whether the reader's end is gone and nothing is left to drain.
    pub closed spec fn spec_disconnected(&self) -> bool {
        disconnected(self.receive_message_queue)
    }

    /// The metadata and the outbound side are the same in both.
    pub open spec fn same_except_inbound(self, other: Self) -> bool {
        &&& other.spec_url() == self.spec_url()
        &&& other.spec_room_info() == self.spec_room_info()
        &&& other.spec_data_package() == self.spec_data_package()
        &&& other.spec_sent() == self.spec_sent()
        &&& other.spec_refused() == self.spec_refused()
        &&& other.spec_capacity() == self.spec_capacity()
    }

    /// The metadata and the inbound side are the same in both.
    pub open spec fn same_except_outbound(self, other: Self) -> bool {
        &&& other.spec_url() == self.spec_url()
        &&& other.spec_room_info() == self.spec_room_info()
        &&& other.spec_data_package() == self.spec_data_package()
        &&& other.spec_received() == self.spec_received()
        &&& other.spec_exhausted() == self.spec_exhausted()
        &&& other.spec_disconnected() == self.spec_disconnected()
        &&& other.spec_inbound_capacity() == self.spec_inbound_capacity()
        &&& other.spec_polls() == self.spec_polls()
    }

    /// What one send did, from session `self` to session `after`: if it
    /// succeeded, exactly one command joined the accepted ones, at the end;
    /// if it failed, none did; and it fails whenever the writer's end was
    /// already gone. Nothing else changes. A send fails either because the
    /// writer's end is gone, which `after.spec_refused()` then records, or
    /// because the calling thread is inside an asynchronous runtime, where
    /// waiting is not allowed.
    pub open spec fn sent_one(self, after: Self, sent: bool) -> bool {
        &&& self.same_except_outbound(after)
        &&& after.spec_capacity() == self.spec_capacity()
        &&& sent ==> after.spec_sent().len() == self.spec_sent().len() + 1
            && after.spec_sent().drop_last() == self.spec_sent()
        &&& !sent ==> after.spec_sent() == self.spec_sent()
        &&& self.spec_refused() ==> !sent
    }

    /// What one drain did, from session `self` to session `after`: the batch
    /// is exactly the events it took, in order, after those taken before;
    /// unless the batch reached the largest possible length, the drain ended
    /// on a receive that found nothing; once the reader's end was gone with
    /// nothing left, the batch is empty. The rest is unchanged.
    pub open spec fn drained_into(self, after: Self, batch: Seq<InboundEvent>) -> bool {
        &&& self.same_except_inbound(after)
        &&& after.spec_received() == self.spec_received() + batch
        &&& batch.len() < usize::MAX ==> after.spec_exhausted()
            && after.spec_polls() == self.spec_polls() + batch.len() + 1
        &&& after.spec_inbound_capacity() == self.spec_inbound_capacity()
        &&& self.spec_disconnected() ==> batch.len() == 0 && after.spec_disconnected()
    }

    /// `sent_one`, with `cmd` as the command sent.
    pub open spec fn sent_command(self, after: Self, cmd: OutboundCommand, sent: bool) -> bool {
        &&& self.sent_one(after, sent)
        &&& sent ==> after.spec_sent().last() == cmd
    }

    /// Assembles a session from the handshake's metadata and the two channel
    /// endpoints that the host side keeps.
    pub fn new(
        url: String,
        room_info: serde_json::Value,
        data_package: HashMap<String, serde_json::Value>,
        send_message_queue: Sender<OutboundCommand>,
        receive_message_queue: Receiver<InboundEvent>,
    ) -> (s: GodotArchipelagoClient)
        ensures
            s.spec_url() == url@,
            s.spec_room_info() == room_info,
            s.spec_data_package() == data_package@,
            s.spec_sent() == accepted(send_message_queue),
            s.spec_refused() == refused(send_message_queue),
            s.spec_capacity() == bound(send_message_queue),
            s.spec_received() == taken(receive_message_queue),
            s.spec_disconnected() == disconnected(receive_message_queue),
            s.spec_inbound_capacity() == inbound_bound(receive_message_queue),
            s.spec_polls() == polls(receive_message_queue),
    {
        GodotArchipelagoClient { url, room_info, data_package, send_message_queue, receive_message_queue }
    }

    /// Hands a command to the writer task, waiting while the outbound channel
    /// is full. Returns false when the writer task is gone, or when the
    /// calling thread is inside an asynchronous runtime, where it may not
    /// wait.
    fn enqueue_message(&mut self, message: OutboundCommand) -> (sent: bool)
        ensures
            old(self).sent_command(*final(self), message, sent),
    {
        let context = outside_runtime();
        self.enqueue_in(context, message)
    }

    /// The send itself, given whether this thread may wait: inside a runtime
    /// nothing is sent; outside one, a failed send means the writer's end is
    /// gone.
    fn enqueue_in(&mut self, context: Option<OutsideRuntime>, message: OutboundCommand) -> (sent: bool)
        ensures
            old(self).sent_command(*final(self), message, sent),
            context is None ==> !sent && *final(self) == *old(self),
            context is Some && !sent ==> final(self).spec_refused(),
    {
        match context {
            None => false,
            Some(outside) => {
                let ghost before = self.send_message_queue;
                let sent = was_delivered(send_blocking(&mut self.send_message_queue, message, &outside));
                proof {
                    if sent {
                        assert(accepted(self.send_message_queue).drop_last() =~= accepted(before));
                    }
                }
                sent
            },
        }
    }

    /// Every event that has arrived and not yet been taken, in arrival order:
    /// non-blocking receives until one finds nothing. The batch is exactly
    /// what was taken; once the reader's end is gone and everything was
    /// drained, the batch is empty.
    pub fn get_received_messages(&mut self) -> (messages: Vec<InboundEvent>)
        ensures
            old(self).drained_into(*final(self), messages@),
    {
        drain_now(&mut self.receive_message_queue)
    }

    /// Logs into a slot of the multiworld.
    ///
    /// Each command operation builds its command and hands it to the writer
    /// task, waiting while the outbound channel is full; it returns whether
    /// the channel accepted the command. It fails once the writer's end is
    /// gone, and also, without sending and without waiting, when called on a
    /// thread that carries a tokio runtime handle (inside a runtime, or on its
    /// blocking pool), where waiting may not be allowed.
    pub fn connect_to_multiworld(
        &mut self,
        game: String,
        name: String,
        password: Option<String>,
        items_handling: Option<i32>,
        tags: Vec<String>,
    ) -> (sent: bool)
        ensures
            old(self).sent_one(*final(self), sent),
            sent ==> is_connect_for(final(self).spec_sent().last(), game, name, password, items_handling, tags),
    {
        self.enqueue_message(OutboundCommand::connect(game, name, password, items_handling, tags))
    }

    /// Sends a chat message.
    pub fn say(&mut self, message: String) -> (sent: bool)
        ensures
            old(self).sent_command(*final(self), OutboundCommand::Say { text: message }, sent),
    {
        self.enqueue_message(OutboundCommand::say(message))
    }

    /// Asks the server to resend everything the slot has received.
    pub fn sync(&mut self) -> (sent: bool)
        ensures
            old(self).sent_command(*final(self), OutboundCommand::Sync, sent),
    {
        self.enqueue_message(OutboundCommand::Sync)
    }

    /// Reports checked locations.
    pub fn location_checks(&mut self, locations: Vec<i32>) -> (sent: bool)
        ensures
            old(self).sent_command(*final(self), OutboundCommand::LocationChecks { locations }, sent),
    {
        self.enqueue_message(OutboundCommand::location_checks(locations))
    }

    /// Asks what the given locations hold.
    pub fn location_scouts(&mut self, locations: Vec<i32>, create_as_hint: i32) -> (sent: bool)
        ensures
            old(self).sent_command(
                *final(self),
                OutboundCommand::LocationScouts { locations, create_as_hint },
                sent,
            ),
    {
        self.enqueue_message(OutboundCommand::location_scouts(locations, create_as_hint))
    }

    /// Reports the player's status.
    pub fn status_update(&mut self, status: ClientStatus) -> (sent: bool)
        ensures
            old(self).sent_command(*final(self), OutboundCommand::StatusUpdate { status }, sent),
    {
        self.enqueue_message(OutboundCommand::status_update(status))
    }

    /// Sends data to other clients.
    pub fn bounce(
        &mut self,
        games: Option<Vec<String>>,
        slots: Option<Vec<String>>,
        tags: Option<Vec<String>>,
        data: serde_json::Value,
    ) -> (sent: bool)
        ensures
            old(self).sent_command(*final(self), OutboundCommand::Bounce { games, slots, tags, data }, sent),
    {
        self.enqueue_message(OutboundCommand::bounce(games, slots, tags, data))
    }

    /// Reads data-storage keys.
    pub fn get(&mut self, keys: Vec<String>) -> (sent: bool)
        ensures
            old(self).sent_command(*final(self), OutboundCommand::Get { keys }, sent),
    {
        self.enqueue_message(OutboundCommand::get(keys))
    }

    /// Writes a data-storage key.
    pub fn set(
        &mut self,
        key: String,
        default: serde_json::Value,
        want_reply: bool,
        operations: Vec<(String, serde_json::Value)>,
    ) -> (sent: bool)
        ensures
            old(self).sent_one(*final(self), sent),
            sent ==> is_set_for(final(self).spec_sent().last(), key, default, want_reply, operations@),
    {
        self.enqueue_message(OutboundCommand::set(key, default, want_reply, operations))
    }

    /// The address that the session was opened on.
    pub fn url(&self) -> (r: &String)
        ensures
            r@ == self.spec_url(),
    {
        &self.url
    }

    /// The room metadata that the handshake delivered.
    pub fn room_info(&self) -> (r: &serde_json::Value)
        ensures
            *r == self.spec_room_info(),
    {
        &self.room_info
    }

    /// The per-game metadata that the handshake delivered, keyed by game name.
    pub fn data_package(&self) -> (r: &HashMap<String, serde_json::Value>)
        ensures
            r@ == self.spec_data_package(),
    {
        &self.data_package
    }
}

/// Two drains in a row take their batches one after the other, and touch
/// nothing on the outbound side; once a drain leaves the session with the
/// reader's end gone and nothing buffered, every later drain is empty.
pub proof fn lemma_drains_compose(
    s0: GodotArchipelagoClient,
    s1: GodotArchipelagoClient,
    s2: GodotArchipelagoClient,
    b1: Seq<InboundEvent>,
    b2: Seq<InboundEvent>,
)
    requires
        s0.drained_into(s1, b1),
        s1.drained_into(s2, b2),
    ensures
        s2.spec_received() == s0.spec_received() + b1 + b2,
        s2.spec_sent() == s0.spec_sent(),
        s1.spec_disconnected() ==> b2.len() == 0 && s2.spec_disconnected(),
{
    assert(s0.spec_received() + b1 + b2 =~= s0.spec_received() + (b1 + b2));
}

/// Sending a command never changes the inbound direction: a drain after it
/// takes the same kind of batch, appended to the same history, as a drain
/// before it would.
pub proof fn lemma_send_then_drain(
    s0: GodotArchipelagoClient,
    s1: GodotArchipelagoClient,
    s2: GodotArchipelagoClient,
    sent: bool,
    batch: Seq<InboundEvent>,
)
    requires
        s0.sent_one(s1, sent),
        s1.drained_into(s2, batch),
    ensures
        s2.spec_received() == s0.spec_received() + batch,
        s0.spec_disconnected() ==> batch.len() == 0,
        s1.spec_received() == s0.spec_received(),
{
}

/// The state of a session's two channels.
pub struct SessionModel {
    pub outbound: ChannelModel<OutboundCommand>,
    pub inbound: ChannelModel<InboundEvent>,
}

/// One thing that happens on the outbound side of a session.
pub enum OutboundStep {
    /// The host enqueues a command.
    Enqueue(OutboundCommand),
    /// The writer task takes the oldest command to write it.
    WriterTakes,
}

impl SessionModel {
    pub open spec fn step(self, step: OutboundStep) -> SessionModel {
        match step {
            OutboundStep::Enqueue(c) => SessionModel { outbound: self.outbound.after_send(c), ..self },
            OutboundStep::WriterTakes => SessionModel { outbound: self.outbound.after_receive(), ..self },
        }
    }

    pub open spec fn run(self, steps: Seq<OutboundStep>) -> SessionModel
        decreases steps.len(),
    {
        if steps.len() == 0 {
            self
        } else {
            self.step(steps[0]).run(steps.drop_first())
        }
    }

    /// What the host's drain collects, and the session after it.
    pub open spec fn drain(self) -> (Seq<InboundEvent>, SessionModel) {
        (self.inbound.drain().0, SessionModel { inbound: self.inbound.drain().1, ..self })
    }
}

/// Enqueueing commands and letting the writer take them never touches the
/// inbound direction: a drain afterwards yields exactly the events that the
/// network side had delivered, and nothing at all when it delivered none.
pub proof fn lemma_enqueue_leaves_inbound_alone(s: SessionModel, steps: Seq<OutboundStep>)
    ensures
        s.run(steps).inbound == s.inbound,
        s.run(steps).drain().0 == s.inbound.queue,
        s.inbound.queue.len() == 0 ==> s.run(steps).drain().0 == Seq::<InboundEvent>::empty(),
    decreases steps.len(),
{
    if steps.len() > 0 {
        lemma_enqueue_leaves_inbound_alone(s.step(steps[0]), steps.drop_first());
    }
    lemma_drain_yields_queue_in_order(s.inbound);
}

} // verus!
