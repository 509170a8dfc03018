//! The signaling server's logic: the registry of connected devices and the
//! per-connection state machine that decides, for each thing a WebSocket
//! delivers, how the registry changes, what is replied to the socket, what
//! is forwarded to another device, and whether the connection stays open.
//!
//! The broadcast channel that carries forwarded messages to a device lives
//! with the caller, keyed by the device's identifier: `OpenChannel` asks for
//! a fresh one (replacing any other under that key), `CloseChannel` drops it.
//! What comes through the channel of a connection's own device reaches the
//! state machine as `Relayed` and is written to that connection's socket.

use vstd::prelude::*;
use crate::identity::DeviceId;
use crate::events::SignalMessage;
use vstd::string::*;

verus! {

/// One registered device: its identifier and the name it registered with.
struct RegisteredDevice {
    id: String,
    name: String,
}

/// The registry's entries describe exactly the map `m`, with no identifier
/// listed twice.
spec fn entries_match(entries: Seq<RegisteredDevice>, m: Map<Seq<char>, Seq<char>>) -> bool {
    &&& forall|i: int, j: int|
        0 <= i < j < entries.len() ==> entries[i].id@ != entries[j].id@
    &&& forall|i: int|
        0 <= i < entries.len() ==> #[trigger] m.contains_key(entries[i].id@) && m[entries[i].id@]
            == entries[i].name@
    &&& forall|k: Seq<char>|
        #[trigger] m.contains_key(k) ==> exists|i: int| 0 <= i < entries.len() && entries[i].id@ == k
}

/// Registered devices: device identifier → device name.
pub struct DeviceRegistry {
    entries: Vec<RegisteredDevice>,
    map: Ghost<Map<Seq<char>, Seq<char>>>,
}

impl DeviceRegistry {
    #[verifier::type_invariant]
    spec fn well_formed(self) -> bool {
        entries_match(self.entries@, self.map@)
    }

    /// The registered devices, as a map from identifier to name.
    pub closed spec fn devices(&self) -> Map<Seq<char>, Seq<char>> {
        self.map@
    }
}

impl View for DeviceRegistry {
    type V = Map<Seq<char>, Seq<char>>;

    open spec fn view(&self) -> Map<Seq<char>, Seq<char>> {
        self.devices()
    }
}

/// What is registered is what was registered last: after registering
/// `name` under `id` the registry holds `name` for `id` and every other
/// registration as before; unregistering `id` right after undoes a
/// registration of an identifier that was not registered.
pub proof fn registry_read_after_write(
    reg: Map<Seq<char>, Seq<char>>,
    id: Seq<char>,
    name: Seq<char>,
)
    ensures
        reg.insert(id, name).contains_key(id),
        reg.insert(id, name)[id] == name,
        forall|k: Seq<char>| k != id ==> (#[trigger] reg.insert(id, name).contains_key(k)
            == reg.contains_key(k)) && (reg.contains_key(k) ==> reg.insert(id, name)[k] == reg[k]),
        !reg.contains_key(id) ==> reg.insert(id, name).remove(id) == reg,
        !reg.insert(id, name).remove(id).contains_key(id),
{
    if !reg.contains_key(id) {
        assert(reg.insert(id, name).remove(id) =~= reg);
    }
}

/// Removing the entry at `i` describes the map without its identifier.
proof fn lemma_remove_entry(entries: Seq<RegisteredDevice>, m: Map<Seq<char>, Seq<char>>, i: int)
    requires
        entries_match(entries, m),
        0 <= i < entries.len(),
    ensures
        entries_match(entries.remove(i), m.remove(entries[i].id@)),
{
    let e2 = entries.remove(i);
    let m2 = m.remove(entries[i].id@);
    assert forall|a: int, b: int| 0 <= a < b < e2.len() implies e2[a].id@ != e2[b].id@ by {
        let a0 = if a < i { a } else { a + 1 };
        let b0 = if b < i { b } else { b + 1 };
        assert(e2[a] == entries[a0]);
        assert(e2[b] == entries[b0]);
    }
    assert forall|a: int| 0 <= a < e2.len() implies #[trigger] m2.contains_key(e2[a].id@)
        && m2[e2[a].id@] == e2[a].name@ by {
        let a0 = if a < i { a } else { a + 1 };
        assert(e2[a] == entries[a0]);
        assert(m.contains_key(entries[a0].id@));
        if a0 < i {
            assert(entries[a0].id@ != entries[i].id@);
        } else {
            assert(entries[i].id@ != entries[a0].id@);
        }
    }
    assert forall|k: Seq<char>| #[trigger] m2.contains_key(k) implies exists|a: int|
        0 <= a < e2.len() && e2[a].id@ == k by {
        assert(m.contains_key(k));
        let a0 = choose|a0: int| 0 <= a0 < entries.len() && entries[a0].id@ == k;
        assert(a0 != i);
        let a = if a0 < i { a0 } else { a0 - 1 };
        assert(e2[a] == entries[a0]);
    }
}

/// Appending an entry for an identifier not in the map describes the map
/// with that identifier added.
proof fn lemma_push_entry(
    entries: Seq<RegisteredDevice>,
    m: Map<Seq<char>, Seq<char>>,
    e: RegisteredDevice,
)
    requires
        entries_match(entries, m),
        !m.contains_key(e.id@),
    ensures
        entries_match(entries.push(e), m.insert(e.id@, e.name@)),
{
    let e2 = entries.push(e);
    let m2 = m.insert(e.id@, e.name@);
    assert forall|a: int, b: int| 0 <= a < b < e2.len() implies e2[a].id@ != e2[b].id@ by {
        if b == entries.len() {
            assert(m.contains_key(entries[a].id@));
        }
    }
    assert forall|a: int| 0 <= a < e2.len() implies #[trigger] m2.contains_key(e2[a].id@)
        && m2[e2[a].id@] == e2[a].name@ by {
        if a < entries.len() {
            assert(m.contains_key(entries[a].id@));
        }
    }
    assert forall|k: Seq<char>| #[trigger] m2.contains_key(k) implies exists|a: int|
        0 <= a < e2.len() && e2[a].id@ == k by {
        if k == e.id@ {
            assert(e2[entries.len() as int].id@ == k);
        } else {
            let a0 = choose|a0: int| 0 <= a0 < entries.len() && entries[a0].id@ == k;
            assert(e2[a0] == entries[a0]);
        }
    }
}

impl DeviceRegistry {
    /// An empty registry.
    pub fn new() -> (r: Self)
        ensures
            r@ == Map::<Seq<char>, Seq<char>>::empty(),
    {
        DeviceRegistry { entries: Vec::new(), map: Ghost(Map::empty()) }
    }

    /// Index of the entry registered under `id`, if any.
    fn position(&self, id: &String) -> (r: Option<usize>)
        ensures
            match r {
                Some(i) => i < self.entries@.len() && self.entries@[i as int].id@ == id@,
                None => !self@.contains_key(id@),
            },
    {
        proof {
            use_type_invariant(self);
        }
        let mut i: usize = 0;
        while i < self.entries.len()
            invariant
                i <= self.entries@.len(),
                entries_match(self.entries@, self.map@),
                forall|j: int| 0 <= j < i ==> self.entries@[j].id@ != id@,
            decreases self.entries@.len() - i,
        {
            if self.entries[i].id == *id {
                return Some(i);
            }
            i = i + 1;
        }
        proof {
            if self.map@.contains_key(id@) {
                let j = choose|j: int| 0 <= j < self.entries@.len() && self.entries@[j].id@ == id@;
                assert(self.entries@[j].id@ != id@);
            }
        }
        None
    }

    /// Whether a device is registered under `id`.
    pub fn contains(&self, id: &String) -> (r: bool)
        ensures
            r == self@.contains_key(id@),
    {
        proof {
            use_type_invariant(self);
        }
        match self.position(id) {
            Some(i) => {
                proof {
                    assert(self.map@.contains_key(self.entries@[i as int].id@));
                }
                true
            },
            None => false,
        }
    }

    /// The name a device registered with, if it is registered.
    pub fn device_name(&self, id: &String) -> (r: Option<&String>)
        ensures
            match r {
                Some(name) => self@.contains_key(id@) && name@ == self@[id@],
                None => !self@.contains_key(id@),
            },
    {
        proof {
            use_type_invariant(self);
        }
        match self.position(id) {
            Some(i) => {
                proof {
                    assert(self.map@.contains_key(self.entries@[i as int].id@));
                }
                Some(&self.entries[i].name)
            },
            None => None,
        }
    }

    /// Number of registered devices.
    pub fn len(&self) -> (r: usize)
        ensures
            r == self@.len(),
    {
        proof {
            use_type_invariant(self);
            lemma_entries_len(self.entries@, self.map@);
        }
        self.entries.len()
    }

    /// Registers `name` under `id`, replacing any earlier registration of
    /// that identifier.
    pub fn register(&mut self, id: String, name: String)
        ensures
            final(self)@ == old(self)@.insert(id@, name@),
    {
        proof {
            use_type_invariant(&*self);
        }
        let pos = self.position(&id);
        let mut taken = DeviceRegistry::new();
        std::mem::swap(self, &mut taken);
        proof {
            use_type_invariant(&taken);
        }
        let DeviceRegistry { mut entries, map } = taken;
        let ghost mut m = map@;
        match pos {
            Some(i) => {
                proof {
                    lemma_remove_entry(entries@, m, i as int);
                    m = m.remove(id@);
                }
                entries.remove(i);
            },
            None => {},
        }
        let ghost idv = id@;
        let ghost namev = name@;
        let entry = RegisteredDevice { id, name };
        proof {
            lemma_push_entry(entries@, m, entry);
        }
        entries.push(entry);
        *self = DeviceRegistry { entries, map: Ghost(m.insert(idv, namev)) };
        proof {
            assert(self@ =~= old(self)@.insert(idv, namev));
        }
    }

    /// Removes the registration of `id`, if there is one; returns whether
    /// there was.
    pub fn unregister(&mut self, id: &String) -> (r: bool)
        ensures
            final(self)@ == old(self)@.remove(id@),
            r == old(self)@.contains_key(id@),
    {
        proof {
            use_type_invariant(&*self);
        }
        let pos = self.position(id);
        match pos {
            Some(i) => {
                let mut taken = DeviceRegistry::new();
                std::mem::swap(self, &mut taken);
                proof {
                    use_type_invariant(&taken);
                    assert(taken.map@.contains_key(taken.entries@[i as int].id@));
                }
                let DeviceRegistry { mut entries, map } = taken;
                proof {
                    lemma_remove_entry(entries@, map@, i as int);
                }
                entries.remove(i);
                *self = DeviceRegistry { entries, map: Ghost(map@.remove(id@)) };
                true
            },
            None => {
                proof {
                    assert(old(self)@.remove(id@) =~= old(self)@);
                }
                false
            },
        }
    }
}

/// The number of entries is the size of the map they describe.
proof fn lemma_entries_len(entries: Seq<RegisteredDevice>, m: Map<Seq<char>, Seq<char>>)
    requires
        entries_match(entries, m),
    ensures
        m.dom().finite(),
        m.len() == entries.len(),
    decreases entries.len(),
{
    if entries.len() == 0 {
        assert(m.dom() =~= Set::empty());
    } else {
        let last = (entries.len() - 1) as int;
        lemma_remove_entry(entries, m, last);
        lemma_entries_len(entries.remove(last), m.remove(entries[last].id@));
        assert(m.contains_key(entries[last].id@));
        assert(m.remove(entries[last].id@).dom() =~= m.dom().remove(entries[last].id@));
    }
}


/// A signaling message as received from a device: an optional routing hint
/// and the message itself.
#[derive(Debug, Clone)]
pub struct SignalEnvelope {
    pub target: Option<String>,
    pub payload: SignalMessage,
}

/// What reached a connection, as the server sees it: what the device's
/// WebSocket delivered, or a message another connection forwarded to the
/// device.
#[derive(Debug)]
pub enum Inbound {
    /// A text frame that parsed as an envelope.
    Envelope(SignalEnvelope),
    /// A text frame that did not parse; the parser's description of why.
    Malformed(String),
    /// The device closed the socket.
    Close,
    /// The socket failed.
    Failure,
    /// Anything else (binary frames, pings, pongs): ignored.
    Ignored,
    /// The text of a message forwarded to this connection's device, as it
    /// came through the device's channel.
    Relayed(String),
}

/// A reply sent back on the device's own socket.
#[derive(Debug, Clone, PartialEq, Eq)]
pub enum ServerReply {
    /// `{"type":"registered","device_id":...}`
    Registered { device_id: String },
    /// `{"error":"device_not_found","device_id":...}`
    DeviceNotFound { device_id: String },
    /// `{"error":"<parser's description>"}`
    Malformed { error: String },
}

/// The text of the reply to a frame that did not parse: the parser's
/// description between `{"error":"` and `"}`, as it stands.
pub open spec fn malformed_reply_text(error: Seq<char>) -> Seq<char> {
    "{\"error\":\""@ + error + "\"}"@
}

impl ServerReply {
    /// The text of a `Malformed` reply; `None` for the other replies, whose
    /// text is the JSON serialization of their fields.
    pub fn malformed_text(&self) -> (r: Option<String>)
        ensures
            match self {
                ServerReply::Malformed { error } => r matches Some(t) && t@ == malformed_reply_text(
                    error@,
                ),
                _ => r is None,
            },
    {
        match self {
            ServerReply::Malformed { error } => {
                let mut t = String::from_str("{\"error\":\"");
                t.append(error.as_str());
                t.append("\"}");
                Some(t)
            },
            _ => None,
        }
    }
}

/// Why a device's registration was dropped.
#[derive(Debug, Clone, Copy, PartialEq, Eq, Structural)]
pub enum CloseCause {
    /// The device asked to be unregistered.
    Unregistered,
    /// The device's connection ended.
    Disconnected,
}

/// What the server does in answer to what a socket delivered.
#[derive(Debug, Clone)]
pub enum SignalEffect {
    /// Send a reply on this connection's socket.
    Reply(ServerReply),
    /// Send the message, serialized, on the channel of device `to`.
    Forward { to: String, payload: SignalMessage },
    /// Create a fresh channel for the device, replacing any it had.
    OpenChannel { device_id: String },
    /// Drop the device's channel, if it has one.
    CloseChannel { device_id: String, cause: CloseCause },
    /// Write this text, a message forwarded to this connection's device, to
    /// this connection's socket.
    Relay(String),
}

/// The part of a connection's state that outlives one message: the device
/// this connection registered last, if any.
#[derive(Debug)]
pub struct SignalSession {
    pub device_id: Option<String>,
}

/// The outcome of one step: the effects, in order, and whether the server
/// keeps reading from the socket.
#[derive(Debug)]
pub struct StepOutcome {
    pub effects: Vec<SignalEffect>,
    pub keep_open: bool,
}

/// The device a routed message (pairing request, offer, answer, ICE
/// candidate) is addressed to.
pub open spec fn routed_target(m: SignalMessage) -> Option<DeviceId> {
    match m {
        SignalMessage::PairRequest { to, .. } => Some(to),
        SignalMessage::Offer { to, .. } => Some(to),
        SignalMessage::Answer { to, .. } => Some(to),
        SignalMessage::IceCandidate { to, .. } => Some(to),
        _ => None,
    }
}

/// The connection state after one step.
pub open spec fn step_session(session: SignalSession, inbound: Inbound) -> SignalSession {
    match inbound {
        Inbound::Envelope(env) => match env.payload {
            SignalMessage::Register { device_id, .. } => SignalSession { device_id: Some(device_id.0) },
            _ => session,
        },
        _ => session,
    }
}

/// The registry after one step.
pub open spec fn step_registry(
    session: SignalSession,
    reg: Map<Seq<char>, Seq<char>>,
    inbound: Inbound,
) -> Map<Seq<char>, Seq<char>> {
    match inbound {
        Inbound::Envelope(env) => match env.payload {
            SignalMessage::Register { device_id, device_name } => reg.insert(device_id@, device_name@),
            SignalMessage::Unregister { device_id } => reg.remove(device_id@),
            _ => reg,
        },
        Inbound::Close => match session.device_id {
            Some(id) => reg.remove(id@),
            None => reg,
        },
        _ => reg,
    }
}

/// The effects of one step, in order.
pub open spec fn step_effects(
    session: SignalSession,
    reg: Map<Seq<char>, Seq<char>>,
    inbound: Inbound,
) -> Seq<SignalEffect> {
    match inbound {
        Inbound::Envelope(env) => match env.payload {
            SignalMessage::Register { device_id, .. } => seq![
                SignalEffect::OpenChannel { device_id: device_id.0 },
                SignalEffect::Reply(ServerReply::Registered { device_id: device_id.0 }),
            ],
            SignalMessage::Unregister { device_id } => seq![
                SignalEffect::CloseChannel { device_id: device_id.0, cause: CloseCause::Unregistered },
            ],
            SignalMessage::PairRequest { to, .. } => if reg.contains_key(to@) {
                seq![SignalEffect::Forward { to: to.0, payload: env.payload }]
            } else {
                seq![SignalEffect::Reply(ServerReply::DeviceNotFound { device_id: to.0 })]
            },
            SignalMessage::Offer { to, .. } | SignalMessage::Answer { to, .. }
            | SignalMessage::IceCandidate { to, .. } => if reg.contains_key(to@) {
                seq![SignalEffect::Forward { to: to.0, payload: env.payload }]
            } else {
                Seq::empty()
            },
        },
        Inbound::Malformed(error) => seq![SignalEffect::Reply(ServerReply::Malformed { error })],
        Inbound::Close => match session.device_id {
            Some(id) => seq![
                SignalEffect::CloseChannel { device_id: id, cause: CloseCause::Disconnected },
            ],
            None => Seq::empty(),
        },
        Inbound::Relayed(text) => match session.device_id {
            Some(_) => seq![SignalEffect::Relay(text)],
            None => Seq::empty(),
        },
        _ => Seq::empty(),
    }
}

/// Whether the server keeps reading after one step: everything but an
/// unregistration, a close and a socket failure keeps the connection open.
pub open spec fn step_keeps_open(inbound: Inbound) -> bool {
    match inbound {
        Inbound::Envelope(env) => !(env.payload is Unregister),
        Inbound::Close | Inbound::Failure => false,
        _ => true,
    }
}

/// The registry after a connection's cleanup.
pub open spec fn finish_registry(session: SignalSession, reg: Map<Seq<char>, Seq<char>>) -> Map<
    Seq<char>,
    Seq<char>,
> {
    match session.device_id {
        Some(id) => reg.remove(id@),
        None => reg,
    }
}

/// The effects of a connection's cleanup.
pub open spec fn finish_effects(session: SignalSession) -> Seq<SignalEffect> {
    match session.device_id {
        Some(id) => seq![SignalEffect::CloseChannel { device_id: id, cause: CloseCause::Disconnected }],
        None => Seq::empty(),
    }
}

impl SignalSession {
    /// A fresh connection, with no device registered on it.
    pub fn new() -> (r: Self)
        ensures
            r.device_id is None,
    {
        SignalSession { device_id: None }
    }

    /// Handles one thing the socket delivered.
    pub fn step(&mut self, registry: &mut DeviceRegistry, inbound: Inbound) -> (r: StepOutcome)
        ensures
            *final(self) == step_session(*old(self), inbound),
            final(registry)@ == step_registry(*old(self), old(registry)@, inbound),
            r.effects@ == step_effects(*old(self), old(registry)@, inbound),
            r.keep_open == step_keeps_open(inbound),
    {
        let mut effects: Vec<SignalEffect> = Vec::new();
        match inbound {
            Inbound::Envelope(env) => {
                let keep_open = match &env.payload {
                    SignalMessage::Register { device_id, device_name } => {
                        self.device_id = Some(device_id.0.clone());
                        registry.register(device_id.0.clone(), device_name.clone());
                        effects.push(SignalEffect::OpenChannel { device_id: device_id.0.clone() });
                        effects.push(
                            SignalEffect::Reply(
                                ServerReply::Registered { device_id: device_id.0.clone() },
                            ),
                        );
                        true
                    },
                    SignalMessage::Unregister { device_id } => {
                        registry.unregister(&device_id.0);
                        effects.push(
                            SignalEffect::CloseChannel {
                                device_id: device_id.0.clone(),
                                cause: CloseCause::Unregistered,
                            },
                        );
                        false
                    },
                    SignalMessage::PairRequest { to, .. } => {
                        let target = to.0.clone();
                        if registry.contains(&target) {
                            effects.push(SignalEffect::Forward { to: target, payload: env.payload });
                        } else {
                            effects.push(
                                SignalEffect::Reply(ServerReply::DeviceNotFound { device_id: target }),
                            );
                        }
                        true
                    },
                    SignalMessage::Offer { to, .. } | SignalMessage::Answer { to, .. }
                    | SignalMessage::IceCandidate { to, .. } => {
                        let target = to.0.clone();
                        if registry.contains(&target) {
                            effects.push(SignalEffect::Forward { to: target, payload: env.payload });
                        }
                        true
                    },
                };
                proof {
                    assert(effects@ =~= step_effects(*old(self), old(registry)@, Inbound::Envelope(env)));
                }
                StepOutcome { effects, keep_open }
            },
            Inbound::Malformed(error) => {
                effects.push(SignalEffect::Reply(ServerReply::Malformed { error }));
                StepOutcome { effects, keep_open: true }
            },
            Inbound::Close => {
                match &self.device_id {
                    Some(id) => {
                        registry.unregister(id);
                        effects.push(
                            SignalEffect::CloseChannel {
                                device_id: id.clone(),
                                cause: CloseCause::Disconnected,
                            },
                        );
                    },
                    None => {},
                }
                StepOutcome { effects, keep_open: false }
            },
            Inbound::Failure => StepOutcome { effects, keep_open: false },
            Inbound::Ignored => StepOutcome { effects, keep_open: true },
            Inbound::Relayed(text) => {
                if self.device_id.is_some() {
                    effects.push(SignalEffect::Relay(text));
                }
                StepOutcome { effects, keep_open: true }
            },
        }
    }

    /// Cleans up when the connection ends: forgets the connection's device
    /// and drops its registration.
    pub fn finish(&mut self, registry: &mut DeviceRegistry) -> (r: Vec<SignalEffect>)
        ensures
            final(self).device_id is None,
            final(registry)@ == finish_registry(*old(self), old(registry)@),
            r@ == finish_effects(*old(self)),
    {
        let mut effects: Vec<SignalEffect> = Vec::new();
        match self.device_id.take() {
            Some(id) => {
                registry.unregister(&id);
                effects.push(SignalEffect::CloseChannel { device_id: id, cause: CloseCause::Disconnected });
            },
            None => {},
        }
        effects
    }
}


/// Once a device has registered, a routed message (pairing request, offer,
/// answer or ICE candidate) addressed to it from any connection is forwarded
/// to it unchanged, and nothing else happens.
pub proof fn registered_device_is_reachable(
    registering: SignalSession,
    sender: SignalSession,
    reg: Map<Seq<char>, Seq<char>>,
    registration: SignalEnvelope,
    message: SignalEnvelope,
)
    requires
        registration.payload is Register,
        routed_target(message.payload) is Some,
        routed_target(message.payload)->0@ == registration.payload->Register_device_id@,
    ensures
        ({
            let reg2 = step_registry(registering, reg, Inbound::Envelope(registration));
            &&& step_effects(sender, reg2, Inbound::Envelope(message)) == seq![
                SignalEffect::Forward {
                    to: (routed_target(message.payload)->0).0,
                    payload: message.payload,
                },
            ]
            &&& step_registry(sender, reg2, Inbound::Envelope(message)) == reg2
            &&& step_session(sender, Inbound::Envelope(message)) == sender
            &&& step_keeps_open(Inbound::Envelope(message))
        }),
{
}

/// A pairing request to a device that is not registered (never was, or has
/// unregistered) is answered on the requester's socket with
/// `device_not_found` naming that device; offers, answers and ICE
/// candidates to it are dropped.
pub proof fn unknown_device_is_not_reached(
    session: SignalSession,
    reg: Map<Seq<char>, Seq<char>>,
    message: SignalEnvelope,
)
    requires
        routed_target(message.payload) is Some,
        !reg.contains_key(routed_target(message.payload)->0@),
    ensures
        step_effects(session, reg, Inbound::Envelope(message)) == if message.payload is PairRequest {
            seq![
                SignalEffect::Reply(
                    ServerReply::DeviceNotFound { device_id: (routed_target(message.payload)->0).0 },
                ),
            ]
        } else {
            Seq::<SignalEffect>::empty()
        },
        step_registry(session, reg, Inbound::Envelope(message)) == reg,
{
}

/// After a device unregisters, it is no longer registered, whatever other
/// devices remain.
pub proof fn unregistered_device_is_gone(
    session: SignalSession,
    reg: Map<Seq<char>, Seq<char>>,
    message: SignalEnvelope,
)
    requires
        message.payload is Unregister,
    ensures
        !step_registry(session, reg, Inbound::Envelope(message)).contains_key(
            message.payload->Unregister_device_id@,
        ),
        !step_keeps_open(Inbound::Envelope(message)),
{
}

/// Registering an identifier again replaces the name it was registered with
/// and leaves every other registration as it was.
pub proof fn registration_replaces(
    session: SignalSession,
    reg: Map<Seq<char>, Seq<char>>,
    message: SignalEnvelope,
)
    requires
        message.payload is Register,
    ensures
        ({
            let id = message.payload->Register_device_id@;
            let reg2 = step_registry(session, reg, Inbound::Envelope(message));
            &&& reg2.contains_key(id)
            &&& reg2[id] == message.payload->Register_device_name@
            &&& forall|k: Seq<char>| k != id ==> (#[trigger] reg2.contains_key(k) == reg.contains_key(k))
                && (reg.contains_key(k) ==> reg2[k] == reg[k])
            &&& step_session(session, Inbound::Envelope(message)).device_id == Some(
                message.payload->Register_device_id.0,
            )
        }),
{
}

/// When a connection ends (its device unregisters itself, it closes, or its
/// socket fails), the cleanup that follows leaves the device it registered
/// last no longer registered.
pub proof fn ended_connection_leaves_no_registration(
    session: SignalSession,
    reg: Map<Seq<char>, Seq<char>>,
    inbound: Inbound,
)
    requires
        !step_keeps_open(inbound),
        session.device_id is Some,
    ensures
        ({
            let s2 = step_session(session, inbound);
            let reg2 = step_registry(session, reg, inbound);
            !finish_registry(s2, reg2).contains_key(session.device_id->0@)
        }),
{
}

/// The only things that change the registry are registrations,
/// unregistrations and closes; everything else leaves it and the
/// connection state unchanged.
pub proof fn other_traffic_changes_nothing(
    session: SignalSession,
    reg: Map<Seq<char>, Seq<char>>,
    inbound: Inbound,
)
    requires
        !(inbound is Close),
        !(inbound matches Inbound::Envelope(env) && (env.payload is Register
            || env.payload is Unregister)),
    ensures
        step_registry(session, reg, inbound) == reg,
        step_session(session, inbound) == session,
{
}

/// A message forwarded to a device reaches the socket of the connection on
/// which that device registered: what comes through the device's channel
/// is written to that socket unchanged, and nothing else happens.
pub proof fn forwarded_message_reaches_target(
    target: SignalSession,
    reg: Map<Seq<char>, Seq<char>>,
    text: String,
)
    requires
        target.device_id is Some,
    ensures
        step_effects(target, reg, Inbound::Relayed(text)) == seq![SignalEffect::Relay(text)],
        step_registry(target, reg, Inbound::Relayed(text)) == reg,
        step_session(target, Inbound::Relayed(text)) == target,
        step_keeps_open(Inbound::Relayed(text)),
{
}

/// Whether a message registers or unregisters the device `k`.
pub open spec fn names_device(inbound: Inbound, k: Seq<char>) -> bool {
    match inbound {
        Inbound::Envelope(env) => match env.payload {
            SignalMessage::Register { device_id, .. } => device_id@ == k,
            SignalMessage::Unregister { device_id } => device_id@ == k,
            _ => false,
        },
        _ => false,
    }
}

/// The connection state after a run of steps.
pub open spec fn run_session(session: SignalSession, ins: Seq<Inbound>) -> SignalSession
    decreases ins.len(),
{
    if ins.len() == 0 {
        session
    } else {
        run_session(step_session(session, ins[0]), ins.drop_first())
    }
}

/// The registry after a run of steps of one connection.
pub open spec fn run_registry(
    session: SignalSession,
    reg: Map<Seq<char>, Seq<char>>,
    ins: Seq<Inbound>,
) -> Map<Seq<char>, Seq<char>>
    decreases ins.len(),
{
    if ins.len() == 0 {
        reg
    } else {
        run_registry(
            step_session(session, ins[0]),
            step_registry(session, reg, ins[0]),
            ins.drop_first(),
        )
    }
}

/// A connection changes only the registrations it names: over any run of
/// steps, and through the cleanup that ends it, a device that none of its
/// messages registers or unregisters, and that it had not registered before,
/// keeps its registration (or its absence) exactly.
pub proof fn connection_touches_only_named_devices(
    session: SignalSession,
    reg: Map<Seq<char>, Seq<char>>,
    ins: Seq<Inbound>,
    k: Seq<char>,
)
    requires
        forall|j: int| 0 <= j < ins.len() ==> !names_device(#[trigger] ins[j], k),
        !(session.device_id matches Some(id) && id@ == k),
    ensures
        run_registry(session, reg, ins).contains_key(k) == reg.contains_key(k),
        reg.contains_key(k) ==> run_registry(session, reg, ins)[k] == reg[k],
        !(run_session(session, ins).device_id matches Some(id) && id@ == k),
        finish_registry(run_session(session, ins), run_registry(session, reg, ins)).contains_key(k)
            == reg.contains_key(k),
        reg.contains_key(k) ==> finish_registry(
            run_session(session, ins),
            run_registry(session, reg, ins),
        )[k] == reg[k],
    decreases ins.len(),
{
    if ins.len() > 0 {
        let i0 = ins[0];
        assert(!names_device(i0, k));
        let s2 = step_session(session, i0);
        let r2 = step_registry(session, reg, i0);
        assert(r2.contains_key(k) == reg.contains_key(k));
        assert(reg.contains_key(k) ==> r2[k] == reg[k]);
        assert(!(s2.device_id matches Some(id) && id@ == k));
        let rest = ins.drop_first();
        assert forall|j: int| 0 <= j < rest.len() implies !names_device(#[trigger] rest[j], k) by {
            assert(rest[j] == ins[j + 1]);
        }
        connection_touches_only_named_devices(s2, r2, rest, k);
    }
}

/// Every registration opens a fresh channel for the device and then replies
/// `registered`, whether or not the identifier was registered before (a
/// fresh channel replaces any earlier one, so forwarded messages reach the
/// connection that registered last); the connection stays open.
pub proof fn registration_always_opens_channel(
    session: SignalSession,
    reg: Map<Seq<char>, Seq<char>>,
    message: SignalEnvelope,
)
    requires
        message.payload is Register,
    ensures
        ({
            let id = message.payload->Register_device_id.0;
            let effects = step_effects(session, reg, Inbound::Envelope(message));
            &&& effects.len() == 2
            &&& effects[0] == SignalEffect::OpenChannel { device_id: id }
            &&& effects[1] == SignalEffect::Reply(ServerReply::Registered { device_id: id })
            &&& effects == step_effects(session, Map::empty(), Inbound::Envelope(message))
            &&& step_keeps_open(Inbound::Envelope(message))
        }),
{
}

/// A frame that does not parse is answered with the parser's description
/// and nothing else; the connection keeps reading, and neither the registry
/// nor the connection's device changes, whatever the description says.
pub proof fn malformed_frame_keeps_connection(
    session: SignalSession,
    reg: Map<Seq<char>, Seq<char>>,
    error: String,
)
    ensures
        step_keeps_open(Inbound::Malformed(error)),
        step_effects(session, reg, Inbound::Malformed(error)).len() == 1,
        step_effects(session, reg, Inbound::Malformed(error))[0] == SignalEffect::Reply(
            ServerReply::Malformed { error },
        ),
        step_registry(session, reg, Inbound::Malformed(error)) == reg,
        step_session(session, Inbound::Malformed(error)) == session,
{
}

} // verus!
