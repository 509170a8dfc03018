//! The transport between host and client, relayed over WebSocket by the
//! signaling server: the messages they exchange, how each side frames what
//! it sends and picks out what it receives, and each side's connection
//! state.
//!
//! The host sends encoded video frames and receives input events; the
//! client sends input events and receives video frames. The socket, the
//! channels and the serialization stay with the caller: a transport holds
//! the caller's outbound sender `S` and inbound receiver `R`.

use vstd::prelude::*;
use vstd::string::*;
use crate::config::{CodecType, codec_label, codec_of_label};
use crate::encode::EncodedFrame;
use crate::events::InputEvent;
use crate::identity::{SessionId, uuid_text};

verus! {

/// Errors during transport operations.
#[derive(Debug)]
pub enum TransportError {
    NotConnected,
    ConnectionFailed(String),
    ChannelError(String),
    SendFailed(String),
    ReceiveFailed(String),
    Disconnected(String),
    Timeout(String),
    Other(String),
}

/// Transport message types exchanged between host and client.
#[derive(Debug, Clone)]
pub enum TransportMsg {
    /// Encoded video frame from host to client.
    VideoFrame {
        data: Vec<u8>,
        codec: String,
        is_keyframe: bool,
        timestamp: u64,
        width: u32,
        height: u32,
    },
    /// Input event from client to host.
    Input { event: InputEvent },
    /// Connection control messages; `value` is the JSON text of the value.
    Control { action: String, value: Option<String> },
}

/// Which end of a session a transport is.
#[derive(Debug, Clone, Copy, PartialEq, Eq, Structural)]
pub enum PeerRole {
    /// The controlled machine (被控端).
    Host,
    /// The controlling machine (控制端).
    Client,
}

// ── Signaling URL ──────────────────────────────────────────────────────────

/// Whether `s` begins with `p`.
pub open spec fn has_prefix(s: Seq<char>, p: Seq<char>) -> bool {
    p.len() <= s.len() && s.subrange(0, p.len() as int) == p
}

/// The URL connected to: a `ws://` or `wss://` URL as given, anything else
/// taken as `host:port/path` of a plain `ws://` URL.
pub open spec fn signaling_url_of(url: Seq<char>) -> Seq<char> {
    if has_prefix(url, "ws://"@) || has_prefix(url, "wss://"@) {
        url
    } else {
        "ws://"@ + url
    }
}

/// Whether the text `s` begins with the text `p`.
fn text_starts_with(s: &str, p: &str) -> (r: bool)
    ensures
        r == has_prefix(s@, p@),
{
    let n = p.unicode_len();
    let m = s.unicode_len();
    if n > m {
        return false;
    }
    let mut i: usize = 0;
    while i < n
        invariant
            n == p@.len(),
            m == s@.len(),
            n <= m,
            i <= n,
            forall|j: int| 0 <= j < i ==> s@[j] == p@[j],
        decreases n - i,
    {
        if s.get_char(i) != p.get_char(i) {
            proof {
                assert(s@.subrange(0, n as int)[i as int] != p@[i as int]);
            }
            return false;
        }
        i = i + 1;
    }
    proof {
        assert(s@.subrange(0, n as int) =~= p@);
    }
    true
}

/// The WebSocket URL of the signaling server for the address given.
pub fn signaling_url(url: &str) -> (r: String)
    ensures
        r@ == signaling_url_of(url@),
{
    if text_starts_with(url, "ws://") || text_starts_with(url, "wss://") {
        url.to_owned()
    } else {
        let mut r = String::from_str("ws://");
        r.append(url);
        r
    }
}

/// Normalizing a signaling URL twice gives what normalizing once gives.
pub proof fn signaling_url_is_idempotent(url: Seq<char>)
    ensures
        signaling_url_of(signaling_url_of(url)) == signaling_url_of(url),
{
    let w = "ws://"@;
    if !(has_prefix(url, w) || has_prefix(url, "wss://"@)) {
        assert((w + url).subrange(0, w.len() as int) =~= w);
    }
}

/// A URL that begins with neither `ws://` nor `wss://` is taken as the
/// address of a plain WebSocket server: the result is `ws://` followed by
/// the URL exactly. A URL that begins with either is kept exactly.
pub proof fn signaling_url_adds_plain_scheme(url: Seq<char>)
    ensures
        !(url.len() >= 5 && url.subrange(0, 5) == seq!['w', 's', ':', '/', '/'])
            && !(url.len() >= 6 && url.subrange(0, 6) == seq!['w', 's', 's', ':', '/', '/'])
            ==> signaling_url_of(url) == seq!['w', 's', ':', '/', '/'] + url,
        (url.len() >= 5 && url.subrange(0, 5) == seq!['w', 's', ':', '/', '/']) || (url.len()
            >= 6 && url.subrange(0, 6) == seq!['w', 's', 's', ':', '/', '/'])
            ==> signaling_url_of(url) == url,
{
    reveal_strlit("ws://");
    reveal_strlit("wss://");
    assert("ws://"@ =~= seq!['w', 's', ':', '/', '/']);
    assert("wss://"@ =~= seq!['w', 's', 's', ':', '/', '/']);
}

// ── Framing ─────────────────────────────────────────────────────────────────

/// The control action with which each side announces itself.
pub open spec fn register_action(role: PeerRole) -> Seq<char> {
    match role {
        PeerRole::Host => "register_host"@,
        PeerRole::Client => "register_client"@,
    }
}

/// The JSON text `{"session_id":"<session id>"}` of a registration.
pub open spec fn registration_value(session: u128) -> Seq<char> {
    "{\"session_id\":\""@ + uuid_text(session) + "\"}"@
}

/// The message a side sends first, announcing its role in the session.
pub fn registration_message(role: PeerRole, session_id: &SessionId) -> (r: TransportMsg)
    ensures
        r matches TransportMsg::Control { action, value } && action@ == register_action(role)
            && (value matches Some(v) && v@ == registration_value(session_id.0)),
{
    let action = match role {
        PeerRole::Host => String::from_str("register_host"),
        PeerRole::Client => String::from_str("register_client"),
    };
    let id = session_id.to_string();
    let mut value = String::from_str("{\"session_id\":\"");
    value.append(id.as_str());
    value.append("\"}");
    TransportMsg::Control { action, value: Some(value) }
}

/// The registration's value is the JSON object with the single key
/// `session_id`, whose value is the session identifier's hyphenated text:
/// the 15 characters `{"session_id":"`, the 36 characters of the
/// identifier, then `"}`. Different sessions register with different
/// values, so the value names the session.
pub proof fn registration_value_names_session(session: u128, other: u128)
    ensures
        registration_value(session).len() == 53,
        registration_value(session).subrange(0, 15) == seq![
            '{', '"', 's', 'e', 's', 's', 'i', 'o', 'n', '_', 'i', 'd', '"', ':', '"',
        ],
        registration_value(session).subrange(15, 51) == uuid_text(session),
        registration_value(session).subrange(51, 53) == seq!['"', '}'],
        registration_value(session) == registration_value(other) ==> session == other,
{
    reveal_strlit("{\"session_id\":\"");
    reveal_strlit("\"}");
    let head = "{\"session_id\":\""@;
    let tail = "\"}"@;
    assert(head =~= seq!['{', '"', 's', 'e', 's', 's', 'i', 'o', 'n', '_', 'i', 'd', '"', ':', '"']);
    assert(tail =~= seq!['"', '}']);
    let v = registration_value(session);
    assert(v =~= head + uuid_text(session) + tail);
    assert(v.subrange(0, 15) =~= head);
    assert(v.subrange(15, 51) =~= uuid_text(session));
    assert(v.subrange(51, 53) =~= tail);
    if v == registration_value(other) {
        let w = registration_value(other);
        assert(w =~= head + uuid_text(other) + tail);
        assert(w.subrange(15, 51) =~= uuid_text(other));
        crate::identity::session_text_identifies_session(session, other);
    }
}

/// The host announces itself with the action `register_host` and the client
/// with `register_client`; the two differ, so the server can tell them apart.
pub proof fn registration_actions_name_roles()
    ensures
        register_action(PeerRole::Host) == seq![
            'r', 'e', 'g', 'i', 's', 't', 'e', 'r', '_', 'h', 'o', 's', 't',
        ],
        register_action(PeerRole::Client) == seq![
            'r', 'e', 'g', 'i', 's', 't', 'e', 'r', '_', 'c', 'l', 'i', 'e', 'n', 't',
        ],
        register_action(PeerRole::Host) != register_action(PeerRole::Client),
{
    reveal_strlit("register_host");
    reveal_strlit("register_client");
    assert("register_host"@ =~= seq!['r', 'e', 'g', 'i', 's', 't', 'e', 'r', '_', 'h', 'o', 's', 't']);
    assert("register_client"@ =~= seq![
        'r', 'e', 'g', 'i', 's', 't', 'e', 'r', '_', 'c', 'l', 'i', 'e', 'n', 't',
    ]);
}

/// `m` is the message that carries `frame` to the client: its bytes, the
/// name of its codec, its keyframe flag and timestamp, with width and
/// height 0.
pub open spec fn is_video_frame_message(frame: EncodedFrame, m: TransportMsg) -> bool {
    m matches TransportMsg::VideoFrame { data, codec, is_keyframe, timestamp, width, height }
        && data@ == frame.data@ && codec@ == codec_label(frame.codec) && is_keyframe == frame.is_keyframe
        && timestamp == frame.timestamp && width == 0 && height == 0
}

/// The message that carries an encoded frame from host to client.
pub fn video_frame_message(frame: &EncodedFrame) -> (r: TransportMsg)
    ensures
        is_video_frame_message(*frame, r),
{
    let data = frame.data.clone();
    proof {
        assert(data@ =~= frame.data@);
    }
    TransportMsg::VideoFrame {
        data,
        codec: frame.codec.label(),
        is_keyframe: frame.is_keyframe,
        timestamp: frame.timestamp,
        width: 0,
        height: 0,
    }
}

/// The message that carries an input event from client to host.
pub fn input_message(event: InputEvent) -> (r: TransportMsg)
    ensures
        r == (TransportMsg::Input { event }),
{
    TransportMsg::Input { event }
}

// ── Reading ─────────────────────────────────────────────────────────────────

/// What a side's WebSocket delivered.
#[derive(Debug)]
pub enum WireInbound {
    /// A text frame holding a transport message.
    Message(TransportMsg),
    /// A text frame that is not a transport message.
    Unparsable,
    /// The peer closed the socket.
    Close,
    /// The socket failed.
    Failure,
    /// Any other frame.
    Other,
}

/// What a side's reader does with what the socket delivered.
#[derive(Debug)]
pub enum ReaderStep<T> {
    /// Hand this to the side's inbound channel.
    Deliver(T),
    /// Nothing for this side: read on.
    Skip,
    /// Stop reading.
    Stop,
}

/// The host's reader: input events are delivered, every other message and
/// frame is passed over, and the reader stops when the socket closes or
/// fails.
pub open spec fn host_read(inbound: WireInbound) -> ReaderStep<InputEvent> {
    match inbound {
        WireInbound::Message(TransportMsg::Input { event }) => ReaderStep::Deliver(event),
        WireInbound::Close | WireInbound::Failure => ReaderStep::Stop,
        _ => ReaderStep::Skip,
    }
}

/// The client's reader: video frames are delivered with their bytes, the
/// codec their name stands for, their keyframe flag and timestamp; every
/// other message and frame is passed over, and the reader stops when the
/// socket closes or fails.
pub open spec fn client_read(inbound: WireInbound) -> ReaderStep<EncodedFrame> {
    match inbound {
        WireInbound::Message(
            TransportMsg::VideoFrame { data, codec, is_keyframe, timestamp, .. },
        ) => ReaderStep::Deliver(
            EncodedFrame { data, codec: codec_of_label(codec@), is_keyframe, timestamp },
        ),
        WireInbound::Close | WireInbound::Failure => ReaderStep::Stop,
        _ => ReaderStep::Skip,
    }
}

/// One step of the host's reader.
pub fn host_reader_step(inbound: WireInbound) -> (r: ReaderStep<InputEvent>)
    ensures
        r == host_read(inbound),
{
    match inbound {
        WireInbound::Message(TransportMsg::Input { event }) => ReaderStep::Deliver(event),
        WireInbound::Close | WireInbound::Failure => ReaderStep::Stop,
        _ => ReaderStep::Skip,
    }
}

/// One step of the client's reader.
pub fn client_reader_step(inbound: WireInbound) -> (r: ReaderStep<EncodedFrame>)
    ensures
        r == client_read(inbound),
{
    match inbound {
        WireInbound::Message(TransportMsg::VideoFrame { data, codec, is_keyframe, timestamp, .. }) => {
            let codec = CodecType::from_label(&codec);
            ReaderStep::Deliver(EncodedFrame { data, codec, is_keyframe, timestamp })
        },
        WireInbound::Close | WireInbound::Failure => ReaderStep::Stop,
        _ => ReaderStep::Skip,
    }
}

/// A frame the host sends reaches the client with the same bytes, codec,
/// keyframe flag and timestamp.
pub proof fn video_frames_arrive_intact(frame: EncodedFrame, m: TransportMsg)
    requires
        is_video_frame_message(frame, m),
    ensures
        client_read(WireInbound::Message(m)) matches ReaderStep::Deliver(g) && g.data@ == frame.data@
            && g.codec == frame.codec && g.is_keyframe == frame.is_keyframe && g.timestamp
            == frame.timestamp,
{
    crate::config::codec_label_round_trips(frame.codec);
}

/// An input event the client sends reaches the host unchanged.
pub proof fn input_events_arrive_intact(event: InputEvent)
    ensures
        host_read(WireInbound::Message(TransportMsg::Input { event })) == ReaderStep::Deliver(event),
{
}

/// How many frames come before the socket first closes or fails (all of
/// them if it does not).
pub open spec fn stop_index(ws: Seq<WireInbound>) -> nat
    decreases ws.len(),
{
    if ws.len() == 0 {
        0
    } else if ws[0] is Close || ws[0] is Failure {
        0
    } else {
        1 + stop_index(ws.drop_first())
    }
}

/// What the host's reader hands to its channel, in order, over the frames
/// the socket delivers: it reads frame after frame until it stops.
pub open spec fn host_reader_run(ws: Seq<WireInbound>) -> Seq<InputEvent>
    decreases ws.len(),
{
    if ws.len() == 0 {
        Seq::empty()
    } else {
        match host_read(ws[0]) {
            ReaderStep::Deliver(e) => seq![e] + host_reader_run(ws.drop_first()),
            ReaderStep::Skip => host_reader_run(ws.drop_first()),
            ReaderStep::Stop => Seq::empty(),
        }
    }
}

/// What the client's reader hands to its channel, in order, over the
/// frames the socket delivers.
pub open spec fn client_reader_run(ws: Seq<WireInbound>) -> Seq<EncodedFrame>
    decreases ws.len(),
{
    if ws.len() == 0 {
        Seq::empty()
    } else {
        match client_read(ws[0]) {
            ReaderStep::Deliver(f) => seq![f] + client_reader_run(ws.drop_first()),
            ReaderStep::Skip => client_reader_run(ws.drop_first()),
            ReaderStep::Stop => Seq::empty(),
        }
    }
}

/// The input events that a run of frames carries, in order.
pub open spec fn carried_inputs(ws: Seq<WireInbound>) -> Seq<InputEvent>
    decreases ws.len(),
{
    if ws.len() == 0 {
        Seq::empty()
    } else {
        match ws[0] {
            WireInbound::Message(TransportMsg::Input { event }) => seq![event] + carried_inputs(
                ws.drop_first(),
            ),
            _ => carried_inputs(ws.drop_first()),
        }
    }
}

/// The video frames that a run of frames carries, in order, each with the
/// codec its name stands for.
pub open spec fn carried_frames(ws: Seq<WireInbound>) -> Seq<EncodedFrame>
    decreases ws.len(),
{
    if ws.len() == 0 {
        Seq::empty()
    } else {
        match ws[0] {
            WireInbound::Message(TransportMsg::VideoFrame { data, codec, is_keyframe, timestamp, .. }) => seq![
                EncodedFrame { data, codec: codec_of_label(codec@), is_keyframe, timestamp },
            ] + carried_frames(ws.drop_first()),
            _ => carried_frames(ws.drop_first()),
        }
    }
}

/// Cutting the frames at the first close or failure commutes with
/// dropping a first frame that is neither.
proof fn lemma_stop_prefix(ws: Seq<WireInbound>)
    requires
        ws.len() > 0,
        !(ws[0] is Close || ws[0] is Failure),
    ensures
        stop_index(ws) <= ws.len(),
        stop_index(ws) == 1 + stop_index(ws.drop_first()),
        ws.take(stop_index(ws) as int).len() > 0,
        ws.take(stop_index(ws) as int)[0] == ws[0],
        ws.take(stop_index(ws) as int).drop_first() == ws.drop_first().take(
            stop_index(ws.drop_first()) as int,
        ),
{
    lemma_stop_index_bound(ws.drop_first());
    assert(ws.take(stop_index(ws) as int).drop_first() =~= ws.drop_first().take(
        stop_index(ws.drop_first()) as int,
    ));
}

proof fn lemma_stop_index_bound(ws: Seq<WireInbound>)
    ensures
        stop_index(ws) <= ws.len(),
    decreases ws.len(),
{
    if ws.len() > 0 && !(ws[0] is Close || ws[0] is Failure) {
        lemma_stop_index_bound(ws.drop_first());
    }
}

/// The host's reader hands on exactly the input events that arrive before
/// the socket closes or fails, in the order they arrive; everything else is
/// passed over, and nothing after a close or failure is read.
pub proof fn host_delivers_inputs_in_order(ws: Seq<WireInbound>)
    ensures
        host_reader_run(ws) == carried_inputs(ws.take(stop_index(ws) as int)),
    decreases ws.len(),
{
    if ws.len() == 0 {
        assert(ws.take(0) =~= Seq::<WireInbound>::empty());
    } else if ws[0] is Close || ws[0] is Failure {
        assert(ws.take(0) =~= Seq::<WireInbound>::empty());
    } else {
        lemma_stop_prefix(ws);
        host_delivers_inputs_in_order(ws.drop_first());
    }
}

/// The client's reader hands on exactly the video frames that arrive before
/// the socket closes or fails, in the order they arrive, each with its own
/// bytes, codec, keyframe flag and timestamp.
pub proof fn client_delivers_frames_in_order(ws: Seq<WireInbound>)
    ensures
        client_reader_run(ws) == carried_frames(ws.take(stop_index(ws) as int)),
    decreases ws.len(),
{
    if ws.len() == 0 {
        assert(ws.take(0) =~= Seq::<WireInbound>::empty());
    } else if ws[0] is Close || ws[0] is Failure {
        assert(ws.take(0) =~= Seq::<WireInbound>::empty());
    } else {
        lemma_stop_prefix(ws);
        client_delivers_frames_in_order(ws.drop_first());
    }
}

/// Each side takes only what is meant for it: the host passes over video
/// frames, the client passes over input events, and neither delivers a
/// control message such as the other side's registration.
pub proof fn each_side_takes_its_own(m: TransportMsg)
    ensures
        m is VideoFrame ==> host_read(WireInbound::Message(m)) is Skip,
        m is Input ==> client_read(WireInbound::Message(m)) is Skip,
        m is Control ==> host_read(WireInbound::Message(m)) is Skip && client_read(
            WireInbound::Message(m),
        ) is Skip,
{
}

// ── Host ────────────────────────────────────────────────────────────────────

/// Transport for the host (被控端): sends video frames, receives input
/// events. `S` sends text to the socket; `R` yields received input events.
pub struct HostTransport<S, R> {
    ws_sender: Option<S>,
    input_rx: Option<R>,
    connected: bool,
}

impl<S, R> HostTransport<S, R> {
    /// The outbound sender, while connected.
    pub closed spec fn sender(&self) -> Option<S> {
        self.ws_sender
    }

    /// The inbound receiver of input events, while connected.
    pub closed spec fn receiver(&self) -> Option<R> {
        self.input_rx
    }

    /// Whether `connect` succeeded and `disconnect` was not called since.
    pub closed spec fn spec_connected(&self) -> bool {
        self.connected
    }

    /// A transport that is not connected.
    pub fn new() -> (r: Self)
        ensures
            r.sender() is None,
            r.receiver() is None,
            !r.spec_connected(),
    {
        HostTransport { ws_sender: None, input_rx: None, connected: false }
    }

    /// Completes a connection: from now on frames go to `sender` and input
    /// events come from `input_rx`.
    pub fn attach(&mut self, sender: S, input_rx: R)
        ensures
            final(self).sender() == Some(sender),
            final(self).receiver() == Some(input_rx),
            final(self).spec_connected(),
    {
        self.ws_sender = Some(sender);
        self.input_rx = Some(input_rx);
        self.connected = true;
    }

    /// Whether the transport is connected.
    pub fn is_connected(&self) -> (r: bool)
        ensures
            r == self.spec_connected(),
    {
        self.connected
    }

    /// Where and what to send for a video frame: the outbound sender and the
    /// frame's message, or `NotConnected`.
    pub fn video_frame_outbound(&self, frame: &EncodedFrame) -> (r: Result<(&S, TransportMsg), TransportError>)
        ensures
            match r {
                Ok((s, m)) => self.sender() == Some(*s) && is_video_frame_message(*frame, m),
                Err(e) => e is NotConnected && self.sender() is None,
            },
    {
        match &self.ws_sender {
            Some(s) => Ok((s, video_frame_message(frame))),
            None => Err(TransportError::NotConnected),
        }
    }

    /// The receiver input events are awaited on, or `NotConnected`.
    pub fn input_receiver(&mut self) -> (r: Result<&mut R, TransportError>)
        ensures
            match old(self).receiver() {
                None => r matches Err(e) && e is NotConnected && *final(self) == *old(self),
                Some(rx) => r is Ok && *r->Ok_0 == rx && final(self).receiver() == Some(
                    *final(r->Ok_0),
                ) && final(self).sender() == old(self).sender() && final(self).spec_connected()
                    == old(self).spec_connected(),
            },
    {
        match self.input_rx.as_mut() {
            Some(rx) => Ok(rx),
            None => Err(TransportError::NotConnected),
        }
    }

    /// What awaiting an input event gives: the event, or `Disconnected` once
    /// the channel is closed.
    pub fn input_received(received: Option<InputEvent>) -> (r: Result<InputEvent, TransportError>)
        ensures
            match received {
                Some(e) => r == Ok::<InputEvent, TransportError>(e),
                None => r matches Err(TransportError::Disconnected(m)) && m@
                    == "input channel closed"@,
            },
    {
        match received {
            Some(e) => Ok(e),
            None => Err(TransportError::Disconnected(String::from_str("input channel closed"))),
        }
    }

    /// The host sends no input events: this does nothing and succeeds.
    pub fn send_input_event(&mut self, event: InputEvent) -> (r: Result<(), TransportError>)
        ensures
            r is Ok,
            *final(self) == *old(self),
    {
        Ok(())
    }

    /// The host receives no video frames: this always fails.
    pub fn receive_video_frame(&mut self) -> (r: Result<EncodedFrame, TransportError>)
        ensures
            r matches Err(TransportError::ChannelError(m)) && m@
                == "Host doesn't receive video frames"@,
            *final(self) == *old(self),
    {
        Err(TransportError::ChannelError(String::from_str("Host doesn't receive video frames")))
    }

    /// Drops the sender and receiver; the transport is no longer connected.
    pub fn disconnect(&mut self) -> (r: Result<(), TransportError>)
        ensures
            r is Ok,
            final(self).sender() is None,
            final(self).receiver() is None,
            !final(self).spec_connected(),
    {
        self.ws_sender = None;
        self.input_rx = None;
        self.connected = false;
        Ok(())
    }
}

impl<S, R> Default for HostTransport<S, R> {
    fn default() -> (r: Self)
        ensures
            r.sender() is None,
            r.receiver() is None,
            !r.spec_connected(),
    {
        HostTransport::new()
    }
}

// ── Client ──────────────────────────────────────────────────────────────────

/// Transport for the client (控制端): sends input events, receives video
/// frames. `S` sends text to the socket; `R` yields received frames.
pub struct ClientTransport<S, R> {
    ws_sender: Option<S>,
    video_rx: Option<R>,
    connected: bool,
}

impl<S, R> ClientTransport<S, R> {
    /// The outbound sender, while connected.
    pub closed spec fn sender(&self) -> Option<S> {
        self.ws_sender
    }

    /// The inbound receiver of video frames, while connected.
    pub closed spec fn receiver(&self) -> Option<R> {
        self.video_rx
    }

    /// Whether `connect` succeeded and `disconnect` was not called since.
    pub closed spec fn spec_connected(&self) -> bool {
        self.connected
    }

    /// A transport that is not connected.
    pub fn new() -> (r: Self)
        ensures
            r.sender() is None,
            r.receiver() is None,
            !r.spec_connected(),
    {
        ClientTransport { ws_sender: None, video_rx: None, connected: false }
    }

    /// Completes a connection: from now on input events go to `sender` and
    /// frames come from `video_rx`.
    pub fn attach(&mut self, sender: S, video_rx: R)
        ensures
            final(self).sender() == Some(sender),
            final(self).receiver() == Some(video_rx),
            final(self).spec_connected(),
    {
        self.ws_sender = Some(sender);
        self.video_rx = Some(video_rx);
        self.connected = true;
    }

    /// Whether the transport is connected.
    pub fn is_connected(&self) -> (r: bool)
        ensures
            r == self.spec_connected(),
    {
        self.connected
    }

    /// The client sends no video frames: this does nothing and succeeds.
    pub fn send_video_frame(&mut self, frame: &EncodedFrame) -> (r: Result<(), TransportError>)
        ensures
            r is Ok,
            *final(self) == *old(self),
    {
        Ok(())
    }

    /// The client receives no input events: this always fails.
    pub fn receive_input_event(&mut self) -> (r: Result<InputEvent, TransportError>)
        ensures
            r matches Err(TransportError::ChannelError(m)) && m@
                == "Client doesn't receive input events"@,
            *final(self) == *old(self),
    {
        Err(TransportError::ChannelError(String::from_str("Client doesn't receive input events")))
    }

    /// Where and what to send for an input event: the outbound sender and
    /// the event's message, or `NotConnected`.
    pub fn input_event_outbound(&self, event: InputEvent) -> (r: Result<(&S, TransportMsg), TransportError>)
        ensures
            match r {
                Ok((s, m)) => self.sender() == Some(*s) && m == (TransportMsg::Input { event }),
                Err(e) => e is NotConnected && self.sender() is None,
            },
    {
        match &self.ws_sender {
            Some(s) => Ok((s, input_message(event))),
            None => Err(TransportError::NotConnected),
        }
    }

    /// The receiver video frames are awaited on, or `NotConnected`.
    pub fn video_receiver(&mut self) -> (r: Result<&mut R, TransportError>)
        ensures
            match old(self).receiver() {
                None => r matches Err(e) && e is NotConnected && *final(self) == *old(self),
                Some(rx) => r is Ok && *r->Ok_0 == rx && final(self).receiver() == Some(
                    *final(r->Ok_0),
                ) && final(self).sender() == old(self).sender() && final(self).spec_connected()
                    == old(self).spec_connected(),
            },
    {
        match self.video_rx.as_mut() {
            Some(rx) => Ok(rx),
            None => Err(TransportError::NotConnected),
        }
    }

    /// What awaiting a frame gives: the frame, or `Disconnected` once the
    /// channel is closed.
    pub fn frame_received(received: Option<EncodedFrame>) -> (r: Result<EncodedFrame, TransportError>)
        ensures
            match received {
                Some(f) => r == Ok::<EncodedFrame, TransportError>(f),
                None => r matches Err(TransportError::Disconnected(m)) && m@
                    == "video channel closed"@,
            },
    {
        match received {
            Some(f) => Ok(f),
            None => Err(TransportError::Disconnected(String::from_str("video channel closed"))),
        }
    }

    /// Drops the sender and receiver; the transport is no longer connected.
    pub fn disconnect(&mut self) -> (r: Result<(), TransportError>)
        ensures
            r is Ok,
            final(self).sender() is None,
            final(self).receiver() is None,
            !final(self).spec_connected(),
    {
        self.ws_sender = None;
        self.video_rx = None;
        self.connected = false;
        Ok(())
    }
}

impl<S, R> Default for ClientTransport<S, R> {
    fn default() -> (r: Self)
        ensures
            r.sender() is None,
            r.receiver() is None,
            !r.spec_connected(),
    {
        ClientTransport::new()
    }
}

} // verus!
