//! The decisions of the WebSocket proxy that stands between Nostr clients
//! and the backend relay: which client messages go on to the backend, which
//! are answered with a refusal, and which authenticate the connection
//! (NIP-42). The sockets themselves are driven outside this library.

use vstd::prelude::*;
use crate::auth_policy::{listed, AuthPolicy};
use crate::decimal::{decimal, u64_to_decimal};
use crate::json::{
    encode_json_array, json_array_text, json_as_str, json_as_u64, json_index, json_key, json_parse,
    opt_deref, parse_json, item_views, FrameItem, FrameItemView, JsonValue,
};
use crate::text::str_equal;

verus! {

/// Kind of the NIP-42 authentication event.
pub const KIND_CLIENT_AUTH: u64 = 22242;

/// The pubkeys that have authenticated on one client connection.
pub struct ProxySession {
    authenticated: Vec<String>,
}

impl View for ProxySession {
    type V = Set<Seq<char>>;

    closed spec fn view(&self) -> Set<Seq<char>> {
        Set::new(|pk: Seq<char>| listed(self.authenticated@, pk))
    }
}

impl ProxySession {
    /// A connection on which nobody has authenticated yet.
    pub fn new() -> (s: ProxySession)
        ensures
            s@ == Set::<Seq<char>>::empty(),
    {
        let s = ProxySession { authenticated: Vec::new() };
        assert(s@ =~= Set::<Seq<char>>::empty());
        s
    }

    /// Whether `pubkey` has authenticated on this connection.
    pub fn contains(&self, pubkey: &str) -> (r: bool)
        ensures
            r == self@.contains(pubkey@),
    {
        crate::auth_policy::contains_pubkey(&self.authenticated, pubkey)
    }

    /// Whether nobody has authenticated on this connection.
    pub fn is_empty(&self) -> (r: bool)
        ensures
            r == (self@ == Set::<Seq<char>>::empty()),
    {
        let r = self.authenticated.len() == 0;
        proof {
            if r {
                assert(self@ =~= Set::<Seq<char>>::empty());
            } else {
                assert(self@.contains(self.authenticated@[0]@));
            }
        }
        r
    }

    /// Records that `pubkey` has authenticated.
    pub fn insert(&mut self, pubkey: String)
        ensures
            final(self)@ == old(self)@.insert(pubkey@),
    {
        let present = crate::auth_policy::contains_pubkey(&self.authenticated, pubkey.as_str());
        let ghost before = self.authenticated@;
        if !present {
            self.authenticated.push(pubkey);
            proof {
                assert forall|pk: Seq<char>| listed(self.authenticated@, pk) <==> (listed(before, pk) || pk == pubkey@) by {
                    if listed(self.authenticated@, pk) {
                        let k: int = choose|k: int| 0 <= k < self.authenticated@.len() && #[trigger] self.authenticated@[k]@ == pk;
                        if k < before.len() {
                            assert(before[k]@ == pk);
                        }
                    }
                    if listed(before, pk) {
                        let k: int = choose|k: int| 0 <= k < before.len() && #[trigger] before[k]@ == pk;
                        assert(self.authenticated@[k]@ == pk);
                    }
                    if pk == pubkey@ {
                        assert(self.authenticated@[before.len() as int]@ == pk);
                    }
                }
            }
        }
        assert(self@ =~= old(self)@.insert(pubkey@));
    }
}

/// What the proxy does with a JSON message from a client.
pub enum ClientVerdict {
    /// Pass the message on to the backend unchanged.
    Forward,
    /// Send this frame back to the client and drop the message.
    Refuse(String),
    /// The message authenticated this pubkey: record it and pass the message on.
    ForwardAuthenticated(String),
}

/// The mathematical content of a `ClientVerdict`.
pub enum VerdictView {
    Forward,
    Refuse(Seq<char>),
    ForwardAuthenticated(Seq<char>),
}

impl View for ClientVerdict {
    type V = VerdictView;

    open spec fn view(&self) -> VerdictView {
        match self {
            ClientVerdict::Forward => VerdictView::Forward,
            ClientVerdict::Refuse(f) => VerdictView::Refuse(f@),
            ClientVerdict::ForwardAuthenticated(pk) => VerdictView::ForwardAuthenticated(pk@),
        }
    }
}

/// A frame that arrives from the client's socket.
pub enum ClientFrame {
    Text(String),
    Close,
    Failed,
    Other,
}

/// What the proxy does with a frame from the client's socket.
pub enum ClientAction {
    /// A text frame, handled as the verdict says.
    Deliver(ClientVerdict),
    /// Tell the backend the connection closes, then stop.
    CloseBackend,
    /// Stop relaying in this direction.
    Stop,
    /// Do nothing with the frame.
    Ignore,
}

/// A frame that arrives from the backend's socket.
pub enum BackendFrame {
    Text(String),
    Close,
    Failed,
    Other,
}

/// What the proxy does with a frame from the backend's socket.
pub enum BackendAction {
    /// Pass the text on to the client unchanged.
    PassToClient,
    /// Tell the client the connection closes, then stop.
    CloseClient,
    /// Stop relaying in this direction.
    Stop,
    /// Do nothing with the frame.
    Ignore,
}

/// The type of a message: its first element, when that is a string.
pub open spec fn message_type(msg: JsonValue) -> Option<Seq<char>> {
    match json_index(msg, 0) {
        Some(v) => json_as_str(v),
        None => None,
    }
}

/// The member `key` as an integer, or zero.
pub open spec fn field_u64(v: JsonValue, key: Seq<char>) -> u64 {
    match json_key(v, key) {
        Some(x) => match json_as_u64(x) {
            Some(n) => n,
            None => 0,
        },
        None => 0,
    }
}

/// The member `key` as a text, or the empty text.
pub open spec fn field_str(v: JsonValue, key: Seq<char>) -> Seq<char> {
    match json_key(v, key) {
        Some(x) => match json_as_str(x) {
            Some(s) => s,
            None => Seq::empty(),
        },
        None => Seq::empty(),
    }
}

/// The kind of an event, cut to 16 bits as the policy sees it.
pub open spec fn event_kind(event: JsonValue) -> u16 {
    field_u64(event, "kind"@) as u16
}

/// The frame that answers a refused event.
pub open spec fn ok_frame(event_id: Seq<char>, reason: Seq<char>) -> Seq<char> {
    json_array_text(
        seq![
            FrameItemView::Text("OK"@),
            FrameItemView::Text(event_id),
            FrameItemView::Flag(false),
            FrameItemView::Text(reason),
        ],
    )
}

/// The reason given for an event whose kind needs authentication.
pub open spec fn auth_required_reason(kind: u16) -> Seq<char> {
    "auth-required: kind "@ + decimal(kind as nat) + " requires authentication"@
}

/// The reason given, in whitelist mode, for an event from a pubkey that has
/// not authenticated.
pub open spec fn whitelist_auth_reason() -> Seq<char> {
    "auth-required: whitelist mode requires authentication"@
}

/// The reason given for an event from a pubkey outside the whitelist.
pub open spec fn not_whitelisted_reason() -> Seq<char> {
    "restricted: pubkey not whitelisted"@
}

/// The frame that closes a refused subscription.
pub open spec fn closed_frame(subscription_id: Seq<char>) -> Seq<char> {
    json_array_text(
        seq![
            FrameItemView::Text("CLOSED"@),
            FrameItemView::Text(subscription_id),
            FrameItemView::Text("auth-required: relay requires authentication"@),
        ],
    )
}

/// The answer to an event, or nothing when the event may pass.
pub open spec fn event_refusal(
    policy: AuthPolicy,
    authenticated: Set<Seq<char>>,
    event: JsonValue,
) -> Option<Seq<char>> {
    let kind: u16 = event_kind(event);
    let pubkey = field_str(event, "pubkey"@);
    let id = field_str(event, "id"@);
    if policy.kind_protected(kind) && !authenticated.contains(pubkey) {
        Some(ok_frame(id, auth_required_reason(kind)))
    } else if !policy.pubkey_allowed(pubkey) {
        Some(ok_frame(id, not_whitelisted_reason()))
    } else if policy.whitelist_only && !authenticated.contains(pubkey) {
        Some(ok_frame(id, whitelist_auth_reason()))
    } else {
        None
    }
}

/// A tag `[name, value, ..]` with a string value.
pub open spec fn tag_named(tag: JsonValue, name: Seq<char>) -> bool {
    &&& json_index(tag, 0) matches Some(n) && json_as_str(n) == Some(name)
    &&& json_index(tag, 1) matches Some(v) && json_as_str(v) is Some
}

/// The event has a tag named `name` among its `tags`.
pub open spec fn has_tag(event: JsonValue, name: Seq<char>) -> bool {
    match json_key(event, "tags"@) {
        Some(JsonValue::Array(tags)) => exists|i: int| 0 <= i < tags@.len() && #[trigger] tag_named(tags@[i], name),
        _ => false,
    }
}

/// An authentication event (NIP-42): of the authentication kind, carrying
/// a challenge tag and a relay tag.
pub open spec fn valid_auth_event(event: JsonValue) -> bool {
    &&& field_u64(event, "kind"@) == KIND_CLIENT_AUTH
    &&& has_tag(event, "challenge"@)
    &&& has_tag(event, "relay"@)
}

/// The pubkey that an authentication message authenticates: that of its
/// event, when the event has a string pubkey, the authentication kind and
/// the challenge and relay tags.
pub open spec fn auth_pubkey(msg: JsonValue) -> Option<Seq<char>> {
    match json_index(msg, 1) {
        Some(event) => match json_key(event, "pubkey"@) {
            Some(p) => match json_as_str(p) {
                Some(pk) => if valid_auth_event(event) {
                    Some(pk)
                } else {
                    None
                },
                None => None,
            },
            None => None,
        },
        None => None,
    }
}

/// What the proxy does with a parsed client message.
pub open spec fn verdict(policy: AuthPolicy, authenticated: Set<Seq<char>>, msg: JsonValue) -> VerdictView {
    match message_type(msg) {
        Some(t) => if t == "EVENT"@ {
            match json_index(msg, 1) {
                Some(event) => match event_refusal(policy, authenticated, event) {
                    Some(frame) => VerdictView::Refuse(frame),
                    None => VerdictView::Forward,
                },
                None => VerdictView::Forward,
            }
        } else if t == "REQ"@ {
            if policy.read_protected() && authenticated == Set::<Seq<char>>::empty() {
                let sub = match json_index(msg, 1) {
                    Some(s) => match json_as_str(s) {
                        Some(id) => id,
                        None => Seq::empty(),
                    },
                    None => Seq::empty(),
                };
                VerdictView::Refuse(closed_frame(sub))
            } else {
                VerdictView::Forward
            }
        } else if t == "AUTH"@ {
            match auth_pubkey(msg) {
                Some(pk) => VerdictView::ForwardAuthenticated(pk),
                None => VerdictView::Forward,
            }
        } else {
            VerdictView::Forward
        },
        None => VerdictView::Forward,
    }
}

/// The pubkeys authenticated after a parsed client message.
pub open spec fn session_after(authenticated: Set<Seq<char>>, msg: JsonValue) -> Set<Seq<char>> {
    match verdict_auth(msg) {
        Some(pk) => authenticated.insert(pk),
        None => authenticated,
    }
}

/// The pubkey that a message authenticates, when it is an authentication
/// message that does so.
pub open spec fn verdict_auth(msg: JsonValue) -> Option<Seq<char>> {
    if message_type(msg) == Some("AUTH"@) {
        auth_pubkey(msg)
    } else {
        None
    }
}

/// What the proxy does with a client's text, which may or may not be JSON.
pub open spec fn text_verdict(policy: AuthPolicy, authenticated: Set<Seq<char>>, text: Seq<char>) -> VerdictView {
    match json_parse(text) {
        Some(msg) => verdict(policy, authenticated, msg),
        None => VerdictView::Forward,
    }
}

/// The pubkeys authenticated after a client's text.
pub open spec fn text_session_after(authenticated: Set<Seq<char>>, text: Seq<char>) -> Set<Seq<char>> {
    match json_parse(text) {
        Some(msg) => session_after(authenticated, msg),
        None => authenticated,
    }
}

fn text_of(v: Option<&JsonValue>) -> (r: &str)
    ensures
        r@ == match opt_deref(v) {
            Some(x) => match json_as_str(x) {
                Some(s) => s,
                None => Seq::<char>::empty(),
            },
            None => Seq::<char>::empty(),
        },
{
    proof {
        reveal_strlit("");
    }
    match v {
        Some(x) => match x.as_str() {
            Some(s) => s,
            None => "",
        },
        None => "",
    }
}

fn auth_required_message(kind: u16) -> (r: String)
    ensures
        r@ == auth_required_reason(kind),
{
    let mut m = "auth-required: kind ".to_owned();
    let digits = u64_to_decimal(kind as u64);
    m.append(digits.as_str());
    m.append(" requires authentication");
    m
}

fn refusal_ok_frame(event_id: &str, reason: String) -> (r: String)
    ensures
        r@ == ok_frame(event_id@, reason@),
{
    let items = vec![
        FrameItem::Text("OK".to_owned()),
        FrameItem::Text(event_id.to_owned()),
        FrameItem::Flag(false),
        FrameItem::Text(reason),
    ];
    let r = encode_json_array(&items);
    assert(item_views(items@) =~= seq![
        FrameItemView::Text("OK"@),
        FrameItemView::Text(event_id@),
        FrameItemView::Flag(false),
        FrameItemView::Text(reason@),
    ]);
    r
}

fn refusal_closed_frame(subscription_id: &str) -> (r: String)
    ensures
        r@ == closed_frame(subscription_id@),
{
    let items = vec![
        FrameItem::Text("CLOSED".to_owned()),
        FrameItem::Text(subscription_id.to_owned()),
        FrameItem::Text("auth-required: relay requires authentication".to_owned()),
    ];
    let r = encode_json_array(&items);
    assert(item_views(items@) =~= seq![
        FrameItemView::Text("CLOSED"@),
        FrameItemView::Text(subscription_id@),
        FrameItemView::Text("auth-required: relay requires authentication"@),
    ]);
    r
}

/// Decides on an EVENT message: an event whose kind needs authentication
/// from a pubkey that has not authenticated is refused with
/// `auth-required`, an event from a pubkey outside the whitelist with
/// `restricted`, and in whitelist mode an event from a pubkey that has not
/// authenticated with `auth-required`; every other event passes.
pub fn handle_event_message(policy: &AuthPolicy, session: &ProxySession, msg: &JsonValue) -> (v: ClientVerdict)
    ensures
        v@ == match json_index(*msg, 1) {
            Some(event) => match event_refusal(*policy, session@, event) {
                Some(frame) => VerdictView::Refuse(frame),
                None => VerdictView::Forward,
            },
            None => VerdictView::Forward,
        },
{
    let event = match msg.get_index(1) {
        Some(e) => e,
        None => return ClientVerdict::Forward,  // Malformed, let backend handle
    };
    let kind_value: u64 = match event.get_key("kind") {
        Some(k) => match k.as_u64() {
            Some(n) => n,
            None => 0,
        },
        None => 0,
    };
    let kind: u16 = kind_value as u16;
    let pubkey = text_of(event.get_key("pubkey"));
    let event_id = text_of(event.get_key("id"));

    if policy.requires_auth_for_kind(kind) {
        if !session.contains(pubkey) {
            let reason = auth_required_message(kind);
            return ClientVerdict::Refuse(refusal_ok_frame(event_id, reason));
        }
    }
    if !policy.is_whitelisted(pubkey) {
        let reason = "restricted: pubkey not whitelisted".to_owned();
        return ClientVerdict::Refuse(refusal_ok_frame(event_id, reason));
    }
    // Whitelist mode only admits authenticated writers
    if policy.whitelist_only && !session.contains(pubkey) {
        let reason = "auth-required: whitelist mode requires authentication".to_owned();
        return ClientVerdict::Refuse(refusal_ok_frame(event_id, reason));
    }
    ClientVerdict::Forward
}

/// Decides on a REQ message: refused with a CLOSED frame when reading needs
/// authentication and nobody has authenticated on this connection.
pub fn handle_req_message(policy: &AuthPolicy, session: &ProxySession, msg: &JsonValue) -> (v: ClientVerdict)
    ensures
        v@ == if policy.read_protected() && session@ == Set::<Seq<char>>::empty() {
            VerdictView::Refuse(closed_frame(
                match json_index(*msg, 1) {
                    Some(s) => match json_as_str(s) {
                        Some(id) => id,
                        None => Seq::<char>::empty(),
                    },
                    None => Seq::<char>::empty(),
                },
            ))
        } else {
            VerdictView::Forward
        },
{
    if policy.requires_auth_for_read() && session.is_empty() {
        let sub_id = text_of(msg.get_index(1));
        return ClientVerdict::Refuse(refusal_closed_frame(sub_id));
    }
    ClientVerdict::Forward
}

/// Whether `tag` is `[name, value, ..]` with a string value.
fn is_tag_named(tag: &JsonValue, name: &str) -> (r: bool)
    ensures
        r == tag_named(*tag, name@),
{
    let first = match tag.get_index(0) {
        Some(n) => n.as_str(),
        None => None,
    };
    let named = match first {
        Some(n) => str_equal(n, name),
        None => false,
    };
    let valued = match tag.get_index(1) {
        Some(v) => v.as_str().is_some(),
        None => false,
    };
    named && valued
}

/// Whether the event has a tag named `name` among its `tags`.
fn has_tag_named(event: &JsonValue, name: &str) -> (r: bool)
    ensures
        r == has_tag(*event, name@),
{
    match event.get_key("tags") {
        Some(JsonValue::Array(tags)) => {
            let mut i: usize = 0;
            while i < tags.len()
                invariant
                    i <= tags@.len(),
                    has_tag(*event, name@) == exists|j: int|
                        0 <= j < tags@.len() && #[trigger] tag_named(tags@[j], name@),
                    forall|j: int| 0 <= j < i ==> !#[trigger] tag_named(tags@[j], name@),
                decreases tags.len() - i,
            {
                if is_tag_named(&tags[i], name) {
                    assert(tag_named(tags@[i as int], name@));
                    return true;
                }
                i = i + 1;
            }
            false
        },
        _ => false,
    }
}

/// Decides on an AUTH message: an authentication event with a pubkey and
/// the challenge and relay tags authenticates that pubkey. AUTH messages always go on to the backend.
pub fn handle_auth_message(session: &mut ProxySession, msg: &JsonValue) -> (v: ClientVerdict)
    ensures
        v@ == match auth_pubkey(*msg) {
            Some(pk) => VerdictView::ForwardAuthenticated(pk),
            None => VerdictView::Forward,
        },
        final(session)@ == match auth_pubkey(*msg) {
            Some(pk) => old(session)@.insert(pk),
            None => old(session)@,
        },
        match json_index(*msg, 1) {
            Some(event) => match json_key(event, "pubkey"@) {
                Some(p) => match json_as_str(p) {
                    Some(pk) => valid_auth_event(event) ==> v@ == VerdictView::ForwardAuthenticated(pk)
                        && final(session)@.contains(pk),
                    None => true,
                },
                None => true,
            },
            None => true,
        },
{
    if let Some(event) = msg.get_index(1) {
        if let Some(p) = event.get_key("pubkey") {
            if let Some(pubkey) = p.as_str() {
                let kind: u64 = match event.get_key("kind") {
                    Some(k) => match k.as_u64() {
                        Some(n) => n,
                        None => 0,
                    },
                    None => 0,
                };
                // Validate AUTH event (kind 22242, has challenge and relay tags)
                if kind == KIND_CLIENT_AUTH && has_tag_named(event, "challenge")
                    && has_tag_named(event, "relay") {
                    session.insert(pubkey.to_owned());
                    return ClientVerdict::ForwardAuthenticated(pubkey.to_owned());
                }
            }
        }
    }
    ClientVerdict::Forward
}

/// Decides on a parsed client message by its type; messages of other types
/// go on to the backend.
pub fn handle_client_message(policy: &AuthPolicy, session: &mut ProxySession, msg: &JsonValue) -> (v: ClientVerdict)
    ensures
        v@ == verdict(*policy, old(session)@, *msg),
        final(session)@ == session_after(old(session)@, *msg),
{
    proof {
        message_types_differ();
    }
    let first = msg.get_index(0);
    let msg_type: Option<&str> = match first {
        Some(f) => f.as_str(),
        None => None,
    };
    match msg_type {
        Some(t) => {
            if str_equal(t, "EVENT") {
                handle_event_message(policy, session, msg)
            } else if str_equal(t, "REQ") {
                handle_req_message(policy, session, msg)
            } else if str_equal(t, "AUTH") {
                handle_auth_message(session, msg)
            } else {
                ClientVerdict::Forward
            }
        },
        None => ClientVerdict::Forward,
    }
}

/// Decides on a client's text message. Text that is not JSON goes on to the
/// backend, which answers it.
pub fn on_client_text(policy: &AuthPolicy, session: &mut ProxySession, text: &str) -> (v: ClientVerdict)
    ensures
        v@ == text_verdict(*policy, old(session)@, text@),
        final(session)@ == text_session_after(old(session)@, text@),
{
    match parse_json(text) {
        Some(msg) => handle_client_message(policy, session, &msg),
        None => ClientVerdict::Forward,
    }
}

/// Decides on a frame from the client's socket.
pub fn on_client_frame(policy: &AuthPolicy, session: &mut ProxySession, frame: &ClientFrame) -> (a: ClientAction)
    ensures
        match frame {
            ClientFrame::Text(t) => a matches ClientAction::Deliver(v) && v@ == text_verdict(
                *policy,
                old(session)@,
                t@,
            ) && final(session)@ == text_session_after(old(session)@, t@),
            ClientFrame::Close => a is CloseBackend && final(session)@ == old(session)@,
            ClientFrame::Failed => a is Stop && final(session)@ == old(session)@,
            ClientFrame::Other => a is Ignore && final(session)@ == old(session)@,
        },
{
    match frame {
        ClientFrame::Text(t) => ClientAction::Deliver(on_client_text(policy, session, t.as_str())),
        ClientFrame::Close => ClientAction::CloseBackend,
        ClientFrame::Failed => ClientAction::Stop,
        ClientFrame::Other => ClientAction::Ignore,
    }
}

/// Decides on a frame from the backend's socket: text passes through.
pub fn on_backend_frame(frame: &BackendFrame) -> (a: BackendAction)
    ensures
        match frame {
            BackendFrame::Text(_) => a is PassToClient,
            BackendFrame::Close => a is CloseClient,
            BackendFrame::Failed => a is Stop,
            BackendFrame::Other => a is Ignore,
        },
{
    match frame {
        BackendFrame::Text(_) => BackendAction::PassToClient,
        BackendFrame::Close => BackendAction::CloseClient,
        BackendFrame::Failed => BackendAction::Stop,
        BackendFrame::Other => BackendAction::Ignore,
    }
}

/// The three message types that the proxy inspects are told apart.
pub proof fn message_types_differ()
    ensures
        "EVENT"@ != "REQ"@,
        "EVENT"@ != "AUTH"@,
        "REQ"@ != "AUTH"@,
{
    reveal_strlit("EVENT");
    reveal_strlit("REQ");
    reveal_strlit("AUTH");
    assert("EVENT"@.len() != "REQ"@.len());
    assert("EVENT"@[0] != "AUTH"@[0]);
    assert("REQ"@.len() != "AUTH"@.len());
}

/// The proxy passes an event exactly when the policy allows its author to
/// write its kind, given whether the author has authenticated on the
/// connection; it never passes an event that `can_write` would refuse.
pub proof fn proxy_enforces_write_policy(
    policy: AuthPolicy,
    authenticated: Set<Seq<char>>,
    msg: JsonValue,
    event: JsonValue,
)
    requires
        message_type(msg) == Some("EVENT"@),
        json_index(msg, 1) == Some(event),
    ensures
        (verdict(policy, authenticated, msg) == VerdictView::Forward) == policy.write_allowed(
            field_str(event, "pubkey"@),
            event_kind(event),
            authenticated.contains(field_str(event, "pubkey"@)),
        ),
        verdict(policy, authenticated, msg) is Forward || verdict(policy, authenticated, msg) is Refuse,
{
}

/// An event of a protected kind from a pubkey that has not authenticated is
/// refused with an `OK` frame that carries the event id, `false` and the
/// `auth-required` reason naming the kind.
pub proof fn unauthenticated_protected_event_refused(
    policy: AuthPolicy,
    authenticated: Set<Seq<char>>,
    msg: JsonValue,
    event: JsonValue,
)
    requires
        message_type(msg) == Some("EVENT"@),
        json_index(msg, 1) == Some(event),
        policy.kind_protected(event_kind(event)),
        !authenticated.contains(field_str(event, "pubkey"@)),
    ensures
        verdict(policy, authenticated, msg) == VerdictView::Refuse(
            ok_frame(field_str(event, "id"@), auth_required_reason(event_kind(event))),
        ),
{
}

/// After an authentication message for a pubkey, events by that pubkey are
/// never refused for want of authentication: they pass, unless whitelist
/// mode refuses the pubkey.
pub proof fn authenticated_pubkey_may_post(
    policy: AuthPolicy,
    authenticated: Set<Seq<char>>,
    auth_msg: JsonValue,
    event_msg: JsonValue,
    event: JsonValue,
    pk: Seq<char>,
)
    requires
        message_type(auth_msg) == Some("AUTH"@),
        auth_pubkey(auth_msg) == Some(pk),
        message_type(event_msg) == Some("EVENT"@),
        json_index(event_msg, 1) == Some(event),
        field_str(event, "pubkey"@) == pk,
    ensures
        session_after(authenticated, auth_msg).contains(pk),
        verdict(policy, session_after(authenticated, auth_msg), event_msg) == if policy.pubkey_allowed(pk) {
            VerdictView::Forward
        } else {
            VerdictView::Refuse(ok_frame(field_str(event, "id"@), not_whitelisted_reason()))
        },
{
}

/// No message takes an authentication away: the authenticated pubkeys of a
/// connection only grow.
pub proof fn authentication_is_never_lost(authenticated: Set<Seq<char>>, text: Seq<char>)
    ensures
        authenticated.subset_of(text_session_after(authenticated, text)),
{
}

/// Only EVENT and REQ messages are ever refused: AUTH messages, messages of
/// any other type and text that is not JSON go on to the backend.
pub proof fn only_events_and_subscriptions_refused(
    policy: AuthPolicy,
    authenticated: Set<Seq<char>>,
    text: Seq<char>,
)
    ensures
        text_verdict(policy, authenticated, text) is Refuse ==> match json_parse(text) {
            Some(msg) => message_type(msg) == Some("EVENT"@) || message_type(msg) == Some("REQ"@),
            None => false,
        },
{
    message_types_differ();
}

/// Once anybody has authenticated on the connection, or when reading needs
/// no authentication, subscriptions pass.
pub proof fn subscriptions_pass_when_read_is_open(
    policy: AuthPolicy,
    authenticated: Set<Seq<char>>,
    msg: JsonValue,
    pk: Seq<char>,
)
    requires
        message_type(msg) == Some("REQ"@),
        !policy.read_protected() || authenticated.contains(pk),
    ensures
        verdict(policy, authenticated, msg) == VerdictView::Forward,
{
    message_types_differ();
    if authenticated == Set::<Seq<char>>::empty() {
        assert(!Set::<Seq<char>>::empty().contains(pk));
    }
}

/// When reading needs authentication (read protection on, or AUTH required
/// for all operations) and nobody has authenticated, a subscription is
/// refused with a `CLOSED` frame.
pub proof fn subscriptions_need_auth_when_read_is_closed(
    policy: AuthPolicy,
    msg: JsonValue,
)
    requires
        message_type(msg) == Some("REQ"@),
        policy.read_protected(),
    ensures
        verdict(policy, Set::<Seq<char>>::empty(), msg) is Refuse,
{
    message_types_differ();
}

/// In whitelist mode an event from a pubkey that has not authenticated
/// never passes, whether or not the pubkey is on the whitelist.
pub proof fn whitelist_mode_refuses_unauthenticated_events(
    policy: AuthPolicy,
    authenticated: Set<Seq<char>>,
    msg: JsonValue,
    event: JsonValue,
)
    requires
        message_type(msg) == Some("EVENT"@),
        json_index(msg, 1) == Some(event),
        policy.whitelist_only,
        !authenticated.contains(field_str(event, "pubkey"@)),
    ensures
        verdict(policy, authenticated, msg) is Refuse,
{
}

/// An AUTH message whose event lacks the authentication kind, the
/// challenge tag or the relay tag authenticates nobody and changes
/// nothing on the connection.
pub proof fn invalid_auth_event_authenticates_nobody(
    authenticated: Set<Seq<char>>,
    msg: JsonValue,
    event: JsonValue,
)
    requires
        json_index(msg, 1) == Some(event),
        !valid_auth_event(event),
    ensures
        auth_pubkey(msg) is None,
        session_after(authenticated, msg) == authenticated,
{
}

/// The pubkey that an AUTH message authenticates is exactly the string
/// value of its event's `pubkey` member, whole and unchanged.
pub proof fn auth_pubkey_is_the_event_pubkey(msg: JsonValue, pk: Seq<char>)
    requires
        auth_pubkey(msg) == Some(pk),
    ensures
        exists|event: JsonValue, p: JsonValue|
            json_index(msg, 1) == Some(event) && json_key(event, "pubkey"@) == Some(p) && json_as_str(p)
                == Some(pk),
{
    let event = json_index(msg, 1)->0;
    let p = json_key(event, "pubkey"@)->0;
    assert(json_index(msg, 1) == Some(event) && json_key(event, "pubkey"@) == Some(p) && json_as_str(p)
        == Some(pk));
}

/// A valid AUTH message is forwarded as authenticating exactly its event's
/// pubkey string, and the connection then holds that string.
pub proof fn valid_auth_records_the_whole_pubkey(
    policy: AuthPolicy,
    authenticated: Set<Seq<char>>,
    msg: JsonValue,
    event: JsonValue,
    p: JsonValue,
    pk: Seq<char>,
)
    requires
        message_type(msg) == Some("AUTH"@),
        json_index(msg, 1) == Some(event),
        json_key(event, "pubkey"@) == Some(p),
        json_as_str(p) == Some(pk),
        valid_auth_event(event),
    ensures
        auth_pubkey(msg) == Some(pk),
        verdict(policy, authenticated, msg) == VerdictView::ForwardAuthenticated(pk),
        session_after(authenticated, msg) == authenticated.insert(pk),
        session_after(authenticated, msg).contains(pk),
{
    message_types_differ();
}

/// The pubkey and id that the EVENT decision reads are exactly the string
/// values of the event's members.
pub proof fn event_fields_are_the_member_strings(v: JsonValue, key: Seq<char>, x: JsonValue, s: Seq<char>)
    requires
        json_key(v, key) == Some(x),
        json_as_str(x) == Some(s),
    ensures
        field_str(v, key) == s,
{
}

/// After a valid AUTH message, an event whose `pubkey` member is the same
/// string passes, whatever its kind, outside whitelist mode.
pub proof fn authenticated_author_is_forwarded(
    policy: AuthPolicy,
    authenticated: Set<Seq<char>>,
    auth_msg: JsonValue,
    auth_event: JsonValue,
    p: JsonValue,
    pk: Seq<char>,
    event_msg: JsonValue,
    event: JsonValue,
    q: JsonValue,
)
    requires
        message_type(auth_msg) == Some("AUTH"@),
        json_index(auth_msg, 1) == Some(auth_event),
        json_key(auth_event, "pubkey"@) == Some(p),
        json_as_str(p) == Some(pk),
        valid_auth_event(auth_event),
        message_type(event_msg) == Some("EVENT"@),
        json_index(event_msg, 1) == Some(event),
        json_key(event, "pubkey"@) == Some(q),
        json_as_str(q) == Some(pk),
        !policy.whitelist_only,
    ensures
        verdict(policy, session_after(authenticated, auth_msg), event_msg) == VerdictView::Forward,
{
    message_types_differ();
}

/// An event from a pubkey that has not authenticated, of a kind outside the
/// protected kinds, passes when neither global AUTH nor whitelist mode is
/// on.
pub proof fn unprotected_kind_passes_unauthenticated(
    policy: AuthPolicy,
    authenticated: Set<Seq<char>>,
    msg: JsonValue,
    event: JsonValue,
)
    requires
        message_type(msg) == Some("EVENT"@),
        json_index(msg, 1) == Some(event),
        !policy.global_auth_required,
        !policy.whitelist_only,
        !policy.protected_kinds@.contains(event_kind(event)),
    ensures
        verdict(policy, authenticated, msg) == VerdictView::Forward,
{
}

/// A refused event is answered with an `OK` frame that carries the event's
/// id member unchanged and `false`.
pub proof fn event_refusal_carries_the_id(
    policy: AuthPolicy,
    authenticated: Set<Seq<char>>,
    msg: JsonValue,
    event: JsonValue,
    x: JsonValue,
    id: Seq<char>,
)
    requires
        message_type(msg) == Some("EVENT"@),
        json_index(msg, 1) == Some(event),
        json_key(event, "id"@) == Some(x),
        json_as_str(x) == Some(id),
        verdict(policy, authenticated, msg) is Refuse,
    ensures
        exists|reason: Seq<char>|
            verdict(policy, authenticated, msg) == VerdictView::Refuse(
                json_array_text(
                    seq![
                        FrameItemView::Text("OK"@),
                        FrameItemView::Text(id),
                        FrameItemView::Flag(false),
                        FrameItemView::Text(reason),
                    ],
                ),
            ),
{
    let kind = event_kind(event);
    let pubkey = field_str(event, "pubkey"@);
    let reason = if policy.kind_protected(kind) && !authenticated.contains(pubkey) {
        auth_required_reason(kind)
    } else if !policy.pubkey_allowed(pubkey) {
        not_whitelisted_reason()
    } else {
        whitelist_auth_reason()
    };
    assert(verdict(policy, authenticated, msg) == VerdictView::Refuse(
        json_array_text(
            seq![
                FrameItemView::Text("OK"@),
                FrameItemView::Text(id),
                FrameItemView::Flag(false),
                FrameItemView::Text(reason),
            ],
        ),
    ));
}

/// A refused subscription is answered with a `CLOSED` frame that carries
/// the subscription id unchanged.
pub proof fn closed_frame_carries_the_subscription_id(
    policy: AuthPolicy,
    msg: JsonValue,
    s: JsonValue,
    id: Seq<char>,
)
    requires
        message_type(msg) == Some("REQ"@),
        json_index(msg, 1) == Some(s),
        json_as_str(s) == Some(id),
        policy.read_protected(),
    ensures
        verdict(policy, Set::<Seq<char>>::empty(), msg) == VerdictView::Refuse(
            json_array_text(
                seq![
                    FrameItemView::Text("CLOSED"@),
                    FrameItemView::Text(id),
                    FrameItemView::Text("auth-required: relay requires authentication"@),
                ],
            ),
        ),
{
    message_types_differ();
}

} // verus!
