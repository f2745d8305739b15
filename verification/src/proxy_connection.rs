//! One proxied connection, frame by frame in each direction, and what each
//! side receives over the whole connection. The sockets are driven outside
//! this library: they hand every frame to a pump and perform what it returns.

use vstd::prelude::*;
use crate::auth_policy::AuthPolicy;
use crate::relay_proxy::{
    on_backend_frame, on_client_frame, text_session_after, text_verdict, BackendAction,
    BackendFrame, ClientAction, ClientFrame, ClientVerdict, ProxySession, VerdictView,
};

verus! {

/// The mathematical content of a frame from either socket.
pub enum FrameView {
    Text(Seq<char>),
    Close,
    Failed,
    Other,
}

impl View for ClientFrame {
    type V = FrameView;

    open spec fn view(&self) -> FrameView {
        match self {
            ClientFrame::Text(t) => FrameView::Text(t@),
            ClientFrame::Close => FrameView::Close,
            ClientFrame::Failed => FrameView::Failed,
            ClientFrame::Other => FrameView::Other,
        }
    }
}

impl View for BackendFrame {
    type V = FrameView;

    open spec fn view(&self) -> FrameView {
        match self {
            BackendFrame::Text(t) => FrameView::Text(t@),
            BackendFrame::Close => FrameView::Close,
            BackendFrame::Failed => FrameView::Failed,
            BackendFrame::Other => FrameView::Other,
        }
    }
}

/// A message the proxy sends on a socket: a text, or the closing frame.
pub enum Outgoing {
    Text(String),
    Close,
}

/// The mathematical content of an `Outgoing` message.
pub enum OutgoingView {
    Text(Seq<char>),
    Close,
}

impl View for Outgoing {
    type V = OutgoingView;

    open spec fn view(&self) -> OutgoingView {
        match self {
            Outgoing::Text(t) => OutgoingView::Text(t@),
            Outgoing::Close => OutgoingView::Close,
        }
    }
}

/// The message, if any, as a sequence of at most one.
pub open spec fn sent_seq(o: Option<Outgoing>) -> Seq<OutgoingView> {
    match o {
        Some(m) => seq![m@],
        None => Seq::empty(),
    }
}

/// The position of the first closing or failed frame; the length of the
/// sequence when there is none.
pub open spec fn stop_index(fs: Seq<FrameView>) -> nat
    decreases fs.len(),
{
    if fs.len() == 0 {
        0
    } else {
        let p = stop_index(fs.drop_last());
        if p < fs.len() - 1 {
            p
        } else if fs.last() is Close || fs.last() is Failed {
            (fs.len() - 1) as nat
        } else {
            fs.len()
        }
    }
}

/// The pubkeys authenticated by the client's frames `fs`, handled in order.
pub open spec fn session_after_frames(fs: Seq<FrameView>) -> Set<Seq<char>>
    decreases fs.len(),
{
    if fs.len() == 0 {
        Set::empty()
    } else {
        let before = session_after_frames(fs.drop_last());
        match fs.last() {
            FrameView::Text(t) => text_session_after(before, t),
            _ => before,
        }
    }
}

/// The client's texts in `fs` that the policy lets through, in order: each
/// text frame whose verdict, under the pubkeys that the frames before it
/// authenticated, is not a refusal.
pub open spec fn passed_texts(policy: AuthPolicy, fs: Seq<FrameView>) -> Seq<OutgoingView>
    decreases fs.len(),
{
    if fs.len() == 0 {
        Seq::empty()
    } else {
        let before = fs.drop_last();
        let kept = passed_texts(policy, before);
        match fs.last() {
            FrameView::Text(t) => if text_verdict(policy, session_after_frames(before), t) is Refuse {
                kept
            } else {
                kept.push(OutgoingView::Text(t))
            },
            _ => kept,
        }
    }
}

/// What the backend receives over a connection on which the client sent
/// `fs`: the texts that the policy lets through, up to the client's first
/// closing or failed frame, followed by a closing frame when the client
/// closed.
pub open spec fn backend_receives(policy: AuthPolicy, fs: Seq<FrameView>) -> Seq<OutgoingView> {
    let k = stop_index(fs);
    passed_texts(policy, fs.take(k as int)) + if k < fs.len() && fs[k as int] is Close {
        seq![OutgoingView::Close]
    } else {
        Seq::empty()
    }
}

/// The backend's texts in `fs`, in order.
pub open spec fn texts_of(fs: Seq<FrameView>) -> Seq<OutgoingView>
    decreases fs.len(),
{
    if fs.len() == 0 {
        Seq::empty()
    } else {
        let kept = texts_of(fs.drop_last());
        match fs.last() {
            FrameView::Text(t) => kept.push(OutgoingView::Text(t)),
            _ => kept,
        }
    }
}

/// What the client receives from the backend over a connection on which
/// the backend sent `fs`: every text, unchanged and in order, up to the
/// backend's first closing or failed frame, followed by a closing frame
/// when the backend closed.
pub open spec fn client_receives(fs: Seq<FrameView>) -> Seq<OutgoingView> {
    let k = stop_index(fs);
    texts_of(fs.take(k as int)) + if k < fs.len() && fs[k as int] is Close {
        seq![OutgoingView::Close]
    } else {
        Seq::empty()
    }
}

/// Whether `fs` holds a closing or failed frame.
pub open spec fn stopped_by(fs: Seq<FrameView>) -> bool {
    stop_index(fs) < fs.len()
}

proof fn lemma_stop_index_bound(fs: Seq<FrameView>)
    ensures
        stop_index(fs) <= fs.len(),
    decreases fs.len(),
{
    if fs.len() > 0 {
        lemma_stop_index_bound(fs.drop_last());
    }
}

/// Adding a frame after the stop changes nothing of the stop or of the
/// frames before it.
proof fn lemma_push_after_stop(fs: Seq<FrameView>, f: FrameView)
    requires
        stopped_by(fs),
    ensures
        stop_index(fs.push(f)) == stop_index(fs),
        fs.push(f).take(stop_index(fs) as int) == fs.take(stop_index(fs) as int),
        fs.push(f)[stop_index(fs) as int] == fs[stop_index(fs) as int],
{
    assert(fs.push(f).drop_last() =~= fs);
    assert(fs.push(f).take(stop_index(fs) as int) =~= fs.take(stop_index(fs) as int));
}

/// Adding a frame before any stop.
proof fn lemma_push_before_stop(fs: Seq<FrameView>, f: FrameView)
    requires
        !stopped_by(fs),
    ensures
        stop_index(fs.push(f)) == if f is Close || f is Failed {
            fs.len()
        } else {
            fs.len() + 1
        },
        fs.take(fs.len() as int) == fs,
        fs.push(f).take(fs.len() as int) == fs,
        fs.push(f).take(fs.len() as int + 1) == fs.push(f),
        fs.push(f).drop_last() == fs,
{
    lemma_stop_index_bound(fs);
    assert(fs.push(f).drop_last() =~= fs);
    assert(fs.take(fs.len() as int) =~= fs);
    assert(fs.push(f).take(fs.len() as int) =~= fs);
    assert(fs.push(f).take(fs.len() as int + 1) =~= fs.push(f));
}

/// The client side of one proxied connection.
pub struct ClientPump {
    policy: AuthPolicy,
    session: ProxySession,
    stopped: bool,
    frames: Ghost<Seq<FrameView>>,
    sent: Ghost<Seq<OutgoingView>>,
}

/// What to do with one frame from the client.
pub struct ClientStep {
    /// Send this on to the backend.
    pub to_backend: Option<Outgoing>,
    /// Answer the client with this frame.
    pub to_client: Option<String>,
    /// This pubkey has just authenticated: record it.
    pub authenticated: Option<String>,
    /// Stop reading from the client.
    pub stop: bool,
}

impl ClientPump {
    /// The policy the connection runs under.
    pub closed spec fn policy(&self) -> AuthPolicy {
        self.policy
    }

    /// The frames handed to the pump so far.
    pub closed spec fn frames(&self) -> Seq<FrameView> {
        self.frames@
    }

    /// Everything the pump has told the caller to send to the backend.
    pub closed spec fn sent(&self) -> Seq<OutgoingView> {
        self.sent@
    }

    /// The pubkeys authenticated on the connection.
    pub closed spec fn authenticated(&self) -> Set<Seq<char>> {
        self.session@
    }

    /// The pump's state agrees with the frames it has been handed.
    pub closed spec fn wf(&self) -> bool {
        &&& self.stopped == stopped_by(self.frames@)
        &&& !self.stopped ==> self.session@ == session_after_frames(self.frames@)
        &&& self.sent@ == backend_receives(self.policy, self.frames@)
    }

    /// A connection on which the client has sent nothing yet.
    pub fn new(policy: AuthPolicy) -> (p: ClientPump)
        ensures
            p.wf(),
            p.policy() == policy,
            p.frames() == Seq::<FrameView>::empty(),
            p.sent() == Seq::<OutgoingView>::empty(),
            p.authenticated() == Set::<Seq<char>>::empty(),
    {
        let p = ClientPump {
            policy,
            session: ProxySession::new(),
            stopped: false,
            frames: Ghost(Seq::empty()),
            sent: Ghost(Seq::empty()),
        };
        proof {
            assert(Seq::<FrameView>::empty().take(0) =~= Seq::<FrameView>::empty());
        }
        p
    }

    /// Handles one frame from the client. After a closing or failed frame
    /// the pump stops and every later frame is ignored. Over the whole
    /// connection, what it sends to the backend is `backend_receives`.
    pub fn step(&mut self, frame: ClientFrame) -> (out: ClientStep)
        requires
            old(self).wf(),
        ensures
            final(self).wf(),
            final(self).policy() == old(self).policy(),
            final(self).frames() == old(self).frames().push(frame@),
            final(self).sent() == old(self).sent() + sent_seq(out.to_backend),
            final(self).sent() == backend_receives(final(self).policy(), final(self).frames()),
            stopped_by(old(self).frames()) ==> out.to_backend is None && out.to_client is None
                && out.authenticated is None && out.stop,
            !stopped_by(old(self).frames()) ==> match frame@ {
                FrameView::Text(t) => {
                    let v = text_verdict(old(self).policy(), old(self).authenticated(), t);
                    &&& !out.stop
                    &&& final(self).authenticated() == text_session_after(old(self).authenticated(), t)
                    &&& match v {
                        VerdictView::Refuse(reply) => out.to_backend is None && out.authenticated is None
                            && (out.to_client matches Some(r) && r@ == reply),
                        VerdictView::Forward => sent_seq(out.to_backend) == seq![OutgoingView::Text(t)]
                            && out.to_client is None && out.authenticated is None,
                        VerdictView::ForwardAuthenticated(pk) => sent_seq(out.to_backend) == seq![
                            OutgoingView::Text(t),
                        ] && out.to_client is None && (out.authenticated matches Some(a) && a@ == pk),
                    }
                },
                FrameView::Close => sent_seq(out.to_backend) == seq![OutgoingView::Close]
                    && out.to_client is None && out.authenticated is None && out.stop,
                FrameView::Failed => out.to_backend is None && out.to_client is None
                    && out.authenticated is None && out.stop,
                FrameView::Other => out.to_backend is None && out.to_client is None
                    && out.authenticated is None && !out.stop,
            },
    {
        let ghost fs = self.frames@;
        let ghost f = frame@;
        if self.stopped {
            proof {
                lemma_push_after_stop(fs, f);
                self.frames@ = fs.push(f);
            }
            return ClientStep { to_backend: None, to_client: None, authenticated: None, stop: true };
        }
        proof {
            lemma_push_before_stop(fs, f);
        }
        let action = on_client_frame(&self.policy, &mut self.session, &frame);
        let out = match action {
            ClientAction::Deliver(ClientVerdict::Refuse(reply)) => ClientStep {
                to_backend: None,
                to_client: Some(reply),
                authenticated: None,
                stop: false,
            },
            ClientAction::Deliver(verdict) => {
                let authenticated = match verdict {
                    ClientVerdict::ForwardAuthenticated(pk) => Some(pk),
                    _ => None,
                };
                let text = match frame {
                    ClientFrame::Text(t) => t,
                    _ => String::new(),
                };
                ClientStep {
                    to_backend: Some(Outgoing::Text(text)),
                    to_client: None,
                    authenticated,
                    stop: false,
                }
            },
            ClientAction::CloseBackend => ClientStep {
                to_backend: Some(Outgoing::Close),
                to_client: None,
                authenticated: None,
                stop: true,
            },
            ClientAction::Stop => ClientStep {
                to_backend: None,
                to_client: None,
                authenticated: None,
                stop: true,
            },
            ClientAction::Ignore => ClientStep {
                to_backend: None,
                to_client: None,
                authenticated: None,
                stop: false,
            },
        };
        proof {
            let nfs = fs.push(f);
            self.frames@ = nfs;
            self.sent@ = self.sent@ + sent_seq(out.to_backend);
            match f {
                FrameView::Close => {
                    assert(self.sent@ =~= backend_receives(self.policy, nfs));
                },
                FrameView::Failed => {
                    assert(self.sent@ =~= backend_receives(self.policy, nfs));
                },
                _ => {
                    assert(passed_texts(self.policy, nfs) == passed_texts(self.policy, fs) + sent_seq(
                        out.to_backend,
                    ));
                    assert(self.sent@ =~= backend_receives(self.policy, nfs));
                },
            }
        }
        self.stopped = out.stop;
        out
    }
}

/// The backend side of one proxied connection.
pub struct BackendPump {
    stopped: bool,
    frames: Ghost<Seq<FrameView>>,
    sent: Ghost<Seq<OutgoingView>>,
}

/// What to do with one frame from the backend.
pub struct BackendStep {
    /// Send this on to the client.
    pub to_client: Option<Outgoing>,
    /// Stop reading from the backend.
    pub stop: bool,
}

impl BackendPump {
    /// The frames handed to the pump so far.
    pub closed spec fn frames(&self) -> Seq<FrameView> {
        self.frames@
    }

    /// Everything the pump has told the caller to send to the client.
    pub closed spec fn sent(&self) -> Seq<OutgoingView> {
        self.sent@
    }

    /// The pump's state agrees with the frames it has been handed.
    pub closed spec fn wf(&self) -> bool {
        &&& self.stopped == stopped_by(self.frames@)
        &&& self.sent@ == client_receives(self.frames@)
    }

    /// A connection on which the backend has sent nothing yet.
    pub fn new() -> (p: BackendPump)
        ensures
            p.wf(),
            p.frames() == Seq::<FrameView>::empty(),
            p.sent() == Seq::<OutgoingView>::empty(),
    {
        let p = BackendPump { stopped: false, frames: Ghost(Seq::empty()), sent: Ghost(Seq::empty()) };
        proof {
            assert(Seq::<FrameView>::empty().take(0) =~= Seq::<FrameView>::empty());
        }
        p
    }

    /// Handles one frame from the backend. After a closing or failed frame
    /// the pump stops and every later frame is ignored. Over the whole
    /// connection, what it sends to the client is `client_receives`.
    pub fn step(&mut self, frame: BackendFrame) -> (out: BackendStep)
        requires
            old(self).wf(),
        ensures
            final(self).wf(),
            final(self).frames() == old(self).frames().push(frame@),
            final(self).sent() == old(self).sent() + sent_seq(out.to_client),
            final(self).sent() == client_receives(final(self).frames()),
            stopped_by(old(self).frames()) ==> out.to_client is None && out.stop,
            !stopped_by(old(self).frames()) ==> match frame@ {
                FrameView::Text(t) => sent_seq(out.to_client) == seq![OutgoingView::Text(t)] && !out.stop,
                FrameView::Close => sent_seq(out.to_client) == seq![OutgoingView::Close] && out.stop,
                FrameView::Failed => out.to_client is None && out.stop,
                FrameView::Other => out.to_client is None && !out.stop,
            },
    {
        let ghost fs = self.frames@;
        let ghost f = frame@;
        if self.stopped {
            proof {
                lemma_push_after_stop(fs, f);
                self.frames@ = fs.push(f);
            }
            return BackendStep { to_client: None, stop: true };
        }
        proof {
            lemma_push_before_stop(fs, f);
        }
        let out = match on_backend_frame(&frame) {
            BackendAction::PassToClient => {
                let text = match frame {
                    BackendFrame::Text(t) => t,
                    _ => String::new(),
                };
                BackendStep { to_client: Some(Outgoing::Text(text)), stop: false }
            },
            BackendAction::CloseClient => BackendStep { to_client: Some(Outgoing::Close), stop: true },
            BackendAction::Stop => BackendStep { to_client: None, stop: true },
            BackendAction::Ignore => BackendStep { to_client: None, stop: false },
        };
        proof {
            let nfs = fs.push(f);
            self.frames@ = nfs;
            self.sent@ = self.sent@ + sent_seq(out.to_client);
            assert(self.sent@ =~= client_receives(nfs));
        }
        self.stopped = out.stop;
        out
    }
}

/// Once the client has closed or failed, nothing it sends afterwards
/// reaches the backend.
pub proof fn nothing_reaches_backend_after_client_stops(
    policy: AuthPolicy,
    fs: Seq<FrameView>,
    later: Seq<FrameView>,
)
    requires
        stopped_by(fs),
    ensures
        stopped_by(fs + later),
        backend_receives(policy, fs + later) == backend_receives(policy, fs),
    decreases later.len(),
{
    if later.len() == 0 {
        assert(fs + later =~= fs);
    } else {
        let shorter = later.drop_last();
        nothing_reaches_backend_after_client_stops(policy, fs, shorter);
        assert(fs + later =~= (fs + shorter).push(later.last()));
        lemma_push_after_stop(fs + shorter, later.last());
    }
}

/// Once the backend has closed or failed, nothing it sends afterwards
/// reaches the client.
pub proof fn nothing_reaches_client_after_backend_stops(fs: Seq<FrameView>, later: Seq<FrameView>)
    requires
        stopped_by(fs),
    ensures
        stopped_by(fs + later),
        client_receives(fs + later) == client_receives(fs),
    decreases later.len(),
{
    if later.len() == 0 {
        assert(fs + later =~= fs);
    } else {
        let shorter = later.drop_last();
        nothing_reaches_client_after_backend_stops(fs, shorter);
        assert(fs + later =~= (fs + shorter).push(later.last()));
        lemma_push_after_stop(fs + shorter, later.last());
    }
}

/// A text that the policy refuses, under the pubkeys authenticated by the
/// frames before it, adds nothing to what the backend receives.
pub proof fn refused_text_adds_nothing(policy: AuthPolicy, fs: Seq<FrameView>, t: Seq<char>)
    requires
        !stopped_by(fs),
        text_verdict(policy, session_after_frames(fs), t) is Refuse,
    ensures
        backend_receives(policy, fs.push(FrameView::Text(t))) == backend_receives(policy, fs),
{
    lemma_push_before_stop(fs, FrameView::Text(t));
}

/// A text that the policy lets through is added, unchanged, to what the
/// backend receives.
pub proof fn passed_text_is_forwarded(policy: AuthPolicy, fs: Seq<FrameView>, t: Seq<char>)
    requires
        !stopped_by(fs),
        !(text_verdict(policy, session_after_frames(fs), t) is Refuse),
    ensures
        backend_receives(policy, fs.push(FrameView::Text(t))) == backend_receives(policy, fs).push(
            OutgoingView::Text(t),
        ),
{
    lemma_push_before_stop(fs, FrameView::Text(t));
}

} // verus!
