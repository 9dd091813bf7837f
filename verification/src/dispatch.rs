//! The per-connection dispatch loop as a state machine: each received session
//! event is consumed in arrival order and decides one reaction — answer a
//! ping, route an envelope to a persistence collaborator, send an error reply,
//! or terminate. Failures of a single message never end the session; only a
//! peer close, the end of the session or a transport error does.

use vstd::prelude::*;
use vstd::string::StrSliceExecFns;
use vstd::string::StringExecFns;

use crate::envelope::parse_envelope;
use crate::envelope::parsed_envelope;
use crate::envelope::payload_of;
use crate::reply::IncomingImageReply;
use crate::reply::reply_json;

verus! {

/// One unit received over a session, in strict arrival order.
pub enum Frame {
    /// A textual frame, expected to carry an envelope.
    Text(String),
    /// A binary frame; accepted and ignored.
    Binary(Vec<u8>),
    /// A protocol liveness probe, answered with a pong of the same payload.
    Ping(Vec<u8>),
    /// The answer to a ping; observed only.
    Pong(Vec<u8>),
    /// The peer closed the session.
    Close,
    /// Any other protocol frame; accepted and ignored.
    Other,
}

/// What one receive on a session yields: a frame, the end of the session, or
/// a transport error. The latter two end the per-connection loop.
pub enum SessionEvent {
    Frame(Frame),
    Closed,
    TransportError,
}

/// The dispatcher's lifecycle: it runs from the moment a session opens until
/// the peer closes, the session ends or the transport fails.
#[derive(Clone, Copy, PartialEq, Eq, Debug, Structural)]
pub enum DispatchState {
    Running,
    Terminated,
}

/// Which persistence collaborator handles a payload.
#[derive(Clone, Copy, PartialEq, Eq, Debug, Structural)]
pub enum Collaborator {
    Image,
    Text,
}

/// The dispatcher's single reaction to one session event. The caller performs
/// it — sends the frame or invokes the collaborator — and loops.
pub enum Action {
    /// Nothing to do: the event was ignored, logged, or ended the session.
    Ignore,
    /// Answer a ping with a pong carrying the identical payload.
    SendPong(Vec<u8>),
    /// Hand the extracted payload to the named collaborator; its outcome goes
    /// through `reply_for_outcome` and the result is sent back.
    Invoke { which: Collaborator, file_type: String, mime: String, payload: String },
    /// Send this text back as one Text frame; no collaborator is involved.
    SendReply(String),
}

/// Whether `p` is a prefix of `s`.
pub open spec fn starts_with(s: Seq<char>, p: Seq<char>) -> bool {
    p.len() <= s.len() && s.subrange(0, p.len() as int) == p
}

/// Which collaborator a MIME type selects: the `image/` prefix the image one,
/// the `text/` prefix the text one, anything else none.
pub open spec fn route_of(mime: Seq<char>) -> Option<Collaborator> {
    if starts_with(mime, "image/"@) {
        Some(Collaborator::Image)
    } else if starts_with(mime, "text/"@) {
        Some(Collaborator::Text)
    } else {
        None
    }
}

/// The state after one event: a peer close, the end of the session and a
/// transport error terminate the dispatcher; every other event keeps it
/// running, whether or not the frame was well formed.
pub open spec fn next_state(st: DispatchState, event: SessionEvent) -> DispatchState {
    if st is Terminated {
        DispatchState::Terminated
    } else {
        match event {
            SessionEvent::Frame(Frame::Close) => DispatchState::Terminated,
            SessionEvent::Closed => DispatchState::Terminated,
            SessionEvent::TransportError => DispatchState::Terminated,
            _ => DispatchState::Running,
        }
    }
}

/// A MIME type under the `image/` prefix is routed to the image collaborator
/// and to no other.
pub proof fn lemma_image_mime_routes_to_image(mime: Seq<char>)
    requires
        starts_with(mime, "image/"@),
    ensures
        route_of(mime) == Some(Collaborator::Image),
{
}

/// A MIME type under the `text/` prefix is routed to the text collaborator
/// and to no other: no such type also carries the `image/` prefix.
pub proof fn lemma_text_mime_routes_to_text(mime: Seq<char>)
    requires
        starts_with(mime, "text/"@),
    ensures
        route_of(mime) == Some(Collaborator::Text),
{
    reveal_strlit("text/");
    reveal_strlit("image/");
    assert(mime.subrange(0, 5)[0] == mime[0]);
    assert(mime[0] == 't');
    if starts_with(mime, "image/"@) {
        assert(mime.subrange(0, 6)[0] == mime[0]);
        assert(mime[0] == 'i');
    }
}

/// Whether `p` is a prefix of `s`.
fn str_starts_with(s: &str, p: &str) -> (r: bool)
    ensures
        r == starts_with(s@, p@),
{
    let sn = s.unicode_len();
    let pn = p.unicode_len();
    if pn > sn {
        return false;
    }
    let mut i: usize = 0;
    while i < pn
        invariant
            sn == s@.len(),
            pn == p@.len(),
            pn <= sn,
            i <= pn,
            forall|j: int| 0 <= j < i ==> s@[j] == p@[j],
        decreases pn - i,
    {
        if s.get_char(i) != p.get_char(i) {
            proof {
                assert(s@.subrange(0, pn as int)[i as int] == s@[i as int]);
            }
            return false;
        }
        i = i + 1;
    }
    proof {
        assert(s@.subrange(0, pn as int) =~= p@);
    }
    true
}

/// The per-connection dispatcher: one per session, driven by its own
/// execution unit, never shared.
pub struct Dispatcher {
    /// The current lifecycle state.
    pub state: DispatchState,
}

impl Dispatcher {
    /// A dispatcher for a freshly opened session, in the running state.
    pub fn new() -> (d: Dispatcher)
        ensures
            d.state == DispatchState::Running,
    {
        Dispatcher { state: DispatchState::Running }
    }

    /// Consumes one session event and decides the single reaction to it. A
    /// ping is answered with a pong of the identical payload; a text frame
    /// that parses as an envelope is routed by its MIME prefix to exactly one
    /// collaborator, or answered with an unknown-data error reply when the
    /// prefix matches neither; a text frame that does not parse is ignored
    /// and the session stays open; close, end-of-session and transport errors
    /// terminate the dispatcher and nothing else does.
    pub fn step(&mut self, event: SessionEvent) -> (a: Action)
        ensures
            final(self).state == next_state(old(self).state, event),
            old(self).state is Terminated ==> a is Ignore,
            old(self).state is Running ==> match event {
                SessionEvent::Closed => a is Ignore,
                SessionEvent::TransportError => a is Ignore,
                SessionEvent::Frame(f) => match f {
                    Frame::Close => a is Ignore,
                    Frame::Binary(_) => a is Ignore,
                    Frame::Other => a is Ignore,
                    Frame::Pong(_) => a is Ignore,
                    Frame::Ping(b) => a matches Action::SendPong(p) && p@ == b@,
                    Frame::Text(s) => match parsed_envelope(s@) {
                        None => a is Ignore,
                        Some(env) => match route_of(env.1) {
                            Some(c) => a matches Action::Invoke { which, file_type, mime, payload }
                                && which == c && file_type@ == env.0 && mime@ == env.1 && payload@
                                == payload_of(env.2),
                            None => a matches Action::SendReply(t) && t@ == reply_json(
                                "Error, Received unknown data"@,
                                env.0,
                                0,
                                Seq::<char>::empty(),
                                Seq::<char>::empty(),
                            ),
                        },
                    },
                },
            },
    {
        match self.state {
            DispatchState::Terminated => Action::Ignore,
            DispatchState::Running => match event {
                SessionEvent::Closed => {
                    self.state = DispatchState::Terminated;
                    Action::Ignore
                },
                SessionEvent::TransportError => {
                    self.state = DispatchState::Terminated;
                    Action::Ignore
                },
                SessionEvent::Frame(f) => match f {
                    Frame::Close => {
                        self.state = DispatchState::Terminated;
                        Action::Ignore
                    },
                    Frame::Binary(_) => Action::Ignore,
                    Frame::Other => Action::Ignore,
                    Frame::Pong(_) => Action::Ignore,
                    Frame::Ping(b) => Action::SendPong(b),
                    Frame::Text(s) => match parse_envelope(s.as_str()) {
                        None => Action::Ignore,
                        Some(env) => {
                            let payload = String::from_str(env.base64_data());
                            if str_starts_with(env.mime.as_str(), "image/") {
                                Action::Invoke {
                                    which: Collaborator::Image,
                                    file_type: env.file_type,
                                    mime: env.mime,
                                    payload,
                                }
                            } else if str_starts_with(env.mime.as_str(), "text/") {
                                Action::Invoke {
                                    which: Collaborator::Text,
                                    file_type: env.file_type,
                                    mime: env.mime,
                                    payload,
                                }
                            } else {
                                let reply = IncomingImageReply {
                                    status: String::from_str("Error, Received unknown data"),
                                    file_type: env.file_type,
                                    len: 0,
                                    name: String::new(),
                                    uri: String::new(),
                                };
                                Action::SendReply(reply.to_json())
                            }
                        },
                    },
                },
            },
        }
    }
}

/// The text sent back for one collaborator outcome: the collaborator's own
/// reply serialized when it succeeded, a synthesized error reply carrying its
/// message when it failed. Either way exactly one reply answers the envelope.
pub fn reply_for_outcome(outcome: Result<IncomingImageReply, String>) -> (t: String)
    ensures
        match outcome {
            Ok(r) => t@ == r.json(),
            Err(e) => t@ == reply_json(
                "Error: "@ + e@,
                Seq::<char>::empty(),
                0,
                Seq::<char>::empty(),
                Seq::<char>::empty(),
            ),
        },
{
    match outcome {
        Ok(r) => r.to_json(),
        Err(e) => IncomingImageReply::error(e.as_str()).to_json(),
    }
}

} // verus!
