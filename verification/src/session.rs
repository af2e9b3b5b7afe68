use vstd::prelude::*;
use vstd::string::StringSliceAdditionalSpecFns;

use crate::command::{challenge_wire, spec_authenticated_wire, spec_challenge_wire,
    spec_command_body, spec_command_wire, Command};
use crate::errors::KrakenError;
use crate::json::spec_parse_json;
use crate::message::{msg_v, spec_decode_message, Message, MessageV};
use crate::signing::{base64_decoded, sign_challenge, spec_challenge_signature};
use crate::text::spec_string_bytes;

verus! {

// ---------------------------------------------------------------------------
// Frames
// ---------------------------------------------------------------------------

/// One inbound websocket frame, as the transport delivers it.
pub enum Frame {
    Text(String),
    Binary(Vec<u8>),
    Ping,
    Pong,
    Close,
}

/// One outbound websocket frame for the transport to write: a text payload,
/// or a control frame.
#[derive(Debug, PartialEq, Eq)]
pub enum OutFrame {
    Text(Vec<u8>),
    Ping,
    Pong,
}

/// What decoding a text frame's payload gives, if anything.
pub open spec fn spec_decode_text(b: Seq<u8>) -> Option<MessageV> {
    match spec_parse_json(b) {
        Some(doc) => spec_decode_message(doc),
        None => None,
    }
}

/// What decoding a whole frame gives, if anything: control frames pass
/// through as messages, close and binary frames give nothing.
pub open spec fn spec_frame_result(f: Frame) -> Option<MessageV> {
    match f {
        Frame::Text(s) => spec_decode_text(spec_string_bytes(s)),
        Frame::Ping => Some(MessageV::Ping),
        Frame::Pong => Some(MessageV::Pong),
        Frame::Binary(_) => None,
        Frame::Close => None,
    }
}

/// Decodes one frame on its own. A text frame that parses and classifies is
/// a message; ping and pong control frames pass through as messages; a
/// close frame reports the socket closed; a binary frame is a protocol
/// violation carrying its content; an unreadable text frame is a decode
/// failure carrying the frame text. No frame's outcome depends on any other
/// frame.
pub fn decode_frame(f: Frame) -> (r: Result<Message, KrakenError>)
    ensures
        match spec_frame_result(f) {
            Some(mv) => r matches Ok(m) && msg_v(m) == mv,
            None => r is Err,
        },
        match f {
            Frame::Text(s) => spec_decode_text(spec_string_bytes(s)) is None ==> (r matches Err(e)
                && e matches KrakenError::CannotDeserializeResponse(t) && t@ == s@),
            Frame::Binary(c) => r matches Err(e) && e matches
                KrakenError::UnexpectedWebsocketBinaryContent(d) && d@ == c@,
            Frame::Close => r == Err::<Message, KrakenError>(KrakenError::WebsocketClosed),
            _ => true,
        },
{
    match f {
        Frame::Text(s) => {
            let doc = match crate::json::parse_json(s.as_str().as_bytes()) {
                Some(doc) => doc,
                None => {
                    return Err(KrakenError::CannotDeserializeResponse(s));
                },
            };
            match crate::message::decode_message(doc) {
                Some(m) => Ok(m),
                None => Err(KrakenError::CannotDeserializeResponse(s)),
            }
        },
        Frame::Binary(c) => Err(KrakenError::UnexpectedWebsocketBinaryContent(c)),
        Frame::Ping => Ok(Message::Ping),
        Frame::Pong => Ok(Message::Pong),
        Frame::Close => Err(KrakenError::WebsocketClosed),
    }
}

/// Decodes a sequence of frames, each frame on its own: a malformed frame
/// yields an error at its own place and every other frame still decodes.
pub fn decode_frames(frames: Vec<Frame>) -> (r: Vec<Result<Message, KrakenError>>)
    ensures
        r@.len() == frames@.len(),
        forall|i: int|
            0 <= i < frames@.len() ==> match spec_frame_result(#[trigger] frames@[i]) {
                Some(mv) => r@[i] matches Ok(m) && msg_v(m) == mv,
                None => r@[i] is Err,
            },
{
    let ghost frames0 = frames@;
    let mut rest = frames;
    let mut out: Vec<Result<Message, KrakenError>> = Vec::new();
    while rest.len() > 0
        invariant
            out@.len() + rest@.len() == frames0.len(),
            rest@ =~= frames0.skip(out@.len() as int),
            forall|i: int|
                0 <= i < out@.len() ==> match spec_frame_result(#[trigger] frames0[i]) {
                    Some(mv) => out@[i] matches Ok(m) && msg_v(m) == mv,
                    None => out@[i] is Err,
                },
        decreases rest@.len(),
    {
        let ghost k = out@.len() as int;
        let f = rest.remove(0);
        proof {
            assert(f == frames0[k]);
            assert(rest@ =~= frames0.skip(k + 1));
        }
        let d = decode_frame(f);
        out.push(d);
    }
    out
}

// ---------------------------------------------------------------------------
// The session
// ---------------------------------------------------------------------------

/// Where the handshake stands.
#[derive(Clone, Copy, Debug, PartialEq, Eq, Structural)]
pub enum SessionState {
    Disconnected,
    Connected,
    ChallengeRequested,
    Authenticated,
    Closed,
}

/// What moves the handshake: sending a challenge request, receiving the
/// challenge, or the transport closing.
#[derive(Clone, Copy, Debug, PartialEq, Eq, Structural)]
pub enum SessionEvent {
    ChallengeSent,
    ChallengeReceived,
    TransportClosed,
}

/// The handshake's transition relation: a challenge request moves a fresh
/// connection to awaiting the challenge, the challenge's arrival
/// authenticates it, and a close ends any state; anything else stands still.
pub open spec fn spec_step(s: SessionState, e: SessionEvent) -> SessionState {
    match e {
        SessionEvent::ChallengeSent => if s is Connected {
            SessionState::ChallengeRequested
        } else {
            s
        },
        SessionEvent::ChallengeReceived => if s is ChallengeRequested || s is Connected {
            SessionState::Authenticated
        } else {
            s
        },
        SessionEvent::TransportClosed => SessionState::Closed,
    }
}

/// A websocket session: the optional credential and where the handshake
/// stands. The transport itself lives with the caller, who writes the
/// frames this session encodes and hands back the frames it receives.
pub struct Session {
    pub credential: Option<(String, String)>,
    pub state: SessionState,
}

impl Session {
    /// A session over a fresh connection; the credential is stored but not
    /// used until a signed operation is asked for.
    pub fn new(credential: Option<(String, String)>) -> (r: Session)
        ensures
            r.state is Connected,
            r.credential == credential,
    {
        Session { credential, state: SessionState::Connected }
    }

    /// Encodes one command for sending. Subscriptions need no credential
    /// and no handshake; the challenge request needs the API key and fails
    /// fast without one; ping and pong become control frames. A successful
    /// challenge request moves the handshake forward.
    pub fn send(&mut self, cmd: &Command) -> (r: Result<OutFrame, KrakenError>)
        ensures
            final(self).credential == old(self).credential,
            spec_command_wire(cmd) matches Some(w) ==> (r matches Ok(f) && f matches
                OutFrame::Text(v) && v@ == w),
            cmd is Ping ==> (r matches Ok(f) && f is Ping),
            cmd is Pong ==> (r matches Ok(f) && f is Pong),
            cmd is Challenge ==> match old(self).credential {
                None => r == Err::<OutFrame, KrakenError>(KrakenError::NoApiKeySet),
                Some(c) => r matches Ok(f) && f matches OutFrame::Text(v) && v@
                    == spec_challenge_wire(spec_string_bytes(c.0)),
            },
            final(self).state == if cmd is Challenge && r is Ok {
                spec_step(old(self).state, SessionEvent::ChallengeSent)
            } else {
                old(self).state
            },
    {
        match cmd {
            Command::Challenge => {
                let key = match &self.credential {
                    None => {
                        return Err(KrakenError::NoApiKeySet);
                    },
                    Some((k, _)) => k,
                };
                let wire = challenge_wire(key.as_str());
                if matches!(self.state, SessionState::Connected) {
                    self.state = SessionState::ChallengeRequested;
                }
                Ok(OutFrame::Text(wire))
            },
            Command::Ping => Ok(OutFrame::Ping),
            Command::Pong => Ok(OutFrame::Pong),
            _ => match cmd.to_wire() {
                Ok(v) => Ok(OutFrame::Text(v)),
                Err(e) => Err(e),
            },
        }
    }

    /// Encodes one command in the compound authenticated form, consuming a
    /// server challenge by reference: the command's fields together with the
    /// API key, the original challenge and its signature. Fails fast with a
    /// missing credential, with a secret that is not base64, and with a
    /// control-only command, in that order.
    pub fn send_authenticated(&self, cmd: &Command, challenge: &str) -> (r: Result<
        OutFrame,
        KrakenError,
    >)
        ensures
            match self.credential {
                None => r == Err::<OutFrame, KrakenError>(KrakenError::NoApiKeySet),
                Some(c) => match base64_decoded(c.1@) {
                    None => r == Err::<OutFrame, KrakenError>(KrakenError::Base64DecodeFailed),
                    Some(k) => match spec_command_body(cmd) {
                        None => r == Err::<OutFrame, KrakenError>(KrakenError::CannotSerialize),
                        Some(_) => r matches Ok(f) && f matches OutFrame::Text(v) && Some(v@)
                            == spec_authenticated_wire(
                            cmd,
                            spec_string_bytes(c.0),
                            challenge.spec_bytes(),
                            vstd::utf8::encode_utf8(
                                spec_challenge_signature(k, challenge.spec_bytes()),
                            ),
                        ),
                    },
                },
            },
    {
        let (key, secret) = match &self.credential {
            None => {
                return Err(KrakenError::NoApiKeySet);
            },
            Some((k, s)) => (k, s),
        };
        let sig = match sign_challenge(secret.as_str(), challenge) {
            Ok(sig) => sig,
            Err(e) => {
                return Err(e);
            },
        };
        match cmd.to_authenticated_wire(key.as_str(), challenge, sig.as_str()) {
            Ok(v) => Ok(OutFrame::Text(v)),
            Err(e) => Err(e),
        }
    }

    /// Decodes one received frame and keeps the handshake state current: a
    /// challenge reply authenticates the session, a close frame closes it.
    /// A frame that cannot be decoded reports its error and changes nothing,
    /// and the next frame is decoded as if it never came.
    pub fn next(&mut self, f: Frame) -> (r: Result<Message, KrakenError>)
        ensures
            final(self).credential == old(self).credential,
            match spec_frame_result(f) {
                Some(mv) => r matches Ok(m) && msg_v(m) == mv,
                None => r is Err,
            },
            f is Close ==> r == Err::<Message, KrakenError>(KrakenError::WebsocketClosed),
            final(self).state == if f is Close {
                spec_step(old(self).state, SessionEvent::TransportClosed)
            } else if (r matches Ok(m) && m is Challenge) {
                spec_step(old(self).state, SessionEvent::ChallengeReceived)
            } else {
                old(self).state
            },
    {
        let is_close = matches!(f, Frame::Close);
        let r = decode_frame(f);
        if is_close {
            self.state = SessionState::Closed;
        } else if matches!(r, Ok(Message::Challenge { .. })) {
            if matches!(self.state, SessionState::ChallengeRequested) || matches!(
                self.state,
                SessionState::Connected,
            ) {
                self.state = SessionState::Authenticated;
            }
        }
        r
    }
}

} // verus!
