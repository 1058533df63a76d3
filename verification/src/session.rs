//! Per-connection state machine of the streaming endpoint.
//!
//! A session owns one bidirectional connection for its lifetime. It is purely
//! reactive: each inbound frame produces at most one outbound frame, and the
//! only state is whether the connection is still live. A `Close` frame (and
//! nothing else) ends the session; a frame the transport could not decode is
//! tolerated and produces nothing.

use vstd::prelude::*;

verus! {

/// Reason attached to a `Close` frame: a status code and an optional text.
#[derive(Debug, PartialEq, Eq)]
pub struct CloseReason {
    pub code: u16,
    pub description: Option<String>,
}

/// One discrete unit of the bidirectional streaming exchange.
#[derive(Debug, PartialEq, Eq)]
pub enum Frame {
    Ping(Vec<u8>),
    Pong(Vec<u8>),
    Text(String),
    Binary(Vec<u8>),
    Close(Option<CloseReason>),
    Continuation,
    Nop,
}

/// An inbound frame the transport failed to decode.
#[derive(Debug, Clone, Copy, PartialEq, Eq)]
pub struct DecodeError;

/// The frame a live session sends back for one inbound frame, if any:
/// a `Ping` draws a matching `Pong`, `Text` and `Binary` are echoed
/// verbatim, a `Close` is answered with a `Close` carrying the same
/// reason, and the rest draw nothing.
pub open spec fn echo_response(f: Frame) -> Option<Frame> {
    match f {
        Frame::Ping(p) => Some(Frame::Pong(p)),
        Frame::Pong(_) => None,
        Frame::Text(t) => Some(Frame::Text(t)),
        Frame::Binary(b) => Some(Frame::Binary(b)),
        Frame::Close(r) => Some(Frame::Close(r)),
        Frame::Continuation => None,
        Frame::Nop => None,
    }
}

/// Whether a live session is still live after taking this frame:
/// only a `Close` frame ends it.
pub open spec fn stays_live(f: Frame) -> bool {
    !(f is Close)
}

/// One live bidirectional connection. Its state moves from live to closed
/// once, on a `Close` frame or on loss of the transport, and never back.
pub struct WsSession {
    live: bool,
}

impl WsSession {
    /// Whether the session still owns a live connection.
    pub closed spec fn is_live(&self) -> bool {
        self.live
    }

    /// A fresh session for a connection that just completed its upgrade.
    pub fn new() -> (s: Self)
        ensures
            s.is_live(),
    {
        WsSession { live: true }
    }

    /// Whether the session has not yet been closed.
    pub fn is_open(&self) -> (b: bool)
        ensures
            b == self.is_live(),
    {
        self.live
    }

    /// Take one inbound frame (or a transport decode failure) and produce the
    /// outbound frame it draws, if any. While live, the reply is exactly
    /// [`echo_response`], a decode failure is tolerated without closing, and
    /// only a `Close` frame ends the session. A closed session is inert.
    pub fn handle(&mut self, msg: Result<Frame, DecodeError>) -> (out: Option<Frame>)
        ensures
            old(self).is_live() ==> match msg {
                Ok(f) => out == echo_response(f) && final(self).is_live() == stays_live(f),
                Err(_) => out is None && final(self).is_live(),
            },
            !old(self).is_live() ==> out is None && !final(self).is_live(),
    {
        if !self.live {
            return None;
        }
        match msg {
            Ok(Frame::Ping(p)) => Some(Frame::Pong(p)),
            Ok(Frame::Pong(_)) => None,
            Ok(Frame::Text(t)) => Some(Frame::Text(t)),
            Ok(Frame::Binary(b)) => Some(Frame::Binary(b)),
            Ok(Frame::Close(r)) => {
                self.live = false;
                Some(Frame::Close(r))
            },
            Ok(Frame::Continuation) => None,
            Ok(Frame::Nop) => None,
            Err(_) => None,
        }
    }

    /// The peer tore the transport down: the session ends exactly as if a
    /// `Close` frame had arrived, except that nothing can be sent back.
    pub fn transport_closed(&mut self)
        ensures
            !final(self).is_live(),
    {
        self.live = false;
    }

    /// Feed a whole inbound sequence, one frame at a time, and collect every
    /// outbound frame. The outbound sequence is exactly [`outputs_from`]: one
    /// inbound frame draws at most one outbound frame, outbound order is
    /// inbound processing order, and nothing sent after a `Close` frame is
    /// answered.
    pub fn handle_all(&mut self, inbound: Vec<Result<Frame, DecodeError>>) -> (out: Vec<Frame>)
        ensures
            out@ == outputs_from(old(self).is_live(), inbound@),
            final(self).is_live() == live_after(old(self).is_live(), inbound@),
    {
        let ghost live0 = self.is_live();
        let ghost all = inbound@;
        let mut msgs = inbound;
        let mut out: Vec<Frame> = Vec::new();
        while msgs.len() > 0
            invariant
                outputs_from(live0, all) == out@ + outputs_from(self.is_live(), msgs@),
                live_after(live0, all) == live_after(self.is_live(), msgs@),
            decreases msgs.len(),
        {
            let msg = msgs.remove(0);
            let r = self.handle(msg);
            match r {
                Some(f) => out.push(f),
                None => (),
            }
        }
        out
    }
}

/// All frames a session that is live iff `live` sends back over a whole
/// inbound sequence, in processing order: the [`echo_response`] of each
/// frame taken while live, with everything after a `Close` frame unanswered.
pub open spec fn outputs_from(live: bool, inbound: Seq<Result<Frame, DecodeError>>) -> Seq<Frame>
    decreases inbound.len(),
{
    if !live || inbound.len() == 0 {
        Seq::empty()
    } else {
        match inbound.first() {
            Ok(f) => match echo_response(f) {
                Some(r) => seq![r] + outputs_from(stays_live(f), inbound.drop_first()),
                None => outputs_from(live, inbound.drop_first()),
            },
            Err(_) => outputs_from(live, inbound.drop_first()),
        }
    }
}

/// Whether a session that is live iff `live` is still live after taking a
/// whole inbound sequence: live at the start and no `Close` frame taken
/// while live.
pub open spec fn live_after(live: bool, inbound: Seq<Result<Frame, DecodeError>>) -> bool
    decreases inbound.len(),
{
    if !live || inbound.len() == 0 {
        live
    } else {
        match inbound.first() {
            Ok(f) => live_after(stays_live(f), inbound.drop_first()),
            Err(_) => live_after(live, inbound.drop_first()),
        }
    }
}

} // verus!
