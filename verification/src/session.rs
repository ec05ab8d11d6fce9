//! The per-connection websocket session state machine.
//!
//! One session runs per accepted connection: the upgrade completes, a
//! liveness probe is sent, exactly one inbound frame is awaited as proof of
//! liveness, and then a relay loop echoes the peer's frames back until a
//! close frame or a transport failure ends it. The machine here decides
//! every transition; the caller performs the transport work each action asks
//! for and reports what happened as the next event.

use vstd::prelude::*;

verus! {

/// The close payload of a close frame, when the peer sent one.
#[derive(Debug)]
pub struct CloseReason {
    pub code: u16,
    pub reason: String,
}

/// A websocket frame, as the session logic sees it.
#[derive(Debug)]
pub enum Frame {
    Text(String),
    Binary(Vec<u8>),
    Ping(Vec<u8>),
    Pong(Vec<u8>),
    Close(Option<CloseReason>),
}

/// Whether the relay loop goes on after a frame.
#[derive(Debug, PartialEq, Eq, Structural)]
pub enum RelayFlow {
    Proceed,
    Terminate,
}

/// Dispatches one inbound frame: a close frame is the sole frame that ends
/// the relay loop; every other frame type lets it proceed.
pub fn process_message(message: &Frame) -> (r: RelayFlow)
    ensures
        r == RelayFlow::Terminate <==> message is Close,
{
    match message {
        Frame::Close(_) => RelayFlow::Terminate,
        _ => RelayFlow::Proceed,
    }
}

/// The states of one session, from upgrade to teardown; `Closed` is
/// terminal.
#[derive(Debug, PartialEq, Eq, Structural, Clone, Copy)]
pub enum SessionState {
    Upgrading,
    Probing,
    AwaitingLiveness,
    Relaying,
    Closed,
}

/// What the transport reported since the last transition.
#[derive(Debug)]
pub enum SessionEvent {
    /// The protocol upgrade handshake completed.
    UpgradeComplete,
    /// The session's `ActiveConnection` was recorded in the registry.
    Registered,
    /// The liveness probe was written to the peer.
    ProbeSent,
    /// The liveness probe could not be sent.
    ProbeSendFailed,
    /// A frame arrived from the peer.
    FrameReceived(Frame),
    /// Receiving failed, or the stream ended.
    ReceiveFailed,
    /// The echo of the previous frame was written to the peer.
    EchoSent,
    /// The echo of the previous frame could not be sent.
    EchoSendFailed,
}

/// What the caller must do next. Every transition into `Closed` asks for the
/// registry entry's removal, so a torn-down session never lingers in the
/// registry.
#[derive(Debug)]
pub enum SessionAction {
    /// Record the session's `ActiveConnection` in the registry.
    RegisterConnection,
    /// Send the liveness probe (a ping with [`liveness_payload`]).
    SendProbe,
    /// Wait, under a bound, for one inbound frame.
    AwaitFrame,
    /// Echo the frame back to the peer.
    EchoFrame(Frame),
    /// Remove the session's `ActiveConnection` from the registry.
    RemoveConnection,
    /// Nothing.
    NoAction,
}

/// The transition table of the session machine.
///
/// In `AwaitingLiveness` any well-formed frame other than a close counts as
/// proof of liveness, whatever its content. In `Relaying`, text and binary
/// frames are echoed back to the same peer, a close frame ends the session,
/// and pings and pongs need no application action. Every transport failure,
/// and every close frame, leads to `Closed`; an event that its state cannot
/// produce changes nothing.
pub open spec fn spec_session_step(state: SessionState, event: SessionEvent) -> (SessionState,
    SessionAction) {
    match (state, event) {
        (SessionState::Upgrading, SessionEvent::UpgradeComplete) => (
            SessionState::Probing,
            SessionAction::RegisterConnection,
        ),
        (SessionState::Probing, SessionEvent::Registered) => (
            SessionState::Probing,
            SessionAction::SendProbe,
        ),
        (SessionState::Probing, SessionEvent::ProbeSent) => (
            SessionState::AwaitingLiveness,
            SessionAction::AwaitFrame,
        ),
        (SessionState::Probing, SessionEvent::ProbeSendFailed) => (
            SessionState::Closed,
            SessionAction::RemoveConnection,
        ),
        (SessionState::AwaitingLiveness, SessionEvent::FrameReceived(frame)) => if frame is Close {
            (SessionState::Closed, SessionAction::RemoveConnection)
        } else {
            (SessionState::Relaying, SessionAction::AwaitFrame)
        },
        (SessionState::AwaitingLiveness, SessionEvent::ReceiveFailed) => (
            SessionState::Closed,
            SessionAction::RemoveConnection,
        ),
        (SessionState::Relaying, SessionEvent::FrameReceived(frame)) => match frame {
            Frame::Text(text) => (
                SessionState::Relaying,
                SessionAction::EchoFrame(Frame::Text(text)),
            ),
            Frame::Binary(data) => (
                SessionState::Relaying,
                SessionAction::EchoFrame(Frame::Binary(data)),
            ),
            Frame::Close(_) => (SessionState::Closed, SessionAction::RemoveConnection),
            Frame::Ping(_) => (SessionState::Relaying, SessionAction::AwaitFrame),
            Frame::Pong(_) => (SessionState::Relaying, SessionAction::AwaitFrame),
        },
        (SessionState::Relaying, SessionEvent::ReceiveFailed) => (
            SessionState::Closed,
            SessionAction::RemoveConnection,
        ),
        (SessionState::Relaying, SessionEvent::EchoSent) => (
            SessionState::Relaying,
            SessionAction::AwaitFrame,
        ),
        (SessionState::Relaying, SessionEvent::EchoSendFailed) => (
            SessionState::Closed,
            SessionAction::RemoveConnection,
        ),
        (s, _) => (s, SessionAction::NoAction),
    }
}

/// Performs one transition of the session machine.
pub fn session_step(state: SessionState, event: SessionEvent) -> (r: (SessionState, SessionAction))
    ensures
        r == spec_session_step(state, event),
{
    match (state, event) {
        (SessionState::Upgrading, SessionEvent::UpgradeComplete) => (
            SessionState::Probing,
            SessionAction::RegisterConnection,
        ),
        (SessionState::Probing, SessionEvent::Registered) => (
            SessionState::Probing,
            SessionAction::SendProbe,
        ),
        (SessionState::Probing, SessionEvent::ProbeSent) => (
            SessionState::AwaitingLiveness,
            SessionAction::AwaitFrame,
        ),
        (SessionState::Probing, SessionEvent::ProbeSendFailed) => (
            SessionState::Closed,
            SessionAction::RemoveConnection,
        ),
        (SessionState::AwaitingLiveness, SessionEvent::FrameReceived(frame)) => match frame {
            Frame::Close(_) => (SessionState::Closed, SessionAction::RemoveConnection),
            _ => (SessionState::Relaying, SessionAction::AwaitFrame),
        },
        (SessionState::AwaitingLiveness, SessionEvent::ReceiveFailed) => (
            SessionState::Closed,
            SessionAction::RemoveConnection,
        ),
        (SessionState::Relaying, SessionEvent::FrameReceived(frame)) => match frame {
            Frame::Text(text) => (
                SessionState::Relaying,
                SessionAction::EchoFrame(Frame::Text(text)),
            ),
            Frame::Binary(data) => (
                SessionState::Relaying,
                SessionAction::EchoFrame(Frame::Binary(data)),
            ),
            Frame::Close(_) => (SessionState::Closed, SessionAction::RemoveConnection),
            Frame::Ping(_) => (SessionState::Relaying, SessionAction::AwaitFrame),
            Frame::Pong(_) => (SessionState::Relaying, SessionAction::AwaitFrame),
        },
        (SessionState::Relaying, SessionEvent::ReceiveFailed) => (
            SessionState::Closed,
            SessionAction::RemoveConnection,
        ),
        (SessionState::Relaying, SessionEvent::EchoSent) => (
            SessionState::Relaying,
            SessionAction::AwaitFrame,
        ),
        (SessionState::Relaying, SessionEvent::EchoSendFailed) => (
            SessionState::Closed,
            SessionAction::RemoveConnection,
        ),
        (s, _) => (s, SessionAction::NoAction),
    }
}

/// The fixed payload of the liveness probe.
pub open spec fn spec_liveness_payload() -> Seq<u8> {
    seq![1u8, 2u8, 3u8]
}

/// The fixed payload the liveness probe is sent with.
pub fn liveness_payload() -> (r: Vec<u8>)
    ensures
        r@ == spec_liveness_payload(),
{
    let mut payload: Vec<u8> = Vec::new();
    payload.push(1);
    payload.push(2);
    payload.push(3);
    proof {
        assert(payload@ =~= spec_liveness_payload());
    }
    payload
}

/// Whether a pong's payload is the one the liveness probe was sent with;
/// a mismatch is only diagnostic and never ends the session.
pub fn is_expected_pong(payload: &Vec<u8>) -> (r: bool)
    ensures
        r == (payload@ == spec_liveness_payload()),
{
    if payload.len() != 3 {
        proof {
            assert(payload@ != spec_liveness_payload());
        }
        return false;
    }
    let r = payload[0] == 1 && payload[1] == 2 && payload[2] == 3;
    proof {
        if r {
            assert(payload@ =~= spec_liveness_payload());
        } else {
            assert(payload@ != spec_liveness_payload());
        }
    }
    r
}

/// A close frame received mid-relay ends the session: the machine moves to
/// `Closed`, asks for the registry entry's removal, and echoes nothing.
pub proof fn lemma_close_frame_terminates_relay(reason: Option<CloseReason>)
    ensures
        spec_session_step(SessionState::Relaying, SessionEvent::FrameReceived(Frame::Close(reason)))
            == (SessionState::Closed, SessionAction::RemoveConnection),
{
}

/// `Closed` is terminal: no event moves the machine out of it or makes it
/// act again, so nothing further is echoed after a session ends.
pub proof fn lemma_closed_is_terminal(event: SessionEvent)
    ensures
        spec_session_step(SessionState::Closed, event) == (
            SessionState::Closed,
            SessionAction::NoAction,
        ),
{
}

/// The machine reaches `Closed` only while asking for the registry entry's
/// removal: teardown never leaves the entry behind.
pub proof fn lemma_closing_removes_registration(state: SessionState, event: SessionEvent)
    requires
        state != SessionState::Closed,
        spec_session_step(state, event).0 == SessionState::Closed,
    ensures
        spec_session_step(state, event).1 == SessionAction::RemoveConnection,
{
}

} // verus!
