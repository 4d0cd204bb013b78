//! The EventSub websocket: what a received message or frame means, and what
//! the connection does about it.

use vstd::prelude::*;
use twitch_api::eventsub::{Event, EventsubWebsocketData};

verus! {

/// The subscriptions whose notifications the connection acts on.
#[derive(Clone, Copy, Debug, PartialEq, Eq, Structural)]
pub enum EventKind {
    ChannelBan,
    ChannelUnban,
    Other,
}

/// An EventSub event as the connection sees it: which subscription it
/// belongs to, and what kind of message it carries.
#[derive(Clone, Copy, Debug, PartialEq, Eq, Structural)]
pub struct NotificationEvent {
    pub kind: EventKind,
    pub is_verification_request: bool,
    pub is_revocation: bool,
    pub is_notification: bool,
}

/// A websocket frame of the EventSub protocol.
#[derive(Clone, Debug, PartialEq, Eq)]
pub enum SocketFrame {
    /// The session started; carries the session id to subscribe with.
    Welcome(String),
    /// The connection is alive.
    Keepalive,
    /// An event of a subscription.
    Notification(NotificationEvent),
    /// A subscription was revoked; carries a description of the revocation.
    Revocation(String),
    /// The server asks to move to another connection, at the URL carried.
    Reconnect(Option<String>),
    /// Any other kind of frame.
    Other,
}

/// What the connection does next.
#[derive(Clone, Debug, PartialEq, Eq)]
pub enum SocketStep {
    /// Nothing.
    Nothing,
    /// Restart the keepalive timeout.
    ResetKeepalive,
    /// Subscribe to the channel's events within the session carried, record
    /// that the subscriptions exist, then tell the previous connection to stop.
    SubscribeThenKillPredecessor(String),
    /// Tell the previous connection to stop.
    KillPredecessor,
    /// Open a successor connection to the URL carried and wait for it.
    SpawnSuccessor(String),
}

/// Why the connection ends.
#[derive(Clone, Debug, PartialEq, Eq)]
pub enum SocketError {
    /// A received frame could not be parsed.
    ParseFailed,
    /// A subscription of the connection was revoked (a revocation frame),
    /// described by the text carried.
    Revoked(String),
    /// A notification payload reported the subscription as revoked.
    SubscriptionRevoked,
    /// The stream ended without a close frame.
    StreamClosed,
    /// The server closed the stream, for the reason carried.
    ClosedWithReason(String),
}

/// The EventSub frame that the websocket text `frame` holds, or none when
/// the text is not one (as `twitch_api`'s websocket parser reads it).
pub uninterp spec fn websocket_frame(frame: Seq<char>) -> Option<SocketFrame>;

/// Reads a websocket text with `twitch_api::eventsub::Event::parse_websocket`
/// and keeps of the result what the connection acts on. The contract claims
/// that the result is the parser's reading of `frame`, and that the event of
/// a notification frame always carries a notification message, since the
/// parser reads such payloads with `Payload::parse_notification`.
#[verifier::external_body]
fn parse_websocket_frame(frame: &str) -> (r: Option<SocketFrame>)
    ensures
        r == websocket_frame(frame@),
        r matches Some(SocketFrame::Notification(e)) ==> e.is_notification
            && !e.is_revocation && !e.is_verification_request,
{
    Some(match Event::parse_websocket(frame).ok()? {
        EventsubWebsocketData::Welcome { payload, .. } => SocketFrame::Welcome(payload.session.id.into_owned()),
        EventsubWebsocketData::Keepalive { .. } => SocketFrame::Keepalive,
        EventsubWebsocketData::Notification { payload, .. } => SocketFrame::Notification(NotificationEvent {
            kind: match &payload { Event::ChannelBanV1(_) => EventKind::ChannelBan, Event::ChannelUnbanV1(_) => EventKind::ChannelUnban, _ => EventKind::Other },
            is_verification_request: payload.is_verification_request(), is_revocation: payload.is_revocation(), is_notification: payload.is_notification(),
        }),
        EventsubWebsocketData::Revocation { metadata, .. } => SocketFrame::Revocation(format!("{metadata:?}")),
        EventsubWebsocketData::Reconnect { payload, .. } => SocketFrame::Reconnect(payload.session.reconnect_url.map(String::from)),
        _ => SocketFrame::Other,
    })
}

/// A message received on the websocket stream.
#[derive(Clone, Debug, PartialEq, Eq)]
pub enum SocketMessage {
    Text(String),
    Binary,
    Ping,
    Pong,
    /// A close frame, with the reason that it gave, if it gave one.
    Close(Option<String>),
    /// A raw frame, which the websocket layer never hands out when reading.
    Frame,
}

/// What a received message leaves to do.
#[derive(Clone, Debug, PartialEq, Eq)]
pub enum Received {
    /// A text frame to process.
    Text(String),
    /// A ping or pong: nothing to process; the token is refreshed if it
    /// expires soon.
    RefreshToken,
}

/// The text of a close frame's reason: empty when it gave none.
pub open spec fn close_reason_text(reason: Option<String>) -> Seq<char> {
    match reason {
        Some(r) => r@,
        None => Seq::empty(),
    }
}

/// Whether the connection handles `message`: binary messages and raw frames
/// are not handled.
pub open spec fn handled_message(message: Option<SocketMessage>) -> bool {
    !(message == Some(SocketMessage::Binary) || message == Some(SocketMessage::Frame))
}

/// What a received message (none when the stream ended) leaves to do: the
/// end of the stream and close frames end the connection, text frames are to
/// be processed, pings and pongs only keep the token fresh.
pub fn receive_outcome(message: Option<SocketMessage>) -> (r: Result<Received, SocketError>)
    requires
        handled_message(message),
    ensures
        match message {
            None => r == Err::<Received, SocketError>(SocketError::StreamClosed),
            Some(SocketMessage::Close(reason)) => (r matches Err(SocketError::ClosedWithReason(
                text,
            )) && text@ == close_reason_text(reason)),
            Some(SocketMessage::Text(t)) => r == Ok::<Received, SocketError>(Received::Text(t)),
            Some(_) => r == Ok::<Received, SocketError>(Received::RefreshToken),
        },
{
    match message {
        None => Err(SocketError::StreamClosed),
        Some(SocketMessage::Close(reason)) => {
            let reason = match reason {
                Some(r) => r,
                None => String::new(),
            };
            Err(SocketError::ClosedWithReason(reason))
        },
        Some(SocketMessage::Text(t)) => Ok(Received::Text(t)),
        Some(_) => Ok(Received::RefreshToken),
    }
}

/// Whether `event` is a channel event whose payload the connection reads.
pub open spec fn is_channel_moderation(event: NotificationEvent) -> bool {
    event.kind == EventKind::ChannelBan || event.kind == EventKind::ChannelUnban
}

/// Whether the connection can take `event`: a ban or unban event never
/// carries a webhook verification request on a websocket.
pub open spec fn payload_handled(event: NotificationEvent) -> bool {
    is_channel_moderation(event) ==> !event.is_verification_request
}

/// The step for an event: a revoked ban or unban subscription ends the
/// connection, a ban or unban notification restarts the keepalive timeout,
/// and everything else is ignored.
pub open spec fn spec_process_payload(event: NotificationEvent) -> Result<SocketStep, SocketError> {
    if !is_channel_moderation(event) {
        Ok(SocketStep::Nothing)
    } else if event.is_revocation {
        Err(SocketError::SubscriptionRevoked)
    } else if event.is_notification {
        Ok(SocketStep::ResetKeepalive)
    } else {
        Ok(SocketStep::Nothing)
    }
}

/// Handles the events that the connection listens to.
pub fn process_payload(event: NotificationEvent) -> (r: Result<SocketStep, SocketError>)
    requires
        payload_handled(event),
    ensures
        r == spec_process_payload(event),
{
    match event.kind {
        EventKind::ChannelBan | EventKind::ChannelUnban => {
            if event.is_revocation {
                Err(SocketError::SubscriptionRevoked)
            } else if event.is_notification {
                Ok(SocketStep::ResetKeepalive)
            } else {
                Ok(SocketStep::Nothing)
            }
        },
        EventKind::Other => Ok(SocketStep::Nothing),
    }
}

/// Whether the connection can act on `frame`: a reconnect frame names the
/// URL to move to, and a notification carries an event that it can take.
pub open spec fn frame_handled(frame: SocketFrame) -> bool {
    match frame {
        SocketFrame::Reconnect(url) => url is Some,
        SocketFrame::Notification(event) => payload_handled(event),
        _ => true,
    }
}

/// The step for a frame, given whether the channel's subscriptions already
/// exist: a welcome subscribes once and then stops the previous connection,
/// a reconnect spawns the successor, a keepalive restarts the timeout, a
/// revocation ends the connection, and notifications go by their event.
pub open spec fn spec_frame_step(frame: SocketFrame, subscribed: bool) -> Result<SocketStep, SocketError> {
    match frame {
        SocketFrame::Welcome(session_id) => if subscribed {
            Ok(SocketStep::KillPredecessor)
        } else {
            Ok(SocketStep::SubscribeThenKillPredecessor(session_id))
        },
        SocketFrame::Reconnect(url) => Ok(SocketStep::SpawnSuccessor(url.unwrap())),
        SocketFrame::Keepalive => Ok(SocketStep::ResetKeepalive),
        SocketFrame::Revocation(description) => Err(SocketError::Revoked(description)),
        SocketFrame::Notification(event) => spec_process_payload(event),
        SocketFrame::Other => Ok(SocketStep::Nothing),
    }
}

/// What the connection does about a parsed frame.
pub fn frame_step(frame: SocketFrame, subscribed: bool) -> (r: Result<SocketStep, SocketError>)
    requires
        frame_handled(frame),
    ensures
        r == spec_frame_step(frame, subscribed),
{
    match frame {
        SocketFrame::Welcome(session_id) => {
            if subscribed {
                Ok(SocketStep::KillPredecessor)
            } else {
                Ok(SocketStep::SubscribeThenKillPredecessor(session_id))
            }
        },
        SocketFrame::Reconnect(url) => match url {
            Some(u) => Ok(SocketStep::SpawnSuccessor(u)),
            None => Ok(SocketStep::Nothing),
        },
        SocketFrame::Keepalive => Ok(SocketStep::ResetKeepalive),
        SocketFrame::Revocation(description) => Err(SocketError::Revoked(description)),
        SocketFrame::Notification(event) => process_payload(event),
        SocketFrame::Other => Ok(SocketStep::Nothing),
    }
}

/// What the connection does about the websocket text `frame`: an
/// unparsable text ends it, a parsed frame goes by `frame_step`. A parsed
/// frame that the connection cannot act on (a reconnect frame without a URL)
/// gives none.
pub fn process_message(frame: &str, subscribed: bool) -> (r: Option<Result<SocketStep, SocketError>>)
    ensures
        r == match websocket_frame(frame@) {
            None => Some(Err(SocketError::ParseFailed)),
            Some(f) => if frame_handled(f) {
                Some(spec_frame_step(f, subscribed))
            } else {
                None
            },
        },
{
    match parse_websocket_frame(frame) {
        None => Some(Err(SocketError::ParseFailed)),
        Some(f) => {
            if frame_is_handled(&f) {
                Some(frame_step(f, subscribed))
            } else {
                None
            }
        },
    }
}

fn frame_is_handled(frame: &SocketFrame) -> (b: bool)
    ensures
        b == frame_handled(*frame),
{
    match frame {
        SocketFrame::Reconnect(url) => url.is_some(),
        SocketFrame::Notification(event) => match event.kind {
            EventKind::ChannelBan | EventKind::ChannelUnban => !event.is_verification_request,
            EventKind::Other => true,
        },
        _ => true,
    }
}

} // verus!
