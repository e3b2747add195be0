//! Messages the listener hands to the transport layer for sending.

use vstd::prelude::*;

verus! {

/// A message queued for sending, with the room it belongs to.
#[derive(Debug)]
pub struct MatrixMessage {
    /// Destination room, when one is known.
    pub room_id: Option<String>,
    /// What to send.
    pub message: MatrixMessageType,
}

/// The kinds of message the bot sends.
#[derive(Debug)]
pub enum MatrixMessageType {
    /// Answer to a room invite.
    Invite(MatrixInviteMessage),
    /// Plain text.
    Text(String),
    /// Plain notice.
    Notice(String),
    /// Text with an optional formatted body.
    FormattedText(MatrixFormattedMessage),
    /// Notice with an optional formatted body.
    FormattedNotice(MatrixFormattedMessage),
    /// A ban to apply.
    Ban(MatrixBanMessage),
}

/// Whether an invite is taken or declined.
#[derive(Debug, PartialEq, Eq, Structural)]
pub enum MatrixInviteType {
    /// Join the room.
    Accept,
    /// Decline the invite.
    Reject,
}

/// A message body with an optional formatted rendering.
#[derive(Debug)]
pub struct MatrixFormattedMessage {
    /// The plain-text body.
    pub plain_text: String,
    /// The formatted body, if any.
    pub formatted_text: Option<String>,
}

/// The answer to a room invite.
#[derive(Debug)]
pub struct MatrixInviteMessage {
    /// Whether the invite is accepted or rejected.
    pub kind: MatrixInviteType,
    /// The user who sent the invite.
    pub sender: String,
}

/// A ban to apply across rooms.
#[derive(Debug)]
pub struct MatrixBanMessage {
    /// The user to ban.
    pub user: String,
    /// The reason to record, if any.
    pub reason: Option<String>,
    /// The rooms the ban applies to.
    pub rooms: Vec<String>,
}

} // verus!
