//! The wire protocol: the messages in both directions and their JSON mapping.

use vstd::prelude::*;
use vstd::string::StringExecFns;
use crate::json::{
    array_view, bounded_member, find_member, item_views, json_document, member, object_view,
    optional_text_member, parse, read_bounded, read_optional_text, read_text, string_literal,
    text_member, EncodeError, Json, JsonValue,
};

verus! {

/// One notification as the service sends it.
#[derive(Debug, Clone, PartialEq, Eq)]
pub struct WitchcraftNotification {
    pub id: String,
    pub title: String,
    pub message: String,
    pub notification_type: String,
    pub priority: u8,
    pub action_url: Option<String>,
    pub action_label: Option<String>,
    pub created_at: String,
}

/// A message from the service.
#[derive(Debug, Clone, PartialEq, Eq)]
pub enum WitchcraftMessage {
    Connected { user_id: String, timestamp: String, method: Option<String> },
    UnreadNotifications { count: usize, notifications: Vec<WitchcraftNotification> },
    Notification { event: String, data: WitchcraftNotification },
    Pong,
}

/// A control message to the service.
#[derive(Debug, Clone, PartialEq, Eq)]
pub enum WitchcraftOutgoingMessage {
    MarkRead { notification_id: String },
    Ping,
}

/// A token together with the socket address it is good for.
#[derive(Debug, Clone, PartialEq, Eq)]
pub struct TokenResponse {
    pub token: String,
    pub websocket_url: String,
}

/// How grave a notification is.
#[derive(Debug, Clone, Copy, PartialEq, Eq, Structural)]
pub enum Severity {
    Info,
    Success,
    Warning,
    Error,
}

/// Why a text frame is no message of the protocol.
#[derive(Debug, Clone, Copy, PartialEq, Eq, Structural)]
pub enum ProtocolError {
    /// The text is no JSON document.
    Malformed,
    /// The document is no object, or has no string member `type`.
    NoDiscriminator,
    /// The member `type` names no variant of the protocol.
    UnknownDiscriminator,
    /// The variant is known, and a member it needs is missing or of the wrong kind.
    InvalidPayload,
}

/// A notification as a mathematical value.
pub struct NotificationView {
    pub id: Seq<char>,
    pub title: Seq<char>,
    pub message: Seq<char>,
    pub notification_type: Seq<char>,
    pub priority: u8,
    pub action_url: Option<Seq<char>>,
    pub action_label: Option<Seq<char>>,
    pub created_at: Seq<char>,
}

/// An inbound message as a mathematical value.
pub enum MessageView {
    Connected { user_id: Seq<char>, timestamp: Seq<char>, method: Option<Seq<char>> },
    UnreadNotifications { count: usize, notifications: Seq<NotificationView> },
    Notification { event: Seq<char>, data: NotificationView },
    Pong,
}

/// An outbound message as a mathematical value.
pub enum OutgoingView {
    MarkRead { notification_id: Seq<char> },
    Ping,
}

/// The characters of a string that may be absent.
pub open spec fn optional_text(o: Option<String>) -> Option<Seq<char>> {
    match o {
        Some(s) => Some(s@),
        None => None,
    }
}

/// The notifications of a list, each as a mathematical value.
pub open spec fn notification_views(list: Seq<WitchcraftNotification>) -> Seq<NotificationView> {
    list.map_values(|n: WitchcraftNotification| n@)
}

impl View for WitchcraftNotification {
    type V = NotificationView;

    open spec fn view(&self) -> NotificationView {
        NotificationView {
            id: self.id@,
            title: self.title@,
            message: self.message@,
            notification_type: self.notification_type@,
            priority: self.priority,
            action_url: optional_text(self.action_url),
            action_label: optional_text(self.action_label),
            created_at: self.created_at@,
        }
    }
}

impl View for WitchcraftMessage {
    type V = MessageView;

    open spec fn view(&self) -> MessageView {
        match *self {
            WitchcraftMessage::Connected { user_id, timestamp, method } => MessageView::Connected {
                user_id: user_id@,
                timestamp: timestamp@,
                method: optional_text(method),
            },
            WitchcraftMessage::UnreadNotifications {
                count,
                notifications,
            } => MessageView::UnreadNotifications {
                count,
                notifications: notification_views(notifications@),
            },
            WitchcraftMessage::Notification { event, data } => MessageView::Notification {
                event: event@,
                data: data@,
            },
            WitchcraftMessage::Pong => MessageView::Pong,
        }
    }
}

impl View for WitchcraftOutgoingMessage {
    type V = OutgoingView;

    open spec fn view(&self) -> OutgoingView {
        match *self {
            WitchcraftOutgoingMessage::MarkRead { notification_id } => OutgoingView::MarkRead {
                notification_id: notification_id@,
            },
            WitchcraftOutgoingMessage::Ping => OutgoingView::Ping,
        }
    }
}

/// The severity that a notification's `type` stands for: `success`, `warning`
/// and `error` by name, anything else informational.
pub open spec fn severity_of(notification_type: Seq<char>) -> Severity {
    if notification_type == "success"@ {
        Severity::Success
    } else if notification_type == "warning"@ {
        Severity::Warning
    } else if notification_type == "error"@ {
        Severity::Error
    } else {
        Severity::Info
    }
}

/// The notification that an object's members describe: `id`, `title`,
/// `message`, `type` and `createdAt` are strings, `priority` is an integer
/// from 0 to 255, `actionUrl` and `actionLabel` are strings, null or left
/// out. Other members are ignored.
pub open spec fn notification_of_members(m: Seq<(Seq<char>, JsonValue)>) -> Option<
    NotificationView,
> {
    if text_member(m, "id"@) is Some && text_member(m, "title"@) is Some && text_member(
        m,
        "message"@,
    ) is Some && text_member(m, "type"@) is Some && bounded_member(m, "priority"@, 255) is Some
        && optional_text_member(m, "actionUrl"@) is Some && optional_text_member(
        m,
        "actionLabel"@,
    ) is Some && text_member(m, "createdAt"@) is Some {
        Some(
            NotificationView {
                id: text_member(m, "id"@)->0,
                title: text_member(m, "title"@)->0,
                message: text_member(m, "message"@)->0,
                notification_type: text_member(m, "type"@)->0,
                priority: bounded_member(m, "priority"@, 255)->0 as u8,
                action_url: optional_text_member(m, "actionUrl"@)->0,
                action_label: optional_text_member(m, "actionLabel"@)->0,
                created_at: text_member(m, "createdAt"@)->0,
            },
        )
    } else {
        None
    }
}

/// The notification that a JSON value describes, if it is an object that
/// describes one.
pub open spec fn notification_of(j: JsonValue) -> Option<NotificationView> {
    match j {
        JsonValue::Object(m) => notification_of_members(m),
        _ => None,
    }
}

/// The notifications that a JSON value describes: an array of which every
/// item describes one.
pub open spec fn notifications_of(j: JsonValue) -> Option<Seq<NotificationView>> {
    match j {
        JsonValue::Array(items) => if forall|i: int|
            0 <= i < items.len() ==> (#[trigger] notification_of(items[i])) is Some {
            Some(Seq::new(items.len(), |i: int| notification_of(items[i])->0))
        } else {
            None
        },
        _ => None,
    }
}

/// The `connected` message that the members describe.
pub open spec fn connected_of(m: Seq<(Seq<char>, JsonValue)>) -> Result<MessageView, ProtocolError> {
    if text_member(m, "userId"@) is Some && text_member(m, "timestamp"@) is Some
        && optional_text_member(m, "method"@) is Some {
        Ok(
            MessageView::Connected {
                user_id: text_member(m, "userId"@)->0,
                timestamp: text_member(m, "timestamp"@)->0,
                method: optional_text_member(m, "method"@)->0,
            },
        )
    } else {
        Err(ProtocolError::InvalidPayload)
    }
}

/// The `unread_notifications` message that the members describe.
pub open spec fn unread_of(m: Seq<(Seq<char>, JsonValue)>) -> Result<MessageView, ProtocolError> {
    if bounded_member(m, "count"@, usize::MAX as int) is Some && member(m, "notifications"@) is Some
        && notifications_of(member(m, "notifications"@)->0) is Some {
        Ok(
            MessageView::UnreadNotifications {
                count: bounded_member(m, "count"@, usize::MAX as int)->0 as usize,
                notifications: notifications_of(member(m, "notifications"@)->0)->0,
            },
        )
    } else {
        Err(ProtocolError::InvalidPayload)
    }
}

/// The `notification` message that the members describe.
pub open spec fn event_of(m: Seq<(Seq<char>, JsonValue)>) -> Result<MessageView, ProtocolError> {
    if text_member(m, "event"@) is Some && member(m, "data"@) is Some && notification_of(
        member(m, "data"@)->0,
    ) is Some {
        Ok(
            MessageView::Notification {
                event: text_member(m, "event"@)->0,
                data: notification_of(member(m, "data"@)->0)->0,
            },
        )
    } else {
        Err(ProtocolError::InvalidPayload)
    }
}

/// The message that a JSON value describes: an object whose string member
/// `type` selects the variant, and whose other members fill it.
pub open spec fn message_of(j: JsonValue) -> Result<MessageView, ProtocolError> {
    match j {
        JsonValue::Object(m) => match text_member(m, "type"@) {
            Some(tag) => if tag == "connected"@ {
                connected_of(m)
            } else if tag == "unread_notifications"@ {
                unread_of(m)
            } else if tag == "notification"@ {
                event_of(m)
            } else if tag == "pong"@ {
                Ok(MessageView::Pong)
            } else {
                Err(ProtocolError::UnknownDiscriminator)
            },
            None => Err(ProtocolError::NoDiscriminator),
        },
        _ => Err(ProtocolError::NoDiscriminator),
    }
}

/// The message that a text frame carries.
pub open spec fn message_of_text(text: Seq<char>) -> Result<MessageView, ProtocolError> {
    match json_document(text) {
        Some(j) => message_of(j),
        None => Err(ProtocolError::Malformed),
    }
}

/// The text of the frame that carries an outbound message.
pub open spec fn outgoing_text(msg: OutgoingView) -> Seq<char> {
    match msg {
        OutgoingView::MarkRead { notification_id } => "{\"type\":\"mark_read\",\"notificationId\":"@
            + string_literal(notification_id) + "}"@,
        OutgoingView::Ping => "{\"type\":\"ping\"}"@,
    }
}

/// A decoded message, or the reason there is none, as a mathematical value.
pub open spec fn decoded_view(r: Result<WitchcraftMessage, ProtocolError>) -> Result<
    MessageView,
    ProtocolError,
> {
    match r {
        Ok(m) => Ok(m@),
        Err(e) => Err(e),
    }
}

/// Whether a string reads `literal`.
fn reads(s: &String, literal: &str) -> (b: bool)
    ensures
        b == (s@ == literal@),
{
    let wanted = String::from_str(literal);
    *s == wanted
}

impl WitchcraftNotification {
    /// Reads a notification from a JSON value.
    pub fn from_json(j: &Json) -> (r: Option<WitchcraftNotification>)
        ensures
            r matches Some(n) ==> notification_of(j@) == Some(n@),
            r is None ==> notification_of(j@) is None,
    {
        match j {
            Json::Object(m) => {
                proof {
                    object_view(*m);
                }
                let id = match read_text(m, "id") {
                    Some(v) => v,
                    None => return None,
                };
                let title = match read_text(m, "title") {
                    Some(v) => v,
                    None => return None,
                };
                let message = match read_text(m, "message") {
                    Some(v) => v,
                    None => return None,
                };
                let notification_type = match read_text(m, "type") {
                    Some(v) => v,
                    None => return None,
                };
                let priority = match read_bounded(m, "priority", 255) {
                    Some(v) => v as u8,
                    None => return None,
                };
                let action_url = match read_optional_text(m, "actionUrl") {
                    Some(v) => v,
                    None => return None,
                };
                let action_label = match read_optional_text(m, "actionLabel") {
                    Some(v) => v,
                    None => return None,
                };
                let created_at = match read_text(m, "createdAt") {
                    Some(v) => v,
                    None => return None,
                };
                Some(
                    WitchcraftNotification {
                        id,
                        title,
                        message,
                        notification_type,
                        priority,
                        action_url,
                        action_label,
                        created_at,
                    },
                )
            },
            _ => None,
        }
    }

    /// Reads the notifications of a JSON array.
    pub fn list_from_json(j: &Json) -> (r: Option<Vec<WitchcraftNotification>>)
        ensures
            r matches Some(list) ==> notifications_of(j@) == Some(notification_views(list@)),
            r is None ==> notifications_of(j@) is None,
    {
        match j {
            Json::Array(items) => {
                proof {
                    array_view(*items);
                }
                let ghost values = item_views(items@);
                let mut list: Vec<WitchcraftNotification> = Vec::new();
                let mut i: usize = 0;
                while i < items.len()
                    invariant
                        j@ == JsonValue::Array(values),
                        values == item_views(items@),
                        i <= items.len(),
                        list@.len() == i,
                        forall|k: int|
                            0 <= k < i ==> (#[trigger] notification_of(values[k])) == Some(
                                list@[k]@,
                            ),
                    decreases items.len() - i,
                {
                    assert(values[i as int] == items@[i as int]@);
                    match WitchcraftNotification::from_json(&items[i]) {
                        Some(n) => {
                            list.push(n);
                        },
                        None => {
                            assert(notification_of(values[i as int]) is None);
                            return None;
                        },
                    }
                    i = i + 1;
                }
                assert(notification_views(list@) =~= Seq::new(
                    values.len(),
                    |k: int| notification_of(values[k])->0,
                ));
                Some(list)
            },
            _ => None,
        }
    }

    /// A copy of the notification.
    pub fn duplicate(&self) -> (copy: WitchcraftNotification)
        ensures
            copy@ == self@,
    {
        WitchcraftNotification {
            id: self.id.clone(),
            title: self.title.clone(),
            message: self.message.clone(),
            notification_type: self.notification_type.clone(),
            priority: self.priority,
            action_url: match &self.action_url {
                Some(url) => Some(url.clone()),
                None => None,
            },
            action_label: match &self.action_label {
                Some(label) => Some(label.clone()),
                None => None,
            },
            created_at: self.created_at.clone(),
        }
    }

    /// The severity that the notification's type stands for.
    pub fn severity(&self) -> (r: Severity)
        ensures
            r == severity_of(self.notification_type@),
    {
        if reads(&self.notification_type, "success") {
            Severity::Success
        } else if reads(&self.notification_type, "warning") {
            Severity::Warning
        } else if reads(&self.notification_type, "error") {
            Severity::Error
        } else {
            Severity::Info
        }
    }

    /// The line that announces the notification: its title, a colon and a
    /// space, and its message.
    pub fn toast_text(&self) -> (r: String)
        ensures
            r@ == self.title@ + ": "@ + self.message@,
    {
        let mut line = self.title.clone();
        line.append(": ");
        line.append(self.message.as_str());
        line
    }

    /// The label of the notification's action: none without an address,
    /// else the label it came with, or `View`.
    pub fn action_text(&self) -> (r: Option<String>)
        ensures
            optional_text(r) == action_text_of(self@),
    {
        match &self.action_url {
            None => None,
            Some(_) => match &self.action_label {
                Some(label) => Some(label.clone()),
                None => Some(String::from_str("View")),
            },
        }
    }
}

/// The label under which a notification offers its action.
pub open spec fn action_text_of(n: NotificationView) -> Option<Seq<char>> {
    match n.action_url {
        None => None,
        Some(_) => match n.action_label {
            Some(label) => Some(label),
            None => Some("View"@),
        },
    }
}

impl WitchcraftMessage {
    /// Reads a message from a JSON value.
    pub fn from_json(j: &Json) -> (r: Result<WitchcraftMessage, ProtocolError>)
        ensures
            decoded_view(r) == message_of(j@),
    {
        match j {
            Json::Object(m) => {
                proof {
                    object_view(*m);
                }
                let tag = match read_text(m, "type") {
                    Some(t) => t,
                    None => return Err(ProtocolError::NoDiscriminator),
                };
                if reads(&tag, "connected") {
                    let user_id = match read_text(m, "userId") {
                        Some(v) => v,
                        None => return Err(ProtocolError::InvalidPayload),
                    };
                    let timestamp = match read_text(m, "timestamp") {
                        Some(v) => v,
                        None => return Err(ProtocolError::InvalidPayload),
                    };
                    let method = match read_optional_text(m, "method") {
                        Some(v) => v,
                        None => return Err(ProtocolError::InvalidPayload),
                    };
                    Ok(WitchcraftMessage::Connected { user_id, timestamp, method })
                } else if reads(&tag, "unread_notifications") {
                    let count = match read_bounded(m, "count", usize::MAX as u64) {
                        Some(v) => v as usize,
                        None => return Err(ProtocolError::InvalidPayload),
                    };
                    let notifications = match find_member(m, "notifications") {
                        Some(list) => match WitchcraftNotification::list_from_json(list) {
                            Some(v) => v,
                            None => return Err(ProtocolError::InvalidPayload),
                        },
                        None => return Err(ProtocolError::InvalidPayload),
                    };
                    Ok(WitchcraftMessage::UnreadNotifications { count, notifications })
                } else if reads(&tag, "notification") {
                    let event = match read_text(m, "event") {
                        Some(v) => v,
                        None => return Err(ProtocolError::InvalidPayload),
                    };
                    let data = match find_member(m, "data") {
                        Some(item) => match WitchcraftNotification::from_json(item) {
                            Some(v) => v,
                            None => return Err(ProtocolError::InvalidPayload),
                        },
                        None => return Err(ProtocolError::InvalidPayload),
                    };
                    Ok(WitchcraftMessage::Notification { event, data })
                } else if reads(&tag, "pong") {
                    Ok(WitchcraftMessage::Pong)
                } else {
                    Err(ProtocolError::UnknownDiscriminator)
                }
            },
            _ => Err(ProtocolError::NoDiscriminator),
        }
    }

    /// Reads the message that a text frame carries.
    pub fn decode(text: &str) -> (r: Result<WitchcraftMessage, ProtocolError>)
        ensures
            decoded_view(r) == message_of_text(text@),
    {
        match parse(text) {
            Some(j) => WitchcraftMessage::from_json(&j),
            None => Err(ProtocolError::Malformed),
        }
    }
}

impl WitchcraftOutgoingMessage {
    /// The text of the frame that carries the message.
    pub fn encode(&self) -> (r: Result<String, EncodeError>)
        ensures
            r is Ok,
            r matches Ok(text) ==> text@ == outgoing_text(self@),
    {
        match self {
            WitchcraftOutgoingMessage::MarkRead { notification_id } => {
                match Json::quote(notification_id.as_str()) {
                    Ok(quoted) => {
                        let mut text = String::from_str("{\"type\":\"mark_read\",\"notificationId\":");
                        text.append(quoted.as_str());
                        text.append("}");
                        Ok(text)
                    },
                    Err(e) => Err(e),
                }
            },
            WitchcraftOutgoingMessage::Ping => Ok(String::from_str("{\"type\":\"ping\"}")),
        }
    }
}

} // verus!
