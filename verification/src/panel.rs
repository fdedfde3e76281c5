//! The consumer's side of the stream: the list of notifications that the
//! panel shows, in which no identifier stands twice, and what the panel
//! shows while there is no connection.

use vstd::prelude::*;
use crate::protocol::{
    notification_views, optional_text, MessageView, NotificationView, WitchcraftMessage,
    WitchcraftNotification,
};

verus! {

/// Whether a notification with this identifier is in the list.
pub open spec fn has_id(list: Seq<NotificationView>, id: Seq<char>) -> bool {
    exists|i: int| 0 <= i < list.len() && (#[trigger] list[i]).id == id
}

/// Whether no identifier stands twice in the list.
pub open spec fn distinct_ids(list: Seq<NotificationView>) -> bool {
    forall|i: int, j: int|
        0 <= i < j < list.len() ==> (#[trigger] list[i]).id != (#[trigger] list[j]).id
}

/// How often an identifier stands in the list.
pub open spec fn occurrences(list: Seq<NotificationView>, id: Seq<char>) -> nat
    decreases list.len(),
{
    if list.len() == 0 {
        0
    } else if list.last().id == id {
        occurrences(list.drop_last(), id) + 1
    } else {
        occurrences(list.drop_last(), id)
    }
}

/// The list after a notification was observed: it goes to the end unless
/// its identifier is in the list already.
pub open spec fn observe(list: Seq<NotificationView>, n: NotificationView) -> Seq<
    NotificationView,
> {
    if has_id(list, n.id) {
        list
    } else {
        list.push(n)
    }
}

/// The list after a batch was observed, one notification after the other.
pub open spec fn observe_all(list: Seq<NotificationView>, batch: Seq<NotificationView>) -> Seq<
    NotificationView,
>
    decreases batch.len(),
{
    if batch.len() == 0 {
        list
    } else {
        observe(observe_all(list, batch.drop_last()), batch.last())
    }
}

/// The panel as a mathematical value.
pub struct PanelState {
    pub notifications: Seq<NotificationView>,
    pub connected: bool,
    pub connecting: bool,
}

/// The panel after a message from the stream.
pub open spec fn after_message(state: PanelState, message: MessageView) -> PanelState {
    match message {
        MessageView::Connected { .. } => PanelState { connected: true, ..state },
        MessageView::UnreadNotifications { notifications, .. } => PanelState {
            notifications: observe_all(state.notifications, notifications),
            ..state
        },
        MessageView::Notification { data, .. } => PanelState {
            notifications: observe(state.notifications, data),
            ..state
        },
        MessageView::Pong => state,
    }
}

/// The panel after a run of messages.
pub open spec fn after_messages(state: PanelState, messages: Seq<MessageView>) -> PanelState
    decreases messages.len(),
{
    if messages.len() == 0 {
        state
    } else {
        after_message(after_messages(state, messages.drop_last()), messages.last())
    }
}

/// The line to announce a message with: that of a single notification whose
/// identifier the panel has not seen.
pub open spec fn toast_of(state: PanelState, message: MessageView) -> Option<Seq<char>> {
    match message {
        MessageView::Notification { data, .. } => if has_id(state.notifications, data.id) {
            None
        } else {
            Some(data.title + ": "@ + data.message)
        },
        _ => None,
    }
}

/// Whether a message carries a notification with this identifier.
pub open spec fn carries(message: MessageView, id: Seq<char>) -> bool {
    match message {
        MessageView::UnreadNotifications { notifications, .. } => has_id(notifications, id),
        MessageView::Notification { data, .. } => data.id == id,
        _ => false,
    }
}

/// What the panel shows.
#[derive(Debug, Clone, Copy, PartialEq, Eq, Structural)]
pub enum PanelBody {
    /// The prompt to connect, with what it offers.
    Prompt { loading: bool, connect_notifications: bool, connect_account: bool },
    /// The word that there are no notifications.
    Empty,
    /// The streamed notifications, then the stored ones.
    List { streamed: usize, stored: usize },
}

/// What the panel shows, given whether the account is connected and how many
/// stored notifications there are.
pub open spec fn body_of(state: PanelState, account_connected: bool, stored: usize) -> PanelBody {
    if !state.connected || state.connecting {
        PanelBody::Prompt {
            loading: state.connecting,
            connect_notifications: !state.connected && !state.connecting,
            connect_account: !account_connected && !state.connected && !state.connecting,
        }
    } else if stored == 0 && state.notifications.len() == 0 {
        PanelBody::Empty
    } else {
        PanelBody::List { streamed: state.notifications.len() as usize, stored }
    }
}

/// What a message asks of the panel's owner.
#[derive(Debug, PartialEq, Eq)]
pub struct PanelUpdate {
    /// The line to announce, if any.
    pub toast: Option<String>,
    /// Whether the panel is to be drawn again.
    pub redraw: bool,
}

proof fn lemma_views_push(list: Seq<WitchcraftNotification>, n: WitchcraftNotification)
    ensures
        notification_views(list.push(n)) == notification_views(list).push(n@),
{
    assert(notification_views(list.push(n)) =~= notification_views(list).push(n@));
}

/// Observing a notification keeps the identifiers distinct and the earlier
/// entries in place, and leaves the notification's identifier in the list.
pub proof fn observe_keeps_ids_distinct(list: Seq<NotificationView>, n: NotificationView)
    requires
        distinct_ids(list),
    ensures
        distinct_ids(observe(list, n)),
        has_id(observe(list, n), n.id),
        forall|id: Seq<char>| has_id(list, id) ==> has_id(observe(list, n), id),
        list.len() <= observe(list, n).len(),
{
    let after = observe(list, n);
    if has_id(list, n.id) {
    } else {
        assert(after[list.len() as int].id == n.id);
        assert forall|id: Seq<char>| has_id(list, id) implies has_id(after, id) by {
            let i = choose|i: int| 0 <= i < list.len() && (#[trigger] list[i]).id == id;
            assert(after[i].id == id);
        }
        assert forall|i: int, j: int| 0 <= i < j < after.len() implies (#[trigger] after[i]).id != (
        #[trigger] after[j]).id by {
            if j == list.len() {
                assert(list[i].id != n.id);
            } else {
                assert(list[i].id != list[j].id);
            }
        }
    }
}

/// Observing a batch keeps the identifiers distinct and leaves every
/// identifier of the batch, and every earlier one, in the list.
pub proof fn observe_all_keeps_ids_distinct(list: Seq<NotificationView>, batch: Seq<NotificationView>)
    requires
        distinct_ids(list),
    ensures
        distinct_ids(observe_all(list, batch)),
        forall|id: Seq<char>| has_id(list, id) ==> has_id(observe_all(list, batch), id),
        forall|id: Seq<char>| has_id(batch, id) ==> has_id(observe_all(list, batch), id),
    decreases batch.len(),
{
    if batch.len() > 0 {
        let earlier = observe_all(list, batch.drop_last());
        observe_all_keeps_ids_distinct(list, batch.drop_last());
        observe_keeps_ids_distinct(earlier, batch.last());
        assert forall|id: Seq<char>| has_id(batch, id) implies has_id(
            observe_all(list, batch),
            id,
        ) by {
            let i = choose|i: int| 0 <= i < batch.len() && (#[trigger] batch[i]).id == id;
            if i < batch.len() - 1 {
                assert(batch.drop_last()[i].id == id);
                assert(has_id(batch.drop_last(), id));
                assert(has_id(earlier, id));
            } else {
                assert(batch.last().id == id);
                assert(has_id(observe(earlier, batch.last()), batch.last().id));
            }
        }
    } else {
        assert forall|id: Seq<char>| has_id(batch, id) implies has_id(
            observe_all(list, batch),
            id,
        ) by {
        }
    }
}

/// In a list of distinct identifiers, an identifier that is there is there
/// once.
pub proof fn listed_id_stands_once(list: Seq<NotificationView>, id: Seq<char>)
    requires
        distinct_ids(list),
    ensures
        has_id(list, id) ==> occurrences(list, id) == 1,
        !has_id(list, id) ==> occurrences(list, id) == 0,
    decreases list.len(),
{
    if list.len() > 0 {
        let front = list.drop_last();
        listed_id_stands_once(front, id);
        if list.last().id == id {
            if has_id(front, id) {
                let i = choose|i: int| 0 <= i < front.len() && (#[trigger] front[i]).id == id;
                assert(list[i].id == list[list.len() - 1].id);
                assert(false);
            }
            assert(list[list.len() - 1].id == id);
        } else {
            if has_id(list, id) {
                let i = choose|i: int| 0 <= i < list.len() && (#[trigger] list[i]).id == id;
                assert(front[i].id == id);
            }
            if has_id(front, id) {
                let i = choose|i: int| 0 <= i < front.len() && (#[trigger] front[i]).id == id;
                assert(list[i].id == id);
            }
        }
    }
}

/// A message keeps the identifiers distinct, keeps what was listed, and
/// lists what it carries.
pub proof fn message_keeps_ids_distinct(state: PanelState, message: MessageView)
    requires
        distinct_ids(state.notifications),
    ensures
        distinct_ids(after_message(state, message).notifications),
        forall|id: Seq<char>|
            has_id(state.notifications, id) ==> has_id(
                after_message(state, message).notifications,
                id,
            ),
        forall|id: Seq<char>|
            carries(message, id) ==> has_id(after_message(state, message).notifications, id),
{
    match message {
        MessageView::UnreadNotifications { notifications, .. } => {
            observe_all_keeps_ids_distinct(state.notifications, notifications);
        },
        MessageView::Notification { data, .. } => {
            observe_keeps_ids_distinct(state.notifications, data);
        },
        _ => {},
    }
}

/// However often the stream delivers a notification in a session, the list
/// holds its identifier exactly once: after any run of messages no
/// identifier stands twice, and each identifier that a message of the run
/// carried stands once.
pub proof fn each_observed_id_is_listed_once(
    state: PanelState,
    messages: Seq<MessageView>,
    k: int,
    id: Seq<char>,
)
    requires
        distinct_ids(state.notifications),
        0 <= k < messages.len(),
        carries(messages[k], id),
    ensures
        distinct_ids(after_messages(state, messages).notifications),
        occurrences(after_messages(state, messages).notifications, id) == 1,
    decreases messages.len(),
{
    session_keeps_ids_distinct(state, messages);
    let before = after_messages(state, messages.drop_last());
    let end = after_messages(state, messages);
    session_keeps_ids_distinct(state, messages.drop_last());
    message_keeps_ids_distinct(before, messages.last());
    if k == messages.len() - 1 {
        assert(has_id(end.notifications, id));
    } else {
        each_observed_id_is_listed_once(state, messages.drop_last(), k, id);
        listed_id_stands_once(before.notifications, id);
        assert(has_id(before.notifications, id));
        assert(has_id(end.notifications, id));
    }
    listed_id_stands_once(end.notifications, id);
}

/// A run of messages keeps the identifiers distinct.
pub proof fn session_keeps_ids_distinct(state: PanelState, messages: Seq<MessageView>)
    requires
        distinct_ids(state.notifications),
    ensures
        distinct_ids(after_messages(state, messages).notifications),
    decreases messages.len(),
{
    if messages.len() > 0 {
        session_keeps_ids_distinct(state, messages.drop_last());
        message_keeps_ids_distinct(after_messages(state, messages.drop_last()), messages.last());
    }
}

/// Whether the list holds a notification with this identifier.
fn holds_id(list: &Vec<WitchcraftNotification>, id: &String) -> (found: bool)
    ensures
        found == has_id(notification_views(list@), id@),
{
    let mut i: usize = 0;
    while i < list.len()
        invariant
            i <= list.len(),
            forall|k: int| 0 <= k < i ==> (#[trigger] notification_views(list@)[k]).id != id@,
        decreases list.len() - i,
    {
        if list[i].id == *id {
            assert(notification_views(list@)[i as int].id == id@);
            return true;
        }
        i = i + 1;
    }
    false
}

/// Puts a copy of the notification at the end of the list unless its
/// identifier is there already.
fn observe_into(list: &mut Vec<WitchcraftNotification>, n: &WitchcraftNotification) -> (added: bool)
    ensures
        notification_views(final(list)@) == observe(notification_views(old(list)@), n@),
        added == !has_id(notification_views(old(list)@), n@.id),
{
    if holds_id(list, &n.id) {
        false
    } else {
        let copy = n.duplicate();
        proof {
            lemma_views_push(list@, copy);
        }
        list.push(copy);
        true
    }
}

/// The list of streamed notifications, with the state of the connection.
#[derive(Debug, PartialEq, Eq)]
pub struct NotificationPanel {
    notifications: Vec<WitchcraftNotification>,
    connected: bool,
    connecting: bool,
}

impl View for NotificationPanel {
    type V = PanelState;

    closed spec fn view(&self) -> PanelState {
        PanelState {
            notifications: notification_views(self.notifications@),
            connected: self.connected,
            connecting: self.connecting,
        }
    }
}

impl NotificationPanel {
    #[verifier::type_invariant]
    spec fn ids_are_distinct(self) -> bool {
        distinct_ids(notification_views(self.notifications@))
    }

    /// An empty panel without a connection.
    pub fn new() -> (panel: NotificationPanel)
        ensures
            panel@ == (PanelState {
                notifications: Seq::<NotificationView>::empty(),
                connected: false,
                connecting: false,
            }),
    {
        let panel = NotificationPanel {
            notifications: Vec::new(),
            connected: false,
            connecting: false,
        };
        assert(panel@.notifications =~= Seq::<NotificationView>::empty());
        panel
    }

    /// Takes one message from the stream. The notifications it carries go
    /// to the list unless their identifiers are there already.
    pub fn handle_message(&mut self, message: &WitchcraftMessage) -> (update: PanelUpdate)
        ensures
            final(self)@ == after_message(old(self)@, message@),
            optional_text(update.toast) == toast_of(old(self)@, message@),
            update.redraw == !(message@ is Pong),
            distinct_ids(old(self)@.notifications),
            distinct_ids(final(self)@.notifications),
    {
        proof {
            use_type_invariant(&*self);
        }
        match message {
            WitchcraftMessage::Connected { .. } => {
                self.connected = true;
                PanelUpdate { toast: None, redraw: true }
            },
            WitchcraftMessage::UnreadNotifications { notifications, .. } => {
                let mut list: Vec<WitchcraftNotification> = Vec::new();
                std::mem::swap(&mut list, &mut self.notifications);
                let ghost start = notification_views(list@);
                let ghost batch = notification_views(notifications@);
                let mut i: usize = 0;
                while i < notifications.len()
                    invariant
                        i <= notifications.len(),
                        batch == notification_views(notifications@),
                        distinct_ids(start),
                        notification_views(list@) == observe_all(start, batch.take(i as int)),
                    decreases notifications.len() - i,
                {
                    assert(batch.take(i as int + 1).drop_last() =~= batch.take(i as int));
                    observe_into(&mut list, &notifications[i]);
                    i = i + 1;
                }
                assert(batch.take(i as int) =~= batch);
                proof {
                    observe_all_keeps_ids_distinct(start, batch);
                }
                self.notifications = list;
                PanelUpdate { toast: None, redraw: true }
            },
            WitchcraftMessage::Notification { data, .. } => {
                let mut list: Vec<WitchcraftNotification> = Vec::new();
                std::mem::swap(&mut list, &mut self.notifications);
                proof {
                    observe_keeps_ids_distinct(notification_views(list@), data@);
                }
                let added = observe_into(&mut list, data);
                self.notifications = list;
                let toast = if added {
                    Some(data.toast_text())
                } else {
                    None
                };
                PanelUpdate { toast, redraw: true }
            },
            WitchcraftMessage::Pong => PanelUpdate { toast: None, redraw: false },
        }
    }

    /// Whether a notification with this identifier is listed.
    pub fn contains(&self, id: &String) -> (found: bool)
        ensures
            found == has_id(self@.notifications, id@),
    {
        holds_id(&self.notifications, id)
    }

    /// The listed notifications, oldest first.
    pub fn notifications(&self) -> (list: &Vec<WitchcraftNotification>)
        ensures
            notification_views(list@) == self@.notifications,
            distinct_ids(notification_views(list@)),
    {
        proof {
            use_type_invariant(self);
        }
        &self.notifications
    }

    /// Whether the service has confirmed the connection.
    pub fn is_connected(&self) -> (r: bool)
        ensures
            r == self@.connected,
    {
        self.connected
    }

    /// Whether a connection is being set up.
    pub fn is_connecting(&self) -> (r: bool)
        ensures
            r == self@.connecting,
    {
        self.connecting
    }

    /// Notes that a connection is being set up.
    pub fn begin_connect(&mut self)
        ensures
            final(self)@ == (PanelState { connecting: true, ..old(self)@ }),
    {
        proof {
            use_type_invariant(&*self);
        }
        self.connecting = true;
    }

    /// Notes that setting up the connection has ended, for better or worse.
    pub fn end_connect(&mut self)
        ensures
            final(self)@ == (PanelState { connecting: false, ..old(self)@ }),
    {
        proof {
            use_type_invariant(&*self);
        }
        self.connecting = false;
    }

    /// What the panel shows.
    pub fn body(&self, account_connected: bool, stored: usize) -> (r: PanelBody)
        ensures
            r == body_of(self@, account_connected, stored),
    {
        if !self.connected || self.connecting {
            PanelBody::Prompt {
                loading: self.connecting,
                connect_notifications: !self.connected && !self.connecting,
                connect_account: !account_connected && !self.connected && !self.connecting,
            }
        } else if stored == 0 && self.notifications.len() == 0 {
            PanelBody::Empty
        } else {
            PanelBody::List { streamed: self.notifications.len(), stored }
        }
    }
}

} // verus!
