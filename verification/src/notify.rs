//! Desktop notifications as they travel over the `org.freedesktop.Notifications`
//! interface.

use vstd::prelude::*;

verus! {

/// Hints attached to a notification (the `a{sv}` dictionary of the protocol).
#[derive(Debug)]
pub struct NotificationHint {
    /// Process id of the sender.
    pub sender_pid: i64,
    /// Urgency level as sent on the wire (see [`Urgency`]).
    pub urgency: u8,
    /// Whether the server should keep the notification out of its history.
    pub transient: Option<bool>,
    /// Category of the notification.
    pub category: Option<String>,
}

impl NotificationHint {
    /// Whether these are the hints of a notification that carries none.
    pub open spec fn is_empty(&self) -> bool {
        &&& self.sender_pid == 0
        &&& self.urgency == 0
        &&& self.transient is None
        &&& self.category is None
    }
}

impl Default for NotificationHint {
    fn default() -> (hint: Self)
        ensures
            hint.is_empty(),
    {
        NotificationHint { sender_pid: 0, urgency: 0, transient: None, category: None }
    }
}

/// One call of `Notify` on the notification interface.
#[derive(Debug)]
pub struct Notification {
    pub app_id: String,
    pub replaces_id: u32,
    pub app_icon: String,
    pub summary: String,
    pub body: String,
    pub actions: Vec<String>,
    pub hints: NotificationHint,
    pub expire_timeout: i32,
}

/// Urgency levels of the notification protocol.
#[derive(Debug, Clone, Copy, PartialEq, Eq, Structural)]
pub enum Urgency {
    Low,
    Normal,
    High,
}

impl Urgency {
    /// The number that stands for this level on the wire.
    pub open spec fn spec_value(self) -> u8 {
        match self {
            Urgency::Low => 0,
            Urgency::Normal => 1,
            Urgency::High => 2,
        }
    }

    /// The number that stands for this level on the wire.
    pub fn value(&self) -> (v: u8)
        ensures
            v == self.spec_value(),
    {
        match self {
            Urgency::Low => 0,
            Urgency::Normal => 1,
            Urgency::High => 2,
        }
    }
}

impl Notification {
    /// Whether this is a notification with every field empty or zero.
    pub open spec fn is_blank(&self) -> bool {
        &&& self.app_id@ == Seq::<char>::empty()
        &&& self.replaces_id == 0
        &&& self.app_icon@ == Seq::<char>::empty()
        &&& self.summary@ == Seq::<char>::empty()
        &&& self.body@ == Seq::<char>::empty()
        &&& self.actions@ == Seq::<String>::empty()
        &&& self.hints.is_empty()
        &&& self.expire_timeout == 0
    }

    /// The text shown for a notification: its summary, a colon and a space,
    /// then its body.
    pub open spec fn display_text(&self) -> Seq<char> {
        self.summary@ + ": "@ + self.body@
    }

    /// Whether the notification asks to stay out of the history; a missing
    /// hint counts as `false`.
    pub open spec fn spec_is_transient(&self) -> bool {
        self.hints.transient == Some(true)
    }

    /// A notification with every field empty or zero.
    pub fn new() -> (n: Self)
        ensures
            n.is_blank(),
    {
        Notification {
            app_id: String::new(),
            replaces_id: 0,
            app_icon: String::new(),
            summary: String::new(),
            body: String::new(),
            actions: Vec::new(),
            hints: NotificationHint::default(),
            expire_timeout: 0,
        }
    }

    /// Renders the notification as `"<summary>: <body>"`.
    pub fn display(&self) -> (text: String)
        ensures
            text@ == self.display_text(),
    {
        let mut text = self.summary.clone();
        text.append(": ");
        text.append(self.body.as_str());
        text
    }

    /// Whether the notification is transient (the hint, or `false` without it).
    pub fn is_transient(&self) -> (t: bool)
        ensures
            t == self.spec_is_transient(),
    {
        self.hints.transient.unwrap_or(false)
    }
}

impl Default for Notification {
    fn default() -> (n: Self)
        ensures
            n.is_blank(),
    {
        Notification::new()
    }
}

/// Kinds of D-Bus messages.
#[derive(Debug, Clone, Copy, PartialEq, Eq, Structural)]
pub enum MessageKind {
    Invalid,
    MethodCall,
    MethodReturn,
    Error,
    Signal,
}

/// Whether a message seen on the bus is a call of `Notify`, the one kind of
/// message the notification monitor reads as a [`Notification`].
pub open spec fn spec_is_notify_call(kind: MessageKind, member: Option<&str>) -> bool {
    &&& kind == MessageKind::MethodCall
    &&& (member matches Some(m) && m@ == "Notify"@)
}

/// Whether a message of kind `kind` calling `member` is a call of `Notify`.
pub fn is_notify_call(kind: MessageKind, member: Option<&str>) -> (notify: bool)
    ensures
        notify == spec_is_notify_call(kind, member),
{
    match kind {
        MessageKind::MethodCall => match member {
            Some(m) => String::from_str(m) == String::from_str("Notify"),
            None => false,
        },
        _ => false,
    }
}

} // verus!
