//! The data model: channels, preferences, subscriptions and the two request
//! shapes that carry a preference list.

use vstd::prelude::*;

verus! {

/// A delivery channel through which a notification can be sent.
#[derive(Debug, Clone, Copy, PartialEq, Eq, Structural, Hash)]
pub enum Channel {
    Email,
    Telegram,
    Webhook,
}

/// Whether one channel fires for an event.
#[derive(Debug, Clone, Copy, PartialEq, Eq, Structural, Hash)]
pub struct NotificationPreference {
    pub channel: Channel,
    pub enabled: bool,
}

/// The preference list of one user for one event. The pair of `user_id` and
/// `event` is its identity; the list keeps the order in which it was given and
/// may name a channel more than once.
#[derive(Debug, Clone, PartialEq, Eq)]
pub struct Subscription {
    pub user_id: String,
    pub event: String,
    pub preferences: Vec<NotificationPreference>,
}

/// A request to subscribe a user to `event` with the given preferences.
#[derive(Debug, Clone, PartialEq, Eq)]
pub struct SubscriptionRequest {
    pub event: String,
    pub preferences: Vec<NotificationPreference>,
}

/// A request to replace the preferences of an existing subscription.
#[derive(Debug, Clone, PartialEq, Eq)]
pub struct PreferenceUpdateRequest {
    pub preferences: Vec<NotificationPreference>,
}

/// What a [`Subscription`] holds, as mathematical values.
pub struct SubscriptionView {
    pub user_id: Seq<char>,
    pub event: Seq<char>,
    pub preferences: Seq<NotificationPreference>,
}

/// What a [`SubscriptionRequest`] holds, as mathematical values.
pub struct SubscriptionRequestView {
    pub event: Seq<char>,
    pub preferences: Seq<NotificationPreference>,
}

impl View for Subscription {
    type V = SubscriptionView;

    open spec fn view(&self) -> SubscriptionView {
        SubscriptionView {
            user_id: self.user_id@,
            event: self.event@,
            preferences: self.preferences@,
        }
    }
}

impl View for SubscriptionRequest {
    type V = SubscriptionRequestView;

    open spec fn view(&self) -> SubscriptionRequestView {
        SubscriptionRequestView { event: self.event@, preferences: self.preferences@ }
    }
}

impl View for PreferenceUpdateRequest {
    type V = Seq<NotificationPreference>;

    open spec fn view(&self) -> Seq<NotificationPreference> {
        self.preferences@
    }
}

impl NotificationPreference {
    /// A preference for `channel`, switched on or off.
    pub fn new(channel: Channel, enabled: bool) -> (p: Self)
        ensures
            p == (NotificationPreference { channel, enabled }),
    {
        NotificationPreference { channel, enabled }
    }
}

/// The identity of a subscription: the user and the event, both compared
/// character by character.
pub type Key = (Seq<char>, Seq<char>);

impl SubscriptionView {
    /// The pair that identifies this subscription.
    pub open spec fn key(self) -> Key {
        (self.user_id, self.event)
    }
}

} // verus!
