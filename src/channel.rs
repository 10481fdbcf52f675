use vstd::prelude::*;

use crate::text::str_eq;

verus! {

/// A delivery medium for notifications.
#[derive(Debug, Clone, Copy, PartialEq, Eq, Hash, Structural)]
pub enum Channel {
    Slack,
    Discord,
    Telegram,
    WhatsApp,
    Sms,
    Phone,
    Email,
    Webhook,
}

/// The lowercase token under which a channel is stored.
pub open spec fn channel_token(ch: Channel) -> Seq<char> {
    match ch {
        Channel::Slack => "slack"@,
        Channel::Discord => "discord"@,
        Channel::Telegram => "telegram"@,
        Channel::WhatsApp => "whatsapp"@,
        Channel::Sms => "sms"@,
        Channel::Phone => "phone"@,
        Channel::Email => "email"@,
        Channel::Webhook => "webhook"@,
    }
}

/// The stored token of a channel.
pub fn channel_to_str(ch: &Channel) -> (r: &'static str)
    ensures
        r@ == channel_token(*ch),
{
    match ch {
        Channel::Slack => "slack",
        Channel::Discord => "discord",
        Channel::Telegram => "telegram",
        Channel::WhatsApp => "whatsapp",
        Channel::Sms => "sms",
        Channel::Phone => "phone",
        Channel::Email => "email",
        Channel::Webhook => "webhook",
    }
}

/// Reads a stored channel token back; `None` for any other text.
pub fn str_to_channel(s: &str) -> (r: Option<Channel>)
    ensures
        r matches Some(ch) ==> channel_token(ch) == s@,
        r is None ==> forall|ch: Channel| channel_token(ch) != s@,
{
    if str_eq(s, "slack") {
        Some(Channel::Slack)
    } else if str_eq(s, "discord") {
        Some(Channel::Discord)
    } else if str_eq(s, "telegram") {
        Some(Channel::Telegram)
    } else if str_eq(s, "whatsapp") {
        Some(Channel::WhatsApp)
    } else if str_eq(s, "sms") {
        Some(Channel::Sms)
    } else if str_eq(s, "phone") {
        Some(Channel::Phone)
    } else if str_eq(s, "email") {
        Some(Channel::Email)
    } else if str_eq(s, "webhook") {
        Some(Channel::Webhook)
    } else {
        assert forall|ch: Channel| channel_token(ch) != s@ by {
            match ch {
                Channel::Slack => {},
                Channel::Discord => {},
                Channel::Telegram => {},
                Channel::WhatsApp => {},
                Channel::Sms => {},
                Channel::Phone => {},
                Channel::Email => {},
                Channel::Webhook => {},
            }
        }
        None
    }
}

/// State of a queued unit of background work.
#[derive(Debug, Clone, Copy, PartialEq, Eq, Hash, Structural)]
pub enum QueueStatus {
    Pending,
    Sent,
    Failed,
    Dead,
    Cancelled,
}

/// The lowercase token under which a queue status is stored.
pub open spec fn queue_status_token(s: QueueStatus) -> Seq<char> {
    match s {
        QueueStatus::Pending => "pending"@,
        QueueStatus::Sent => "sent"@,
        QueueStatus::Failed => "failed"@,
        QueueStatus::Dead => "dead"@,
        QueueStatus::Cancelled => "cancelled"@,
    }
}

/// The stored token of a queue status.
pub fn status_to_str(s: &QueueStatus) -> (r: &'static str)
    ensures
        r@ == queue_status_token(*s),
{
    match s {
        QueueStatus::Pending => "pending",
        QueueStatus::Sent => "sent",
        QueueStatus::Failed => "failed",
        QueueStatus::Dead => "dead",
        QueueStatus::Cancelled => "cancelled",
    }
}

} // verus!
