//! The notification: one short message that disappears by itself.

use vstd::prelude::*;

verus! {

/// How long a notification stays, in microseconds: two and a half seconds.
pub const NOTIFICATION_MICROS: u64 = 2_500_000;

/// A message with the time that it still has to stay, in microseconds.
#[derive(Debug)]
pub struct Notification {
    message: String,
    remaining: u64,
}

/// A `Notification` as mathematical values. One that exists has time left.
pub struct NotificationView {
    pub message: Seq<char>,
    pub remaining: nat,
}

impl DeepView for Notification {
    type V = NotificationView;

    closed spec fn deep_view(&self) -> NotificationView {
        NotificationView { message: self.message@, remaining: self.remaining as nat }
    }
}

impl View for Notification {
    type V = NotificationView;

    open spec fn view(&self) -> NotificationView {
        self.deep_view()
    }
}

/// A notification that was just created.
pub open spec fn fresh(message: Seq<char>) -> NotificationView {
    NotificationView { message, remaining: NOTIFICATION_MICROS as nat }
}

/// The notification after `elapsed` microseconds: gone once its time is
/// used up, else with that much less time to stay.
pub open spec fn advanced(toast: Option<NotificationView>, elapsed: nat) -> Option<NotificationView> {
    match toast {
        Some(n) => if n.remaining <= elapsed {
            None
        } else {
            Some(NotificationView { remaining: (n.remaining - elapsed) as nat, ..n })
        },
        None => None,
    }
}

/// The notification after a run of frames, each with its elapsed time.
pub open spec fn advanced_through(toast: Option<NotificationView>, frames: Seq<nat>) -> Option<
    NotificationView,
>
    decreases frames.len(),
{
    if frames.len() == 0 {
        toast
    } else {
        advanced(advanced_through(toast, frames.drop_last()), frames.last())
    }
}

/// The time that a run of frames takes.
pub open spec fn total(frames: Seq<nat>) -> nat
    decreases frames.len(),
{
    if frames.len() == 0 {
        0
    } else {
        total(frames.drop_last()) + frames.last()
    }
}

/// A notification is gone after a run of frames exactly when the frames
/// took at least the time it had to stay; until then it keeps its message
/// and has that much less time left.
pub proof fn lemma_notification_lifetime(n: NotificationView, frames: Seq<nat>)
    requires
        n.remaining > 0,
    ensures
        total(frames) >= n.remaining ==> advanced_through(Some(n), frames) is None,
        total(frames) < n.remaining ==> advanced_through(Some(n), frames) == Some(
            NotificationView { remaining: (n.remaining - total(frames)) as nat, ..n },
        ),
    decreases frames.len(),
{
    if frames.len() > 0 {
        lemma_notification_lifetime(n, frames.drop_last());
    }
}

impl Notification {
    /// A notification with the full time to stay.
    pub fn new(message: String) -> (n: Self)
        ensures
            n@ == fresh(message@),
            n@.remaining > 0,
    {
        Notification { message, remaining: NOTIFICATION_MICROS }
    }

    /// The message.
    pub fn message(&self) -> (text: &str)
        ensures
            text@ == self@.message,
    {
        self.message.as_str()
    }

    /// The time left, in microseconds.
    pub fn remaining(&self) -> (left: u64)
        ensures
            left == self@.remaining,
    {
        self.remaining
    }

    /// The notification after `elapsed` microseconds.
    pub fn advance(self, elapsed: u64) -> (next: Option<Notification>)
        ensures
            next.deep_view() == advanced(Some(self@), elapsed as nat),
    {
        if self.remaining <= elapsed {
            None
        } else {
            Some(Notification { message: self.message, remaining: self.remaining - elapsed })
        }
    }
}

} // verus!
