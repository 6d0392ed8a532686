//! The notification line: a message that shows for a fixed number of
//! ticks, then goes away.

use vstd::prelude::*;

verus! {

/// The tone of a notification.
#[derive(Clone, Copy, PartialEq, Eq, Debug, Structural)]
pub enum NotifKind {
    Info,
    /// Something succeeded (shown green).
    Success,
    Warn,
    /// Something failed (shown red).
    Failure,
}

/// A message on the notification line.
pub struct Notification {
    pub text: String,
    pub kind: NotifKind,
    /// Ticks left: one is taken at each frame; at 0 the next frame clears
    /// the message.
    pub ticks: u8,
}

/// The ticks a new notification starts with (about three seconds at four
/// frames a second).
pub const NOTIF_TICKS: u8 = 12;

/// The notification after one frame: one tick fewer, or gone when none
/// were left.
pub open spec fn ticked(n: Option<Notification>) -> Option<Notification> {
    match n {
        Some(x) => if x.ticks == 0 {
            None
        } else {
            Some(Notification { ticks: (x.ticks - 1) as u8, ..x })
        },
        None => None,
    }
}

/// The notification after `k` frames.
pub open spec fn ticked_times(n: Option<Notification>, k: nat) -> Option<Notification>
    decreases k,
{
    if k == 0 {
        n
    } else {
        ticked(ticked_times(n, (k - 1) as nat))
    }
}

/// `n` holds a fresh notification with this text and tone.
pub open spec fn fresh_notice(n: Option<Notification>, text: Seq<char>, kind: NotifKind) -> bool {
    n matches Some(x) && x.text@ == text && x.kind == kind && x.ticks == NOTIF_TICKS
}

/// A fresh notification stays, unchanged but for its tick count, for the
/// twelve frames after it was posted and the frame after that, and is gone
/// one frame later.
pub proof fn law_notification_lifetime(n: Option<Notification>)
    requires
        n matches Some(x) && x.ticks == NOTIF_TICKS,
    ensures
        forall|k: nat|
            k <= NOTIF_TICKS ==> ((#[trigger] ticked_times(n, k)) matches Some(y) && y.text == n->0.text
                && y.kind == n->0.kind && y.ticks == NOTIF_TICKS - k),
        ticked_times(n, (NOTIF_TICKS + 1) as nat) is None,
{
    assert forall|k: nat|
        k <= NOTIF_TICKS implies ((#[trigger] ticked_times(n, k)) matches Some(y) && y.text
            == n->0.text && y.kind == n->0.kind && y.ticks == NOTIF_TICKS - k) by {
        lemma_ticked_times(n, k);
    }
    lemma_ticked_times(n, NOTIF_TICKS as nat);
}

proof fn lemma_ticked_times(n: Option<Notification>, k: nat)
    requires
        n matches Some(x) && x.ticks == NOTIF_TICKS,
        k <= NOTIF_TICKS,
    ensures
        ticked_times(n, k) matches Some(y) && y.text == n->0.text && y.kind == n->0.kind && y.ticks
            == NOTIF_TICKS - k,
    decreases k,
{
    if k > 0 {
        lemma_ticked_times(n, (k - 1) as nat);
    }
}

} // verus!
