//! The last-announced song identity, and the decision whether a new update
//! is a repeat or a change.

use vstd::prelude::*;
use vstd::string::StringExecFns;

verus! {

/// The identity remembered after an update: a paused update never touches the
/// stored value; a non-paused one always leaves the update's own identity.
pub open spec fn tracker_next(
    last: Option<Seq<char>>,
    id: Seq<char>,
    is_paused: bool,
) -> Option<Seq<char>> {
    if is_paused {
        last
    } else {
        Some(id)
    }
}

/// Whether a user notification fires for an update: only when not paused, the
/// identity differs from the remembered one, the window exists, and it is not
/// focused.
pub open spec fn notification_fires(
    last: Option<Seq<char>>,
    id: Seq<char>,
    is_paused: bool,
    window_present: bool,
    window_focused: bool,
) -> bool {
    &&& !is_paused
    &&& last != Some(id)
    &&& window_present
    &&& !window_focused
}

/// Holds the identity of the last announced song, if any.
pub struct SongTracker {
    last: Option<String>,
}

impl SongTracker {
    /// The remembered identity, as a sequence of characters.
    pub closed spec fn last_identity(&self) -> Option<Seq<char>> {
        match self.last {
            Some(s) => Some(s@),
            None => None,
        }
    }

    /// A fresh tracker remembers nothing.
    pub fn new() -> (t: SongTracker)
        ensures
            t.last_identity() is None,
    {
        SongTracker { last: None }
    }

    /// Records a non-paused update's identity. Returns whether it differed
    /// from the remembered one; afterwards the tracker remembers exactly the
    /// recorded identity.
    pub fn record(&mut self, id: &String) -> (changed: bool)
        ensures
            changed == (old(self).last_identity() != Some(id@)),
            final(self).last_identity() == Some(id@),
    {
        let changed = match &self.last {
            Some(prev) => !(*prev == *id),
            None => true,
        };
        if changed {
            self.last = Some(id.clone());
        }
        changed
    }
}

/// Pausing never mutates the remembered identity and never fires a
/// notification, whatever the identity or the window state.
pub proof fn lemma_pause_preserves_identity(
    last: Option<Seq<char>>,
    id: Seq<char>,
    window_present: bool,
    window_focused: bool,
)
    ensures
        tracker_next(last, id, true) == last,
        !notification_fires(last, id, true, window_present, window_focused),
{
}

/// For two consecutive non-paused updates with the same identity, starting
/// from a state that does not already remember it, exactly one notification
/// fires across the pair: on the first (with an unfocused window), never on
/// the second, whatever the window state then.
pub proof fn lemma_same_song_notifies_once(
    last: Option<Seq<char>>,
    id: Seq<char>,
    second_present: bool,
    second_focused: bool,
)
    requires
        last != Some(id),
    ensures
        notification_fires(last, id, false, true, false),
        tracker_next(last, id, false) == Some(id),
        !notification_fires(tracker_next(last, id, false), id, false, second_present, second_focused),
{
}

/// For two consecutive non-paused updates with different identities, the
/// notification decision is re-evaluated for the second: it fires whenever the
/// window is present and unfocused.
pub proof fn lemma_changed_song_reevaluates(
    last: Option<Seq<char>>,
    first_id: Seq<char>,
    second_id: Seq<char>,
)
    requires
        first_id != second_id,
    ensures
        notification_fires(tracker_next(last, first_id, false), second_id, false, true, false),
{
}

} // verus!
