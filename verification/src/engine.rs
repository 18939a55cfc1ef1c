//! The presence synchronization engine: normalizes an update, decides the
//! change-detection and notification outcome, and frames the wire envelope.
//! The caller performs the actual send under the delivery protocol.

use vstd::prelude::*;
use vstd::string::StringExecFns;
use crate::json;
use crate::text;
use crate::tracker::SongTracker;
use crate::tracker;

verus! {

/// One playback-state update from the embedded page. Elapsed playback time is
/// taken in whole seconds.
pub struct PresenceUpdate {
    pub details: String,
    pub status: String,
    pub image_key: String,
    pub is_paused: bool,
    pub elapsed_seconds: u64,
}

/// The normalized, decorated activity derived from an update, with its start
/// timestamp in epoch seconds present only when playing.
pub struct PresenceActivity {
    pub details: String,
    pub state: String,
    pub large_image: String,
    pub start_timestamp: Option<u64>,
}

/// The "Now Playing" notification owed for a change, with its two-line body.
pub struct NowPlayingNotification {
    pub title: String,
    pub body: String,
}

/// Everything a synchronize call must hand on: the framed envelope and the
/// notification to fire, if any.
pub struct PreparedUpdate {
    pub envelope: String,
    pub notification: Option<NowPlayingNotification>,
}

/// The start timestamp attached to an activity: absent when paused, else the
/// epoch second the song started at.
pub open spec fn start_timestamp_of(is_paused: bool, elapsed: u64, now_secs: u64) -> Option<u64> {
    if is_paused {
        None
    } else {
        Some((now_secs - elapsed) as u64)
    }
}

/// What a well-built activity holds for a given update at a given time.
pub open spec fn activity_matches(
    a: PresenceActivity,
    details: Seq<char>,
    status: Seq<char>,
    image: Seq<char>,
    is_paused: bool,
    elapsed: u64,
    now_secs: u64,
) -> bool {
    &&& a.details@ == text::padded(details)
    &&& a.state@ == text::normalized_status(status, is_paused)
    &&& a.large_image@ == image
    &&& a.start_timestamp == start_timestamp_of(is_paused, elapsed, now_secs)
}

/// Builds the activity for an update: pads both fields, decorates the status
/// when paused, and attaches `now - elapsed` as start timestamp exactly when
/// not paused, so the backend shows an accumulating counter only while
/// playing.
pub fn build_activity(update: &PresenceUpdate, now_secs: u64) -> (a: PresenceActivity)
    requires
        update.elapsed_seconds <= now_secs,
    ensures
        activity_matches(
            a,
            update.details@,
            update.status@,
            update.image_key@,
            update.is_paused,
            update.elapsed_seconds,
            now_secs,
        ),
{
    let details = text::pad_min_width(update.details.clone());
    let state = text::apply_pause_suffix(text::pad_min_width(update.status.clone()), update.is_paused);
    let start_timestamp = if update.is_paused {
        None
    } else {
        Some(now_secs - update.elapsed_seconds)
    };
    PresenceActivity { details, state, large_image: update.image_key.clone(), start_timestamp }
}

/// Records the update against the tracker and decides the notification, under
/// one exclusive section. A paused update leaves the tracker untouched and
/// never notifies; a non-paused one leaves its identity stored and notifies
/// exactly when the identity changed and the window exists and is unfocused.
pub fn decide_notification(
    tracker_state: &mut SongTracker,
    details: &String,
    status: &String,
    is_paused: bool,
    window_present: bool,
    window_focused: bool,
) -> (r: Option<NowPlayingNotification>)
    ensures
        final(tracker_state).last_identity() == tracker::tracker_next(
            old(tracker_state).last_identity(),
            text::song_identity(details@, status@),
            is_paused,
        ),
        (r is Some) == tracker::notification_fires(
            old(tracker_state).last_identity(),
            text::song_identity(details@, status@),
            is_paused,
            window_present,
            window_focused,
        ),
        r matches Some(n) ==> n.title@ == "Now Playing"@ && n.body@ == details@ + "\n"@ + status@,
{
    if is_paused {
        return None;
    }
    let id = text::make_song_identity(details, status);
    let changed = tracker_state.record(&id);
    if changed && window_present && !window_focused {
        let mut body = details.clone();
        body.append("\n");
        body.append(status.as_str());
        Some(NowPlayingNotification { title: String::from_str("Now Playing"), body })
    } else {
        None
    }
}

/// One synchronize call up to the wire: normalizes the update, runs change
/// detection and the notification decision, and frames the envelope with the
/// caller's process id and epoch-millisecond nonce. `now_secs` and
/// `now_millis` are the current time as read by the caller.
pub fn prepare_update(
    tracker_state: &mut SongTracker,
    update: &PresenceUpdate,
    now_secs: u64,
    now_millis: u64,
    pid: u64,
    window_present: bool,
    window_focused: bool,
) -> (r: PreparedUpdate)
    requires
        update.elapsed_seconds <= now_secs,
    ensures
        r.envelope@ == json::envelope_json(
            pid,
            json::activity_json(
                text::padded(update.details@),
                text::normalized_status(update.status@, update.is_paused),
                update.image_key@,
                start_timestamp_of(update.is_paused, update.elapsed_seconds, now_secs),
            ),
            now_millis,
        ),
        final(tracker_state).last_identity() == tracker::tracker_next(
            old(tracker_state).last_identity(),
            text::song_identity(
                text::padded(update.details@),
                text::normalized_status(update.status@, update.is_paused),
            ),
            update.is_paused,
        ),
        (r.notification is Some) == tracker::notification_fires(
            old(tracker_state).last_identity(),
            text::song_identity(
                text::padded(update.details@),
                text::normalized_status(update.status@, update.is_paused),
            ),
            update.is_paused,
            window_present,
            window_focused,
        ),
        r.notification matches Some(n) ==> n.title@ == "Now Playing"@ && n.body@
            == text::padded(update.details@) + "\n"@ + text::normalized_status(
            update.status@,
            update.is_paused,
        ),
{
    let activity = build_activity(update, now_secs);
    let notification = decide_notification(
        tracker_state,
        &activity.details,
        &activity.state,
        update.is_paused,
        window_present,
        window_focused,
    );
    let rendered = json::render_activity_json(
        &activity.details,
        &activity.state,
        &activity.large_image,
        activity.start_timestamp,
    );
    let envelope = json::render_envelope_json(pid, &rendered, now_millis);
    PreparedUpdate { envelope, notification }
}

} // verus!
