//! Normalization of the free-form `details` and `status` fields of a
//! playback update, and the derived song identity used for change detection.

use vstd::prelude::*;
use vstd::string::StrSliceExecFns;
use vstd::string::StringExecFns;

verus! {

/// A field shorter than two characters is padded with two trailing spaces;
/// presence display backends reject single-character fields.
pub open spec fn padded(s: Seq<char>) -> Seq<char> {
    if s.len() < 2 {
        s + "  "@
    } else {
        s
    }
}

/// The status of a paused update carries the literal suffix `" (Paused)"`,
/// applied after padding.
pub open spec fn with_pause_suffix(s: Seq<char>, is_paused: bool) -> Seq<char> {
    if is_paused {
        s + " (Paused)"@
    } else {
        s
    }
}

/// The fully normalized status: padded, then decorated when paused.
pub open spec fn normalized_status(s: Seq<char>, is_paused: bool) -> Seq<char> {
    with_pause_suffix(padded(s), is_paused)
}

/// The dedup key of a song: normalized details and status joined by `" - "`.
pub open spec fn song_identity(details: Seq<char>, status: Seq<char>) -> Seq<char> {
    details + " - "@ + status
}

/// Pads a field to at least two characters. For every input shorter than two
/// characters the result is the original plus trailing spaces and has length
/// at least two; longer inputs pass through unchanged.
pub fn pad_min_width(s: String) -> (r: String)
    ensures
        r@ == padded(s@),
        s@.len() < 2 ==> r@ == s@ + "  "@,
        s@.len() >= 2 ==> r@ == s@,
        r@.len() >= 2,
{
    proof {
        reveal_strlit("  ");
    }
    if s.as_str().unicode_len() < 2 {
        s.concat("  ")
    } else {
        s
    }
}

/// Appends the pause decoration to an already-padded status when paused.
pub fn apply_pause_suffix(s: String, is_paused: bool) -> (r: String)
    ensures
        r@ == with_pause_suffix(s@, is_paused),
{
    if is_paused {
        s.concat(" (Paused)")
    } else {
        s
    }
}

/// Builds the dedup key `details ++ " - " ++ status` from normalized fields.
pub fn make_song_identity(details: &String, status: &String) -> (r: String)
    ensures
        r@ == song_identity(details@, status@),
{
    let mut r = details.clone();
    r.append(" - ");
    r.append(status.as_str());
    r
}

} // verus!
