//! The output layout planner: the album directory name, the per-track file
//! names, and the resolution of a destructive overwrite before any ripping
//! starts.

use crate::mb::Release;
use crate::mb::spec_artist_string;
use crate::text::PathSanitizer;
use crate::text::spec_decimal;
use crate::text::spec_two_digit;
use crate::text::two_digit;
use crate::text::u64_to_string;
use vstd::prelude::*;
use vstd::string::StringExecFns;

verus! {

/// The album directory name: the sanitized `"{artist string} - {title}"`.
pub open spec fn spec_album_dir_name(p: PathSanitizer, r: Release) -> Seq<char> {
    p.spec_map(spec_artist_string(r.artist_credit@) + " - "@ + r.title@)
}

/// Derives the album directory name from the matched release.
pub fn album_dir_name(sanitizer: &PathSanitizer, release: &Release) -> (r: String)
    ensures
        r@ == spec_album_dir_name(*sanitizer, *release),
{
    let mut s = release.artist_string();
    s.append(" - ");
    s.append(release.title.as_str());
    sanitizer.map(s.as_str())
}

/// What to do with the album directory before the drive is opened.
pub enum DirAction {
    /// Create the directory (and its parents) if it is not already there;
    /// an existing directory is left untouched and ripped into.
    CreateOnly,
    /// Delete the existing directory recursively, then recreate it empty.
    RemoveThenCreate,
}

/// Resolves the destructive overwrite decision: only an existing directory
/// together with an explicit confirmation is ever deleted; declining leaves
/// it untouched and the rip proceeds into it.
pub fn plan_album_dir(already_exists: bool, overwrite_confirmed: bool) -> (r: DirAction)
    ensures
        r is RemoveThenCreate <==> already_exists && overwrite_confirmed,
{
    if already_exists && overwrite_confirmed {
        DirAction::RemoveThenCreate
    } else {
        DirAction::CreateOnly
    }
}

/// The per-track file name: on a multi-medium release the medium's 1-based
/// position and a separator come first, then the 2-digit zero-padded track
/// number, the sanitized track title, and the container extension.
pub open spec fn spec_track_file_name(
    p: PathSanitizer,
    medium_position: nat,
    multi_disc: bool,
    track_num: nat,
    title: Seq<char>,
) -> Seq<char> {
    if multi_disc {
        spec_decimal(medium_position) + "-"@ + spec_two_digit(track_num) + " "@ + p.spec_map(title)
            + ".flac"@
    } else {
        spec_two_digit(track_num) + " "@ + p.spec_map(title) + ".flac"@
    }
}

/// Builds the output file name for one physical track.
pub fn track_file_name(
    sanitizer: &PathSanitizer,
    medium_position: u32,
    multi_disc: bool,
    track_num: u32,
    title: &str,
) -> (r: String)
    ensures
        r@ == spec_track_file_name(
            *sanitizer,
            medium_position as nat,
            multi_disc,
            track_num as nat,
            title@,
        ),
{
    let mut s = String::new();
    if multi_disc {
        let position = u64_to_string(medium_position as u64);
        s.append(position.as_str());
        s.append("-");
    }
    let number = two_digit(track_num as u64);
    s.append(number.as_str());
    s.append(" ");
    let safe_title = sanitizer.map(title);
    s.append(safe_title.as_str());
    s.append(".flac");
    proof {
        assert(s@ =~= spec_track_file_name(
            *sanitizer,
            medium_position as nat,
            multi_disc,
            track_num as nat,
            title@,
        ));
    }
    s
}

} // verus!
