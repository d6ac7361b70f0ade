//! The error taxonomy of a rip run. Every variant is terminal for the run:
//! nothing is retried at this layer.

use crate::text::spec_decimal;
use crate::text::u64_to_string;
use vstd::prelude::*;
use vstd::string::StringExecFns;

verus! {

/// Why a rip run stops.
#[derive(Debug)]
pub enum RipError {
    /// The drive could not be identified, opened or read.
    DeviceError { detail: String },
    /// The metadata lookup failed on the network or while decoding.
    LookupError { detail: String },
    /// The release graph held no candidate release for this disc.
    NoReleaseFound,
    /// No medium of the chosen release carries the disc's identifier.
    NoMatchingMedium,
    /// The physical track number has no counterpart in the matched medium.
    TrackCountMismatch { track_num: u32, track_count: usize },
    /// A track's sector range is inverted (it would hold no sector).
    InvalidTrackRange { first_sector: u64, last_sector: u64 },
    /// The encoder failed to open, write or finalize.
    EncoderError { detail: String },
    /// A directory could not be removed or created.
    FilesystemError { detail: String },
}

/// The operator-facing message of each error.
pub open spec fn spec_message(e: RipError) -> Seq<char> {
    match e {
        RipError::DeviceError { detail } => "Device error: "@ + detail@,
        RipError::LookupError { detail } => "Lookup error: "@ + detail@,
        RipError::NoReleaseFound => "No release found with this disc ID. Please submit it to the database."@,
        RipError::NoMatchingMedium => "Cannot find medium that matches the disc ID"@,
        RipError::TrackCountMismatch { track_num, track_count } => "Track "@ + spec_decimal(
            track_num as nat,
        ) + " has no entry in the matched medium, which lists "@ + spec_decimal(
            track_count as nat,
        ) + " tracks"@,
        RipError::InvalidTrackRange { first_sector, last_sector } => "Invalid sector range: first "@
            + spec_decimal(first_sector as nat) + ", last "@ + spec_decimal(last_sector as nat),
        RipError::EncoderError { detail } => "Encoder error: "@ + detail@,
        RipError::FilesystemError { detail } => "Filesystem error: "@ + detail@,
    }
}

impl RipError {
    /// Renders the descriptive message for this error; a fatal error prints
    /// it before the process exits non-zero.
    pub fn message(&self) -> (r: String)
        ensures
            r@ == spec_message(*self),
    {
        match self {
            RipError::DeviceError { detail } => {
                let mut s = String::from_str("Device error: ");
                s.append(detail.as_str());
                s
            },
            RipError::LookupError { detail } => {
                let mut s = String::from_str("Lookup error: ");
                s.append(detail.as_str());
                s
            },
            RipError::NoReleaseFound => String::from_str(
                "No release found with this disc ID. Please submit it to the database.",
            ),
            RipError::NoMatchingMedium => String::from_str(
                "Cannot find medium that matches the disc ID",
            ),
            RipError::TrackCountMismatch { track_num, track_count } => {
                let mut s = String::from_str("Track ");
                let n = u64_to_string(*track_num as u64);
                s.append(n.as_str());
                s.append(" has no entry in the matched medium, which lists ");
                let c = u64_to_string(*track_count as u64);
                s.append(c.as_str());
                s.append(" tracks");
                proof {
                    assert(s@ =~= spec_message(*self));
                }
                s
            },
            RipError::InvalidTrackRange { first_sector, last_sector } => {
                let mut s = String::from_str("Invalid sector range: first ");
                let f = u64_to_string(*first_sector);
                s.append(f.as_str());
                s.append(", last ");
                let l = u64_to_string(*last_sector);
                s.append(l.as_str());
                proof {
                    assert(s@ =~= spec_message(*self));
                }
                s
            },
            RipError::EncoderError { detail } => {
                let mut s = String::from_str("Encoder error: ");
                s.append(detail.as_str());
                s
            },
            RipError::FilesystemError { detail } => {
                let mut s = String::from_str("Filesystem error: ");
                s.append(detail.as_str());
                s
            },
        }
    }
}

} // verus!
