//! The per-track extraction logic: sector-range and duration arithmetic,
//! sample widening for the encoder, the per-track plan, and the cursor that
//! drives the sector-by-sector read loop.
//!
//! The drive and the encoder themselves stay outside this library; it hands
//! the caller a plan and exact buffers and tracks the loop's progress.

use crate::errors::RipError;
use crate::mb::Media;
use crate::plan::spec_track_file_name;
use crate::plan::track_file_name;
use crate::text::PathSanitizer;
use crate::text::spec_decimal;
use crate::text::spec_two_digit;
use crate::text::two_digit;
use crate::text::u64_to_string;
use vstd::prelude::*;
use vstd::string::StringExecFns;

verus! {

/// Interleaved 16-bit sample words in one raw CD audio sector (2352 bytes).
pub const CD_FRAMEWORDS: u32 = 1176;

/// The CD-audio sample rate in hertz.
pub const CD_SAMPLE_RATE: u32 = 44100;

/// Whole seconds of audio in a span of sectors: integer arithmetic,
/// truncating.
pub fn duration_seconds(total_sectors: u32, frame_words: u32, sample_rate: u32, channels: u32) -> (r:
    u64)
    requires
        sample_rate >= 1,
        channels >= 1,
    ensures
        r == (total_sectors as int * frame_words as int) / (sample_rate as int * channels as int),
{
    proof {
        assert(total_sectors as int * frame_words as int <= 0xffff_fffe_0000_0001) by (nonlinear_arith)
            requires
                total_sectors <= 0xffff_ffff,
                frame_words <= 0xffff_ffff,
        ;
        assert(sample_rate as int * channels as int <= 0xffff_fffe_0000_0001
            && sample_rate as int * channels as int >= 1) by (nonlinear_arith)
            requires
                1 <= sample_rate <= 0xffff_ffff,
                1 <= channels <= 0xffff_ffff,
        ;
    }
    let words: u64 = total_sectors as u64 * frame_words as u64;
    let divisor: u64 = sample_rate as u64 * channels as u64;
    words / divisor
}

/// Widens native 16-bit interleaved samples to the encoder's 32-bit input:
/// a sign-preserving integer extension, no scaling, no dithering.
pub fn widen_sector(samples: &[i16]) -> (r: Vec<i32>)
    ensures
        r@.len() == samples@.len(),
        forall|i: int| 0 <= i < samples@.len() ==> r@[i] == samples@[i] as i32,
        forall|i: int| 0 <= i < samples@.len() ==> r@[i] as int == samples@[i] as int,
{
    let mut out: Vec<i32> = Vec::new();
    let mut i: usize = 0;
    while i < samples.len()
        invariant
            i <= samples@.len(),
            out@.len() == i,
            forall|j: int| 0 <= j < i ==> out@[j] == samples@[j] as i32,
        decreases samples@.len() - i,
    {
        let sample = samples[i];
        out.push(sample as i32);
        i += 1;
    }
    out
}

/// Progress through one track's inclusive sector range.
pub struct SectorCursor {
    pub first: u64,
    pub last: u64,
    pub next: u64,
}

impl SectorCursor {
    pub open spec fn wf(self) -> bool {
        &&& self.first <= self.next
        &&& self.next <= self.last + 1
        &&& self.last < u64::MAX
    }

    /// All sectors of the range are still to be read.
    pub fn new(first: u64, last: u64) -> (r: Self)
        requires
            first <= last,
            last < u64::MAX,
        ensures
            r.wf(),
            r.first == first,
            r.last == last,
            r.next == first,
    {
        SectorCursor { first, last, next: first }
    }

    pub open spec fn spec_done(self) -> bool {
        self.next > self.last
    }

    /// Whether every sector of the range has been read.
    pub fn done(&self) -> (r: bool)
        ensures
            r == self.spec_done(),
    {
        self.next > self.last
    }

    /// The sector to read next.
    pub fn current(&self) -> (r: u64)
        requires
            !self.spec_done(),
        ensures
            r == self.next,
    {
        self.next
    }

    /// One sector was read: move to the next.
    pub fn advance(&mut self)
        requires
            old(self).wf(),
            !old(self).spec_done(),
        ensures
            final(self).wf(),
            final(self).first == old(self).first,
            final(self).last == old(self).last,
            final(self).next == old(self).next + 1,
    {
        self.next = self.next + 1;
    }

    /// How many sectors have been read so far.
    pub fn sectors_done(&self) -> (r: u64)
        requires
            self.wf(),
        ensures
            r == self.next - self.first,
    {
        self.next - self.first
    }
}

/// Everything the extraction loop needs for one audio track. Created fresh
/// per track; not persisted.
pub struct TrackPlan {
    /// 1-based physical track number.
    pub track_num: u32,
    pub first_sector: u64,
    pub last_sector: u64,
    pub total_sectors: u32,
    pub channels: u32,
    pub duration_seconds: u64,
    /// Interleaved frames handed to the encoder per sector.
    pub frames_per_sector: u32,
    pub file_name: String,
}

/// Whether a physical audio track can be planned against the matched medium:
/// its sector range holds at least one sector and the medium lists a track
/// at its position.
pub open spec fn spec_track_plan_ok(m: Media, track_num: u32, first_sector: u64, last_sector: u64) -> bool {
    first_sector <= last_sector && track_num - 1 < m.tracks@.len()
}

/// The exact contents of a well-formed plan for one audio track.
pub open spec fn spec_plan_matches(
    p: TrackPlan,
    m: Media,
    multi_disc: bool,
    sanitizer: PathSanitizer,
    track_num: u32,
    first_sector: u64,
    last_sector: u64,
    channels: u32,
) -> bool {
    &&& p.track_num == track_num
    &&& p.first_sector == first_sector
    &&& p.last_sector == last_sector
    &&& p.total_sectors == last_sector - first_sector + 1
    &&& p.channels == channels
    &&& p.duration_seconds == (p.total_sectors as int * CD_FRAMEWORDS as int) / (
    CD_SAMPLE_RATE as int * channels as int)
    &&& p.frames_per_sector == CD_FRAMEWORDS as int / channels as int
    &&& p.file_name@ == spec_track_file_name(
        sanitizer,
        m.position as nat,
        multi_disc,
        track_num as nat,
        m.tracks@[track_num - 1].title@,
    )
}

/// Plans one audio track: validates the sector range, looks the title up by
/// the physical track's 1-based number, and computes duration and buffer
/// arithmetic. An inverted range is `InvalidTrackRange`; a track number
/// beyond the medium's track list is a fatal `TrackCountMismatch`.
pub fn plan_track(
    medium: &Media,
    multi_disc: bool,
    sanitizer: &PathSanitizer,
    track_num: u32,
    first_sector: u64,
    last_sector: u64,
    channels: u32,
) -> (r: Result<TrackPlan, RipError>)
    requires
        track_num >= 1,
        channels >= 1,
        last_sector - first_sector < u32::MAX,
    ensures
        r is Ok <==> spec_track_plan_ok(*medium, track_num, first_sector, last_sector),
        r matches Ok(p) ==> spec_plan_matches(
            p,
            *medium,
            multi_disc,
            *sanitizer,
            track_num,
            first_sector,
            last_sector,
            channels,
        ),
        last_sector < first_sector ==> r == (Err::<TrackPlan, RipError>(
            RipError::InvalidTrackRange { first_sector, last_sector },
        )),
        first_sector <= last_sector && track_num - 1 >= medium.tracks@.len() ==> r == (Err::<
            TrackPlan,
            RipError,
        >(
            RipError::TrackCountMismatch {
                track_num,
                track_count: medium.tracks@.len() as usize,
            },
        )),
{
    if last_sector < first_sector {
        return Err(RipError::InvalidTrackRange { first_sector, last_sector });
    }
    let index = (track_num - 1) as usize;
    if index >= medium.tracks.len() {
        return Err(
            RipError::TrackCountMismatch { track_num, track_count: medium.tracks.len() },
        );
    }
    let total_sectors = (last_sector - first_sector + 1) as u32;
    let duration = duration_seconds(total_sectors, CD_FRAMEWORDS, CD_SAMPLE_RATE, channels);
    let track = &medium.tracks[index];
    let file_name = track_file_name(
        sanitizer,
        medium.position,
        multi_disc,
        track_num,
        track.title.as_str(),
    );
    Ok(
        TrackPlan {
            track_num,
            first_sector,
            last_sector,
            total_sectors,
            channels,
            duration_seconds: duration,
            frames_per_sector: CD_FRAMEWORDS / channels,
            file_name,
        },
    )
}

/// The progress line printed before a track is ripped: the 2-digit track
/// number, the sector count, and the duration as minutes and seconds.
pub open spec fn spec_progress_line(p: TrackPlan) -> Seq<char> {
    "Track "@ + spec_two_digit(p.track_num as nat) + ": Ripping "@ + spec_decimal(
        p.total_sectors as nat,
    ) + " sectors ("@ + spec_decimal((p.duration_seconds / 60) as nat) + ":"@ + spec_two_digit(
        (p.duration_seconds % 60) as nat,
    ) + ")"@
}

impl TrackPlan {
    /// Renders the operator-facing progress line for this track.
    pub fn progress_line(&self) -> (r: String)
        ensures
            r@ == spec_progress_line(*self),
    {
        let mut s = String::from_str("Track ");
        let number = two_digit(self.track_num as u64);
        s.append(number.as_str());
        s.append(": Ripping ");
        let sectors = u64_to_string(self.total_sectors as u64);
        s.append(sectors.as_str());
        s.append(" sectors (");
        let minutes = u64_to_string(self.duration_seconds / 60);
        s.append(minutes.as_str());
        s.append(":");
        let seconds = two_digit(self.duration_seconds % 60);
        s.append(seconds.as_str());
        s.append(")");
        proof {
            assert(s@ =~= spec_progress_line(*self));
        }
        s
    }
}

/// What the disc's table of contents reports of one physical track.
pub struct TrackToc {
    pub is_audio: bool,
    pub first_sector: u64,
    pub last_sector: u64,
    pub channels: u32,
}

/// The decision for one physical track: skipped with a warning (it carries
/// no audio and produces no output file), or ripped under a plan.
pub enum TrackDecision {
    Skip { track_num: u32 },
    Rip { plan: TrackPlan },
}

/// Plans a whole disc, track by track, in physical order: non-audio tracks
/// are skipped and consume no encoder resources; each audio track gets its
/// plan; the first audio track that cannot be planned aborts the whole run.
pub fn plan_tracks(
    toc: &Vec<TrackToc>,
    medium: &Media,
    multi_disc: bool,
    sanitizer: &PathSanitizer,
) -> (r: Result<Vec<TrackDecision>, RipError>)
    requires
        toc@.len() < u32::MAX,
        forall|i: int|
            0 <= i < toc@.len() && toc@[i].is_audio ==> toc@[i].channels >= 1 && toc@[i].last_sector
                - toc@[i].first_sector < u32::MAX,
    ensures
        r is Ok <==> (forall|i: int|
            0 <= i < toc@.len() && toc@[i].is_audio ==> spec_track_plan_ok(
                *medium,
                (i + 1) as u32,
                toc@[i].first_sector,
                toc@[i].last_sector,
            )),
        r matches Ok(v) ==> v@.len() == toc@.len() && (forall|i: int|
            0 <= i < toc@.len() ==> if toc@[i].is_audio {
                v@[i] matches TrackDecision::Rip { plan } && spec_plan_matches(
                    plan,
                    *medium,
                    multi_disc,
                    *sanitizer,
                    (i + 1) as u32,
                    toc@[i].first_sector,
                    toc@[i].last_sector,
                    toc@[i].channels,
                )
            } else {
                v@[i] == (TrackDecision::Skip { track_num: (i + 1) as u32 })
            }),
        r matches Err(e) ==> e is InvalidTrackRange || e is TrackCountMismatch,
{
    let mut out: Vec<TrackDecision> = Vec::new();
    let mut i: usize = 0;
    while i < toc.len()
        invariant
            i <= toc@.len(),
            toc@.len() < u32::MAX,
            forall|k: int|
                0 <= k < toc@.len() && toc@[k].is_audio ==> toc@[k].channels >= 1
                    && toc@[k].last_sector - toc@[k].first_sector < u32::MAX,
            out@.len() == i,
            forall|k: int|
                0 <= k < i && toc@[k].is_audio ==> spec_track_plan_ok(
                    *medium,
                    (k + 1) as u32,
                    toc@[k].first_sector,
                    toc@[k].last_sector,
                ),
            forall|k: int|
                0 <= k < i ==> if toc@[k].is_audio {
                    out@[k] matches TrackDecision::Rip { plan } && spec_plan_matches(
                        plan,
                        *medium,
                        multi_disc,
                        *sanitizer,
                        (k + 1) as u32,
                        toc@[k].first_sector,
                        toc@[k].last_sector,
                        toc@[k].channels,
                    )
                } else {
                    out@[k] == (TrackDecision::Skip { track_num: (k + 1) as u32 })
                },
        decreases toc@.len() - i,
    {
        let entry = &toc[i];
        let track_num = (i + 1) as u32;
        if entry.is_audio {
            let planned = plan_track(
                medium,
                multi_disc,
                sanitizer,
                track_num,
                entry.first_sector,
                entry.last_sector,
                entry.channels,
            );
            match planned {
                Ok(plan) => {
                    out.push(TrackDecision::Rip { plan });
                },
                Err(e) => {
                    return Err(e);
                },
            }
        } else {
            out.push(TrackDecision::Skip { track_num });
        }
        i += 1;
    }
    Ok(out)
}

} // verus!
