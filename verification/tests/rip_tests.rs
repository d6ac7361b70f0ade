use cdrip::errors::RipError;
use cdrip::mb::Media;
use cdrip::mb::Recording;
use cdrip::mb::Track;
use cdrip::rip::CD_FRAMEWORDS;
use cdrip::rip::CD_SAMPLE_RATE;
use cdrip::rip::SectorCursor;
use cdrip::rip::TrackDecision;
use cdrip::rip::TrackToc;
use cdrip::rip::duration_seconds;
use cdrip::rip::plan_track;
use cdrip::rip::plan_tracks;
use cdrip::rip::widen_sector;
use cdrip::text::PathSanitizer;

fn medium(position: u32, titles: Vec<&str>) -> Media {
    let tracks = titles
        .into_iter()
        .enumerate()
        .map(|(i, t)| Track {
            artist_credit: Vec::new(),
            id: String::new(),
            number: (i + 1).to_string(),
            position: (i + 1) as u32,
            recording: Recording {
                artist_credit: Vec::new(),
                disambiguation: String::new(),
                id: String::new(),
                title: t.to_string(),
            },
            title: t.to_string(),
        })
        .collect();
    Media {
        format: "CD".to_string(),
        format_id: String::new(),
        position,
        title: String::new(),
        track_count: 0,
        track_offset: 0,
        discs: Vec::new(),
        tracks,
    }
}

#[test]
fn duration_truncates_integer_seconds() {
    assert_eq!(duration_seconds(1000, 588, 44100, 2), 6);
}

#[test]
fn duration_uses_the_cd_constants() {
    // 75 sectors of stereo CD audio are exactly one second.
    assert_eq!(CD_FRAMEWORDS, 1176);
    assert_eq!(CD_SAMPLE_RATE, 44100);
    assert_eq!(duration_seconds(75, CD_FRAMEWORDS, CD_SAMPLE_RATE, 2), 1);
    assert_eq!(duration_seconds(74, CD_FRAMEWORDS, CD_SAMPLE_RATE, 2), 0);
}

#[test]
fn widening_is_sign_preserving_extension() {
    let samples: Vec<i16> = vec![i16::MIN, -1, 0, 1, i16::MAX];
    let widened = widen_sector(&samples);
    assert_eq!(widened, vec![-32768i32, -1, 0, 1, 32767]);
}

#[test]
fn widening_keeps_length_and_order() {
    let samples: Vec<i16> = (0..1176).map(|i| (i % 7) as i16 - 3).collect();
    let widened = widen_sector(&samples);
    assert_eq!(widened.len(), samples.len());
    for (wide, narrow) in widened.iter().zip(samples.iter()) {
        assert_eq!(*wide, *narrow as i32);
    }
}

#[test]
fn cursor_walks_the_inclusive_range_once() {
    let mut cursor = SectorCursor::new(10, 12);
    let mut seen = Vec::new();
    while !cursor.done() {
        seen.push(cursor.current());
        cursor.advance();
    }
    assert_eq!(seen, vec![10, 11, 12]);
    assert_eq!(cursor.sectors_done(), 3);
}

#[test]
fn plan_track_fills_every_field() {
    let m = medium(1, vec!["One", "Two"]);
    let sanitizer = PathSanitizer::default();
    let plan = plan_track(&m, false, &sanitizer, 2, 150, 1649, 2).unwrap();
    assert_eq!(plan.track_num, 2);
    assert_eq!(plan.first_sector, 150);
    assert_eq!(plan.last_sector, 1649);
    assert_eq!(plan.total_sectors, 1500);
    assert_eq!(plan.channels, 2);
    assert_eq!(plan.duration_seconds, 1500 * 1176 / (44100 * 2));
    assert_eq!(plan.frames_per_sector, 588);
    assert_eq!(plan.file_name, "02 Two.flac");
}

#[test]
fn inverted_sector_range_is_fatal() {
    let m = medium(1, vec!["One"]);
    let sanitizer = PathSanitizer::default();
    let planned = plan_track(&m, false, &sanitizer, 1, 100, 99, 2);
    match planned {
        Err(RipError::InvalidTrackRange { first_sector, last_sector }) => {
            assert_eq!((first_sector, last_sector), (100, 99));
        }
        _ => panic!("expected InvalidTrackRange"),
    }
    let e = RipError::InvalidTrackRange { first_sector: 100, last_sector: 99 };
    assert_eq!(e.message(), "Invalid sector range: first 100, last 99");
}

#[test]
fn track_beyond_the_release_track_list_is_fatal() {
    let m = medium(1, vec!["One"]);
    let sanitizer = PathSanitizer::default();
    let planned = plan_track(&m, false, &sanitizer, 2, 0, 10, 2);
    match planned {
        Err(RipError::TrackCountMismatch { track_num, track_count }) => {
            assert_eq!((track_num, track_count), (2, 1));
        }
        _ => panic!("expected TrackCountMismatch"),
    }
    let e = RipError::TrackCountMismatch { track_num: 2, track_count: 1 };
    assert_eq!(
        e.message(),
        "Track 2 has no entry in the matched medium, which lists 1 tracks"
    );
}

#[test]
fn data_track_is_skipped_and_only_the_audio_track_gets_a_file() {
    let m = medium(1, vec!["Song"]);
    let sanitizer = PathSanitizer::default();
    let toc = vec![
        TrackToc { is_audio: true, first_sector: 0, last_sector: 74, channels: 2 },
        TrackToc { is_audio: false, first_sector: 75, last_sector: 99, channels: 2 },
    ];
    let decisions = plan_tracks(&toc, &m, false, &sanitizer).unwrap();
    assert_eq!(decisions.len(), 2);
    let mut planned_files = Vec::new();
    for decision in &decisions {
        match decision {
            TrackDecision::Rip { plan } => planned_files.push(plan.file_name.clone()),
            TrackDecision::Skip { track_num } => assert_eq!(*track_num, 2),
        }
    }
    assert_eq!(planned_files, vec!["01 Song.flac".to_string()]);
}

#[test]
fn plan_tracks_aborts_on_the_first_bad_audio_track() {
    let m = medium(1, vec!["Song"]);
    let sanitizer = PathSanitizer::default();
    let toc = vec![
        TrackToc { is_audio: true, first_sector: 0, last_sector: 74, channels: 2 },
        TrackToc { is_audio: true, first_sector: 75, last_sector: 99, channels: 2 },
    ];
    let planned = plan_tracks(&toc, &m, false, &sanitizer);
    assert!(matches!(planned, Err(RipError::TrackCountMismatch { .. })));
}

#[test]
fn progress_line_shows_sectors_and_duration() {
    let m = medium(1, vec!["One", "Two"]);
    let sanitizer = PathSanitizer::default();
    let plan = plan_track(&m, false, &sanitizer, 2, 150, 1649, 2).unwrap();
    // 1500 sectors at 75 sectors per second are 20 seconds.
    assert_eq!(plan.progress_line(), "Track 02: Ripping 1500 sectors (0:20)");
}

#[test]
fn progress_line_splits_minutes_and_seconds() {
    let m = medium(1, vec!["One"]);
    let sanitizer = PathSanitizer::default();
    // 14703 sectors are 196 seconds: 3 minutes and 16 seconds.
    let plan = plan_track(&m, false, &sanitizer, 1, 0, 14702, 2).unwrap();
    assert_eq!(plan.duration_seconds, 196);
    assert_eq!(plan.progress_line(), "Track 01: Ripping 14703 sectors (3:16)");
}
