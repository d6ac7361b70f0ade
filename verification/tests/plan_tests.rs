use cdrip::mb::Artist;
use cdrip::mb::ArtistCredit;
use cdrip::mb::Release;
use cdrip::plan::DirAction;
use cdrip::plan::album_dir_name;
use cdrip::plan::plan_album_dir;
use cdrip::plan::track_file_name;
use cdrip::text::PathSanitizer;

fn credit(name: &str, joinphrase: &str) -> ArtistCredit {
    ArtistCredit {
        artist: Artist {
            disambiguation: String::new(),
            id: String::new(),
            name: name.to_string(),
            sort_name: name.to_string(),
            type_: String::new(),
            type_id: String::new(),
        },
        joinphrase: joinphrase.to_string(),
        name: name.to_string(),
    }
}

fn release(credits: Vec<ArtistCredit>, title: &str) -> Release {
    Release {
        artist_credit: credits,
        asin: None,
        barcode: None,
        country: None,
        cover_art_archive: None,
        date: String::new(),
        disambiguation: String::new(),
        id: "mbid-1".to_string(),
        label_info: Vec::new(),
        media: Vec::new(),
        packaging: None,
        packaging_id: None,
        quality: String::new(),
        title: title.to_string(),
    }
}

#[test]
fn album_dir_is_artist_dash_title_sanitized() {
    let sanitizer = PathSanitizer::default();
    let r = release(vec![credit("Air", " & "), credit("Varda", "")], "Moon/Safari");
    assert_eq!(album_dir_name(&sanitizer, &r), "Air & Varda - Moon\u{2215}Safari");
}

#[test]
fn missing_directory_is_created_without_confirmation() {
    assert!(matches!(plan_album_dir(false, false), DirAction::CreateOnly));
    assert!(matches!(plan_album_dir(false, true), DirAction::CreateOnly));
}

#[test]
fn declined_overwrite_deletes_nothing_and_rips_into_the_directory() {
    assert!(matches!(plan_album_dir(true, false), DirAction::CreateOnly));
}

#[test]
fn confirmed_overwrite_removes_then_recreates() {
    assert!(matches!(plan_album_dir(true, true), DirAction::RemoveThenCreate));
}

#[test]
fn single_medium_track_name_is_two_digit_number_title_extension() {
    let sanitizer = PathSanitizer::default();
    assert_eq!(track_file_name(&sanitizer, 1, false, 7, "Interlude"), "07 Interlude.flac");
}

#[test]
fn multi_medium_track_name_carries_the_medium_position() {
    let sanitizer = PathSanitizer::default();
    assert_eq!(track_file_name(&sanitizer, 2, false, 3, "Coda"), "03 Coda.flac");
    assert_eq!(track_file_name(&sanitizer, 2, true, 3, "Coda"), "2-03 Coda.flac");
}

#[test]
fn track_name_sanitizes_the_title() {
    let sanitizer = PathSanitizer::ntfs();
    assert_eq!(
        track_file_name(&sanitizer, 1, false, 12, "What?/Why*"),
        "12 What\u{0294}\u{2215}Why\u{04ff}.flac"
    );
}

#[test]
fn track_numbers_beyond_two_digits_are_not_truncated() {
    let sanitizer = PathSanitizer::default();
    assert_eq!(track_file_name(&sanitizer, 1, false, 101, "X"), "101 X.flac");
}
