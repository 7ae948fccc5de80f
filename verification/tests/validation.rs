use cuesplit::parser::parse_cue_file;
use cuesplit::resolver::{advance, Event, FixAction, Stage};
use cuesplit::sheet::CueSheet;
use cuesplit::timing::CueDuration;
use cuesplit::validate::{verify_cue_files, ValidationError};

fn sheet_with_starts(starts: &[&str]) -> CueSheet {
    let mut text = String::from("FILE \"album.flac\" WAVE\n");
    for (i, start) in starts.iter().enumerate() {
        text.push_str(&format!("TRACK {:02} AUDIO\nTITLE \"T{}\"\n", i + 1, i + 1));
        if !start.is_empty() {
            text.push_str(&format!("INDEX 01 {}\n", start));
        }
    }
    parse_cue_file("/m/album.cue", &text).unwrap()
}

#[test]
fn strictly_increasing_starts_validate() {
    let sheet = sheet_with_starts(&["00:00:00", "03:45:00", "07:10:30"]);
    assert_eq!(verify_cue_files(&sheet, true, true, true), Ok(()));
}

#[test]
fn reordered_starts_fail_and_name_both_tracks() {
    let sheet = sheet_with_starts(&["00:00:00", "07:10:30", "03:45:00"]);
    let error = verify_cue_files(&sheet, true, true, true).unwrap_err();
    assert_eq!(
        error,
        ValidationError::NotIncreasing {
            track: 3,
            start: CueDuration::new(3, 45, 0),
            previous_track: 2,
            previous_start: CueDuration::new(7, 10, 30),
        }
    );
    assert_eq!(
        error.message(),
        "Track start time is not strictly monotonic growing: track 3 starts at 03:45:00, but previous track 2 starts at 07:10:30"
    );
}

#[test]
fn equal_starts_fail() {
    let sheet = sheet_with_starts(&["00:00:00", "00:01:00", "00:00:75"]);
    assert_eq!(
        verify_cue_files(&sheet, true, true, true),
        Err(ValidationError::NotIncreasing {
            track: 3,
            start: CueDuration::new(0, 0, 75),
            previous_track: 2,
            previous_start: CueDuration::new(0, 1, 0),
        })
    );
}

#[test]
fn the_first_failing_check_decides() {
    let good = sheet_with_starts(&["00:00:00", "03:45:00"]);
    let empty = sheet_with_starts(&[]);
    let gap = sheet_with_starts(&["00:00:00", "", "00:00:00", ""]);
    assert_eq!(verify_cue_files(&empty, false, false, false), Err(ValidationError::CueFileMissing));
    assert_eq!(verify_cue_files(&empty, true, false, false), Err(ValidationError::AudioFileMissing));
    assert_eq!(verify_cue_files(&empty, true, true, false), Err(ValidationError::NoTracks));
    assert_eq!(verify_cue_files(&gap, true, true, false), Err(ValidationError::UnreadableAudio));
    assert_eq!(verify_cue_files(&gap, true, true, true), Err(ValidationError::MissingStartTime { track: 2 }));
    assert_eq!(verify_cue_files(&good, true, true, true), Ok(()));
    assert_eq!(verify_cue_files(&good, true, true, false), Err(ValidationError::UnreadableAudio));
}

#[test]
fn a_single_track_validates() {
    let sheet = sheet_with_starts(&["12:00:00"]);
    assert_eq!(verify_cue_files(&sheet, true, true, true), Ok(()));
}

#[test]
fn messages_name_what_failed() {
    assert_eq!(ValidationError::MissingStartTime { track: 12 }.message(), "No start time found for track 12");
    assert_eq!(ValidationError::NoTracks.message(), "No tracks found in cue file");
    assert_eq!(ValidationError::CueFileMissing.message(), "The cue file was not found");
    assert_eq!(
        ValidationError::AudioFileMissing.message(),
        "The referenced audio file of the cue sheet was not found"
    );
    assert_eq!(
        ValidationError::UnreadableAudio.message(),
        "The audio file could not be read: most likely it is corrupt or its codec is not supported"
    );
}

#[test]
fn stages_follow_the_events() {
    assert_eq!(advance(Stage::Validating, Event::Passed), Stage::Valid);
    assert_eq!(
        advance(Stage::Validating, Event::Rejected(ValidationError::AudioFileMissing)),
        Stage::Repairing
    );
    assert_eq!(
        advance(Stage::Validating, Event::Rejected(ValidationError::NoTracks)),
        Stage::Failed(ValidationError::NoTracks)
    );
    assert_eq!(advance(Stage::Repairing, Event::Repaired(FixAction::Modified)), Stage::Validating);
    assert_eq!(advance(Stage::Repairing, Event::Repaired(FixAction::Unchanged)), Stage::Validating);
    assert_eq!(advance(Stage::Repairing, Event::Repaired(FixAction::Deleted)), Stage::Abandoned);
    assert_eq!(advance(Stage::Valid, Event::Repaired(FixAction::Deleted)), Stage::Valid);
    assert_eq!(advance(Stage::Abandoned, Event::Passed), Stage::Abandoned);
    assert_eq!(advance(Stage::Repairing, Event::Passed), Stage::Repairing);
    assert_eq!(
        advance(Stage::Validating, Event::Repaired(FixAction::Deleted)),
        Stage::Validating
    );
}
