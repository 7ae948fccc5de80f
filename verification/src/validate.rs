//! What a sheet must satisfy before it is split, checked in a fixed order.

use crate::sheet::{CueSheet, CueSheetView, TrackView};
use crate::text::{append_chars, append_text, decimal, decimal_chars, string_of};
use crate::timing::{starts_before, CueDuration};
use vstd::prelude::*;

verus! {

/// Why a sheet cannot be split as it stands.
#[derive(Debug, Clone, Copy, PartialEq, Eq, Structural)]
pub enum ValidationError {
    /// The cue file is not on disk.
    CueFileMissing,
    /// The audio file that the sheet names is not on disk. This alone can
    /// be repaired: another file may be taken for it.
    AudioFileMissing,
    /// The sheet has no track.
    NoTracks,
    /// The audio tool could not read the audio file's stream.
    UnreadableAudio,
    /// A track has no `INDEX 01`.
    MissingStartTime { track: u32 },
    /// A track does not start after the track before it.
    NotIncreasing {
        track: u32,
        start: CueDuration,
        previous_track: u32,
        previous_start: CueDuration,
    },
}

/// What is said to the user of a failed check. A track that does not start
/// after the one before it is named with its number and its start, and so
/// is the track before it.
pub open spec fn message_of(error: ValidationError) -> Seq<char> {
    match error {
        ValidationError::CueFileMissing => "The cue file was not found"@,
        ValidationError::AudioFileMissing => {
            "The referenced audio file of the cue sheet was not found"@
        },
        ValidationError::NoTracks => "No tracks found in cue file"@,
        ValidationError::UnreadableAudio => {
            "The audio file could not be read: most likely it is corrupt or its codec is not supported"@
        },
        ValidationError::MissingStartTime { track } => "No start time found for track "@
            + decimal(track as nat),
        ValidationError::NotIncreasing { track, start, previous_track, previous_start } => {
            "Track start time is not strictly monotonic growing: track "@ + decimal(track as nat)
                + " starts at "@ + start.cue_notation() + ", but previous track "@ + decimal(
                previous_track as nat,
            ) + " starts at "@ + previous_start.cue_notation()
        },
    }
}

impl ValidationError {
    /// What is said to the user of the failed check: see [`message_of`].
    pub fn message(&self) -> (out: String)
        ensures
            out@ == message_of(*self),
    {
        let mut out: Vec<char> = Vec::new();
        match self {
            ValidationError::CueFileMissing => {
                append_text(&mut out, "The cue file was not found");
            },
            ValidationError::AudioFileMissing => {
                append_text(&mut out, "The referenced audio file of the cue sheet was not found");
            },
            ValidationError::NoTracks => {
                append_text(&mut out, "No tracks found in cue file");
            },
            ValidationError::UnreadableAudio => {
                append_text(
                    &mut out,
                    "The audio file could not be read: most likely it is corrupt or its codec is not supported",
                );
            },
            ValidationError::MissingStartTime { track } => {
                append_text(&mut out, "No start time found for track ");
                append_chars(&mut out, &decimal_chars(*track as u64));
            },
            ValidationError::NotIncreasing { track, start, previous_track, previous_start } => {
                append_text(&mut out, "Track start time is not strictly monotonic growing: track ");
                append_chars(&mut out, &decimal_chars(*track as u64));
                append_text(&mut out, " starts at ");
                append_chars(&mut out, &start.cue_notation_chars());
                append_text(&mut out, ", but previous track ");
                append_chars(&mut out, &decimal_chars(*previous_track as u64));
                append_text(&mut out, " starts at ");
                append_chars(&mut out, &previous_start.cue_notation_chars());
            },
        }
        string_of(&out)
    }
}

/// The first of the first `n` tracks that has no start time.
pub open spec fn first_without_start(tracks: Seq<TrackView>, n: nat) -> Option<int>
    decreases n,
{
    if n == 0 {
        None
    } else {
        match first_without_start(tracks, (n - 1) as nat) {
            Some(i) => Some(i),
            None => if tracks[n - 1].start_time is None {
                Some(n - 1)
            } else {
                None
            },
        }
    }
}

/// Whether track `i` starts no later than the track before it.
pub open spec fn falls_back(tracks: Seq<TrackView>, i: int) -> bool {
    i >= 1 && tracks[i].start_time->0.frame_count() <= tracks[i - 1].start_time->0.frame_count()
}

/// The first of the first `n` tracks that starts no later than the track
/// before it.
pub open spec fn first_fall_back(tracks: Seq<TrackView>, n: nat) -> Option<int>
    decreases n,
{
    if n == 0 {
        None
    } else {
        match first_fall_back(tracks, (n - 1) as nat) {
            Some(i) => Some(i),
            None => if falls_back(tracks, n - 1) {
                Some(n - 1)
            } else {
                None
            },
        }
    }
}

/// The outcome of the checks, the first failing one deciding: the cue file
/// is there, the audio file is there, there are tracks, the audio stream
/// can be read, every track has a start, and the starts strictly increase.
pub open spec fn checked(
    sheet: CueSheetView,
    cue_exists: bool,
    audio_exists: bool,
    audio_readable: bool,
) -> Result<(), ValidationError> {
    let tracks = sheet.tracks;
    if !cue_exists {
        Err(ValidationError::CueFileMissing)
    } else if !audio_exists {
        Err(ValidationError::AudioFileMissing)
    } else if tracks.len() == 0 {
        Err(ValidationError::NoTracks)
    } else if !audio_readable {
        Err(ValidationError::UnreadableAudio)
    } else if let Some(i) = first_without_start(tracks, tracks.len()) {
        Err(ValidationError::MissingStartTime { track: tracks[i].number })
    } else if let Some(i) = first_fall_back(tracks, tracks.len()) {
        Err(
            ValidationError::NotIncreasing {
                track: tracks[i].number,
                start: tracks[i].start_time->0,
                previous_track: tracks[i - 1].number,
                previous_start: tracks[i - 1].start_time->0,
            },
        )
    } else {
        Ok(())
    }
}

proof fn found_without_start_stays(tracks: Seq<TrackView>, n: nat, m: nat)
    requires
        n <= m,
        first_without_start(tracks, n) is Some,
    ensures
        first_without_start(tracks, m) == first_without_start(tracks, n),
    decreases m - n,
{
    if n < m {
        found_without_start_stays(tracks, n, (m - 1) as nat);
    }
}

proof fn found_fall_back_stays(tracks: Seq<TrackView>, n: nat, m: nat)
    requires
        n <= m,
        first_fall_back(tracks, n) is Some,
    ensures
        first_fall_back(tracks, m) == first_fall_back(tracks, n),
    decreases m - n,
{
    if n < m {
        found_fall_back_stays(tracks, n, (m - 1) as nat);
    }
}

/// Checks a sheet, given what the disk and the audio tool have said of its
/// files.
pub fn verify_cue_files(
    sheet: &CueSheet,
    cue_exists: bool,
    audio_exists: bool,
    audio_readable: bool,
) -> (out: Result<(), ValidationError>)
    ensures
        out == checked(sheet@, cue_exists, audio_exists, audio_readable),
{
    if !cue_exists {
        return Err(ValidationError::CueFileMissing);
    }
    if !audio_exists {
        return Err(ValidationError::AudioFileMissing);
    }
    let n = sheet.tracks.len();
    if n == 0 {
        return Err(ValidationError::NoTracks);
    }
    if !audio_readable {
        return Err(ValidationError::UnreadableAudio);
    }
    let ghost tracks = sheet@.tracks;
    let mut i: usize = 0;
    while i < n
        invariant
            i <= n == sheet.tracks.len(),
            n > 0,
            cue_exists && audio_exists && audio_readable,
            tracks == sheet@.tracks,
            first_without_start(tracks, i as nat) is None,
        decreases n - i,
    {
        if sheet.tracks[i].start_time.is_none() {
            proof {
                found_without_start_stays(tracks, (i + 1) as nat, n as nat);
            }
            return Err(ValidationError::MissingStartTime { track: sheet.tracks[i].number });
        }
        i += 1;
    }
    let mut i: usize = 1;
    assert(first_fall_back(tracks, 1) is None) by {
        assert(first_fall_back(tracks, 0) is None);
    }
    while i < n
        invariant
            1 <= i <= n == sheet.tracks.len(),
            cue_exists && audio_exists && audio_readable,
            tracks == sheet@.tracks,
            first_without_start(tracks, n as nat) is None,
            first_fall_back(tracks, i as nat) is None,
        decreases n - i,
    {
        proof {
            all_have_start(tracks, n as nat, i as int);
            all_have_start(tracks, n as nat, i - 1);
        }
        let start = sheet.tracks[i].start_time.unwrap();
        let previous_start = sheet.tracks[i - 1].start_time.unwrap();
        if !starts_before(&previous_start, &start) {
            proof {
                found_fall_back_stays(tracks, (i + 1) as nat, n as nat);
            }
            return Err(
                ValidationError::NotIncreasing {
                    track: sheet.tracks[i].number,
                    start,
                    previous_track: sheet.tracks[i - 1].number,
                    previous_start,
                },
            );
        }
        i += 1;
    }
    Ok(())
}

/// Where none of the first `n` tracks lacks a start, each of them has one.
pub proof fn all_have_start(tracks: Seq<TrackView>, n: nat, i: int)
    requires
        first_without_start(tracks, n) is None,
        0 <= i < n,
    ensures
        tracks[i].start_time is Some,
    decreases n,
{
    if i < n - 1 {
        all_have_start(tracks, (n - 1) as nat, i);
    }
}

proof fn none_falls_back(tracks: Seq<TrackView>, n: nat, i: int)
    requires
        first_fall_back(tracks, n) is None,
        0 <= i < n,
    ensures
        !falls_back(tracks, i),
    decreases n,
{
    if i < n - 1 {
        none_falls_back(tracks, (n - 1) as nat, i);
    }
}

/// In a sheet that passes the checks there is a track, every track has a
/// start, and of any two tracks the later in the list starts on a later
/// frame.
pub proof fn valid_sheet_strictly_increases(
    sheet: CueSheetView,
    cue_exists: bool,
    audio_exists: bool,
    audio_readable: bool,
    i: int,
    j: int,
)
    requires
        checked(sheet, cue_exists, audio_exists, audio_readable) is Ok,
        0 <= i < j < sheet.tracks.len(),
    ensures
        sheet.tracks.len() > 0,
        sheet.tracks[i].start_time is Some,
        sheet.tracks[j].start_time is Some,
        sheet.tracks[i].start_time->0.frame_count() < sheet.tracks[j].start_time->0.frame_count(),
    decreases j - i,
{
    let tracks = sheet.tracks;
    all_have_start(tracks, tracks.len(), i);
    all_have_start(tracks, tracks.len(), j);
    none_falls_back(tracks, tracks.len(), j);
    if i < j - 1 {
        valid_sheet_strictly_increases(sheet, cue_exists, audio_exists, audio_readable, i, j - 1);
    }
}

/// A sheet whose files are there and readable, which has a track, a start
/// for every track, and each track starting after the one before it,
/// passes the checks.
pub proof fn increasing_sheet_is_valid(sheet: CueSheetView)
    requires
        sheet.tracks.len() > 0,
        forall|i: int| 0 <= i < sheet.tracks.len() ==> sheet.tracks[i].start_time is Some,
        forall|i: int|
            1 <= i < sheet.tracks.len() ==> sheet.tracks[i - 1].start_time->0.frame_count()
                < (#[trigger] sheet.tracks[i]).start_time->0.frame_count(),
    ensures
        checked(sheet, true, true, true) is Ok,
{
    no_start_missing(sheet.tracks, sheet.tracks.len());
    no_fall_back(sheet.tracks, sheet.tracks.len());
}

proof fn no_start_missing(tracks: Seq<TrackView>, n: nat)
    requires
        n <= tracks.len(),
        forall|i: int| 0 <= i < tracks.len() ==> tracks[i].start_time is Some,
    ensures
        first_without_start(tracks, n) is None,
    decreases n,
{
    if n > 0 {
        no_start_missing(tracks, (n - 1) as nat);
    }
}

proof fn no_fall_back(tracks: Seq<TrackView>, n: nat)
    requires
        n <= tracks.len(),
        forall|i: int|
            1 <= i < tracks.len() ==> tracks[i - 1].start_time->0.frame_count() < (
            #[trigger] tracks[i]).start_time->0.frame_count(),
    ensures
        first_fall_back(tracks, n) is None,
    decreases n,
{
    if n > 0 {
        no_fall_back(tracks, (n - 1) as nat);
    }
}

} // verus!
