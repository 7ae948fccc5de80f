//! The command that splits each track off the audio file, and the file it
//! goes to.

use crate::disc::{derive_disk_number, disc_number};
use crate::paths::{
    dir_chars, dir_of, extension_chars, extension_of, file_name_chars, file_name_of, join,
    join_chars,
};
use crate::sheet::{copy_text, text_view, track_views, CueSheet, CueSheetView, Track, TrackView};
use crate::text::{
    append_chars, append_text, chars_of, decimal, decimal_chars, padded_decimal,
    padded_decimal_chars, same_chars, string_of, trim, trim_chars,
};
use crate::timing::CueDuration;
use crate::validate::{all_have_start, first_without_start};
use vstd::prelude::*;

verus! {

/// A character as it may stand in a file name: `/`, `\` and `:` become
/// `-`, and a backtick becomes an apostrophe.
pub open spec fn safe_char(c: char) -> char {
    if c == '/' || c == '\\' || c == ':' {
        '-'
    } else if c == '`' {
        '\''
    } else {
        c
    }
}

/// A text with each character made safe for a file name.
pub open spec fn sanitized(s: Seq<char>) -> Seq<char> {
    Seq::new(s.len(), |i: int| safe_char(s[i]))
}

/// What a track's file is called after its number: `artist - title`, the
/// title alone where no artist is known, `Unknown` where no title is;
/// made safe for a file name and trimmed.
pub open spec fn track_label(track: TrackView) -> Seq<char> {
    trim(
        sanitized(
            match track.title {
                Some(title) => match track.artist {
                    Some(artist) => artist + " - "@ + title,
                    None => title,
                },
                None => "Unknown"@,
            },
        ),
    )
}

/// The directory that the tracks of a sheet go to: the audio file's own,
/// or `CD<n>` under it for a sheet that is one disc of several.
pub open spec fn output_dir_of(sheet: CueSheetView, multi_disc: bool) -> Seq<char> {
    let audio_dir = dir_of(sheet.audio_file_path);
    if multi_disc {
        join(audio_dir, "CD"@ + decimal(disc_number(file_name_of(sheet.cue_file_path))))
    } else {
        audio_dir
    }
}

/// The file that a track goes to: in the sheet's output directory, the
/// track's number in two digits, a blank, its label, and the audio file's
/// extension.
pub open spec fn output_name(sheet: CueSheetView, track: TrackView, multi_disc: bool) -> Seq<
    char,
> {
    join(
        output_dir_of(sheet, multi_disc),
        padded_decimal(track.number as nat, 2) + " "@ + track_label(track) + "."@ + extension_of(
            sheet.audio_file_name,
        ),
    )
}

/// The end of a track in a command: the start of the track that follows,
/// and nothing for the last track, which runs to the end of the audio.
pub open spec fn end_bound(next_start: Option<CueDuration>) -> Seq<char> {
    match next_start {
        Some(t) => "-to \""@ + t.timestamp() + "\""@,
        None => Seq::<char>::empty(),
    }
}

/// The command that copies the audio between two positions into a file of
/// its own, without re-encoding and without the source's metadata.
pub open spec fn command_text(
    audio_path: Seq<char>,
    start: CueDuration,
    next_start: Option<CueDuration>,
    output: Seq<char>,
) -> Seq<char> {
    "ffmpeg -y -i \""@ + audio_path + "\" -map_metadata -1 -acodec copy -ss \""@
        + start.timestamp() + "\" "@ + end_bound(next_start) + " \""@ + output + "\""@
}

/// The start of the track after place `index`, if there is one.
pub open spec fn next_start(tracks: Seq<TrackView>, index: int) -> Option<CueDuration> {
    if index + 1 < tracks.len() {
        tracks[index + 1].start_time
    } else {
        None
    }
}

/// A track with its output file and its command.
pub open spec fn with_command(
    sheet: CueSheetView,
    index: int,
    track: TrackView,
    multi_disc: bool,
) -> TrackView {
    TrackView {
        output_file: Some(output_name(sheet, track, multi_disc)),
        ffmpeg_command: Some(
            command_text(
                sheet.audio_file_path,
                track.start_time->0,
                next_start(sheet.tracks, index),
                output_name(sheet, track, multi_disc),
            ),
        ),
        ..track
    }
}

fn sanitize(s: &Vec<char>) -> (out: Vec<char>)
    ensures
        out@ == sanitized(s@),
{
    let mut out: Vec<char> = Vec::new();
    let mut i: usize = 0;
    while i < s.len()
        invariant
            i <= s.len(),
            out@ == sanitized(s@).take(i as int),
        decreases s.len() - i,
    {
        let c = s[i];
        let safe = if c == '/' || c == '\\' || c == ':' {
            '-'
        } else if c == '`' {
            '\''
        } else {
            c
        };
        out.push(safe);
        i += 1;
    }
    out
}

fn label_of(track: &Track) -> (out: Vec<char>)
    ensures
        out@ == track_label(track@),
{
    let mut raw: Vec<char> = Vec::new();
    match &track.title {
        Some(title) => {
            match &track.artist {
                Some(artist) => {
                    append_text(&mut raw, artist.as_str());
                    append_text(&mut raw, " - ");
                    append_text(&mut raw, title.as_str());
                },
                None => {
                    append_text(&mut raw, title.as_str());
                },
            }
        },
        None => {
            append_text(&mut raw, "Unknown");
        },
    }
    trim_chars(&sanitize(&raw))
}

/// The file that a track goes to: see [`output_name`].
pub fn build_output_name(cue_sheet: &CueSheet, track: &Track, multi_disc: bool) -> (out: String)
    ensures
        out@ == output_name(cue_sheet@, track@, multi_disc),
{
    let audio_dir = dir_chars(&chars_of(cue_sheet.audio_file_path.as_str()));
    let dir = if multi_disc {
        let mut sub: Vec<char> = Vec::new();
        append_text(&mut sub, "CD");
        let n = derive_disk_number(cue_sheet.cue_file_path.as_str());
        append_chars(&mut sub, &decimal_chars(n as u64));
        join_chars(&audio_dir, &sub)
    } else {
        audio_dir
    };
    let mut file = padded_decimal_chars(track.number as u64, 2);
    append_text(&mut file, " ");
    append_chars(&mut file, &label_of(track));
    append_text(&mut file, ".");
    append_chars(&mut file, &extension_chars(&chars_of(cue_sheet.audio_file_name.as_str())));
    string_of(&join_chars(&dir, &file))
}

/// The text of a split command: see [`command_text`].
pub fn command_for(
    audio_path: &str,
    start: &CueDuration,
    next_start: &Option<CueDuration>,
    output: &str,
) -> (out: String)
    ensures
        out@ == command_text(audio_path@, *start, *next_start, output@),
{
    let mut out: Vec<char> = Vec::new();
    append_text(&mut out, "ffmpeg -y -i \"");
    append_text(&mut out, audio_path);
    append_text(&mut out, "\" -map_metadata -1 -acodec copy -ss \"");
    append_chars(&mut out, &start.timestamp_chars());
    append_text(&mut out, "\" ");
    match next_start {
        Some(t) => {
            append_text(&mut out, "-to \"");
            append_chars(&mut out, &t.timestamp_chars());
            append_text(&mut out, "\"");
        },
        None => {},
    }
    append_text(&mut out, " \"");
    append_text(&mut out, output);
    append_text(&mut out, "\"");
    string_of(&out)
}

/// The track at place `index` of the sheet with its output file and its
/// command. The track ends where the next one starts; the last track has
/// no end.
pub fn build_ffmpeg_command(cue_sheet: &CueSheet, index: usize, track: &Track, multi_disc: bool) -> (out:
    Track)
    requires
        index < cue_sheet.tracks.len(),
        track.start_time is Some,
        index + 1 < cue_sheet.tracks.len() ==> cue_sheet.tracks[index + 1].start_time is Some,
    ensures
        out@ == with_command(cue_sheet@, index as int, track@, multi_disc),
{
    let start = track.start_time.unwrap();
    let next: Option<CueDuration> = if index + 1 < cue_sheet.tracks.len() {
        cue_sheet.tracks[index + 1].start_time
    } else {
        None
    };
    let output = build_output_name(cue_sheet, track, multi_disc);
    let command = command_for(cue_sheet.audio_file_path.as_str(), &start, &next, output.as_str());
    Track {
        number: track.number,
        title: copy_text(&track.title),
        artist: copy_text(&track.artist),
        start_time: track.start_time,
        output_file: Some(output),
        ffmpeg_command: Some(command),
    }
}

/// The tracks of a sheet, each with its output file and its command.
pub open spec fn commanded_tracks(sheet: CueSheetView, multi_disc: bool) -> Seq<TrackView> {
    Seq::new(sheet.tracks.len(), |i: int| with_command(sheet, i, sheet.tracks[i], multi_disc))
}

/// Every track gets a file and a command, in the tracks' order, and keeps
/// its number, title, artist and start.
pub proof fn every_track_gets_a_command(sheet: CueSheetView, multi_disc: bool, i: int)
    requires
        0 <= i < sheet.tracks.len(),
    ensures
        commanded_tracks(sheet, multi_disc).len() == sheet.tracks.len(),
        commanded_tracks(sheet, multi_disc)[i].output_file is Some,
        commanded_tracks(sheet, multi_disc)[i].ffmpeg_command is Some,
        commanded_tracks(sheet, multi_disc)[i].number == sheet.tracks[i].number,
        commanded_tracks(sheet, multi_disc)[i].title == sheet.tracks[i].title,
        commanded_tracks(sheet, multi_disc)[i].artist == sheet.tracks[i].artist,
        commanded_tracks(sheet, multi_disc)[i].start_time == sheet.tracks[i].start_time,
{
}

/// A track's command ends the track where the next track starts, and the
/// last track's command names no end.
pub proof fn track_ends_where_the_next_starts(sheet: CueSheetView, multi_disc: bool, i: int)
    requires
        0 <= i < sheet.tracks.len(),
    ensures
        i + 1 < sheet.tracks.len() ==> commanded_tracks(sheet, multi_disc)[i].ffmpeg_command
            == Some(
            command_text(
                sheet.audio_file_path,
                sheet.tracks[i].start_time->0,
                sheet.tracks[i + 1].start_time,
                output_name(sheet, sheet.tracks[i], multi_disc),
            ),
        ),
        i + 1 == sheet.tracks.len() ==> commanded_tracks(sheet, multi_disc)[i].ffmpeg_command
            == Some(
            command_text(
                sheet.audio_file_path,
                sheet.tracks[i].start_time->0,
                None,
                output_name(sheet, sheet.tracks[i], multi_disc),
            ),
        ),
        end_bound(None) == Seq::<char>::empty(),
{
}

/// Gives every track of the sheet its output file and its command, and
/// says whether it did. A sheet in which a track has no start time is left
/// as it is.
pub fn augment_with_ffmpeg_commands(cue_sheet: &mut CueSheet, multi_disc: bool) -> (done: bool)
    ensures
        done == (first_without_start(old(cue_sheet)@.tracks, old(cue_sheet)@.tracks.len())
            is None),
        done ==> final(cue_sheet)@ == (CueSheetView {
            tracks: commanded_tracks(old(cue_sheet)@, multi_disc),
            ..old(cue_sheet)@
        }),
        !done ==> *final(cue_sheet) == *old(cue_sheet),
{
    let n = cue_sheet.tracks.len();
    let ghost tracks = cue_sheet@.tracks;
    let mut k: usize = 0;
    while k < n
        invariant
            k <= n == cue_sheet.tracks.len(),
            *cue_sheet == *old(cue_sheet),
            tracks == cue_sheet@.tracks,
            first_without_start(tracks, k as nat) is None,
        decreases n - k,
    {
        if cue_sheet.tracks[k].start_time.is_none() {
            proof {
                missing_start_stays(tracks, (k + 1) as nat, n as nat);
            }
            return false;
        }
        k += 1;
    }
    let mut augmented: Vec<Track> = Vec::new();
    let mut i: usize = 0;
    while i < n
        invariant
            i <= n == cue_sheet.tracks.len(),
            *cue_sheet == *old(cue_sheet),
            tracks == cue_sheet@.tracks,
            first_without_start(tracks, n as nat) is None,
            augmented.len() == i,
            forall|j: int|
                0 <= j < i ==> augmented[j]@ == with_command(
                    cue_sheet@,
                    j,
                    tracks[j],
                    multi_disc,
                ),
        decreases n - i,
    {
        proof {
            all_have_start(tracks, n as nat, i as int);
            if i + 1 < n {
                all_have_start(tracks, n as nat, i + 1);
            }
        }
        let track = build_ffmpeg_command(cue_sheet, i, &cue_sheet.tracks[i], multi_disc);
        augmented.push(track);
        i += 1;
    }
    assert(track_views(augmented@) =~= commanded_tracks(old(cue_sheet)@, multi_disc));
    cue_sheet.tracks = augmented;
    true
}

proof fn missing_start_stays(tracks: Seq<TrackView>, n: nat, m: nat)
    requires
        n <= m,
        first_without_start(tracks, n) is Some,
    ensures
        first_without_start(tracks, m) is Some,
    decreases m - n,
{
    if n < m {
        missing_start_stays(tracks, n, (m - 1) as nat);
    }
}

/// The output directory that a sheet's tracks give it: the directory of
/// the first track's output file, where there is one.
pub open spec fn with_output_dir(sheet: CueSheetView) -> CueSheetView {
    if sheet.tracks.len() > 0 && sheet.tracks[0].output_file is Some {
        CueSheetView { output_dir: Some(dir_of(sheet.tracks[0].output_file->0)), ..sheet }
    } else {
        sheet
    }
}

/// Sets the sheet's output directory to the directory of its first track's
/// output file. A sheet without tracks, or whose first track has no output
/// file yet, is left as it is.
pub fn augment_with_output_dir(cue_sheet: &mut CueSheet)
    ensures
        final(cue_sheet)@ == with_output_dir(old(cue_sheet)@),
{
    if cue_sheet.tracks.len() > 0 {
        match &cue_sheet.tracks[0].output_file {
            Some(file) => {
                let dir = string_of(&dir_chars(&chars_of(file.as_str())));
                cue_sheet.output_dir = Some(dir);
            },
            None => {},
        }
    }
}

/// Where the audio file goes once its tracks are split off: under its own
/// name into the sheet's output directory. Nowhere if it is there already,
/// or if the sheet has no output directory yet.
pub open spec fn transfer_target(sheet: CueSheetView) -> Option<Seq<char>> {
    match sheet.output_dir {
        Some(dir) => if dir_of(sheet.audio_file_path) == dir {
            None
        } else {
            Some(join(dir, file_name_of(sheet.audio_file_path)))
        },
        None => None,
    }
}

/// Where to move the sheet's audio file: see [`transfer_target`].
pub fn move_input_audio_files(cue_sheet: &CueSheet) -> (out: Option<String>)
    ensures
        text_view(out) == transfer_target(cue_sheet@),
{
    match &cue_sheet.output_dir {
        Some(dir) => {
            let audio = chars_of(cue_sheet.audio_file_path.as_str());
            let output_dir = chars_of(dir.as_str());
            if same_chars(&dir_chars(&audio), &output_dir) {
                None
            } else {
                Some(string_of(&join_chars(&output_dir, &file_name_chars(&audio))))
            }
        },
        None => None,
    }
}

} // verus!
