//! The cue sheet and its tracks.

use crate::timing::CueDuration;
use vstd::prelude::*;

verus! {

/// One track of a cue sheet.
#[derive(Debug, Clone)]
pub struct Track {
    /// The number that the cue sheet gives the track.
    pub number: u32,
    pub title: Option<String>,
    pub artist: Option<String>,
    /// Where the track starts: its `INDEX 01`.
    pub start_time: Option<CueDuration>,
    /// The file that the track is split into, once commands are made.
    pub output_file: Option<String>,
    /// The command that splits the track off, once commands are made.
    pub ffmpeg_command: Option<String>,
}

/// What a track holds, as mathematical values.
pub struct TrackView {
    pub number: u32,
    pub title: Option<Seq<char>>,
    pub artist: Option<Seq<char>>,
    pub start_time: Option<CueDuration>,
    pub output_file: Option<Seq<char>>,
    pub ffmpeg_command: Option<Seq<char>>,
}

/// A cue sheet: the audio file that it speaks of and the tracks in it.
#[derive(Debug, Clone)]
pub struct CueSheet {
    pub cue_file_path: String,
    /// Where the audio file is; corrected when the reference is repaired.
    pub audio_file_path: String,
    /// The audio file's name as the `FILE` line wrote it.
    pub audio_file_name: String,
    pub output_dir: Option<String>,
    pub title: Option<String>,
    pub tracks: Vec<Track>,
}

/// What a cue sheet holds, as mathematical values.
pub struct CueSheetView {
    pub cue_file_path: Seq<char>,
    pub audio_file_path: Seq<char>,
    pub audio_file_name: Seq<char>,
    pub output_dir: Option<Seq<char>>,
    pub title: Option<Seq<char>>,
    pub tracks: Seq<TrackView>,
}

/// The characters of an optional text.
pub open spec fn text_view(o: Option<String>) -> Option<Seq<char>> {
    match o {
        Some(s) => Some(s@),
        None => None,
    }
}

/// The views of the tracks of a list.
pub open spec fn track_views(tracks: Seq<Track>) -> Seq<TrackView> {
    Seq::new(tracks.len(), |i: int| tracks[i]@)
}

impl View for Track {
    type V = TrackView;

    open spec fn view(&self) -> TrackView {
        TrackView {
            number: self.number,
            title: text_view(self.title),
            artist: text_view(self.artist),
            start_time: self.start_time,
            output_file: text_view(self.output_file),
            ffmpeg_command: text_view(self.ffmpeg_command),
        }
    }
}

impl View for CueSheet {
    type V = CueSheetView;

    open spec fn view(&self) -> CueSheetView {
        CueSheetView {
            cue_file_path: self.cue_file_path@,
            audio_file_path: self.audio_file_path@,
            audio_file_name: self.audio_file_name@,
            output_dir: text_view(self.output_dir),
            title: text_view(self.title),
            tracks: track_views(self.tracks@),
        }
    }
}

/// A copy of an optional text.
pub fn copy_text(o: &Option<String>) -> (out: Option<String>)
    ensures
        out == *o,
{
    match o {
        Some(s) => Some(s.clone()),
        None => None,
    }
}

impl Track {
    /// A track with its number and nothing else known of it.
    pub fn new(number: u32) -> (out: Track)
        ensures
            out@ == TrackView::blank(number),
    {
        Track {
            number,
            title: None,
            artist: None,
            start_time: None,
            output_file: None,
            ffmpeg_command: None,
        }
    }

    /// A copy of the track.
    pub fn duplicate(&self) -> (out: Track)
        ensures
            out == *self,
    {
        Track {
            number: self.number,
            title: copy_text(&self.title),
            artist: copy_text(&self.artist),
            start_time: self.start_time,
            output_file: copy_text(&self.output_file),
            ffmpeg_command: copy_text(&self.ffmpeg_command),
        }
    }
}

impl TrackView {
    /// A track with its number and nothing else known of it.
    pub open spec fn blank(number: u32) -> TrackView {
        TrackView {
            number,
            title: None,
            artist: None,
            start_time: None,
            output_file: None,
            ffmpeg_command: None,
        }
    }
}

} // verus!
