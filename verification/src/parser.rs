//! Reading a cue sheet: the text is taken line by line, and each line that
//! starts with one of `FILE`, `TRACK`, `TITLE`, `INDEX`, `PERFORMER` adds to
//! what is known of the sheet. Every other line is passed over.

use crate::paths::{dir_chars, dir_of, join, join_chars};
use crate::sheet::{text_view, track_views, CueSheet, CueSheetView, Track, TrackView};
use crate::text::{
    chars_of, find_first, find_last, first_word, first_word_chars, is_word, parse_decimal,
    parse_number, slice_of, split_chars, split_on, string_of, trim, trim_chars, views, without,
    without_chars,
};
use crate::timing::CueDuration;
use vstd::prelude::*;

verus! {

/// Why a line of a cue sheet could not be read.
#[derive(Debug, Clone, Copy, PartialEq, Eq, Structural)]
pub enum ParseErrorKind {
    /// A `FILE` line without a name between two double quotes.
    UnquotedFileName,
    /// A `TRACK` line whose first word is no number.
    BadTrackNumber,
    /// An `INDEX 01` line whose time is not three numbers with `:` between.
    BadTimestamp,
}

/// The first line of a cue sheet that could not be read.
#[derive(Debug, Clone, Copy, PartialEq, Eq, Structural)]
pub struct ParseError {
    /// The line's number, the first line being 1.
    pub line: usize,
    pub kind: ParseErrorKind,
}

/// What has been read of a sheet after some of its lines.
pub struct Progress {
    pub file_name: String,
    pub title: Option<String>,
    pub done: Vec<Track>,
    pub open: Option<Track>,
}

/// What has been read of a sheet, as mathematical values.
pub struct ProgressView {
    pub file_name: Seq<char>,
    pub title: Option<Seq<char>>,
    /// The tracks that a later `TRACK` line has closed.
    pub done: Seq<TrackView>,
    /// The track that the lines now add to.
    pub open: Option<TrackView>,
}

impl View for Progress {
    type V = ProgressView;

    open spec fn view(&self) -> ProgressView {
        ProgressView {
            file_name: self.file_name@,
            title: text_view(self.title),
            done: track_views(self.done@),
            open: match self.open {
                Some(t) => Some(t@),
                None => None,
            },
        }
    }
}

/// A line's keyword and what follows it: the trimmed line, parted at its
/// first blank. A line without a blank has neither.
pub open spec fn directive(line: Seq<char>) -> Option<(Seq<char>, Seq<char>)> {
    let l = trim(line);
    match l.index_of_first(' ') {
        Some(i) => Some((l.take(i), l.subrange(i + 1, l.len() as int))),
        None => None,
    }
}

/// What stands between the first and the last double quote.
pub open spec fn quoted_name(value: Seq<char>) -> Option<Seq<char>> {
    match (value.index_of_first('"'), value.index_of_last('"')) {
        (Some(a), Some(b)) => if a < b {
            Some(value.subrange(a + 1, b))
        } else {
            None
        },
        _ => None,
    }
}

/// A title or performer: the value without its double quotes, trimmed.
pub open spec fn unquoted(value: Seq<char>) -> Seq<char> {
    trim(without(value, '"'))
}

/// The number of an `INDEX` line: its first word, read as a number.
pub open spec fn index_number(value: Seq<char>) -> Option<nat> {
    parse_decimal(split_on(value, ' ')[0], u32::MAX as nat)
}

/// The time of an `INDEX` line: its last word, as `mm:ss:ff`.
pub open spec fn time_of(value: Seq<char>) -> Option<CueDuration> {
    let parts = split_on(split_on(value, ' ').last(), ':');
    if parts.len() >= 3 {
        match (
            parse_decimal(parts[0], u32::MAX as nat),
            parse_decimal(parts[1], u32::MAX as nat),
            parse_decimal(parts[2], u32::MAX as nat),
        ) {
            (Some(m), Some(s), Some(f)) => Some(
                CueDuration { minutes: m as u32, seconds: s as u32, frames: f as u32 },
            ),
            _ => None,
        }
    } else {
        None
    }
}

/// The tracks read so far, the open one last.
pub open spec fn all_tracks(p: ProgressView) -> Seq<TrackView> {
    match p.open {
        Some(t) => p.done.push(t),
        None => p.done,
    }
}

/// What one line adds to what has been read.
pub open spec fn step(p: ProgressView, line: Seq<char>) -> Result<ProgressView, ParseErrorKind> {
    match directive(line) {
        None => Ok(p),
        Some((key, value)) => {
            if key == "FILE"@ {
                match quoted_name(value) {
                    Some(name) => Ok(ProgressView { file_name: name, ..p }),
                    None => Err(ParseErrorKind::UnquotedFileName),
                }
            } else if key == "TRACK"@ {
                match parse_decimal(first_word(value), u32::MAX as nat) {
                    Some(n) => Ok(
                        ProgressView {
                            done: all_tracks(p),
                            open: Some(TrackView::blank(n as u32)),
                            ..p
                        },
                    ),
                    None => Err(ParseErrorKind::BadTrackNumber),
                }
            } else if key == "TITLE"@ {
                match p.open {
                    Some(t) => Ok(
                        ProgressView {
                            open: Some(TrackView { title: Some(unquoted(value)), ..t }),
                            ..p
                        },
                    ),
                    None => Ok(ProgressView { title: Some(unquoted(value)), ..p }),
                }
            } else if key == "INDEX"@ {
                match p.open {
                    Some(t) => if index_number(value) == Some(1nat) {
                        match time_of(value) {
                            Some(d) => Ok(
                                ProgressView {
                                    open: Some(TrackView { start_time: Some(d), ..t }),
                                    ..p
                                },
                            ),
                            None => Err(ParseErrorKind::BadTimestamp),
                        }
                    } else {
                        Ok(p)
                    },
                    None => Ok(p),
                }
            } else if key == "PERFORMER"@ {
                match p.open {
                    Some(t) => Ok(
                        ProgressView {
                            open: Some(TrackView { artist: Some(unquoted(value)), ..t }),
                            ..p
                        },
                    ),
                    None => Ok(p),
                }
            } else {
                Ok(p)
            }
        },
    }
}

/// Nothing read yet.
pub open spec fn nothing_read() -> ProgressView {
    ProgressView {
        file_name: Seq::<char>::empty(),
        title: None,
        done: Seq::<TrackView>::empty(),
        open: None,
    }
}

/// What the first `n` lines give, or the number and fault of the first
/// line among them that cannot be read.
pub open spec fn read_lines(lines: Seq<Seq<char>>, n: nat) -> Result<
    ProgressView,
    (nat, ParseErrorKind),
>
    decreases n,
{
    if n == 0 {
        Ok(nothing_read())
    } else {
        match read_lines(lines, (n - 1) as nat) {
            Err(e) => Err(e),
            Ok(p) => match step(p, lines[n - 1]) {
                Ok(q) => Ok(q),
                Err(kind) => Err((n, kind)),
            },
        }
    }
}

/// The sheet that the lines read make, for a cue file at `cue_path`: the
/// audio file is looked for beside the cue file.
pub open spec fn finished(cue_path: Seq<char>, p: ProgressView) -> CueSheetView {
    CueSheetView {
        cue_file_path: cue_path,
        audio_file_path: join(dir_of(cue_path), p.file_name),
        audio_file_name: p.file_name,
        output_dir: None,
        title: p.title,
        tracks: all_tracks(p),
    }
}

/// The lines of a text.
pub open spec fn lines_of(text: Seq<char>) -> Seq<Seq<char>> {
    split_on(text, '\n')
}

/// Parts a line into its keyword and what follows: see [`directive`].
pub fn split_directive(line: &Vec<char>) -> (out: Option<(Vec<char>, Vec<char>)>)
    ensures
        match out {
            Some((key, value)) => directive(line@) == Some((key@, value@)),
            None => directive(line@) is None,
        },
{
    let l = trim_chars(line);
    match find_first(&l, ' ') {
        Some(i) => {
            let key = slice_of(&l, 0, i);
            let value = slice_of(&l, i + 1, l.len());
            Some((key, value))
        },
        None => None,
    }
}

/// Takes the file name out of a `FILE` line's value: see [`quoted_name`].
pub fn quoted_name_chars(value: &Vec<char>) -> (out: Option<Vec<char>>)
    ensures
        match out {
            Some(name) => quoted_name(value@) == Some(name@),
            None => quoted_name(value@) is None,
        },
{
    match find_first(value, '"') {
        Some(a) => match find_last(value, '"') {
            Some(b) => {
                if a < b {
                    Some(slice_of(value, a + 1, b))
                } else {
                    None
                }
            },
            None => None,
        },
        None => None,
    }
}

/// Takes the title or performer out of a line's value: see [`unquoted`].
pub fn unquoted_text(value: &Vec<char>) -> (out: String)
    ensures
        out@ == unquoted(value@),
{
    let bare = without_chars(value, '"');
    let trimmed = trim_chars(&bare);
    string_of(&trimmed)
}

fn parse_u32(s: &Vec<char>) -> (out: Option<u32>)
    ensures
        match out {
            Some(v) => parse_decimal(s@, u32::MAX as nat) == Some(v as nat),
            None => parse_decimal(s@, u32::MAX as nat) is None,
        },
{
    match parse_number(s, u32::MAX as u64) {
        Some(v) => Some(v as u32),
        None => None,
    }
}

/// Reads the time of an `INDEX` line's value: see [`time_of`].
pub fn time_of_chars(value: &Vec<char>) -> (out: Option<CueDuration>)
    ensures
        out == time_of(value@),
{
    let words = split_chars(value, ' ');
    let last = &words[words.len() - 1];
    let parts = split_chars(last, ':');
    if parts.len() < 3 {
        return None;
    }
    match (parse_u32(&parts[0]), parse_u32(&parts[1]), parse_u32(&parts[2])) {
        (Some(minutes), Some(seconds), Some(frames)) => Some(
            CueDuration { minutes, seconds, frames },
        ),
        _ => None,
    }
}

/// Whether an `INDEX` line's value gives index 1, the start of the track.
pub fn is_index_one(value: &Vec<char>) -> (out: bool)
    ensures
        out == (index_number(value@) == Some(1nat)),
{
    let words = split_chars(value, ' ');
    match parse_u32(&words[0]) {
        Some(n) => n == 1,
        None => false,
    }
}

/// Takes one line into what has been read.
pub fn apply_line(p: Progress, line: &Vec<char>) -> (out: Result<Progress, ParseErrorKind>)
    ensures
        match out {
            Ok(q) => step(p@, line@) == Ok::<ProgressView, ParseErrorKind>(q@),
            Err(kind) => step(p@, line@) == Err::<ProgressView, ParseErrorKind>(kind),
        },
{
    let Progress { file_name, title, done, open } = p;
    let (key, value) = match split_directive(line) {
        Some(pair) => pair,
        None => {
            return Ok(Progress { file_name, title, done, open });
        },
    };
    if is_word(&key, "FILE") {
        match quoted_name_chars(&value) {
            Some(name) => Ok(Progress { file_name: string_of(&name), title, done, open }),
            None => Err(ParseErrorKind::UnquotedFileName),
        }
    } else if is_word(&key, "TRACK") {
        match parse_u32(&first_word_chars(&value)) {
            Some(n) => {
                let mut done = done;
                let ghost before = track_views(done@);
                match open {
                    Some(t) => {
                        done.push(t);
                        assert(track_views(done@) =~= before.push(t@));
                    },
                    None => {},
                }
                Ok(Progress { file_name, title, done, open: Some(Track::new(n)) })
            },
            None => Err(ParseErrorKind::BadTrackNumber),
        }
    } else if is_word(&key, "TITLE") {
        let text = unquoted_text(&value);
        match open {
            Some(t) => {
                let mut t = t;
                t.title = Some(text);
                Ok(Progress { file_name, title, done, open: Some(t) })
            },
            None => Ok(Progress { file_name, title: Some(text), done, open: None }),
        }
    } else if is_word(&key, "INDEX") {
        match open {
            Some(t) => {
                if is_index_one(&value) {
                    match time_of_chars(&value) {
                        Some(d) => {
                            let mut t = t;
                            t.start_time = Some(d);
                            Ok(Progress { file_name, title, done, open: Some(t) })
                        },
                        None => Err(ParseErrorKind::BadTimestamp),
                    }
                } else {
                    Ok(Progress { file_name, title, done, open: Some(t) })
                }
            },
            None => Ok(Progress { file_name, title, done, open: None }),
        }
    } else if is_word(&key, "PERFORMER") {
        match open {
            Some(t) => {
                let mut t = t;
                t.artist = Some(unquoted_text(&value));
                Ok(Progress { file_name, title, done, open: Some(t) })
            },
            None => Ok(Progress { file_name, title, done, open: None }),
        }
    } else {
        Ok(Progress { file_name, title, done, open })
    }
}

/// Reads the text of the cue file at `cue_file_path` into a sheet. The
/// first line that cannot be read ends the reading: nothing is returned of
/// a sheet that is read in part.
pub fn parse_cue_file(cue_file_path: &str, content: &str) -> (out: Result<CueSheet, ParseError>)
    ensures
        match read_lines(lines_of(content@), lines_of(content@).len()) {
            Ok(p) => out matches Ok(sheet) && sheet@ == finished(cue_file_path@, p),
            Err((n, kind)) => out == Err::<CueSheet, ParseError>(
                ParseError { line: n as usize, kind },
            ),
        },
{
    let text = chars_of(content);
    let lines = split_chars(&text, '\n');
    let mut p = Progress { file_name: String::new(), title: None, done: Vec::new(), open: None };
    assert(p@.done =~= nothing_read().done);
    let mut i: usize = 0;
    while i < lines.len()
        invariant
            i <= lines.len(),
            views(lines@) == lines_of(content@),
            read_lines(lines_of(content@), i as nat) == Ok::<ProgressView, (nat, ParseErrorKind)>(
                p@,
            ),
        decreases lines.len() - i,
    {
        match apply_line(p, &lines[i]) {
            Ok(q) => {
                p = q;
            },
            Err(kind) => {
                proof {
                    read_error_stays(lines_of(content@), (i + 1) as nat, lines.len() as nat);
                }
                return Err(ParseError { line: i + 1, kind });
            },
        }
        i += 1;
    }
    let Progress { file_name, title, done, open } = p;
    let mut tracks = done;
    let ghost before = track_views(tracks@);
    match open {
        Some(t) => {
            tracks.push(t);
            assert(track_views(tracks@) =~= before.push(t@));
        },
        None => {},
    }
    let cue_chars = chars_of(cue_file_path);
    let audio_path = join_chars(&dir_chars(&cue_chars), &chars_of(file_name.as_str()));
    Ok(
        CueSheet {
            cue_file_path: string_of(&cue_chars),
            audio_file_path: string_of(&audio_path),
            audio_file_name: file_name,
            output_dir: None,
            title,
            tracks,
        },
    )
}

/// Once a line cannot be read, later lines change nothing.
proof fn read_error_stays(lines: Seq<Seq<char>>, n: nat, m: nat)
    requires
        n <= m,
        read_lines(lines, n) is Err,
    ensures
        read_lines(lines, m) == read_lines(lines, n),
    decreases m - n,
{
    if n < m {
        read_error_stays(lines, n, (m - 1) as nat);
    }
}

} // verus!
