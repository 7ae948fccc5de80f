//! Splitting all tracks of all sheets: the list of the work to do, and what
//! becomes of one track as its steps succeed or fail. A failure ends the
//! work on its own track and on no other.

use crate::sheet::{copy_text, CueSheet, Track};
use vstd::prelude::*;

verus! {

/// The tracks of the first `n` sheets, each as the place of its sheet and
/// its own place in that sheet, sheet after sheet and track after track.
pub open spec fn units_of(track_counts: Seq<nat>, n: nat) -> Seq<(int, int)>
    decreases n,
{
    if n == 0 {
        Seq::<(int, int)>::empty()
    } else {
        units_of(track_counts, (n - 1) as nat) + Seq::new(
            track_counts[n - 1],
            |j: int| (n - 1, j),
        )
    }
}

/// How many tracks each sheet has.
pub open spec fn track_counts(sheets: Seq<CueSheet>) -> Seq<nat> {
    Seq::new(sheets.len(), |i: int| sheets[i].tracks.len() as nat)
}

/// The places of a list of units as mathematical numbers.
pub open spec fn places(units: Seq<(usize, usize)>) -> Seq<(int, int)> {
    Seq::new(units.len(), |k: int| (units[k].0 as int, units[k].1 as int))
}

/// Every unit names a sheet and a track of that sheet.
pub proof fn units_are_tracks(counts: Seq<nat>, n: nat, k: int)
    requires
        n <= counts.len(),
        0 <= k < units_of(counts, n).len(),
    ensures
        0 <= units_of(counts, n)[k].0 < n,
        0 <= units_of(counts, n)[k].1 < counts[units_of(counts, n)[k].0],
    decreases n,
{
    if n > 0 {
        let before = units_of(counts, (n - 1) as nat);
        if k < before.len() {
            units_are_tracks(counts, (n - 1) as nat, k);
        }
    }
}

/// Every track of every sheet is a unit.
pub proof fn tracks_are_units(counts: Seq<nat>, n: nat, i: int, j: int)
    requires
        n <= counts.len(),
        0 <= i < n,
        0 <= j < counts[i],
    ensures
        units_of(counts, n).contains((i, j)),
    decreases n,
{
    let before = units_of(counts, (n - 1) as nat);
    let last = Seq::new(counts[n - 1], |j: int| (n - 1, j));
    if i < n - 1 {
        tracks_are_units(counts, (n - 1) as nat, i, j);
        let k = choose|k: int| 0 <= k < before.len() && before[k] == (i, j);
        assert(units_of(counts, n)[k] == (i, j));
    } else {
        assert(units_of(counts, n)[before.len() + j] == (i, j));
    }
}

/// The work to do for the sheets: one unit for each track.
pub fn flatten_units(cue_sheets: &Vec<CueSheet>) -> (out: Vec<(usize, usize)>)
    ensures
        places(out@) == units_of(track_counts(cue_sheets@), cue_sheets.len() as nat),
{
    let ghost counts = track_counts(cue_sheets@);
    let mut out: Vec<(usize, usize)> = Vec::new();
    let mut i: usize = 0;
    while i < cue_sheets.len()
        invariant
            i <= cue_sheets.len(),
            counts == track_counts(cue_sheets@),
            places(out@) == units_of(counts, i as nat),
        decreases cue_sheets.len() - i,
    {
        let ghost before = places(out@);
        let n = cue_sheets[i].tracks.len();
        let mut j: usize = 0;
        while j < n
            invariant
                j <= n == cue_sheets[i as int].tracks.len(),
                i < cue_sheets.len(),
                places(out@) == before + Seq::new(j as nat, |t: int| (i as int, t)),
            decreases n - j,
        {
            let ghost so_far = places(out@);
            out.push((i, j));
            assert(so_far.push((i as int, j as int)) =~= before + Seq::new(
                (j + 1) as nat,
                |t: int| (i as int, t),
            ));
            j += 1;
        }
        i += 1;
    }
    out
}

/// What is next for a track that is being split.
#[derive(Debug, Clone, Copy, PartialEq, Eq, Structural)]
pub enum SplitStep {
    /// Make the output directory and run the split command.
    RunCommand,
    /// Write the tags into the file that the command made.
    WriteTags,
    /// Nothing more.
    Finished,
}

/// Where the work on one track stands.
#[derive(Debug)]
pub struct UnitProgress {
    pub step: SplitStep,
    /// What went wrong, if anything has.
    pub failure: Option<String>,
}

/// Where the work on one track stands, as mathematical values.
pub struct UnitProgressView {
    pub step: SplitStep,
    pub failure: Option<Seq<char>>,
}

impl View for UnitProgress {
    type V = UnitProgressView;

    open spec fn view(&self) -> UnitProgressView {
        UnitProgressView {
            step: self.step,
            failure: match self.failure {
                Some(m) => Some(m@),
                None => None,
            },
        }
    }
}

/// Where a track stands once the step that was next has been taken: after
/// a command that succeeded the tags are next; after tags that were
/// written the track is finished; a step that failed finishes the track
/// with its message. A finished track stays as it is.
pub open spec fn after_step(p: UnitProgressView, succeeded: bool, message: Seq<char>) -> UnitProgressView {
    match p.step {
        SplitStep::Finished => p,
        SplitStep::RunCommand => if succeeded {
            UnitProgressView { step: SplitStep::WriteTags, failure: None }
        } else {
            UnitProgressView { step: SplitStep::Finished, failure: Some(message) }
        },
        SplitStep::WriteTags => if succeeded {
            UnitProgressView { step: SplitStep::Finished, failure: None }
        } else {
            UnitProgressView { step: SplitStep::Finished, failure: Some(message) }
        },
    }
}

/// A track that is finished stays as it is whatever is reported of it, and
/// a track with a failure is always a finished one: after a failure no
/// further step is taken on the track.
pub proof fn failure_ends_the_track(p: UnitProgressView, succeeded: bool, message: Seq<char>)
    requires
        p.failure is Some ==> p.step == SplitStep::Finished,
    ensures
        p.step == SplitStep::Finished ==> after_step(p, succeeded, message) == p,
        after_step(p, succeeded, message).failure is Some ==> after_step(
            p,
            succeeded,
            message,
        ).step == SplitStep::Finished,
        !succeeded ==> after_step(p, succeeded, message).step == SplitStep::Finished,
{
}

impl UnitProgress {
    /// A track on which no step has been taken.
    pub fn start() -> (out: UnitProgress)
        ensures
            out@ == (UnitProgressView { step: SplitStep::RunCommand, failure: None }),
    {
        UnitProgress { step: SplitStep::RunCommand, failure: None }
    }
}

/// Takes the outcome of the step that was next into the track's progress.
pub fn split_track(progress: UnitProgress, succeeded: bool, message: String) -> (out: UnitProgress)
    ensures
        out@ == after_step(progress@, succeeded, message@),
{
    match progress.step {
        SplitStep::Finished => progress,
        SplitStep::RunCommand => {
            if succeeded {
                UnitProgress { step: SplitStep::WriteTags, failure: None }
            } else {
                UnitProgress { step: SplitStep::Finished, failure: Some(message) }
            }
        },
        SplitStep::WriteTags => {
            if succeeded {
                UnitProgress { step: SplitStep::Finished, failure: None }
            } else {
                UnitProgress { step: SplitStep::Finished, failure: Some(message) }
            }
        },
    }
}

/// Adds a finished track to the list of failures if it failed: the list
/// grows by that track and its message, or stays as it is.
pub fn record_outcome(failures: &mut Vec<(Track, String)>, track: &Track, progress: &UnitProgress)
    ensures
        match progress.failure {
            Some(message) => {
                &&& final(failures)@.len() == old(failures)@.len() + 1
                &&& final(failures)@.drop_last() == old(failures)@
                &&& final(failures)@.last().0 == *track
                &&& final(failures)@.last().1@ == message@
            },
            None => final(failures)@ == old(failures)@,
        },
{
    match &progress.failure {
        Some(message) => {
            failures.push((track.duplicate(), message.clone()));
        },
        None => {},
    }
}

/// The tags that a track's file gets.
#[derive(Debug)]
pub struct TrackTags {
    pub track: u32,
    pub album: Option<String>,
    pub title: Option<String>,
    pub artist: Option<String>,
}

/// The tags for a track's file: the track's number, the sheet's title as
/// the album, and the track's own title and artist, each where it is known.
pub fn write_audio_metadata_to_track(cue_sheet: &CueSheet, track: &Track) -> (out: TrackTags)
    ensures
        out.track == track.number,
        out.album == cue_sheet.title,
        out.title == track.title,
        out.artist == track.artist,
{
    TrackTags {
        track: track.number,
        album: copy_text(&cue_sheet.title),
        title: copy_text(&track.title),
        artist: copy_text(&track.artist),
    }
}

} // verus!
