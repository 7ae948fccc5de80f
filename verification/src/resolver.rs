//! Repairing a sheet whose audio file is not where the sheet says: which
//! files of the directory may be offered, which one is, what the user's
//! answer means, and what the repair menu does.

use crate::matching::{
    combine_matches, combined, find_best_hamming_match, find_best_levenshtein_match,
    hamming_distances, hamming_pick, levenshtein_distances, levenshtein_pick, pick_view,
    sole_minimum, texts,
};
use crate::sheet::{CueSheet, CueSheetView};
use crate::text::{chars_of, is_word, trim, trim_chars};
use crate::timing::CueDuration;
use crate::validate::ValidationError;
use vstd::prelude::*;

verus! {

/// A file of the cue sheet's directory, with the playing time that the
/// audio tool found for it, in whole seconds, if it found one.
#[derive(Debug, Clone)]
pub struct Candidate {
    pub path: String,
    pub playtime: Option<u32>,
}

/// Why no file can be looked for.
#[derive(Debug, Clone, Copy, PartialEq, Eq, Structural)]
pub enum MatchError {
    /// The sheet has no track, so no playing time to hold files against.
    NoTracks,
    /// The sheet's last track has no start time.
    NoStartTime,
    /// No file of the directory plays long enough to be the audio file.
    NoCandidates,
}

/// What a repair has done to the cue sheet.
#[derive(Debug, Clone, Copy, PartialEq, Eq, Structural)]
pub enum FixAction {
    /// The cue file was changed: it is to be checked again.
    Modified,
    /// The cue file was deleted: the sheet is dropped.
    Deleted,
    /// Nothing was changed on disk.
    Unchanged,
}

/// What is assumed of a user who answers neither yes nor no.
#[derive(Debug, Clone, Copy, PartialEq, Eq, Structural)]
pub enum UserDefaultAction {
    Yes,
    No,
}

/// How far a score is trusted.
#[derive(Debug, Clone, Copy, PartialEq, Eq, Structural)]
pub enum Confidence {
    /// Above 85: accepted by default.
    High,
    /// Above 70, up to 85: accepted by default, shown as uncertain.
    Uncertain,
    /// Up to 70: rejected by default.
    Low,
}

/// Whether a file plays at least up to the start of the last track: a
/// file with a known playing time of no fewer whole seconds.
pub open spec fn long_enough(playtime: Option<u32>, last_start: CueDuration) -> bool {
    playtime matches Some(t) && t >= last_start.whole_seconds()
}

/// Whether a file with this playing time may be the sheet's audio file:
/// see [`long_enough`].
pub fn audio_playtime_matches(playtime: Option<u32>, last_track_start: &CueDuration) -> (out: bool)
    ensures
        out == long_enough(playtime, *last_track_start),
{
    match playtime {
        Some(t) => t as u64 >= last_track_start.total_seconds(),
        None => false,
    }
}

/// The paths of those of the first `n` files that play long enough, in
/// their order.
pub open spec fn consistent_paths(files: Seq<Candidate>, last_start: CueDuration, n: nat) -> Seq<
    Seq<char>,
>
    decreases n,
{
    if n == 0 {
        Seq::<Seq<char>>::empty()
    } else {
        let before = consistent_paths(files, last_start, (n - 1) as nat);
        if long_enough(files[n - 1].playtime, last_start) {
            before.push(files[n - 1].path@)
        } else {
            before
        }
    }
}

/// The file to offer for a sheet's missing audio file, with its score:
/// what the two measures say together of the files that play long enough.
pub open spec fn best_match(sheet: CueSheetView, files: Seq<Candidate>, broken: Seq<char>) -> Result<
    Option<(Seq<char>, nat)>,
    MatchError,
> {
    if sheet.tracks.len() == 0 {
        Err(MatchError::NoTracks)
    } else {
        match sheet.tracks.last().start_time {
            None => Err(MatchError::NoStartTime),
            Some(last_start) => {
                let paths = consistent_paths(files, last_start, files.len());
                if paths.len() == 0 {
                    Err(MatchError::NoCandidates)
                } else {
                    Ok(combined(levenshtein_pick(broken, paths), hamming_pick(broken, paths)))
                }
            },
        }
    }
}

/// Looks among the files of the cue sheet's directory for the one that the
/// sheet means by `broken_file_name`.
pub fn find_best_match(cue_sheet: &CueSheet, files: &Vec<Candidate>, broken_file_name: &str) -> (out:
    Result<Option<(String, usize)>, MatchError>)
    ensures
        match out {
            Ok(pick) => best_match(cue_sheet@, files@, broken_file_name@) == Ok::<
                Option<(Seq<char>, nat)>,
                MatchError,
            >(pick_view(pick)),
            Err(e) => best_match(cue_sheet@, files@, broken_file_name@) == Err::<
                Option<(Seq<char>, nat)>,
                MatchError,
            >(e),
        },
{
    let n = cue_sheet.tracks.len();
    if n == 0 {
        return Err(MatchError::NoTracks);
    }
    let last_start = match cue_sheet.tracks[n - 1].start_time {
        Some(start) => start,
        None => {
            return Err(MatchError::NoStartTime);
        },
    };
    let mut paths: Vec<String> = Vec::new();
    let mut k: usize = 0;
    while k < files.len()
        invariant
            k <= files.len(),
            texts(paths@) == consistent_paths(files@, last_start, k as nat),
        decreases files.len() - k,
    {
        if audio_playtime_matches(files[k].playtime, &last_start) {
            let ghost before = texts(paths@);
            paths.push(files[k].path.clone());
        }
        k += 1;
    }
    if paths.len() == 0 {
        return Err(MatchError::NoCandidates);
    }
    let levenshtein = find_best_levenshtein_match(broken_file_name, &paths);
    let hamming = find_best_hamming_match(broken_file_name, &paths);
    Ok(combine_matches(levenshtein, hamming))
}

proof fn consistent_path_origin(files: Seq<Candidate>, last_start: CueDuration, n: nat, i: int)
    requires
        n <= files.len(),
        0 <= i < consistent_paths(files, last_start, n).len(),
    ensures
        exists|k: int|
            0 <= k < n && (#[trigger] files[k]).path@ == consistent_paths(files, last_start, n)[i]
                && long_enough(files[k].playtime, last_start),
    decreases n,
{
    if n > 0 {
        let before = consistent_paths(files, last_start, (n - 1) as nat);
        if i < before.len() {
            consistent_path_origin(files, last_start, (n - 1) as nat, i);
        } else {
        }
    }
}

proof fn sole_minimum_in_range(d: Seq<nat>)
    ensures
        sole_minimum(d) matches Some(i) ==> 0 <= i < d.len(),
{
}

/// The path of the file that is offered, where one is.
pub open spec fn offered_path(found: Result<Option<(Seq<char>, nat)>, MatchError>) -> Seq<char> {
    match found {
        Ok(Some(pick)) => pick.0,
        _ => Seq::<char>::empty(),
    }
}

/// A file that is offered for the missing audio file is one of the
/// directory's files, and plays at least up to the start of the last track:
/// a file that is shorter, or whose playing time is unknown, is never
/// offered.
pub proof fn offered_file_plays_long_enough(
    sheet: CueSheetView,
    files: Seq<Candidate>,
    broken: Seq<char>,
)
    requires
        best_match(sheet, files, broken) matches Ok(Some(_)),
    ensures
        sheet.tracks.len() > 0,
        sheet.tracks.last().start_time is Some,
        exists|k: int|
            0 <= k < files.len() && (#[trigger] files[k]).path@ == offered_path(
                best_match(sheet, files, broken),
            ) && long_enough(files[k].playtime, sheet.tracks.last().start_time->0),
{
    let last_start = sheet.tracks.last().start_time->0;
    let paths = consistent_paths(files, last_start, files.len());
    let offered = offered_path(best_match(sheet, files, broken));
    sole_minimum_in_range(levenshtein_distances(broken, paths));
    sole_minimum_in_range(hamming_distances(broken, paths));
    let l = levenshtein_pick(broken, paths);
    let h = hamming_pick(broken, paths);
    let i = if l is Some && offered == offered_path(Ok(l)) {
        sole_minimum(levenshtein_distances(broken, paths))->0
    } else {
        sole_minimum(hamming_distances(broken, paths))->0
    };
    consistent_path_origin(files, last_start, files.len(), i);
}

/// How far a score is trusted.
pub fn confidence(score: usize) -> (out: Confidence)
    ensures
        out == if score > 85 {
            Confidence::High
        } else if score > 70 {
            Confidence::Uncertain
        } else {
            Confidence::Low
        },
{
    if score > 85 {
        Confidence::High
    } else if score > 70 {
        Confidence::Uncertain
    } else {
        Confidence::Low
    }
}

/// What is assumed of the user for a score: yes above 70, else no.
pub fn default_action(score: usize) -> (out: UserDefaultAction)
    ensures
        out == if score > 70 {
            UserDefaultAction::Yes
        } else {
            UserDefaultAction::No
        },
{
    match confidence(score) {
        Confidence::High => UserDefaultAction::Yes,
        Confidence::Uncertain => UserDefaultAction::Yes,
        Confidence::Low => UserDefaultAction::No,
    }
}

/// Whether an answer accepts the offered file: `y` or `Y` accepts, `n` or
/// `N` rejects, white space around it aside; any other answer leaves it to
/// the score, which accepts above 70.
pub open spec fn accepts(score: nat, answer: Seq<char>) -> bool {
    let a = trim(answer);
    if a == "y"@ || a == "Y"@ {
        true
    } else if a == "n"@ || a == "N"@ {
        false
    } else {
        score > 70
    }
}

/// Whether the user's answer accepts the offered file: see [`accepts`].
pub fn is_accepted(score: usize, answer: &str) -> (out: bool)
    ensures
        out == accepts(score as nat, answer@),
{
    let a = trim_chars(&chars_of(answer));
    if is_word(&a, "y") || is_word(&a, "Y") {
        true
    } else if is_word(&a, "n") || is_word(&a, "N") {
        false
    } else {
        default_action(score) == UserDefaultAction::Yes
    }
}

/// Whether an answer lets the splitting of the cue files found begin: an
/// empty answer, or `y` in either case, white space around it aside.
pub open spec fn confirms(answer: Seq<char>) -> bool {
    let a = trim(answer);
    a.len() == 0 || a == "y"@ || a == "Y"@
}

/// Whether the user, shown the cue files found, lets the splitting begin.
pub fn let_user_verify_cue_files(answer: &str) -> (out: bool)
    ensures
        out == confirms(answer@),
{
    let a = trim_chars(&chars_of(answer));
    a.len() == 0 || is_word(&a, "y") || is_word(&a, "Y")
}

/// Takes the offered file as the sheet's audio file if the answer accepts
/// it: the repair then ends with nothing changed on disk. Where no file is
/// offered, or the answer rejects the offer, the sheet is left as it is
/// and the repair has not ended: the repair menu is next.
pub fn fix_cue_sheet_audio_file_reference(
    cue_sheet: &mut CueSheet,
    offer: &Option<(String, usize)>,
    answer: &str,
) -> (out: Option<FixAction>)
    ensures
        match *offer {
            Some((path, score)) if accepts(score as nat, answer@) => {
                &&& out == Some(FixAction::Unchanged)
                &&& final(cue_sheet)@ == (CueSheetView {
                    audio_file_path: path@,
                    ..old(cue_sheet)@
                })
            },
            _ => out is None && *final(cue_sheet) == *old(cue_sheet),
        },
{
    match offer {
        Some((path, score)) => {
            if is_accepted(*score, answer) {
                cue_sheet.audio_file_path = path.clone();
                Some(FixAction::Unchanged)
            } else {
                None
            }
        },
        None => None,
    }
}

/// What the repair menu does on an answer before it goes on.
#[derive(Debug, Clone, Copy, PartialEq, Eq, Structural)]
pub enum MenuEffect {
    /// Open the cue file in the user's editor.
    OpenEditor,
    /// Delete the cue file.
    DeleteCueFile,
    /// List the files of the audio file's directory.
    ListFiles,
    /// Show the cue file.
    OpenViewer,
    /// Say that the answer was not understood.
    ReportInvalid,
    /// Do nothing.
    Nothing,
}

/// How the repair menu goes on after an answer.
#[derive(Debug, Clone, Copy, PartialEq, Eq, Structural)]
pub enum MenuNext {
    /// Show the menu again.
    AskAgain,
    /// Leave the menu with this outcome.
    Done(FixAction),
    /// End the whole run.
    Quit,
}

/// What the repair menu does on one answer, and how it goes on.
#[derive(Debug, Clone, Copy, PartialEq, Eq, Structural)]
pub struct MenuStep {
    pub effect: MenuEffect,
    pub next: MenuNext,
}

/// What the repair menu does on an answer, white space around it aside:
/// `e` edits and asks again, `d` deletes the cue file and ends with
/// `Deleted`, `l` lists and asks again, `v` shows the file and asks again,
/// `r` ends with `Modified`, `q` quits; anything else is reported and the
/// menu asks again.
pub open spec fn menu_step(answer: Seq<char>) -> MenuStep {
    let a = trim(answer);
    if a == "e"@ {
        MenuStep { effect: MenuEffect::OpenEditor, next: MenuNext::AskAgain }
    } else if a == "d"@ {
        MenuStep { effect: MenuEffect::DeleteCueFile, next: MenuNext::Done(FixAction::Deleted) }
    } else if a == "v"@ {
        MenuStep { effect: MenuEffect::OpenViewer, next: MenuNext::AskAgain }
    } else if a == "l"@ {
        MenuStep { effect: MenuEffect::ListFiles, next: MenuNext::AskAgain }
    } else if a == "r"@ {
        MenuStep { effect: MenuEffect::Nothing, next: MenuNext::Done(FixAction::Modified) }
    } else if a == "q"@ {
        MenuStep { effect: MenuEffect::Nothing, next: MenuNext::Quit }
    } else {
        MenuStep { effect: MenuEffect::ReportInvalid, next: MenuNext::AskAgain }
    }
}

/// What the repair menu does on the user's answer: see [`menu_step`].
pub fn ask_user_for_fix(answer: &str) -> (out: MenuStep)
    ensures
        out == menu_step(answer@),
{
    let a = trim_chars(&chars_of(answer));
    if is_word(&a, "e") {
        MenuStep { effect: MenuEffect::OpenEditor, next: MenuNext::AskAgain }
    } else if is_word(&a, "d") {
        MenuStep { effect: MenuEffect::DeleteCueFile, next: MenuNext::Done(FixAction::Deleted) }
    } else if is_word(&a, "v") {
        MenuStep { effect: MenuEffect::OpenViewer, next: MenuNext::AskAgain }
    } else if is_word(&a, "l") {
        MenuStep { effect: MenuEffect::ListFiles, next: MenuNext::AskAgain }
    } else if is_word(&a, "r") {
        MenuStep { effect: MenuEffect::Nothing, next: MenuNext::Done(FixAction::Modified) }
    } else if is_word(&a, "q") {
        MenuStep { effect: MenuEffect::Nothing, next: MenuNext::Quit }
    } else {
        MenuStep { effect: MenuEffect::ReportInvalid, next: MenuNext::AskAgain }
    }
}

/// Where the checking of one sheet stands.
#[derive(Debug, Clone, Copy, PartialEq, Eq, Structural)]
pub enum Stage {
    /// The sheet is to be checked.
    Validating,
    /// The audio file is missing and a repair is under way.
    Repairing,
    /// The sheet passed the checks.
    Valid,
    /// The cue file was deleted: the sheet is dropped.
    Abandoned,
    /// The sheet failed a check that nothing repairs.
    Failed(ValidationError),
}

/// What has happened to a sheet that is being checked.
#[derive(Debug, Clone, Copy, PartialEq, Eq, Structural)]
pub enum Event {
    /// The checks were run and all passed.
    Passed,
    /// The checks were run and this one failed.
    Rejected(ValidationError),
    /// A repair ended, with this outcome.
    Repaired(FixAction),
}

/// The stage after an event. A sheet that is being checked becomes valid,
/// goes to repair when only the audio file is missing, or fails. A repair
/// that deleted the cue file abandons the sheet; any other sends it back
/// to the checks. Events that do not belong to the stage change nothing.
pub open spec fn next_stage(stage: Stage, event: Event) -> Stage {
    match (stage, event) {
        (Stage::Validating, Event::Passed) => Stage::Valid,
        (Stage::Validating, Event::Rejected(ValidationError::AudioFileMissing)) => {
            Stage::Repairing
        },
        (Stage::Validating, Event::Rejected(e)) => Stage::Failed(e),
        (Stage::Repairing, Event::Repaired(FixAction::Deleted)) => Stage::Abandoned,
        (Stage::Repairing, Event::Repaired(_)) => Stage::Validating,
        _ => stage,
    }
}

/// A sheet that is valid, abandoned or failed stays so: no event moves it.
pub proof fn settled_stages_stay(stage: Stage, event: Event)
    requires
        stage != Stage::Validating,
        stage != Stage::Repairing,
    ensures
        next_stage(stage, event) == stage,
{
}

/// A sheet never becomes valid but by passing the checks, and never fails
/// for a missing audio file: that alone sends it to repair.
pub proof fn only_checks_make_valid(stage: Stage, event: Event)
    ensures
        next_stage(stage, event) == Stage::Valid ==> stage == Stage::Valid || (stage
            == Stage::Validating && event == Event::Passed),
        stage == Stage::Validating ==> next_stage(stage, event) != Stage::Failed(
            ValidationError::AudioFileMissing,
        ),
{
}

/// The stage that follows an event: see [`next_stage`].
pub fn advance(stage: Stage, event: Event) -> (out: Stage)
    ensures
        out == next_stage(stage, event),
{
    match (stage, event) {
        (Stage::Validating, Event::Passed) => Stage::Valid,
        (Stage::Validating, Event::Rejected(ValidationError::AudioFileMissing)) => {
            Stage::Repairing
        },
        (Stage::Validating, Event::Rejected(e)) => Stage::Failed(e),
        (Stage::Repairing, Event::Repaired(FixAction::Deleted)) => Stage::Abandoned,
        (Stage::Repairing, Event::Repaired(_)) => Stage::Validating,
        _ => stage,
    }
}

} // verus!
