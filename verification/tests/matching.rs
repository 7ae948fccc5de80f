use cuesplit::matching::{
    combine_matches, find_best_hamming_match, find_best_levenshtein_match, find_sole_minimum,
    hamming_distance, similarity_score, size_of_longest, size_of_shortest,
};
use cuesplit::parser::parse_cue_file;
use cuesplit::resolver::{
    ask_user_for_fix, audio_playtime_matches, confidence, default_action, find_best_match,
    fix_cue_sheet_audio_file_reference, is_accepted, let_user_verify_cue_files, Candidate, Confidence, FixAction, MatchError,
    MenuEffect, MenuNext, MenuStep, UserDefaultAction,
};
use cuesplit::timing::CueDuration;

fn files(names: &[&str]) -> Vec<String> {
    names.iter().map(|n| n.to_string()).collect()
}

fn pick(name: &str, score: usize) -> Option<(String, usize)> {
    Some((name.to_string(), score))
}

#[test]
fn hamming_counts_mismatches_over_the_shorter() {
    assert_eq!(hamming_distance(b"abcde", b"abcdX"), 1);
    assert_eq!(hamming_distance(b"abcde", b"abcde"), 0);
    assert_eq!(hamming_distance(b"abc", b"xbcdefg"), 1);
    assert_eq!(hamming_distance(b"", b"abc"), 0);
    assert_eq!(hamming_distance(b"abc", b"xyz"), 3);
}

#[test]
fn hamming_score_for_one_mismatch_in_five_is_80() {
    assert_eq!(
        find_best_hamming_match("abcde.flac", &files(&["abcdX.flac"])),
        pick("abcdX.flac", 80)
    );
    assert_eq!(
        find_best_hamming_match("abcde.flac", &files(&["/some/dir/abcdX.wav"])),
        pick("/some/dir/abcdX.wav", 80)
    );
    assert_eq!(similarity_score(1, 5), 80);
}

#[test]
fn similarity_score_rounds_the_share_down() {
    assert_eq!(similarity_score(0, 7), 100);
    assert_eq!(similarity_score(7, 7), 0);
    assert_eq!(similarity_score(1, 7), 86);
    assert_eq!(similarity_score(3, 7), 58);
    assert_eq!(similarity_score(2, 3), 34);
    assert_eq!(similarity_score(usize::MAX, usize::MAX), 0);
    assert_eq!(similarity_score(usize::MAX - 1, usize::MAX), 1);
}

#[test]
fn sizes_are_in_bytes() {
    assert_eq!(size_of_longest("abc", "de"), 3);
    assert_eq!(size_of_longest("ab", "cde"), 3);
    assert_eq!(size_of_shortest("abc", "de"), 2);
    assert_eq!(size_of_shortest("", "de"), 0);
    assert_eq!(size_of_longest("é", "a"), 2);
    assert_eq!(size_of_shortest("é", "ab"), 2);
}

#[test]
fn sole_minimum_needs_one_place_alone() {
    assert_eq!(find_sole_minimum(&vec![]), None);
    assert_eq!(find_sole_minimum(&vec![5]), Some(0));
    assert_eq!(find_sole_minimum(&vec![5, 3, 4]), Some(1));
    assert_eq!(find_sole_minimum(&vec![3, 5, 3]), None);
    assert_eq!(find_sole_minimum(&vec![4, 4]), None);
    assert_eq!(find_sole_minimum(&vec![4, 4, 1]), Some(2));
    assert_eq!(find_sole_minimum(&vec![1, 4, 4]), Some(0));
    assert_eq!(find_sole_minimum(&vec![2, 1, 1, 0, 0]), None);
}

#[test]
fn levenshtein_takes_the_one_nearest_file() {
    assert_eq!(
        find_best_levenshtein_match(
            "Track01.flac",
            &files(&["Track01.flac", "track01.flac", "Track_01.flac"])
        ),
        pick("Track01.flac", 100)
    );
}

#[test]
fn levenshtein_abstains_when_two_files_share_the_least_distance() {
    assert_eq!(
        find_best_levenshtein_match("Track01.flac", &files(&["track01.flac", "Track_01.flac"])),
        None
    );
    assert_eq!(
        find_best_levenshtein_match(
            "Track01.flac",
            &files(&["track01.flac", "completely different.flac", "Track_01.flac"])
        ),
        None
    );
    assert_eq!(find_best_levenshtein_match("Track01.flac", &files(&[])), None);
}

#[test]
fn levenshtein_score_uses_the_edit_distance() {
    assert_eq!(
        find_best_levenshtein_match("kitten.flac", &files(&["sitting.flac"])),
        pick("sitting.flac", 58)
    );
    assert_eq!(
        find_best_levenshtein_match("abc.flac", &files(&["d/xyzw.flac", "d/abd.wav"])),
        pick("d/abd.wav", 67)
    );
}

#[test]
fn hamming_abstains_on_a_tie_and_on_empty_names() {
    assert_eq!(
        find_best_hamming_match("Track01.flac", &files(&["Xrack01.flac", "Yrack01.flac"])),
        None
    );
    assert_eq!(find_best_hamming_match("Track01.flac", &files(&[".hidden"])), None);
    assert_eq!(find_best_hamming_match(".flac", &files(&["a.flac"])), None);
    assert_eq!(find_best_hamming_match("a.flac", &files(&[])), None);
    assert_eq!(
        find_best_hamming_match("Track01.flac", &files(&["track01.flac", "Track_01.flac"])),
        pick("track01.flac", 86)
    );
}

#[test]
fn measures_are_combined_in_favour_of_levenshtein() {
    assert_eq!(combine_matches(pick("a", 50), pick("a", 90)), pick("a", 50));
    assert_eq!(combine_matches(pick("a", 91), pick("b", 90)), pick("a", 91));
    assert_eq!(combine_matches(pick("a", 90), pick("b", 90)), pick("a", 90));
    assert_eq!(combine_matches(pick("a", 89), pick("b", 90)), pick("b", 90));
    assert_eq!(combine_matches(pick("a", 10), None), pick("a", 10));
    assert_eq!(combine_matches(None, pick("b", 10)), pick("b", 10));
    assert_eq!(combine_matches(None, None), None);
}

#[test]
fn playtime_must_reach_the_last_track() {
    let start = CueDuration::new(7, 10, 30);
    assert!(audio_playtime_matches(Some(430), &start));
    assert!(audio_playtime_matches(Some(431), &start));
    assert!(!audio_playtime_matches(Some(429), &start));
    assert!(!audio_playtime_matches(None, &start));
    assert!(audio_playtime_matches(Some(0), &CueDuration::new(0, 0, 74)));
    assert!(!audio_playtime_matches(Some(u32::MAX), &CueDuration::new(u32::MAX, 0, 0)));
}

fn candidate(path: &str, playtime: Option<u32>) -> Candidate {
    Candidate { path: path.to_string(), playtime }
}

#[test]
fn a_file_that_is_too_short_is_never_offered() {
    let sheet = parse_cue_file(
        "/m/a.cue",
        "FILE \"Album.flac\" WAVE\nTRACK 1 AUDIO\nINDEX 01 00:00:00\nTRACK 2 AUDIO\nINDEX 01 10:00:00\n",
    )
    .unwrap();
    let found = find_best_match(
        &sheet,
        &vec![
            candidate("/m/Album.flac", Some(599)),
            candidate("/m/album.flac", Some(600)),
            candidate("/m/Album.flac.bak", None),
        ],
        "Album.flac",
    );
    assert_eq!(found, Ok(pick("/m/album.flac", 80)));
    let found = find_best_match(
        &sheet,
        &vec![candidate("/m/Album.flac", Some(599)), candidate("/m/cover.jpg", None)],
        "Album.flac",
    );
    assert_eq!(found, Err(MatchError::NoCandidates));
    assert_eq!(find_best_match(&sheet, &vec![], "Album.flac"), Err(MatchError::NoCandidates));
}

#[test]
fn no_match_without_a_last_start() {
    let empty = parse_cue_file("/m/a.cue", "FILE \"Album.flac\" WAVE\n").unwrap();
    let open = parse_cue_file("/m/a.cue", "TRACK 1 AUDIO\nINDEX 01 00:00:00\nTRACK 2 AUDIO\n").unwrap();
    let all = vec![candidate("/m/album.flac", Some(600))];
    assert_eq!(find_best_match(&empty, &all, "Album.flac"), Err(MatchError::NoTracks));
    assert_eq!(find_best_match(&open, &all, "Album.flac"), Err(MatchError::NoStartTime));
}

#[test]
fn undecided_measures_offer_nothing() {
    let sheet = parse_cue_file("/m/a.cue", "TRACK 1 AUDIO\nINDEX 01 00:00:00\n").unwrap();
    let found = find_best_match(
        &sheet,
        &vec![candidate("/m/Xlbum.flac", Some(10)), candidate("/m/Ylbum.flac", Some(10))],
        "Album.flac",
    );
    assert_eq!(found, Ok(None));
}

#[test]
fn confidence_tiers() {
    assert_eq!(confidence(100), Confidence::High);
    assert_eq!(confidence(86), Confidence::High);
    assert_eq!(confidence(85), Confidence::Uncertain);
    assert_eq!(confidence(71), Confidence::Uncertain);
    assert_eq!(confidence(70), Confidence::Low);
    assert_eq!(confidence(0), Confidence::Low);
    assert_eq!(default_action(86), UserDefaultAction::Yes);
    assert_eq!(default_action(71), UserDefaultAction::Yes);
    assert_eq!(default_action(70), UserDefaultAction::No);
}

#[test]
fn explicit_answers_override_the_default() {
    assert!(is_accepted(0, "y\n"));
    assert!(is_accepted(0, " Y "));
    assert!(!is_accepted(100, "n\n"));
    assert!(!is_accepted(100, "N"));
    assert!(is_accepted(71, "\n"));
    assert!(is_accepted(71, "maybe"));
    assert!(!is_accepted(70, "\n"));
    assert!(!is_accepted(70, "yes"));
}

#[test]
fn accepted_offer_replaces_the_audio_path() {
    let mut sheet = parse_cue_file("/m/a.cue", "FILE \"Album.flac\" WAVE\nTRACK 1 AUDIO\n").unwrap();
    assert_eq!(fix_cue_sheet_audio_file_reference(&mut sheet, &None, "y"), None);
    assert_eq!(sheet.audio_file_path, "/m/Album.flac");
    assert_eq!(
        fix_cue_sheet_audio_file_reference(&mut sheet, &pick("/m/album.flac", 90), "n"),
        None
    );
    assert_eq!(sheet.audio_file_path, "/m/Album.flac");
    assert_eq!(
        fix_cue_sheet_audio_file_reference(&mut sheet, &pick("/m/album.flac", 90), ""),
        Some(FixAction::Unchanged)
    );
    assert_eq!(sheet.audio_file_path, "/m/album.flac");
    assert_eq!(sheet.audio_file_name, "Album.flac");
    assert_eq!(sheet.cue_file_path, "/m/a.cue");
    assert_eq!(sheet.tracks.len(), 1);
}

#[test]
fn repair_menu_answers() {
    let again = |effect| MenuStep { effect, next: MenuNext::AskAgain };
    assert_eq!(ask_user_for_fix("e\n"), again(MenuEffect::OpenEditor));
    assert_eq!(ask_user_for_fix("v\n"), again(MenuEffect::OpenViewer));
    assert_eq!(ask_user_for_fix(" l "), again(MenuEffect::ListFiles));
    assert_eq!(ask_user_for_fix("x"), again(MenuEffect::ReportInvalid));
    assert_eq!(ask_user_for_fix(""), again(MenuEffect::ReportInvalid));
    assert_eq!(ask_user_for_fix("E"), again(MenuEffect::ReportInvalid));
    assert_eq!(
        ask_user_for_fix("d\n"),
        MenuStep { effect: MenuEffect::DeleteCueFile, next: MenuNext::Done(FixAction::Deleted) }
    );
    assert_eq!(
        ask_user_for_fix("r\n"),
        MenuStep { effect: MenuEffect::Nothing, next: MenuNext::Done(FixAction::Modified) }
    );
    assert_eq!(ask_user_for_fix("q\n"), MenuStep { effect: MenuEffect::Nothing, next: MenuNext::Quit });
}

#[test]
fn the_start_is_confirmed_by_nothing_or_y() {
    assert!(let_user_verify_cue_files("\n"));
    assert!(let_user_verify_cue_files(""));
    assert!(let_user_verify_cue_files(" y \n"));
    assert!(let_user_verify_cue_files("Y"));
    assert!(!let_user_verify_cue_files("n"));
    assert!(!let_user_verify_cue_files("yes"));
}
