use cuesplit::disc::{derive_disk_number, find_best_delimiter, number_after_prefix};
use cuesplit::discovery::{find_cue_files, is_multi_disc};
use cuesplit::paths::{dir_chars, extension_chars, file_name_chars, join_chars, stem_chars};
use cuesplit::text::{chars_of, string_of};

fn files(names: &[&str]) -> Vec<String> {
    names.iter().map(|n| n.to_string()).collect()
}

#[test]
fn disc_number_from_the_file_name() {
    assert_eq!(derive_disk_number("MyAlbum CD2.cue"), 2);
    assert_eq!(derive_disk_number("MyAlbum_Disc_3.cue"), 3);
    assert_eq!(derive_disk_number("02 - MyAlbum.cue"), 2);
    assert_eq!(derive_disk_number("MyAlbumDisc.cue"), 1);
}

#[test]
fn disc_number_after_cd_or_disc_in_a_token() {
    assert_eq!(derive_disk_number("/music/Album-cd3-live.cue"), 3);
    assert_eq!(derive_disk_number("/music/Album_DISC12_live.cue"), 12);
    assert_eq!(derive_disk_number("Album - CD4 - 1999.cue"), 4);
    assert_eq!(derive_disk_number("7_disc2_cd5_x.cue"), 5);
    assert_eq!(derive_disk_number("7_disc2_x.cue"), 2);
}

#[test]
fn disc_number_falls_back_to_digits() {
    assert_eq!(derive_disk_number("007 album.x.cue"), 7);
    assert_eq!(derive_disk_number("a1b2 c3.x y.cue"), 123);
    assert_eq!(derive_disk_number("album"), 1);
    assert_eq!(derive_disk_number(""), 1);
    assert_eq!(derive_disk_number("dir.with.dots/plain"), 1);
    assert_eq!(derive_disk_number("000.cue"), 0);
    assert_eq!(derive_disk_number("x 99999999999999999999999999.cue"), 1);
}

#[test]
fn the_most_frequent_delimiter_wins_and_ties_go_by_rank() {
    assert_eq!(find_best_delimiter("a-b_c d.e"), "-");
    assert_eq!(find_best_delimiter("a_b c.d"), "_");
    assert_eq!(find_best_delimiter("a b.c"), " ");
    assert_eq!(find_best_delimiter("a.b"), ".");
    assert_eq!(find_best_delimiter("ab"), "");
    assert_eq!(find_best_delimiter("a-b c d.e"), " ");
    assert_eq!(find_best_delimiter("a.b.c-d"), ".");
    assert_eq!(find_best_delimiter("a_b_c-d-e f"), "-");
}

#[test]
fn number_after_prefix_wants_prefix_then_number() {
    assert_eq!(number_after_prefix(&chars_of("cd12"), "cd"), Some(12));
    assert_eq!(number_after_prefix(&chars_of("cd"), "cd"), None);
    assert_eq!(number_after_prefix(&chars_of("cd1a"), "cd"), None);
    assert_eq!(number_after_prefix(&chars_of("c"), "cd"), None);
    assert_eq!(number_after_prefix(&chars_of("xcd1"), "cd"), None);
    assert_eq!(number_after_prefix(&chars_of("disc+3"), "disc"), Some(3));
    assert_eq!(number_after_prefix(&chars_of("17"), ""), Some(17));
}

#[test]
fn cue_files_are_found_by_extension() {
    let found = find_cue_files(&files(&[
        "/m/a.cue",
        "/m/a.flac",
        "/m/B.CUE",
        "/m/c.Cue",
        "/m/.cue",
        "/m/cue",
        "/m/d.cue.bak",
        "/m/e.cues",
        "/m.cue/f",
        "g.x.cue",
    ]));
    assert_eq!(found, files(&["/m/a.cue", "/m/B.CUE", "/m/c.Cue", "g.x.cue"]));
    assert_eq!(find_cue_files(&files(&[])), files(&[]));
}

#[test]
fn several_cue_files_make_a_multi_disc_release() {
    assert!(!is_multi_disc(&files(&[])));
    assert!(!is_multi_disc(&files(&["/m/a.cue", "/m/a.flac", "/m/cover.jpg"])));
    assert!(is_multi_disc(&files(&["/m/a.cue", "/m/a.flac", "/m/b.CUE"])));
}

#[test]
fn paths_are_taken_apart_at_the_last_slash() {
    let chars = |s: &str| chars_of(s);
    let text = |v: Vec<char>| string_of(&v);
    assert_eq!(text(file_name_chars(&chars("/a/b/c.flac"))), "c.flac");
    assert_eq!(text(file_name_chars(&chars("c.flac"))), "c.flac");
    assert_eq!(text(dir_chars(&chars("/a/b/c.flac"))), "/a/b");
    assert_eq!(text(dir_chars(&chars("/c.flac"))), "/");
    assert_eq!(text(dir_chars(&chars("c.flac"))), "");
    assert_eq!(text(join_chars(&chars("/a/b"), &chars("c"))), "/a/b/c");
    assert_eq!(text(join_chars(&chars("/"), &chars("c"))), "/c");
    assert_eq!(text(join_chars(&chars(""), &chars("c"))), "c");
    assert_eq!(text(join_chars(&chars("/a"), &chars("/c"))), "/c");
    assert_eq!(text(stem_chars(&chars("a.b.c"))), "a");
    assert_eq!(text(stem_chars(&chars("abc"))), "abc");
    assert_eq!(text(extension_chars(&chars("a.b.c"))), "c");
    assert_eq!(text(extension_chars(&chars("abc"))), "abc");
}
