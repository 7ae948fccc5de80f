//! Which of the files found on disk are cue sheets, and whether a cue
//! sheet is one disc of several.

use crate::matching::texts;
use crate::paths::{has_cue_extension, is_cue_path};
use crate::text::chars_of;
use vstd::prelude::*;

verus! {

/// Those of the first `n` paths that name a cue sheet, in their order.
pub open spec fn cue_paths(paths: Seq<Seq<char>>, n: nat) -> Seq<Seq<char>>
    decreases n,
{
    if n == 0 {
        Seq::<Seq<char>>::empty()
    } else {
        let before = cue_paths(paths, (n - 1) as nat);
        if is_cue_path(paths[n - 1]) {
            before.push(paths[n - 1])
        } else {
            before
        }
    }
}

/// Of the files found under a path that the user gave, those that are cue
/// sheets, in the order in which they were found.
pub fn find_cue_files(files: &Vec<String>) -> (out: Vec<String>)
    ensures
        texts(out@) == cue_paths(texts(files@), files.len() as nat),
{
    let mut out: Vec<String> = Vec::new();
    let mut i: usize = 0;
    while i < files.len()
        invariant
            i <= files.len(),
            texts(out@) == cue_paths(texts(files@), i as nat),
        decreases files.len() - i,
    {
        if has_cue_extension(&chars_of(files[i].as_str())) {
            let ghost before = texts(out@);
            out.push(files[i].clone());
        }
        i += 1;
    }
    out
}

/// Whether a cue sheet is one disc of several: its directory, whose files
/// are given, holds more than one cue sheet.
pub fn is_multi_disc(files_in_directory: &Vec<String>) -> (out: bool)
    ensures
        out == (cue_paths(texts(files_in_directory@), files_in_directory.len() as nat).len() > 1),
{
    find_cue_files(files_in_directory).len() > 1
}

/// Every path that is kept names a cue sheet and is one of the paths given.
pub proof fn kept_paths_are_cue_sheets(paths: Seq<Seq<char>>, n: nat, i: int)
    requires
        n <= paths.len(),
        0 <= i < cue_paths(paths, n).len(),
    ensures
        is_cue_path(cue_paths(paths, n)[i]),
        paths.contains(cue_paths(paths, n)[i]),
    decreases n,
{
    if n > 0 {
        let before = cue_paths(paths, (n - 1) as nat);
        if i < before.len() {
            kept_paths_are_cue_sheets(paths, (n - 1) as nat, i);
        } else {
        }
    }
}

} // verus!
