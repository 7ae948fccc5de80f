//! File paths as text, with `/` between their parts.

use crate::text::{append_chars, find_first, find_last, slice_of};
use vstd::prelude::*;

verus! {

/// The last part of a path: what follows its last `/`.
pub open spec fn file_name_of(path: Seq<char>) -> Seq<char> {
    match path.index_of_last('/') {
        Some(i) => path.subrange(i + 1, path.len() as int),
        None => path,
    }
}

/// The directory of a path: what stands before its last `/`. It is `/` for
/// a file directly under the root and empty for a bare file name.
pub open spec fn dir_of(path: Seq<char>) -> Seq<char> {
    match path.index_of_last('/') {
        Some(i) => if i == 0 {
            seq!['/']
        } else {
            path.subrange(0, i)
        },
        None => Seq::<char>::empty(),
    }
}

/// The path of `name` inside `dir`. An empty `dir` adds nothing, and a
/// `name` that starts at the root stands alone.
pub open spec fn join(dir: Seq<char>, name: Seq<char>) -> Seq<char> {
    if dir.len() == 0 || (name.len() > 0 && name[0] == '/') {
        name
    } else if dir.last() == '/' {
        dir + name
    } else {
        dir + seq!['/'] + name
    }
}

/// A file name up to its first `.`.
pub open spec fn stem_of(name: Seq<char>) -> Seq<char> {
    match name.index_of_first('.') {
        Some(i) => name.take(i),
        None => name,
    }
}

/// What follows the last `.` of a file name; the whole name where it has none.
pub open spec fn extension_of(name: Seq<char>) -> Seq<char> {
    match name.index_of_last('.') {
        Some(i) => name.subrange(i + 1, name.len() as int),
        None => name,
    }
}

/// Whether a path names a cue sheet: its file name ends in `.cue`, in upper
/// or lower case, with something before the dot.
pub open spec fn is_cue_path(path: Seq<char>) -> bool {
    let name = file_name_of(path);
    match name.index_of_last('.') {
        Some(i) => {
            &&& i > 0
            &&& name.len() == i + 4
            &&& (name[i + 1] == 'c' || name[i + 1] == 'C')
            &&& (name[i + 2] == 'u' || name[i + 2] == 'U')
            &&& (name[i + 3] == 'e' || name[i + 3] == 'E')
        },
        None => false,
    }
}

/// The last part of a path: see [`file_name_of`].
pub fn file_name_chars(path: &Vec<char>) -> (out: Vec<char>)
    ensures
        out@ == file_name_of(path@),
{
    match find_last(path, '/') {
        Some(i) => slice_of(path, i + 1, path.len()),
        None => path.clone(),
    }
}

/// The directory of a path: see [`dir_of`].
pub fn dir_chars(path: &Vec<char>) -> (out: Vec<char>)
    ensures
        out@ == dir_of(path@),
{
    match find_last(path, '/') {
        Some(i) => {
            if i == 0 {
                let mut out: Vec<char> = Vec::new();
                out.push('/');
                out
            } else {
                slice_of(path, 0, i)
            }
        },
        None => Vec::new(),
    }
}

/// The path of `name` inside `dir`: see [`join`].
pub fn join_chars(dir: &Vec<char>, name: &Vec<char>) -> (out: Vec<char>)
    ensures
        out@ == join(dir@, name@),
{
    if dir.len() == 0 || (name.len() > 0 && name[0] == '/') {
        name.clone()
    } else {
        let mut out = dir.clone();
        if dir[dir.len() - 1] != '/' {
            out.push('/');
        }
        append_chars(&mut out, name);
        out
    }
}

/// A file name up to its first `.`: see [`stem_of`].
pub fn stem_chars(name: &Vec<char>) -> (out: Vec<char>)
    ensures
        out@ == stem_of(name@),
{
    match find_first(name, '.') {
        Some(i) => slice_of(name, 0, i),
        None => name.clone(),
    }
}

/// What follows the last `.` of a file name: see [`extension_of`].
pub fn extension_chars(name: &Vec<char>) -> (out: Vec<char>)
    ensures
        out@ == extension_of(name@),
{
    match find_last(name, '.') {
        Some(i) => slice_of(name, i + 1, name.len()),
        None => name.clone(),
    }
}

/// Whether a path names a cue sheet: see [`is_cue_path`].
pub fn has_cue_extension(path: &Vec<char>) -> (out: bool)
    ensures
        out == is_cue_path(path@),
{
    let name = file_name_chars(path);
    match find_last(&name, '.') {
        Some(i) => {
            i > 0 && name.len() - i == 4 && (name[i + 1] == 'c' || name[i + 1] == 'C') && (name[i
                + 2] == 'u' || name[i + 2] == 'U') && (name[i + 3] == 'e' || name[i + 3] == 'E')
        },
        None => false,
    }
}

} // verus!
