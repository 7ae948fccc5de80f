//! Finding the audio file that a cue sheet means when the file it names is
//! not there: the names in the directory are held against the name in the
//! sheet by two measures, and each measure names a file only where one file
//! alone is nearest.

use crate::paths::{file_name_chars, file_name_of, stem_chars, stem_of};
use crate::text::{chars_of, string_of};
use vstd::prelude::*;
use vstd::utf8::encode_utf8;

verus! {

/// What `levenshtein::levenshtein` returns for two texts.
pub uninterp spec fn levenshtein_distance(a: Seq<char>, b: Seq<char>) -> usize;

/// `levenshtein::levenshtein`: the edit distance of two texts, counted in
/// characters. Nothing is claimed of it but that it depends on the two
/// texts alone.
#[verifier::external_body]
fn edit_distance(a: &str, b: &str) -> (out: usize)
    ensures
        out == levenshtein_distance(a@, b@),
{
    levenshtein::levenshtein(a, b)
}

/// In how many of the first `n` places two byte strings differ.
pub open spec fn mismatches(x: Seq<u8>, y: Seq<u8>, n: nat) -> nat
    decreases n,
{
    if n == 0 {
        0
    } else {
        mismatches(x, y, (n - 1) as nat) + if x[n - 1] != y[n - 1] {
            1nat
        } else {
            0nat
        }
    }
}

/// The lesser of two numbers.
pub open spec fn lesser(a: nat, b: nat) -> nat {
    if a < b {
        a
    } else {
        b
    }
}

/// The greater of two numbers.
pub open spec fn greater(a: nat, b: nat) -> nat {
    if a > b {
        a
    } else {
        b
    }
}

/// In how many places two byte strings differ, as far as both reach.
pub open spec fn hamming(x: Seq<u8>, y: Seq<u8>) -> nat {
    mismatches(x, y, lesser(x.len(), y.len()))
}

/// A text's length in bytes of UTF-8.
pub open spec fn byte_len(s: Seq<char>) -> nat {
    encode_utf8(s).len()
}

/// Two byte strings differ in no more places than the shorter has.
pub proof fn mismatches_bounded(x: Seq<u8>, y: Seq<u8>, n: nat)
    ensures
        mismatches(x, y, n) <= n,
    decreases n,
{
    if n > 0 {
        mismatches_bounded(x, y, (n - 1) as nat);
    }
}

/// Counts the places in which two byte strings differ, as far as both reach.
pub fn hamming_distance(x: &[u8], y: &[u8]) -> (out: usize)
    ensures
        out == hamming(x@, y@),
        out <= x@.len(),
        out <= y@.len(),
{
    let n = if x.len() < y.len() {
        x.len()
    } else {
        y.len()
    };
    let mut out: usize = 0;
    let mut i: usize = 0;
    while i < n
        invariant
            i <= n,
            n <= x@.len(),
            n <= y@.len(),
            out <= i,
            out == mismatches(x@, y@, i as nat),
        decreases n - i,
    {
        if x[i] != y[i] {
            out += 1;
        }
        i += 1;
    }
    out
}

/// The byte length of the longer of two texts.
pub fn size_of_longest(a: &str, b: &str) -> (out: usize)
    ensures
        out == greater(byte_len(a@), byte_len(b@)),
{
    let a_len = a.as_bytes().len();
    let b_len = b.as_bytes().len();
    if a_len > b_len {
        a_len
    } else {
        b_len
    }
}

/// The byte length of the shorter of two texts.
pub fn size_of_shortest(a: &str, b: &str) -> (out: usize)
    ensures
        out == lesser(byte_len(a@), byte_len(b@)),
{
    let a_len = a.as_bytes().len();
    let b_len = b.as_bytes().len();
    if a_len < b_len {
        a_len
    } else {
        b_len
    }
}

/// Whether place `i` holds the least of the numbers, and no other place
/// holds as little.
pub open spec fn is_least_alone(d: Seq<nat>, i: int) -> bool {
    &&& 0 <= i < d.len()
    &&& forall|j: int| 0 <= j < d.len() && j != i ==> d[j] > d[i]
}

/// The place of the least number, where one place alone holds it.
pub open spec fn sole_minimum(d: Seq<nat>) -> Option<int> {
    if exists|i: int| is_least_alone(d, i) {
        Some(choose|i: int| is_least_alone(d, i))
    } else {
        None
    }
}

/// The numbers of a list as mathematical numbers.
pub open spec fn as_nats(d: Seq<usize>) -> Seq<nat> {
    Seq::new(d.len(), |i: int| d[i] as nat)
}

/// Where two places share the least number, no place holds it alone.
pub proof fn tie_for_least_decides_nothing(d: Seq<nat>, i: int, j: int)
    requires
        0 <= i < d.len(),
        0 <= j < d.len(),
        i != j,
        d[i] == d[j],
        forall|k: int| 0 <= k < d.len() ==> d[k] >= d[i],
    ensures
        sole_minimum(d) is None,
{
    assert forall|k: int| !is_least_alone(d, k) by {
        if is_least_alone(d, k) {
            if k == i {
            } else {
                assert(d[i] > d[k]);
            }
        }
    }
}

/// The place that alone holds the least number is the one that
/// `sole_minimum` gives.
pub proof fn least_alone_is_sole_minimum(d: Seq<nat>, i: int)
    requires
        is_least_alone(d, i),
    ensures
        sole_minimum(d) == Some(i),
{
    let c = choose|k: int| is_least_alone(d, k);
    if c != i {
    }
}

/// Finds the place of the least number, where one place alone holds it.
pub fn find_sole_minimum(d: &Vec<usize>) -> (out: Option<usize>)
    ensures
        match out {
            Some(i) => sole_minimum(as_nats(d@)) == Some(i as int),
            None => sole_minimum(as_nats(d@)) is None,
        },
{
    let ghost nats = as_nats(d@);
    if d.len() == 0 {
        assert forall|k: int| !is_least_alone(nats, k) by {}
        return None;
    }
    let mut best: usize = 0;
    let mut tied: bool = false;
    let ghost mut other: int = 0;
    let mut k: usize = 1;
    while k < d.len()
        invariant
            1 <= k <= d.len(),
            best < k,
            nats == as_nats(d@),
            forall|j: int| 0 <= j < k ==> nats[j] >= nats[best as int],
            tied ==> 0 <= other < k && other != best && nats[other] == nats[best as int],
            !tied ==> forall|j: int| 0 <= j < k && j != best ==> nats[j] > nats[best as int],
        decreases d.len() - k,
    {
        if d[k] < d[best] {
            best = k;
            tied = false;
        } else if d[k] == d[best] {
            tied = true;
            proof {
                other = k as int;
            }
        }
        k += 1;
    }
    if tied {
        proof {
            tie_for_least_decides_nothing(nats, best as int, other);
        }
        None
    } else {
        proof {
            least_alone_is_sole_minimum(nats, best as int);
        }
        Some(best)
    }
}

/// The score of a distance against a length, out of 100.
pub open spec fn score_of(distance: nat, length: nat) -> nat {
    (100 - distance * 100 / length) as nat
}

/// The score of a distance that is no greater than the length it is held
/// against: `100 - distance * 100 / length`.
pub fn similarity_score(distance: usize, length: usize) -> (out: usize)
    requires
        0 < length,
        distance <= length,
    ensures
        out == score_of(distance as nat, length as nat),
        out <= 100,
{
    let d: u128 = distance as u128;
    let l: u128 = length as u128;
    assert((d * 100) / (l as int) <= 100) by (nonlinear_arith)
        requires
            0 < l,
            d <= l,
    ;
    let share: u128 = d * 100 / l;
    (100 - share) as usize
}

/// The texts of a list of strings.
pub open spec fn texts(files: Seq<String>) -> Seq<Seq<char>> {
    Seq::new(files.len(), |i: int| files[i]@)
}

/// What a measure says: a file and its score.
pub open spec fn pick_view(pick: Option<(String, usize)>) -> Option<(Seq<char>, nat)> {
    match pick {
        Some((path, score)) => Some((path@, score as nat)),
        None => None,
    }
}

/// A file's name without directory and from its first `.` on: what the
/// measures compare.
pub open spec fn compared_name(path: Seq<char>) -> Seq<char> {
    stem_of(file_name_of(path))
}

/// The Hamming distance between a file's name and the name that the sheet
/// gives, both without extension, byte by byte.
pub open spec fn hamming_to(broken: Seq<char>, path: Seq<char>) -> nat {
    hamming(encode_utf8(compared_name(path)), encode_utf8(stem_of(broken)))
}

/// The Hamming distance to each file, in the files' order.
pub open spec fn hamming_distances(broken: Seq<char>, paths: Seq<Seq<char>>) -> Seq<nat> {
    Seq::new(paths.len(), |i: int| hamming_to(broken, paths[i]))
}

/// What the Hamming measure says: the file that alone is nearest, with
/// `100 - mismatches * 100 / shorter length`. It says nothing where no file
/// is nearest alone, or where one of the two names is empty.
pub open spec fn hamming_pick(broken: Seq<char>, paths: Seq<Seq<char>>) -> Option<
    (Seq<char>, nat),
> {
    match sole_minimum(hamming_distances(broken, paths)) {
        Some(i) => {
            let shortest = lesser(byte_len(stem_of(broken)), byte_len(compared_name(paths[i])));
            if shortest > 0 {
                Some((paths[i], score_of(hamming_to(broken, paths[i]), shortest)))
            } else {
                None
            }
        },
        None => None,
    }
}

/// The edit distance between the name that the sheet gives and a file's
/// name, both without extension.
pub open spec fn levenshtein_to(broken: Seq<char>, path: Seq<char>) -> nat {
    levenshtein_distance(stem_of(broken), compared_name(path)) as nat
}

/// The edit distance to each file, in the files' order.
pub open spec fn levenshtein_distances(broken: Seq<char>, paths: Seq<Seq<char>>) -> Seq<nat> {
    Seq::new(paths.len(), |i: int| levenshtein_to(broken, paths[i]))
}

/// What the Levenshtein measure says: the file that alone is nearest, with
/// `100 - distance * 100 / longer length`. It says nothing where no file is
/// nearest alone, where both names are empty, or where the distance exceeds
/// the longer length.
pub open spec fn levenshtein_pick(broken: Seq<char>, paths: Seq<Seq<char>>) -> Option<
    (Seq<char>, nat),
> {
    match sole_minimum(levenshtein_distances(broken, paths)) {
        Some(i) => {
            let longest = greater(byte_len(stem_of(broken)), byte_len(compared_name(paths[i])));
            if longest > 0 && levenshtein_to(broken, paths[i]) <= longest {
                Some((paths[i], score_of(levenshtein_to(broken, paths[i]), longest)))
            } else {
                None
            }
        },
        None => None,
    }
}

/// Where two or more files share the least edit distance, the Levenshtein
/// measure names no file.
pub proof fn levenshtein_tie_abstains(broken: Seq<char>, paths: Seq<Seq<char>>, i: int, j: int)
    requires
        0 <= i < paths.len(),
        0 <= j < paths.len(),
        i != j,
        levenshtein_to(broken, paths[i]) == levenshtein_to(broken, paths[j]),
        forall|k: int|
            0 <= k < paths.len() ==> levenshtein_to(broken, #[trigger] paths[k]) >= levenshtein_to(
                broken,
                paths[i],
            ),
    ensures
        levenshtein_pick(broken, paths) is None,
{
    tie_for_least_decides_nothing(levenshtein_distances(broken, paths), i, j);
}

/// Where two or more files share the least Hamming distance, the Hamming
/// measure names no file.
pub proof fn hamming_tie_abstains(broken: Seq<char>, paths: Seq<Seq<char>>, i: int, j: int)
    requires
        0 <= i < paths.len(),
        0 <= j < paths.len(),
        i != j,
        hamming_to(broken, paths[i]) == hamming_to(broken, paths[j]),
        forall|k: int|
            0 <= k < paths.len() ==> hamming_to(broken, #[trigger] paths[k]) >= hamming_to(
                broken,
                paths[i],
            ),
    ensures
        hamming_pick(broken, paths) is None,
{
    tie_for_least_decides_nothing(hamming_distances(broken, paths), i, j);
}

/// A score is never above 100, and it is 100 exactly where less than a
/// hundredth of the length differs.
pub proof fn score_is_a_percentage(distance: nat, length: nat)
    requires
        0 < length,
        distance <= length,
    ensures
        score_of(distance, length) <= 100,
        score_of(distance, length) == 100 <==> distance * 100 < length,
        distance == length ==> score_of(distance, length) == 0,
{
    assert(distance * 100 / length <= 100) by (nonlinear_arith)
        requires
            0 < length,
            distance <= length,
    ;
    assert(distance * 100 / length == 0 <==> distance * 100 < length) by (nonlinear_arith)
        requires
            0 < length,
    ;
    assert(distance == length ==> distance * 100 / length == 100) by (nonlinear_arith)
        requires
            0 < length,
    ;
}

/// The name of the file at `path`, without directory and extension.
fn compared_name_of(path: &str) -> (out: String)
    ensures
        out@ == compared_name(path@),
{
    string_of(&stem_chars(&file_name_chars(&chars_of(path))))
}

fn stem_text(name: &str) -> (out: String)
    ensures
        out@ == stem_of(name@),
{
    string_of(&stem_chars(&chars_of(name)))
}

/// Asks the Hamming measure which file the sheet means: see [`hamming_pick`].
pub fn find_best_hamming_match(broken_file_name: &str, audio_files_in_same_dir: &Vec<String>) -> (out:
    Option<(String, usize)>)
    ensures
        pick_view(out) == hamming_pick(broken_file_name@, texts(audio_files_in_same_dir@)),
{
    let files = audio_files_in_same_dir;
    let ghost paths = texts(files@);
    let broken = stem_text(broken_file_name);
    let mut distances: Vec<usize> = Vec::new();
    let mut k: usize = 0;
    while k < files.len()
        invariant
            k <= files.len(),
            distances.len() == k,
            paths == texts(files@),
            broken@ == stem_of(broken_file_name@),
            forall|j: int|
                0 <= j < k ==> distances@[j] as nat == hamming_to(broken_file_name@, paths[j]),
        decreases files.len() - k,
    {
        let name = compared_name_of(files[k].as_str());
        let d = hamming_distance(name.as_str().as_bytes(), broken.as_str().as_bytes());
        distances.push(d);
        k += 1;
    }
    assert(as_nats(distances@) =~= hamming_distances(broken_file_name@, paths));
    match find_sole_minimum(&distances) {
        Some(i) => {
            let name = compared_name_of(files[i].as_str());
            let shortest = size_of_shortest(broken.as_str(), name.as_str());
            if shortest > 0 {
                proof {
                    mismatches_bounded(
                        encode_utf8(name@),
                        encode_utf8(broken@),
                        shortest as nat,
                    );
                }
                let score = similarity_score(distances[i], shortest);
                Some((files[i].clone(), score))
            } else {
                None
            }
        },
        None => None,
    }
}

/// Asks the Levenshtein measure which file the sheet means: see
/// [`levenshtein_pick`].
pub fn find_best_levenshtein_match(
    broken_file_name: &str,
    audio_files_in_same_dir: &Vec<String>,
) -> (out: Option<(String, usize)>)
    ensures
        pick_view(out) == levenshtein_pick(broken_file_name@, texts(audio_files_in_same_dir@)),
{
    let files = audio_files_in_same_dir;
    let ghost paths = texts(files@);
    let broken = stem_text(broken_file_name);
    let mut distances: Vec<usize> = Vec::new();
    let mut k: usize = 0;
    while k < files.len()
        invariant
            k <= files.len(),
            distances.len() == k,
            paths == texts(files@),
            broken@ == stem_of(broken_file_name@),
            forall|j: int|
                0 <= j < k ==> distances@[j] as nat == levenshtein_to(broken_file_name@, paths[j]),
        decreases files.len() - k,
    {
        let name = compared_name_of(files[k].as_str());
        let d = edit_distance(broken.as_str(), name.as_str());
        distances.push(d);
        k += 1;
    }
    assert(as_nats(distances@) =~= levenshtein_distances(broken_file_name@, paths));
    match find_sole_minimum(&distances) {
        Some(i) => {
            let name = compared_name_of(files[i].as_str());
            let longest = size_of_longest(broken.as_str(), name.as_str());
            if longest > 0 && distances[i] <= longest {
                let score = similarity_score(distances[i], longest);
                Some((files[i].clone(), score))
            } else {
                None
            }
        },
        None => None,
    }
}

/// What the two measures say together. Where both name a file: the
/// Levenshtein file if it is the same or scores no less, else the Hamming
/// file. Where one names a file, that one. Where none does, nothing.
pub open spec fn combined(
    levenshtein: Option<(Seq<char>, nat)>,
    hamming: Option<(Seq<char>, nat)>,
) -> Option<(Seq<char>, nat)> {
    match (levenshtein, hamming) {
        (Some(l), Some(h)) => if l.0 == h.0 || l.1 >= h.1 {
            Some(l)
        } else {
            Some(h)
        },
        (Some(l), None) => Some(l),
        (None, Some(h)) => Some(h),
        (None, None) => None,
    }
}

/// What the two measures say together is what one of them says: no file
/// is named that neither measure named, and a file is named wherever a
/// measure named one. Where both name a file and the scores are equal, the
/// Levenshtein file is taken.
pub proof fn combined_is_one_of_the_two(
    levenshtein: Option<(Seq<char>, nat)>,
    hamming: Option<(Seq<char>, nat)>,
)
    ensures
        combined(levenshtein, hamming) == levenshtein || combined(levenshtein, hamming) == hamming,
        combined(levenshtein, hamming) is None <==> levenshtein is None && hamming is None,
        levenshtein matches Some(l) && hamming matches Some(h) && l.1 == h.1 ==> combined(
            levenshtein,
            hamming,
        ) == levenshtein,
{
}

/// Puts together what the two measures say: see [`combined`].
pub fn combine_matches(levenshtein: Option<(String, usize)>, hamming: Option<(String, usize)>) -> (out:
    Option<(String, usize)>)
    ensures
        pick_view(out) == combined(pick_view(levenshtein), pick_view(hamming)),
{
    match (levenshtein, hamming) {
        (Some(l), Some(h)) => {
            if l.0 == h.0 || l.1 >= h.1 {
                Some(l)
            } else {
                Some(h)
            }
        },
        (Some(l), None) => Some(l),
        (None, Some(h)) => Some(h),
        (None, None) => None,
    }
}

} // verus!
