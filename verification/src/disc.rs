//! The disc number of a cue sheet that is one of several in its directory,
//! guessed from the cue file's name.

use crate::paths::{file_name_chars, file_name_of};
use crate::text::{
    chars_of, parse_decimal, parse_number, slice_of, split_chars, split_on, string_of, trim,
    trim_chars, views, without, without_chars,
};
use vstd::prelude::*;

verus! {

/// What `str::to_lowercase` makes of a text.
pub uninterp spec fn lowercased(s: Seq<char>) -> Seq<char>;

/// Whether `char::is_numeric` holds of a character.
pub uninterp spec fn is_numeric_char(c: char) -> bool;

/// `str::to_lowercase`: the lowercase equivalent of the text, as Unicode
/// defines it. Nothing is claimed of it but that it depends on the text
/// alone.
#[verifier::external_body]
fn lowercase(s: &str) -> (out: String)
    ensures
        out@ == lowercased(s@),
{
    s.to_lowercase()
}

/// `char::is_numeric`: whether Unicode counts the character among the
/// numbers. Nothing is claimed of it but that it depends on the character
/// alone.
#[verifier::external_body]
fn is_numeric(c: char) -> (out: bool)
    ensures
        out == is_numeric_char(c),
{
    c.is_numeric()
}

/// How often `c` stands in `s`.
pub open spec fn count_of(s: Seq<char>, c: char) -> nat
    decreases s.len(),
{
    if s.len() == 0 {
        0
    } else {
        count_of(s.drop_last(), c) + if s.last() == c {
            1nat
        } else {
            0nat
        }
    }
}

/// The delimiter that parts a file name into tokens: the most frequent of
/// `-`, `_`, blank and `.`, the one named first winning a tie; none where
/// the name holds none of them.
pub open spec fn best_delimiter(name: Seq<char>) -> Option<char> {
    let dash = count_of(name, '-');
    let underscore = count_of(name, '_');
    let blank = count_of(name, ' ');
    let dot = count_of(name, '.');
    if dash > 0 && dash >= underscore && dash >= blank && dash >= dot {
        Some('-')
    } else if underscore > 0 && underscore >= blank && underscore >= dot {
        Some('_')
    } else if blank > 0 && blank >= dot {
        Some(' ')
    } else if dot > 0 {
        Some('.')
    } else {
        None
    }
}

/// The tokens of a file name: its pieces between the best delimiter, or
/// the whole name where it has no delimiter.
pub open spec fn tokens_of(name: Seq<char>) -> Seq<Seq<char>> {
    match best_delimiter(name) {
        Some(d) => split_on(name, d),
        None => seq![name],
    }
}

/// The number that follows `prefix` in a token already trimmed and put in
/// lower case.
pub open spec fn prefixed_number(token: Seq<char>, prefix: Seq<char>) -> Option<nat> {
    if prefix.is_prefix_of(token) {
        parse_decimal(token.skip(prefix.len() as int), usize::MAX as nat)
    } else {
        None
    }
}

/// The number that the first of the first `n` tokens to hold one gives,
/// each token trimmed and put in lower case.
pub open spec fn first_prefixed_number(tokens: Seq<Seq<char>>, prefix: Seq<char>, n: nat) -> Option<
    nat,
>
    decreases n,
{
    if n == 0 {
        None
    } else {
        match first_prefixed_number(tokens, prefix, (n - 1) as nat) {
            Some(v) => Some(v),
            None => prefixed_number(lowercased(trim(tokens[n - 1])), prefix),
        }
    }
}

/// The first character of a token once its zeros are taken out and it is
/// trimmed, where that character is a digit.
pub open spec fn leading_digit(token: Seq<char>) -> Option<nat> {
    let rest = trim(without(token, '0'));
    if rest.len() > 0 {
        parse_decimal(seq![rest[0]], usize::MAX as nat)
    } else {
        None
    }
}

/// The characters of a text that count as numbers, in order.
pub open spec fn numeric_chars(s: Seq<char>) -> Seq<char>
    decreases s.len(),
{
    if s.len() == 0 {
        s
    } else if is_numeric_char(s.last()) {
        numeric_chars(s.drop_last()).push(s.last())
    } else {
        numeric_chars(s.drop_last())
    }
}

/// The disc number that a cue file's name gives: the number after `cd` in
/// a token; else the number after `disc`; else the leading digit of the
/// first token; else all numeric characters of the name read as one
/// number; else 1.
pub open spec fn disc_number(name: Seq<char>) -> nat {
    let tokens = tokens_of(name);
    if let Some(n) = first_prefixed_number(tokens, "cd"@, tokens.len()) {
        n
    } else if let Some(n) = first_prefixed_number(tokens, "disc"@, tokens.len()) {
        n
    } else if let Some(n) = leading_digit(tokens[0]) {
        n
    } else if let Some(n) = parse_decimal(numeric_chars(name), usize::MAX as nat) {
        n
    } else {
        1
    }
}

fn count_chars(s: &Vec<char>, c: char) -> (out: usize)
    ensures
        out == count_of(s@, c),
{
    let mut out: usize = 0;
    let mut i: usize = 0;
    while i < s.len()
        invariant
            i <= s.len(),
            out <= i,
            out == count_of(s@.take(i as int), c),
        decreases s.len() - i,
    {
        assert(s@.take(i + 1).drop_last() =~= s@.take(i as int));
        if s[i] == c {
            out += 1;
        }
        i += 1;
    }
    assert(s@.take(s.len() as int) =~= s@);
    out
}

/// The best delimiter as a text: empty where there is none.
pub open spec fn delimiter_text(name: Seq<char>) -> Seq<char> {
    match best_delimiter(name) {
        Some(d) => seq![d],
        None => Seq::<char>::empty(),
    }
}

/// Finds the delimiter of a file name: see [`best_delimiter`].
pub fn find_best_delimiter(file_name: &str) -> (out: String)
    ensures
        out@ == delimiter_text(file_name@),
{
    let name = chars_of(file_name);
    let mut out: Vec<char> = Vec::new();
    match best_delimiter_chars(&name) {
        Some(d) => {
            out.push(d);
        },
        None => {},
    }
    string_of(&out)
}

fn best_delimiter_chars(name: &Vec<char>) -> (out: Option<char>)
    ensures
        out == best_delimiter(name@),
{
    let dash = count_chars(name, '-');
    let underscore = count_chars(name, '_');
    let blank = count_chars(name, ' ');
    let dot = count_chars(name, '.');
    if dash > 0 && dash >= underscore && dash >= blank && dash >= dot {
        Some('-')
    } else if underscore > 0 && underscore >= blank && underscore >= dot {
        Some('_')
    } else if blank > 0 && blank >= dot {
        Some(' ')
    } else if dot > 0 {
        Some('.')
    } else {
        None
    }
}

fn parse_usize(s: &Vec<char>) -> (out: Option<usize>)
    ensures
        match out {
            Some(v) => parse_decimal(s@, usize::MAX as nat) == Some(v as nat),
            None => parse_decimal(s@, usize::MAX as nat) is None,
        },
{
    match parse_number(s, usize::MAX as u64) {
        Some(v) => Some(v as usize),
        None => None,
    }
}

/// The number after `prefix` in a token that is trimmed and in lower case.
pub fn number_after_prefix(token: &Vec<char>, prefix: &str) -> (out: Option<usize>)
    ensures
        match out {
            Some(v) => prefixed_number(token@, prefix@) == Some(v as nat),
            None => prefixed_number(token@, prefix@) is None,
        },
{
    let p = chars_of(prefix);
    if p.len() > token.len() {
        return None;
    }
    let mut i: usize = 0;
    while i < p.len()
        invariant
            i <= p.len() <= token.len(),
            p@ == prefix@,
            forall|j: int| 0 <= j < i ==> p@[j] == token@[j],
        decreases p.len() - i,
    {
        if p[i] != token[i] {
            return None;
        }
        i += 1;
    }
    let rest = slice_of(token, p.len(), token.len());
    parse_usize(&rest)
}

fn number_in_tokens(tokens: &Vec<Vec<char>>, prefix: &str) -> (out: Option<usize>)
    ensures
        match out {
            Some(v) => first_prefixed_number(views(tokens@), prefix@, tokens.len() as nat) == Some(
                v as nat,
            ),
            None => first_prefixed_number(views(tokens@), prefix@, tokens.len() as nat) is None,
        },
{
    let mut i: usize = 0;
    while i < tokens.len()
        invariant
            i <= tokens.len(),
            first_prefixed_number(views(tokens@), prefix@, i as nat) is None,
        decreases tokens.len() - i,
    {
        let trimmed = string_of(&trim_chars(&tokens[i]));
        let lowered = chars_of(lowercase(trimmed.as_str()).as_str());
        match number_after_prefix(&lowered, prefix) {
            Some(v) => {
                proof {
                    found_number_stays(
                        views(tokens@),
                        prefix@,
                        (i + 1) as nat,
                        tokens.len() as nat,
                    );
                }
                return Some(v);
            },
            None => {},
        }
        i += 1;
    }
    None
}

proof fn found_number_stays(tokens: Seq<Seq<char>>, prefix: Seq<char>, n: nat, m: nat)
    requires
        n <= m,
        first_prefixed_number(tokens, prefix, n) is Some,
    ensures
        first_prefixed_number(tokens, prefix, m) == first_prefixed_number(tokens, prefix, n),
    decreases m - n,
{
    if n < m {
        found_number_stays(tokens, prefix, n, (m - 1) as nat);
    }
}

fn leading_digit_of(token: &Vec<char>) -> (out: Option<usize>)
    ensures
        match out {
            Some(v) => leading_digit(token@) == Some(v as nat),
            None => leading_digit(token@) is None,
        },
{
    let rest = trim_chars(&without_chars(token, '0'));
    if rest.len() > 0 {
        let mut one: Vec<char> = Vec::new();
        one.push(rest[0]);
        parse_usize(&one)
    } else {
        None
    }
}

fn numeric_chars_of(s: &Vec<char>) -> (out: Vec<char>)
    ensures
        out@ == numeric_chars(s@),
{
    let mut out: Vec<char> = Vec::new();
    let mut i: usize = 0;
    while i < s.len()
        invariant
            i <= s.len(),
            out@ == numeric_chars(s@.take(i as int)),
        decreases s.len() - i,
    {
        assert(s@.take(i + 1).drop_last() =~= s@.take(i as int));
        if is_numeric(s[i]) {
            out.push(s[i]);
        }
        i += 1;
    }
    assert(s@.take(s.len() as int) =~= s@);
    out
}

/// The disc number of the cue file at `cue_file_path`: see [`disc_number`].
pub fn derive_disk_number(cue_file_path: &str) -> (out: usize)
    ensures
        out == disc_number(file_name_of(cue_file_path@)),
{
    let name = file_name_chars(&chars_of(cue_file_path));
    let tokens = match best_delimiter_chars(&name) {
        Some(d) => split_chars(&name, d),
        None => {
            let mut whole: Vec<Vec<char>> = Vec::new();
            whole.push(name.clone());
            assert(views(whole@) =~= seq![name@]);
            whole
        },
    };
    if let Some(n) = number_in_tokens(&tokens, "cd") {
        return n;
    }
    if let Some(n) = number_in_tokens(&tokens, "disc") {
        return n;
    }
    if let Some(n) = leading_digit_of(&tokens[0]) {
        return n;
    }
    if let Some(n) = parse_usize(&numeric_chars_of(&name)) {
        return n;
    }
    1
}

} // verus!
