//! Regular-expression matching through the `regex` crate. Each call compiles
//! the pattern and runs one search; the results are named by uninterpreted
//! functions of the pattern and the text (the crate's matching is
//! deterministic). A pattern that does not compile matches nothing.
use vstd::prelude::*;

verus! {

/// Whether `Regex::new(pattern)` compiles and `is_match(text)` holds.
pub uninterp spec fn regex_is_match(pattern: Seq<char>, text: Seq<char>) -> bool;

/// The capture groups of the leftmost match of `pattern` in `text` (group 0
/// is the whole match; a group that did not take part is `None`).
pub uninterp spec fn regex_captures(pattern: Seq<char>, text: Seq<char>) -> Option<
    Seq<Option<Seq<char>>>,
>;

/// The capture groups of each successive non-overlapping match
/// (`captures_iter`).
pub uninterp spec fn regex_captures_all(pattern: Seq<char>, text: Seq<char>) -> Seq<
    Seq<Option<Seq<char>>>,
>;

/// The text of each successive non-overlapping match (`find_iter`).
pub uninterp spec fn regex_find_all(pattern: Seq<char>, text: Seq<char>) -> Seq<Seq<char>>;

/// The character span of the leftmost match (`find`).
pub uninterp spec fn regex_find(pattern: Seq<char>, text: Seq<char>) -> Option<(int, int)>;

/// `text` with every match replaced by `replacement` (`replace_all`, where
/// `$n` in the replacement stands for group `n`).
pub uninterp spec fn regex_replace_all(
    pattern: Seq<char>,
    text: Seq<char>,
    replacement: Seq<char>,
) -> Seq<char>;

pub open spec fn groups_view(g: Seq<Option<Vec<char>>>) -> Seq<Option<Seq<char>>> {
    g.map_values(
        |o: Option<Vec<char>>|
            match o {
                Some(v) => Some(v@),
                None => None,
            },
    )
}

/// Calls `Regex::new(pattern)` and `Regex::is_match`.
#[verifier::external_body]
pub(crate) fn is_match(pattern: &str, text: &[char]) -> (r: bool)
    ensures
        r == regex_is_match(pattern@, text@),
{
    let t: String = text.iter().collect();
    match regex::Regex::new(pattern) {
        Ok(re) => re.is_match(&t),
        Err(_) => false,
    }
}

/// Calls `Regex::new(pattern)` and `Regex::captures`.
#[verifier::external_body]
pub(crate) fn captures(pattern: &str, text: &[char]) -> (r: Option<Vec<Option<Vec<char>>>>)
    ensures
        match r {
            Some(g) => regex_captures(pattern@, text@) == Some(groups_view(g@)),
            None => regex_captures(pattern@, text@) is None,
        },
{
    let t: String = text.iter().collect();
    let re = match regex::Regex::new(pattern) {
        Ok(re) => re,
        Err(_) => return None,
    };
    re.captures(&t).map(|c| c.iter().map(|m| m.map(|m| m.as_str().chars().collect())).collect())
}

/// Calls `Regex::new(pattern)` and `Regex::captures_iter`.
#[verifier::external_body]
pub(crate) fn captures_all(pattern: &str, text: &[char]) -> (r: Vec<Vec<Option<Vec<char>>>>)
    ensures
        r@.map_values(|g: Vec<Option<Vec<char>>>| groups_view(g@)) == regex_captures_all(
            pattern@,
            text@,
        ),
{
    let t: String = text.iter().collect();
    let re = match regex::Regex::new(pattern) {
        Ok(re) => re,
        Err(_) => return Vec::new(),
    };
    re.captures_iter(&t).map(|c| c.iter().map(|m| m.map(|m| m.as_str().chars().collect())).collect()).collect()
}

/// Calls `Regex::new(pattern)` and `Regex::find_iter`.
#[verifier::external_body]
pub(crate) fn find_all(pattern: &str, text: &[char]) -> (r: Vec<Vec<char>>)
    ensures
        r@.map_values(|m: Vec<char>| m@) == regex_find_all(pattern@, text@),
{
    let t: String = text.iter().collect();
    let re = match regex::Regex::new(pattern) {
        Ok(re) => re,
        Err(_) => return Vec::new(),
    };
    re.find_iter(&t).map(|m| m.as_str().chars().collect()).collect()
}

/// Calls `Regex::new(pattern)` and `Regex::find`; the match's byte offsets
/// are given as character offsets. A match lies within the text.
#[verifier::external_body]
pub(crate) fn find(pattern: &str, text: &[char]) -> (r: Option<(usize, usize)>)
    ensures
        match r {
            Some((a, b)) => regex_find(pattern@, text@) == Some((a as int, b as int)) && a <= b
                <= text@.len(),
            None => regex_find(pattern@, text@) is None,
        },
{
    let t: String = text.iter().collect();
    let re = match regex::Regex::new(pattern) {
        Ok(re) => re,
        Err(_) => return None,
    };
    re.find(&t).map(|m| (t[..m.start()].chars().count(), t[..m.end()].chars().count()))
}

/// Calls `Regex::new(pattern)` and `Regex::replace_all`.
#[verifier::external_body]
pub(crate) fn replace_all(pattern: &str, text: &[char], replacement: &str) -> (r: Vec<char>)
    ensures
        r@ == regex_replace_all(pattern@, text@, replacement@),
{
    let t: String = text.iter().collect();
    match regex::Regex::new(pattern) {
        Ok(re) => re.replace_all(&t, replacement).chars().collect(),
        Err(_) => text.to_vec(),
    }
}

} // verus!
