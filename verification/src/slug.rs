//! Slugs, as the `slugify` crate makes them, and the politician ref keys that
//! are built from them.
use vstd::prelude::*;
use crate::text::{chars_of, concat, lower_ascii_seq, lowercase, string_of};

verus! {

/// The characters that `slugify` keeps: lowercase ASCII letters and digits.
pub open spec fn is_slug_char(c: char) -> bool {
    ('a' <= c && c <= 'z') || ('0' <= c && c <= '9')
}

/// The runs of slug characters of `t`, joined by single `-`: what `slugify`
/// makes of an already transliterated, lowercased string.
pub open spec fn slug_core(t: Seq<char>) -> Seq<char>
    decreases t.len(),
{
    if t.len() == 0 {
        seq![]
    } else {
        let p = slug_core(t.drop_last());
        let c = t.last();
        if !is_slug_char(c) {
            p
        } else if t.len() >= 2 && is_slug_char(t[t.len() - 2]) {
            p.push(c)
        } else if p.len() == 0 {
            p.push(c)
        } else {
            p.push('-').push(c)
        }
    }
}

pub open spec fn is_ascii_chars(s: Seq<char>) -> bool {
    forall|i: int| 0 <= i < s.len() ==> (#[trigger] s[i] as u32) < 128
}

/// What `unidecode::unidecode` returns: each character replaced by its ASCII
/// transliteration from the crate's table.
pub uninterp spec fn transliterated(s: Seq<char>) -> Seq<char>;

/// Calls `slugify::slugify(s, "", "-", None)`, which is what `slugify!(s)`
/// expands to. The crate's source transliterates with `unidecode`, lowercases
/// with `str::to_lowercase`, then keeps the runs of `a-z0-9` joined by `-`
/// (its trims and its space replacement only touch separators). ASCII
/// characters transliterate to themselves, and lowercase to their ASCII
/// lowercase.
#[verifier::external_body]
pub(crate) fn slugify_chars(s: &[char]) -> (r: Vec<char>)
    ensures
        r@ == slug_core(lowercase(transliterated(s@))),
        is_ascii_chars(s@) ==> r@ == slug_core(lower_ascii_seq(s@)),
{
    let t: String = s.iter().collect();
    slugify::slugify(&t, "", "-", None).chars().collect()
}

pub proof fn lemma_slug_core_shape(t: Seq<char>)
    ensures
        forall|i: int| 0 <= i < slug_core(t).len() ==> is_slug_char(#[trigger] slug_core(t)[i]) || slug_core(t)[i] == '-',
        slug_core(t).len() > 0 ==> is_slug_char(slug_core(t)[0]) && is_slug_char(slug_core(t).last()),
    decreases t.len(),
{
    if t.len() > 0 {
        lemma_slug_core_shape(t.drop_last());
    }
}


/// The slug `slugify!` makes of `t`.
pub open spec fn slug_text(t: Seq<char>) -> Seq<char> {
    slug_core(lowercase(transliterated(t)))
}

/// The slug of `t`, as `slugify!(t)` makes it.
pub fn slugify_str(t: &str) -> (r: String)
    ensures
        r@ == slug_text(t@),
{
    let v = chars_of(t);
    let s = slugify_chars(&v);
    string_of(&s)
}

/// The text a politician ref key is the slug of: source, election, office
/// and, when present, the candidate's name, joined by `-`.
pub open spec fn ref_key_text(
    source: Seq<char>,
    election: Seq<char>,
    office: Seq<char>,
    name: Option<Seq<char>>,
) -> Seq<char> {
    let base = source + seq!['-'] + election + seq!['-'] + office;
    match name {
        Some(n) => base + seq!['-'] + n,
        None => base,
    }
}

/// A politician ref key: `mn-sos-{election}-{office}-{name}` and the like, slugified.
pub open spec fn ref_key(
    source: Seq<char>,
    election: Seq<char>,
    office: Seq<char>,
    name: Option<Seq<char>>,
) -> Seq<char> {
    slug_text(ref_key_text(source, election, office, name))
}

/// Builds the ref key that identifies a candidate for an office in an
/// election from a given source.
pub fn politician_ref_key_chars(
    source: &Vec<char>,
    election: &Vec<char>,
    office: &Vec<char>,
    name: Option<&Vec<char>>,
) -> (r: Vec<char>)
    ensures
        r@ == ref_key(source@, election@, office@, match name {
            Some(n) => Some(n@),
            None => None,
        }),
{
    let mut dash: Vec<char> = Vec::new();
    dash.push('-');
    let t = concat(source, &dash);
    let t = concat(&t, election);
    let t = concat(&t, &dash);
    let t = concat(&t, office);
    let t = match name {
        Some(n) => {
            let u = concat(&t, &dash);
            concat(&u, n)
        },
        None => t,
    };
    slugify_chars(&t)
}

} // verus!
