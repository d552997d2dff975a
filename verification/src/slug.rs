//! Slug generator: random fixed-length identifiers over a 62-symbol alphabet.

use rand::Rng;
use vstd::prelude::*;
use vstd::string::*;

verus! {

/// Number of symbols in the slug alphabet.
pub const ALPHABET_LEN: usize = 62;

/// Length of every slug the generator produces on behalf of the coordinator.
pub const GENERATED_SLUG_LEN: usize = 6;

/// The alphabet, in the order in which indices select from it.
pub open spec fn slug_alphabet() -> Seq<char> {
    "abcdefghijklmnopqrstuvwxyzABCDEFGHIJKLMNOPQRSTUVWXYZ0123456789"@
}

/// `c` is one of the 26 lowercase letters, 26 uppercase letters or 10 digits.
pub open spec fn is_slug_char(c: char) -> bool {
    ('a' <= c && c <= 'z') || ('A' <= c && c <= 'Z') || ('0' <= c && c <= '9')
}

/// Every character of `s` belongs to the alphabet.
pub open spec fn is_slug_text(s: Seq<char>) -> bool {
    forall|i: int| 0 <= i < s.len() ==> is_slug_char(#[trigger] s[i])
}

/// `s` has the shape of a generated slug: six characters of the alphabet.
pub open spec fn is_generated_slug(s: Seq<char>) -> bool {
    s.len() == GENERATED_SLUG_LEN && is_slug_text(s)
}

/// All indices select a symbol of the alphabet.
pub open spec fn indices_in_range(indices: Seq<usize>) -> bool {
    forall|i: int| 0 <= i < indices.len() ==> (#[trigger] indices[i]) < ALPHABET_LEN
}

/// The slug that a sequence of alphabet indices spells.
pub open spec fn slug_of_indices(indices: Seq<usize>) -> Seq<char> {
    Seq::new(indices.len(), |i: int| slug_alphabet()[indices[i] as int])
}

/// The alphabet has 62 symbols and each of them is a letter or a digit.
pub proof fn lemma_alphabet()
    ensures
        slug_alphabet().len() == ALPHABET_LEN,
        is_slug_text(slug_alphabet()),
{
    reveal_strlit("abcdefghijklmnopqrstuvwxyzABCDEFGHIJKLMNOPQRSTUVWXYZ0123456789");
}

/// The symbol at position `index` of the alphabet.
pub fn symbol(index: usize) -> (c: Option<char>)
    ensures
        index < ALPHABET_LEN ==> c == Some(slug_alphabet()[index as int]),
        index >= ALPHABET_LEN ==> c.is_none(),
        c matches Some(x) ==> is_slug_char(x),
{
    proof {
        lemma_alphabet();
    }
    if index < ALPHABET_LEN {
        let alphabet = "abcdefghijklmnopqrstuvwxyzABCDEFGHIJKLMNOPQRSTUVWXYZ0123456789";
        Some(alphabet.get_char(index))
    } else {
        None
    }
}

/// Draws an index below `bound` from `rand::thread_rng()` with
/// `Rng::gen_range(0..bound)`. The draw is random, so the contract only
/// bounds it; an empty range, on which `gen_range` panics, is left out. If
/// the operating system cannot seed the generator, `thread_rng` panics.
#[verifier::external_body]
fn random_index(bound: usize) -> (index: usize)
    requires
        bound > 0,
    ensures
        index < bound,
{
    rand::thread_rng().gen_range(0..bound)
}

/// Spells the slug that `indices` select from the alphabet, or nothing if one
/// of them lies outside it.
pub fn slug_from_indices(indices: &Vec<usize>) -> (slug: Option<String>)
    ensures
        indices_in_range(indices@) ==> slug.is_some() && slug.unwrap()@ == slug_of_indices(
            indices@,
        ),
        !indices_in_range(indices@) ==> slug.is_none(),
{
    let mut text = String::new();
    let mut i: usize = 0;
    while i < indices.len()
        invariant
            i <= indices.len(),
            indices_in_range(indices@.take(i as int)),
            text@ == slug_of_indices(indices@.take(i as int)),
        decreases indices.len() - i,
    {
        match symbol(indices[i]) {
            Some(c) => {
                text.push(c);
            },
            None => {
                assert(!(indices@[i as int] < ALPHABET_LEN));
                return None;
            },
        }
        i += 1;
        assert(text@ =~= slug_of_indices(indices@.take(i as int)));
    }
    assert(indices@.take(i as int) =~= indices@);
    Some(text)
}

/// Slugs spelled from indices within the alphabet consist of its symbols.
pub proof fn lemma_slug_of_indices(indices: Seq<usize>)
    requires
        indices_in_range(indices),
    ensures
        slug_of_indices(indices).len() == indices.len(),
        is_slug_text(slug_of_indices(indices)),
{
    lemma_alphabet();
    assert forall|i: int| 0 <= i < indices.len() implies is_slug_char(
        #[trigger] slug_of_indices(indices)[i],
    ) by {
        let k = indices[i] as int;
        assert(is_slug_char(slug_alphabet()[k]));
    }
}

/// A slug of the generated shape: six times the first symbol.
pub proof fn lemma_generated_slug_exists() -> (slug: Seq<char>)
    ensures
        is_generated_slug(slug),
{
    Seq::new(GENERATED_SLUG_LEN as nat, |i: int| 'a')
}

/// Draws `length` independent symbols of the alphabet and concatenates them.
pub fn generate_slug(length: usize) -> (slug: String)
    ensures
        slug@.len() == length,
        is_slug_text(slug@),
{
    let mut indices: Vec<usize> = Vec::new();
    let mut i: usize = 0;
    while i < length
        invariant
            i <= length,
            indices@.len() == i,
            indices_in_range(indices@),
        decreases length - i,
    {
        let index = random_index(ALPHABET_LEN);
        indices.push(index);
        i += 1;
    }
    proof {
        lemma_slug_of_indices(indices@);
    }
    slug_from_indices(&indices).unwrap()
}

} // verus!
