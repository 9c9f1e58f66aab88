//! Small helpers on strings and their views.
use vstd::prelude::*;

verus! {

/// The views of a sequence of strings, position by position.
pub open spec fn texts(strings: Seq<String>) -> Seq<Seq<char>> {
    Seq::new(strings.len(), |i: int| strings[i]@)
}

/// The view of an optional string.
pub open spec fn optional_text(string: Option<String>) -> Option<Seq<char>> {
    match string {
        Some(s) => Some(s@),
        None => None,
    }
}

/// Wraps `str::strip_prefix` of the standard library, called with a string as
/// the pattern: when `text` starts with `prefix` the result is what follows the
/// prefix, otherwise there is none.
#[verifier::external_body]
pub(crate) fn strip_prefix<'a>(text: &'a str, prefix: &str) -> (rest: Option<&'a str>)
    ensures
        rest is Some <==> prefix@.is_prefix_of(text@),
        rest matches Some(r) ==> r@ == text@.skip(prefix@.len() as int),
{
    text.strip_prefix(prefix)
}

/// The strings as borrowed string slices, in the same order.
pub fn borrow_texts<'a>(strings: &'a Vec<String>) -> (slices: Vec<&'a str>)
    ensures
        slices.len() == strings.len(),
        forall|i: int| 0 <= i < slices.len() ==> (#[trigger] slices[i])@ == strings[i]@,
{
    let mut slices: Vec<&str> = Vec::new();
    let mut i: usize = 0;
    while i < strings.len()
        invariant
            i <= strings.len(),
            slices.len() == i,
            forall|j: int| 0 <= j < i ==> (#[trigger] slices[j])@ == strings[j]@,
        decreases strings.len() - i,
    {
        slices.push(strings[i].as_str());
        i += 1;
    }
    slices
}

/// An owned copy of each string, in the same order.
pub fn clone_texts(strings: &Vec<String>) -> (copies: Vec<String>)
    ensures
        texts(copies@) == texts(strings@),
{
    let mut copies: Vec<String> = Vec::new();
    let mut i: usize = 0;
    while i < strings.len()
        invariant
            i <= strings.len(),
            copies.len() == i,
            forall|j: int| 0 <= j < i ==> (#[trigger] copies[j])@ == strings[j]@,
        decreases strings.len() - i,
    {
        copies.push(strings[i].clone());
        i += 1;
    }
    assert(texts(copies@) =~= texts(strings@));
    copies
}

} // verus!
