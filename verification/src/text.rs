use vstd::prelude::*;

verus! {

/// `part` stands in `text` at position `at`, character for character.
pub open spec fn occurs_at(text: Seq<char>, part: Seq<char>, at: int) -> bool {
    &&& 0 <= at
    &&& at + part.len() <= text.len()
    &&& text.subrange(at, at + part.len()) == part
}

/// `part` stands somewhere in `text` as one unbroken run of characters.
pub open spec fn contains_text(text: Seq<char>, part: Seq<char>) -> bool {
    exists|at: int| occurs_at(text, part, at)
}

/// A text put between two others stands in the whole, right behind the first.
pub proof fn lemma_occurs_between(before: Seq<char>, part: Seq<char>, after: Seq<char>)
    ensures
        occurs_at(before + part + after, part, before.len() as int),
        contains_text(before + part + after, part),
{
    let whole = before + part + after;
    let at = before.len() as int;
    assert(whole.subrange(at, at + part.len()) =~= part);
    assert(occurs_at(whole, part, at));
}

/// What stands in a text still stands in it after more text is put before and behind it.
pub proof fn lemma_contains_within(
    before: Seq<char>,
    text: Seq<char>,
    after: Seq<char>,
    part: Seq<char>,
)
    requires
        contains_text(text, part),
    ensures
        contains_text(before + text + after, part),
{
    let at = choose|at: int| occurs_at(text, part, at);
    let whole = before + text + after;
    let shifted = before.len() + at;
    assert(whole.subrange(shifted, shifted + part.len()) =~= text.subrange(at, at + part.len()));
    assert(occurs_at(whole, part, shifted));
}

} // verus!
