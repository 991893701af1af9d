//! Building text from parts.

use vstd::prelude::*;
use vstd::string::StringExecFns;

verus! {

/// The texts of `parts`, joined with `separator` between neighbours.
pub open spec fn spec_join(parts: Seq<Seq<char>>, separator: Seq<char>) -> Seq<char>
    decreases parts.len(),
{
    if parts.len() == 0 {
        Seq::empty()
    } else if parts.len() == 1 {
        parts[0]
    } else {
        spec_join(parts.drop_last(), separator) + separator + parts.last()
    }
}

/// `String::push` of std: the character is appended and nothing else changes.
#[verifier::external_body]
pub(crate) fn push_char(text: &mut String, c: char)
    ensures
        final(text)@ == old(text)@.push(c),
{
    text.push(c)
}

/// Joins `parts` with `separator` between neighbours: nothing before the
/// first part and nothing after the last.
pub fn join(parts: &Vec<String>, separator: &str) -> (joined: String)
    ensures
        joined@ == spec_join(parts.deep_view(), separator@),
{
    let ghost texts = parts.deep_view();
    let mut joined = String::new();
    let mut i: usize = 0;
    while i < parts.len()
        invariant
            i <= parts.len(),
            texts == parts.deep_view(),
            joined@ == spec_join(texts.take(i as int), separator@),
        decreases parts.len() - i,
    {
        if i > 0 {
            joined.append(separator);
        }
        joined.append(parts[i].as_str());
        proof {
            let next = texts.take(i + 1);
            assert(next.drop_last() =~= texts.take(i as int));
            assert(next.last() == parts[i as int]@);
            if i == 0 {
                assert(joined@ =~= next[0]);
            }
        }
        i += 1;
    }
    assert(texts.take(i as int) =~= texts);
    joined
}

/// Joining two parts puts the separator once, between them.
pub proof fn lemma_join_two(first: Seq<char>, second: Seq<char>, separator: Seq<char>)
    ensures
        spec_join(seq![first, second], separator) == first + separator + second,
{
    let parts = seq![first, second];
    assert(parts.drop_last() =~= seq![first]);
    assert(spec_join(parts.drop_last(), separator) == first);
}

/// Joining three parts puts the separator twice, between neighbours.
pub proof fn lemma_join_three(
    first: Seq<char>,
    second: Seq<char>,
    third: Seq<char>,
    separator: Seq<char>,
)
    ensures
        spec_join(seq![first, second, third], separator) == first + separator + second + separator
            + third,
{
    let parts = seq![first, second, third];
    assert(parts.drop_last() =~= seq![first, second]);
    lemma_join_two(first, second, separator);
}

} // verus!
