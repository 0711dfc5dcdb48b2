//! Strings as sequences of characters.

use vstd::prelude::*;
use vstd::std_specs::iter::IteratorSpec;

verus! {

/// `s` without the run of `c` at its end.
pub open spec fn without_trailing(s: Seq<char>, c: char) -> Seq<char>
    decreases s.len(),
{
    if s.len() > 0 && s.last() == c {
        without_trailing(s.drop_last(), c)
    } else {
        s
    }
}

/// What is left of a string after `without_trailing` is a prefix of it that
/// does not end in `c`.
pub proof fn lemma_without_trailing(s: Seq<char>, c: char)
    ensures
        without_trailing(s, c).len() <= s.len(),
        without_trailing(s, c) == s.take(without_trailing(s, c).len() as int),
        without_trailing(s, c).len() > 0 ==> without_trailing(s, c).last() != c,
        forall|i: int| without_trailing(s, c).len() <= i < s.len() ==> s[i] == c,
    decreases s.len(),
{
    if s.len() > 0 && s.last() == c {
        let t = s.drop_last();
        lemma_without_trailing(t, c);
        assert forall|i: int| without_trailing(s, c).len() <= i < s.len() implies s[i] == c by {
            if i < t.len() {
                assert(t[i] == s[i]);
            }
        }
    }
}

/// The characters of `s`, in order.
pub fn chars_of(s: &str) -> (chars: Vec<char>)
    ensures
        chars@ == s@,
{
    let mut chars: Vec<char> = Vec::new();
    let it = s.chars();
    for c in iter: it
        invariant
            iter.seq() == s@,
            chars@ == s@.take(iter.index() as int),
    {
        chars.push(c);
    }
    chars
}

/// How many characters of `chars` stand before the run of `c` at its end.
pub fn len_without_trailing(chars: &Vec<char>, c: char) -> (n: usize)
    ensures
        n <= chars.len(),
        chars@.take(n as int) == without_trailing(chars@, c),
{
    let mut n: usize = chars.len();
    assert(chars@.take(n as int) == chars@);
    while n > 0 && chars[n - 1] == c
        invariant
            n <= chars.len(),
            without_trailing(chars@, c) == without_trailing(chars@.take(n as int), c),
        decreases n,
    {
        assert(chars@.take(n as int).drop_last() == chars@.take(n - 1));
        n -= 1;
    }
    n
}

} // verus!
