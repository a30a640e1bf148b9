//! Functions that the reactor offers to Python code.
use crate::text::push_char;
use vstd::prelude::*;

verus! {

/// The characters of `s` (Unicode scalar values) in reverse order.
pub fn reverse(s: String) -> (r: String)
    ensures
        r@ == s@.reverse(),
{
    let mut chars: Vec<char> = Vec::new();
    for c in it: s.as_str().chars()
        invariant
            it.seq() == s@,
            chars@ == s@.take(it.index() as int),
    {
        chars.push(c);
    }
    let n: usize = chars.len();
    let mut r = String::new();
    let mut i: usize = n;
    while i > 0
        invariant
            chars@ == s@,
            n == s@.len(),
            i <= n,
            r@ == s@.reverse().take((n - i) as int),
        decreases i,
    {
        i = i - 1;
        push_char(&mut r, chars[i]);
        assert(s@.reverse().take((n - i) as int) =~= s@.reverse().take((n - i - 1) as int).push(s@[i as int]));
    }
    assert(s@.reverse().take(n as int) =~= s@.reverse());
    r
}

/// Reversing twice gives back the original string.
pub proof fn lemma_reverse_twice(s: Seq<char>)
    ensures
        s.reverse().reverse() == s,
{
    assert(s.reverse().reverse() =~= s);
}

} // verus!
