//! Joining byte strings.

use vstd::prelude::*;

verus! {

/// The bytes of `first` followed by those of `second`.
pub fn join(first: &[u8], second: &[u8]) -> (r: Vec<u8>)
    ensures
        r@ == first@ + second@,
{
    let mut out: Vec<u8> = Vec::new();
    let mut i: usize = 0;
    while i < first.len()
        invariant
            i <= first.len(),
            out@ == first@.subrange(0, i as int),
        decreases first.len() - i,
    {
        out.push(first[i]);
        i += 1;
        assert(out@ =~= first@.subrange(0, i as int));
    }
    assert(out@ =~= first@);
    let mut j: usize = 0;
    while j < second.len()
        invariant
            j <= second.len(),
            out@ == first@ + second@.subrange(0, j as int),
        decreases second.len() - j,
    {
        out.push(second[j]);
        j += 1;
        assert(out@ =~= first@ + second@.subrange(0, j as int));
    }
    assert(out@ =~= first@ + second@);
    out
}

/// Cutting a joined string where it was joined gives the two parts back.
pub proof fn lemma_split_joined(first: Seq<u8>, second: Seq<u8>)
    ensures
        (first + second).subrange(0, first.len() as int) == first,
        (first + second).subrange(first.len() as int, (first + second).len() as int) == second,
{
    assert((first + second).subrange(0, first.len() as int) =~= first);
    assert((first + second).subrange(first.len() as int, (first + second).len() as int)
        =~= second);
}

} // verus!
