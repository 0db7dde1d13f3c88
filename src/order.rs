use core::cmp::Ordering;
use vstd::prelude::*;

verus! {

/// How two integers compare.
pub open spec fn int_cmp(a: int, b: int) -> Ordering {
    if a < b {
        Ordering::Less
    } else if a == b {
        Ordering::Equal
    } else {
        Ordering::Greater
    }
}

/// Lexicographic combination: `first` decides unless it is `Equal`.
pub open spec fn then_cmp(first: Ordering, next: Ordering) -> Ordering {
    match first {
        Ordering::Equal => next,
        _ => first,
    }
}

/// The same comparison seen from the other side.
pub open spec fn flip(o: Ordering) -> Ordering {
    match o {
        Ordering::Less => Ordering::Greater,
        Ordering::Equal => Ordering::Equal,
        Ordering::Greater => Ordering::Less,
    }
}

/// Lexicographic order of two byte sequences: the first differing byte
/// decides, and a proper prefix comes first.
pub open spec fn lex_cmp(a: Seq<u8>, b: Seq<u8>) -> Ordering
    decreases a.len(),
{
    if a.len() == 0 {
        if b.len() == 0 {
            Ordering::Equal
        } else {
            Ordering::Less
        }
    } else if b.len() == 0 {
        Ordering::Greater
    } else {
        then_cmp(int_cmp(a[0] as int, b[0] as int), lex_cmp(a.drop_first(), b.drop_first()))
    }
}

/// The lexicographic order says `Equal` exactly on equal sequences.
pub proof fn lemma_lex_cmp_equal(a: Seq<u8>, b: Seq<u8>)
    ensures
        (lex_cmp(a, b) == Ordering::Equal) <==> (a == b),
    decreases a.len(),
{
    if a.len() == 0 && b.len() == 0 {
        assert(a =~= b);
    } else if a.len() != 0 && b.len() != 0 {
        lemma_lex_cmp_equal(a.drop_first(), b.drop_first());
        if a == b {
            assert(a.drop_first() == b.drop_first());
        }
        if lex_cmp(a, b) == Ordering::Equal {
            assert(a[0] == b[0]);
            assert(a =~= seq![a[0]] + a.drop_first());
            assert(b =~= seq![b[0]] + b.drop_first());
        }
    }
}

/// Swapping the two sequences flips the lexicographic order.
pub proof fn lemma_lex_cmp_flip(a: Seq<u8>, b: Seq<u8>)
    ensures
        lex_cmp(b, a) == flip(lex_cmp(a, b)),
    decreases a.len(),
{
    if a.len() != 0 && b.len() != 0 {
        lemma_lex_cmp_flip(a.drop_first(), b.drop_first());
    }
}

/// Comparing from index `i` on, where the bytes before `i` agree, is
/// comparing the two suffixes.
pub proof fn lemma_lex_cmp_suffix(a: Seq<u8>, b: Seq<u8>, i: int)
    requires
        0 <= i < a.len(),
        a.len() == b.len(),
    ensures
        lex_cmp(a.subrange(i, a.len() as int), b.subrange(i, b.len() as int)) == then_cmp(
            int_cmp(a[i] as int, b[i] as int),
            lex_cmp(a.subrange(i + 1, a.len() as int), b.subrange(i + 1, b.len() as int)),
        ),
{
    let sa = a.subrange(i, a.len() as int);
    let sb = b.subrange(i, b.len() as int);
    assert(sa.drop_first() =~= a.subrange(i + 1, a.len() as int));
    assert(sb.drop_first() =~= b.subrange(i + 1, b.len() as int));
}

} // verus!
