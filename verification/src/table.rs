//! Rows read from a database table, modelled as sequences: the first row
//! that satisfies a predicate, as a primary-key or unique-index lookup
//! returns it.

use vstd::prelude::*;

verus! {

/// The first row of `rows` that satisfies `p`.
pub open spec fn first_match<T>(rows: Seq<T>, p: spec_fn(T) -> bool) -> Option<T>
    decreases rows.len(),
{
    if rows.len() == 0 {
        None
    } else if p(rows[0]) {
        Some(rows[0])
    } else {
        first_match(rows.drop_first(), p)
    }
}

/// One step of a front-to-back scan.
pub proof fn lemma_first_match_step<T>(rows: Seq<T>, p: spec_fn(T) -> bool, i: int)
    requires
        0 <= i < rows.len(),
    ensures
        first_match(rows.skip(i), p) == (if p(rows[i]) {
            Some(rows[i])
        } else {
            first_match(rows.skip(i + 1), p)
        }),
{
    assert(rows.skip(i).drop_first() =~= rows.skip(i + 1));
}

/// A scan that reached the end found nothing.
pub proof fn lemma_first_match_end<T>(rows: Seq<T>, p: spec_fn(T) -> bool)
    ensures
        first_match(rows.skip(rows.len() as int), p) is None,
{
    assert(rows.skip(rows.len() as int).len() == 0);
}

/// A scan from the start covers all rows.
pub proof fn lemma_first_match_start<T>(rows: Seq<T>, p: spec_fn(T) -> bool)
    ensures
        first_match(rows.skip(0), p) == first_match(rows, p),
{
    assert(rows.skip(0) =~= rows);
}

/// `first_match` finds a row exactly when some row satisfies the predicate,
/// and what it finds satisfies it.
pub proof fn lemma_first_match_found<T>(rows: Seq<T>, p: spec_fn(T) -> bool)
    ensures
        first_match(rows, p) matches Some(r) ==> p(r) && rows.contains(r),
        first_match(rows, p) is None <==> forall|i: int| 0 <= i < rows.len() ==> !p(#[trigger] rows[i]),
    decreases rows.len(),
{
    if rows.len() > 0 {
        lemma_first_match_found(rows.drop_first(), p);
        if let Some(r) = first_match(rows, p) {
            if !p(rows[0]) {
                let j = choose|j: int| 0 <= j < rows.drop_first().len() && rows.drop_first()[j] == r;
                assert(rows[j + 1] == r);
            }
        }
        if !p(rows[0]) {
            assert forall|i: int| 0 <= i < rows.len() && (forall|k: int| 0 <= k < rows.drop_first().len() ==> !p(#[trigger] rows.drop_first()[k])) implies !p(#[trigger] rows[i]) by {
                if i > 0 {
                    assert(rows[i] == rows.drop_first()[i - 1]);
                }
            }
        }
    }
}


/// In a table where at most one row satisfies `p` (a key or unique index),
/// a lookup finds the row that does.
pub proof fn lemma_first_match_only<T>(rows: Seq<T>, p: spec_fn(T) -> bool, x: T)
    requires
        rows.contains(x),
        p(x),
        forall|i: int, j: int| #![trigger rows[i], rows[j]]
            0 <= i < rows.len() && 0 <= j < rows.len() && p(rows[i]) && p(rows[j]) ==> i == j,
    ensures
        first_match(rows, p) == Some(x),
{
    lemma_first_match_found(rows, p);
    let j = choose|j: int| 0 <= j < rows.len() && rows[j] == x;
    assert(p(rows[j]));
    if let Some(r) = first_match(rows, p) {
        let i = choose|i: int| 0 <= i < rows.len() && rows[i] == r;
        assert(p(rows[i]));
    }
}

/// The first row for which `matches` holds, where `matches` computes the
/// predicate `p`: a front-to-back scan of the table.
pub(crate) fn find_first<T: Copy, F: Fn(&T) -> bool>(rows: &Vec<T>, matches: F, Ghost(p): Ghost<spec_fn(T) -> bool>) -> (r: Option<T>)
    requires
        forall|t: T| #[trigger] matches.requires((&t,)),
        forall|t: T, b: bool| matches.ensures((&t,), b) ==> b == p(t),
    ensures
        r == first_match(rows@, p),
{
    let mut i: usize = 0;
    proof {
        lemma_first_match_start(rows@, p);
    }
    while i < rows.len()
        invariant
            i <= rows.len(),
            forall|t: T| #[trigger] matches.requires((&t,)),
            forall|t: T, b: bool| matches.ensures((&t,), b) ==> b == p(t),
            first_match(rows@, p) == first_match(rows@.skip(i as int), p),
        decreases rows.len() - i,
    {
        proof {
            lemma_first_match_step(rows@, p, i as int);
        }
        let row = rows[i];
        if matches(&row) {
            return Some(row);
        }
        i += 1;
    }
    proof {
        lemma_first_match_end(rows@, p);
    }
    None
}

} // verus!
