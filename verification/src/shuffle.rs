//! One-time playlist shuffling.
//!
//! Shuffling happens once, before the session starts; afterwards the
//! scheduler only deals with linear indices into the permuted list.  The
//! algorithm draws a uniformly random remaining track for every output
//! position, which is a uniform shuffle, and is verified to produce a
//! permutation: the multiset of paths never changes.

use vstd::prelude::*;
use vstd::multiset::Multiset;
use vstd::seq_lib::group_to_multiset_ensures;

verus! {

/// Relies on `rand::random_range`: a draw from the thread-local generator,
/// uniform over the given range; over `0..n` every outcome is below `n`.
/// The function panics on an empty range, so `n` must be positive.
#[verifier::external_body]
fn random_below(n: usize) -> (r: usize)
    requires
        n > 0,
    ensures
        r < n,
{
    rand::random_range(0..n)
}

/// Returns the tracks in a random order.  The result is a permutation of
/// the input: same length, same multiset of paths.
pub fn shuffle_playlist(tracks: Vec<String>) -> (r: Vec<String>)
    ensures
        r@.len() == tracks@.len(),
        r@.to_multiset() == tracks@.to_multiset(),
{
    let mut pool = tracks;
    let mut out: Vec<String> = Vec::new();
    let ghost all = pool@.to_multiset();
    proof {
        broadcast use group_to_multiset_ensures, vstd::multiset::group_multiset_axioms;

        assert(out@.to_multiset().len() == 0);
        assert(out@.to_multiset().add(pool@.to_multiset()) =~= all);
        assert(all.len() == pool@.len());
    }
    while pool.len() > 0
        invariant
            out@.to_multiset().add(pool@.to_multiset()) == all,
            out@.len() + pool@.len() == all.len(),
        decreases pool@.len(),
    {
        let j = random_below(pool.len());
        let ghost pool_before = pool@;
        let picked = pool.remove(j);
        let ghost out_before = out@;
        out.push(picked);
        proof {
            broadcast use group_to_multiset_ensures;

            assert(pool@ == pool_before.remove(j as int));
            assert(pool_before.remove(j as int).to_multiset() =~= pool_before.to_multiset().remove(
                picked,
            ));
            assert(out@ == out_before.push(picked));
            assert(out_before.push(picked).to_multiset() =~= out_before.to_multiset().insert(
                picked,
            ));
            assert(pool_before.to_multiset().count(picked) > 0) by {
                assert(pool_before.contains(picked));
            }
            assert(out@.to_multiset().add(pool@.to_multiset()) =~= all);
        }
    }
    proof {
        broadcast use group_to_multiset_ensures, vstd::multiset::group_multiset_axioms;

        assert(pool@.to_multiset().len() == 0);
        assert(out@.to_multiset() =~= all);
    }
    out
}

/// A permutation of a one-element list is that list itself: equal multisets
/// and length one force the single elements to coincide.
pub proof fn lemma_singleton_permutation(a: Seq<String>, b: Seq<String>)
    requires
        a.len() == 1,
        a.to_multiset() == b.to_multiset(),
    ensures
        a =~= b,
{
    broadcast use group_to_multiset_ensures, vstd::multiset::group_multiset_axioms;

    assert(b.len() == 1) by {
        assert(a.to_multiset().len() == a.len());
        assert(b.to_multiset().len() == b.len());
    }
    assert(a.contains(a[0]));
    assert(a.to_multiset().count(a[0]) > 0);
    assert(b.contains(a[0]));
    assert(b[0] == a[0]);
}

} // verus!
