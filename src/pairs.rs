//! The visiting order of the force pass: every unordered pair of bodies once.
use vstd::prelude::*;

verus! {

/// `a` comes strictly before `b` in lexicographic order.
pub open spec fn pair_before(a: (usize, usize), b: (usize, usize)) -> bool {
    a.0 < b.0 || (a.0 == b.0 && a.1 < b.1)
}

/// `p` names two distinct bodies among `n`, the lower handle first.
pub open spec fn is_pair(n: nat, p: (usize, usize)) -> bool {
    p.0 < p.1 && p.1 < n
}

/// All pairs `(i, j)` with `i < j < n`, each exactly once, in lexicographic
/// order. Applying a pair's equal-and-opposite contribution to both bodies
/// for each entry covers every interaction once.
pub fn unordered_pairs(n: usize) -> (r: Vec<(usize, usize)>)
    ensures
        forall|k: int| 0 <= k < r@.len() ==> is_pair(n as nat, #[trigger] r@[k]),
        forall|i: usize, j: usize|
            #![trigger is_pair(n as nat, (i, j))]
            is_pair(n as nat, (i, j)) ==> exists|k: int| 0 <= k < r@.len() && r@[k] == (i, j),
        forall|k: int, l: int| 0 <= k < l < r@.len() ==> pair_before(r@[k], r@[l]),
        forall|k: int, l: int| 0 <= k < r@.len() && 0 <= l < r@.len() && k != l ==> r@[k] != r@[l],
{
    let mut r: Vec<(usize, usize)> = Vec::new();
    let mut i: usize = 0;
    while i < n
        invariant
            i <= n,
            forall|k: int| 0 <= k < r@.len() ==> is_pair(n as nat, #[trigger] r@[k]),
            forall|k: int| 0 <= k < r@.len() ==> (#[trigger] r@[k]).0 < i,
            forall|a: usize, b: usize|
                #![trigger is_pair(n as nat, (a, b))]
                is_pair(n as nat, (a, b)) && a < i ==> exists|k: int|
                    0 <= k < r@.len() && r@[k] == (a, b),
            forall|k: int, l: int| 0 <= k < l < r@.len() ==> pair_before(r@[k], r@[l]),
        decreases n - i,
    {
        let mut j: usize = i + 1;
        let ghost start = r@.len();
        while j < n
            invariant
                i < n,
                i + 1 <= j <= n,
                start <= r@.len(),
                forall|k: int| 0 <= k < r@.len() ==> is_pair(n as nat, #[trigger] r@[k]),
                forall|k: int| 0 <= k < start ==> (#[trigger] r@[k]).0 < i,
                forall|k: int| start <= k < r@.len() ==> (#[trigger] r@[k]).0 == i && r@[k].1 < j,
                forall|a: usize, b: usize|
                    #![trigger is_pair(n as nat, (a, b))]
                    is_pair(n as nat, (a, b)) && (a < i || (a == i && b < j)) ==> exists|k: int|
                        0 <= k < r@.len() && r@[k] == (a, b),
                forall|k: int, l: int| 0 <= k < l < r@.len() ==> pair_before(r@[k], r@[l]),
            decreases n - j,
        {
            let ghost before = r@;
            r.push((i, j));
            proof {
                assert forall|a: usize, b: usize|
                    #![trigger is_pair(n as nat, (a, b))]
                    is_pair(n as nat, (a, b)) && (a < i || (a == i && b < j + 1)) implies exists|
                        k: int,
                    |
                        0 <= k < r@.len() && r@[k] == (a, b) by {
                    if a == i && b == j {
                        assert(r@[before.len() as int] == (a, b));
                    } else {
                        let k = choose|k: int| 0 <= k < before.len() && before[k] == (a, b);
                        assert(r@[k] == (a, b));
                    }
                }
            }
            j = j + 1;
        }
        i = i + 1;
    }
    proof {
        assert forall|k: int, l: int|
            0 <= k < r@.len() && 0 <= l < r@.len() && k != l implies r@[k] != r@[l] by {
            if k < l {
                assert(pair_before(r@[k], r@[l]));
            } else {
                assert(pair_before(r@[l], r@[k]));
            }
        }
    }
    r
}

} // verus!
