use vstd::prelude::*;
use crate::float_bits::F32Bits;

verus! {

/// `i` is the first eligible entry.
pub open spec fn is_first_eligible(eligible: Seq<bool>, i: int) -> bool {
    &&& 0 <= i < eligible.len()
    &&& eligible[i]
    &&& forall|j: int| 0 <= j < i ==> !eligible[j]
}

/// What scanning the first `n` entries gives when the scan keeps the first
/// eligible entry and moves to a later eligible entry only when its key is
/// smaller than the kept one (as `<` on `f32` decides):
/// nothing when no entry is eligible; the first eligible entry when its key is
/// NaN (nothing is smaller than NaN); otherwise the first eligible entry with
/// the least non-NaN key, NaN keys of later entries being passed over.
pub open spec fn is_least_choice(
    keys: Seq<F32Bits>,
    eligible: Seq<bool>,
    n: int,
    choice: Option<int>,
) -> bool {
    match choice {
        None => forall|j: int| 0 <= j < n ==> !eligible[j],
        Some(i) => {
            &&& 0 <= i < n
            &&& eligible[i]
            &&& keys[i].nan() ==> forall|j: int| 0 <= j < i ==> !eligible[j]
            &&& !keys[i].nan() ==> forall|j: int|
                0 <= j < n && eligible[j] && !keys[j].nan() ==> {
                    &&& keys[i].ordinal() <= keys[j].ordinal()
                    &&& j < i ==> keys[i].ordinal() < keys[j].ordinal()
                }
            &&& !keys[i].nan() ==> forall|j: int|
                0 <= j < n && #[trigger] is_first_eligible(eligible, j) ==> !keys[j].nan()
        },
    }
}

/// The entry the scan settles on over all entries; see `is_least_choice`.
pub open spec fn least_choice(keys: Seq<F32Bits>, eligible: Seq<bool>) -> Option<int> {
    if exists|i: int| is_least_choice(keys, eligible, keys.len() as int, Some(i)) {
        Some(choose|i: int| is_least_choice(keys, eligible, keys.len() as int, Some(i)))
    } else {
        None
    }
}

/// At most one choice fits `is_least_choice`.
pub proof fn lemma_least_choice_unique(keys: Seq<F32Bits>, eligible: Seq<bool>, n: int, i1: int, i2: int)
    requires
        keys.len() == eligible.len(),
        0 <= n <= keys.len(),
        is_least_choice(keys, eligible, n, Some(i1)),
        is_least_choice(keys, eligible, n, Some(i2)),
    ensures
        i1 == i2,
{
    if i1 < i2 {
        if keys[i1].nan() && !keys[i2].nan() {
            assert(is_first_eligible(eligible, i1));
        }
        if !keys[i1].nan() && !keys[i2].nan() {
            assert(keys[i1].ordinal() <= keys[i2].ordinal());
            assert(keys[i2].ordinal() < keys[i1].ordinal());
        }
    } else if i2 < i1 {
        if keys[i2].nan() && !keys[i1].nan() {
            assert(is_first_eligible(eligible, i2));
        }
        if !keys[i1].nan() && !keys[i2].nan() {
            assert(keys[i2].ordinal() <= keys[i1].ordinal());
            assert(keys[i1].ordinal() < keys[i2].ordinal());
        }
    }
}

/// A choice that fits `is_least_choice` over all entries is `least_choice`.
pub proof fn lemma_least_choice_determined(keys: Seq<F32Bits>, eligible: Seq<bool>, c: Option<int>)
    requires
        keys.len() == eligible.len(),
        is_least_choice(keys, eligible, keys.len() as int, c),
    ensures
        c == least_choice(keys, eligible),
{
    match c {
        Some(i) => {
            let j = choose|j: int| is_least_choice(keys, eligible, keys.len() as int, Some(j));
            lemma_least_choice_unique(keys, eligible, keys.len() as int, i, j);
        },
        None => {
            if exists|i: int| is_least_choice(keys, eligible, keys.len() as int, Some(i)) {
                let j = choose|j: int| is_least_choice(keys, eligible, keys.len() as int, Some(j));
                assert(eligible[j]);
            }
        },
    }
}

/// The scan over the first `n` entries settles somewhere that fits
/// `is_least_choice`.
proof fn lemma_scan_settles(keys: Seq<F32Bits>, eligible: Seq<bool>, n: int) -> (c: Option<int>)
    requires
        keys.len() == eligible.len(),
        0 <= n <= keys.len(),
    ensures
        is_least_choice(keys, eligible, n, c),
    decreases n,
{
    if n == 0 {
        None
    } else {
        let m = n - 1;
        let prev = lemma_scan_settles(keys, eligible, m);
        if !eligible[m] {
            assert forall|j: int| 0 <= j < n && #[trigger] is_first_eligible(eligible, j) implies j < m by {}
            prev
        } else {
            match prev {
                None => {
                    assert forall|j: int| 0 <= j < n && #[trigger] is_first_eligible(eligible, j) implies j == m by {
                        if j < m {
                            assert(!eligible[j]);
                        }
                    }
                    Some(m)
                },
                Some(b) => {
                    if keys[m].less_than(keys[b]) {
                        assert(!keys[b].nan());
                        assert forall|j: int|
                            0 <= j < n && #[trigger] is_first_eligible(eligible, j) implies !keys[j].nan() by {
                            if j != b && j < m {
                                if j > b {
                                    assert(eligible[b]);
                                }
                            } else if j == m {
                                assert(eligible[b]);
                            }
                        }
                        Some(m)
                    } else {
                        assert forall|j: int|
                            0 <= j < n && #[trigger] is_first_eligible(eligible, j) implies !keys[j].nan()
                            || keys[b].nan() by {
                            if j == m {
                                assert(eligible[b]);
                            }
                        }
                        Some(b)
                    }
                },
            }
        }
    }
}

/// As soon as one entry is eligible, the scan settles on some entry.
pub proof fn lemma_least_choice_exists(keys: Seq<F32Bits>, eligible: Seq<bool>, i: int)
    requires
        keys.len() == eligible.len(),
        0 <= i < keys.len(),
        eligible[i],
    ensures
        exists|k: int| is_least_choice(keys, eligible, keys.len() as int, Some(k)),
{
    let c = lemma_scan_settles(keys, eligible, keys.len() as int);
    assert(c is Some);
}

/// The entry a scan for the least key among the eligible entries settles on;
/// see `is_least_choice`.
pub fn first_least(keys: &Vec<F32Bits>, eligible: &Vec<bool>) -> (r: Option<usize>)
    requires
        keys.len() == eligible.len(),
    ensures
        is_least_choice(
            keys@,
            eligible@,
            keys.len() as int,
            match r {
                Some(i) => Some(i as int),
                None => None,
            },
        ),
        least_choice(keys@, eligible@) == match r {
            Some(i) => Some(i as int),
            None => None,
        },
{
    let mut best: Option<usize> = None;
    let mut n: usize = 0;
    while n < keys.len()
        invariant
            n <= keys.len(),
            keys.len() == eligible.len(),
            is_least_choice(
                keys@,
                eligible@,
                n as int,
                match best {
                    Some(i) => Some(i as int),
                    None => None,
                },
            ),
        decreases keys.len() - n,
    {
        if eligible[n] {
            match best {
                None => {
                    best = Some(n);
                    assert forall|j: int|
                        0 <= j < n + 1 && #[trigger] is_first_eligible(eligible@, j) implies !keys@[j].nan()
                        || keys@[n as int].nan() by {
                        if j < n {
                            assert(!eligible@[j]);
                        }
                    }
                },
                Some(b) => {
                    if keys[n].lt(&keys[b]) {
                        best = Some(n);
                        assert(!keys@[b as int].nan());
                        assert forall|j: int|
                            0 <= j < n + 1 && #[trigger] is_first_eligible(eligible@, j) implies !keys@[j].nan() by {
                            if j != b && j < n {
                                if j > b {
                                    assert(eligible@[b as int]);
                                } else if j < b {
                                    assert(is_first_eligible(eligible@, j));
                                }
                            } else if j == n {
                                assert(eligible@[b as int]);
                            }
                        }
                    } else {
                        assert forall|j: int|
                            0 <= j < n + 1 && #[trigger] is_first_eligible(eligible@, j) implies !keys@[j].nan()
                            || keys@[b as int].nan() by {
                            if j == n {
                                assert(eligible@[b as int]);
                            }
                        }
                    }
                },
            }
        }
        n = n + 1;
    }
    proof {
        lemma_least_choice_determined(
            keys@,
            eligible@,
            match best {
                Some(i) => Some(i as int),
                None => None,
            },
        );
    }
    best
}

/// A spot drawn at `distances` from the things to keep away from is clear:
/// none of them lies closer than `safe_radius`.
pub open spec fn clear_of(distances: Seq<F32Bits>, safe_radius: F32Bits) -> bool {
    forall|k: int| 0 <= k < distances.len() ==> !(#[trigger] distances[k]).less_than(safe_radius)
}

/// The first of the drawn spots that is clear, each given by its distances to
/// the things to keep away from; none when no spot is clear.
pub fn first_clear_attempt(attempt_distances: &Vec<Vec<F32Bits>>, safe_radius: F32Bits) -> (r:
    Option<usize>)
    ensures
        match r {
            Some(i) => {
                &&& i < attempt_distances.len()
                &&& clear_of(attempt_distances@[i as int]@, safe_radius)
                &&& forall|j: int| 0 <= j < i ==> !clear_of(#[trigger] attempt_distances@[j]@, safe_radius)
            },
            None => forall|j: int|
                0 <= j < attempt_distances.len() ==> !clear_of(#[trigger] attempt_distances@[j]@, safe_radius),
        },
{
    let mut i: usize = 0;
    while i < attempt_distances.len()
        invariant
            i <= attempt_distances.len(),
            forall|j: int| 0 <= j < i ==> !clear_of(#[trigger] attempt_distances@[j]@, safe_radius),
        decreases attempt_distances.len() - i,
    {
        let distances = &attempt_distances[i];
        let mut k: usize = 0;
        let mut clear = true;
        while k < distances.len()
            invariant
                k <= distances.len(),
                clear <==> forall|m: int| 0 <= m < k ==> !(#[trigger] distances@[m]).less_than(safe_radius),
            decreases distances.len() - k,
        {
            if distances[k].lt(&safe_radius) {
                clear = false;
            }
            k = k + 1;
        }
        if clear {
            return Some(i);
        }
        i = i + 1;
    }
    None
}


/// A drawn spot is clear exactly when none of the things to keep away from
/// lies strictly closer than the safe radius; one lying exactly at the safe
/// radius does not spoil it.
pub proof fn lemma_clear_spots(distances: Seq<F32Bits>, safe_radius: F32Bits)
    ensures
        clear_of(distances, safe_radius) <==> forall|k: int|
            0 <= k < distances.len() ==> !(#[trigger] distances[k]).less_than(safe_radius),
        !clear_of(distances, safe_radius) <==> exists|k: int|
            0 <= k < distances.len() && (#[trigger] distances[k]).less_than(safe_radius),
        (forall|k: int| 0 <= k < distances.len() ==> (#[trigger] distances[k]).same_value(safe_radius))
            ==> clear_of(distances, safe_radius),
{
}

} // verus!
