use vstd::prelude::*;

verus! {

/// The running best after the first `i` candidates were looked at, starting
/// from `init`: a candidate that was taken (`taken[j]`) becomes the best,
/// one that was not leaves it as it was.
pub open spec fn best_after<K>(init: K, keys: Seq<K>, taken: Seq<bool>, i: nat) -> K
    decreases i,
{
    if i == 0 {
        init
    } else if taken[i - 1] {
        keys[i - 1]
    } else {
        best_after(init, keys, taken, (i - 1) as nat)
    }
}

/// Index of the last candidate taken among the first `i`, if any was.
pub open spec fn last_taken(taken: Seq<bool>, i: nat) -> Option<int>
    decreases i,
{
    if i == 0 {
        None
    } else if taken[i - 1] {
        Some(i - 1)
    } else {
        last_taken(taken, (i - 1) as nat)
    }
}

/// `taken` records a scan of `keys` from `init` in which each candidate was
/// compared, by `improves`, with the best of the candidates before it.
pub open spec fn is_scan<K, F: Fn(&K, &K) -> bool>(
    init: K,
    keys: Seq<K>,
    improves: F,
    taken: Seq<bool>,
) -> bool {
    &&& taken.len() == keys.len()
    &&& forall|i: int|
        0 <= i < keys.len() ==> #[trigger] call_ensures(
            improves,
            (&keys[i], &best_after(init, keys, taken, i as nat)),
            taken[i],
        )
}

/// Scans the candidates in order, keeping a running best that starts at
/// `init`: a candidate replaces the best when `improves(candidate, best)`.
/// Returns the final best and the index of the candidate it came from
/// (`None` when no candidate ever replaced `init`).
///
/// This is how a ray picks what it hits: the candidates are the distances
/// to each object along the ray, and `improves` accepts a distance that is
/// in front of the ray and nearer than the best so far. Ties go to the
/// earlier candidate, since a later one must improve strictly to be taken.
pub fn nearest_hit<K: Copy>(init: K, keys: &Vec<K>, improves: impl Fn(&K, &K) -> bool) -> (r: (
    K,
    Option<usize>,
))
    requires
        forall|a: &K, b: &K| call_requires(improves, (a, b)),
    ensures
        exists|taken: Seq<bool>|
            {
                &&& #[trigger] is_scan(init, keys@, improves, taken)
                &&& r.0 == best_after(init, keys@, taken, keys@.len())
                &&& (match last_taken(taken, keys@.len()) {
                    Some(i) => r.1 matches Some(w) && w == i,
                    None => r.1 is None,
                })
                &&& (match r.1 {
                    Some(w) => {
                        &&& w < keys@.len()
                        &&& taken[w as int]
                        &&& r.0 == keys@[w as int]
                        &&& forall|j: int| w < j < keys@.len() ==> !#[trigger] taken[j]
                    },
                    None => {
                        &&& r.0 == init
                        &&& forall|j: int| 0 <= j < keys@.len() ==> !#[trigger] taken[j]
                    },
                })
            },
{
    let mut best = init;
    let mut winner: Option<usize> = None;
    let ghost mut taken: Seq<bool> = Seq::empty();
    let n = keys.len();
    let mut i: usize = 0;
    while i < n
        invariant
            n == keys@.len(),
            i <= n,
            taken.len() == i,
            forall|a: &K, b: &K| call_requires(improves, (a, b)),
            forall|j: int|
                0 <= j < i ==> #[trigger] call_ensures(
                    improves,
                    (&keys@[j], &best_after(init, keys@, taken, j as nat)),
                    taken[j],
                ),
            best == best_after(init, keys@, taken, i as nat),
            (match last_taken(taken, i as nat) {
                Some(k) => winner matches Some(w) && w == k,
                None => winner is None,
            }),
        decreases n - i,
    {
        let candidate = keys[i];
        let take = improves(&candidate, &best);
        let ghost prev = taken;
        proof {
            taken = taken.push(take);
            assert forall|j: int| 0 <= j <= i implies #[trigger] best_after(init, keys@, taken, j as nat)
                == best_after(init, keys@, prev, j as nat) by {
                lemma_best_after_prefix(init, keys@, prev, taken, j as nat);
            }
            lemma_last_taken_prefix(prev, taken, i as nat);
        }
        let ghost old_best = best;
        if take {
            best = candidate;
            winner = Some(i);
        }
        proof {
            assert(taken[i as int] == take);
            lemma_best_after_prefix(init, keys@, prev, taken, i as nat);
            assert(old_best == best_after(init, keys@, taken, i as nat));
            assert(best_after(init, keys@, taken, (i + 1) as nat) == if take {
                keys@[i as int]
            } else {
                best_after(init, keys@, taken, i as nat)
            });
        }
        i = i + 1;
    }
    proof {
        assert(is_scan(init, keys@, improves, taken));
        lemma_scan_result(init, keys@, taken, n as nat);
    }
    (best, winner)
}

/// Before any candidate is looked at, the best is the starting value and no
/// candidate has been taken.
pub proof fn lemma_scan_start<K>(init: K, keys: Seq<K>, taken: Seq<bool>)
    ensures
        best_after(init, keys, taken, 0) == init,
        last_taken(taken, 0) is None,
{
}

/// One step of the scan, for every position, the first included: a candidate
/// that is taken becomes the best and the last one taken; a candidate that
/// is not taken changes neither.
pub proof fn lemma_scan_step<K>(init: K, keys: Seq<K>, taken: Seq<bool>, i: nat)
    requires
        i < taken.len(),
        i < keys.len(),
    ensures
        taken[i as int] ==> best_after(init, keys, taken, i + 1) == keys[i as int] && last_taken(
            taken,
            i + 1,
        ) == Some(i as int),
        !taken[i as int] ==> best_after(init, keys, taken, i + 1) == best_after(init, keys, taken, i)
            && last_taken(taken, i + 1) == last_taken(taken, i),
{
}

/// What a scan of the first `n` candidates comes to: when some candidate
/// was taken, the best is the key of the last one taken, and no later one
/// was taken; when none was, the best is still the starting value.
pub proof fn lemma_scan_result<K>(init: K, keys: Seq<K>, taken: Seq<bool>, n: nat)
    requires
        n <= taken.len(),
        n <= keys.len(),
    ensures
        (match last_taken(taken, n) {
            Some(w) => {
                &&& 0 <= w < n
                &&& taken[w]
                &&& best_after(init, keys, taken, n) == keys[w]
                &&& forall|j: int| w < j < n ==> !#[trigger] taken[j]
            },
            None => {
                &&& best_after(init, keys, taken, n) == init
                &&& forall|j: int| 0 <= j < n ==> !#[trigger] taken[j]
            },
        }),
    decreases n,
{
    if n > 0 {
        lemma_scan_result(init, keys, taken, (n - 1) as nat);
    }
}

/// The running best after `i` candidates depends only on the first `i`
/// decisions.
proof fn lemma_best_after_prefix<K>(init: K, keys: Seq<K>, a: Seq<bool>, b: Seq<bool>, i: nat)
    requires
        i <= a.len(),
        a.len() <= b.len(),
        forall|j: int| 0 <= j < a.len() ==> a[j] == b[j],
    ensures
        best_after(init, keys, a, i) == best_after(init, keys, b, i),
    decreases i,
{
    if i > 0 {
        lemma_best_after_prefix(init, keys, a, b, (i - 1) as nat);
    }
}

/// The last decision taken among the first `i` depends only on those decisions.
proof fn lemma_last_taken_prefix(a: Seq<bool>, b: Seq<bool>, i: nat)
    requires
        i <= a.len(),
        a.len() <= b.len(),
        forall|j: int| 0 <= j < a.len() ==> a[j] == b[j],
    ensures
        last_taken(a, i) == last_taken(b, i),
    decreases i,
{
    if i > 0 {
        lemma_last_taken_prefix(a, b, (i - 1) as nat);
    }
}

} // verus!
