use vstd::prelude::*;

verus! {

/// How many times `x` occurs in `s`.
pub open spec fn occurrences(s: Seq<i32>, x: i32) -> nat
    decreases s.len(),
{
    if s.len() == 0 {
        0
    } else {
        occurrences(s.drop_last(), x) + (if s.last() == x { 1nat } else { 0nat })
    }
}

/// `x` occurs in `s`, and no value occurs more often.
pub open spec fn is_mode(s: Seq<i32>, x: i32) -> bool {
    s.contains(x) && forall|y: i32| occurrences(s, y) <= occurrences(s, x)
}

/// A value absent from `s` occurs zero times; none occurs more often than
/// `s` is long.
pub proof fn occurrences_bounds(s: Seq<i32>, x: i32)
    ensures
        occurrences(s, x) <= s.len(),
        !s.contains(x) ==> occurrences(s, x) == 0,
        s.contains(x) ==> occurrences(s, x) >= 1,
    decreases s.len(),
{
    if s.len() > 0 {
        let p = s.drop_last();
        occurrences_bounds(p, x);
        if !s.contains(x) {
            assert(!p.contains(x)) by {
                if p.contains(x) {
                    let k = choose|k: int| 0 <= k < p.len() && p[k] == x;
                    assert(s[k] == x);
                }
            }
            assert(s[s.len() - 1] != x);
        }
        if s.contains(x) && s.last() != x {
            let k = choose|k: int| 0 <= k < s.len() && s[k] == x;
            assert(p[k] == x);
        }
    }
}

/// The sum of a sequence of integers.
pub open spec fn sum_of(s: Seq<i32>) -> int
    decreases s.len(),
{
    if s.len() == 0 {
        0
    } else {
        sum_of(s.drop_last()) + s.last()
    }
}

/// The exact sum of `numbers`; `i128` holds it for any slice length.
pub fn total(numbers: &[i32]) -> (r: i128)
    ensures
        r == sum_of(numbers@),
{
    let mut sum: i128 = 0;
    let mut i: usize = 0;
    while i < numbers.len()
        invariant
            i <= numbers@.len(),
            sum == sum_of(numbers@.subrange(0, i as int)),
            -0x8000_0000 * (i as int) <= sum <= 0x8000_0000 * (i as int),
        decreases numbers@.len() - i,
    {
        assert(numbers@.subrange(0, i + 1).drop_last() =~= numbers@.subrange(0, i as int));
        sum = sum + numbers[i] as i128;
        i = i + 1;
    }
    assert(numbers@.subrange(0, numbers@.len() as int) =~= numbers@);
    sum
}

pub open spec fn is_sorted(s: Seq<i32>) -> bool {
    forall|a: int, b: int| 0 <= a <= b < s.len() ==> s[a] <= s[b]
}

/// `s` holds the values of `t`, each as often, in ascending order.
pub open spec fn is_sorted_copy(s: Seq<i32>, t: Seq<i32>) -> bool {
    is_sorted(s) && s.to_multiset() == t.to_multiset()
}

/// Relies on `slice::sort`: the same values, each as often, in ascending
/// order.
#[verifier::external_body]
fn sort_values(v: &mut Vec<i32>)
    ensures
        is_sorted_copy(final(v)@, old(v)@),
{
    v.sort()
}

/// The two middle values of `numbers` in ascending order: the values at
/// places `(n - 1) / 2` and `n / 2` of its sorted copy, one and the same
/// place when the length `n` is odd.
pub fn middle_values(numbers: &[i32]) -> (r: (i32, i32))
    requires
        numbers@.len() > 0,
    ensures
        exists|s: Seq<i32>|
            is_sorted_copy(s, numbers@) && s.len() == numbers@.len() && r.0 == s[(s.len() - 1) / 2]
                && r.1 == s[s.len() as int / 2],
{
    let mut sorted: Vec<i32> = Vec::new();
    let mut i: usize = 0;
    while i < numbers.len()
        invariant
            i <= numbers@.len(),
            sorted@ == numbers@.subrange(0, i as int),
        decreases numbers@.len() - i,
    {
        sorted.push(numbers[i]);
        i = i + 1;
    }
    assert(sorted@ =~= numbers@);
    sort_values(&mut sorted);
    proof {
        sorted@.to_multiset_ensures();
        numbers@.to_multiset_ensures();
    }
    let n = sorted.len();
    let r = (sorted[(n - 1) / 2], sorted[n / 2]);
    assert(is_sorted_copy(sorted@, numbers@));
    r
}

/// The values that occur most often in `numbers`, each once, in the order of
/// their first occurrence; empty for an empty list.
pub fn get_mode(numbers: &[i32]) -> (r: Vec<i32>)
    ensures
        r@.no_duplicates(),
        forall|x: i32| r@.contains(x) <==> is_mode(numbers@, x),
{
    // Distinct values in order of first occurrence, with how often each
    // occurs in the part of the list read so far.
    let mut keys: Vec<i32> = Vec::new();
    let mut counts: Vec<usize> = Vec::new();
    let mut i: usize = 0;
    while i < numbers.len()
        invariant
            i <= numbers@.len(),
            keys@.len() == counts@.len(),
            keys@.no_duplicates(),
            forall|k: int|
                0 <= k < keys@.len() ==> #[trigger] counts@[k] == occurrences(
                    numbers@.subrange(0, i as int),
                    keys@[k],
                ),
            forall|x: i32| numbers@.subrange(0, i as int).contains(x) <==> keys@.contains(x),
        decreases numbers@.len() - i,
    {
        let x = numbers[i];
        let ghost prev = numbers@.subrange(0, i as int);
        let ghost next = numbers@.subrange(0, i + 1);
        assert(next.drop_last() =~= prev);
        assert(next.last() == x);
        let mut k: usize = 0;
        while k < keys.len() && keys[k] != x
            invariant
                k <= keys@.len(),
                forall|j: int| 0 <= j < k ==> keys@[j] != x,
            decreases keys@.len() - k,
        {
            k = k + 1;
        }
        let ghost old_keys = keys@;
        let ghost old_counts = counts@;
        if k < keys.len() {
            proof {
                occurrences_bounds(prev, x);
            }
            let c = counts[k] + 1;
            counts.set(k, c);
        } else {
            keys.push(x);
            counts.push(1);
            proof {
                occurrences_bounds(prev, x);
                assert forall|a: int, b: int|
                    0 <= a < keys@.len() && 0 <= b < keys@.len() && a != b implies keys@[a]
                    != keys@[b] by {
                    if a < old_keys.len() && b < old_keys.len() {
                        assert(old_keys[a] != old_keys[b]);
                    }
                }
            }
        }
        assert forall|j: int| 0 <= j < keys@.len() implies #[trigger] counts@[j] == occurrences(
            next,
            keys@[j],
        ) by {
            assert(occurrences(next, keys@[j]) == occurrences(prev, keys@[j]) + (if x == keys@[j] {
                1nat
            } else {
                0nat
            }));
            if j < old_keys.len() {
                assert(old_counts[j] == occurrences(prev, old_keys[j]));
            } else {
                assert(!old_keys.contains(x));
                assert(!prev.contains(x));
            }
        }
        assert forall|y: i32| next.contains(y) <==> keys@.contains(y) by {
            if next.contains(y) {
                let t = choose|t: int| 0 <= t < next.len() && next[t] == y;
                if t < i {
                    assert(prev[t] == y);
                    assert(prev.contains(y));
                    assert(old_keys.contains(y));
                    let u = choose|u: int| 0 <= u < old_keys.len() && old_keys[u] == y;
                    assert(keys@[u] == y);
                } else {
                    assert(keys@[k as int] == y);
                }
            }
            if keys@.contains(y) {
                let u = choose|u: int| 0 <= u < keys@.len() && keys@[u] == y;
                if u < old_keys.len() {
                    assert(old_keys.contains(y));
                    assert(prev.contains(y));
                    let t = choose|t: int| 0 <= t < prev.len() && prev[t] == y;
                    assert(next[t] == y);
                } else {
                    assert(next[i as int] == y);
                }
            }
        }
        i = i + 1;
    }
    assert(numbers@.subrange(0, numbers@.len() as int) =~= numbers@);

    // The highest count, and where it stands.
    let mut best: usize = 0;
    let mut j: usize = 1;
    while j < counts.len()
        invariant
            counts@.len() > 0 ==> best < j <= counts@.len(),
            j >= 1,
            forall|t: int| 0 <= t < j && t < counts@.len() ==> counts@[t] <= counts@[best as int],
        decreases counts@.len() - j,
    {
        if counts[j] > counts[best] {
            best = j;
        }
        j = j + 1;
    }

    let mut r: Vec<i32> = Vec::new();
    if counts.len() == 0 {
        proof {
            assert forall|x: i32| !is_mode(numbers@, x) by {
                if numbers@.contains(x) {
                    assert(keys@.contains(x));
                }
            }
        }
        return r;
    }
    let max = counts[best];
    let mut n: usize = 0;
    while n < keys.len()
        invariant
            n <= keys@.len(),
            keys@.len() == counts@.len(),
            keys@.no_duplicates(),
            r@.no_duplicates(),
            forall|x: i32|
                r@.contains(x) <==> (keys@.subrange(0, n as int).contains(x) && occurrences(
                    numbers@,
                    x,
                ) == max),
            forall|k: int|
                0 <= k < keys@.len() ==> #[trigger] counts@[k] == occurrences(numbers@, keys@[k]),
        decreases keys@.len() - n,
    {
        let ghost old_r = r@;
        let key = keys[n];
        proof {
            assert(!keys@.subrange(0, n as int).contains(key)) by {
                if keys@.subrange(0, n as int).contains(key) {
                    let pre = keys@.subrange(0, n as int);
                    let t = choose|t: int| 0 <= t < pre.len() && pre[t] == key;
                    assert(keys@[t] == keys@[n as int]);
                }
            }
        }
        if counts[n] == max {
            r.push(key);
            proof {
                assert forall|a: int, b: int|
                    0 <= a < r@.len() && 0 <= b < r@.len() && a != b implies r@[a] != r@[b] by {
                    if a < old_r.len() && b < old_r.len() {
                        assert(old_r[a] != old_r[b]);
                    } else if a < old_r.len() {
                        assert(old_r.contains(r@[a]));
                    } else if b < old_r.len() {
                        assert(old_r.contains(r@[b]));
                    }
                }
            }
        }
        proof {
            let ghost pre = keys@.subrange(0, n as int);
            let ghost post = keys@.subrange(0, n + 1);
            assert forall|x: i32|
                r@.contains(x) <==> (post.contains(x) && occurrences(numbers@, x) == max) by {
                if post.contains(x) {
                    let t = choose|t: int| 0 <= t < post.len() && post[t] == x;
                    if t < n {
                        assert(pre[t] == x);
                    }
                }
                if pre.contains(x) {
                    let t = choose|t: int| 0 <= t < pre.len() && pre[t] == x;
                    assert(post[t] == x);
                }
                if r@.contains(x) && !old_r.contains(x) {
                    assert(x == key);
                    assert(post[n as int] == x);
                }
                if old_r.contains(x) {
                    let t = choose|t: int| 0 <= t < old_r.len() && old_r[t] == x;
                    assert(r@[t] == x);
                }
                if x == key && counts@[n as int] == max {
                    assert(r@[r@.len() - 1] == x);
                }
            }
        }
        n = n + 1;
    }
    proof {
        assert(keys@.subrange(0, keys@.len() as int) =~= keys@);
        assert forall|x: i32| r@.contains(x) <==> is_mode(numbers@, x) by {
            if keys@.contains(x) {
                let u = choose|u: int| 0 <= u < keys@.len() && keys@[u] == x;
                assert(counts@[u] == occurrences(numbers@, x));
            }
            if r@.contains(x) {
                assert forall|y: i32| occurrences(numbers@, y) <= occurrences(numbers@, x) by {
                    occurrences_bounds(numbers@, y);
                    if keys@.contains(y) {
                        let v = choose|v: int| 0 <= v < keys@.len() && keys@[v] == y;
                        assert(counts@[v] == occurrences(numbers@, y));
                    }
                }
            }
            if is_mode(numbers@, x) {
                assert(keys@.contains(x));
                assert(counts@[best as int] == occurrences(numbers@, keys@[best as int]));
                assert(occurrences(numbers@, keys@[best as int]) <= occurrences(numbers@, x));
            }
        }
    }
    r
}

} // verus!
