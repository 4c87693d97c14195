use vstd::prelude::*;

verus! {

/// The Fibonacci sequence, starting 0, 1, 1, 2, ...
pub open spec fn fib_seq(k: nat) -> nat
    decreases k,
{
    if k == 0 {
        0
    } else if k == 1 {
        1
    } else {
        fib_seq((k - 1) as nat) + fib_seq((k - 2) as nat)
    }
}

/// The value that `fib` gives for `n`: zero up to 1, then the Fibonacci
/// number one place before `n`.
pub open spec fn fib_value(n: int) -> int {
    if n <= 1 {
        0
    } else {
        fib_seq((n - 1) as nat) as int
    }
}

/// The sequence never decreases.
pub proof fn fib_seq_monotonic(i: nat, j: nat)
    requires
        i <= j,
    ensures
        fib_seq(i) <= fib_seq(j),
    decreases j - i,
{
    if i < j {
        fib_seq_monotonic(i, (j - 1) as nat);
        if j >= 2 {
            assert(fib_seq(j) == fib_seq((j - 1) as nat) + fib_seq((j - 2) as nat));
        }
    }
}

/// The largest place whose value still fits in `i32`.
proof fn fib_seq_46()
    ensures
        fib_seq(46) == 1836311903,
{
    assert(fib_seq(0) == 0);
    assert(fib_seq(1) == 1);
    assert(fib_seq(2) == 1);
    assert(fib_seq(3) == 2);
    assert(fib_seq(4) == 3);
    assert(fib_seq(5) == 5);
    assert(fib_seq(6) == 8);
    assert(fib_seq(7) == 13);
    assert(fib_seq(8) == 21);
    assert(fib_seq(9) == 34);
    assert(fib_seq(10) == 55);
    assert(fib_seq(11) == 89);
    assert(fib_seq(12) == 144);
    assert(fib_seq(13) == 233);
    assert(fib_seq(14) == 377);
    assert(fib_seq(15) == 610);
    assert(fib_seq(16) == 987);
    assert(fib_seq(17) == 1597);
    assert(fib_seq(18) == 2584);
    assert(fib_seq(19) == 4181);
    assert(fib_seq(20) == 6765);
    assert(fib_seq(21) == 10946);
    assert(fib_seq(22) == 17711);
    assert(fib_seq(23) == 28657);
    assert(fib_seq(24) == 46368);
    assert(fib_seq(25) == 75025);
    assert(fib_seq(26) == 121393);
    assert(fib_seq(27) == 196418);
    assert(fib_seq(28) == 317811);
    assert(fib_seq(29) == 514229);
    assert(fib_seq(30) == 832040);
    assert(fib_seq(31) == 1346269);
    assert(fib_seq(32) == 2178309);
    assert(fib_seq(33) == 3524578);
    assert(fib_seq(34) == 5702887);
    assert(fib_seq(35) == 9227465);
    assert(fib_seq(36) == 14930352);
    assert(fib_seq(37) == 24157817);
    assert(fib_seq(38) == 39088169);
    assert(fib_seq(39) == 63245986);
    assert(fib_seq(40) == 102334155);
    assert(fib_seq(41) == 165580141);
    assert(fib_seq(42) == 267914296);
    assert(fib_seq(43) == 433494437);
    assert(fib_seq(44) == 701408733);
    assert(fib_seq(45) == 1134903170);
    assert(fib_seq(46) == 1836311903);
}

/// The Fibonacci number one place before `n` (zero for `n` up to 1); inputs
/// past 47 would overflow `i32`.
pub fn fib(n: i32) -> (r: i32)
    requires
        n <= 47,
    ensures
        r == fib_value(n as int),
{
    if n <= 1 {
        return 0;
    }
    let mut a: i32 = 1;
    let mut b: i32 = 0;
    let mut sum: i32;
    proof {
        fib_seq_46();
    }
    for i in 2..n
        invariant
            2 <= n <= 47,
            a == fib_seq((i - 1) as nat),
            b == fib_seq((i - 2) as nat),
            fib_seq(46) == 1836311903,
    {
        proof {
            fib_seq_monotonic(i as nat, 46);
        }
        sum = a + b;
        b = a;
        a = sum;
    }
    a
}

} // verus!
