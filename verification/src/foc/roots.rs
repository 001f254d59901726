//! Exact integer square roots.
use vstd::arithmetic::power2::*;
use vstd::prelude::*;

verus! {

/// `root` is the largest integer whose square does not exceed `radicand`.
pub open spec fn is_isqrt(radicand: int, root: int) -> bool {
    &&& 0 <= root
    &&& root * root <= radicand
    &&& radicand < (root + 1) * (root + 1)
}

/// Square root rounded down.
pub open spec fn isqrt(radicand: int) -> int {
    choose|root: int| is_isqrt(radicand, root)
}

/// Square root rounded up.
pub open spec fn isqrt_ceil(radicand: int) -> int {
    let floor = isqrt(radicand);
    if floor * floor == radicand {
        floor
    } else {
        floor + 1
    }
}

/// There is only one floor root, so finding one determines `isqrt`.
pub proof fn lemma_isqrt_unique(radicand: int, root: int)
    requires
        is_isqrt(radicand, root),
    ensures
        isqrt(radicand) == root,
{
    let other = isqrt(radicand);
    assert(is_isqrt(radicand, other));
    if other < root {
        assert((other + 1) * (other + 1) <= root * root) by (nonlinear_arith)
            requires
                0 <= other + 1 <= root,
        ;
    }
    if root < other {
        assert((root + 1) * (root + 1) <= other * other) by (nonlinear_arith)
            requires
                0 <= root + 1 <= other,
        ;
    }
}

/// Every natural number has a floor root.
pub proof fn lemma_isqrt(radicand: int)
    requires
        0 <= radicand,
    ensures
        is_isqrt(radicand, isqrt(radicand)),
{
    lemma_isqrt_exists(radicand);
}

proof fn lemma_isqrt_exists(radicand: int)
    requires
        0 <= radicand,
    ensures
        exists|root: int| is_isqrt(radicand, root),
    decreases radicand,
{
    if radicand == 0 {
        assert(is_isqrt(0, 0));
    } else {
        let smaller = radicand - 1;
        lemma_isqrt_exists(smaller);
        let root = choose|root: int| is_isqrt(smaller, root);
        if radicand < (root + 1) * (root + 1) {
            assert(is_isqrt(radicand, root));
        } else {
            assert((root + 1) * (root + 1) < (root + 2) * (root + 2)) by (nonlinear_arith)
                requires
                    0 <= root,
            ;
            assert(is_isqrt(radicand, root + 1));
        }
    }
}

/// The rounded-up root is the smallest integer whose square reaches
/// `radicand`.
pub proof fn lemma_isqrt_ceil(radicand: int)
    requires
        0 <= radicand,
    ensures
        0 <= isqrt_ceil(radicand),
        radicand <= isqrt_ceil(radicand) * isqrt_ceil(radicand),
        radicand > 0 ==> (isqrt_ceil(radicand) - 1) * (isqrt_ceil(radicand) - 1) < radicand,
        radicand > 0 ==> isqrt_ceil(radicand) > 0,
{
    lemma_isqrt(radicand);
    let floor = isqrt(radicand);
    let ceil = isqrt_ceil(radicand);
    if floor * floor == radicand {
        if radicand > 0 {
            assert(floor > 0) by (nonlinear_arith)
                requires
                    floor * floor > 0,
                    0 <= floor,
            ;
            assert((floor - 1) * (floor - 1) < floor * floor) by (nonlinear_arith)
                requires
                    0 < floor,
            ;
        }
    } else {
        assert((ceil - 1) * (ceil - 1) == floor * floor);
    }
}

/// A bound on the radicand bounds the root.
pub proof fn lemma_isqrt_bound(radicand: int, bound: int)
    requires
        0 <= radicand <= bound * bound,
        0 <= bound,
    ensures
        0 <= isqrt(radicand) <= bound,
        0 <= isqrt_ceil(radicand) <= bound,
{
    lemma_isqrt(radicand);
    let root = isqrt(radicand);
    if root > bound {
        assert(root * root > bound * bound) by (nonlinear_arith)
            requires
                0 <= bound < root,
        ;
    }
    if root == bound {
        assert(root * root == bound * bound);
    }
}

/// Floor square root, one result bit per iteration.
pub fn integer_sqrt_u64(radicand: u64) -> (result: u64)
    ensures
        result == isqrt(radicand as int),
        result <= 0xffff_ffff,
{
    let mut remainder: u64 = radicand;
    let mut result: u64 = 0;
    let mut bit: u64 = 0x4000_0000_0000_0000;
    let ghost mut k: nat = 31;
    proof {
        lemma2_to64();
    }
    assert(pow2(31) * pow2(31) == 0x4000_0000_0000_0000) by (nonlinear_arith)
        requires
            pow2(31) == 0x8000_0000,
    ;
    while bit > remainder
        invariant
            remainder == radicand,
            k <= 31,
            bit != 0 ==> bit == pow2(k) * pow2(k) && radicand < 4 * bit,
            bit == 0 ==> radicand == 0,
        decreases bit,
    {
        let ghost before = bit;
        proof {
            lemma_quarter(before);
            lemma_square_halves(k);
            if k > 0 {
                k = (k - 1) as nat;
            }
        }
        bit = bit >> 2;
    }
    let ghost mut root: int = 0;
    proof {
        lemma_pow2_pos(k);
        lemma_pow2_le_2_31(k);
        assert((0 + 2 * pow2(k)) * (0 + 2 * pow2(k)) == 4 * (pow2(k) * pow2(k))) by (nonlinear_arith);
    }
    assert(result == 2 * root * pow2(k)) by (nonlinear_arith)
        requires
            result == 0,
            root == 0,
    ;
    while bit != 0
        invariant
            root >= 0,
            bit != 0 ==> {
                &&& k <= 31
                &&& bit == pow2(k) * pow2(k)
                &&& result == 2 * root * pow2(k)
                &&& remainder == radicand - root * root
                &&& radicand < (root + 2 * pow2(k)) * (root + 2 * pow2(k))
                &&& root + 2 * pow2(k) <= 0x1_0000_0000
            },
            bit == 0 ==> is_isqrt(radicand as int, root) && result == root && root <= 0xffff_ffff,
        decreases bit,
    {
        let ghost p: int = pow2(k) as int;
        let ghost before_bit = bit;
        let ghost before_result = result;
        proof {
            lemma_pow2_pos(k);
            lemma_quarter(bit);
            lemma_halve(result);
            lemma_square_halves(k);
            assert((root + p) * (root + p) == root * root + 2 * root * p + p * p) by (nonlinear_arith);
            assert((root + p) * (root + p) <= 0xffff_ffff * 0xffff_ffff) by (nonlinear_arith)
                requires
                    0 <= root,
                    0 < p,
                    root + p <= 0xffff_ffff,
            ;
            assert(root * root >= 0) by (nonlinear_arith);
            assert(before_result / 2 == root * p) by (nonlinear_arith)
                requires
                    before_result == 2 * root * p,
            ;
            if k > 0 {
                lemma_pow2_unfold(k);
                let h = pow2((k - 1) as nat) as int;
                assert(2 * (root + p) * h == (root + p) * p) by (nonlinear_arith)
                    requires
                        p == 2 * h,
                ;
                assert(2 * root * h == root * p) by (nonlinear_arith)
                    requires
                        p == 2 * h,
                ;
                assert((root + p) * p == root * p + p * p) by (nonlinear_arith);
            } else {
                lemma2_to64();
                assert((root + 1) * 1 == root + 1);
                assert(root * p == root) by (nonlinear_arith)
                    requires
                        p == 1,
                ;
                assert(p * p == 1) by (nonlinear_arith)
                    requires
                        p == 1,
                ;
            }
        }
        if remainder >= result + bit {
            remainder = remainder - (result + bit);
            result = (result >> 1) + bit;
            proof {
                root = root + p;
            }
        } else {
            result = result >> 1;
        }
        bit = bit >> 2;
        proof {
            if k > 0 {
                k = (k - 1) as nat;
            }
        }
    }
    proof {
        lemma_isqrt_unique(radicand as int, root);
    }
    result
}

proof fn lemma_quarter(x: u64)
    by (bit_vector)
    ensures
        x >> 2 == x / 4,
{
}

proof fn lemma_halve(x: u64)
    by (bit_vector)
    ensures
        x >> 1 == x / 2,
{
}

proof fn lemma_pow2_le_2_31(k: nat)
    requires
        k <= 31,
    ensures
        1 <= pow2(k) <= 0x8000_0000,
{
    lemma2_to64();
    lemma_pow2_pos(k);
    if k < 31 {
        lemma_pow2_strictly_increases(k, 31);
    }
}

proof fn lemma_square_halves(k: nat)
    ensures
        k > 0 ==> pow2(k) * pow2(k) / 4 == pow2((k - 1) as nat) * pow2((k - 1) as nat),
        k > 0 ==> (pow2(k) * pow2(k)) % 4 == 0,
        k > 0 ==> pow2((k - 1) as nat) * pow2((k - 1) as nat) > 0,
        k == 0 ==> pow2(k) * pow2(k) == 1,
{
    if k > 0 {
        lemma_pow2_unfold(k);
        let h = pow2((k - 1) as nat) as int;
        lemma_pow2_pos((k - 1) as nat);
        assert((2 * h) * (2 * h) == 4 * (h * h)) by (nonlinear_arith);
        assert(h * h > 0) by (nonlinear_arith)
            requires
                h > 0,
        ;
    } else {
        lemma2_to64();
        assert(pow2(0) * pow2(0) == 1) by (nonlinear_arith)
            requires
                pow2(0) == 1,
        ;
    }
}

/// Square root rounded up; never overflows since the root of a `u32` fits in
/// seventeen bits.
pub fn integer_sqrt_ceil_u32(radicand: u32) -> (result: u32)
    ensures
        result == isqrt_ceil(radicand as int),
        result <= 0x1_0000,
{
    let floor: u64 = integer_sqrt_u64(radicand as u64);
    proof {
        lemma_isqrt(radicand as int);
        assert(0x1_0000 * 0x1_0000 == 0x1_0000_0000) by (nonlinear_arith);
        lemma_isqrt_bound(radicand as int, 0x1_0000);
        assert(floor * floor <= 0x1_0000 * 0x1_0000) by (nonlinear_arith)
            requires
                0 <= floor <= 0x1_0000,
        ;
    }
    if floor * floor != radicand as u64 {
        (floor + 1) as u32
    } else {
        floor as u32
    }
}

} // verus!
