use vstd::arithmetic::div_mod::{
    lemma_mod_sub_multiples_vanish, lemma_mod_twice, lemma_mul_mod_noop_left,
    lemma_mul_mod_noop_right, lemma_small_mod,
};
use vstd::arithmetic::mul::lemma_mul_is_associative;
use vstd::prelude::*;
use vstd::wrapping::{
    i128_specs, i16_specs, i32_specs, i64_specs, i8_specs, isize_specs, u128_specs, u16_specs,
    u32_specs, u64_specs, u8_specs, usize_specs,
};

verus! {

/// The element types that vectors and matrices can do arithmetic on.
///
/// Addition and multiplication are those of the type itself, wrapping on
/// overflow (the release-build behaviour of Rust's integer operators), and
/// the zero is the additive identity that sums start from.
pub trait Numeric: Copy + Sized {
    spec fn spec_zero() -> Self;

    spec fn spec_add(a: Self, b: Self) -> Self;

    spec fn spec_mul(a: Self, b: Self) -> Self;

    fn zero() -> (r: Self)
        ensures
            r == Self::spec_zero(),
    ;

    fn add_elem(self, other: Self) -> (r: Self)
        ensures
            r == Self::spec_add(self, other),
    ;

    fn mul_elem(self, other: Self) -> (r: Self)
        ensures
            r == Self::spec_mul(self, other),
    ;

    /// Multiplication is associative.
    proof fn lemma_mul_assoc(a: Self, b: Self, c: Self)
        ensures
            Self::spec_mul(Self::spec_mul(a, b), c) == Self::spec_mul(a, Self::spec_mul(b, c)),
    ;
}

/// If `p` stands for `a * b` and `q` for `b * c` modulo `m`, then `p * c`
/// and `a * q` agree modulo `m`.
proof fn lemma_mod_mul_assoc(a: int, b: int, c: int, p: int, q: int, m: int)
    requires
        m > 0,
        p % m == (a * b) % m,
        q % m == (b * c) % m,
    ensures
        (p * c) % m == (a * q) % m,
{
    lemma_mul_mod_noop_left(p, c, m);
    lemma_mul_mod_noop_left(a * b, c, m);
    lemma_mul_mod_noop_right(a, q, m);
    lemma_mul_mod_noop_right(a, b * c, m);
    lemma_mul_is_associative(a, b, c);
}

/// A value in `[0, m)` or in `[-m, 0)` that is congruent to `x % m` is
/// congruent to `x`.
proof fn lemma_crop_congruent(x: int, p: int, m: int)
    requires
        m > 0,
        p == x % m || p == x % m - m,
    ensures
        p % m == x % m,
{
    lemma_mod_twice(x, m);
    if p == x % m - m {
        lemma_mod_sub_multiples_vanish(x % m, m);
    }
}

impl Numeric for i8 {
    open spec fn spec_zero() -> i8 {
        0
    }

    open spec fn spec_add(a: i8, b: i8) -> i8 {
        i8_specs::wrapping_add(a, b)
    }

    open spec fn spec_mul(a: i8, b: i8) -> i8 {
        i8_specs::wrapping_mul(a, b)
    }

    fn zero() -> (r: i8) {
        0
    }

    fn add_elem(self, other: i8) -> (r: i8) {
        self.wrapping_add(other)
    }

    fn mul_elem(self, other: i8) -> (r: i8) {
        self.wrapping_mul(other)
    }

    proof fn lemma_mul_assoc(a: i8, b: i8, c: i8) {
        let m: int = 0x100;
        let p = i8_specs::wrapping_mul(a, b) as int;
        let q = i8_specs::wrapping_mul(b, c) as int;
        lemma_crop_congruent(a * b, p, m);
        lemma_crop_congruent(b * c, q, m);
        lemma_mod_mul_assoc(a as int, b as int, c as int, p, q, m);
    }
}

impl Numeric for u8 {
    open spec fn spec_zero() -> u8 {
        0
    }

    open spec fn spec_add(a: u8, b: u8) -> u8 {
        u8_specs::wrapping_add(a, b)
    }

    open spec fn spec_mul(a: u8, b: u8) -> u8 {
        u8_specs::wrapping_mul(a, b)
    }

    fn zero() -> (r: u8) {
        0
    }

    fn add_elem(self, other: u8) -> (r: u8) {
        self.wrapping_add(other)
    }

    fn mul_elem(self, other: u8) -> (r: u8) {
        self.wrapping_mul(other)
    }

    proof fn lemma_mul_assoc(a: u8, b: u8, c: u8) {
        let m: int = 0x100;
        let p = u8_specs::wrapping_mul(a, b) as int;
        let q = u8_specs::wrapping_mul(b, c) as int;
        lemma_crop_congruent(a * b, p, m);
        lemma_crop_congruent(b * c, q, m);
        lemma_mod_mul_assoc(a as int, b as int, c as int, p, q, m);
    }
}

impl Numeric for i16 {
    open spec fn spec_zero() -> i16 {
        0
    }

    open spec fn spec_add(a: i16, b: i16) -> i16 {
        i16_specs::wrapping_add(a, b)
    }

    open spec fn spec_mul(a: i16, b: i16) -> i16 {
        i16_specs::wrapping_mul(a, b)
    }

    fn zero() -> (r: i16) {
        0
    }

    fn add_elem(self, other: i16) -> (r: i16) {
        self.wrapping_add(other)
    }

    fn mul_elem(self, other: i16) -> (r: i16) {
        self.wrapping_mul(other)
    }

    proof fn lemma_mul_assoc(a: i16, b: i16, c: i16) {
        let m: int = 0x1_0000;
        let p = i16_specs::wrapping_mul(a, b) as int;
        let q = i16_specs::wrapping_mul(b, c) as int;
        lemma_crop_congruent(a * b, p, m);
        lemma_crop_congruent(b * c, q, m);
        lemma_mod_mul_assoc(a as int, b as int, c as int, p, q, m);
    }
}

impl Numeric for u16 {
    open spec fn spec_zero() -> u16 {
        0
    }

    open spec fn spec_add(a: u16, b: u16) -> u16 {
        u16_specs::wrapping_add(a, b)
    }

    open spec fn spec_mul(a: u16, b: u16) -> u16 {
        u16_specs::wrapping_mul(a, b)
    }

    fn zero() -> (r: u16) {
        0
    }

    fn add_elem(self, other: u16) -> (r: u16) {
        self.wrapping_add(other)
    }

    fn mul_elem(self, other: u16) -> (r: u16) {
        self.wrapping_mul(other)
    }

    proof fn lemma_mul_assoc(a: u16, b: u16, c: u16) {
        let m: int = 0x1_0000;
        let p = u16_specs::wrapping_mul(a, b) as int;
        let q = u16_specs::wrapping_mul(b, c) as int;
        lemma_crop_congruent(a * b, p, m);
        lemma_crop_congruent(b * c, q, m);
        lemma_mod_mul_assoc(a as int, b as int, c as int, p, q, m);
    }
}

impl Numeric for i32 {
    open spec fn spec_zero() -> i32 {
        0
    }

    open spec fn spec_add(a: i32, b: i32) -> i32 {
        i32_specs::wrapping_add(a, b)
    }

    open spec fn spec_mul(a: i32, b: i32) -> i32 {
        i32_specs::wrapping_mul(a, b)
    }

    fn zero() -> (r: i32) {
        0
    }

    fn add_elem(self, other: i32) -> (r: i32) {
        self.wrapping_add(other)
    }

    fn mul_elem(self, other: i32) -> (r: i32) {
        self.wrapping_mul(other)
    }

    proof fn lemma_mul_assoc(a: i32, b: i32, c: i32) {
        let m: int = 0x1_0000_0000;
        let p = i32_specs::wrapping_mul(a, b) as int;
        let q = i32_specs::wrapping_mul(b, c) as int;
        lemma_crop_congruent(a * b, p, m);
        lemma_crop_congruent(b * c, q, m);
        lemma_mod_mul_assoc(a as int, b as int, c as int, p, q, m);
    }
}

impl Numeric for u32 {
    open spec fn spec_zero() -> u32 {
        0
    }

    open spec fn spec_add(a: u32, b: u32) -> u32 {
        u32_specs::wrapping_add(a, b)
    }

    open spec fn spec_mul(a: u32, b: u32) -> u32 {
        u32_specs::wrapping_mul(a, b)
    }

    fn zero() -> (r: u32) {
        0
    }

    fn add_elem(self, other: u32) -> (r: u32) {
        self.wrapping_add(other)
    }

    fn mul_elem(self, other: u32) -> (r: u32) {
        self.wrapping_mul(other)
    }

    proof fn lemma_mul_assoc(a: u32, b: u32, c: u32) {
        let m: int = 0x1_0000_0000;
        let p = u32_specs::wrapping_mul(a, b) as int;
        let q = u32_specs::wrapping_mul(b, c) as int;
        lemma_crop_congruent(a * b, p, m);
        lemma_crop_congruent(b * c, q, m);
        lemma_mod_mul_assoc(a as int, b as int, c as int, p, q, m);
    }
}

impl Numeric for i64 {
    open spec fn spec_zero() -> i64 {
        0
    }

    open spec fn spec_add(a: i64, b: i64) -> i64 {
        i64_specs::wrapping_add(a, b)
    }

    open spec fn spec_mul(a: i64, b: i64) -> i64 {
        i64_specs::wrapping_mul(a, b)
    }

    fn zero() -> (r: i64) {
        0
    }

    fn add_elem(self, other: i64) -> (r: i64) {
        self.wrapping_add(other)
    }

    fn mul_elem(self, other: i64) -> (r: i64) {
        self.wrapping_mul(other)
    }

    proof fn lemma_mul_assoc(a: i64, b: i64, c: i64) {
        let m: int = 0x1_0000_0000_0000_0000;
        let p = i64_specs::wrapping_mul(a, b) as int;
        let q = i64_specs::wrapping_mul(b, c) as int;
        lemma_crop_congruent(a * b, p, m);
        lemma_crop_congruent(b * c, q, m);
        lemma_mod_mul_assoc(a as int, b as int, c as int, p, q, m);
    }
}

impl Numeric for u64 {
    open spec fn spec_zero() -> u64 {
        0
    }

    open spec fn spec_add(a: u64, b: u64) -> u64 {
        u64_specs::wrapping_add(a, b)
    }

    open spec fn spec_mul(a: u64, b: u64) -> u64 {
        u64_specs::wrapping_mul(a, b)
    }

    fn zero() -> (r: u64) {
        0
    }

    fn add_elem(self, other: u64) -> (r: u64) {
        self.wrapping_add(other)
    }

    fn mul_elem(self, other: u64) -> (r: u64) {
        self.wrapping_mul(other)
    }

    proof fn lemma_mul_assoc(a: u64, b: u64, c: u64) {
        let m: int = 0x1_0000_0000_0000_0000;
        let p = u64_specs::wrapping_mul(a, b) as int;
        let q = u64_specs::wrapping_mul(b, c) as int;
        lemma_crop_congruent(a * b, p, m);
        lemma_crop_congruent(b * c, q, m);
        lemma_mod_mul_assoc(a as int, b as int, c as int, p, q, m);
    }
}

impl Numeric for i128 {
    open spec fn spec_zero() -> i128 {
        0
    }

    open spec fn spec_add(a: i128, b: i128) -> i128 {
        i128_specs::wrapping_add(a, b)
    }

    open spec fn spec_mul(a: i128, b: i128) -> i128 {
        i128_specs::wrapping_mul(a, b)
    }

    fn zero() -> (r: i128) {
        0
    }

    fn add_elem(self, other: i128) -> (r: i128) {
        self.wrapping_add(other)
    }

    fn mul_elem(self, other: i128) -> (r: i128) {
        self.wrapping_mul(other)
    }

    proof fn lemma_mul_assoc(a: i128, b: i128, c: i128) {
        let m: int = u128::MAX as int + 1;
        let p = i128_specs::wrapping_mul(a, b) as int;
        let q = i128_specs::wrapping_mul(b, c) as int;
        lemma_crop_congruent(a * b, p, m);
        lemma_crop_congruent(b * c, q, m);
        lemma_mod_mul_assoc(a as int, b as int, c as int, p, q, m);
    }
}

impl Numeric for u128 {
    open spec fn spec_zero() -> u128 {
        0
    }

    open spec fn spec_add(a: u128, b: u128) -> u128 {
        u128_specs::wrapping_add(a, b)
    }

    open spec fn spec_mul(a: u128, b: u128) -> u128 {
        u128_specs::wrapping_mul(a, b)
    }

    fn zero() -> (r: u128) {
        0
    }

    fn add_elem(self, other: u128) -> (r: u128) {
        self.wrapping_add(other)
    }

    fn mul_elem(self, other: u128) -> (r: u128) {
        self.wrapping_mul(other)
    }

    proof fn lemma_mul_assoc(a: u128, b: u128, c: u128) {
        let m: int = u128::MAX as int + 1;
        let p = u128_specs::wrapping_mul(a, b) as int;
        let q = u128_specs::wrapping_mul(b, c) as int;
        lemma_crop_congruent(a * b, p, m);
        lemma_crop_congruent(b * c, q, m);
        lemma_mod_mul_assoc(a as int, b as int, c as int, p, q, m);
    }
}

impl Numeric for isize {
    open spec fn spec_zero() -> isize {
        0
    }

    open spec fn spec_add(a: isize, b: isize) -> isize {
        isize_specs::wrapping_add(a, b)
    }

    open spec fn spec_mul(a: isize, b: isize) -> isize {
        isize_specs::wrapping_mul(a, b)
    }

    fn zero() -> (r: isize) {
        0
    }

    fn add_elem(self, other: isize) -> (r: isize) {
        self.wrapping_add(other)
    }

    fn mul_elem(self, other: isize) -> (r: isize) {
        self.wrapping_mul(other)
    }

    proof fn lemma_mul_assoc(a: isize, b: isize, c: isize) {
        let m: int = usize::MAX as int + 1;
        let p = isize_specs::wrapping_mul(a, b) as int;
        let q = isize_specs::wrapping_mul(b, c) as int;
        lemma_crop_congruent(a * b, p, m);
        lemma_crop_congruent(b * c, q, m);
        lemma_mod_mul_assoc(a as int, b as int, c as int, p, q, m);
    }
}

impl Numeric for usize {
    open spec fn spec_zero() -> usize {
        0
    }

    open spec fn spec_add(a: usize, b: usize) -> usize {
        usize_specs::wrapping_add(a, b)
    }

    open spec fn spec_mul(a: usize, b: usize) -> usize {
        usize_specs::wrapping_mul(a, b)
    }

    fn zero() -> (r: usize) {
        0
    }

    fn add_elem(self, other: usize) -> (r: usize) {
        self.wrapping_add(other)
    }

    fn mul_elem(self, other: usize) -> (r: usize) {
        self.wrapping_mul(other)
    }

    proof fn lemma_mul_assoc(a: usize, b: usize, c: usize) {
        let m: int = usize::MAX as int + 1;
        let p = usize_specs::wrapping_mul(a, b) as int;
        let q = usize_specs::wrapping_mul(b, c) as int;
        lemma_crop_congruent(a * b, p, m);
        lemma_crop_congruent(b * c, q, m);
        lemma_mod_mul_assoc(a as int, b as int, c as int, p, q, m);
    }
}

} // verus!
