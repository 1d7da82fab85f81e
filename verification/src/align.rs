//! Power-of-two alignment helpers
use vstd::prelude::*;
use vstd::arithmetic::power2::{pow2, lemma2_to64, lemma_pow2_pos};
use vstd::bits::{low_bits_mask, lemma_u64_low_bits_mask_is_mod};

verus! {

/// `align` is a power of two that fits a `u64`
pub open spec fn is_power_of_two(align: u64) -> bool {
    exists|k: nat| k < 64 && align == pow2(k)
}

/// The page and huge page sizes are powers of two
pub proof fn lemma_page_sizes_are_powers_of_two()
    ensures
        is_power_of_two(4096),
        is_power_of_two(0x20_0000),
        is_power_of_two(1),
{
    lemma2_to64();
    assert(4096 == pow2(12));
    assert(0x20_0000 == pow2(21));
    assert(1 == pow2(0));
}

/// The greatest multiple of `align` that is not above `value`
pub open spec fn spec_align_down(value: u64, align: u64) -> int
    recommends
        align > 0,
{
    value - value % align
}

/// The least multiple of `align` that is not below `value`
pub open spec fn spec_align_up(value: u64, align: u64) -> int
    recommends
        align > 0,
{
    if value % align == 0 {
        value as int
    } else {
        value - value % align + align
    }
}

/// A power of two is positive
pub proof fn lemma_power_of_two_positive(align: u64)
    requires
        is_power_of_two(align),
    ensures
        align > 0,
{
    let k = choose|k: nat| k < 64 && align == pow2(k);
    lemma_pow2_pos(k);
}

proof fn lemma_mask_is_mod(value: u64, align: u64)
    requires
        is_power_of_two(align),
    ensures
        align > 0,
        value & !((align - 1) as u64) == value - value % align,
{
    let k = choose|k: nat| k < 64 && align == pow2(k);
    lemma_pow2_pos(k);
    lemma_u64_low_bits_mask_is_mod(value, k);
    assert(low_bits_mask(k) == pow2(k) - 1);
    let m = (align - 1) as u64;
    assert(value & !m == value - (value & m)) by (bit_vector);
}

/// Returns `value` aligned down to `align`, which must be a power of two
pub fn align_down(value: u64, align: u64) -> (r: u64)
    requires
        is_power_of_two(align),
    ensures
        r == spec_align_down(value, align),
        r % align == 0,
        r <= value,
        value - r < align,
{
    proof {
        lemma_mask_is_mod(value, align);
        assert((value - value % align) % (align as int) == 0) by (nonlinear_arith)
            requires
                align > 0,
        {
            vstd::arithmetic::div_mod::lemma_fundamental_div_mod(value as int, align as int);
            vstd::arithmetic::div_mod::lemma_mod_multiples_basic(value as int / align as int, align as int);
        }
    }
    value & !(align - 1)
}

/// Returns `value` aligned up to `align`, which must be a power of two
pub fn align_up(value: u64, align: u64) -> (r: u64)
    requires
        is_power_of_two(align),
        value + align - 1 <= u64::MAX,
    ensures
        r == spec_align_up(value, align),
        r % align == 0,
        r >= value,
        r - value < align,
{
    proof {
        lemma_mask_is_mod(value, align);
    }
    let bumped = value + (align - 1);
    let r = align_down(bumped, align);
    proof {
        let v = value as int;
        let a = align as int;
        let q = v / a;
        let m = v % a;
        vstd::arithmetic::div_mod::lemma_fundamental_div_mod(v, a);
        vstd::arithmetic::div_mod::lemma_mod_bound(v, a);
        if m == 0 {
            assert(v + a - 1 == q * a + (a - 1));
            vstd::arithmetic::div_mod::lemma_fundamental_div_mod_converse(v + a - 1, a, q, a - 1);
        } else {
            assert(v + a - 1 == (q + 1) * a + (m - 1)) by (nonlinear_arith)
                requires
                    v == a * q + m,
            ;
            vstd::arithmetic::div_mod::lemma_fundamental_div_mod_converse(
                v + a - 1,
                a,
                q + 1,
                m - 1,
            );
        }
    }
    r
}

} // verus!
