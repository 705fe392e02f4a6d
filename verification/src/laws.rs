use vstd::arithmetic::div_mod::{lemma_div_nonincreasing, lemma_div_pos_is_pos};
use vstd::prelude::*;

use crate::rcc::{
    ahb_bits, ahb_ratio, bus_clock, hpre_bits_for, hpre_divisor, pll_bypassed, pll_input, pll_mul,
    pll_mul_max, pll_mul_min, resolved, sys_clock, wf, ClockConfig, HwFamily, UsbPrescaler, HSI,
};

verus! {

/// Resolution is deterministic: identical specifications resolve to
/// identical configurations.
pub proof fn lemma_resolve_deterministic(a: ClockConfig, b: ClockConfig)
    requires
        a == b,
    ensures
        resolved(a) == resolved(b),
{
}

/// The resolved system clock is a frequency: it is never negative.
proof fn lemma_sys_clock_nonneg(c: ClockConfig)
    ensures
        sys_clock(c) >= 0,
{
    if !pll_bypassed(c) {
        let p: int = pll_input(c);
        let m: int = pll_mul(c);
        assert(p * m >= 0) by (nonlinear_arith)
            requires
                p >= 0,
                m >= 0,
        ;
    }
}

/// For every well-formed specification the resolved system clock is at most
/// what the largest admissible PLL multiplier produces from the PLL input,
/// and the PLL multiplier encoding, when present, lies in the hardware
/// range: [0, 14] for the mainline family, [2, 7] for the connectivity line.
pub proof fn lemma_sys_clock_bounded(c: ClockConfig)
    requires
        wf(c),
    ensures
        sys_clock(c) <= pll_mul_max(c.family) * pll_input(c),
        resolved(c).pllmul_bits is Some <==> !pll_bypassed(c),
        resolved(c).pllmul_bits is Some ==> pll_mul_min(c.family) - 2
            <= resolved(c).pllmul_bits->0 <= pll_mul_max(c.family) - 2,
        c.family == HwFamily::Mainline && resolved(c).pllmul_bits is Some ==> 0
            <= resolved(c).pllmul_bits->0 <= 14,
        c.family == HwFamily::ConnectivityLine && resolved(c).pllmul_bits is Some ==> 2
            <= resolved(c).pllmul_bits->0 <= 7,
{
    let lo: int = pll_mul_min(c.family);
    let hi: int = pll_mul_max(c.family);
    let p: int = pll_input(c);
    assert(2 <= lo <= hi);
    if pll_bypassed(c) {
        match c.hse {
            Some(f) => {
                assert(1 * (f as int) <= hi * (f as int)) by (nonlinear_arith)
                    requires
                        1 <= hi,
                        f as int >= 0,
                ;
            },
            None => {
                assert(sys_clock(c) == HSI as int);
                assert(p == 4_000_000);
            },
        }
    } else {
        let m: int = pll_mul(c);
        assert(lo <= m <= hi);
        assert(p * m <= p * hi) by (nonlinear_arith)
            requires
                p >= 0,
                m <= hi,
        ;
    }
}

/// The division factors the AHB prescaler can encode.
pub open spec fn in_ahb_table(d: int) -> bool {
    d == 1 || d == 2 || d == 4 || d == 8 || d == 16 || d == 64 || d == 128 || d == 256 || d == 512
}

/// On the ratios where the bucket table reaches a divisor at least as large
/// as the ratio, the selected AHB divisor is the smallest table entry that
/// is `>= ratio`. The excluded ratios are those that land in the upper part
/// of a bucket, where the hardware's fixed buckets select a smaller divisor
/// (ratio 17, for instance, selects 16), and the ratios past the largest
/// divisor, above which no table entry can reach the ratio at all.
pub proof fn lemma_ahb_divisor_smallest(ratio: int)
    requires
        0 <= ratio,
        !(ratio == 5 || (9 <= ratio <= 11) || (17 <= ratio <= 39) || (65 <= ratio <= 95) || (129
            <= ratio <= 191) || (257 <= ratio <= 383) || ratio > 512),
    ensures
        in_ahb_table(hpre_divisor(hpre_bits_for(ratio))),
        ratio <= hpre_divisor(hpre_bits_for(ratio)),
        forall|d: int|
            in_ahb_table(d) && ratio <= d ==> hpre_divisor(hpre_bits_for(ratio)) <= d,
{
}

/// The AHB prescaler encoding of the resolved configuration follows the
/// bucket of the system/bus clock ratio, the resolved bus clock is the
/// resolved system clock divided by the factor that encoding stands for,
/// and an absent bus target means division by one.
pub proof fn lemma_ahb_resolution(c: ClockConfig)
    requires
        wf(c),
        sys_clock(c) <= u32::MAX,
    ensures
        resolved(c).hpre_bits == hpre_bits_for(ahb_ratio(c)),
        resolved(c).sysclk == sys_clock(c),
        resolved(c).hclk == resolved(c).sysclk as int / hpre_divisor(resolved(c).hpre_bits),
        c.hclk is None ==> hpre_divisor(resolved(c).hpre_bits) == 1,
{
    lemma_sys_clock_nonneg(c);
    let d: int = hpre_divisor(ahb_bits(c));
    assert(1 <= d <= 512);
    lemma_div_pos_is_pos(sys_clock(c), d);
    lemma_div_nonincreasing(sys_clock(c), d);
    assert(0 <= bus_clock(c) <= u32::MAX);
}

/// The USB clock is marked valid exactly when an external oscillator drives
/// an active PLL whose output is one of the two supported frequencies, and
/// the divide-by-1.5 selector is produced only for the 72 MHz case. Where
/// the resolved system clock fits its register field, the same holds stated
/// over the fields of the resolved configuration alone.
pub proof fn lemma_usb_validity(c: ClockConfig)
    ensures
        resolved(c).usbclk_valid <==> (c.hse is Some && !pll_bypassed(c) && (sys_clock(c)
            == 72_000_000 || sys_clock(c) == 48_000_000)),
        resolved(c).usbpre == UsbPrescaler::Div1_5 <==> (resolved(c).usbclk_valid && sys_clock(c)
            == 72_000_000),
        sys_clock(c) <= u32::MAX ==> (resolved(c).usbclk_valid <==> (c.hse is Some
            && resolved(c).pllmul_bits is Some && (resolved(c).sysclk == 72_000_000
            || resolved(c).sysclk == 48_000_000))),
        sys_clock(c) <= u32::MAX ==> (resolved(c).usbpre == UsbPrescaler::Div1_5
            <==> (resolved(c).usbclk_valid && resolved(c).sysclk == 72_000_000)),
{
    lemma_sys_clock_nonneg(c);
}

} // verus!
