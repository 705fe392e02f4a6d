use vstd::prelude::*;

use crate::time::Hertz;

verus! {

/// Frequency of the internal RC oscillator (HSI), in Hz.
pub const HSI: u32 = 8_000_000;

/// Hardware family the configuration is computed for.
///
/// The connectivity line supports a narrower PLL multiplier range
/// than the mainline parts.
#[derive(Clone, Copy, Debug, PartialEq, Eq, Structural)]
pub enum HwFamily {
    Mainline,
    ConnectivityLine,
}

/// Number of flash wait states to program for a given system clock.
#[derive(Clone, Copy, Debug, PartialEq, Eq, Structural)]
pub enum Latency {
    Ws0,
    Ws1,
    Ws2,
}

/// Oscillator feeding the PLL.
#[derive(Clone, Copy, Debug, PartialEq, Eq, Structural)]
pub enum PllSource {
    HseDivPrediv,
    HsiDiv2,
}

/// USB prescaler selector: the USB clock is the PLL output divided by 1.5 or by 1.
#[derive(Clone, Copy, Debug, PartialEq, Eq, Structural)]
pub enum UsbPrescaler {
    Div1_5,
    Div1,
}

/// Target clock frequencies for the clock tree, built with chained setters
/// and consumed by [`ClockConfig::get_config`]. An absent target means
/// "derive from the clock directly upstream with minimal division".
#[derive(Clone, Copy, Debug)]
pub struct ClockConfig {
    pub hse: Option<u32>,
    pub hclk: Option<u32>,
    pub pclk1: Option<u32>,
    pub pclk2: Option<u32>,
    pub sysclk: Option<u32>,
    pub adcclk: Option<u32>,
    pub family: HwFamily,
}

/// Calculated clock tree configuration, ready to be written to the RCC
/// and flash peripheral registers. Every resolved frequency is the frequency
/// actually achieved after integer division; it may differ from the target.
#[derive(Clone, Copy, Debug)]
pub struct RccConfig {
    pub latency: Latency,
    pub pllmul_bits: Option<u8>,
    pub pllsrc: PllSource,
    pub adcpre_bits: u8,
    pub ppre1_bits: u8,
    pub ppre2_bits: u8,
    pub hpre_bits: u8,
    pub usbpre: UsbPrescaler,
    pub sysclk: u32,
    pub hclk: u32,
    pub pclk1: u32,
    pub pclk2: u32,
    pub adcclk: u32,
    pub ppre1: u8,
    pub ppre2: u8,
    pub usbclk_valid: bool,
}

/// Every requested frequency, where one is given, is positive.
pub open spec fn wf(c: ClockConfig) -> bool {
    &&& (c.hse matches Some(f) ==> f > 0)
    &&& (c.hclk matches Some(f) ==> f > 0)
    &&& (c.pclk1 matches Some(f) ==> f > 0)
    &&& (c.pclk2 matches Some(f) ==> f > 0)
    &&& (c.sysclk matches Some(f) ==> f > 0)
    &&& (c.adcclk matches Some(f) ==> f > 0)
}

/// PLL input frequency: the external oscillator when one is given,
/// otherwise the internal oscillator divided by two.
pub open spec fn pll_input(c: ClockConfig) -> int {
    match c.hse {
        Some(f) => f as int,
        None => HSI as int / 2,
    }
}

/// The system clock the caller asks for; the PLL input when left unset.
pub open spec fn target_sysclk(c: ClockConfig) -> int {
    match c.sysclk {
        Some(f) => f as int,
        None => pll_input(c),
    }
}

/// PLL multiplier before clamping: target system clock over PLL input.
pub open spec fn raw_pll_mul(c: ClockConfig) -> int {
    target_sysclk(c) / pll_input(c)
}

/// A raw multiplier of one bypasses the PLL: the oscillator drives the
/// system clock directly and no multiplier encoding is produced.
pub open spec fn pll_bypassed(c: ClockConfig) -> bool {
    raw_pll_mul(c) == 1
}

/// Smallest PLL multiplier the hardware supports.
pub open spec fn pll_mul_min(f: HwFamily) -> int {
    match f {
        HwFamily::Mainline => 2,
        HwFamily::ConnectivityLine => 4,
    }
}

/// Largest PLL multiplier the hardware supports.
pub open spec fn pll_mul_max(f: HwFamily) -> int {
    match f {
        HwFamily::Mainline => 16,
        HwFamily::ConnectivityLine => 9,
    }
}

/// `x` forced into the inclusive range `[lo, hi]`.
pub open spec fn clamp(x: int, lo: int, hi: int) -> int {
    if x > hi {
        hi
    } else if x < lo {
        lo
    } else {
        x
    }
}

/// The PLL multiplier actually used: the raw multiplier clamped to the
/// range the hardware family supports. Meaningful only when the PLL is active.
pub open spec fn pll_mul(c: ClockConfig) -> int {
    clamp(raw_pll_mul(c), pll_mul_min(c.family), pll_mul_max(c.family))
}

/// Encoding of the PLL multiplier: absent when the PLL is bypassed,
/// otherwise the clamped multiplier minus two.
pub open spec fn pll_mul_bits(c: ClockConfig) -> Option<u8> {
    if pll_bypassed(c) {
        None
    } else {
        Some((pll_mul(c) - 2) as u8)
    }
}

/// Resolved system clock: the oscillator itself under PLL bypass
/// (the internal oscillator then runs undivided), else the PLL output.
pub open spec fn sys_clock(c: ClockConfig) -> int {
    if pll_bypassed(c) {
        match c.hse {
            Some(f) => f as int,
            None => HSI as int,
        }
    } else {
        pll_input(c) * pll_mul(c)
    }
}

/// Oscillator selector for the PLL input.
pub open spec fn pll_source(c: ClockConfig) -> PllSource {
    if c.hse is Some {
        PllSource::HseDivPrediv
    } else {
        PllSource::HsiDiv2
    }
}

/// AHB prescaler encoding selected for a system/bus clock ratio.
pub open spec fn hpre_bits_for(ratio: int) -> u8 {
    if ratio <= 1 {
        0b0111
    } else if ratio == 2 {
        0b1000
    } else if ratio <= 5 {
        0b1001
    } else if ratio <= 11 {
        0b1010
    } else if ratio <= 39 {
        0b1011
    } else if ratio <= 95 {
        0b1100
    } else if ratio <= 191 {
        0b1101
    } else if ratio <= 383 {
        0b1110
    } else {
        0b1111
    }
}

/// Division factor encoded by an AHB prescaler setting.
pub open spec fn hpre_divisor(bits: u8) -> int {
    if bits == 0b0111 {
        1
    } else if bits == 0b1000 {
        2
    } else if bits == 0b1001 {
        4
    } else if bits == 0b1010 {
        8
    } else if bits == 0b1011 {
        16
    } else if bits == 0b1100 {
        64
    } else if bits == 0b1101 {
        128
    } else if bits == 0b1110 {
        256
    } else {
        512
    }
}

/// Ratio driving the AHB prescaler choice: system clock over the requested
/// bus clock, or one when no bus clock is requested.
pub open spec fn ahb_ratio(c: ClockConfig) -> int {
    match c.hclk {
        Some(f) => sys_clock(c) / f as int,
        None => 1,
    }
}

/// AHB prescaler encoding for the whole specification.
pub open spec fn ahb_bits(c: ClockConfig) -> u8 {
    hpre_bits_for(ahb_ratio(c))
}

/// Resolved AHB bus clock.
pub open spec fn bus_clock(c: ClockConfig) -> int {
    sys_clock(c) / hpre_divisor(ahb_bits(c))
}

/// APB prescaler encoding selected for a bus/peripheral clock ratio.
pub open spec fn ppre_bits_for(ratio: int) -> u8 {
    if ratio <= 1 {
        0b011
    } else if ratio == 2 {
        0b100
    } else if ratio <= 5 {
        0b101
    } else if ratio <= 11 {
        0b110
    } else {
        0b111
    }
}

/// Division factor encoded by an APB prescaler setting.
pub open spec fn ppre_divisor(bits: u8) -> int {
    if bits == 0b011 {
        1
    } else if bits == 0b100 {
        2
    } else if bits == 0b101 {
        4
    } else if bits == 0b110 {
        8
    } else {
        16
    }
}

/// APB1 prescaler encoding: bus clock against the requested APB1 clock.
pub open spec fn apb1_bits(c: ClockConfig) -> u8 {
    match c.pclk1 {
        Some(f) => ppre_bits_for(bus_clock(c) / f as int),
        None => 0b011,
    }
}

/// Resolved APB1 peripheral clock.
pub open spec fn apb1_clock(c: ClockConfig) -> int {
    bus_clock(c) / ppre_divisor(apb1_bits(c))
}

/// APB2 prescaler encoding: bus clock against the requested APB2 clock.
pub open spec fn apb2_bits(c: ClockConfig) -> u8 {
    match c.pclk2 {
        Some(f) => ppre_bits_for(bus_clock(c) / f as int),
        None => 0b011,
    }
}

/// Resolved APB2 peripheral clock.
pub open spec fn apb2_clock(c: ClockConfig) -> int {
    bus_clock(c) / ppre_divisor(apb2_bits(c))
}

/// Flash wait states needed at a given system clock.
pub open spec fn latency_for(sysclk: int) -> Latency {
    if sysclk <= 24_000_000 {
        Latency::Ws0
    } else if sysclk <= 48_000_000 {
        Latency::Ws1
    } else {
        Latency::Ws2
    }
}

/// The USB clock is usable only when an external oscillator is in use,
/// the PLL is active, and the PLL output is one of the two supported values.
pub open spec fn usb_valid(c: ClockConfig) -> bool {
    &&& c.hse is Some
    &&& !pll_bypassed(c)
    &&& (sys_clock(c) == 72_000_000 || sys_clock(c) == 48_000_000)
}

/// USB prescaler selector: divide by 1.5 for the 72 MHz case, else divide
/// by 1 (inert when the USB clock is not valid).
pub open spec fn usb_prescaler(c: ClockConfig) -> UsbPrescaler {
    if usb_valid(c) && sys_clock(c) == 72_000_000 {
        UsbPrescaler::Div1_5
    } else {
        UsbPrescaler::Div1
    }
}

/// ADC prescaler encoding selected for an APB2/ADC clock ratio.
pub open spec fn adcpre_bits_for(ratio: int) -> u8 {
    if ratio <= 2 {
        0b00
    } else if ratio <= 4 {
        0b01
    } else if ratio <= 7 {
        0b10
    } else {
        0b11
    }
}

/// Division factor encoded by an ADC prescaler setting.
pub open spec fn adc_divisor(bits: u8) -> int {
    (bits as int + 1) * 2
}

/// ADC prescaler encoding for the whole specification: an absent target
/// means minimal division, so the smallest divisor is selected.
pub open spec fn adc_bits(c: ClockConfig) -> u8 {
    match c.adcclk {
        Some(f) => adcpre_bits_for(apb2_clock(c) / f as int),
        None => 0b00,
    }
}

/// Resolved ADC clock.
pub open spec fn adc_clock(c: ClockConfig) -> int {
    apb2_clock(c) / adc_divisor(adc_bits(c))
}

/// The fully resolved configuration a specification stands for:
/// this is what [`ClockConfig::get_config`] returns.
pub open spec fn resolved(c: ClockConfig) -> RccConfig {
    RccConfig {
        latency: latency_for(sys_clock(c)),
        pllmul_bits: pll_mul_bits(c),
        pllsrc: pll_source(c),
        adcpre_bits: adc_bits(c),
        ppre1_bits: apb1_bits(c),
        ppre2_bits: apb2_bits(c),
        hpre_bits: ahb_bits(c),
        usbpre: usb_prescaler(c),
        sysclk: sys_clock(c) as u32,
        hclk: bus_clock(c) as u32,
        pclk1: apb1_clock(c) as u32,
        pclk2: apb2_clock(c) as u32,
        adcclk: adc_clock(c) as u32,
        ppre1: ppre_divisor(apb1_bits(c)) as u8,
        ppre2: ppre_divisor(apb2_bits(c)) as u8,
        usbclk_valid: usb_valid(c),
    }
}

/// `x` forced into the inclusive range `[lo, hi]`.
fn clamp_u32(x: u32, lo: u32, hi: u32) -> (r: u32)
    requires
        lo <= hi,
    ensures
        r == clamp(x as int, lo as int, hi as int),
{
    if x > hi {
        hi
    } else if x < lo {
        lo
    } else {
        x
    }
}

/// Selects the AHB prescaler encoding for a system/bus clock ratio.
fn ahb_prescaler_bits(ratio: u32) -> (bits: u8)
    ensures
        bits == hpre_bits_for(ratio as int),
{
    if ratio <= 1 {
        0b0111
    } else if ratio == 2 {
        0b1000
    } else if ratio <= 5 {
        0b1001
    } else if ratio <= 11 {
        0b1010
    } else if ratio <= 39 {
        0b1011
    } else if ratio <= 95 {
        0b1100
    } else if ratio <= 191 {
        0b1101
    } else if ratio <= 383 {
        0b1110
    } else {
        0b1111
    }
}

/// Division factor encoded by an AHB prescaler setting.
fn ahb_divisor_of(bits: u8) -> (d: u32)
    requires
        0b0111 <= bits <= 0b1111,
    ensures
        d == hpre_divisor(bits),
{
    if bits == 0b0111 {
        1
    } else if bits == 0b1000 {
        2
    } else if bits == 0b1001 {
        4
    } else if bits == 0b1010 {
        8
    } else if bits == 0b1011 {
        16
    } else if bits == 0b1100 {
        64
    } else if bits == 0b1101 {
        128
    } else if bits == 0b1110 {
        256
    } else {
        512
    }
}

/// Selects an APB prescaler encoding for a bus/peripheral clock ratio.
fn apb_prescaler_bits(ratio: u32) -> (bits: u8)
    ensures
        bits == ppre_bits_for(ratio as int),
{
    if ratio <= 1 {
        0b011
    } else if ratio == 2 {
        0b100
    } else if ratio <= 5 {
        0b101
    } else if ratio <= 11 {
        0b110
    } else {
        0b111
    }
}

/// Division factor encoded by an APB prescaler setting.
fn apb_divisor_of(bits: u8) -> (d: u8)
    requires
        0b011 <= bits <= 0b111,
    ensures
        d == ppre_divisor(bits),
{
    if bits == 0b011 {
        1
    } else if bits == 0b100 {
        2
    } else if bits == 0b101 {
        4
    } else if bits == 0b110 {
        8
    } else {
        16
    }
}

/// Selects the ADC prescaler encoding for an APB2/ADC clock ratio.
fn adc_prescaler_bits(ratio: u32) -> (bits: u8)
    ensures
        bits == adcpre_bits_for(ratio as int),
{
    if ratio <= 2 {
        0b00
    } else if ratio <= 4 {
        0b01
    } else if ratio <= 7 {
        0b10
    } else {
        0b11
    }
}

impl ClockConfig {
    /// Create a new default clock configuration: no targets set,
    /// computed for the mainline hardware family.
    pub fn new() -> (r: Self)
        ensures
            r == (ClockConfig {
                hse: None,
                hclk: None,
                pclk1: None,
                pclk2: None,
                sysclk: None,
                adcclk: None,
                family: HwFamily::Mainline,
            }),
    {
        Self {
            hse: None,
            hclk: None,
            pclk1: None,
            pclk2: None,
            sysclk: None,
            adcclk: None,
            family: HwFamily::Mainline,
        }
    }

    /// Selects the hardware family the configuration is computed for.
    pub fn family(self, family: HwFamily) -> (r: Self)
        ensures
            r == (ClockConfig { family, ..self }),
    {
        Self { family, ..self }
    }

    /// Uses HSE (external oscillator) instead of HSI (internal RC oscillator)
    /// as the clock source.
    ///
    /// The frequency specified must be the frequency of the external
    /// oscillator. Hazard: the downstream enable sequence hangs if no
    /// external oscillator is connected or it fails to start; nothing at
    /// this layer can detect that.
    pub fn use_hse(self, freq: Hertz) -> (r: Self)
        ensures
            r == (ClockConfig { hse: Some(freq.0), ..self }),
    {
        Self { hse: Some(freq.0), ..self }
    }

    /// Sets the desired frequency for the HCLK (AHB bus) clock.
    pub fn hclk(self, freq: Hertz) -> (r: Self)
        ensures
            r == (ClockConfig { hclk: Some(freq.0), ..self }),
    {
        Self { hclk: Some(freq.0), ..self }
    }

    /// Sets the desired frequency for the PCLK1 (APB1 bus) clock.
    pub fn pclk1(self, freq: Hertz) -> (r: Self)
        ensures
            r == (ClockConfig { pclk1: Some(freq.0), ..self }),
    {
        Self { pclk1: Some(freq.0), ..self }
    }

    /// Sets the desired frequency for the PCLK2 (APB2 bus) clock.
    pub fn pclk2(self, freq: Hertz) -> (r: Self)
        ensures
            r == (ClockConfig { pclk2: Some(freq.0), ..self }),
    {
        Self { pclk2: Some(freq.0), ..self }
    }

    /// Sets the desired frequency for the SYSCLK (system) clock.
    pub fn sysclk(self, freq: Hertz) -> (r: Self)
        ensures
            r == (ClockConfig { sysclk: Some(freq.0), ..self }),
    {
        Self { sysclk: Some(freq.0), ..self }
    }

    /// Sets the desired frequency for the ADCCLK (ADC peripheral) clock.
    pub fn adcclk(self, freq: Hertz) -> (r: Self)
        ensures
            r == (ClockConfig { adcclk: Some(freq.0), ..self }),
    {
        Self { adcclk: Some(freq.0), ..self }
    }

    /// Calculates the register configuration that realises the targets.
    ///
    /// Unreachable targets are not rejected: the PLL multiplier is clamped
    /// to the supported range and every prescaler falls back to its nearest
    /// bucket, so the resolved frequencies may differ from the targets.
    pub fn get_config(self) -> (r: RccConfig)
        requires
            wf(self),
            sys_clock(self) <= u32::MAX,
        ensures
            r == resolved(self),
    {
        let pllsrcclk: u32 = match self.hse {
            Some(hse) => hse,
            None => HSI / 2,
        };
        let target_sys: u32 = match self.sysclk {
            Some(sysclk) => sysclk,
            None => pllsrcclk,
        };
        let pllmul: u32 = target_sys / pllsrcclk;

        let (pllmul_bits, sysclk): (Option<u8>, u32) = if pllmul == 1 {
            let real_sysclk: u32 = match self.hse {
                Some(hse) => hse,
                None => HSI,
            };
            (None, real_sysclk)
        } else {
            let (lo, hi): (u32, u32) = match self.family {
                HwFamily::Mainline => (2, 16),
                HwFamily::ConnectivityLine => (4, 9),
            };
            let clamped: u32 = clamp_u32(pllmul, lo, hi);
            (Some((clamped - 2) as u8), pllsrcclk * clamped)
        };

        let hpre_bits: u8 = match self.hclk {
            Some(hclk) => ahb_prescaler_bits(sysclk / hclk),
            None => 0b0111,
        };
        let hclk: u32 = sysclk / ahb_divisor_of(hpre_bits);

        let ppre1_bits: u8 = match self.pclk1 {
            Some(pclk1) => apb_prescaler_bits(hclk / pclk1),
            None => 0b011,
        };
        let ppre1: u8 = apb_divisor_of(ppre1_bits);
        let pclk1: u32 = hclk / ppre1 as u32;

        let ppre2_bits: u8 = match self.pclk2 {
            Some(pclk2) => apb_prescaler_bits(hclk / pclk2),
            None => 0b011,
        };
        let ppre2: u8 = apb_divisor_of(ppre2_bits);
        let pclk2: u32 = hclk / ppre2 as u32;

        let latency: Latency = if sysclk <= 24_000_000 {
            Latency::Ws0
        } else if sysclk <= 48_000_000 {
            Latency::Ws1
        } else {
            Latency::Ws2
        };

        let (usbpre, usbclk_valid): (UsbPrescaler, bool) =
            if self.hse.is_some() && pllmul_bits.is_some() && sysclk == 72_000_000 {
                (UsbPrescaler::Div1_5, true)
            } else if self.hse.is_some() && pllmul_bits.is_some() && sysclk == 48_000_000 {
                (UsbPrescaler::Div1, true)
            } else {
                (UsbPrescaler::Div1, false)
            };

        let adcpre_bits: u8 = match self.adcclk {
            Some(adcclk) => adc_prescaler_bits(pclk2 / adcclk),
            None => 0b00,
        };
        let apre: u8 = (adcpre_bits + 1) * 2;
        let adcclk: u32 = pclk2 / apre as u32;

        let pllsrc: PllSource = if self.hse.is_some() {
            PllSource::HseDivPrediv
        } else {
            PllSource::HsiDiv2
        };

        RccConfig {
            latency,
            pllmul_bits,
            pllsrc,
            adcpre_bits,
            ppre1_bits,
            ppre2_bits,
            hpre_bits,
            usbpre,
            sysclk,
            hclk,
            pclk1,
            pclk2,
            adcclk,
            ppre1,
            ppre2,
            usbclk_valid,
        }
    }
}

} // verus!
