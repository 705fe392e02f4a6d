use rcc_calc::rcc::ClockConfig;
use rcc_calc::time::Hertz;

/// A bypassed PLL puts the external oscillator frequency on the system
/// clock unchanged, so a ratio of `r` is forced exactly with an oscillator
/// of `r * 1000` Hz and a bus target of 1000 Hz.
fn config_with_ahb_ratio(ratio: u32) -> ClockConfig {
    ClockConfig::new()
        .use_hse(Hertz(ratio * 1000))
        .hclk(Hertz(1000))
}

#[test]
fn ahb_bucket_boundaries() {
    // (ratio, expected encoding, expected divisor) at every bucket boundary.
    let cases: [(u32, u8, u32); 15] = [
        (1, 0b0111, 1),
        (2, 0b1000, 2),
        (3, 0b1001, 4),
        (5, 0b1001, 4),
        (6, 0b1010, 8),
        (11, 0b1010, 8),
        (12, 0b1011, 16),
        (39, 0b1011, 16),
        (40, 0b1100, 64),
        (95, 0b1100, 64),
        (96, 0b1101, 128),
        (191, 0b1101, 128),
        (192, 0b1110, 256),
        (383, 0b1110, 256),
        (384, 0b1111, 512),
    ];
    for (ratio, bits, divisor) in cases {
        let r = config_with_ahb_ratio(ratio).get_config();
        assert_eq!(r.hpre_bits, bits, "ratio {ratio}");
        assert_eq!(r.hclk, r.sysclk / divisor, "ratio {ratio}");
    }
}

#[test]
fn ahb_ratio_beyond_the_table_uses_the_largest_divisor() {
    let r = config_with_ahb_ratio(600).get_config();
    assert_eq!(r.hpre_bits, 0b1111);
    assert_eq!(r.hclk, 600_000 / 512);
}

#[test]
fn apb_bucket_boundaries() {
    let cases: [(u32, u8, u8); 7] = [
        (1, 0b011, 1),
        (2, 0b100, 2),
        (3, 0b101, 4),
        (5, 0b101, 4),
        (6, 0b110, 8),
        (11, 0b110, 8),
        (12, 0b111, 16),
    ];
    for (ratio, bits, divisor) in cases {
        // The bus clock equals the oscillator frequency (default AHB divisor 1).
        let r = ClockConfig::new()
            .use_hse(Hertz(ratio * 1000))
            .pclk1(Hertz(1000))
            .pclk2(Hertz(1000))
            .get_config();
        assert_eq!(r.ppre1_bits, bits, "ratio {ratio}");
        assert_eq!(r.ppre2_bits, bits, "ratio {ratio}");
        assert_eq!(r.ppre1, divisor, "ratio {ratio}");
        assert_eq!(r.ppre2, divisor, "ratio {ratio}");
        assert_eq!(r.pclk1, r.hclk / divisor as u32, "ratio {ratio}");
        assert_eq!(r.pclk2, r.hclk / divisor as u32, "ratio {ratio}");
    }
}

#[test]
fn adc_bucket_boundaries() {
    let cases: [(u32, u8, u32); 7] = [
        (1, 0b00, 2),
        (2, 0b00, 2),
        (3, 0b01, 4),
        (4, 0b01, 4),
        (5, 0b10, 6),
        (7, 0b10, 6),
        (8, 0b11, 8),
    ];
    for (ratio, bits, divisor) in cases {
        // APB2 equals the oscillator frequency (default divisors of 1).
        let r = ClockConfig::new()
            .use_hse(Hertz(ratio * 1000))
            .adcclk(Hertz(1000))
            .get_config();
        assert_eq!(r.adcpre_bits, bits, "ratio {ratio}");
        assert_eq!(r.adcclk, r.pclk2 / divisor, "ratio {ratio}");
    }
}

#[test]
fn adc_target_above_the_bus_divides_by_two() {
    // Ratio 0: even an unreachable target still divides by the smallest factor.
    let r = ClockConfig::new()
        .use_hse(Hertz(1000))
        .adcclk(Hertz(4000))
        .get_config();
    assert_eq!(r.adcpre_bits, 0b00);
    assert_eq!(r.adcclk, 500);
}
