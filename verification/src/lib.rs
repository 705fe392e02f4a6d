//! Clock tree configuration calculator for an STM32F1-style microcontroller.
//!
//! The calculator turns a set of target clock frequencies (a [`rcc::ClockConfig`],
//! built with chained setters) into the fully resolved register-level
//! configuration of the clock tree (a [`rcc::RccConfig`]): oscillator selection,
//! PLL multiplier, AHB/APB/ADC prescalers, flash wait states and USB clock
//! validity. The computation is pure: no input is rejected, out-of-range
//! requests are clamped to the nearest supported hardware value.

pub mod laws;
pub mod rcc;
pub mod time;
