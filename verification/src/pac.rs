//! The register field accessors of `stm32-metapac` for STM32L0, on plain words.
//!
//! Each function here hands one word to one accessor and takes the word back. The contracts say
//! which bits the accessor changes; they are taken on trust from the accessor's source.
use vstd::prelude::*;

verus! {

/// `v` with bit `n` set or cleared, and every other bit as it was.
pub open spec fn with_bit(v: u32, n: u32, on: bool) -> u32 {
    if on {
        v | (1u32 << n)
    } else {
        v & !(1u32 << n)
    }
}

/// Bit `n` of `v` is set.
pub open spec fn bit(v: u32, n: u32) -> bool {
    (v >> n) & 1 == 1
}

/// What deep sleep of the core means for the chip: the `PDDS` field of STM32L0.
#[derive(Clone, Copy, Debug, PartialEq, Eq, Structural)]
pub enum DeepSleep {
    Stop,
    Standby,
}

/// What the voltage regulator does in deep sleep: the `LPSDSR` field of STM32L0.
#[derive(Clone, Copy, Debug, PartialEq, Eq, Structural)]
pub enum Regulator {
    Main,
    LowPower,
}

/// Calls `rcc::regs::Gpioenr::default`, the word that a `write` of the register starts from.
/// Claimed: the word is zero.
#[verifier::external_body]
pub(crate) fn gpioenr_default() -> (r: u32)
    ensures
        r == 0,
{
    stm32_metapac::rcc::regs::Gpioenr::default().0
}

/// Calls `rcc::regs::Gpioenr::set_gpioaen`. Claimed: it puts `val` in bit 0 and keeps the rest.
#[verifier::external_body]
pub(crate) fn gpioenr_set_gpioaen(word: u32, val: bool) -> (r: u32)
    ensures
        r == with_bit(word, 0, val),
{
    let mut w = stm32_metapac::rcc::regs::Gpioenr(word);
    w.set_gpioaen(val);
    w.0
}

/// Calls `rcc::regs::Gpioenr::set_gpioben`. Claimed: it puts `val` in bit 1 and keeps the rest.
#[verifier::external_body]
pub(crate) fn gpioenr_set_gpioben(word: u32, val: bool) -> (r: u32)
    ensures
        r == with_bit(word, 1, val),
{
    let mut w = stm32_metapac::rcc::regs::Gpioenr(word);
    w.set_gpioben(val);
    w.0
}

/// Calls `rcc::regs::Gpioenr::set_gpiocen`. Claimed: it puts `val` in bit 2 and keeps the rest.
#[verifier::external_body]
pub(crate) fn gpioenr_set_gpiocen(word: u32, val: bool) -> (r: u32)
    ensures
        r == with_bit(word, 2, val),
{
    let mut w = stm32_metapac::rcc::regs::Gpioenr(word);
    w.set_gpiocen(val);
    w.0
}

/// Calls `rcc::regs::Gpioenr::set_gpioden`. Claimed: it puts `val` in bit 3 and keeps the rest.
#[verifier::external_body]
pub(crate) fn gpioenr_set_gpioden(word: u32, val: bool) -> (r: u32)
    ensures
        r == with_bit(word, 3, val),
{
    let mut w = stm32_metapac::rcc::regs::Gpioenr(word);
    w.set_gpioden(val);
    w.0
}

/// Calls `rcc::regs::Gpioenr::set_gpioeen`. Claimed: it puts `val` in bit 4 and keeps the rest.
#[verifier::external_body]
pub(crate) fn gpioenr_set_gpioeen(word: u32, val: bool) -> (r: u32)
    ensures
        r == with_bit(word, 4, val),
{
    let mut w = stm32_metapac::rcc::regs::Gpioenr(word);
    w.set_gpioeen(val);
    w.0
}

/// Calls `rcc::regs::Gpioenr::set_gpiohen`. Claimed: it puts `val` in bit 7 and keeps the rest.
#[verifier::external_body]
pub(crate) fn gpioenr_set_gpiohen(word: u32, val: bool) -> (r: u32)
    ensures
        r == with_bit(word, 7, val),
{
    let mut w = stm32_metapac::rcc::regs::Gpioenr(word);
    w.set_gpiohen(val);
    w.0
}

/// Calls `pwr::regs::Cr::set_cwuf`. Claimed: it puts `val` in bit 2 and keeps the rest.
#[verifier::external_body]
pub(crate) fn pwr_cr_set_cwuf(word: u32, val: bool) -> (r: u32)
    ensures
        r == with_bit(word, 2, val),
{
    let mut w = stm32_metapac::pwr::regs::Cr(word);
    w.set_cwuf(val);
    w.0
}

/// Calls `pwr::regs::Cr::set_ulp`. Claimed: it puts `val` in bit 9 and keeps the rest.
#[verifier::external_body]
pub(crate) fn pwr_cr_set_ulp(word: u32, val: bool) -> (r: u32)
    ensures
        r == with_bit(word, 9, val),
{
    let mut w = stm32_metapac::pwr::regs::Cr(word);
    w.set_ulp(val);
    w.0
}

/// Calls `pwr::regs::Cr::set_fwu`. Claimed: it puts `val` in bit 10 and keeps the rest.
#[verifier::external_body]
pub(crate) fn pwr_cr_set_fwu(word: u32, val: bool) -> (r: u32)
    ensures
        r == with_bit(word, 10, val),
{
    let mut w = stm32_metapac::pwr::regs::Cr(word);
    w.set_fwu(val);
    w.0
}

/// Calls `pwr::regs::Cr::set_pdds`. Claimed: bit 1 is cleared for stop mode and set for standby,
/// and the rest is kept.
#[verifier::external_body]
pub(crate) fn pwr_cr_set_pdds(word: u32, val: DeepSleep) -> (r: u32)
    ensures
        r == with_bit(word, 1, val is Standby),
{
    let mut w = stm32_metapac::pwr::regs::Cr(word);
    w.set_pdds(match val {
        DeepSleep::Stop => stm32_metapac::pwr::vals::Pdds::STOP_MODE,
        DeepSleep::Standby => stm32_metapac::pwr::vals::Pdds::STANDBY_MODE,
    });
    w.0
}

/// Calls `pwr::regs::Cr::set_lpsdsr`. Claimed: bit 0 is cleared for the main regulator mode and
/// set for the low-power mode, and the rest is kept.
#[verifier::external_body]
pub(crate) fn pwr_cr_set_lpsdsr(word: u32, val: Regulator) -> (r: u32)
    ensures
        r == with_bit(word, 0, val is LowPower),
{
    let mut w = stm32_metapac::pwr::regs::Cr(word);
    w.set_lpsdsr(match val {
        Regulator::Main => stm32_metapac::pwr::vals::Mode::MAIN_MODE,
        Regulator::LowPower => stm32_metapac::pwr::vals::Mode::LOW_POWER_MODE,
    });
    w.0
}

/// Calls `pwr::regs::Csr::wuf`. Claimed: it returns bit 0.
#[verifier::external_body]
pub(crate) fn pwr_csr_wuf(word: u32) -> (r: bool)
    ensures
        r == bit(word, 0),
{
    stm32_metapac::pwr::regs::Csr(word).wuf()
}

/// Calls `syscfg::regs::Cfgr3::set_en_vrefint`. Claimed: it puts `val` in bit 0 and keeps the
/// rest.
#[verifier::external_body]
pub(crate) fn syscfg_cfgr3_set_en_vrefint(word: u32, val: bool) -> (r: u32)
    ensures
        r == with_bit(word, 0, val),
{
    let mut w = stm32_metapac::syscfg::regs::Cfgr3(word);
    w.set_en_vrefint(val);
    w.0
}

/// Calls `adc::regs::Cr::set_addis`. Claimed: it puts `val` in bit 1 and keeps the rest.
#[verifier::external_body]
pub(crate) fn adc_cr_set_addis(word: u32, val: bool) -> (r: u32)
    ensures
        r == with_bit(word, 1, val),
{
    let mut w = stm32_metapac::adc::regs::Cr(word);
    w.set_addis(val);
    w.0
}

/// Calls `dac::regs::Cr::set_en`, which panics on a channel above 1. Claimed: it puts `val` in
/// bit 0 for channel 0 and in bit 16 for channel 1, and keeps the rest.
#[verifier::external_body]
pub(crate) fn dac_cr_set_en(word: u32, channel: usize, val: bool) -> (r: u32)
    requires
        channel < 2,
    ensures
        r == with_bit(word, if channel == 0 { 0u32 } else { 16u32 }, val),
{
    let mut w = stm32_metapac::dac::regs::Cr(word);
    w.set_en(channel, val);
    w.0
}

/// Calls `flash::regs::Acr::set_sleep_pd`. Claimed: it puts `val` in bit 3 and keeps the rest.
#[verifier::external_body]
pub(crate) fn flash_acr_set_sleep_pd(word: u32, val: bool) -> (r: u32)
    ensures
        r == with_bit(word, 3, val),
{
    let mut w = stm32_metapac::flash::regs::Acr(word);
    w.set_sleep_pd(val);
    w.0
}

} // verus!
