//! The registers that low-power code touches, and the changes it makes to their fields.
use vstd::prelude::*;
use crate::chip::Lpms;
use crate::pac::{self, DeepSleep, Regulator};

verus! {

/// A GPIO port.
#[derive(Clone, Copy, Debug, PartialEq, Eq, Structural)]
pub enum Port {
    A,
    B,
    C,
    D,
    E,
    H,
}

impl Port {
    /// The bit of the port's clock enable in the port clocks.
    pub open spec fn clock_bit(self) -> u32 {
        match self {
            Port::A => 0,
            Port::B => 1,
            Port::C => 2,
            Port::D => 3,
            Port::E => 4,
            Port::H => 7,
        }
    }

    /// The port is clocked when the port clocks hold `clocks`; otherwise it is gated.
    pub open spec fn clocked(self, clocks: u32) -> bool {
        pac::bit(clocks, self.clock_bit())
    }
}

/// A register of a GPIO port.
#[derive(Clone, Copy, Debug, PartialEq, Eq, Structural)]
pub enum GpioRegister {
    Moder,
    Otyper,
    Ospeedr,
    Pupdr,
    Odr,
    Lckr,
    Afrl,
    Afrh,
}

/// A memory-mapped register.
#[derive(Clone, Copy, Debug, PartialEq, Eq, Structural)]
pub enum Register {
    Gpio(Port, GpioRegister),
    RccCr,
    RccCfgr,
    RccCrrcr,
    RccGpioenr,
    RccAhbenr,
    RccApb1enr,
    RccApb1enr1,
    RccApb2enr,
    RccSmpscr,
    PwrCr,
    PwrCsr,
    PwrCr1,
    PwrC2cr1,
    PwrCr5,
    PwrPmcr,
    PwrExtscr,
    PwrSr,
    SyscfgCfgr2,
    SyscfgCfgr3,
    FlashAcr,
    Adc1Cr,
    Dac1Cr,
    /// Configuration of a channel of DMA1, counted from 0.
    Dma1Cr(u8),
    TscCr,
    RngCr,
    Tim2Cr1,
    Tim3Cr1,
    Tim6Cr1,
    Tim7Cr1,
    Tim21Cr1,
    Tim22Cr1,
    Lptim1Cr,
    WwdgCr,
    I2c1Cr1,
    I2c2Cr1,
    I2c3Cr1,
    Usart1Cr1,
    Usart2Cr1,
    Usart4Cr1,
    Usart5Cr1,
    Lpuart1Cr1,
    Spi1Cr1,
    UsbCntr,
    DbgmcuCr,
    CrsCr,
}

/// `v` with the bits of `mask` replaced by `value`.
pub open spec fn replace_field(v: u32, mask: u32, value: u32) -> u32 {
    (v & !mask) | value
}

/// Whether bit `n` of `v` is set.
pub fn test_bit(v: u32, n: u32) -> (r: bool)
    requires
        n < 32,
    ensures
        r == pac::bit(v, n),
{
    (v >> n) & 1 == 1
}

/// A read-modify-write of one register.
#[derive(Clone, Copy, Debug, PartialEq, Eq, Structural)]
pub enum Edit {
    /// STM32L0: clear the wakeup flag.
    ClearWakeupFlag,
    /// STM32L0: stop mode on deep sleep, regulator in low-power mode, no reference voltage,
    /// fast wakeup, wakeup flag cleared.
    SelectStop,
    /// STM32L0: internal voltage reference off.
    VrefintOff,
    /// STM32L0: ask the ADC to turn itself off.
    AdcOff,
    /// STM32L0: first DAC channel off.
    Dac1Off,
    /// STM32L0: second DAC channel off.
    Dac2Off,
    /// STM32L0: flash powered down while the core sleeps.
    FlashSleepPowerDown,
    /// STM32L0: the power control register written back as it was read.
    RewritePwrCr,
    /// STM32WL and STM32WB: clear the stop and standby flags of CPU1.
    ClearCpu1StopFlags,
    /// STM32WL and STM32WB: clear the stop and standby flags of CPU2.
    ClearCpu2StopFlags,
    /// STM32WBA: clear the stop and standby flags.
    ClearStopFlags,
    /// STM32WB: turn the HSI oscillator on.
    HsiOn,
    /// STM32WB: run the system clock from HSI.
    SysclkFromHsi,
    /// STM32WB: run the step-down converter from HSI.
    SmpsFromHsi,
    /// STM32WB: clock the power controller.
    PwrClockOn,
    /// STM32WB: step-down converter off, bypass on.
    SmpsBypass,
    /// Select the stop mode of CPU1, or of the only core.
    SelectLpms(Lpms),
    /// Select the stop mode of CPU2.
    SelectLpmsCpu2(Lpms),
    /// STM32H5: stop mode with voltage scale 3.
    SelectStopScale3,
}

impl Edit {
    /// The register that is edited.
    pub open spec fn target(self) -> Register {
        match self {
            Edit::ClearWakeupFlag | Edit::SelectStop | Edit::RewritePwrCr => Register::PwrCr,
            Edit::VrefintOff => Register::SyscfgCfgr3,
            Edit::AdcOff => Register::Adc1Cr,
            Edit::Dac1Off | Edit::Dac2Off => Register::Dac1Cr,
            Edit::FlashSleepPowerDown => Register::FlashAcr,
            Edit::ClearCpu1StopFlags | Edit::ClearCpu2StopFlags => Register::PwrExtscr,
            Edit::ClearStopFlags => Register::PwrSr,
            Edit::HsiOn => Register::RccCr,
            Edit::SysclkFromHsi => Register::RccCfgr,
            Edit::SmpsFromHsi => Register::RccSmpscr,
            Edit::PwrClockOn => Register::RccApb1enr1,
            Edit::SmpsBypass => Register::PwrCr5,
            Edit::SelectLpms(_) => Register::PwrCr1,
            Edit::SelectLpmsCpu2(_) => Register::PwrC2cr1,
            Edit::SelectStopScale3 => Register::PwrPmcr,
        }
    }

    /// The bits that the edit decides.
    pub open spec fn mask(self) -> u32 {
        match self {
            Edit::ClearWakeupFlag => 0x4,
            Edit::SelectStop => 0x607,
            Edit::VrefintOff => 0x1,
            Edit::AdcOff => 0x2,
            Edit::Dac1Off => 0x1,
            Edit::Dac2Off => 0x1_0000,
            Edit::FlashSleepPowerDown => 0x8,
            Edit::RewritePwrCr => 0,
            Edit::ClearCpu1StopFlags => 0x1,
            Edit::ClearCpu2StopFlags => 0x2,
            Edit::ClearStopFlags => 0x1,
            Edit::HsiOn => 0x100,
            Edit::SysclkFromHsi => 0x3,
            Edit::SmpsFromHsi => 0x3,
            Edit::PwrClockOn => 0x1000_0000,
            Edit::SmpsBypass => 0xc000,
            Edit::SelectLpms(_) => 0x7,
            Edit::SelectLpmsCpu2(_) => 0x7,
            Edit::SelectStopScale3 => 0xd,
        }
    }

    /// What the edit puts in the bits of `mask`.
    pub open spec fn value(self) -> u32 {
        match self {
            Edit::ClearWakeupFlag => 0x4,
            Edit::SelectStop => 0x605,
            Edit::VrefintOff => 0,
            Edit::AdcOff => 0x2,
            Edit::Dac1Off => 0,
            Edit::Dac2Off => 0,
            Edit::FlashSleepPowerDown => 0x8,
            Edit::RewritePwrCr => 0,
            Edit::ClearCpu1StopFlags => 0x1,
            Edit::ClearCpu2StopFlags => 0x2,
            Edit::ClearStopFlags => 0x1,
            Edit::HsiOn => 0x100,
            Edit::SysclkFromHsi => 0x1,
            Edit::SmpsFromHsi => 0,
            Edit::PwrClockOn => 0x1000_0000,
            Edit::SmpsBypass => 0x4000,
            Edit::SelectLpms(lpms) => lpms.encoding(),
            Edit::SelectLpmsCpu2(lpms) => lpms.encoding(),
            Edit::SelectStopScale3 => 0xc,
        }
    }

    /// The word that replaces `word`.
    pub open spec fn applied(self, word: u32) -> u32 {
        replace_field(word, self.mask(), self.value())
    }

    /// The register that is edited.
    pub fn register(self) -> (r: Register)
        ensures
            r == self.target(),
    {
        match self {
            Edit::ClearWakeupFlag | Edit::SelectStop | Edit::RewritePwrCr => Register::PwrCr,
            Edit::VrefintOff => Register::SyscfgCfgr3,
            Edit::AdcOff => Register::Adc1Cr,
            Edit::Dac1Off | Edit::Dac2Off => Register::Dac1Cr,
            Edit::FlashSleepPowerDown => Register::FlashAcr,
            Edit::ClearCpu1StopFlags | Edit::ClearCpu2StopFlags => Register::PwrExtscr,
            Edit::ClearStopFlags => Register::PwrSr,
            Edit::HsiOn => Register::RccCr,
            Edit::SysclkFromHsi => Register::RccCfgr,
            Edit::SmpsFromHsi => Register::RccSmpscr,
            Edit::PwrClockOn => Register::RccApb1enr1,
            Edit::SmpsBypass => Register::PwrCr5,
            Edit::SelectLpms(_) => Register::PwrCr1,
            Edit::SelectLpmsCpu2(_) => Register::PwrC2cr1,
            Edit::SelectStopScale3 => Register::PwrPmcr,
        }
    }

    /// The word that replaces `word`, which was read from the register.
    pub fn apply(self, word: u32) -> (r: u32)
        ensures
            r == self.applied(word),
    {
        proof {
            lemma_fields(word);
        }
        match self {
            Edit::ClearWakeupFlag => pac::pwr_cr_set_cwuf(word, true),
            Edit::SelectStop => select_stop(word),
            Edit::VrefintOff => pac::syscfg_cfgr3_set_en_vrefint(word, false),
            Edit::AdcOff => pac::adc_cr_set_addis(word, true),
            Edit::Dac1Off => pac::dac_cr_set_en(word, 0, false),
            Edit::Dac2Off => pac::dac_cr_set_en(word, 1, false),
            Edit::FlashSleepPowerDown => pac::flash_acr_set_sleep_pd(word, true),
            Edit::RewritePwrCr => word,
            Edit::ClearCpu1StopFlags => word | 0x1,
            Edit::ClearCpu2StopFlags => word | 0x2,
            Edit::ClearStopFlags => word | 0x1,
            Edit::HsiOn => word | 0x100,
            Edit::SysclkFromHsi => (word & !0x3u32) | 0x1,
            Edit::SmpsFromHsi => word & !0x3u32,
            Edit::PwrClockOn => word | 0x1000_0000,
            Edit::SmpsBypass => (word & !0x8000u32) | 0x4000,
            Edit::SelectLpms(lpms) => (word & !0x7u32) | lpms.bits(),
            Edit::SelectLpmsCpu2(lpms) => (word & !0x7u32) | lpms.bits(),
            Edit::SelectStopScale3 => (word & !0xdu32) | 0xc,
        }
    }
}

/// The power control word of an STM32L0 that is to stop.
fn select_stop(word: u32) -> (r: u32)
    ensures
        r == Edit::SelectStop.applied(word),
{
    let cleared = pac::pwr_cr_set_cwuf(word, true);
    let ultra_low = pac::pwr_cr_set_ulp(cleared, true);
    let fast = pac::pwr_cr_set_fwu(ultra_low, true);
    let stop = pac::pwr_cr_set_pdds(fast, DeepSleep::Stop);
    let r = pac::pwr_cr_set_lpsdsr(stop, Regulator::LowPower);
    proof {
        assert((((((word | (1u32 << 2)) | (1u32 << 9)) | (1u32 << 10)) & !(1u32 << 1)) | (1u32
            << 0)) == ((word & !0x607u32) | 0x605u32)) by (bit_vector);
    }
    r
}

/// What the single-bit changes come to, as replaced fields.
proof fn lemma_fields(v: u32)
    ensures
        v | (1u32 << 2) == (v & !0x4u32) | 0x4,
        v & !(1u32 << 0) == (v & !0x1u32) | 0,
        v | (1u32 << 1) == (v & !0x2u32) | 0x2,
        v & !(1u32 << 16) == (v & !0x1_0000u32) | 0,
        v | (1u32 << 3) == (v & !0x8u32) | 0x8,
        v == (v & !0u32) | 0,
        v | 0x1 == (v & !0x1u32) | 0x1,
        v | 0x2 == (v & !0x2u32) | 0x2,
        v | 0x100 == (v & !0x100u32) | 0x100,
        v & !0x3u32 == (v & !0x3u32) | 0,
        v | 0x1000_0000 == (v & !0x1000_0000u32) | 0x1000_0000,
        (v & !0x8000u32) | 0x4000 == (v & !0xc000u32) | 0x4000,
{
    assert(v | (1u32 << 2) == (v & !0x4u32) | 0x4) by (bit_vector);
    assert(v & !(1u32 << 0) == (v & !0x1u32) | 0) by (bit_vector);
    assert(v | (1u32 << 1) == (v & !0x2u32) | 0x2) by (bit_vector);
    assert(v & !(1u32 << 16) == (v & !0x1_0000u32) | 0) by (bit_vector);
    assert(v | (1u32 << 3) == (v & !0x8u32) | 0x8) by (bit_vector);
    assert(v == (v & !0u32) | 0) by (bit_vector);
    assert(v | 0x1 == (v & !0x1u32) | 0x1) by (bit_vector);
    assert(v | 0x2 == (v & !0x2u32) | 0x2) by (bit_vector);
    assert(v | 0x100 == (v & !0x100u32) | 0x100) by (bit_vector);
    assert(v & !0x3u32 == (v & !0x3u32) | 0) by (bit_vector);
    assert(v | 0x1000_0000 == (v & !0x1000_0000u32) | 0x1000_0000) by (bit_vector);
    assert((v & !0x8000u32) | 0x4000 == (v & !0xc000u32) | 0x4000) by (bit_vector);
}

/// A state of a register that is waited for.
#[derive(Clone, Copy, Debug, PartialEq, Eq, Structural)]
pub enum Condition {
    /// STM32WB: the HSI oscillator is stable.
    HsiReady,
    /// STM32WB: the system clock runs from HSI.
    SysclkIsHsi,
}

impl Condition {
    /// The register that is watched.
    pub open spec fn target(self) -> Register {
        match self {
            Condition::HsiReady => Register::RccCr,
            Condition::SysclkIsHsi => Register::RccCfgr,
        }
    }

    /// The wait is over when the register reads `word`.
    pub open spec fn met(self, word: u32) -> bool {
        match self {
            Condition::HsiReady => pac::bit(word, 10),
            Condition::SysclkIsHsi => (word >> 2) & 3 == 1,
        }
    }

    /// The register that is watched.
    pub fn register(self) -> (r: Register)
        ensures
            r == self.target(),
    {
        match self {
            Condition::HsiReady => Register::RccCr,
            Condition::SysclkIsHsi => Register::RccCfgr,
        }
    }

    /// Whether the wait is over when the register reads `word`.
    pub fn holds(self, word: u32) -> (r: bool)
        ensures
            r == self.met(word),
    {
        match self {
            Condition::HsiReady => test_bit(word, 10),
            Condition::SysclkIsHsi => (word >> 2) & 3 == 1,
        }
    }
}

} // verus!
