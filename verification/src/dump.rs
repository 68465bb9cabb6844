//! A look at the registers that decide how much current a stopped STM32L0 draws.
use vstd::prelude::*;
use crate::op::Op;
use crate::register::{GpioRegister, Port, Register};

verus! {

/// The registers that are looked at before a stop, in the order they are read, with the bits that
/// matter in each:
///
/// * `SYSCFG_CFGR2`: 0 firewall disabled. `SYSCFG_CFGR3`: 13 reference for HSI48, 12 for
///   comparator 2, 9 for the temperature sensor, 8 for the ADC, 5-4 reference output (shall be
///   zero), 0 reference enabled
/// * `DMA_CCRx`: 2 half transfer interrupt, 1 transfer complete interrupt, 0 channel enable
/// * `ADC_CR`, `DAC_CR`, `TSC_CR`: 0 enable. `RNG_CR`: 2 enable
/// * `TIMx_CR1`, `LPTIM_CR`: 0 counter enable. `WWDG_CR`: 7 watchdog activated
/// * `I2Cx_CR1`: 0 enable. `USARTx_CR1`: 2 receiver enable, 1 enable in stop mode, 0 enable.
///   `LPUART_CR1`: 0 enable. `SPI_CR1`: 6 enable
/// * `USB_CNTR`: 1 power down, 0 force reset
/// * `DBG_CR`: 2 standby, 1 stop, 0 sleep; these bits are reset by a power cycle only
/// * `GPIOx_MODER`: all ones, analog. `GPIOx_AFRL`: zero
/// * `CRS_CR`: 5 frequency error counter
/// * `RCC_CR`: 24 PLL, 19 HSE security, 16 HSE, 9 MSI ready, 8 MSI, 5 HSI16 output, 1 HSI16 kept
///   on in stop mode, 0 HSI16. `RCC_CRRCR`: 0 HSI48. `RCC_IOPEN`: zero. `RCC_AHBENR`,
///   `RCC_APB2ENR`, `RCC_APB1ENR`: the peripheral clocks
/// * `PWR_CR`: 14 low-power run, 13 flash not woken, 12-11 voltage range, 9 ultra-low power (shall
///   be one), 1 standby instead of stop, 0 regulator in low-power mode
/// * `FLASH_ACR`: 4 power down in run mode, 3 power down in sleep
pub open spec fn dumped() -> Seq<Register> {
    seq![Register::SyscfgCfgr2, Register::SyscfgCfgr3] + Seq::new(
        6,
        |i: int| Register::Dma1Cr(i as u8),
    ) + seq![
        Register::Adc1Cr,
        Register::Dac1Cr,
        Register::TscCr,
        Register::RngCr,
        Register::Tim2Cr1,
        Register::Tim3Cr1,
        Register::Tim6Cr1,
        Register::Tim7Cr1,
        Register::Tim21Cr1,
        Register::Tim22Cr1,
        Register::Lptim1Cr,
        Register::WwdgCr,
        Register::I2c1Cr1,
        Register::I2c2Cr1,
        Register::I2c3Cr1,
        Register::Usart1Cr1,
        Register::Usart2Cr1,
        Register::Usart4Cr1,
        Register::Usart5Cr1,
        Register::Lpuart1Cr1,
        Register::Spi1Cr1,
        Register::UsbCntr,
        Register::DbgmcuCr,
    ] + dumped_of(Port::A) + dumped_of(Port::B) + dumped_of(Port::C) + dumped_of(Port::D)
        + dumped_of(Port::E) + dumped_of(Port::H) + seq![
        Register::CrsCr,
        Register::RccCr,
        Register::RccCrrcr,
        Register::RccGpioenr,
        Register::RccAhbenr,
        Register::RccApb2enr,
        Register::RccApb1enr,
        Register::PwrCr,
        Register::FlashAcr,
    ]
}

/// The registers of a port that are looked at.
pub open spec fn dumped_of(port: Port) -> Seq<Register> {
    seq![
        Register::Gpio(port, GpioRegister::Moder),
        Register::Gpio(port, GpioRegister::Afrl),
    ]
}

/// Reads the registers that matter in stop mode, one by one, and stays there for a debugger to
/// inspect the words.
pub fn pre_stop_register_dump() -> (r: Vec<Op>)
    ensures
        r@ == dumped().map_values(|register: Register| Op::Read(register)).push(Op::Spin),
{
    let r = vec![
        Op::Read(Register::SyscfgCfgr2),
        Op::Read(Register::SyscfgCfgr3),
        Op::Read(Register::Dma1Cr(0)),
        Op::Read(Register::Dma1Cr(1)),
        Op::Read(Register::Dma1Cr(2)),
        Op::Read(Register::Dma1Cr(3)),
        Op::Read(Register::Dma1Cr(4)),
        Op::Read(Register::Dma1Cr(5)),
        Op::Read(Register::Adc1Cr),
        Op::Read(Register::Dac1Cr),
        Op::Read(Register::TscCr),
        Op::Read(Register::RngCr),
        Op::Read(Register::Tim2Cr1),
        Op::Read(Register::Tim3Cr1),
        Op::Read(Register::Tim6Cr1),
        Op::Read(Register::Tim7Cr1),
        Op::Read(Register::Tim21Cr1),
        Op::Read(Register::Tim22Cr1),
        Op::Read(Register::Lptim1Cr),
        Op::Read(Register::WwdgCr),
        Op::Read(Register::I2c1Cr1),
        Op::Read(Register::I2c2Cr1),
        Op::Read(Register::I2c3Cr1),
        Op::Read(Register::Usart1Cr1),
        Op::Read(Register::Usart2Cr1),
        Op::Read(Register::Usart4Cr1),
        Op::Read(Register::Usart5Cr1),
        Op::Read(Register::Lpuart1Cr1),
        Op::Read(Register::Spi1Cr1),
        Op::Read(Register::UsbCntr),
        Op::Read(Register::DbgmcuCr),
        Op::Read(Register::Gpio(Port::A, GpioRegister::Moder)),
        Op::Read(Register::Gpio(Port::A, GpioRegister::Afrl)),
        Op::Read(Register::Gpio(Port::B, GpioRegister::Moder)),
        Op::Read(Register::Gpio(Port::B, GpioRegister::Afrl)),
        Op::Read(Register::Gpio(Port::C, GpioRegister::Moder)),
        Op::Read(Register::Gpio(Port::C, GpioRegister::Afrl)),
        Op::Read(Register::Gpio(Port::D, GpioRegister::Moder)),
        Op::Read(Register::Gpio(Port::D, GpioRegister::Afrl)),
        Op::Read(Register::Gpio(Port::E, GpioRegister::Moder)),
        Op::Read(Register::Gpio(Port::E, GpioRegister::Afrl)),
        Op::Read(Register::Gpio(Port::H, GpioRegister::Moder)),
        Op::Read(Register::Gpio(Port::H, GpioRegister::Afrl)),
        Op::Read(Register::CrsCr),
        Op::Read(Register::RccCr),
        Op::Read(Register::RccCrrcr),
        Op::Read(Register::RccGpioenr),
        Op::Read(Register::RccAhbenr),
        Op::Read(Register::RccApb2enr),
        Op::Read(Register::RccApb1enr),
        Op::Read(Register::PwrCr),
        Op::Read(Register::FlashAcr),
        Op::Spin,
    ];
    assert(r@ =~= dumped().map_values(|register: Register| Op::Read(register)).push(Op::Spin));
    r
}

/// Where the dump looks at a register, counted from 0.
pub open spec fn place_of(register: Register) -> int {
    match register {
        Register::SyscfgCfgr2 => 0,
        Register::SyscfgCfgr3 => 1,
        Register::Dma1Cr(channel) => 2 + channel,
        Register::Adc1Cr => 8,
        Register::Dac1Cr => 9,
        Register::TscCr => 10,
        Register::RngCr => 11,
        Register::Tim2Cr1 => 12,
        Register::Tim3Cr1 => 13,
        Register::Tim6Cr1 => 14,
        Register::Tim7Cr1 => 15,
        Register::Tim21Cr1 => 16,
        Register::Tim22Cr1 => 17,
        Register::Lptim1Cr => 18,
        Register::WwdgCr => 19,
        Register::I2c1Cr1 => 20,
        Register::I2c2Cr1 => 21,
        Register::I2c3Cr1 => 22,
        Register::Usart1Cr1 => 23,
        Register::Usart2Cr1 => 24,
        Register::Usart4Cr1 => 25,
        Register::Usart5Cr1 => 26,
        Register::Lpuart1Cr1 => 27,
        Register::Spi1Cr1 => 28,
        Register::UsbCntr => 29,
        Register::DbgmcuCr => 30,
        Register::Gpio(port, g) => 31 + (match port {
            Port::A => 0int,
            Port::B => 2,
            Port::C => 4,
            Port::D => 6,
            Port::E => 8,
            Port::H => 10,
        }) + (if g is Moder {
            0int
        } else {
            1
        }),
        Register::CrsCr => 43,
        Register::RccCr => 44,
        Register::RccCrrcr => 45,
        Register::RccGpioenr => 46,
        Register::RccAhbenr => 47,
        Register::RccApb2enr => 48,
        Register::RccApb1enr => 49,
        Register::PwrCr => 50,
        Register::FlashAcr => 51,
        _ => -1,
    }
}

/// The dump looks at the register.
spec fn looked_at(register: Register) -> bool {
    match register {
        Register::Gpio(_, g) => g is Moder || g is Afrl,
        Register::Dma1Cr(channel) => channel < 6,
        _ => place_of(register) >= 0,
    }
}

proof fn lemma_place_first(i: int)
    requires
        0 <= i < 31,
    ensures
        dumped().len() == 52,
        looked_at(dumped()[i]),
        place_of(dumped()[i]) == i,
{
}

proof fn lemma_place_last(i: int)
    requires
        31 <= i < 52,
    ensures
        looked_at(dumped()[i]),
        place_of(dumped()[i]) == i,
{
}

proof fn lemma_looked_at(register: Register)
    requires
        looked_at(register),
    ensures
        0 <= place_of(register) < 52,
        dumped()[place_of(register)] == register,
{
}

/// The dump looks at these registers and no others, at each of them once and in its place: first the
/// system configuration, then the peripherals, the ports, the clocks, and power and flash at last.
pub proof fn law_dumped(register: Register)
    ensures
        dumped().contains(register) <==> match register {
            Register::Gpio(_, GpioRegister::Moder) | Register::Gpio(_, GpioRegister::Afrl) => true,
            Register::Gpio(_, _) => false,
            Register::Dma1Cr(channel) => channel < 6,
            Register::RccCfgr | Register::RccApb1enr1 | Register::RccSmpscr => false,
            Register::PwrCsr | Register::PwrCr1 | Register::PwrC2cr1 | Register::PwrCr5 => false,
            Register::PwrPmcr | Register::PwrExtscr | Register::PwrSr => false,
            _ => true,
        },
        dumped().contains(register) ==> dumped()[place_of(register)] == register,
        dumped().no_duplicates(),
        dumped().len() == 52,
{
    lemma_place_first(0);
    if looked_at(register) {
        lemma_looked_at(register);
    }
    let all = dumped();
    assert forall|i: int| 0 <= i < all.len() implies looked_at(#[trigger] all[i]) && place_of(
        all[i],
    ) == i by {
        if i < 31 {
            lemma_place_first(i);
        } else {
            lemma_place_last(i);
        }
    }
}

} // verus!
