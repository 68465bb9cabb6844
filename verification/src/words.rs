//! The words that the registers hold while the core sleeps and after a sleep, bit by bit.
//!
//! Registers and bits are written out by name and number, and what decides between the cases is
//! written on the build options and on what the hardware reported.
use vstd::prelude::*;
use crate::chip::{Chip, Config, Lpms, StopMode};
use crate::gpio::{self, GpioContexts};
use crate::op::{self, Message, Op, Reply};
use crate::platform;
use crate::register::{Condition, Edit, GpioRegister, Register};
use crate::restore;
use crate::sleep;
use crate::state::Wait;
use crate::trace::{self, World};

verus! {

/// `word` with the bits of `mask` replaced by `value`.
spec fn put(word: u32, mask: u32, value: u32) -> u32 {
    (word & !mask) | value
}

/// What clearing the stop flags makes of `word`.
spec fn cleared(config: Config, register: Register, word: u32) -> u32 {
    match (config.chip, register) {
        (Chip::L0, Register::PwrCr) => put(word, 0x4, 0x4),
        (Chip::Wba, Register::PwrSr) => put(word, 0x1, 0x1),
        (Chip::Wb | Chip::Wl5x | Chip::Wlex, Register::PwrExtscr) => if config.core_cm0p {
            put(word, 0x2, 0x2)
        } else {
            put(word, 0x1, 0x1)
        },
        _ => word,
    }
}

proof fn lemma_cleared(config: Config, regs: Map<Register, u32>, register: Register)
    ensures
        op::effects(regs, platform::clear_flags_ops(config))[register] == cleared(
            config,
            register,
            regs[register],
        ),
{
    reveal_with_fuel(op::effects, 2);
}

/// The words once the stop flags are cleared and the permitted stop mode is asked for.
proof fn lemma_started(config: Config, regs: Map<Register, u32>, register: Register)
    ensures
        op::effects(regs, sleep::slow_ops(config) + sleep::configure_ops(config))[register]
            == cleared(config, register, regs[register]),
{
    let slow = sleep::slow_ops(config);
    let clear = seq![Op::ClearSleepdeep];
    let flags = platform::clear_flags_ops(config);
    let ask = seq![Op::CompilerFence, Op::GetStopMode];
    op::lemma_effects_add(regs, slow, sleep::configure_ops(config));
    op::lemma_silent(regs, slow);
    op::lemma_effects_add(regs, clear + flags, ask);
    op::lemma_effects_add(regs, clear, flags);
    op::lemma_silent(regs, clear);
    op::lemma_silent(op::effects(regs, clear + flags), ask);
    lemma_cleared(config, regs, register);
}

/// The LPMS field that a stop mode asks for.
spec fn field(config: Config, mode: StopMode) -> u32 {
    if mode is Stop1 {
        1
    } else if config.chip is Wba {
        0
    } else {
        2
    }
}

/// What selecting `mode` makes of `word`.
spec fn selected(config: Config, mode: StopMode, register: Register, word: u32) -> u32 {
    match config.chip {
        Chip::L0 => match register {
            Register::PwrCr => put(word, 0x607, 0x605),
            Register::SyscfgCfgr3 => put(word, 0x1, 0),
            Register::Adc1Cr => put(word, 0x2, 0x2),
            Register::Dac1Cr => put(put(word, 0x1, 0), 0x1_0000, 0),
            _ => word,
        },
        Chip::H5 => if register is PwrPmcr {
            put(word, 0xd, 0xc)
        } else {
            word
        },
        Chip::Other => word,
        _ => if config.core_cm0p && register is PwrC2cr1 || !config.core_cm0p && register is PwrCr1 {
            put(word, 0x7, field(config, mode))
        } else {
            word
        },
    }
}

proof fn lemma_selected(
    config: Config,
    mode: StopMode,
    regs: Map<Register, u32>,
    register: Register,
)
    ensures
        op::effects(regs, platform::select_ops(config, mode))[register] == selected(
            config,
            mode,
            register,
            regs[register],
        ),
{
    reveal_with_fuel(op::effects, 6);
}

/// What moving the clocks to HSI makes of `word`.
spec fn switched(register: Register, word: u32) -> u32 {
    match register {
        Register::RccCr => put(word, 0x100, 0x100),
        Register::RccCfgr => put(word, 0x3, 0x1),
        Register::RccSmpscr => put(word, 0x3, 0),
        _ => word,
    }
}

proof fn lemma_switched(regs: Map<Register, u32>, register: Register)
    ensures
        op::effects(regs, platform::hsi_ops())[register] == switched(register, regs[register]),
{
    reveal_with_fuel(op::effects, 6);
}

/// What the step-down converter's bypass makes of `word`.
spec fn bypassed(register: Register, word: u32) -> u32 {
    match register {
        Register::RccApb1enr1 => put(word, 0x1000_0000, 0x1000_0000),
        Register::PwrCr5 => put(word, 0xc000, 0x4000),
        _ => word,
    }
}

proof fn lemma_settled(
    config: Config,
    mode: StopMode,
    regs: Map<Register, u32>,
    register: Register,
)
    ensures
        op::effects(regs, platform::settled_ops(config, mode))[register] == selected(
            config,
            mode,
            register,
            bypassed(register, regs[register]),
        ),
{
    let power = seq![
        Op::Modify(Edit::PwrClockOn),
        Op::Dsb,
        Op::Modify(Edit::SmpsBypass),
        Op::Delay(1000),
    ];
    let select = platform::select_ops(config, mode);
    let unlock = seq![Op::Unlock { sem: 3 }];
    op::lemma_effects_add(regs, power + select, unlock);
    op::lemma_effects_add(regs, power, select);
    op::lemma_silent(op::effects(regs, power + select), unlock);
    lemma_selected(config, mode, op::effects(regs, power), register);
    assert(op::effects(regs, power)[register] == bypassed(register, regs[register])) by {
        reveal_with_fuel(op::effects, 5);
    }
}

/// CPU2 keeps the clocks: semaphore 4 is refused, or CPU2 is in deep sleep.
spec fn keeps_clocks(world: World, mode: StopMode) -> bool {
    !trace::sem4(world, mode) || trace::cpu2_asleep(world, mode)
}

/// What entering stop mode makes of `word`.
spec fn entered(
    config: Config,
    mode: StopMode,
    world: World,
    register: Register,
    word: u32,
) -> u32 {
    if !(config.chip is Wb) {
        selected(config, mode, register, word)
    } else if keeps_clocks(world, mode) {
        selected(config, mode, register, bypassed(register, switched(register, word)))
    } else {
        selected(config, mode, register, bypassed(register, word))
    }
}

proof fn lemma_entered(
    config: Config,
    mode: StopMode,
    world: World,
    regs: Map<Register, u32>,
    register: Register,
)
    requires
        config.chip is Wb ==> trace::sem3(world, mode),
    ensures
        op::effects(regs, trace::enter_trace(config, mode, world))[register] == entered(
            config,
            mode,
            world,
            register,
            regs[register],
        ),
{
    reveal(trace::enter_trace);
    if !(config.chip is Wb) {
        lemma_selected(config, mode, regs, register);
    } else {
        let settled = platform::settled_ops(config, mode);
        let hsi = platform::hsi_ops();
        let asked = platform::ask_sem3_ops() + platform::ask_sem4_ops();
        let head = if trace::sem4(world, mode) {
            asked + platform::ask_cpu2_ops() + seq![Op::Unlock { sem: 4 }]
        } else {
            asked
        };
        let switch = if keeps_clocks(world, mode) {
            hsi
        } else {
            seq![]
        };
        assert(trace::enter_trace(config, mode, world) == head + switch + settled);
        assert forall|i: int| 0 <= i < head.len() implies op::is_silent(#[trigger] head[i]) by {}
        op::lemma_silent(regs, head);
        op::lemma_effects_add(regs, head + switch, settled);
        op::lemma_effects_add(regs, head, switch);
        lemma_settled(config, mode, op::effects(regs, head + switch), register);
        lemma_switched(regs, register);
    }
}

/// What configuring the power controller makes of `word` once the permitted stop mode is known.
spec fn decided(config: Config, world: World, register: Register, word: u32) -> u32 {
    match trace::permitted(world) {
        None => if config.use_low_power_sleep && register is FlashAcr {
            put(word, 0x8, 0x8)
        } else {
            word
        },
        Some(mode) => if trace::reaches_stop(config, world) {
            entered(config, mode, world, register, word)
        } else {
            word
        },
    }
}

proof fn lemma_decided(
    config: Config,
    world: World,
    regs: Map<Register, u32>,
    register: Register,
)
    ensures
        op::effects(regs, trace::decided_trace(config, world))[register] == decided(
            config,
            world,
            register,
            regs[register],
        ),
{
    reveal(trace::decided_trace);
    match trace::permitted(world) {
        None => {
            let word = regs[Register::PwrCr];
            assert(put(word, 0, 0) == word) by {
                lemma_puts(word);
            }
            reveal_with_fuel(op::effects, 4);
        },
        Some(mode) => {
            let pause = seq![Op::PauseTime];
            let entry = trace::enter_trace(config, mode, world);
            let last = if trace::reaches_stop(config, world) {
                sleep::entered_ops(config, mode)
            } else {
                sleep::refused_ops()
            };
            op::lemma_silent(regs, pause);
            op::lemma_silent(regs, seq![Op::PauseTime, Op::Log(Message::PauseFailed)]);
            if trace::paused(world, mode) {
                op::lemma_effects_add(regs, pause + entry, last);
                op::lemma_effects_add(regs, pause, entry);
                op::lemma_silent(op::effects(regs, pause + entry), last);
                if trace::reaches_stop(config, world) {
                    lemma_entered(config, mode, world, regs, register);
                } else {
                    reveal(trace::enter_trace);
                    op::lemma_silent(regs, entry);
                }
            }
        },
    }
}

/// What turning the ports off makes of `word`.
spec fn gated(config: Config, register: Register, word: u32) -> u32 {
    if config.chip is L0 && config.no_gpios_while_stop {
        match register {
            Register::Gpio(_, GpioRegister::Moder) => 0xffff_ffffu32,
            Register::Gpio(_, GpioRegister::Pupdr) => 0,
            Register::RccGpioenr => 0,
            _ => word,
        }
    } else {
        word
    }
}

/// The word of a register when the core executes WFI.
proof fn lemma_asleep(config: Config, world: World, regs: Map<Register, u32>, register: Register)
    ensures
        op::effects(regs, trace::before_wfi(config, world))[register] == gated(
            config,
            register,
            decided(config, world, register, cleared(config, register, regs[register])),
        ),
{
    let start = sleep::slow_ops(config) + sleep::configure_ops(config);
    let middle = trace::decided_trace(config, world);
    let flush = sleep::flush_ops(config);
    let off = trace::gpio_off_trace(config);
    op::lemma_effects_add(regs, start + middle + flush, off);
    op::lemma_effects_add(regs, start + middle, flush);
    op::lemma_effects_add(regs, start, middle);
    lemma_started(config, regs, register);
    lemma_decided(config, world, op::effects(regs, start), register);
    let there = op::effects(regs, start + middle);
    op::lemma_silent(there, flush);
    reveal(trace::gpio_off_trace);
    if config.chip is L0 && config.no_gpios_while_stop {
        let reads = gpio::stored_reads();
        op::lemma_effects_add(there, reads, gpio::disable_ops());
        assert(op::effects(there, reads) == there) by {
            reveal(gpio::stored_reads);
            assert(forall|i: int| 0 <= i < reads.len() ==> reads[i] is Read);
            op::lemma_reads(there, reads);
        }
        restore::law_gpio_off(there, register);
    }
}

/// Waking up changes no register but the ports and the port clocks, and those only where they were
/// turned off for the sleep: after the sleep every other register holds what it held when the core
/// executed WFI.
pub proof fn law_words_after_wfi(config: Config, world: World, regs: Map<Register, u32>, register: Register)
    requires
        !(config.chip is L0 && config.no_gpios_while_stop && (register is Gpio
            || register is RccGpioenr)),
    ensures
        op::effects(regs, trace::sleep_trace(config, world))[register] == op::effects(
            regs,
            trace::before_wfi(config, world),
        )[register],
{
    let before = trace::before_wfi(config, world);
    let wfi = sleep::wfi_ops();
    let on = trace::gpio_on_trace(config, world);
    let wake = trace::wakeup_trace(config, world);
    let fast = sleep::fast_ops(config);
    let asleep = op::effects(regs, before);
    op::lemma_effects_add(regs, before + wfi, trace::after_wfi(config, world));
    op::lemma_effects_add(regs, before, wfi);
    op::lemma_silent(asleep, wfi);
    op::lemma_effects_add(asleep, on + wake, fast);
    op::lemma_effects_add(asleep, on, wake);
    let ported = op::effects(asleep, on);
    op::lemma_silent(op::effects(asleep, on + wake), fast);
    assert(ported[register] == asleep[register]) by {
        reveal(trace::gpio_on_trace);
        if config.chip is L0 && config.no_gpios_while_stop {
            restore::lemma_recover(
                asleep,
                GpioContexts::from_words(trace::ports(world)),
                trace::ports(world)[48],
                register,
            );
        }
    }
    lemma_asleep(config, world, regs, register);
    lemma_woken(config, world, ported, register);
    lemma_puts(regs[register]);
}

/// What leaving stop mode makes of a word.
proof fn lemma_woken(config: Config, world: World, regs: Map<Register, u32>, register: Register)
    ensures
        op::effects(regs, trace::wakeup_trace(config, world))[register]
            == if trace::reaches_stop(config, world) {
            cleared(config, register, regs[register])
        } else {
            regs[register]
        },
{
    reveal(trace::wakeup_trace);
    if trace::reaches_stop(config, world) {
        let status = trace::status(world);
        let exit = platform::exit_ops(config);
        let head = platform::rcc_ops(config.chip, status) + platform::report_ops(
            config.chip,
            status,
        );
        let flags = platform::clear_flags_ops(config);
        let unlock = if config.chip is Wl5x {
            seq![Op::Unlock { sem: 3 }]
        } else {
            seq![]
        };
        let timer = platform::timer_ops(config, status);
        let all = platform::status_ops(config, status);
        let resumed = sleep::resumed_ops();
        op::lemma_silent(regs, exit);
        op::lemma_silent(regs, resumed);
        op::lemma_silent(regs, head);
        op::lemma_effects_add(regs, exit + all, resumed);
        op::lemma_effects_add(regs, exit, all);
        op::lemma_silent(op::effects(regs, exit + all), resumed);
        op::lemma_effects_add(regs, head + flags + unlock, timer);
        op::lemma_effects_add(regs, head + flags, unlock);
        op::lemma_effects_add(regs, head, flags);
        let done = op::effects(regs, flags);
        op::lemma_silent(done, unlock);
        op::lemma_silent(done, timer);
        lemma_cleared(config, regs, register);
    }
}

/// What the replaced fields come to, and what they keep.
proof fn lemma_puts(w: u32)
    by (bit_vector)
    ensures
        put(w, 0, 0) == w,
        put(w, 0x1, 0x1) == w | 0x1,
        put(w, 0x2, 0x2) == w | 0x2,
        put(w, 0x4, 0x4) == w | 0x4,
        put(w, 0x8, 0x8) == w | 0x8,
        put(w, 0x100, 0x100) == w | 0x100,
        put(w, 0x1000_0000, 0x1000_0000) == w | 0x1000_0000,
        put(w, 0x1, 0) == w & !0x1u32,
        put(w, 0x3, 0) == w & !0x3u32,
        put(put(w, 0x1, 0), 0x1_0000, 0) == w & !0x1_0001u32,
        put(put(w, 0x4, 0x4), 0x607, 0x605) == (w & !0x607u32) | 0x605,
        put(put(w, 0x1, 0x1), 0x1, 0x1) == w | 0x1,
        put(put(w, 0x2, 0x2), 0x2, 0x2) == w | 0x2,
        put(put(w, 0x4, 0x4), 0x4, 0x4) == w | 0x4,
        put((w & !0x607u32) | 0x605, 0x4, 0x4) == (w & !0x607u32) | 0x605,
{
}

// STM32WB.

/// On STM32WB, when the core executes WFI in a sleep that entered stop mode, the power controller
/// is clocked (RCC_APB1ENR1 bit 28) and the step-down converter is bypassed (PWR_CR5 bits 15-14 are
/// 01). If CPU2 keeps the clocks, because semaphore 4 was refused or because CPU2 reported deep
/// sleep in bit 15 of PWR_EXTSCR, then HSI is on (RCC_CR bit 8) and both the system clock
/// (RCC_CFGR bits 1-0 are 01) and the step-down converter (RCC_SMPSCR bits 1-0 are 00) run from it;
/// if it does not, those three registers are as before the sleep. Every other bit of the five is as
/// before the sleep, and all of this still holds after it.
pub proof fn law_wb_clocks_at_wfi(
    config: Config,
    world: World,
    mode: StopMode,
    extscr: u32,
    regs: Map<Register, u32>,
)
    requires
        config.chip is Wb,
        world(Wait::StopMode) == Reply::StopMode(Some(mode)),
        world(Wait::PauseTime(mode)) == Reply::Success(true),
        world(Wait::Sem3(mode)) == Reply::Success(true),
        world(Wait::Sem4(mode)) == Reply::Success(false) || {
            &&& world(Wait::Sem4(mode)) == Reply::Success(true)
            &&& world(Wait::Extscr(mode)) is Words
            &&& (world(Wait::Extscr(mode))->Words_0)@ == seq![extscr]
        },
    ensures
        ({
            let asleep = op::effects(regs, trace::before_wfi(config, world));
            let awake = op::effects(regs, trace::sleep_trace(config, world));
            let keeps = world(Wait::Sem4(mode)) == Reply::Success(false) || (extscr >> 15) & 1 == 1;
            &&& keeps ==> {
                &&& asleep[Register::RccCr] == regs[Register::RccCr] | 0x100
                &&& asleep[Register::RccCfgr] == (regs[Register::RccCfgr] & !0x3u32) | 0x1
                &&& asleep[Register::RccSmpscr] == regs[Register::RccSmpscr] & !0x3u32
            }
            &&& !keeps ==> {
                &&& asleep[Register::RccCr] == regs[Register::RccCr]
                &&& asleep[Register::RccCfgr] == regs[Register::RccCfgr]
                &&& asleep[Register::RccSmpscr] == regs[Register::RccSmpscr]
            }
            &&& asleep[Register::RccApb1enr1] == regs[Register::RccApb1enr1] | 0x1000_0000
            &&& asleep[Register::PwrCr5] == (regs[Register::PwrCr5] & !0xc000u32) | 0x4000
            &&& awake[Register::RccCr] == asleep[Register::RccCr]
            &&& awake[Register::RccCfgr] == asleep[Register::RccCfgr]
            &&& awake[Register::RccSmpscr] == asleep[Register::RccSmpscr]
            &&& awake[Register::RccApb1enr1] == asleep[Register::RccApb1enr1]
            &&& awake[Register::PwrCr5] == asleep[Register::PwrCr5]
        }),
{
    lemma_asleep(config, world, regs, Register::RccCr);
    lemma_asleep(config, world, regs, Register::RccCfgr);
    lemma_asleep(config, world, regs, Register::RccSmpscr);
    lemma_asleep(config, world, regs, Register::RccApb1enr1);
    lemma_asleep(config, world, regs, Register::PwrCr5);
    law_words_after_wfi(config, world, regs, Register::RccCr);
    law_words_after_wfi(config, world, regs, Register::RccCfgr);
    law_words_after_wfi(config, world, regs, Register::RccSmpscr);
    law_words_after_wfi(config, world, regs, Register::RccApb1enr1);
    law_words_after_wfi(config, world, regs, Register::PwrCr5);
    lemma_puts(regs[Register::RccCr]);
    lemma_puts(regs[Register::RccSmpscr]);
    lemma_puts(regs[Register::RccApb1enr1]);
}

// The selected stop mode.

/// On every chip with an LPMS field, when the core executes WFI in a sleep that entered stop mode,
/// the low three bits of PWR_CR1 (on the Cortex-M0+ core, of PWR_C2CR1) are 1 if the permitted mode
/// is STOP1; otherwise they are 0 on STM32WBA and 2 on the other chips. The other bits are as before
/// the sleep, and so is the whole register of the other core.
pub proof fn law_lpms_at_wfi(
    config: Config,
    world: World,
    mode: StopMode,
    regs: Map<Register, u32>,
)
    requires
        config.chip != Chip::L0,
        config.chip != Chip::H5,
        config.chip != Chip::Other,
        world(Wait::StopMode) == Reply::StopMode(Some(mode)),
        world(Wait::PauseTime(mode)) == Reply::Success(true),
        config.chip is Wb ==> world(Wait::Sem3(mode)) == Reply::Success(true),
    ensures
        ({
            let asleep = op::effects(regs, trace::before_wfi(config, world));
            let (own, other) = if config.core_cm0p {
                (Register::PwrC2cr1, Register::PwrCr1)
            } else {
                (Register::PwrCr1, Register::PwrC2cr1)
            };
            &&& asleep[own] & 0x7 == if mode == StopMode::Stop1 {
                1u32
            } else if config.chip == Chip::Wba {
                0
            } else {
                2
            }
            &&& asleep[own] & !0x7u32 == regs[own] & !0x7u32
            &&& asleep[other] == regs[other]
        }),
{
    lemma_asleep(config, world, regs, Register::PwrCr1);
    lemma_asleep(config, world, regs, Register::PwrC2cr1);
    lemma_field(regs[Register::PwrCr1]);
    lemma_field(regs[Register::PwrC2cr1]);
}

proof fn lemma_field(w: u32)
    by (bit_vector)
    ensures
        put(w, 0x7, 0) & 0x7 == 0,
        put(w, 0x7, 1) & 0x7 == 1,
        put(w, 0x7, 2) & 0x7 == 2,
        put(w, 0x7, 0) & !0x7u32 == w & !0x7u32,
        put(w, 0x7, 1) & !0x7u32 == w & !0x7u32,
        put(w, 0x7, 2) & !0x7u32 == w & !0x7u32,
{
}

/// On STM32L0, when the core executes WFI in a sleep that entered stop mode, PWR_CR asks for stop
/// mode (bit 1 clear) with the regulator in low-power mode (bit 0), without the voltage reference
/// (bit 9) and with fast wakeup (bit 10), and clears the wakeup flag (bit 2); the voltage reference
/// (SYSCFG_CFGR3 bit 0) and both DAC channels (DAC_CR bits 0 and 16) are off, and the ADC is told to
/// turn itself off (ADC_CR bit 1). Every other bit is as before the sleep, whichever stop mode is
/// permitted.
pub proof fn law_l0_stop_at_wfi(
    config: Config,
    world: World,
    mode: StopMode,
    regs: Map<Register, u32>,
)
    requires
        config.chip is L0,
        world(Wait::StopMode) == Reply::StopMode(Some(mode)),
        world(Wait::PauseTime(mode)) == Reply::Success(true),
    ensures
        ({
            let asleep = op::effects(regs, trace::before_wfi(config, world));
            &&& asleep[Register::PwrCr] == (regs[Register::PwrCr] & !0x607u32) | 0x605
            &&& asleep[Register::SyscfgCfgr3] == regs[Register::SyscfgCfgr3] & !0x1u32
            &&& asleep[Register::Adc1Cr] == regs[Register::Adc1Cr] | 0x2
            &&& asleep[Register::Dac1Cr] == regs[Register::Dac1Cr] & !0x1_0001u32
        }),
{
    lemma_asleep(config, world, regs, Register::PwrCr);
    lemma_asleep(config, world, regs, Register::SyscfgCfgr3);
    lemma_asleep(config, world, regs, Register::Adc1Cr);
    lemma_asleep(config, world, regs, Register::Dac1Cr);
    lemma_puts(regs[Register::PwrCr]);
    lemma_puts(regs[Register::SyscfgCfgr3]);
    lemma_puts(regs[Register::Adc1Cr]);
    lemma_puts(regs[Register::Dac1Cr]);
}

/// On STM32H5, when the core executes WFI in a sleep that entered stop mode, PWR_PMCR asks for stop
/// mode (bit 0 clear) at voltage scale 3 (bits 3-2 are 11), whichever stop mode is permitted. Every
/// other bit is as before the sleep.
pub proof fn law_h5_stop_at_wfi(
    config: Config,
    world: World,
    mode: StopMode,
    regs: Map<Register, u32>,
)
    requires
        config.chip is H5,
        world(Wait::StopMode) == Reply::StopMode(Some(mode)),
        world(Wait::PauseTime(mode)) == Reply::Success(true),
    ensures
        op::effects(regs, trace::before_wfi(config, world))[Register::PwrPmcr] == (
        regs[Register::PwrPmcr] & !0xdu32) | 0xc,
{
    lemma_asleep(config, world, regs, Register::PwrPmcr);
}

// Stop flags.

/// Whatever the hardware reports, when the core executes WFI and after the sleep a one has been
/// written to the bit that clears the stop flags of the running core: PWR_SR bit 0 on STM32WBA, and
/// on STM32WB and both STM32WL families PWR_EXTSCR bit 0, or bit 1 on the Cortex-M0+ core. The other
/// bits of these registers are as before the sleep. On STM32L0 it is bit 2 of PWR_CR.
pub proof fn law_flags_cleared_at_wfi(config: Config, world: World, regs: Map<Register, u32>)
    ensures
        ({
            let asleep = op::effects(regs, trace::before_wfi(config, world));
            let awake = op::effects(regs, trace::sleep_trace(config, world));
            &&& asleep[Register::PwrExtscr] == match config.chip {
                Chip::Wb | Chip::Wl5x | Chip::Wlex => if config.core_cm0p {
                    regs[Register::PwrExtscr] | 0x2
                } else {
                    regs[Register::PwrExtscr] | 0x1
                },
                _ => regs[Register::PwrExtscr],
            }
            &&& asleep[Register::PwrSr] == match config.chip {
                Chip::Wba => regs[Register::PwrSr] | 0x1,
                _ => regs[Register::PwrSr],
            }
            &&& config.chip == Chip::L0 ==> asleep[Register::PwrCr] & 0x4 == 0x4
            &&& awake[Register::PwrExtscr] == asleep[Register::PwrExtscr]
            &&& awake[Register::PwrSr] == asleep[Register::PwrSr]
            &&& awake[Register::PwrCr] == asleep[Register::PwrCr]
        }),
{
    lemma_asleep(config, world, regs, Register::PwrExtscr);
    lemma_asleep(config, world, regs, Register::PwrSr);
    lemma_asleep(config, world, regs, Register::PwrCr);
    law_words_after_wfi(config, world, regs, Register::PwrExtscr);
    law_words_after_wfi(config, world, regs, Register::PwrSr);
    law_words_after_wfi(config, world, regs, Register::PwrCr);
    lemma_puts(regs[Register::PwrExtscr]);
    lemma_puts(regs[Register::PwrSr]);
    let w = regs[Register::PwrCr];
    lemma_puts(w);
    assert((w | 0x4) & 0x4 == 0x4 && ((w & !0x607u32) | 0x605) & 0x4 == 0x4) by (bit_vector);
}

// Sleeps without a stop.

/// Where low-power sleep is used and no stop mode is permitted, FLASH_ACR has bit 3 set when the
/// core executes WFI: the flash powers down with the core. Its other bits are as before the sleep.
/// In every other sleep the whole register is.
pub proof fn law_flash_at_wfi(
    config: Config,
    world: World,
    mode: Option<StopMode>,
    regs: Map<Register, u32>,
)
    requires
        world(Wait::StopMode) == Reply::StopMode(mode),
    ensures
        ({
            let asleep = op::effects(regs, trace::before_wfi(config, world));
            let awake = op::effects(regs, trace::sleep_trace(config, world));
            &&& asleep[Register::FlashAcr] == if config.use_low_power_sleep && mode is None {
                regs[Register::FlashAcr] | 0x8
            } else {
                regs[Register::FlashAcr]
            }
            &&& awake[Register::FlashAcr] == asleep[Register::FlashAcr]
        }),
{
    lemma_asleep(config, world, regs, Register::FlashAcr);
    law_words_after_wfi(config, world, regs, Register::FlashAcr);
    lemma_puts(regs[Register::FlashAcr]);
}

/// A sleep that does not enter stop mode, because none is permitted, because time cannot be paused,
/// or because semaphore 3 is refused on STM32WB, selects none: when the core executes WFI, every
/// register is as before the sleep but for the flags, the ports, and the flash in low-power sleep.
pub proof fn law_nothing_selected(
    config: Config,
    world: World,
    mode: Option<StopMode>,
    regs: Map<Register, u32>,
    register: Register,
)
    requires
        world(Wait::StopMode) == Reply::StopMode(mode),
        mode matches Some(m) ==> world(Wait::PauseTime(m)) == Reply::Success(false) || config.chip
            is Wb && world(Wait::Sem3(m)) == Reply::Success(false),
        register != Register::FlashAcr,
        register != Register::PwrExtscr,
        register != Register::PwrSr,
        register != Register::RccGpioenr,
        !(register is Gpio),
    ensures
        op::effects(regs, trace::before_wfi(config, world))[register] == if config.chip is L0
            && register is PwrCr {
            regs[register] | 0x4
        } else {
            regs[register]
        },
{
    lemma_asleep(config, world, regs, register);
    lemma_puts(regs[register]);
}

// Kept bits.

/// Whatever the hardware reports, a sleep changes no bits but these: when the core executes WFI, and
/// again after the sleep, every register holds the word from before the sleep outside a mask. A
/// register that is not listed is not changed at all.
pub proof fn law_bits_kept(
    config: Config,
    world: World,
    regs: Map<Register, u32>,
    register: Register,
)
    ensures
        ({
            let lpms = config.chip != Chip::L0 && config.chip != Chip::H5 && config.chip
                != Chip::Other;
            let mask: u32 = match register {
                Register::FlashAcr => if config.use_low_power_sleep {
                    0x8
                } else {
                    0
                },
                Register::PwrCr => if config.chip == Chip::L0 {
                    0x607
                } else {
                    0
                },
                Register::SyscfgCfgr3 => if config.chip == Chip::L0 {
                    0x1
                } else {
                    0
                },
                Register::Adc1Cr => if config.chip == Chip::L0 {
                    0x2
                } else {
                    0
                },
                Register::Dac1Cr => if config.chip == Chip::L0 {
                    0x1_0001
                } else {
                    0
                },
                Register::PwrExtscr => if config.chip == Chip::Wb || config.chip == Chip::Wl5x
                    || config.chip == Chip::Wlex {
                    if config.core_cm0p {
                        0x2
                    } else {
                        0x1
                    }
                } else {
                    0
                },
                Register::PwrSr => if config.chip == Chip::Wba {
                    0x1
                } else {
                    0
                },
                Register::RccCr => if config.chip == Chip::Wb {
                    0x100
                } else {
                    0
                },
                Register::RccCfgr => if config.chip == Chip::Wb {
                    0x3
                } else {
                    0
                },
                Register::RccSmpscr => if config.chip == Chip::Wb {
                    0x3
                } else {
                    0
                },
                Register::RccApb1enr1 => if config.chip == Chip::Wb {
                    0x1000_0000
                } else {
                    0
                },
                Register::PwrCr5 => if config.chip == Chip::Wb {
                    0xc000
                } else {
                    0
                },
                Register::PwrCr1 => if lpms && !config.core_cm0p {
                    0x7
                } else {
                    0
                },
                Register::PwrC2cr1 => if lpms && config.core_cm0p {
                    0x7
                } else {
                    0
                },
                Register::PwrPmcr => if config.chip == Chip::H5 {
                    0xd
                } else {
                    0
                },
                Register::Gpio(_, _) | Register::RccGpioenr => if config.chip == Chip::L0
                    && config.no_gpios_while_stop {
                    0xffff_ffff
                } else {
                    0
                },
                _ => 0,
            };
            let asleep = op::effects(regs, trace::before_wfi(config, world))[register];
            let awake = op::effects(regs, trace::sleep_trace(config, world))[register];
            &&& asleep & !mask == regs[register] & !mask
            &&& awake & !mask == regs[register] & !mask
            &&& mask == 0 ==> asleep == regs[register] && awake == regs[register]
        }),
{
    let w = regs[register];
    lemma_asleep(config, world, regs, register);
    lemma_puts(w);
    lemma_kept(w);
    lemma_field(w);
    if config.chip is L0 && config.no_gpios_while_stop && (register is Gpio || register
        is RccGpioenr) {
        let asleep = op::effects(regs, trace::before_wfi(config, world))[register];
        let awake = op::effects(regs, trace::sleep_trace(config, world))[register];
        assert(asleep & !0xffff_ffffu32 == w & !0xffff_ffffu32 && awake & !0xffff_ffffu32 == w
            & !0xffff_ffffu32) by (bit_vector);
    } else {
        law_words_after_wfi(config, world, regs, register);
    }
}

/// The replaced fields keep what is outside them.
proof fn lemma_kept(w: u32)
    by (bit_vector)
    ensures
        (w | 0x8) & !0x8u32 == w & !0x8u32,
        (w | 0x4) & !0x607u32 == w & !0x607u32,
        ((w & !0x607u32) | 0x605) & !0x607u32 == w & !0x607u32,
        (w & !0x1u32) & !0x1u32 == w & !0x1u32,
        (w | 0x1) & !0x1u32 == w & !0x1u32,
        (w | 0x2) & !0x2u32 == w & !0x2u32,
        (w & !0x1_0001u32) & !0x1_0001u32 == w & !0x1_0001u32,
        (w | 0x100) & !0x100u32 == w & !0x100u32,
        ((w & !0x3u32) | 0x1) & !0x3u32 == w & !0x3u32,
        (w & !0x3u32) & !0x3u32 == w & !0x3u32,
        (w | 0x1000_0000) & !0x1000_0000u32 == w & !0x1000_0000u32,
        ((w & !0xc000u32) | 0x4000) & !0xc000u32 == w & !0xc000u32,
        ((w & !0xdu32) | 0xc) & !0xdu32 == w & !0xdu32,
{
}

// Single edits and conditions.

/// Each edit, performed on its own, changes one register, and there one field: which, and to what,
/// stands here in numbers.
pub proof fn law_edit_words(edit: Edit, regs: Map<Register, u32>, register: Register)
    ensures
        ({
            let word = regs[register];
            op::effect(regs, Op::Modify(edit))[register] == match (edit, register) {
                (Edit::ClearWakeupFlag, Register::PwrCr) => word | 0x4,
                (Edit::SelectStop, Register::PwrCr) => (word & !0x607u32) | 0x605,
                (Edit::VrefintOff, Register::SyscfgCfgr3) => word & !0x1u32,
                (Edit::AdcOff, Register::Adc1Cr) => word | 0x2,
                (Edit::Dac1Off, Register::Dac1Cr) => word & !0x1u32,
                (Edit::Dac2Off, Register::Dac1Cr) => word & !0x1_0000u32,
                (Edit::FlashSleepPowerDown, Register::FlashAcr) => word | 0x8,
                (Edit::ClearCpu1StopFlags, Register::PwrExtscr) => word | 0x1,
                (Edit::ClearCpu2StopFlags, Register::PwrExtscr) => word | 0x2,
                (Edit::ClearStopFlags, Register::PwrSr) => word | 0x1,
                (Edit::HsiOn, Register::RccCr) => word | 0x100,
                (Edit::SysclkFromHsi, Register::RccCfgr) => (word & !0x3u32) | 0x1,
                (Edit::SmpsFromHsi, Register::RccSmpscr) => word & !0x3u32,
                (Edit::PwrClockOn, Register::RccApb1enr1) => word | 0x1000_0000,
                (Edit::SmpsBypass, Register::PwrCr5) => (word & !0xc000u32) | 0x4000,
                (Edit::SelectLpms(Lpms::Stop0), Register::PwrCr1) => word & !0x7u32,
                (Edit::SelectLpms(Lpms::Stop1), Register::PwrCr1) => (word & !0x7u32) | 0x1,
                (Edit::SelectLpms(Lpms::Stop2), Register::PwrCr1) => (word & !0x7u32) | 0x2,
                (Edit::SelectLpmsCpu2(Lpms::Stop0), Register::PwrC2cr1) => word & !0x7u32,
                (Edit::SelectLpmsCpu2(Lpms::Stop1), Register::PwrC2cr1) => (word & !0x7u32) | 0x1,
                (Edit::SelectLpmsCpu2(Lpms::Stop2), Register::PwrC2cr1) => (word & !0x7u32) | 0x2,
                (Edit::SelectStopScale3, Register::PwrPmcr) => (word & !0xdu32) | 0xc,
                _ => word,
            }
        }),
{
    lemma_puts(regs[register]);
    let w = regs[register];
    assert((w & !0x7u32) | 0 == w & !0x7u32 && (w & !0x1_0000u32) | 0 == w & !0x1_0000u32)
        by (bit_vector);
}

/// On STM32WB, HSI is ready when bit 10 of RCC_CR is set, and the system clock runs from HSI when
/// bits 3-2 of RCC_CFGR are 01.
pub proof fn law_conditions(word: u32)
    ensures
        Condition::HsiReady.target() == Register::RccCr,
        Condition::HsiReady.met(word) <==> word & 0x400 == 0x400,
        Condition::SysclkIsHsi.target() == Register::RccCfgr,
        Condition::SysclkIsHsi.met(word) <==> word & 0xc == 0x4,
{
    assert(((word >> 10) & 1 == 1) == (word & 0x400 == 0x400) && ((word >> 2) & 3 == 1) == (word
        & 0xc == 0x4)) by (bit_vector);
}

} // verus!
