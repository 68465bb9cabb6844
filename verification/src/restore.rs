//! What a sleep does to the registers, in the sense of `op::effects`: each register holds what was
//! last written to it, and gated ports take no writes.
use vstd::prelude::*;
use crate::chip::{Chip, Config, StopMode};
use crate::gpio::{self, GpioContext, GpioContexts};
use crate::op::{self, Message, Op};
use crate::platform;
use crate::rcc;
use crate::register::{Edit, GpioRegister, Port, Register};
use crate::sleep;
use crate::state::LowPower;
use crate::trace::{self, World};

verus! {

// Fields.

/// An edit decides the bits of its mask, keeps every other bit, and done twice does no more than
/// done once.
pub proof fn law_edit(edit: Edit, word: u32)
    ensures
        edit.applied(word) & edit.mask() == edit.value(),
        edit.applied(word) & !edit.mask() == word & !edit.mask(),
        edit.applied(edit.applied(word)) == edit.applied(word),
{
    let mask = edit.mask();
    let value = edit.value();
    assert(value & !mask == 0) by {
        assert(0x4u32 & !0x4u32 == 0) by (bit_vector);
        assert(0x605u32 & !0x607u32 == 0) by (bit_vector);
        assert(0u32 & !mask == 0) by (bit_vector);
        assert(0x2u32 & !0x2u32 == 0) by (bit_vector);
        assert(0x8u32 & !0x8u32 == 0) by (bit_vector);
        assert(0x1u32 & !0x1u32 == 0) by (bit_vector);
        assert(0x100u32 & !0x100u32 == 0) by (bit_vector);
        assert(0x1u32 & !0x3u32 == 0) by (bit_vector);
        assert(0x1000_0000u32 & !0x1000_0000u32 == 0) by (bit_vector);
        assert(0x4000u32 & !0xc000u32 == 0) by (bit_vector);
        assert(0x1u32 & !0x7u32 == 0) by (bit_vector);
        assert(0x2u32 & !0x7u32 == 0) by (bit_vector);
        assert(0xcu32 & !0xdu32 == 0) by (bit_vector);
    }
    assert(((word & !mask) | value) & mask == value) by (bit_vector)
        requires
            value & !mask == 0,
    ;
    assert(((word & !mask) | value) & !mask == word & !mask) by (bit_vector)
        requires
            value & !mask == 0,
    ;
    assert((((word & !mask) | value) & !mask) | value == (word & !mask) | value) by (bit_vector)
        requires
            value & !mask == 0,
    ;
}

// Peripheral clocks.

/// The peripheral clocks that were saved come back, whatever was written since, and nothing else
/// changes. In between, every peripheral is gated.
pub proof fn law_rcc_restored(
    lp: LowPower,
    regs: Map<Register, u32>,
    since: Map<Register, u32>,
    register: Register,
)
    ensures
        ({
            let stored = lp.with_rcc(op::words_read(regs, rcc::rcc_reads()));
            let gated = op::effects(regs, rcc::rcc_writes(0, 0, 0));
            let restored = op::effects(
                since,
                rcc::rcc_writes(
                    stored.rcc_ahbenr_state->0,
                    stored.rcc_apb1enr_state->0,
                    stored.rcc_apb2enr_state->0,
                ),
            );
            if register is RccAhbenr || register is RccApb1enr || register is RccApb2enr {
                gated[register] == 0 && restored[register] == regs[register]
            } else {
                gated[register] == regs[register] && restored[register] == since[register]
            }
        }),
{
    op::lemma_reads(regs, rcc::rcc_reads());
    let stored = lp.with_rcc(op::words_read(regs, rcc::rcc_reads()));
    lemma_rcc_writes(regs, 0, 0, 0, register);
    lemma_rcc_writes(
        since,
        stored.rcc_ahbenr_state->0,
        stored.rcc_apb1enr_state->0,
        stored.rcc_apb2enr_state->0,
        register,
    );
}

proof fn lemma_rcc_writes(
    regs: Map<Register, u32>,
    ahbenr: u32,
    apb1enr: u32,
    apb2enr: u32,
    register: Register,
)
    ensures
        op::effects(regs, rcc::rcc_writes(ahbenr, apb1enr, apb2enr))[register] == match register {
            Register::RccAhbenr => ahbenr,
            Register::RccApb1enr => apb1enr,
            Register::RccApb2enr => apb2enr,
            _ => regs[register],
        },
{
    reveal_with_fuel(op::effects, 4);
}

// Ports.

/// `ALL_PORT_CLOCKS` clocks every port.
proof fn lemma_all_clocked(port: Port)
    ensures
        port.clocked(gpio::ALL_PORT_CLOCKS),
{
    assert((0x9fu32 >> 0) & 1 == 1 && (0x9fu32 >> 1) & 1 == 1 && (0x9fu32 >> 2) & 1 == 1 && (0x9fu32
        >> 3) & 1 == 1 && (0x9fu32 >> 4) & 1 == 1 && (0x9fu32 >> 7) & 1 == 1) by (bit_vector);
}

/// The registers after a context is written to a port while all ports are clocked.
proof fn lemma_context_writes(regs: Map<Register, u32>, context: GpioContext, port: Port)
    requires
        regs[Register::RccGpioenr] == gpio::ALL_PORT_CLOCKS,
    ensures
        forall|register: Register| #[trigger]
            op::effects(regs, context.writes(port))[register] == match register {
                Register::Gpio(p, g) => if p == port {
                    context.word(g)
                } else {
                    regs[register]
                },
                _ => regs[register],
            },
{
    lemma_all_clocked(port);
    reveal_with_fuel(op::effects, 9);
}

/// The registers after a port is turned to analog while all ports are clocked.
proof fn lemma_analog(regs: Map<Register, u32>, port: Port)
    requires
        regs[Register::RccGpioenr] == gpio::ALL_PORT_CLOCKS,
    ensures
        forall|register: Register| #[trigger]
            op::effects(regs, gpio::analog_ops(port))[register] == match register {
                Register::Gpio(p, GpioRegister::Moder) => if p == port {
                    0xffff_ffffu32
                } else {
                    regs[register]
                },
                Register::Gpio(p, GpioRegister::Pupdr) => if p == port {
                    0
                } else {
                    regs[register]
                },
                _ => regs[register],
            },
{
    lemma_all_clocked(port);
    reveal_with_fuel(op::effects, 3);
}

/// With the ports off, every pin is analog and floating and every port is gated, whichever ports
/// were clocked before; the other registers are as before.
pub proof fn law_gpio_off(regs: Map<Register, u32>, register: Register)
    ensures
        op::effects(regs, gpio::disable_ops())[register] == match register {
            Register::Gpio(_, GpioRegister::Moder) => 0xffff_ffffu32,
            Register::Gpio(_, GpioRegister::Pupdr) => 0,
            Register::RccGpioenr => 0,
            _ => regs[register],
        },
{
    reveal(gpio::disable_ops);
    reveal_with_fuel(op::effects, 2);
    let on = seq![Op::Write(Register::RccGpioenr, gpio::ALL_PORT_CLOCKS)];
    let off = seq![Op::Write(Register::RccGpioenr, 0)];
    let a = gpio::analog_ops(Port::A);
    let b = gpio::analog_ops(Port::B);
    let c = gpio::analog_ops(Port::C);
    let d = gpio::analog_ops(Port::D);
    let e = gpio::analog_ops(Port::E);
    let h = gpio::analog_ops(Port::H);
    op::lemma_effects_add(regs, on, a);
    op::lemma_effects_add(regs, on + a, b);
    op::lemma_effects_add(regs, on + a + b, c);
    op::lemma_effects_add(regs, on + a + b + c, d);
    op::lemma_effects_add(regs, on + a + b + c + d, e);
    op::lemma_effects_add(regs, on + a + b + c + d + e, h);
    op::lemma_effects_add(regs, on + a + b + c + d + e + h, off);
    lemma_analog(op::effects(regs, on), Port::A);
    lemma_analog(op::effects(regs, on + a), Port::B);
    lemma_analog(op::effects(regs, on + a + b), Port::C);
    lemma_analog(op::effects(regs, on + a + b + c), Port::D);
    lemma_analog(op::effects(regs, on + a + b + c + d), Port::E);
    lemma_analog(op::effects(regs, on + a + b + c + d + e), Port::H);
}

/// While the ports are turned off, all of them are clocked: before any write to a port, bits 4-0
/// and 7 of the port clocks are set.
pub proof fn law_gpio_clocked(regs: Map<Register, u32>, i: int)
    requires
        0 <= i < gpio::disable_ops().len(),
        gpio::disable_ops()[i] matches Op::Write(Register::Gpio(_, _), _),
    ensures
        op::effects(regs, gpio::disable_ops().take(i))[Register::RccGpioenr]
            == 0x9f,
{
    reveal(gpio::disable_ops);
    reveal_with_fuel(op::effects, 2);
    let ops = gpio::disable_ops();
    let first = ops.take(1);
    let rest = ops.subrange(1, i);
    assert(ops.take(i) =~= first + rest);
    assert(first =~= seq![Op::Write(Register::RccGpioenr, gpio::ALL_PORT_CLOCKS)]);
    op::lemma_effects_add(regs, first, rest);
    op::lemma_unwritten(op::effects(regs, first), rest, Register::RccGpioenr);
}

/// While the ports are written back, all of them are clocked: before any write to a port, bits 4-0
/// and 7 of the port clocks are set.
pub proof fn law_gpio_clocked_back(
    regs: Map<Register, u32>,
    contexts: GpioContexts,
    clocks: u32,
    i: int,
)
    requires
        0 <= i < gpio::recover_ops(contexts, clocks).len(),
        gpio::recover_ops(contexts, clocks)[i] matches Op::Write(Register::Gpio(_, _), _),
    ensures
        op::effects(regs, gpio::recover_ops(contexts, clocks).take(i))[Register::RccGpioenr]
            == 0x9f,
{
    reveal(gpio::recover_ops);
    reveal_with_fuel(op::effects, 2);
    let ops = gpio::recover_ops(contexts, clocks);
    let first = ops.take(1);
    let rest = ops.subrange(1, i);
    assert(ops.take(i) =~= first + rest);
    assert(first =~= seq![Op::Write(Register::RccGpioenr, gpio::ALL_PORT_CLOCKS)]);
    op::lemma_effects_add(regs, first, rest);
    op::lemma_unwritten(op::effects(regs, first), rest, Register::RccGpioenr);
}

pub(crate) proof fn lemma_recover(
    regs: Map<Register, u32>,
    contexts: GpioContexts,
    clocks: u32,
    register: Register,
)
    ensures
        op::effects(regs, gpio::recover_ops(contexts, clocks))[register] == match register {
            Register::Gpio(port, g) => contexts.of(port).word(g),
            Register::RccGpioenr => clocks,
            _ => regs[register],
        },
{
    reveal(gpio::recover_ops);
    reveal_with_fuel(op::effects, 2);
    let on = seq![Op::Write(Register::RccGpioenr, gpio::ALL_PORT_CLOCKS)];
    let back = seq![Op::Write(Register::RccGpioenr, clocks)];
    let a = contexts.a.writes(Port::A);
    let b = contexts.b.writes(Port::B);
    let c = contexts.c.writes(Port::C);
    let d = contexts.d.writes(Port::D);
    let e = contexts.e.writes(Port::E);
    let h = contexts.h.writes(Port::H);
    op::lemma_effects_add(regs, on, a);
    op::lemma_effects_add(regs, on + a, b);
    op::lemma_effects_add(regs, on + a + b, c);
    op::lemma_effects_add(regs, on + a + b + c, d);
    op::lemma_effects_add(regs, on + a + b + c + d, e);
    op::lemma_effects_add(regs, on + a + b + c + d + e, h);
    op::lemma_effects_add(regs, on + a + b + c + d + e + h, back);
    lemma_context_writes(op::effects(regs, on), contexts.a, Port::A);
    lemma_context_writes(op::effects(regs, on + a), contexts.b, Port::B);
    lemma_context_writes(op::effects(regs, on + a + b), contexts.c, Port::C);
    lemma_context_writes(op::effects(regs, on + a + b + c), contexts.d, Port::D);
    lemma_context_writes(op::effects(regs, on + a + b + c + d), contexts.e, Port::E);
    lemma_context_writes(op::effects(regs, on + a + b + c + d + e), contexts.h, Port::H);
}

/// The word that saving the ports keeps as the port clocks.
proof fn lemma_stored_clocks(regs: Map<Register, u32>)
    ensures
        op::words_read(regs, gpio::stored_reads())[48] == regs[Register::RccGpioenr],
{
    let reads = gpio::stored_reads();
    reveal(gpio::stored_reads);
    assert(forall|i: int| 0 <= i < reads.len() ==> reads[i] is Read);
    op::lemma_reads(regs, reads);
    assert(reads[48] == Op::Read(Register::RccGpioenr));
}

/// The words that saving the ports keeps as their configuration.
proof fn lemma_stored(regs: Map<Register, u32>, port: Port, g: GpioRegister)
    ensures
        GpioContexts::from_words(op::words_read(regs, gpio::stored_reads())).of(port).word(g)
            == regs[Register::Gpio(port, g)],
{
    let reads = gpio::stored_reads();
    reveal(gpio::stored_reads);
    assert(forall|i: int| 0 <= i < reads.len() ==> reads[i] is Read);
    op::lemma_reads(regs, reads);
    let k: int = match g {
        GpioRegister::Moder => 0,
        GpioRegister::Otyper => 1,
        GpioRegister::Ospeedr => 2,
        GpioRegister::Pupdr => 3,
        GpioRegister::Odr => 4,
        GpioRegister::Lckr => 5,
        GpioRegister::Afrl => 6,
        GpioRegister::Afrh => 7,
    };
    let n: int = match port {
        Port::A => 0,
        Port::B => 8,
        Port::C => 16,
        Port::D => 24,
        Port::E => 32,
        Port::H => 40,
    };
    assert(reads[n + k] == Op::Read(Register::Gpio(port, g)));
}

/// The configuration of every port that was saved comes back, and so do the port clocks, whatever
/// was written since and whichever ports are clocked; and nothing else changes.
pub proof fn law_gpio_restored(
    lp: LowPower,
    regs: Map<Register, u32>,
    since: Map<Register, u32>,
    register: Register,
)
    ensures
        ({
            let stored = lp.with_gpio(op::words_read(regs, gpio::stored_reads()));
            let restored = op::effects(
                since,
                gpio::recover_ops(stored.gpio_contexts->0, stored.gpio_rcc_state->0),
            );
            restored[register] == match register {
                Register::Gpio(_, _) => regs[register],
                Register::RccGpioenr => regs[register],
                _ => since[register],
            }
        }),
{
    let words = op::words_read(regs, gpio::stored_reads());
    lemma_recover(since, GpioContexts::from_words(words), words[48], register);
    lemma_stored_clocks(regs);
    match register {
        Register::Gpio(port, g) => {
            lemma_stored(regs, port, g);
        },
        _ => {},
    }
}

// Whole sleeps.

/// A sleep of a build may write to the register.
pub open spec fn may_write(config: Config, register: Register) -> bool {
    match register {
        Register::Gpio(_, _) | Register::RccGpioenr => config.chip is L0
            && config.no_gpios_while_stop,
        Register::PwrCr => config.chip is L0 || config.use_low_power_sleep,
        Register::SyscfgCfgr3 | Register::Adc1Cr | Register::Dac1Cr => config.chip is L0,
        Register::FlashAcr => config.use_low_power_sleep,
        Register::PwrExtscr => config.chip is Wl5x || config.chip is Wlex || config.chip is Wb,
        Register::PwrSr => config.chip is Wba,
        Register::RccCr | Register::RccCfgr | Register::RccSmpscr | Register::RccApb1enr1
        | Register::PwrCr5 => config.chip is Wb,
        Register::PwrCr1 => !config.core_cm0p && !(config.chip is L0 || config.chip is H5
            || config.chip is Other),
        Register::PwrC2cr1 => config.core_cm0p && !(config.chip is L0 || config.chip is H5
            || config.chip is Other),
        Register::PwrPmcr => config.chip is H5,
        _ => false,
    }
}

/// `ops` writes to no register that a sleep may not write to.
spec fn contained(config: Config, ops: Seq<Op>) -> bool {
    forall|i: int, register: Register|
        0 <= i < ops.len() && #[trigger] op::writes_to(ops[i], register) ==> may_write(
            config,
            register,
        )
}

proof fn lemma_contained_add(config: Config, a: Seq<Op>, b: Seq<Op>)
    requires
        contained(config, a),
        contained(config, b),
    ensures
        contained(config, a + b),
{
    assert forall|i: int, register: Register|
        0 <= i < (a + b).len() && #[trigger] op::writes_to((a + b)[i], register) implies may_write(
        config,
        register,
    ) by {
        if i < a.len() {
            assert((a + b)[i] == a[i]);
            assert(op::writes_to(a[i], register));
        } else {
            assert((a + b)[i] == b[i - a.len()]);
            assert(op::writes_to(b[i - a.len()], register));
        }
    }
}

proof fn lemma_contained_gpio(config: Config, contexts: GpioContexts, clocks: u32)
    requires
        sleep::gates_gpios(config),
    ensures
        contained(config, gpio::stored_reads()),
        contained(config, gpio::disable_ops()),
        contained(config, gpio::recover_ops(contexts, clocks)),
{
    reveal(gpio::stored_reads);
    reveal(gpio::disable_ops);
    reveal(gpio::recover_ops);
}

proof fn lemma_contained_enter(config: Config, mode: StopMode, world: World)
    ensures
        contained(config, trace::enter_trace(config, mode, world)),
{
    reveal(trace::enter_trace);
    let ask3 = platform::ask_sem3_ops();
    let ask4 = platform::ask_sem4_ops();
    let cpu2 = platform::ask_cpu2_ops();
    let unlock4 = seq![Op::Unlock { sem: 4 }];
    let hsi = platform::hsi_ops();
    let chosen = if trace::cpu2_asleep(world, mode) {
        hsi
    } else {
        seq![]
    };
    let select = platform::select_ops(config, mode);
    assert(contained(config, select));
    if config.chip is Wb {
        let power = seq![
            Op::Modify(Edit::PwrClockOn),
            Op::Dsb,
            Op::Modify(Edit::SmpsBypass),
            Op::Delay(1000),
        ];
        let unlock3 = seq![Op::Unlock { sem: 3 }];
        let settled = platform::settled_ops(config, mode);
        assert(contained(config, power));
        assert(contained(config, unlock3));
        lemma_contained_add(config, power, select);
        lemma_contained_add(config, power + select, unlock3);
        assert(contained(config, ask3));
        assert(contained(config, ask4));
        assert(contained(config, cpu2));
        assert(contained(config, unlock4));
        assert(contained(config, hsi));
        assert(contained(config, chosen));
        lemma_contained_add(config, ask3, ask4);
        lemma_contained_add(config, ask3 + ask4, hsi);
        lemma_contained_add(config, ask3 + ask4 + hsi, settled);
        lemma_contained_add(config, ask3 + ask4, cpu2);
        lemma_contained_add(config, ask3 + ask4 + cpu2, unlock4);
        lemma_contained_add(config, ask3 + ask4 + cpu2 + unlock4, chosen);
        lemma_contained_add(config, ask3 + ask4 + cpu2 + unlock4 + chosen, settled);
    }
}

proof fn lemma_contained_decided(config: Config, world: World)
    ensures
        contained(config, trace::decided_trace(config, world)),
{
    reveal(trace::decided_trace);
    match trace::permitted(world) {
        None => {
            assert(contained(config, trace::decided_trace(config, world)));
        },
        Some(mode) => {
            let pause = seq![Op::PauseTime];
            let entry = trace::enter_trace(config, mode, world);
            let entered = sleep::entered_ops(config, mode);
            let failed = sleep::refused_ops();
            let unpaused = seq![Op::PauseTime, Op::Log(Message::PauseFailed)];
            assert(contained(config, pause));
            assert(contained(config, entered));
            assert(contained(config, failed));
            assert(contained(config, unpaused));
            lemma_contained_enter(config, mode, world);
            lemma_contained_add(config, pause, entry);
            lemma_contained_add(config, pause + entry, entered);
            lemma_contained_add(config, pause + entry, failed);
        },
    }
}

proof fn lemma_contained_wakeup(config: Config, world: World)
    ensures
        contained(config, trace::wakeup_trace(config, world)),
{
    reveal(trace::wakeup_trace);
    let word = trace::status(world);
    let exit = platform::exit_ops(config);
    let rcc = platform::rcc_ops(config.chip, word);
    let report = platform::report_ops(config.chip, word);
    let flags = platform::clear_flags_ops(config);
    let unlock = if config.chip is Wl5x {
        seq![Op::Unlock { sem: 3 }]
    } else {
        seq![]
    };
    let timer = platform::timer_ops(config, word);
    let resumed = sleep::resumed_ops();
    assert(contained(config, exit));
    assert(contained(config, rcc));
    assert(contained(config, report));
    assert(contained(config, flags));
    assert(contained(config, unlock));
    assert(contained(config, timer));
    assert(contained(config, resumed));
    lemma_contained_add(config, rcc, report);
    lemma_contained_add(config, rcc + report, flags);
    lemma_contained_add(config, rcc + report + flags, unlock);
    lemma_contained_add(config, rcc + report + flags + unlock, timer);
    lemma_contained_add(config, exit, platform::status_ops(config, word));
    lemma_contained_add(config, exit + platform::status_ops(config, word), resumed);
    assert(contained(config, seq![]));
}

proof fn lemma_contained_sleep(config: Config, world: World)
    ensures
        contained(config, trace::sleep_trace(config, world)),
{
    reveal(trace::gpio_off_trace);
    reveal(trace::gpio_on_trace);
    let slow = sleep::slow_ops(config);
    let clear = seq![Op::ClearSleepdeep];
    let flags = platform::clear_flags_ops(config);
    let ask = seq![Op::CompilerFence, Op::GetStopMode];
    let configure = sleep::configure_ops(config);
    let decided = trace::decided_trace(config, world);
    let flush = sleep::flush_ops(config);
    let off = trace::gpio_off_trace(config);
    let on = trace::gpio_on_trace(config, world);
    let wake = trace::wakeup_trace(config, world);
    let fast = sleep::fast_ops(config);
    assert(contained(config, slow));
    assert(contained(config, clear));
    assert(contained(config, flags));
    assert(contained(config, ask));
    assert(contained(config, flush));
    assert(contained(config, fast));
    assert(contained(config, sleep::wfi_ops()));
    assert(contained(config, seq![]));
    if sleep::gates_gpios(config) {
        lemma_contained_gpio(
            config,
            GpioContexts::from_words(trace::ports(world)),
            trace::ports(world)[48],
        );
        lemma_contained_add(config, gpio::stored_reads(), gpio::disable_ops());
    }
    lemma_contained_decided(config, world);
    lemma_contained_wakeup(config, world);
    lemma_contained_add(config, clear, flags);
    lemma_contained_add(config, clear + flags, ask);
    lemma_contained_add(config, slow, configure);
    lemma_contained_add(config, slow + configure, decided);
    lemma_contained_add(config, slow + configure + decided, flush);
    lemma_contained_add(config, slow + configure + decided + flush, off);
    lemma_contained_add(config, trace::before_wfi(config, world), sleep::wfi_ops());
    lemma_contained_add(config, on, wake);
    lemma_contained_add(config, on + wake, fast);
    lemma_contained_add(
        config,
        trace::before_wfi(config, world) + sleep::wfi_ops(),
        trace::after_wfi(config, world),
    );
}

/// Whatever the hardware reports, a sleep leaves alone every register that it may not write to.
pub proof fn law_untouched(
    config: Config,
    world: World,
    regs: Map<Register, u32>,
    register: Register,
)
    requires
        !may_write(config, register),
    ensures
        op::effects(regs, trace::sleep_trace(config, world))[register] == regs[register],
{
    lemma_contained_sleep(config, world);
    op::lemma_unwritten(regs, trace::sleep_trace(config, world), register);
}

/// On STM32L0, where no port is to be used while the chip sleeps, the ports are off when the core
/// executes WFI, whatever the other options and whatever the hardware reports: every pin is analog
/// and floating, and every port is gated. The other registers of the ports are as before the sleep.
pub proof fn law_ports_off_at_wfi(
    config: Config,
    world: World,
    regs: Map<Register, u32>,
    port: Port,
    g: GpioRegister,
)
    requires
        config.chip == Chip::L0,
        config.no_gpios_while_stop,
    ensures
        op::effects(regs, trace::before_wfi(config, world))[Register::RccGpioenr] == 0,
        op::effects(regs, trace::before_wfi(config, world))[Register::Gpio(port, g)] == match g {
            GpioRegister::Moder => 0xffff_ffffu32,
            GpioRegister::Pupdr => 0,
            _ => regs[Register::Gpio(port, g)],
        },
{
    reveal(trace::gpio_off_trace);
    let register = Register::Gpio(port, g);
    let start = sleep::slow_ops(config) + sleep::configure_ops(config) + trace::decided_trace(
        config,
        world,
    ) + sleep::flush_ops(config);
    let reads = gpio::stored_reads();
    let off = gpio::disable_ops();
    let before = op::effects(regs, start);
    op::lemma_effects_add(regs, start, reads + off);
    op::lemma_effects_add(before, reads, off);
    assert(op::effects(before, reads) == before) by {
        reveal(gpio::stored_reads);
        assert(forall|i: int| 0 <= i < reads.len() ==> reads[i] is Read);
        op::lemma_reads(before, reads);
    }
    law_gpio_off(before, Register::RccGpioenr);
    law_gpio_off(before, register);
    lemma_start_spares_ports(config, world, regs, register);
}

/// Nothing that a sleep does before it saves the ports writes to a port or to the port clocks.
proof fn lemma_start_spares_ports(
    config: Config,
    world: World,
    regs: Map<Register, u32>,
    register: Register,
)
    requires
        register is Gpio || register is RccGpioenr,
    ensures
        op::effects(
            regs,
            sleep::slow_ops(config) + sleep::configure_ops(config) + trace::decided_trace(
                config,
                world,
            ) + sleep::flush_ops(config),
        )[register] == regs[register],
{
    let ungated = Config { no_gpios_while_stop: false, ..config };
    let start = sleep::slow_ops(config) + sleep::configure_ops(config) + trace::decided_trace(
        config,
        world,
    ) + sleep::flush_ops(config);
    lemma_contained_sleep(ungated, world);
    assert(trace::decided_trace(ungated, world) == trace::decided_trace(config, world)) by {
        reveal(trace::decided_trace);
        reveal(trace::enter_trace);
    }
    let all = trace::sleep_trace(ungated, world);
    assert forall|i: int| 0 <= i < start.len() implies !op::writes_to(
        #[trigger] start[i],
        register,
    ) by {
        assert(all[i] == start[i]);
        if op::writes_to(all[i], register) {
            assert(may_write(ungated, register));
        }
    }
    op::lemma_unwritten(regs, start, register);
}

/// The registers that select the stop select `mode`.
///
/// On STM32L0 the analog parts are off too. A chip that is not listed has nothing to select.
pub open spec fn stop_selected(config: Config, mode: StopMode, regs: Map<Register, u32>) -> bool {
    match config.chip {
        Chip::L0 => {
            &&& regs[Register::PwrCr] & 0x607 == 0x605
            &&& regs[Register::SyscfgCfgr3] & 0x1 == 0
            &&& regs[Register::Adc1Cr] & 0x2 == 0x2
            &&& regs[Register::Dac1Cr] & 0x1_0001 == 0
        },
        Chip::H5 => regs[Register::PwrPmcr] & 0xd == 0xc,
        Chip::Other => true,
        _ => regs[if config.core_cm0p {
            Register::PwrC2cr1
        } else {
            Register::PwrCr1
        }] & 0x7 == if mode is Stop1 {
            1u32
        } else if config.chip is Wba {
            0
        } else {
            2
        },
    }
}

/// `stop_selected` may look at the register.
spec fn selects_stop(register: Register) -> bool {
    match register {
        Register::PwrCr1 | Register::PwrC2cr1 | Register::PwrCr | Register::SyscfgCfgr3
        | Register::Adc1Cr | Register::Dac1Cr | Register::PwrPmcr => true,
        _ => false,
    }
}

/// The registers select `mode` once `select_ops` is done.
proof fn lemma_selected(config: Config, mode: StopMode, regs: Map<Register, u32>)
    ensures
        stop_selected(config, mode, op::effects(regs, platform::select_ops(config, mode))),
{
    reveal_with_fuel(op::effects, 6);
    if config.chip.has_lpms() {
        let lpms = mode.lpms(config.chip);
        law_edit(Edit::SelectLpms(lpms), regs[Register::PwrCr1]);
        law_edit(Edit::SelectLpmsCpu2(lpms), regs[Register::PwrC2cr1]);
    } else if config.chip is L0 {
        let dac = regs[Register::Dac1Cr];
        law_edit(Edit::SelectStop, regs[Register::PwrCr]);
        law_edit(Edit::VrefintOff, regs[Register::SyscfgCfgr3]);
        law_edit(Edit::AdcOff, regs[Register::Adc1Cr]);
        assert(((((dac & !0x1u32) | 0) & !0x1_0000u32) | 0) & 0x1_0001 == 0) by (bit_vector);
    } else {
        law_edit(Edit::SelectStopScale3, regs[Register::PwrPmcr]);
    }
}

/// What writes to none of these registers leaves `mode` selected.
proof fn lemma_selection_kept(
    config: Config,
    mode: StopMode,
    regs: Map<Register, u32>,
    ops: Seq<Op>,
)
    requires
        stop_selected(config, mode, regs),
        forall|i: int, register: Register|
            0 <= i < ops.len() && selects_stop(register) ==> !#[trigger] op::writes_to(
                ops[i],
                register,
            ),
    ensures
        stop_selected(config, mode, op::effects(regs, ops)),
{
    op::lemma_unwritten(regs, ops, Register::PwrCr1);
    op::lemma_unwritten(regs, ops, Register::PwrC2cr1);
    op::lemma_unwritten(regs, ops, Register::PwrCr);
    op::lemma_unwritten(regs, ops, Register::SyscfgCfgr3);
    op::lemma_unwritten(regs, ops, Register::Adc1Cr);
    op::lemma_unwritten(regs, ops, Register::Dac1Cr);
    op::lemma_unwritten(regs, ops, Register::PwrPmcr);
}

/// The registers select `mode` once stop mode is entered.
proof fn lemma_enter_selects(
    config: Config,
    mode: StopMode,
    world: World,
    regs: Map<Register, u32>,
)
    requires
        config.chip is Wb ==> trace::sem3(world, mode),
    ensures
        stop_selected(
            config,
            mode,
            op::effects(regs, trace::enter_trace(config, mode, world)),
        ),
{
    reveal(trace::enter_trace);
    if !(config.chip is Wb) {
        lemma_selected(config, mode, regs);
    } else {
        let power = seq![
            Op::Modify(Edit::PwrClockOn),
            Op::Dsb,
            Op::Modify(Edit::SmpsBypass),
            Op::Delay(1000),
        ];
        let select = platform::select_ops(config, mode);
        let unlock = seq![Op::Unlock { sem: 3 }];
        let settled = platform::settled_ops(config, mode);
        let head = if trace::sem4(world, mode) {
            platform::ask_sem3_ops() + platform::ask_sem4_ops() + platform::ask_cpu2_ops() + seq![
                Op::Unlock { sem: 4 },
            ] + (if trace::cpu2_asleep(world, mode) {
                platform::hsi_ops()
            } else {
                seq![]
            })
        } else {
            platform::ask_sem3_ops() + platform::ask_sem4_ops() + platform::hsi_ops()
        };
        let there = op::effects(regs, head);
        op::lemma_effects_add(regs, head, settled);
        op::lemma_effects_add(there, power + select, unlock);
        op::lemma_effects_add(there, power, select);
        lemma_selected(config, mode, op::effects(there, power));
        lemma_selection_kept(config, mode, op::effects(there, power + select), unlock);
    }
}

/// When the core executes WFI in a sleep that entered stop mode, the registers of the chip select
/// the stop mode that was permitted.
pub proof fn law_stop_selected_at_wfi(
    config: Config,
    world: World,
    mode: StopMode,
    regs: Map<Register, u32>,
)
    requires
        trace::permitted(world) == Some(mode),
        trace::reaches_stop(config, world),
    ensures
        stop_selected(config, mode, op::effects(regs, trace::before_wfi(config, world))),
{
    let start = sleep::slow_ops(config) + sleep::configure_ops(config);
    let decided = trace::decided_trace(config, world);
    let flush = sleep::flush_ops(config);
    let off = trace::gpio_off_trace(config);
    let pause = seq![Op::PauseTime];
    let entry = trace::enter_trace(config, mode, world);
    let entered = sleep::entered_ops(config, mode);
    let there = op::effects(regs, start);
    assert(stop_selected(config, mode, op::effects(there, decided))) by {
        reveal(trace::decided_trace);
        op::lemma_effects_add(there, pause + entry, entered);
        op::lemma_effects_add(there, pause, entry);
        lemma_enter_selects(config, mode, world, op::effects(there, pause));
        lemma_selection_kept(config, mode, op::effects(there, pause + entry), entered);
    }
    op::lemma_effects_add(regs, start, decided);
    op::lemma_effects_add(regs, start + decided, flush);
    op::lemma_effects_add(regs, start + decided + flush, off);
    lemma_selection_kept(config, mode, op::effects(regs, start + decided), flush);
    assert forall|i: int, register: Register|
        0 <= i < off.len() && selects_stop(register) implies !#[trigger] op::writes_to(
        off[i],
        register,
    ) by {
        reveal(trace::gpio_off_trace);
        reveal(gpio::stored_reads);
        reveal(gpio::disable_ops);
    }
    lemma_selection_kept(config, mode, op::effects(regs, start + decided + flush), off);
}

/// A whole sleep keeps the configuration of every port and the port clocks, if what is reported of
/// them is what they hold.
pub proof fn law_sleep_keeps_ports(
    config: Config,
    world: World,
    regs: Map<Register, u32>,
    register: Register,
)
    requires
        register is Gpio || register is RccGpioenr,
        trace::ports(world) == op::words_read(regs, gpio::stored_reads()),
    ensures
        op::effects(regs, trace::sleep_trace(config, world))[register] == regs[register],
{
    if !sleep::gates_gpios(config) {
        law_untouched(config, world, regs, register);
    } else {
        reveal(trace::gpio_on_trace);
        let start = trace::before_wfi(config, world) + sleep::wfi_ops();
        let on = trace::gpio_on_trace(config, world);
        let wake = trace::wakeup_trace(config, world);
        let fast = sleep::fast_ops(config);
        let slept = op::effects(regs, start);
        op::lemma_effects_add(regs, start, trace::after_wfi(config, world));
        op::lemma_effects_add(slept, on + wake, fast);
        op::lemma_effects_add(slept, on, wake);
        lemma_recover(
            slept,
            GpioContexts::from_words(trace::ports(world)),
            trace::ports(world)[48],
            register,
        );
        lemma_stored_clocks(regs);
        match register {
            Register::Gpio(port, g) => {
                lemma_stored(regs, port, g);
            },
            _ => {},
        }
        let ungated = Config { no_gpios_while_stop: false, ..config };
        lemma_contained_wakeup(ungated, world);
        reveal(trace::wakeup_trace);
        assert(trace::wakeup_trace(ungated, world) == wake);
        op::lemma_unwritten(op::effects(slept, on), wake, register);
        op::lemma_unwritten(op::effects(slept, on + wake), fast, register);
    }
}

// Saved words.

/// The configuration that the registers of `port` hold.
pub open spec fn configuration(regs: Map<Register, u32>, port: Port) -> GpioContext {
    GpioContext {
        moder: regs[Register::Gpio(port, GpioRegister::Moder)],
        otyper: regs[Register::Gpio(port, GpioRegister::Otyper)],
        ospeedr: regs[Register::Gpio(port, GpioRegister::Ospeedr)],
        pupdr: regs[Register::Gpio(port, GpioRegister::Pupdr)],
        odr: regs[Register::Gpio(port, GpioRegister::Odr)],
        lckr: regs[Register::Gpio(port, GpioRegister::Lckr)],
        afrl: regs[Register::Gpio(port, GpioRegister::Afrl)],
        afrh: regs[Register::Gpio(port, GpioRegister::Afrh)],
    }
}

/// What is read of a port makes up its configuration, each word under the name of its register.
pub proof fn law_context_read(regs: Map<Register, u32>, port: Port)
    ensures
        GpioContext::at(op::words_read(regs, gpio::context_reads(port)), 0) == configuration(
            regs,
            port,
        ),
{
    let reads = gpio::context_reads(port);
    op::lemma_reads(regs, reads);
    let words = op::words_read(regs, reads);
    assert(words[0] == regs[reads[0]->Read_0]);
    assert(words[1] == regs[reads[1]->Read_0]);
    assert(words[2] == regs[reads[2]->Read_0]);
    assert(words[3] == regs[reads[3]->Read_0]);
    assert(words[4] == regs[reads[4]->Read_0]);
    assert(words[5] == regs[reads[5]->Read_0]);
    assert(words[6] == regs[reads[6]->Read_0]);
    assert(words[7] == regs[reads[7]->Read_0]);
}

/// Where in a sequence of words a context is taken from makes no difference to what it is.
pub proof fn law_context_anywhere(words: Seq<u32>, at: int)
    requires
        0 <= at <= words.len() - 8,
    ensures
        GpioContext::at(words, at) == GpioContext::at(words.subrange(at, at + 8), 0),
{
}

/// The ports are read one after the other, A to E and then H, each register of a port in its turn,
/// and the port clocks last.
pub proof fn law_ports_read_in_order(port: Port, g: GpioRegister)
    ensures
        gpio::stored_reads().len() == 49,
        gpio::stored_reads()[48] == Op::Read(Register::RccGpioenr),
        gpio::stored_reads()[(match port {
            Port::A => 0int,
            Port::B => 8,
            Port::C => 16,
            Port::D => 24,
            Port::E => 32,
            Port::H => 40,
        }) + (match g {
            GpioRegister::Moder => 0int,
            GpioRegister::Otyper => 1,
            GpioRegister::Ospeedr => 2,
            GpioRegister::Pupdr => 3,
            GpioRegister::Odr => 4,
            GpioRegister::Lckr => 5,
            GpioRegister::Afrl => 6,
            GpioRegister::Afrh => 7,
        })] == Op::Read(Register::Gpio(port, g)),
{
    reveal(gpio::stored_reads);
}

/// Written to a port while the ports are clocked, a context becomes the configuration of that port
/// and changes no other register. The mode goes first, and the lock only once type, speed, pull
/// resistors and output are set.
pub proof fn law_context_written(
    regs: Map<Register, u32>,
    context: GpioContext,
    port: Port,
    register: Register,
)
    requires
        regs[Register::RccGpioenr] == 0x9f,
    ensures
        configuration(op::effects(regs, context.writes(port)), port) == context,
        !(register matches Register::Gpio(p, _) && p == port) ==> op::effects(
            regs,
            context.writes(port),
        )[register] == regs[register],
        context.writes(port) == seq![
            Op::Write(Register::Gpio(port, GpioRegister::Moder), context.moder),
            Op::Write(Register::Gpio(port, GpioRegister::Otyper), context.otyper),
            Op::Write(Register::Gpio(port, GpioRegister::Ospeedr), context.ospeedr),
            Op::Write(Register::Gpio(port, GpioRegister::Pupdr), context.pupdr),
            Op::Write(Register::Gpio(port, GpioRegister::Odr), context.odr),
            Op::Write(Register::Gpio(port, GpioRegister::Lckr), context.lckr),
            Op::Write(Register::Gpio(port, GpioRegister::Afrl), context.afrl),
            Op::Write(Register::Gpio(port, GpioRegister::Afrh), context.afrh),
        ],
{
    lemma_context_writes(regs, context, port);
    assert(configuration(op::effects(regs, context.writes(port)), port).moder == context.moder);
}

/// What is kept of the ports is the configuration of each of them, under its own name, and the port
/// clocks; what was kept before is gone, and nothing else of the memory changes.
pub proof fn law_ports_kept(lp: LowPower, regs: Map<Register, u32>)
    ensures
        lp.with_gpio(op::words_read(regs, gpio::stored_reads())) == (LowPower {
            gpio_contexts: Some(
                GpioContexts {
                    a: configuration(regs, Port::A),
                    b: configuration(regs, Port::B),
                    c: configuration(regs, Port::C),
                    d: configuration(regs, Port::D),
                    e: configuration(regs, Port::E),
                    h: configuration(regs, Port::H),
                },
            ),
            gpio_rcc_state: Some(regs[Register::RccGpioenr]),
            ..lp
        }),
{
    lemma_stored_clocks(regs);
    lemma_kept(regs, Port::A);
    lemma_kept(regs, Port::B);
    lemma_kept(regs, Port::C);
    lemma_kept(regs, Port::D);
    lemma_kept(regs, Port::E);
    lemma_kept(regs, Port::H);
}

proof fn lemma_kept(regs: Map<Register, u32>, port: Port)
    ensures
        GpioContexts::from_words(op::words_read(regs, gpio::stored_reads())).of(port)
            == configuration(regs, port),
{
    lemma_stored(regs, port, GpioRegister::Moder);
    lemma_stored(regs, port, GpioRegister::Otyper);
    lemma_stored(regs, port, GpioRegister::Ospeedr);
    lemma_stored(regs, port, GpioRegister::Pupdr);
    lemma_stored(regs, port, GpioRegister::Odr);
    lemma_stored(regs, port, GpioRegister::Lckr);
    lemma_stored(regs, port, GpioRegister::Afrl);
    lemma_stored(regs, port, GpioRegister::Afrh);
}

/// What is kept of the peripheral clocks is each of them under its own name; nothing else of the
/// memory changes.
pub proof fn law_clocks_kept(lp: LowPower, regs: Map<Register, u32>)
    ensures
        lp.with_rcc(op::words_read(regs, rcc::rcc_reads())) == (LowPower {
            rcc_ahbenr_state: Some(regs[Register::RccAhbenr]),
            rcc_apb1enr_state: Some(regs[Register::RccApb1enr]),
            rcc_apb2enr_state: Some(regs[Register::RccApb2enr]),
            ..lp
        }),
{
    op::lemma_reads(regs, rcc::rcc_reads());
}

/// A sleep remembers the ports where it turned them off, and otherwise nothing: what a later sleep
/// does depends on the build and the hardware alone.
pub proof fn law_sleep_remembers(lp: LowPower, world: World)
    requires
        lp.wait is Nothing,
        !lp.stop_entered,
    ensures
        ({
            let slept = trace::total(sleep::sleep_turn(lp), world).0;
            &&& slept.config == lp.config
            &&& slept.wait is Nothing
            &&& !slept.stop_entered
            &&& slept.rcc_ahbenr_state == lp.rcc_ahbenr_state
            &&& slept.rcc_apb1enr_state == lp.rcc_apb1enr_state
            &&& slept.rcc_apb2enr_state == lp.rcc_apb2enr_state
            &&& !(lp.config.chip is L0 && lp.config.no_gpios_while_stop) ==> slept == lp
        }),
{
    trace::law_sleep_runs(lp, world);
}

} // verus!
