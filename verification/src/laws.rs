//! What holds of every sleep, whatever the hardware reports.
use vstd::prelude::*;
use crate::chip::{Chip, Config, StopMode};
use crate::gpio::{self, GpioContexts};
use crate::op::{self, Message, Op, Reply};
use crate::platform;
use crate::register::Edit;
use crate::sleep;
use crate::state::Wait;
use crate::trace::{self, World};

verus! {

/// Saving the ports only reads; turning them off and on only writes.
proof fn lemma_gpio_kinds(contexts: GpioContexts, clocks: u32)
    ensures
        forall|i: int| 0 <= i < gpio::stored_reads().len() ==> gpio::stored_reads()[i] is Read,
        forall|i: int| 0 <= i < gpio::disable_ops().len() ==> gpio::disable_ops()[i] is Write,
        forall|i: int|
            0 <= i < gpio::recover_ops(contexts, clocks).len() ==> gpio::recover_ops(
                contexts,
                clocks,
            )[i] is Write,
{
    reveal(gpio::stored_reads);
    reveal(gpio::disable_ops);
    reveal(gpio::recover_ops);
}

/// `op` is neither a register access nor a line of the log.
spec fn is_control(op: Op) -> bool {
    !(op is Read) && !(op is Write) && !(op is Modify) && !(op is Log)
}

/// One if `b` holds, else nothing.
spec fn once(b: bool) -> nat {
    if b {
        1
    } else {
        0
    }
}

/// The operations of a sleep that do not depend on the stop, counted.
proof fn lemma_count_fixed(config: Config, op: Op)
    requires
        is_control(op),
    ensures
        op::count(sleep::slow_ops(config), op) == once(
            config.use_low_power_sleep && op is GearshiftSlow,
        ),
        op::count(sleep::configure_ops(config), op) == once(
            op is ClearSleepdeep || op is CompilerFence || op is GetStopMode,
        ),
        op::count(sleep::flush_ops(config), op) == once(config.defmt_flush && op is FlushLog),
        op::count(sleep::wfi_ops(), op) == once(op is Dsb || op is Wfi || op is Isb),
        op::count(sleep::resumed_ops(), op) == once(op is ResumeTime),
        op::count(sleep::fast_ops(config), op) == once(
            config.use_low_power_sleep && op is GearshiftFast,
        ),
{
    reveal_with_fuel(op::count, 5);
    let flags = platform::clear_flags_ops(config);
    op::lemma_count_none(flags, op);
    op::lemma_count_add(seq![Op::ClearSleepdeep], flags, op);
    op::lemma_count_add(
        seq![Op::ClearSleepdeep] + flags,
        seq![Op::CompilerFence, Op::GetStopMode],
        op,
    );
}

/// How often entering stop mode performs `op`.
spec fn enter_count(config: Config, mode: StopMode, world: World, op: Op) -> nat {
    if !(config.chip is Wb) {
        0
    } else if op == (Op::PollLock { sem: 3, process: 0 }) {
        1
    } else if !trace::sem3(world, mode) {
        0
    } else if op == (Op::TryLock { sem: 4, process: 0 }) || op == (Op::Unlock { sem: 3 }) {
        1
    } else if op == (Op::Unlock { sem: 4 }) && trace::sem4(world, mode) {
        1
    } else {
        0
    }
}

/// What entering stop mode does, counted.
proof fn lemma_count_enter(config: Config, mode: StopMode, world: World, op: Op)
    requires
        is_control(op),
        !(op is Dsb),
        !(op is Delay),
        !(op is WaitUntil),
    ensures
        op::count(trace::enter_trace(config, mode, world), op) == enter_count(config, mode, world, op),
{
    reveal(trace::enter_trace);
    let ask3 = platform::ask_sem3_ops();
    let ask4 = platform::ask_sem4_ops();
    let cpu2 = platform::ask_cpu2_ops();
    let unlock4 = seq![Op::Unlock { sem: 4 }];
    let hsi = platform::hsi_ops();
    let chosen = if trace::cpu2_asleep(world, mode) {
        hsi
    } else {
        seq![]
    };
    let settled = platform::settled_ops(config, mode);
    if !(config.chip is Wb) {
        op::lemma_count_none(platform::select_ops(config, mode), op);
    } else {
        lemma_count_few(Op::Log(Message::TryingSem3), Op::PollLock { sem: 3, process: 0 }, op);
        lemma_count_few(Op::Log(Message::GotSem3), Op::TryLock { sem: 4, process: 0 }, op);
        lemma_count_few(Op::Unlock { sem: 4 }, op, op);
        lemma_count_settled(config, mode, op);
        op::lemma_count_none(hsi, op);
        op::lemma_count_none(chosen, op);
        op::lemma_count_none(cpu2, op);
        op::lemma_count_add(ask3, ask4, op);
        if trace::sem4(world, mode) {
            op::lemma_count_add(ask3 + ask4, cpu2, op);
            op::lemma_count_add(ask3 + ask4 + cpu2, unlock4, op);
            op::lemma_count_add(ask3 + ask4 + cpu2 + unlock4, chosen, op);
            op::lemma_count_add(ask3 + ask4 + cpu2 + unlock4 + chosen, settled, op);
        } else {
            op::lemma_count_add(ask3 + ask4, hsi, op);
            op::lemma_count_add(ask3 + ask4 + hsi, settled, op);
        }
    }
}

/// The last operations of entering stop mode on STM32WB, counted.
proof fn lemma_count_settled(config: Config, mode: StopMode, op: Op)
    requires
        is_control(op),
        !(op is Dsb),
        !(op is Delay),
        !(op is WaitUntil),
    ensures
        op::count(platform::settled_ops(config, mode), op) == once(op == (Op::Unlock { sem: 3 })),
{
    let power = seq![
        Op::Modify(Edit::PwrClockOn),
        Op::Dsb,
        Op::Modify(Edit::SmpsBypass),
        Op::Delay(1000),
    ];
    let select = platform::select_ops(config, mode);
    let unlock = seq![Op::Unlock { sem: 3 }];
    op::lemma_count_none(power, op);
    op::lemma_count_none(select, op);
    lemma_count_few(Op::Unlock { sem: 3 }, op, op);
    op::lemma_count_add(power, select, op);
    op::lemma_count_add(power + select, unlock, op);
}

/// How often configuring the power controller performs `op` once the permitted stop mode is known.
spec fn decided_count(config: Config, world: World, op: Op) -> nat {
    match trace::permitted(world) {
        None => 0,
        Some(mode) => if op is PauseTime {
            1
        } else if op is ResumeTime {
            if trace::paused(world, mode) && !trace::reaches_stop(config, world) {
                1
            } else {
                0
            }
        } else if op is SetSleepdeep {
            if trace::reaches_stop(config, world) && !config.debug_with_sleep {
                1
            } else {
                0
            }
        } else if trace::paused(world, mode) {
            enter_count(config, mode, world, op)
        } else {
            0
        },
    }
}

/// What configuring the power controller does once the permitted stop mode is known, counted.
proof fn lemma_count_decided(config: Config, world: World, op: Op)
    requires
        is_control(op),
        !(op is Dsb),
        !(op is Delay),
        !(op is WaitUntil),
    ensures
        op::count(trace::decided_trace(config, world), op) == decided_count(config, world, op),
{
    reveal(trace::decided_trace);
    match trace::permitted(world) {
        None => {
            op::lemma_count_none(trace::decided_trace(config, world), op);
        },
        Some(mode) => {
            let pause = seq![Op::PauseTime];
            let entry = trace::enter_trace(config, mode, world);
            let last = if trace::reaches_stop(config, world) {
                sleep::entered_ops(config, mode)
            } else {
                sleep::refused_ops()
            };
            lemma_count_enter(config, mode, world, op);
            lemma_count_entered(config, mode, op);
            lemma_count_few(Op::PauseTime, Op::Log(Message::PauseFailed), op);
            lemma_count_few(Op::Log(Message::EnterStopFailed), Op::ResumeTime, op);
            op::lemma_count_add(pause, entry, op);
            op::lemma_count_add(pause + entry, last, op);
        },
    }
}

/// What follows once the chip is ready to stop, counted.
proof fn lemma_count_entered(config: Config, mode: StopMode, op: Op)
    requires
        is_control(op),
    ensures
        op::count(sleep::entered_ops(config, mode), op) == once(
            op is SetSleepdeep && !config.debug_with_sleep,
        ),
{
    let line = Op::Log(
        Message::EnterStop(
            if config.chip is L0 {
                None
            } else {
                Some(mode)
            },
        ),
    );
    let deep = if config.debug_with_sleep {
        Seq::<Op>::empty()
    } else {
        seq![Op::SetSleepdeep]
    };
    lemma_count_few(line, op, op);
    lemma_count_few(Op::SetSleepdeep, op, op);
    op::lemma_count_add(seq![line], deep, op);
}

/// One operation, or two, counted.
proof fn lemma_count_few(a: Op, b: Op, op: Op)
    ensures
        op::count(Seq::<Op>::empty(), op) == 0,
        op::count(seq![a], op) == once(a == op),
        op::count(seq![a, b], op) == once(a == op) + once(b == op),
{
    reveal_with_fuel(op::count, 3);
    assert(seq![a].drop_last() =~= Seq::<Op>::empty());
    assert(seq![a, b].drop_last() =~= seq![a]);
}

/// What follows the stop status word, counted.
proof fn lemma_count_status(config: Config, word: u32, op: Op)
    requires
        is_control(op),
    ensures
        op::count(platform::status_ops(config, word), op) == (if op is ReinitRcc
            && platform::needs_rcc(config.chip, word) {
            1nat
        } else if op is InitTimer && platform::needs_timer(config, word) && !config.lp_time_driver {
            1
        } else if config.chip is Wl5x && op == (Op::Unlock { sem: 3 }) {
            1
        } else {
            0
        }),
{
    let rcc = platform::rcc_ops(config.chip, word);
    let report = platform::report_ops(config.chip, word);
    let flags = platform::clear_flags_ops(config);
    let unlock = if config.chip is Wl5x {
        seq![Op::Unlock { sem: 3 }]
    } else {
        seq![]
    };
    let timer = platform::timer_ops(config, word);
    assert(op::count(rcc, op) == once(
        op is ReinitRcc && platform::needs_rcc(config.chip, word),
    )) by {
        lemma_count_few(Op::ReinitRcc, op, op);
    }
    assert(op::count(report, op) == 0) by {
        op::lemma_count_none(report, op);
    }
    assert(op::count(flags, op) == 0) by {
        op::lemma_count_none(flags, op);
    }
    assert(op::count(unlock, op) == once(config.chip is Wl5x && op == (Op::Unlock { sem: 3 }))) by {
        lemma_count_few(Op::Unlock { sem: 3 }, op, op);
    }
    assert(op::count(timer, op) == once(
        op is InitTimer && platform::needs_timer(config, word) && !config.lp_time_driver,
    )) by {
        lemma_count_few(Op::Log(Message::ReinitTimer), Op::InitTimer, op);
    }
    op::lemma_count_add(rcc, report, op);
    op::lemma_count_add(rcc + report, flags, op);
    op::lemma_count_add(rcc + report + flags, unlock, op);
    op::lemma_count_add(rcc + report + flags + unlock, timer, op);
}

/// How often leaving stop mode performs `op`.
spec fn wakeup_count(config: Config, world: World, op: Op) -> nat {
    if !trace::reaches_stop(config, world) {
        0
    } else if op is ResumeTime {
        1
    } else if op is ReinitRcc && platform::needs_rcc(config.chip, trace::status(world)) {
        1
    } else if op is InitTimer && platform::needs_timer(config, trace::status(world))
        && !config.lp_time_driver {
        1
    } else if config.chip is Wl5x && (op == (Op::BlockingLock { sem: 3, process: 0 }) || op == (
    Op::Unlock { sem: 3 })) {
        1
    } else {
        0
    }
}

/// What leaving stop mode does, counted.
proof fn lemma_count_wakeup(config: Config, world: World, op: Op)
    requires
        is_control(op),
    ensures
        op::count(trace::wakeup_trace(config, world), op) == wakeup_count(config, world, op),
{
    reveal(trace::wakeup_trace);
    let word = trace::status(world);
    let exit = platform::exit_ops(config);
    let after = platform::status_ops(config, word);
    let resumed = sleep::resumed_ops();
    lemma_count_status(config, word, op);
    assert(op::count(resumed, op) == once(op is ResumeTime)) by {
        lemma_count_fixed(config, op);
    }
    assert(op::count(exit, op) == once(
        config.chip is Wl5x && op == (Op::BlockingLock { sem: 3, process: 0 }),
    )) by {
        let read = Op::Read(platform::status_register(config.chip));
        lemma_count_few(read, read, op);
        lemma_count_few(Op::BlockingLock { sem: 3, process: 0 }, read, op);
    }
    lemma_count_few(op, op, op);
    op::lemma_count_add(exit, after, op);
    op::lemma_count_add(exit + after, resumed, op);
}

/// How often a sleep performs `op` before the core sleeps.
spec fn before_count(config: Config, world: World, op: Op) -> nat {
    once(config.use_low_power_sleep && op is GearshiftSlow) + once(
        op is ClearSleepdeep || op is CompilerFence || op is GetStopMode,
    ) + decided_count(config, world, op) + once(config.defmt_flush && op is FlushLog)
}

/// How often a sleep performs `op` after the core has slept.
spec fn after_count(config: Config, world: World, op: Op) -> nat {
    wakeup_count(config, world, op) + once(config.use_low_power_sleep && op is GearshiftFast)
}

/// One sleep, counted.
proof fn lemma_count_sleep(config: Config, world: World, op: Op)
    requires
        is_control(op),
        !(op is Dsb),
        !(op is Delay),
        !(op is WaitUntil),
    ensures
        op::count(trace::before_wfi(config, world), op) == before_count(config, world, op),
        op::count(trace::after_wfi(config, world), op) == after_count(config, world, op),
        op::count(trace::sleep_trace(config, world), op) == before_count(config, world, op) + once(
            op is Wfi || op is Isb,
        ) + after_count(config, world, op),
{
    let slow = sleep::slow_ops(config);
    let configure = sleep::configure_ops(config);
    let decided = trace::decided_trace(config, world);
    let flush = sleep::flush_ops(config);
    let off = trace::gpio_off_trace(config);
    let on = trace::gpio_on_trace(config, world);
    let wake = trace::wakeup_trace(config, world);
    let fast = sleep::fast_ops(config);
    reveal(trace::gpio_off_trace);
    reveal(trace::gpio_on_trace);
    lemma_gpio_kinds(GpioContexts::from_words(trace::ports(world)), trace::ports(world)[48]);
    op::lemma_count_none(off, op);
    op::lemma_count_none(on, op);
    op::lemma_count_add(slow, configure, op);
    op::lemma_count_add(slow + configure, decided, op);
    op::lemma_count_add(slow + configure + decided, flush, op);
    op::lemma_count_add(slow + configure + decided + flush, off, op);
    op::lemma_count_add(trace::before_wfi(config, world), sleep::wfi_ops(), op);
    op::lemma_count_add(
        trace::before_wfi(config, world) + sleep::wfi_ops(),
        trace::after_wfi(config, world),
        op,
    );
    op::lemma_count_add(on, wake, op);
    op::lemma_count_add(on + wake, fast, op);
    lemma_count_fixed(config, op);
    lemma_count_decided(config, world, op);
    lemma_count_wakeup(config, world, op);
}

/// Every sleep executes WFI exactly once, between a data and an instruction barrier, whether or
/// not a stop mode is possible.
pub proof fn law_one_wfi(config: Config, world: World)
    ensures
        op::count(trace::sleep_trace(config, world), Op::Wfi) == 1,
        trace::sleep_trace(config, world).subrange(
            trace::before_wfi(config, world).len() as int,
            (trace::before_wfi(config, world).len() + 3) as int,
        ) == seq![Op::Dsb, Op::Wfi, Op::Isb],
{
    lemma_count_sleep(config, world, Op::Wfi);
    lemma_middle(trace::before_wfi(config, world), sleep::wfi_ops(), trace::after_wfi(config, world));
}

proof fn lemma_middle<A>(a: Seq<A>, b: Seq<A>, c: Seq<A>)
    ensures
        (a + b + c).subrange(a.len() as int, (a.len() + b.len()) as int) == b,
{
    assert((a + b + c).subrange(a.len() as int, (a.len() + b.len()) as int) =~= b);
}

/// Whether SLEEPDEEP is set after `ops`, if it was `initial` before them.
pub open spec fn sleepdeep(ops: Seq<Op>, initial: bool) -> bool
    decreases ops.len(),
{
    if ops.len() == 0 {
        initial
    } else {
        match ops.last() {
            Op::SetSleepdeep => true,
            Op::ClearSleepdeep => false,
            _ => sleepdeep(ops.drop_last(), initial),
        }
    }
}

proof fn lemma_sleepdeep_add(a: Seq<Op>, b: Seq<Op>, initial: bool)
    ensures
        sleepdeep(a + b, initial) == sleepdeep(b, sleepdeep(a, initial)),
    decreases b.len(),
{
    if b.len() == 0 {
        assert(a + b =~= a);
    } else {
        assert((a + b).drop_last() =~= a + b.drop_last());
        lemma_sleepdeep_add(a, b.drop_last(), initial);
    }
}

proof fn lemma_sleepdeep_kept(ops: Seq<Op>, initial: bool)
    requires
        op::count(ops, Op::SetSleepdeep) == 0,
        op::count(ops, Op::ClearSleepdeep) == 0,
    ensures
        sleepdeep(ops, initial) == initial,
    decreases ops.len(),
{
    if ops.len() > 0 {
        lemma_sleepdeep_kept(ops.drop_last(), initial);
    }
}

/// When the core executes WFI, SLEEPDEEP is set if and only if stop mode was entered, and never in
/// a build that keeps the debugger attached. What it was before the sleep does not matter.
pub proof fn law_deep_sleep(config: Config, world: World, initial: bool)
    ensures
        sleepdeep(trace::before_wfi(config, world), initial) == (trace::reaches_stop(config, world)
            && !config.debug_with_sleep),
{
    let set = Op::SetSleepdeep;
    let clear = Op::ClearSleepdeep;
    let slow = sleep::slow_ops(config);
    let configure = sleep::configure_ops(config);
    let decided = trace::decided_trace(config, world);
    let flush = sleep::flush_ops(config);
    let off = trace::gpio_off_trace(config);
    lemma_count_fixed(config, set);
    lemma_count_fixed(config, clear);
    reveal(trace::gpio_off_trace);
    reveal(trace::gpio_on_trace);
    lemma_gpio_kinds(GpioContexts::from_words(trace::ports(world)), trace::ports(world)[48]);
    op::lemma_count_none(off, set);
    op::lemma_count_none(off, clear);
    lemma_sleepdeep_configure(config, sleepdeep(slow, initial));
    lemma_sleepdeep_decided(config, world);
    lemma_sleepdeep_kept(flush, sleepdeep(decided, false));
    lemma_sleepdeep_kept(off, sleepdeep(decided, false));
    lemma_sleepdeep_add(slow, configure, initial);
    lemma_sleepdeep_add(slow + configure, decided, initial);
    lemma_sleepdeep_add(slow + configure + decided, flush, initial);
    lemma_sleepdeep_add(slow + configure + decided + flush, off, initial);
}

proof fn lemma_sleepdeep_configure(config: Config, initial: bool)
    ensures
        !sleepdeep(sleep::configure_ops(config), initial),
{
    let first = seq![Op::ClearSleepdeep];
    let flags = platform::clear_flags_ops(config);
    let ask = seq![Op::CompilerFence, Op::GetStopMode];
    op::lemma_count_none(flags, Op::SetSleepdeep);
    op::lemma_count_none(flags, Op::ClearSleepdeep);
    op::lemma_count_none(ask, Op::SetSleepdeep);
    op::lemma_count_none(ask, Op::ClearSleepdeep);
    lemma_sleepdeep_add(first, flags, initial);
    lemma_sleepdeep_add(first + flags, ask, initial);
    lemma_sleepdeep_kept(flags, sleepdeep(first, initial));
    lemma_sleepdeep_kept(ask, sleepdeep(first, initial));
}

proof fn lemma_sleepdeep_decided(config: Config, world: World)
    ensures
        sleepdeep(trace::decided_trace(config, world), false) == (trace::reaches_stop(config, world)
            && !config.debug_with_sleep),
{
    let decided = trace::decided_trace(config, world);
    lemma_count_decided(config, world, Op::SetSleepdeep);
    lemma_count_decided(config, world, Op::ClearSleepdeep);
    if trace::reaches_stop(config, world) && !config.debug_with_sleep {
        reveal(trace::decided_trace);
        assert(decided.last() == Op::SetSleepdeep);
    } else {
        lemma_sleepdeep_kept(decided, false);
    }
}

/// Whatever goes down goes down before the core sleeps, and whatever comes up comes up after it:
/// SLEEPDEEP, time and the slow clocks on the one side, the clock tree, the timer, time and the
/// normal clocks on the other. Time that was paused for a stop that is then refused is the one
/// exception: it resumes before the core sleeps.
pub proof fn law_order(config: Config, world: World)
    ensures
        op::count(trace::after_wfi(config, world), Op::ClearSleepdeep) == 0,
        op::count(trace::after_wfi(config, world), Op::SetSleepdeep) == 0,
        op::count(trace::after_wfi(config, world), Op::PauseTime) == 0,
        op::count(trace::after_wfi(config, world), Op::GearshiftSlow) == 0,
        op::count(trace::before_wfi(config, world), Op::ReinitRcc) == 0,
        op::count(trace::before_wfi(config, world), Op::InitTimer) == 0,
        trace::reaches_stop(config, world) ==> op::count(
            trace::before_wfi(config, world),
            Op::ResumeTime,
        ) == 0,
        op::count(trace::before_wfi(config, world), Op::GearshiftFast) == 0,
{
    lemma_count_sleep(config, world, Op::ClearSleepdeep);
    lemma_count_sleep(config, world, Op::SetSleepdeep);
    lemma_count_sleep(config, world, Op::PauseTime);
    lemma_count_sleep(config, world, Op::GearshiftSlow);
    lemma_count_sleep(config, world, Op::ReinitRcc);
    lemma_count_sleep(config, world, Op::InitTimer);
    lemma_count_sleep(config, world, Op::ResumeTime);
    lemma_count_sleep(config, world, Op::GearshiftFast);
}

/// Time is asked to pause once if a stop mode is permitted and not at all otherwise, and it resumes
/// exactly once if it was paused and not at all otherwise.
pub proof fn law_time(config: Config, world: World)
    ensures
        op::count(trace::sleep_trace(config, world), Op::PauseTime) == if trace::permitted(
            world,
        ) is Some {
            1nat
        } else {
            0
        },
        op::count(trace::sleep_trace(config, world), Op::ResumeTime) == if trace::permitted(
            world,
        ) is Some && trace::paused(world, trace::permitted(world)->0) {
            1nat
        } else {
            0
        },
{
    lemma_count_sleep(config, world, Op::PauseTime);
    lemma_count_sleep(config, world, Op::ResumeTime);
}

/// Time that was paused resumes in the same sleep, whether or not stop mode was entered.
pub proof fn law_paused_time_resumes(config: Config, world: World, mode: StopMode)
    requires
        trace::permitted(world) == Some(mode),
        trace::paused(world, mode),
    ensures
        op::count(trace::sleep_trace(config, world), Op::ResumeTime) == 1,
{
    law_time(config, world);
}

/// Time resumes after it was paused, never before.
pub proof fn law_resume_after_pause(config: Config, world: World, i: int, j: int)
    requires
        0 <= i < trace::sleep_trace(config, world).len(),
        0 <= j < trace::sleep_trace(config, world).len(),
        trace::sleep_trace(config, world)[i] == Op::PauseTime,
        trace::sleep_trace(config, world)[j] == Op::ResumeTime,
    ensures
        i < j,
{
    let all = trace::sleep_trace(config, world);
    let slow = sleep::slow_ops(config);
    let configure = sleep::configure_ops(config);
    let place: int = (slow + configure).len() as int;
    law_time(config, world);
    op::lemma_count_some(all, i);
    assert(all[place] == Op::PauseTime) by {
        reveal(trace::decided_trace);
        assert(trace::decided_trace(config, world)[0] == Op::PauseTime);
    }
    op::lemma_count_unique(all, i, place);
    if j < place {
        assert((slow + configure)[j] == all[j]);
        lemma_count_fixed(config, Op::ResumeTime);
        op::lemma_count_add(slow, configure, Op::ResumeTime);
        op::lemma_count_some(slow + configure, j);
    }
}

/// Every chip that keeps stop flags in a status word has those of the running core cleared in each
/// sleep before it is decided how deep to sleep, and again once the status word has been read: a
/// one is written to the bit that clears them.
pub proof fn law_stop_flags_cleared(config: Config, world: World)
    requires
        config.chip is L0 || config.chip is Wba || config.chip is Wb || config.chip is Wl5x
            || config.chip is Wlex,
    ensures
        exists|edit: Edit|
            {
                &&& #[trigger] clears_flags(config, edit)
                &&& trace::before_wfi(config, world)[if config.use_low_power_sleep {
                    2
                } else {
                    1
                }] == Op::Modify(edit)
                &&& forall|status: u32| #[trigger]
                    platform::status_ops(config, status).contains(Op::Modify(edit))
            },
{
    let edit = match config.chip {
        Chip::Wba => Edit::ClearStopFlags,
        Chip::L0 => Edit::ClearWakeupFlag,
        _ => if config.core_cm0p {
            Edit::ClearCpu2StopFlags
        } else {
            Edit::ClearCpu1StopFlags
        },
    };
    let flags = platform::clear_flags_ops(config);
    assert(flags == seq![Op::Modify(edit)]);
    assert(clears_flags(config, edit));
    let slow = sleep::slow_ops(config);
    let before = trace::before_wfi(config, world);
    let place: int = slow.len() as int + 1;
    assert(sleep::configure_ops(config)[1] == Op::Modify(edit));
    assert(before[place] == Op::Modify(edit));
    assert forall|status: u32| #[trigger]
        platform::status_ops(config, status).contains(Op::Modify(edit)) by {
        let ahead = platform::rcc_ops(config.chip, status) + platform::report_ops(
            config.chip,
            status,
        );
        assert(platform::status_ops(config, status)[ahead.len() as int] == flags[0]);
    }
}

/// `edit` writes a one to the bit that clears the stop flags of the running core.
pub open spec fn clears_flags(config: Config, edit: Edit) -> bool {
    &&& edit.mask() == edit.value()
    &&& match config.chip {
        Chip::L0 => edit.target() is PwrCr && edit.mask() == 0x4,
        Chip::Wba => edit.target() is PwrSr && edit.mask() == 0x1,
        Chip::Wb | Chip::Wl5x | Chip::Wlex => edit.target() is PwrExtscr && edit.mask()
            == if config.core_cm0p {
            0x2u32
        } else {
            0x1u32
        },
        _ => false,
    }
}

/// A sleep that may not stop, or cannot pause time, leaves the clock tree and the timer alone and
/// takes no semaphore.
pub proof fn law_refused_stop(config: Config, world: World, sem: u8, process: u8)
    requires
        trace::permitted(world) matches Some(mode) ==> !trace::paused(world, mode),
    ensures
        op::count(trace::sleep_trace(config, world), Op::ReinitRcc) == 0,
        op::count(trace::sleep_trace(config, world), Op::InitTimer) == 0,
        op::count(trace::sleep_trace(config, world), Op::SetSleepdeep) == 0,
        op::count(trace::sleep_trace(config, world), Op::PollLock { sem, process }) == 0,
        op::count(trace::sleep_trace(config, world), Op::TryLock { sem, process }) == 0,
        op::count(trace::sleep_trace(config, world), Op::BlockingLock { sem, process }) == 0,
{
    lemma_count_sleep(config, world, Op::ReinitRcc);
    lemma_count_sleep(config, world, Op::InitTimer);
    lemma_count_sleep(config, world, Op::SetSleepdeep);
    lemma_count_sleep(config, world, Op::PollLock { sem, process });
    lemma_count_sleep(config, world, Op::TryLock { sem, process });
    lemma_count_sleep(config, world, Op::BlockingLock { sem, process });
}

/// Every hardware semaphore that a sleep is granted, it releases: semaphore 3 as often as a lock of
/// it blocks or a poll succeeds, semaphore 4 as often as an attempt succeeds.
pub proof fn law_semaphores_released(config: Config, world: World)
    ensures
        op::count(trace::sleep_trace(config, world), Op::Unlock { sem: 3 }) == op::count(
            trace::sleep_trace(config, world),
            Op::BlockingLock { sem: 3, process: 0 },
        ) + (if trace::permitted(world) is Some && trace::sem3(world, trace::permitted(world)->0) {
            op::count(trace::sleep_trace(config, world), Op::PollLock { sem: 3, process: 0 })
        } else {
            0
        }),
        op::count(trace::sleep_trace(config, world), Op::Unlock { sem: 4 }) == if trace::permitted(
            world,
        ) is Some && trace::sem4(world, trace::permitted(world)->0) {
            op::count(trace::sleep_trace(config, world), Op::TryLock { sem: 4, process: 0 })
        } else {
            0
        },
{
    lemma_count_sleep(config, world, Op::Unlock { sem: 3 });
    lemma_count_sleep(config, world, Op::Unlock { sem: 4 });
    lemma_count_sleep(config, world, Op::BlockingLock { sem: 3, process: 0 });
    lemma_count_sleep(config, world, Op::PollLock { sem: 3, process: 0 });
    lemma_count_sleep(config, world, Op::TryLock { sem: 4, process: 0 });
}

/// Where low-power sleep is used, the first operation of a sleep slows the clocks down and the last
/// speeds them up, and nothing in between shifts them; elsewhere nothing shifts them at all.
pub proof fn law_gearshift(config: Config, world: World)
    ensures
        config.use_low_power_sleep ==> {
            &&& trace::sleep_trace(config, world).first() == Op::GearshiftSlow
            &&& trace::sleep_trace(config, world).last() == Op::GearshiftFast
            &&& op::count(trace::sleep_trace(config, world), Op::GearshiftSlow) == 1
            &&& op::count(trace::sleep_trace(config, world), Op::GearshiftFast) == 1
        },
        !config.use_low_power_sleep ==> {
            &&& op::count(trace::sleep_trace(config, world), Op::GearshiftSlow) == 0
            &&& op::count(trace::sleep_trace(config, world), Op::GearshiftFast) == 0
        },
{
    lemma_count_sleep(config, world, Op::GearshiftSlow);
    lemma_count_sleep(config, world, Op::GearshiftFast);
}

/// The clock tree is set up again exactly once if stop mode was entered and the status word asks
/// for it, and not at all otherwise; so is the timer, unless it is the low-power timer. Both happen
/// before time resumes.
pub proof fn law_reinit(config: Config, world: World, i: int, j: int)
    ensures
        op::count(trace::sleep_trace(config, world), Op::ReinitRcc) == if trace::reaches_stop(
            config,
            world,
        ) && platform::needs_rcc(config.chip, trace::status(world)) {
            1nat
        } else {
            0
        },
        op::count(trace::sleep_trace(config, world), Op::InitTimer) == if trace::reaches_stop(
            config,
            world,
        ) && platform::needs_timer(config, trace::status(world)) && !config.lp_time_driver {
            1nat
        } else {
            0
        },
        0 <= i < trace::sleep_trace(config, world).len() && 0 <= j < trace::sleep_trace(
            config,
            world,
        ).len() && (trace::sleep_trace(config, world)[i] == Op::ReinitRcc || trace::sleep_trace(
            config,
            world,
        )[i] == Op::InitTimer) && trace::sleep_trace(config, world)[j] == Op::ResumeTime ==> i < j,
{
    lemma_count_sleep(config, world, Op::ReinitRcc);
    lemma_count_sleep(config, world, Op::InitTimer);
    let all = trace::sleep_trace(config, world);
    if 0 <= i < all.len() && 0 <= j < all.len() && (all[i] == Op::ReinitRcc || all[i]
        == Op::InitTimer) && all[j] == Op::ResumeTime {
        law_time(config, world);
        op::lemma_count_some(all, i);
        lemma_resume_place(config, world);
        let place = all.len() - sleep::fast_ops(config).len() - 2;
        op::lemma_count_unique(all, j, place);
    }
}

/// Where time resumes.
proof fn lemma_resume_place(config: Config, world: World)
    requires
        trace::reaches_stop(config, world),
    ensures
        ({
            let all = trace::sleep_trace(config, world);
            let place = all.len() - sleep::fast_ops(config).len() - 2;
            &&& 0 <= place < all.len()
            &&& all[place] == Op::ResumeTime
            &&& forall|k: int| place < k < all.len() ==> all[k] is Log || all[k] is GearshiftFast
        }),
{
    reveal(trace::wakeup_trace);
    let wake = trace::wakeup_trace(config, world);
    assert(wake.len() >= 2 && wake[wake.len() - 2] == Op::ResumeTime && wake.last() is Log);
}

/// `ops` takes semaphore 3 at `locked`, waiting for it if need be, and first releases it after that
/// at `released`.
pub open spec fn holds_sem3(ops: Seq<Op>, locked: int, released: int) -> bool {
    &&& 0 <= locked < released < ops.len()
    &&& ops[locked] == (Op::BlockingLock { sem: 3, process: 0 })
    &&& ops[released] == (Op::Unlock { sem: 3 })
    &&& forall|k: int| locked < k < released ==> ops[k] != (Op::Unlock { sem: 3 })
}

/// On a dual-core STM32WL the clock tree is set up again only while semaphore 3 is held, so that the
/// two cores do not do it at the same time.
pub proof fn law_rcc_under_lock(config: Config, world: World, i: int)
    requires
        config.chip is Wl5x,
        0 <= i < trace::sleep_trace(config, world).len(),
        trace::sleep_trace(config, world)[i] == Op::ReinitRcc,
    ensures
        exists|locked: int, released: int|
            locked < i < released && holds_sem3(
                trace::sleep_trace(config, world),
                locked,
                released,
            ),
{
    let all = trace::sleep_trace(config, world);
    law_reinit(config, world, i, i);
    op::lemma_count_some(all, i);
    reveal(trace::gpio_on_trace);
    reveal(trace::wakeup_trace);
    let wake = trace::wakeup_trace(config, world);
    let start: int = (trace::before_wfi(config, world).len() + 3) as int;
    assert(forall|k: int| 0 <= k < wake.len() ==> all[start + k] == wake[k]);
    assert(wake[0] == (Op::BlockingLock { sem: 3, process: 0 }));
    assert(wake[2] == Op::ReinitRcc);
    assert(wake[6] == (Op::Unlock { sem: 3 }));
    op::lemma_count_unique(all, i, start + 2);
    assert forall|k: int| start < k < start + 6 implies all[k] != (Op::Unlock { sem: 3 }) by {
        assert(all[start + (k - start)] == wake[k - start]);
    }
    assert(all[start + 0] == wake[0]);
    assert(holds_sem3(all, start, start + 6));
}

// Stops, by what the hardware reported.

/// In a sleep that entered stop mode, the clock tree is set up again exactly once if the status
/// word asks for it, and not at all otherwise: on STM32WL5x if each of the two cores has stopped
/// (bit 9 or 10 for CPU1, bit 12 or 13 for CPU2), on STM32WLEx if the only one has (bit 9 or 10), on
/// STM32WBA if bit 1 is set, on STM32L0 if bit 0 is, and on no other chip. It happens after WFI.
pub proof fn law_rcc_after_stop(config: Config, world: World, mode: StopMode, status: u32)
    requires
        world(Wait::StopMode) == Reply::StopMode(Some(mode)),
        world(Wait::PauseTime(mode)) == Reply::Success(true),
        config.chip is Wb ==> world(Wait::Sem3(mode)) == Reply::Success(true),
        config.chip is Wl5x || config.chip is Wlex || config.chip is Wba || config.chip is L0 ==> {
            &&& world(Wait::Status) is Words
            &&& (world(Wait::Status)->Words_0)@ == seq![status]
        },
    ensures
        ({
            let again = match config.chip {
                Chip::Wl5x => ((status >> 9) & 1 == 1 || (status >> 10) & 1 == 1) && ((status >> 12)
                    & 1 == 1 || (status >> 13) & 1 == 1),
                Chip::Wlex => (status >> 9) & 1 == 1 || (status >> 10) & 1 == 1,
                Chip::Wba => (status >> 1) & 1 == 1,
                Chip::L0 => (status >> 0) & 1 == 1,
                _ => false,
            };
            &&& op::count(trace::sleep_trace(config, world), Op::ReinitRcc) == if again {
                1nat
            } else {
                0
            }
            &&& op::count(trace::before_wfi(config, world), Op::ReinitRcc) == 0
        }),
{
    lemma_count_sleep(config, world, Op::ReinitRcc);
}

/// In a sleep that entered stop mode, the timer of the ordinary time driver is set up again exactly
/// once if the status word says that it has lost its state, and not at all otherwise: on both
/// STM32WL families if the running core has been in STOP2 (bit 9; bit 12 on the Cortex-M0+ core), on
/// STM32WBA if bit 1 is set, and on no other chip. It happens after WFI. The low-power timer is
/// never set up again.
pub proof fn law_timer_after_stop(config: Config, world: World, mode: StopMode, status: u32)
    requires
        world(Wait::StopMode) == Reply::StopMode(Some(mode)),
        world(Wait::PauseTime(mode)) == Reply::Success(true),
        config.chip is Wb ==> world(Wait::Sem3(mode)) == Reply::Success(true),
        config.chip is Wl5x || config.chip is Wlex || config.chip is Wba ==> {
            &&& world(Wait::Status) is Words
            &&& (world(Wait::Status)->Words_0)@ == seq![status]
        },
    ensures
        ({
            let lost = match config.chip {
                Chip::Wl5x | Chip::Wlex => if config.core_cm0p {
                    (status >> 12) & 1 == 1
                } else {
                    (status >> 9) & 1 == 1
                },
                Chip::Wba => (status >> 1) & 1 == 1,
                _ => false,
            };
            &&& op::count(trace::sleep_trace(config, world), Op::InitTimer) == if lost
                && !config.lp_time_driver {
                1nat
            } else {
                0
            }
            &&& op::count(trace::before_wfi(config, world), Op::InitTimer) == 0
        }),
{
    lemma_count_sleep(config, world, Op::InitTimer);
}

/// A sleep enters stop mode as soon as one is permitted, whichever it is, time can be paused, and on
/// STM32WB semaphore 3 is granted. Then SLEEPDEEP is set when the core executes WFI, unless the
/// debugger is to stay attached; time is paused before WFI and resumes after it, each once.
pub proof fn law_stop_entered(config: Config, world: World, mode: StopMode, initial: bool)
    requires
        world(Wait::StopMode) == Reply::StopMode(Some(mode)),
        world(Wait::PauseTime(mode)) == Reply::Success(true),
        config.chip is Wb ==> world(Wait::Sem3(mode)) == Reply::Success(true),
    ensures
        trace::reaches_stop(config, world),
        sleepdeep(trace::before_wfi(config, world), initial) == !config.debug_with_sleep,
        op::count(trace::before_wfi(config, world), Op::PauseTime) == 1,
        op::count(trace::after_wfi(config, world), Op::PauseTime) == 0,
        op::count(trace::before_wfi(config, world), Op::ResumeTime) == 0,
        op::count(trace::after_wfi(config, world), Op::ResumeTime) == 1,
{
    law_deep_sleep(config, world, initial);
    lemma_count_sleep(config, world, Op::PauseTime);
    lemma_count_sleep(config, world, Op::ResumeTime);
}

/// A sleep does not enter stop mode if none is permitted, if time cannot be paused, or if semaphore
/// 3 is refused on STM32WB. Then SLEEPDEEP is clear when the core executes WFI, whatever it was
/// before, and after WFI nothing is done to time, the clock tree, the timer or the semaphores. Time
/// is asked to pause if a stop mode is permitted, and resumes before WFI if it did pause.
pub proof fn law_stop_not_entered(
    config: Config,
    world: World,
    mode: Option<StopMode>,
    initial: bool,
)
    requires
        world(Wait::StopMode) == Reply::StopMode(mode),
        mode matches Some(m) ==> world(Wait::PauseTime(m)) == Reply::Success(false) || (
        config.chip is Wb && world(Wait::PauseTime(m)) == Reply::Success(true) && world(
            Wait::Sem3(m),
        ) == Reply::Success(false)),
    ensures
        !trace::reaches_stop(config, world),
        !sleepdeep(trace::before_wfi(config, world), initial),
        op::count(trace::before_wfi(config, world), Op::PauseTime) == if mode is Some {
            1nat
        } else {
            0
        },
        op::count(trace::before_wfi(config, world), Op::ResumeTime) == if mode is Some && world(
            Wait::PauseTime(mode->0),
        ) == Reply::Success(true) {
            1nat
        } else {
            0
        },
        op::count(trace::after_wfi(config, world), Op::PauseTime) == 0,
        op::count(trace::after_wfi(config, world), Op::ResumeTime) == 0,
        op::count(trace::sleep_trace(config, world), Op::ReinitRcc) == 0,
        op::count(trace::sleep_trace(config, world), Op::InitTimer) == 0,
        op::count(trace::after_wfi(config, world), Op::BlockingLock { sem: 3, process: 0 }) == 0,
        op::count(trace::after_wfi(config, world), Op::Unlock { sem: 3 }) == 0,
{
    law_deep_sleep(config, world, initial);
    lemma_count_sleep(config, world, Op::PauseTime);
    lemma_count_sleep(config, world, Op::ResumeTime);
    lemma_count_sleep(config, world, Op::ReinitRcc);
    lemma_count_sleep(config, world, Op::InitTimer);
    lemma_count_sleep(config, world, Op::BlockingLock { sem: 3, process: 0 });
    lemma_count_sleep(config, world, Op::Unlock { sem: 3 });
}

/// The hardware semaphores are used on two chips alone, always as process 0. On STM32WB a sleep that
/// pauses time polls semaphore 3 once before WFI; if that is granted it tries semaphore 4 once, and
/// releases 4 if that is granted too, and 3 in any case. On STM32WL5x a sleep that entered stop mode
/// takes semaphore 3 once after WFI, however long it takes, and releases it.
pub proof fn law_semaphores(
    config: Config,
    world: World,
    mode: StopMode,
    sem: u8,
    process: u8,
)
    requires
        world(Wait::StopMode) == Reply::StopMode(Some(mode)),
        world(Wait::PauseTime(mode)) == Reply::Success(true),
        config.chip is Wb ==> world(Wait::Sem3(mode)) is Success && world(Wait::Sem4(mode)) is Success,
    ensures
        ({
            let before = trace::before_wfi(config, world);
            let after = trace::after_wfi(config, world);
            let wb = config.chip == Chip::Wb;
            let granted3 = world(Wait::Sem3(mode)) == Reply::Success(true);
            let granted4 = world(Wait::Sem4(mode)) == Reply::Success(true);
            let one = |b: bool|
                if b {
                    1nat
                } else {
                    0nat
                };
            &&& op::count(before, Op::PollLock { sem, process }) == one(
                wb && sem == 3 && process == 0,
            )
            &&& op::count(before, Op::TryLock { sem, process }) == one(
                wb && granted3 && sem == 4 && process == 0,
            )
            &&& op::count(before, Op::BlockingLock { sem, process }) == 0
            &&& op::count(before, Op::Unlock { sem }) == one(
                wb && granted3 && (sem == 3 || sem == 4 && granted4),
            )
            &&& op::count(after, Op::PollLock { sem, process }) == 0
            &&& op::count(after, Op::TryLock { sem, process }) == 0
            &&& op::count(after, Op::BlockingLock { sem, process }) == one(
                config.chip == Chip::Wl5x && sem == 3 && process == 0,
            )
            &&& op::count(after, Op::Unlock { sem }) == one(config.chip == Chip::Wl5x && sem == 3)
        }),
{
    lemma_count_sleep(config, world, Op::PollLock { sem, process });
    lemma_count_sleep(config, world, Op::TryLock { sem, process });
    lemma_count_sleep(config, world, Op::BlockingLock { sem, process });
    lemma_count_sleep(config, world, Op::Unlock { sem });
}

/// Every sleep, whatever the build and the hardware, asks once how deep a stop is permitted and
/// clears SLEEPDEEP once, both before WFI, and stays nowhere for good. It flushes the log once, before
/// WFI, where the build asks for that, and not at all otherwise.
pub proof fn law_every_sleep(config: Config, world: World)
    ensures
        op::count(trace::before_wfi(config, world), Op::GetStopMode) == 1,
        op::count(trace::before_wfi(config, world), Op::ClearSleepdeep) == 1,
        op::count(trace::before_wfi(config, world), Op::CompilerFence) == 1,
        op::count(trace::before_wfi(config, world), Op::FlushLog) == if config.defmt_flush {
            1nat
        } else {
            0
        },
        op::count(trace::after_wfi(config, world), Op::GetStopMode) == 0,
        op::count(trace::after_wfi(config, world), Op::ClearSleepdeep) == 0,
        op::count(trace::after_wfi(config, world), Op::CompilerFence) == 0,
        op::count(trace::after_wfi(config, world), Op::FlushLog) == 0,
        op::count(trace::sleep_trace(config, world), Op::Spin) == 0,
{
    lemma_count_sleep(config, world, Op::GetStopMode);
    lemma_count_sleep(config, world, Op::ClearSleepdeep);
    lemma_count_sleep(config, world, Op::CompilerFence);
    lemma_count_sleep(config, world, Op::FlushLog);
    lemma_count_sleep(config, world, Op::Spin);
}

/// The log is flushed once everything that is logged before WFI has been logged.
pub proof fn law_flush_after_log(config: Config, world: World, i: int, j: int)
    requires
        0 <= i < trace::before_wfi(config, world).len(),
        0 <= j < trace::before_wfi(config, world).len(),
        trace::before_wfi(config, world)[i] is Log,
        trace::before_wfi(config, world)[j] is FlushLog,
    ensures
        i < j,
{
    let start = sleep::slow_ops(config) + sleep::configure_ops(config) + trace::decided_trace(
        config,
        world,
    );
    let off = trace::gpio_off_trace(config);
    let all = trace::before_wfi(config, world);
    let place: int = start.len() as int;
    lemma_count_sleep(config, world, Op::FlushLog);
    op::lemma_count_some(all, j);
    assert(config.defmt_flush);
    assert(all[place] == Op::FlushLog);
    op::lemma_count_unique(all, j, place);
    assert forall|k: int| place < k < all.len() implies !(all[k] is Log) by {
        assert(all[k] == off[k - place - 1]);
        reveal(trace::gpio_off_trace);
        lemma_gpio_kinds(GpioContexts::from_words(trace::ports(world)), trace::ports(world)[48]);
    }
}

} // verus!
