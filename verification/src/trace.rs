//! Everything that one sleep does, as a function of what the hardware reports.
use vstd::prelude::*;
use crate::chip::{Config, StopMode};
use crate::gpio::{self, GpioContexts};
use crate::op::{Message, Op, Reply};
use crate::platform;
use crate::sleep;
use crate::state::{LowPower, Wait};

verus! {

/// What the hardware reports in the course of one sleep.
pub type World = spec_fn(Wait) -> Reply;

/// The deepest stop mode that is permitted.
pub open spec fn permitted(world: World) -> Option<StopMode> {
    world(Wait::StopMode)->StopMode_0
}

/// Time can be paused for `mode`.
pub open spec fn paused(world: World, mode: StopMode) -> bool {
    world(Wait::PauseTime(mode))->Success_0
}

/// Semaphore 3 is granted.
pub open spec fn sem3(world: World, mode: StopMode) -> bool {
    world(Wait::Sem3(mode))->Success_0
}

/// Semaphore 4 is granted.
pub open spec fn sem4(world: World, mode: StopMode) -> bool {
    world(Wait::Sem4(mode))->Success_0
}

/// CPU2 is in deep sleep.
pub open spec fn cpu2_asleep(world: World, mode: StopMode) -> bool {
    platform::cpu2_deep_sleep(sleep::words_of(world(Wait::Extscr(mode)))[0])
}

/// The words of the ports' configuration.
pub open spec fn ports(world: World) -> Seq<u32> {
    sleep::words_of(world(Wait::GpioContext))
}

/// The stop status word.
pub open spec fn status(world: World) -> u32 {
    sleep::words_of(world(Wait::Status))[0]
}

/// Stop mode is entered: a stop mode is permitted, time can be paused, and on STM32WB semaphore 3
/// is granted.
pub open spec fn reaches_stop(config: Config, world: World) -> bool {
    match permitted(world) {
        None => false,
        Some(mode) => paused(world, mode) && (config.chip is Wb ==> sem3(world, mode)),
    }
}

/// Everything that entering stop mode does.
#[verifier::opaque]
pub open spec fn enter_trace(config: Config, mode: StopMode, world: World) -> Seq<Op> {
    if !(config.chip is Wb) {
        platform::select_ops(config, mode)
    } else if !sem3(world, mode) {
        platform::ask_sem3_ops()
    } else if !sem4(world, mode) {
        platform::ask_sem3_ops() + platform::ask_sem4_ops() + platform::hsi_ops()
            + platform::settled_ops(config, mode)
    } else {
        platform::ask_sem3_ops() + platform::ask_sem4_ops() + platform::ask_cpu2_ops() + seq![
            Op::Unlock { sem: 4 },
        ] + (if cpu2_asleep(world, mode) {
            platform::hsi_ops()
        } else {
            seq![]
        }) + platform::settled_ops(config, mode)
    }
}

/// Everything that configuring the power controller does once the permitted stop mode is known.
#[verifier::opaque]
pub open spec fn decided_trace(config: Config, world: World) -> Seq<Op> {
    match permitted(world) {
        None => if config.use_low_power_sleep {
            sleep::low_power_sleep_ops()
        } else {
            seq![]
        },
        Some(mode) => if !paused(world, mode) {
            seq![Op::PauseTime, Op::Log(Message::PauseFailed)]
        } else if reaches_stop(config, world) {
            seq![Op::PauseTime] + enter_trace(config, mode, world) + sleep::entered_ops(config, mode)
        } else {
            seq![Op::PauseTime] + enter_trace(config, mode, world) + sleep::refused_ops()
        },
    }
}

/// Everything that leaving stop mode does, if it was entered.
#[verifier::opaque]
pub open spec fn wakeup_trace(config: Config, world: World) -> Seq<Op> {
    if !reaches_stop(config, world) {
        seq![]
    } else if config.chip.has_stop_status() {
        platform::exit_ops(config) + platform::status_ops(config, status(world))
            + sleep::resumed_ops()
    } else {
        sleep::resumed_ops()
    }
}

/// The ports saved and turned off, where the build asks for that.
#[verifier::opaque]
pub open spec fn gpio_off_trace(config: Config) -> Seq<Op> {
    if sleep::gates_gpios(config) {
        gpio::stored_reads() + gpio::disable_ops()
    } else {
        seq![]
    }
}

/// The ports written back, where the build asks for that.
#[verifier::opaque]
pub open spec fn gpio_on_trace(config: Config, world: World) -> Seq<Op> {
    if sleep::gates_gpios(config) {
        gpio::recover_ops(GpioContexts::from_words(ports(world)), ports(world)[48])
    } else {
        seq![]
    }
}

/// Everything that one sleep does before the core sleeps.
pub open spec fn before_wfi(config: Config, world: World) -> Seq<Op> {
    sleep::slow_ops(config) + sleep::configure_ops(config) + decided_trace(config, world)
        + sleep::flush_ops(config) + gpio_off_trace(config)
}

/// Everything that one sleep does after the core has slept.
pub open spec fn after_wfi(config: Config, world: World) -> Seq<Op> {
    gpio_on_trace(config, world) + wakeup_trace(config, world) + sleep::fast_ops(config)
}

/// Everything that one sleep does.
pub open spec fn sleep_trace(config: Config, world: World) -> Seq<Op> {
    before_wfi(config, world) + sleep::wfi_ops() + after_wfi(config, world)
}

impl Wait {
    /// How many replies a sleep can still need.
    pub open spec fn rank(self) -> nat {
        match self {
            Wait::Nothing => 0,
            Wait::Status => 1,
            Wait::GpioContext => 2,
            Wait::Extscr(_) => 3,
            Wait::Sem4(_) => 4,
            Wait::Sem3(_) => 5,
            Wait::PauseTime(_) => 6,
            Wait::StopMode => 7,
        }
    }
}

/// The rest of a sleep: `resume` with reply after reply until nothing is waited for.
pub open spec fn drive(lp: LowPower, world: World) -> (LowPower, Seq<Op>)
    decreases lp.wait.rank(),
{
    if lp.wait is Nothing {
        (lp, seq![])
    } else {
        proof {
            law_sleep_progresses(lp, world(lp.wait));
        }
        let turn = sleep::resume_turn(lp, world(lp.wait));
        let rest = drive(turn.0, world);
        (rest.0, turn.1 + rest.1)
    }
}

/// Once the power controller is configured, at most the ports and the status are asked for.
proof fn lemma_configured_rank(turn: (LowPower, Seq<Op>))
    ensures
        turn.0.wait is Nothing ==> sleep::then_configured(turn).0.wait.rank() <= 2,
        !(turn.0.wait is Nothing) ==> sleep::then_configured(turn) == turn,
{
}

/// A sleep ends: every reply brings it closer to waiting for nothing.
pub proof fn law_sleep_progresses(lp: LowPower, reply: Reply)
    requires
        !(lp.wait is Nothing),
    ensures
        sleep::resume_turn(lp, reply).0.wait.rank() < lp.wait.rank(),
{
    match lp.wait {
        Wait::Nothing => {},
        Wait::StopMode => {
            lemma_configured_rank(sleep::stop_mode_turn(lp, reply->StopMode_0));
        },
        Wait::PauseTime(mode) => {
            lemma_configured_rank(sleep::paused_turn(lp, mode, reply->Success_0));
        },
        Wait::Sem3(mode) => {
            lemma_configured_rank(sleep::sem3_turn(lp, mode, reply->Success_0));
        },
        Wait::Sem4(mode) => {
            lemma_configured_rank(sleep::sem4_turn(lp, mode, reply->Success_0));
        },
        Wait::Extscr(mode) => {
            lemma_configured_rank(sleep::extscr_turn(lp, mode, sleep::words_of(reply)[0]));
        },
        Wait::GpioContext => {},
        Wait::Status => {},
    }
}

/// A turn and the rest of its sleep.
pub open spec fn total(turn: (LowPower, Seq<Op>), world: World) -> (LowPower, Seq<Op>) {
    let rest = drive(turn.0, world);
    (rest.0, turn.1 + rest.1)
}

/// Everything that follows once the power controller is configured.
spec fn configured_trace(config: Config, world: World) -> Seq<Op> {
    sleep::flush_ops(config) + gpio_off_trace(config) + sleep::wfi_ops() + after_wfi(config, world)
}

/// What a sleep leaves.
pub open spec fn slept(lp: LowPower, world: World) -> LowPower {
    if lp.config.chip is L0 && lp.config.no_gpios_while_stop {
        lp.with_gpio(ports(world))
    } else {
        lp
    }
}

proof fn lemma_woken(lp: LowPower, world: World)
    requires
        lp.stop_entered == reaches_stop(lp.config, world),
    ensures
        total(sleep::finished(sleep::wakeup_turn(lp)), world).0 == lp.waiting(
            Wait::Nothing,
        ).stopped(false),
        total(sleep::finished(sleep::wakeup_turn(lp)), world).1 =~= wakeup_trace(lp.config, world)
            + sleep::fast_ops(lp.config),
{
    reveal(wakeup_trace);
    reveal_with_fuel(drive, 2);
}

proof fn lemma_regroup_gated<A>(
    flush: Seq<A>,
    reads: Seq<A>,
    off: Seq<A>,
    wfi: Seq<A>,
    on: Seq<A>,
    woken: Seq<A>,
    rest: Seq<A>,
)
    ensures
        (flush + reads) + ((off + wfi + on + woken) + rest) == flush + (reads + off) + wfi + (on + (
        woken + rest)),
{
    assert((flush + reads) + ((off + wfi + on + woken) + rest) =~= flush + (reads + off) + wfi + (on
        + (woken + rest)));
}

proof fn lemma_regroup_plain<A>(flush: Seq<A>, wfi: Seq<A>, woken: Seq<A>, rest: Seq<A>)
    ensures
        (flush + (wfi + woken)) + rest == flush + Seq::<A>::empty() + wfi + (woken + rest),
{
    assert((flush + (wfi + woken)) + rest =~= flush + Seq::<A>::empty() + wfi + (woken + rest));
}

proof fn lemma_assoc<A>(a: Seq<A>, b: Seq<A>, c: Seq<A>)
    ensures
        (a + b) + c == a + (b + c),
        Seq::<A>::empty() + a == a,
        a + Seq::<A>::empty() == a,
{
    assert((a + b) + c =~= a + (b + c));
    assert(Seq::<A>::empty() + a =~= a);
    assert(a + Seq::<A>::empty() =~= a);
}

proof fn lemma_configured_gated(lp: LowPower, world: World)
    requires
        lp.stop_entered == reaches_stop(lp.config, world),
        sleep::gates_gpios(lp.config),
    ensures
        total(sleep::configured_turn(lp), world).0 == slept(lp, world).waiting(
            Wait::Nothing,
        ).stopped(false),
        total(sleep::configured_turn(lp), world).1 == configured_trace(lp.config, world),
{
    reveal(gpio_off_trace);
    reveal(gpio_on_trace);
    let words = ports(world);
    let stored = lp.waiting(Wait::GpioContext).with_gpio(words);
    lemma_woken(stored, world);
    let woken = sleep::finished(sleep::wakeup_turn(stored));
    let on = gpio::recover_ops(GpioContexts::from_words(words), words[48]);
    let turn = sleep::configured_turn(lp);
    assert(sleep::resume_turn(turn.0, world(turn.0.wait)) == sleep::gpio_turn(turn.0, words));
    lemma_regroup_gated(
        sleep::flush_ops(lp.config),
        gpio::stored_reads(),
        gpio::disable_ops(),
        sleep::wfi_ops(),
        on,
        woken.1,
        drive(woken.0, world).1,
    );
    lemma_assoc(on, wakeup_trace(lp.config, world), sleep::fast_ops(lp.config));
}

proof fn lemma_configured_plain(lp: LowPower, world: World)
    requires
        lp.stop_entered == reaches_stop(lp.config, world),
        !sleep::gates_gpios(lp.config),
    ensures
        total(sleep::configured_turn(lp), world).0 == slept(lp, world).waiting(
            Wait::Nothing,
        ).stopped(false),
        total(sleep::configured_turn(lp), world).1 == configured_trace(lp.config, world),
{
    reveal(gpio_off_trace);
    reveal(gpio_on_trace);
    lemma_woken(lp, world);
    let woken = sleep::finished(sleep::wakeup_turn(lp));
    lemma_regroup_plain(
        sleep::flush_ops(lp.config),
        sleep::wfi_ops(),
        woken.1,
        drive(woken.0, world).1,
    );
    lemma_assoc(
        wakeup_trace(lp.config, world),
        sleep::fast_ops(lp.config),
        sleep::fast_ops(lp.config),
    );
}

/// `turn` ends the configuration of the power controller.
proof fn lemma_then_configured(turn: (LowPower, Seq<Op>), world: World)
    requires
        turn.0.wait is Nothing,
        turn.0.stop_entered == reaches_stop(turn.0.config, world),
    ensures
        total(sleep::then_configured(turn), world).0 == slept(turn.0, world).stopped(false),
        total(sleep::then_configured(turn), world).1 == turn.1 + configured_trace(
            turn.0.config,
            world,
        ),
{
    if sleep::gates_gpios(turn.0.config) {
        lemma_configured_gated(turn.0, world);
    } else {
        lemma_configured_plain(turn.0, world);
    }
    let next = sleep::configured_turn(turn.0);
    lemma_assoc(turn.1, next.1, drive(next.0, world).1);
}

/// `lp` is in the middle of a sleep that is permitted to stop in `mode`, and time is paused.
spec fn stopping(lp: LowPower, mode: StopMode, world: World) -> bool {
    &&& !lp.stop_entered
    &&& permitted(world) == Some(mode)
    &&& paused(world, mode)
}

/// What `lp` comes to when its sleep is over.
spec fn rested(lp: LowPower, world: World) -> LowPower {
    slept(lp, world).waiting(Wait::Nothing).stopped(false)
}

proof fn lemma_extscr(lp: LowPower, mode: StopMode, world: World)
    requires
        stopping(lp, mode, world),
        lp.wait == Wait::Extscr(mode),
        reaches_stop(lp.config, world),
    ensures
        drive(lp, world).0 == rested(lp, world),
        drive(lp, world).1 == platform::extscr_ops(
            lp.config,
            mode,
            sleep::words_of(world(Wait::Extscr(mode)))[0],
        ) + sleep::entered_ops(lp.config, mode) + configured_trace(lp.config, world),
{
    let turn = sleep::extscr_turn(lp, mode, sleep::words_of(world(lp.wait))[0]);
    assert(sleep::resume_turn(lp, world(lp.wait)) == sleep::then_configured(turn));
    lemma_then_configured(turn, world);
}

proof fn lemma_sem4(lp: LowPower, mode: StopMode, world: World)
    requires
        stopping(lp, mode, world),
        lp.wait == Wait::Sem4(mode),
        lp.config.chip is Wb,
        sem3(world, mode),
    ensures
        drive(lp, world).0 == rested(lp, world),
        platform::ask_sem3_ops() + platform::ask_sem4_ops() + drive(lp, world).1 == enter_trace(
            lp.config,
            mode,
            world,
        ) + sleep::entered_ops(lp.config, mode) + configured_trace(lp.config, world),
{
    reveal(enter_trace);
    let config = lp.config;
    let entered = sleep::entered_ops(config, mode);
    let tail = configured_trace(config, world);
    let asked = platform::ask_sem3_ops() + platform::ask_sem4_ops();
    let settled = platform::settled_ops(config, mode);
    let turn = sleep::sem4_turn(lp, mode, sem4(world, mode));
    assert(sleep::resume_turn(lp, world(lp.wait)) == sleep::then_configured(turn));
    if sem4(world, mode) {
        lemma_configured_rank(turn);
        lemma_extscr(turn.0, mode, world);
        let hsi = if cpu2_asleep(world, mode) {
            platform::hsi_ops()
        } else {
            seq![]
        };
        lemma_regroup_entry(
            asked,
            platform::ask_cpu2_ops(),
            seq![Op::Unlock { sem: 4 }],
            hsi,
            settled,
            entered,
            tail,
        );
    } else {
        lemma_then_configured(turn, world);
        lemma_assoc(asked, platform::hsi_ops(), settled);
        lemma_assoc(asked, platform::hsi_ops() + settled + entered, tail);
        lemma_assoc(asked, platform::hsi_ops() + settled, entered);
    }
}

proof fn lemma_regroup_entry<A>(
    asked: Seq<A>,
    cpu2: Seq<A>,
    unlock: Seq<A>,
    hsi: Seq<A>,
    settled: Seq<A>,
    entered: Seq<A>,
    tail: Seq<A>,
)
    ensures
        asked + (cpu2 + ((unlock + hsi + settled) + entered + tail)) == (asked + cpu2 + unlock + hsi
            + settled) + entered + tail,
{
    assert(asked + (cpu2 + ((unlock + hsi + settled) + entered + tail)) =~= (asked + cpu2 + unlock
        + hsi + settled) + entered + tail);
}

proof fn lemma_sem3(lp: LowPower, mode: StopMode, world: World)
    requires
        stopping(lp, mode, world),
        lp.wait == Wait::Sem3(mode),
        lp.config.chip is Wb,
    ensures
        drive(lp, world).0 == rested(lp, world),
        platform::ask_sem3_ops() + drive(lp, world).1 == enter_trace(lp.config, mode, world) + (
        if sem3(world, mode) {
            sleep::entered_ops(lp.config, mode)
        } else {
            sleep::refused_ops()
        }) + configured_trace(lp.config, world),
{
    reveal(enter_trace);
    let turn = sleep::sem3_turn(lp, mode, sem3(world, mode));
    assert(sleep::resume_turn(lp, world(lp.wait)) == sleep::then_configured(turn));
    if sem3(world, mode) {
        lemma_configured_rank(turn);
        lemma_sem4(turn.0, mode, world);
        lemma_assoc(
            platform::ask_sem3_ops(),
            platform::ask_sem4_ops(),
            drive(turn.0, world).1,
        );
    } else {
        lemma_then_configured(turn, world);
        lemma_assoc(
            platform::ask_sem3_ops(),
            sleep::refused_ops(),
            configured_trace(lp.config, world),
        );
    }
}

proof fn lemma_paused(lp: LowPower, mode: StopMode, world: World)
    requires
        !lp.stop_entered,
        permitted(world) == Some(mode),
        lp.wait == Wait::PauseTime(mode),
    ensures
        drive(lp, world).0 == rested(lp, world),
        seq![Op::PauseTime] + drive(lp, world).1 == decided_trace(lp.config, world)
            + configured_trace(lp.config, world),
{
    reveal(enter_trace);
    reveal(decided_trace);
    let config = lp.config;
    let pause = seq![Op::PauseTime];
    let tail = configured_trace(config, world);
    let turn = sleep::paused_turn(lp, mode, paused(world, mode));
    assert(sleep::resume_turn(lp, world(lp.wait)) == sleep::then_configured(turn));
    if !paused(world, mode) {
        let failed = seq![Op::Log(Message::PauseFailed)];
        lemma_then_configured(turn, world);
        lemma_assoc(pause, failed, tail);
        assert(pause + failed =~= seq![Op::PauseTime, Op::Log(Message::PauseFailed)]);
    } else {
        let entry = enter_trace(config, mode, world);
        let last = if reaches_stop(config, world) {
            sleep::entered_ops(config, mode)
        } else {
            sleep::refused_ops()
        };
        if config.chip is Wb {
            lemma_configured_rank(turn);
            lemma_sem3(turn.0, mode, world);
        } else {
            lemma_then_configured(turn, world);
        }
        assert(drive(lp, world).1 == entry + last + tail);
        lemma_assoc(pause, entry + last, tail);
        lemma_assoc(pause, entry, last);
    }
}

proof fn lemma_decided(lp: LowPower, world: World)
    requires
        !lp.stop_entered,
        lp.wait == Wait::StopMode,
    ensures
        drive(lp, world).0 == rested(lp, world),
        drive(lp, world).1 == decided_trace(lp.config, world) + configured_trace(lp.config, world),
{
    reveal(decided_trace);
    let turn = sleep::stop_mode_turn(lp, permitted(world));
    assert(sleep::resume_turn(lp, world(lp.wait)) == sleep::then_configured(turn));
    match permitted(world) {
        None => {
            lemma_then_configured(turn, world);
        },
        Some(mode) => {
            lemma_configured_rank(turn);
            lemma_paused(turn.0, mode, world);
        },
    }
}

/// Whatever the hardware reports, the batches of one sleep add up to `sleep_trace`; and when the
/// sleep is over, the memory is as before it but for the ports' configuration. In particular no
/// stop is left marked as entered.
pub proof fn law_sleep_runs(lp: LowPower, world: World)
    requires
        lp.wf(),
        lp.wait is Nothing,
    ensures
        total(sleep::sleep_turn(lp), world) == (slept(lp, world), sleep_trace(lp.config, world)),
        slept(lp, world).wf(),
{
    let config = lp.config;
    let turn = sleep::sleep_turn(lp);
    lemma_decided(turn.0, world);
    lemma_regroup_sleep(
        sleep::slow_ops(config) + sleep::configure_ops(config),
        decided_trace(config, world),
        sleep::flush_ops(config),
        gpio_off_trace(config),
        sleep::wfi_ops(),
        after_wfi(config, world),
    );
}

proof fn lemma_regroup_sleep<A>(
    start: Seq<A>,
    decided: Seq<A>,
    flush: Seq<A>,
    off: Seq<A>,
    wfi: Seq<A>,
    after: Seq<A>,
)
    ensures
        start + (decided + (flush + off + wfi + after)) == (start + decided + flush + off) + wfi
            + after,
{
    assert(start + (decided + (flush + off + wfi + after)) =~= (start + decided + flush + off) + wfi
        + after);
}

} // verus!
