//! One sleep, from the request to the return.
//!
//! `sleep` and `resume` hand out operations in batches. Whoever performs a batch hands back what
//! it reported, until nothing is waited for any more.
use vstd::prelude::*;
use crate::batch;
use crate::chip::{Chip, Config, StopMode};
use crate::gpio;
use crate::op::{Message, Op, Reply};
use crate::platform::{self, EnterStop, Entry};
use crate::register::Edit;
use crate::state::{LowPower, Wait};

verus! {

// Low-power sleep.

/// The operations that prepare low-power sleep. The power control register is written back as it
/// was read.
pub open spec fn low_power_sleep_ops() -> Seq<Op> {
    seq![
        Op::Log(Message::LowPowerSleep),
        Op::Modify(Edit::FlashSleepPowerDown),
        Op::Modify(Edit::RewritePwrCr),
    ]
}

/// Prepares low-power sleep: the flash powers down with the core.
pub fn enter_low_power_sleep() -> (r: Vec<Op>)
    ensures
        r@ == low_power_sleep_ops(),
{
    vec![
        Op::Log(Message::LowPowerSleep),
        Op::Modify(Edit::FlashSleepPowerDown),
        Op::Modify(Edit::RewritePwrCr),
    ]
}

// Configuring the power controller.

/// The operations up to the question how deep a stop is permitted.
pub open spec fn configure_ops(config: Config) -> Seq<Op> {
    seq![Op::ClearSleepdeep] + platform::clear_flags_ops(config) + seq![
        Op::CompilerFence,
        Op::GetStopMode,
    ]
}

/// Configures the power controller for the deepest sleep possible: shallow sleep and cleared
/// flags to begin with, then stop mode if `stop_mode_known` and what follows it get that far.
pub fn configure_pwr(lp: &mut LowPower) -> (r: Vec<Op>)
    ensures
        *final(lp) == old(lp).waiting(Wait::StopMode),
        r@ == configure_ops(old(lp).config),
{
    lp.wait = Wait::StopMode;
    let mut r = vec![Op::ClearSleepdeep];
    r.append(&mut platform::clear_flags(&lp.config));
    r.push(Op::CompilerFence);
    r.push(Op::GetStopMode);
    r
}

/// Carries `configure_pwr` on with the deepest stop mode that is permitted. Without one it is
/// over, with low-power sleep prepared if the build asks for that.
pub fn stop_mode_known(lp: &mut LowPower, mode: Option<StopMode>) -> (r: Vec<Op>)
    ensures
        (*final(lp), r@) == stop_mode_turn(*old(lp), mode),
{
    match mode {
        None => {
            lp.wait = Wait::Nothing;
            if lp.config.use_low_power_sleep {
                enter_low_power_sleep()
            } else {
                vec![]
            }
        },
        Some(mode) => {
            lp.wait = Wait::PauseTime(mode);
            vec![Op::PauseTime]
        },
    }
}

/// What `stop_mode_known` leaves and does.
pub open spec fn stop_mode_turn(lp: LowPower, mode: Option<StopMode>) -> (LowPower, Seq<Op>) {
    match mode {
        None => (
            lp.waiting(Wait::Nothing),
            if lp.config.use_low_power_sleep {
                low_power_sleep_ops()
            } else {
                seq![]
            },
        ),
        Some(mode) => (lp.waiting(Wait::PauseTime(mode)), seq![Op::PauseTime]),
    }
}

/// Carries `configure_pwr` on with whether time was paused. If it was, stop mode is being
/// entered.
pub fn time_paused(lp: &mut LowPower, mode: StopMode, paused: bool) -> (r: Vec<Op>)
    ensures
        (*final(lp), r@) == paused_turn(*old(lp), mode, paused),
{
    if paused {
        let step = platform::enter_stop(&lp.config, mode);
        stop_progress(lp, mode, step)
    } else {
        lp.wait = Wait::Nothing;
        vec![Op::Log(Message::PauseFailed)]
    }
}

/// What `time_paused` leaves and does.
pub open spec fn paused_turn(lp: LowPower, mode: StopMode, paused: bool) -> (LowPower, Seq<Op>) {
    if !paused {
        (lp.waiting(Wait::Nothing), seq![Op::Log(Message::PauseFailed)])
    } else if lp.config.chip is Wb {
        (lp.waiting(Wait::Sem3(mode)), platform::ask_sem3_ops())
    } else {
        entered_turn(lp, mode, platform::select_ops(lp.config, mode))
    }
}

/// The operations that follow once the chip is ready to stop.
pub open spec fn entered_ops(config: Config, mode: StopMode) -> Seq<Op> {
    seq![Op::Log(Message::EnterStop(if config.chip is L0 { None } else { Some(mode) }))] + (
    if config.debug_with_sleep {
        seq![]
    } else {
        seq![Op::SetSleepdeep]
    })
}

/// The operations that follow when the chip is not to stop after all: time, which was paused for
/// the stop, goes on.
pub open spec fn refused_ops() -> Seq<Op> {
    seq![Op::Log(Message::EnterStopFailed), Op::ResumeTime]
}

/// What is left and done once the chip is ready to stop, with `ops` done before.
pub open spec fn entered_turn(lp: LowPower, mode: StopMode, ops: Seq<Op>) -> (LowPower, Seq<Op>) {
    (lp.waiting(Wait::Nothing).stopped(true), ops + entered_ops(lp.config, mode))
}

/// What a step of entering stop mode leaves and does.
pub open spec fn entry_turn(lp: LowPower, mode: StopMode, ops: Seq<Op>, entry: Entry) -> (
    LowPower,
    Seq<Op>,
) {
    match entry {
        Entry::Sem3 => (lp.waiting(Wait::Sem3(mode)), ops),
        Entry::Sem4 => (lp.waiting(Wait::Sem4(mode)), ops),
        Entry::Extscr => (lp.waiting(Wait::Extscr(mode)), ops),
        Entry::Done(Err(_)) => (
            lp.waiting(Wait::Nothing),
            ops + refused_ops(),
        ),
        Entry::Done(Ok(_)) => entered_turn(lp, mode, ops),
    }
}

/// Carries `configure_pwr` on with a step of entering stop mode. When the chip is ready to stop,
/// the stop is remembered and deep sleep is selected, unless a debugger is to stay attached. When
/// it is refused, time resumes.
pub fn stop_progress(lp: &mut LowPower, mode: StopMode, step: EnterStop) -> (r: Vec<Op>)
    ensures
        (*final(lp), r@) == entry_turn(*old(lp), mode, step.ops@, step.entry),
{
    let mut r = step.ops;
    match step.entry {
        Entry::Sem3 => {
            lp.wait = Wait::Sem3(mode);
        },
        Entry::Sem4 => {
            lp.wait = Wait::Sem4(mode);
        },
        Entry::Extscr => {
            lp.wait = Wait::Extscr(mode);
        },
        Entry::Done(Err(_)) => {
            lp.wait = Wait::Nothing;
            r.push(Op::Log(Message::EnterStopFailed));
            r.push(Op::ResumeTime);
        },
        Entry::Done(Ok(_)) => {
            lp.wait = Wait::Nothing;
            let named = match lp.config.chip {
                Chip::L0 => None,
                _ => Some(mode),
            };
            r.push(Op::Log(Message::EnterStop(named)));
            lp.stop_entered = true;
            if !lp.config.debug_with_sleep {
                r.push(Op::SetSleepdeep);
            }
        },
    }
    assert(r@ =~= entry_turn(*old(lp), mode, step.ops@, step.entry).1);
    r
}

/// What `sem3_known` leaves and does.
pub open spec fn sem3_turn(lp: LowPower, mode: StopMode, granted: bool) -> (LowPower, Seq<Op>) {
    if granted {
        (lp.waiting(Wait::Sem4(mode)), platform::ask_sem4_ops())
    } else {
        (lp.waiting(Wait::Nothing), refused_ops())
    }
}

/// Carries `configure_pwr` on with whether semaphore 3 was granted.
pub fn sem3_known(lp: &mut LowPower, mode: StopMode, granted: bool) -> (r: Vec<Op>)
    ensures
        (*final(lp), r@) == sem3_turn(*old(lp), mode, granted),
{
    let r = stop_progress(lp, mode, platform::sem3_polled(granted));
    assert(r@ =~= sem3_turn(*old(lp), mode, granted).1);
    r
}

/// What `sem4_known` leaves and does.
pub open spec fn sem4_turn(lp: LowPower, mode: StopMode, granted: bool) -> (LowPower, Seq<Op>) {
    if granted {
        (lp.waiting(Wait::Extscr(mode)), platform::ask_cpu2_ops())
    } else {
        entered_turn(lp, mode, platform::hsi_ops() + platform::settled_ops(lp.config, mode))
    }
}

/// Carries `configure_pwr` on with whether semaphore 4 was granted.
pub fn sem4_known(lp: &mut LowPower, mode: StopMode, granted: bool) -> (r: Vec<Op>)
    ensures
        (*final(lp), r@) == sem4_turn(*old(lp), mode, granted),
{
    let step = platform::sem4_tried(&lp.config, mode, granted);
    stop_progress(lp, mode, step)
}

/// What `extscr_known` leaves and does.
pub open spec fn extscr_turn(lp: LowPower, mode: StopMode, extscr: u32) -> (LowPower, Seq<Op>) {
    entered_turn(lp, mode, platform::extscr_ops(lp.config, mode, extscr))
}

/// Carries `configure_pwr` on with the word that tells whether CPU2 is in deep sleep.
pub fn extscr_known(lp: &mut LowPower, mode: StopMode, extscr: u32) -> (r: Vec<Op>)
    ensures
        (*final(lp), r@) == extscr_turn(*old(lp), mode, extscr),
{
    let step = platform::extscr_read(&lp.config, mode, extscr);
    stop_progress(lp, mode, step)
}

// Waking up.

/// The operations that end a stop: the clocks are back, and time goes on.
pub open spec fn resumed_ops() -> Seq<Op> {
    seq![Op::ResumeTime, Op::Log(Message::Resumed)]
}

/// What `on_wakeup` leaves and does.
pub open spec fn wakeup_turn(lp: LowPower) -> (LowPower, Seq<Op>) {
    if !lp.stop_entered {
        (lp.waiting(Wait::Nothing), seq![])
    } else if lp.config.chip.has_stop_status() {
        (lp.waiting(Wait::Status), platform::exit_ops(lp.config))
    } else {
        (lp.waiting(Wait::Nothing).stopped(false), resumed_ops())
    }
}

/// Leaves stop mode if it was entered. Where the chip has a stop status word, `wakeup_status`
/// carries on.
pub fn on_wakeup(lp: &mut LowPower) -> (r: Vec<Op>)
    ensures
        (*final(lp), r@) == wakeup_turn(*old(lp)),
{
    if lp.stop_entered {
        let exit = platform::exit_stop(&lp.config);
        let mut r = exit.ops;
        if exit.awaits_status {
            lp.wait = Wait::Status;
        } else {
            r.push(Op::ResumeTime);
            r.push(Op::Log(Message::Resumed));
            lp.stop_entered = false;
            lp.wait = Wait::Nothing;
        }
        r
    } else {
        lp.wait = Wait::Nothing;
        vec![]
    }
}

/// What `wakeup_status` leaves and does.
pub open spec fn status_turn(lp: LowPower, status: u32) -> (LowPower, Seq<Op>) {
    (
        lp.waiting(Wait::Nothing).stopped(false),
        platform::status_ops(lp.config, status) + resumed_ops(),
    )
}

/// Carries `on_wakeup` on with the stop status word.
pub fn wakeup_status(lp: &mut LowPower, status: u32) -> (r: Vec<Op>)
    ensures
        (*final(lp), r@) == status_turn(*old(lp), status),
{
    let mut r = platform::status_read(&lp.config, status);
    r.push(Op::ResumeTime);
    r.push(Op::Log(Message::Resumed));
    lp.stop_entered = false;
    lp.wait = Wait::Nothing;
    r
}

// The whole sleep.

/// The operations that let the core sleep until an interrupt.
pub open spec fn wfi_ops() -> Seq<Op> {
    seq![Op::Dsb, Op::Wfi, Op::Isb]
}

/// The ports are turned off while the chip sleeps.
pub open spec fn gates_gpios(config: Config) -> bool {
    config.no_gpios_while_stop && config.chip is L0
}

/// The operation that slows the clocks down, where low-power sleep is used.
pub open spec fn slow_ops(config: Config) -> Seq<Op> {
    if config.use_low_power_sleep {
        seq![Op::GearshiftSlow]
    } else {
        seq![]
    }
}

/// The operation that speeds the clocks up again, where low-power sleep is used.
pub open spec fn fast_ops(config: Config) -> Seq<Op> {
    if config.use_low_power_sleep {
        seq![Op::GearshiftFast]
    } else {
        seq![]
    }
}

/// The operation that flushes the log, where the build asks for that.
pub open spec fn flush_ops(config: Config) -> Seq<Op> {
    if config.defmt_flush {
        seq![Op::FlushLog]
    } else {
        seq![]
    }
}

/// What `sleep` leaves and does.
pub open spec fn sleep_turn(lp: LowPower) -> (LowPower, Seq<Op>) {
    (lp.waiting(Wait::StopMode), slow_ops(lp.config) + configure_ops(lp.config))
}

/// `turn`, and the normal clocks again if the sleep is over with it.
pub open spec fn finished(turn: (LowPower, Seq<Op>)) -> (LowPower, Seq<Op>) {
    if turn.0.wait is Nothing {
        (turn.0, turn.1 + fast_ops(turn.0.config))
    } else {
        turn
    }
}

/// What is left and done from the moment the core goes to sleep.
pub open spec fn asleep_turn(lp: LowPower) -> (LowPower, Seq<Op>) {
    let woken = finished(wakeup_turn(lp));
    (woken.0, wfi_ops() + woken.1)
}

/// What is left and done once the power controller is configured.
pub open spec fn configured_turn(lp: LowPower) -> (LowPower, Seq<Op>) {
    if gates_gpios(lp.config) {
        (lp.waiting(Wait::GpioContext), flush_ops(lp.config) + gpio::stored_reads())
    } else {
        let slept = asleep_turn(lp);
        (slept.0, flush_ops(lp.config) + slept.1)
    }
}

/// `turn`, and the sleep proper if the power controller is configured with it.
pub open spec fn then_configured(turn: (LowPower, Seq<Op>)) -> (LowPower, Seq<Op>) {
    if turn.0.wait is Nothing {
        let next = configured_turn(turn.0);
        (next.0, turn.1 + next.1)
    } else {
        turn
    }
}

/// What is left and done once the configuration of the ports is known.
pub open spec fn gpio_turn(lp: LowPower, words: Seq<u32>) -> (LowPower, Seq<Op>) {
    let stored = lp.with_gpio(words);
    let woken = finished(wakeup_turn(stored));
    (
        woken.0,
        gpio::disable_ops() + wfi_ops() + gpio::recover_ops(
            stored.gpio_contexts->0,
            stored.gpio_rcc_state->0,
        ) + woken.1,
    )
}

/// The words of a reply.
pub open spec fn words_of(reply: Reply) -> Seq<u32> {
    (reply->Words_0)@
}

/// What `resume` leaves and does.
pub open spec fn resume_turn(lp: LowPower, reply: Reply) -> (LowPower, Seq<Op>) {
    match lp.wait {
        Wait::Nothing => (lp, seq![]),
        Wait::StopMode => then_configured(stop_mode_turn(lp, reply->StopMode_0)),
        Wait::PauseTime(mode) => then_configured(paused_turn(lp, mode, reply->Success_0)),
        Wait::Sem3(mode) => then_configured(sem3_turn(lp, mode, reply->Success_0)),
        Wait::Sem4(mode) => then_configured(sem4_turn(lp, mode, reply->Success_0)),
        Wait::Extscr(mode) => then_configured(extscr_turn(lp, mode, words_of(reply)[0])),
        Wait::GpioContext => gpio_turn(lp, words_of(reply)),
        Wait::Status => finished(status_turn(lp, words_of(reply)[0])),
    }
}

/// Sleep with WFI, attempting to enter the deepest stop mode possible.
///
/// If it's not possible to enter any stop mode due to running peripherals it will still do a
/// `WFI` sleep. Therefore this is equivalent to `WFI` except with lower power consumption and
/// higher latency.
///
/// The operations handed out are performed in their order, and `resume` takes what they reported.
/// Whoever performs them sees to it that the system is ready to go to deep sleep.
pub fn sleep(lp: &mut LowPower) -> (r: Vec<Op>)
    requires
        old(lp).wait is Nothing,
    ensures
        (*final(lp), r@) == sleep_turn(*old(lp)),
        old(lp).wf() ==> final(lp).wf(),
        final(lp).asked_by(r@),
{
    proof {
        batch::law_sleep_asks(*lp);
    }
    let mut r = vec![];
    if lp.config.use_low_power_sleep {
        r.push(Op::GearshiftSlow);
    }
    r.append(&mut configure_pwr(lp));
    assert(r@ =~= sleep_turn(*old(lp)).1);
    r
}

/// Carries a sleep on with what the last batch of operations reported. The sleep is over when
/// nothing is waited for any more.
pub fn resume(lp: &mut LowPower, reply: Reply) -> (r: Vec<Op>)
    requires
        old(lp).wait.answered_by(reply),
    ensures
        (*final(lp), r@) == resume_turn(*old(lp), reply),
        old(lp).wf() ==> final(lp).wf(),
        final(lp).asked_by(r@),
{
    proof {
        batch::law_resume_asks(*lp, reply);
    }
    match (lp.wait, reply) {
        (Wait::StopMode, Reply::StopMode(mode)) => {
            let r = stop_mode_known(lp, mode);
            once_configured(lp, r)
        },
        (Wait::PauseTime(mode), Reply::Success(paused)) => {
            let r = time_paused(lp, mode, paused);
            once_configured(lp, r)
        },
        (Wait::Sem3(mode), Reply::Success(granted)) => {
            let r = sem3_known(lp, mode, granted);
            once_configured(lp, r)
        },
        (Wait::Sem4(mode), Reply::Success(granted)) => {
            let r = sem4_known(lp, mode, granted);
            once_configured(lp, r)
        },
        (Wait::Extscr(mode), Reply::Words(words)) => {
            let r = extscr_known(lp, mode, words[0]);
            once_configured(lp, r)
        },
        (Wait::GpioContext, Reply::Words(words)) => gpio_context_known(lp, &words),
        (Wait::Status, Reply::Words(words)) => {
            let r = wakeup_status(lp, words[0]);
            finish(lp, r)
        },
        _ => vec![],
    }
}

/// Goes on with the configuration of the ports: it is kept, the ports are turned off, and after
/// the sleep they get it back.
fn gpio_context_known(lp: &mut LowPower, words: &Vec<u32>) -> (r: Vec<Op>)
    requires
        words.len() == gpio::STORED_WORDS,
    ensures
        (*final(lp), r@) == gpio_turn(*old(lp), words@),
{
    gpio::_store_gpio_context(lp, words);
    let mut r = gpio::_disable_all_gpios();
    let mut slept = vec![Op::Dsb, Op::Wfi, Op::Isb];
    r.append(&mut slept);
    r.append(&mut gpio::_recover_gpio_context(lp));
    let woken = on_wakeup(lp);
    let mut woken = finish(lp, woken);
    r.append(&mut woken);
    r
}

/// `done`, and the normal clocks again if the sleep is over with it.
fn finish(lp: &LowPower, done: Vec<Op>) -> (r: Vec<Op>)
    ensures
        (*lp, r@) == finished((*lp, done@)),
{
    let mut r = done;
    if matches!(lp.wait, Wait::Nothing) && lp.config.use_low_power_sleep {
        r.push(Op::GearshiftFast);
    }
    assert(r@ =~= finished((*lp, done@)).1);
    r
}

/// `done`, and the sleep proper if the power controller is configured with it.
fn once_configured(lp: &mut LowPower, done: Vec<Op>) -> (r: Vec<Op>)
    ensures
        (*final(lp), r@) == then_configured((*old(lp), done@)),
{
    if !matches!(lp.wait, Wait::Nothing) {
        return done;
    }
    let mut r = done;
    if lp.config.defmt_flush {
        r.push(Op::FlushLog);
    }
    if lp.config.no_gpios_while_stop && matches!(lp.config.chip, Chip::L0) {
        lp.wait = Wait::GpioContext;
        r.append(&mut gpio::stored_reads_ops());
        assert(r@ =~= then_configured((*old(lp), done@)).1);
        r
    } else {
        let mut slept = vec![Op::Dsb, Op::Wfi, Op::Isb];
        slept.append(&mut on_wakeup(lp));
        let mut slept = finish(lp, slept);
        assert(slept@ =~= asleep_turn(*old(lp)).1);
        r.append(&mut slept);
        assert(r@ =~= then_configured((*old(lp), done@)).1);
        r
    }
}

} // verus!
