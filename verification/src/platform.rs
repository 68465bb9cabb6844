//! The chip's part: stop flags, entering stop mode and leaving it.
use vstd::prelude::*;
use crate::chip::{Chip, Config, StopMode};
use crate::op::{Message, Op};
use crate::pac;
use crate::register::{test_bit, Condition, Edit, Register};

verus! {

// Stop flags.

/// The operations that clear the flags that the last stop left behind. Every chip with a stop
/// status word has them.
pub open spec fn clear_flags_ops(config: Config) -> Seq<Op> {
    match config.chip {
        Chip::Wl5x | Chip::Wlex | Chip::Wb => if config.core_cm0p {
            seq![Op::Modify(Edit::ClearCpu2StopFlags)]
        } else {
            seq![Op::Modify(Edit::ClearCpu1StopFlags)]
        },
        Chip::Wba => seq![Op::Modify(Edit::ClearStopFlags)],
        Chip::L0 => seq![Op::Modify(Edit::ClearWakeupFlag)],
        _ => seq![],
    }
}

/// Clear any previous stop flags; on a dual-core chip, those of the running core.
pub fn clear_flags(config: &Config) -> (r: Vec<Op>)
    ensures
        r@ == clear_flags_ops(*config),
{
    match config.chip {
        Chip::Wl5x | Chip::Wlex | Chip::Wb => {
            if config.core_cm0p {
                vec![Op::Modify(Edit::ClearCpu2StopFlags)]
            } else {
                vec![Op::Modify(Edit::ClearCpu1StopFlags)]
            }
        },
        Chip::Wba => vec![Op::Modify(Edit::ClearStopFlags)],
        Chip::L0 => vec![Op::Modify(Edit::ClearWakeupFlag)],
        _ => vec![],
    }
}

// Entering stop mode.

/// Where entering stop mode stands.
#[derive(Clone, Copy, Debug, PartialEq, Eq)]
pub enum Entry {
    /// STM32WB: it waits to learn whether semaphore 3 was granted.
    Sem3,
    /// STM32WB: it waits to learn whether semaphore 4 was granted.
    Sem4,
    /// STM32WB: it waits for the word that tells whether CPU2 is in deep sleep.
    Extscr,
    /// It is over: the chip stops at the next deep sleep, or it was refused.
    Done(Result<(), ()>),
}

/// Operations to perform, and where entering stop mode stands after them.
pub struct EnterStop {
    pub ops: Vec<Op>,
    pub entry: Entry,
}

/// The operations that select `mode`.
pub open spec fn select_ops(config: Config, mode: StopMode) -> Seq<Op> {
    if config.chip.has_lpms() {
        if config.core_cm0p {
            seq![Op::Modify(Edit::SelectLpmsCpu2(mode.lpms(config.chip)))]
        } else {
            seq![Op::Modify(Edit::SelectLpms(mode.lpms(config.chip)))]
        }
    } else if config.chip is H5 {
        seq![Op::Modify(Edit::SelectStopScale3)]
    } else if config.chip is L0 {
        seq![
            Op::Modify(Edit::SelectStop),
            Op::Modify(Edit::VrefintOff),
            Op::Modify(Edit::AdcOff),
            Op::Modify(Edit::Dac1Off),
            Op::Modify(Edit::Dac2Off),
        ]
    } else {
        seq![]
    }
}

fn select(config: &Config, mode: StopMode) -> (r: Vec<Op>)
    ensures
        r@ == select_ops(*config, mode),
{
    match config.chip {
        Chip::L4 | Chip::L5 | Chip::U5 | Chip::U3 | Chip::U0 | Chip::Wb | Chip::Wba | Chip::Wl5x
        | Chip::Wlex => {
            let lpms = mode.into_lpms(config.chip);
            if config.core_cm0p {
                vec![Op::Modify(Edit::SelectLpmsCpu2(lpms))]
            } else {
                vec![Op::Modify(Edit::SelectLpms(lpms))]
            }
        },
        Chip::H5 => vec![Op::Modify(Edit::SelectStopScale3)],
        Chip::L0 => vec![
            Op::Modify(Edit::SelectStop),
            Op::Modify(Edit::VrefintOff),
            Op::Modify(Edit::AdcOff),
            Op::Modify(Edit::Dac1Off),
            Op::Modify(Edit::Dac2Off),
        ],
        Chip::Other => vec![],
    }
}

/// STM32WB: the operations that move the system clock and the step-down converter to HSI, as is
/// needed while CPU2 keeps the clocks.
pub open spec fn hsi_ops() -> Seq<Op> {
    seq![
        Op::Modify(Edit::HsiOn),
        Op::WaitUntil(Condition::HsiReady),
        Op::Modify(Edit::SysclkFromHsi),
        Op::WaitUntil(Condition::SysclkIsHsi),
        Op::Modify(Edit::SmpsFromHsi),
    ]
}

/// STM32WB: the operations that follow once the clocks are settled. Semaphore 3 is held through
/// them and released by the last.
pub open spec fn settled_ops(config: Config, mode: StopMode) -> Seq<Op> {
    seq![
        Op::Modify(Edit::PwrClockOn),
        Op::Dsb,
        Op::Modify(Edit::SmpsBypass),
        Op::Delay(1000),
    ] + select_ops(config, mode) + seq![Op::Unlock { sem: 3 }]
}

/// STM32WB: `hsi_ops` if `switch`, then `settled_ops`.
fn settle(config: &Config, mode: StopMode, switch: bool) -> (r: Vec<Op>)
    ensures
        r@ == (if switch { hsi_ops() } else { seq![] }) + settled_ops(*config, mode),
{
    let mut r = if switch {
        vec![
            Op::Modify(Edit::HsiOn),
            Op::WaitUntil(Condition::HsiReady),
            Op::Modify(Edit::SysclkFromHsi),
            Op::WaitUntil(Condition::SysclkIsHsi),
            Op::Modify(Edit::SmpsFromHsi),
        ]
    } else {
        vec![]
    };
    let mut power = vec![
        Op::Modify(Edit::PwrClockOn),
        Op::Dsb,
        Op::Modify(Edit::SmpsBypass),
        Op::Delay(1000),
    ];
    r.append(&mut power);
    r.append(&mut select(config, mode));
    r.push(Op::Unlock { sem: 3 });
    r
}

/// STM32WB: the operations that ask for semaphore 3.
pub open spec fn ask_sem3_ops() -> Seq<Op> {
    seq![Op::Log(Message::TryingSem3), Op::PollLock { sem: 3, process: 0 }]
}

/// STM32WB: the operations that ask for semaphore 4 once semaphore 3 is held.
pub open spec fn ask_sem4_ops() -> Seq<Op> {
    seq![Op::Log(Message::GotSem3), Op::TryLock { sem: 4, process: 0 }]
}

/// STM32WB: the operations that ask about CPU2 once semaphore 4 is held.
pub open spec fn ask_cpu2_ops() -> Seq<Op> {
    seq![Op::Log(Message::GotSem4), Op::Read(Register::PwrExtscr)]
}

/// Enter stop mode.
///
/// On STM32WB this begins with a handshake over the hardware semaphores that the two cores share;
/// `sem3_polled`, `sem4_tried` and `extscr_read` carry it on. On the other chips it is over with
/// these operations.
pub fn enter_stop(config: &Config, mode: StopMode) -> (r: EnterStop)
    ensures
        config.chip is Wb ==> r.ops@ == ask_sem3_ops() && r.entry == Entry::Sem3,
        !(config.chip is Wb) ==> r.ops@ == select_ops(*config, mode) && r.entry == Entry::Done(
            Ok(()),
        ),
{
    match config.chip {
        Chip::Wb => EnterStop {
            ops: vec![Op::Log(Message::TryingSem3), Op::PollLock { sem: 3, process: 0 }],
            entry: Entry::Sem3,
        },
        _ => EnterStop { ops: select(config, mode), entry: Entry::Done(Ok(())) },
    }
}

/// STM32WB: carries `enter_stop` on with the outcome of the poll of semaphore 3. Without the
/// semaphore, stop mode is not entered.
pub fn sem3_polled(granted: bool) -> (r: EnterStop)
    ensures
        granted ==> r.ops@ == ask_sem4_ops() && r.entry == Entry::Sem4,
        !granted ==> r.ops@ == Seq::<Op>::empty() && r.entry == Entry::Done(Err(())),
{
    if granted {
        EnterStop {
            ops: vec![Op::Log(Message::GotSem3), Op::TryLock { sem: 4, process: 0 }],
            entry: Entry::Sem4,
        }
    } else {
        EnterStop { ops: vec![], entry: Entry::Done(Err(())) }
    }
}

/// STM32WB: carries `enter_stop` on with the outcome of the attempt on semaphore 4.
pub fn sem4_tried(config: &Config, mode: StopMode, granted: bool) -> (r: EnterStop)
    ensures
        granted ==> r.ops@ == ask_cpu2_ops() && r.entry == Entry::Extscr,
        !granted ==> r.ops@ == hsi_ops() + settled_ops(*config, mode) && r.entry == Entry::Done(
            Ok(()),
        ),
{
    if granted {
        EnterStop {
            ops: vec![Op::Log(Message::GotSem4), Op::Read(Register::PwrExtscr)],
            entry: Entry::Extscr,
        }
    } else {
        EnterStop { ops: settle(config, mode, true), entry: Entry::Done(Ok(())) }
    }
}

/// STM32WB: CPU2 is in deep sleep, by the extended status word.
pub open spec fn cpu2_deep_sleep(extscr: u32) -> bool {
    pac::bit(extscr, 15)
}

/// STM32WB: the operations that follow once the extended status word is known.
pub open spec fn extscr_ops(config: Config, mode: StopMode, extscr: u32) -> Seq<Op> {
    seq![Op::Unlock { sem: 4 }] + (if cpu2_deep_sleep(extscr) {
        hsi_ops()
    } else {
        seq![]
    }) + settled_ops(config, mode)
}

/// STM32WB: carries `enter_stop` on with the extended status word. Semaphore 4 is released.
pub fn extscr_read(config: &Config, mode: StopMode, extscr: u32) -> (r: EnterStop)
    ensures
        r.ops@ == extscr_ops(*config, mode, extscr),
        r.entry == Entry::Done(Ok(())),
{
    let mut ops = vec![Op::Unlock { sem: 4 }];
    ops.append(&mut settle(config, mode, test_bit(extscr, 15)));
    EnterStop { ops, entry: Entry::Done(Ok(())) }
}

// Leaving stop mode.

/// The register that tells which stop modes have been entered.
pub open spec fn status_register(chip: Chip) -> Register {
    match chip {
        Chip::Wba => Register::PwrSr,
        Chip::L0 => Register::PwrCsr,
        _ => Register::PwrExtscr,
    }
}

/// The operations that begin to leave stop mode. On a dual-core STM32WL, semaphore 3 is taken
/// first, so that only one core sets up the clocks.
pub open spec fn exit_ops(config: Config) -> Seq<Op> {
    if config.chip is Wl5x {
        seq![
            Op::BlockingLock { sem: 3, process: 0 },
            Op::Read(status_register(config.chip)),
        ]
    } else if config.chip.has_stop_status() {
        seq![Op::Read(status_register(config.chip))]
    } else {
        seq![]
    }
}

/// Operations to perform, and whether leaving stop mode goes on with the status word.
pub struct ExitStop {
    pub ops: Vec<Op>,
    pub awaits_status: bool,
}

/// Exit stop mode, reinitializing timer and rcc if required.
///
/// Where the chip has a stop status word it is read first, and `status_read` carries on. On the
/// other chips there is nothing to do.
pub fn exit_stop(config: &Config) -> (r: ExitStop)
    ensures
        r.ops@ == exit_ops(*config),
        r.awaits_status == config.chip.has_stop_status(),
{
    match config.chip {
        Chip::Wl5x => ExitStop {
            ops: vec![
                Op::BlockingLock { sem: 3, process: 0 },
                Op::Read(Register::PwrExtscr),
            ],
            awaits_status: true,
        },
        Chip::Wlex | Chip::Wb => ExitStop {
            ops: vec![Op::Read(Register::PwrExtscr)],
            awaits_status: true,
        },
        Chip::Wba => ExitStop { ops: vec![Op::Read(Register::PwrSr)], awaits_status: true },
        Chip::L0 => ExitStop { ops: vec![Op::Read(Register::PwrCsr)], awaits_status: true },
        _ => ExitStop { ops: vec![], awaits_status: false },
    }
}

/// STM32WL: CPU1 has been in STOP2.
pub open spec fn wl_c1stop2f(status: u32) -> bool {
    pac::bit(status, 9)
}

/// STM32WL: CPU1 has been in STOP0 or STOP1.
pub open spec fn wl_c1stopf(status: u32) -> bool {
    pac::bit(status, 10)
}

/// STM32WL: CPU2 has been in STOP2.
pub open spec fn wl_c2stop2f(status: u32) -> bool {
    pac::bit(status, 12)
}

/// STM32WL: CPU2 has been in STOP0 or STOP1.
pub open spec fn wl_c2stopf(status: u32) -> bool {
    pac::bit(status, 13)
}

/// STM32WB: CPU1 has been in stop mode.
pub open spec fn wb_c1stopf(status: u32) -> bool {
    pac::bit(status, 9)
}

/// STM32WB: CPU2 has been in stop mode.
pub open spec fn wb_c2stopf(status: u32) -> bool {
    pac::bit(status, 11)
}

/// STM32WBA: the chip has been in stop mode.
pub open spec fn wba_stopf(status: u32) -> bool {
    pac::bit(status, 1)
}

/// STM32WBA: the chip has been in STOP2.
pub open spec fn wba_stop2f(status: u32) -> bool {
    pac::bit(status, 3)
}

/// STM32L0: the chip has woken up.
pub open spec fn l0_wuf(status: u32) -> bool {
    pac::bit(status, 0)
}

/// The clock tree has to be set up again: *both* cores have been in some stop mode, or the only
/// one has.
pub open spec fn needs_rcc(chip: Chip, status: u32) -> bool {
    match chip {
        Chip::Wl5x => (wl_c1stopf(status) || wl_c1stop2f(status)) && (wl_c2stopf(status)
            || wl_c2stop2f(status)),
        Chip::Wlex => wl_c1stop2f(status) || wl_c1stopf(status),
        Chip::Wba => wba_stopf(status),
        Chip::L0 => l0_wuf(status),
        _ => false,
    }
}

/// The clock tree has to be set up again.
pub fn re_initialize_rcc(chip: Chip, status: u32) -> (r: bool)
    ensures
        r == needs_rcc(chip, status),
{
    match chip {
        Chip::Wl5x => (test_bit(status, 10) || test_bit(status, 9)) && (test_bit(status, 13)
            || test_bit(status, 12)),
        Chip::Wlex => test_bit(status, 9) || test_bit(status, 10),
        Chip::Wba => test_bit(status, 1),
        Chip::L0 => pac::pwr_csr_wuf(status),
        _ => false,
    }
}

/// The timer has lost its state and has to be set up again: on STM32WL the running core has been
/// in STOP2, on STM32WBA the chip has been in any stop mode.
pub open spec fn needs_timer(config: Config, status: u32) -> bool {
    match config.chip {
        Chip::Wl5x | Chip::Wlex => if config.core_cm0p {
            wl_c2stop2f(status)
        } else {
            wl_c1stop2f(status)
        },
        Chip::Wba => wba_stopf(status),
        _ => false,
    }
}

/// The timer has to be set up again.
pub fn re_initialize_timer(config: &Config, status: u32) -> (r: bool)
    ensures
        r == needs_timer(*config, status),
{
    match config.chip {
        Chip::Wl5x | Chip::Wlex => {
            if config.core_cm0p {
                test_bit(status, 12)
            } else {
                test_bit(status, 9)
            }
        },
        Chip::Wba => test_bit(status, 1),
        _ => false,
    }
}

/// What is logged of CPU1 of an STM32WL.
pub open spec fn cpu1_message(status: u32) -> Message {
    match (wl_c1stopf(status), wl_c1stop2f(status)) {
        (true, false) => Message::Cpu1Stop1,
        (false, true) => Message::Cpu1Stop2,
        (true, true) => Message::Cpu1Stop1And2,
        (false, false) => Message::Cpu1NotStopped,
    }
}

/// What is logged of CPU2 of an STM32WL.
pub open spec fn cpu2_message(status: u32) -> Message {
    match (wl_c2stopf(status), wl_c2stop2f(status)) {
        (true, false) => Message::Cpu2Stop1,
        (false, true) => Message::Cpu2Stop2,
        (true, true) => Message::Cpu2Stop1And2,
        (false, false) => Message::Cpu2NotStopped,
    }
}

/// The operations that log which stop modes have been entered.
pub open spec fn report_ops(chip: Chip, status: u32) -> Seq<Op> {
    match chip {
        Chip::Wba => if wba_stopf(status) && wba_stop2f(status) {
            seq![Op::Log(Message::WbaWokeFromStop2)]
        } else if wba_stopf(status) {
            seq![Op::Log(Message::WbaWokeFromStop01)]
        } else {
            seq![]
        },
        Chip::Wlex => seq![Op::Log(cpu1_message(status))],
        Chip::Wl5x => seq![Op::Log(cpu1_message(status)), Op::Log(cpu2_message(status))],
        Chip::Wb => match (wb_c1stopf(status), wb_c2stopf(status)) {
            (true, false) => seq![Op::Log(Message::WbCpu1Stopped)],
            (false, true) => seq![Op::Log(Message::WbCpu2Stopped)],
            (true, true) => seq![Op::Log(Message::WbBothStopped)],
            (false, false) => seq![Op::Log(Message::WbNotStopped)],
        },
        Chip::L0 => if l0_wuf(status) {
            seq![Op::Log(Message::L0Stopped)]
        } else {
            seq![]
        },
        _ => seq![],
    }
}

/// Logs which stop modes have been entered.
fn report(chip: Chip, status: u32) -> (r: Vec<Op>)
    ensures
        r@ == report_ops(chip, status),
{
    match chip {
        Chip::Wba => match (test_bit(status, 1), test_bit(status, 3)) {
            (true, true) => vec![Op::Log(Message::WbaWokeFromStop2)],
            (true, false) => vec![Op::Log(Message::WbaWokeFromStop01)],
            _ => vec![],
        },
        Chip::Wlex => vec![Op::Log(cpu1_report(status))],
        Chip::Wl5x => vec![Op::Log(cpu1_report(status)), Op::Log(cpu2_report(status))],
        Chip::Wb => match (test_bit(status, 9), test_bit(status, 11)) {
            (true, false) => vec![Op::Log(Message::WbCpu1Stopped)],
            (false, true) => vec![Op::Log(Message::WbCpu2Stopped)],
            (true, true) => vec![Op::Log(Message::WbBothStopped)],
            (false, false) => vec![Op::Log(Message::WbNotStopped)],
        },
        Chip::L0 => {
            if pac::pwr_csr_wuf(status) {
                vec![Op::Log(Message::L0Stopped)]
            } else {
                vec![]
            }
        },
        _ => vec![],
    }
}

fn cpu1_report(status: u32) -> (r: Message)
    ensures
        r == cpu1_message(status),
{
    match (test_bit(status, 10), test_bit(status, 9)) {
        (true, false) => Message::Cpu1Stop1,
        (false, true) => Message::Cpu1Stop2,
        (true, true) => Message::Cpu1Stop1And2,
        (false, false) => Message::Cpu1NotStopped,
    }
}

fn cpu2_report(status: u32) -> (r: Message)
    ensures
        r == cpu2_message(status),
{
    match (test_bit(status, 13), test_bit(status, 12)) {
        (true, false) => Message::Cpu2Stop1,
        (false, true) => Message::Cpu2Stop2,
        (true, true) => Message::Cpu2Stop1And2,
        (false, false) => Message::Cpu2NotStopped,
    }
}

/// The operation that sets the clock tree up again, where that is needed.
pub open spec fn rcc_ops(chip: Chip, status: u32) -> Seq<Op> {
    if needs_rcc(chip, status) {
        seq![Op::ReinitRcc]
    } else {
        seq![]
    }
}

/// The operations that set the timer up again, unless it is the low-power timer, which the stop
/// does not touch.
pub open spec fn timer_ops(config: Config, status: u32) -> Seq<Op> {
    if !needs_timer(config, status) {
        seq![]
    } else if config.lp_time_driver {
        seq![Op::Log(Message::ReinitTimer)]
    } else {
        seq![Op::Log(Message::ReinitTimer), Op::InitTimer]
    }
}

/// The operations that follow once the status word is known.
pub open spec fn status_ops(config: Config, status: u32) -> Seq<Op> {
    rcc_ops(config.chip, status) + report_ops(config.chip, status) + clear_flags_ops(config) + (
    if config.chip is Wl5x {
        seq![Op::Unlock { sem: 3 }]
    } else {
        seq![]
    }) + timer_ops(config, status)
}

/// Carries `exit_stop` on with the status word.
pub fn status_read(config: &Config, status: u32) -> (r: Vec<Op>)
    ensures
        r@ == status_ops(*config, status),
{
    let mut r = vec![];
    if re_initialize_rcc(config.chip, status) {
        r.push(Op::ReinitRcc);
    }
    r.append(&mut report(config.chip, status));
    r.append(&mut clear_flags(config));
    if matches!(config.chip, Chip::Wl5x) {
        r.push(Op::Unlock { sem: 3 });
    }
    if re_initialize_timer(config, status) {
        r.push(Op::Log(Message::ReinitTimer));
        if !config.lp_time_driver {
            r.push(Op::InitTimer);
        }
    }
    assert(r@ =~= status_ops(*config, status));
    r
}

} // verus!
