//! The steps of a sleep in their order, and what is logged of them.
use vstd::prelude::*;
use crate::chip::{Chip, Config, Lpms, StopMode};
use crate::gpio::{self, GpioContexts};
use crate::op::{Message, Op, Reply};
use crate::platform;
use crate::register::{Condition, Edit, Register};
use crate::sleep;
use crate::state::Wait;
use crate::trace::{self, World};

verus! {

/// `ops` performs `steps` at `place`, one after the other.
pub open spec fn performs(ops: Seq<Op>, place: int, steps: Seq<Op>) -> bool {
    &&& 0 <= place <= place + steps.len() <= ops.len()
    &&& forall|i: int| 0 <= i < steps.len() ==> ops[place + i] == #[trigger] steps[i]
}

proof fn lemma_performs(a: Seq<Op>, b: Seq<Op>, c: Seq<Op>)
    ensures
        performs(a + b + c, a.len() as int, b),
{
}

proof fn lemma_performs_within(ops: Seq<Op>, a: int, outer: Seq<Op>, b: int, inner: Seq<Op>)
    requires
        performs(ops, a, outer),
        performs(outer, b, inner),
    ensures
        performs(ops, a + b, inner),
{
    assert forall|i: int| 0 <= i < inner.len() implies ops[a + b + i] == #[trigger] inner[i] by {
        assert(outer[b + i] == inner[i]);
        assert(ops[a + (b + i)] == outer[b + i]);
    }
}

/// Every sleep begins with SLEEPDEEP cleared and then the stop flags, if the chip has any, before it
/// asks how deep a stop is permitted; nothing but a compiler fence stands between the two. Where
/// low-power sleep is used, the clocks are slowed down ahead of all that.
pub proof fn law_first_steps(config: Config, world: World)
    ensures
        ({
            let place: int = if config.use_low_power_sleep {
                1
            } else {
                0
            };
            let before = trace::before_wfi(config, world);
            let steps = match config.chip {
                Chip::L0 => seq![
                    Op::ClearSleepdeep,
                    Op::Modify(Edit::ClearWakeupFlag),
                    Op::CompilerFence,
                    Op::GetStopMode,
                ],
                Chip::Wba => seq![
                    Op::ClearSleepdeep,
                    Op::Modify(Edit::ClearStopFlags),
                    Op::CompilerFence,
                    Op::GetStopMode,
                ],
                Chip::Wb | Chip::Wl5x | Chip::Wlex => seq![
                    Op::ClearSleepdeep,
                    Op::Modify(
                        if config.core_cm0p {
                            Edit::ClearCpu2StopFlags
                        } else {
                            Edit::ClearCpu1StopFlags
                        },
                    ),
                    Op::CompilerFence,
                    Op::GetStopMode,
                ],
                _ => seq![Op::ClearSleepdeep, Op::CompilerFence, Op::GetStopMode],
            };
            performs(before, place, steps)
        }),
{
}

/// Where the middle of a sleep stands.
proof fn lemma_decided_place(config: Config, world: World)
    ensures
        performs(
            trace::before_wfi(config, world),
            (sleep::slow_ops(config) + sleep::configure_ops(config)).len() as int,
            trace::decided_trace(config, world),
        ),
{
    let start = sleep::slow_ops(config) + sleep::configure_ops(config);
    let middle = trace::decided_trace(config, world);
    let rest = sleep::flush_ops(config) + trace::gpio_off_trace(config);
    assert(trace::before_wfi(config, world) =~= start + middle + rest);
    lemma_performs(start, middle, rest);
}

/// On STM32WB, a sleep that is refused semaphore 4 moves the system clock and the step-down
/// converter to HSI one after the other, each only once the one before is stable, bypasses the
/// converter and waits for it to settle, selects the stop mode, and only then releases semaphore 3.
pub proof fn law_wb_refused_sem4(config: Config, world: World, mode: StopMode)
    requires
        config.chip is Wb,
        world(Wait::StopMode) == Reply::StopMode(Some(mode)),
        world(Wait::PauseTime(mode)) == Reply::Success(true),
        world(Wait::Sem3(mode)) == Reply::Success(true),
        world(Wait::Sem4(mode)) == Reply::Success(false),
    ensures
        ({
            let lpms = if mode == StopMode::Stop1 {
                Lpms::Stop1
            } else {
                Lpms::Stop2
            };
            let before = trace::before_wfi(config, world);
            let asked = seq![
                Op::PauseTime,
                Op::Log(Message::TryingSem3),
                Op::PollLock { sem: 3, process: 0 },
                Op::Log(Message::GotSem3),
                Op::TryLock { sem: 4, process: 0 },
            ];
            let moved = seq![
                Op::Modify(Edit::HsiOn),
                Op::WaitUntil(Condition::HsiReady),
                Op::Modify(Edit::SysclkFromHsi),
                Op::WaitUntil(Condition::SysclkIsHsi),
                Op::Modify(Edit::SmpsFromHsi),
            ];
            let settled = seq![
                Op::Modify(Edit::PwrClockOn),
                Op::Dsb,
                Op::Modify(Edit::SmpsBypass),
                Op::Delay(1000),
                Op::Modify(
                    if config.core_cm0p {
                        Edit::SelectLpmsCpu2(lpms)
                    } else {
                        Edit::SelectLpms(lpms)
                    },
                ),
                Op::Unlock { sem: 3 },
                Op::Log(Message::EnterStop(Some(mode))),
            ];
            let place: int = if config.use_low_power_sleep {
                5
            } else {
                4
            };
            &&& performs(before, place, asked)
            &&& performs(before, place + 5, moved)
            &&& performs(before, place + 10, settled)
            &&& before.len() == place + 17 + (if config.debug_with_sleep {
                0int
            } else {
                1
            }) + last_len(config)
        }),
{
    let asked = seq![
        Op::PauseTime,
        Op::Log(Message::TryingSem3),
        Op::PollLock { sem: 3, process: 0 },
        Op::Log(Message::GotSem3),
        Op::TryLock { sem: 4, process: 0 },
    ];
    let moved = platform::hsi_ops();
    let tail = platform::settled_ops(config, mode) + sleep::entered_ops(config, mode);
    let middle = trace::decided_trace(config, world);
    let pause = seq![Op::PauseTime];
    let ask = platform::ask_sem3_ops() + platform::ask_sem4_ops();
    assert(asked =~= pause + ask);
    lemma_regroup(
        pause,
        ask,
        moved,
        platform::settled_ops(config, mode),
        sleep::entered_ops(config, mode),
    );
    assert(middle == asked + moved + tail) by {
        reveal(trace::decided_trace);
        reveal(trace::enter_trace);
    }
    lemma_wb_steps(config, world, mode, asked, moved);
}

/// On STM32WB, a sleep that is granted semaphore 4 reads whether CPU2 is in deep sleep and releases
/// the semaphore at once. Only if bit 15 of that word is set does it move the clocks to HSI; the rest
/// goes as without semaphore 4.
pub proof fn law_wb_granted_sem4(config: Config, world: World, mode: StopMode, extscr: u32)
    requires
        config.chip is Wb,
        world(Wait::StopMode) == Reply::StopMode(Some(mode)),
        world(Wait::PauseTime(mode)) == Reply::Success(true),
        world(Wait::Sem3(mode)) == Reply::Success(true),
        world(Wait::Sem4(mode)) == Reply::Success(true),
        world(Wait::Extscr(mode)) is Words,
        (world(Wait::Extscr(mode))->Words_0)@ == seq![extscr],
    ensures
        ({
            let lpms = if mode == StopMode::Stop1 {
                Lpms::Stop1
            } else {
                Lpms::Stop2
            };
            let before = trace::before_wfi(config, world);
            let asked = seq![
                Op::PauseTime,
                Op::Log(Message::TryingSem3),
                Op::PollLock { sem: 3, process: 0 },
                Op::Log(Message::GotSem3),
                Op::TryLock { sem: 4, process: 0 },
                Op::Log(Message::GotSem4),
                Op::Read(Register::PwrExtscr),
                Op::Unlock { sem: 4 },
            ];
            let moved = seq![
                Op::Modify(Edit::HsiOn),
                Op::WaitUntil(Condition::HsiReady),
                Op::Modify(Edit::SysclkFromHsi),
                Op::WaitUntil(Condition::SysclkIsHsi),
                Op::Modify(Edit::SmpsFromHsi),
            ];
            let settled = seq![
                Op::Modify(Edit::PwrClockOn),
                Op::Dsb,
                Op::Modify(Edit::SmpsBypass),
                Op::Delay(1000),
                Op::Modify(
                    if config.core_cm0p {
                        Edit::SelectLpmsCpu2(lpms)
                    } else {
                        Edit::SelectLpms(lpms)
                    },
                ),
                Op::Unlock { sem: 3 },
                Op::Log(Message::EnterStop(Some(mode))),
            ];
            let place: int = if config.use_low_power_sleep {
                5
            } else {
                4
            };
            &&& performs(before, place, asked)
            &&& if (extscr >> 15) & 1 == 1 {
                performs(before, place + 8, moved) && performs(before, place + 13, settled)
            } else {
                performs(before, place + 8, settled)
            }
            &&& before.len() == place + (if (extscr >> 15) & 1 == 1 {
                20int
            } else {
                15
            }) + (if config.debug_with_sleep {
                0int
            } else {
                1
            }) + last_len(config)
        }),
{
    let moved = if (extscr >> 15) & 1 == 1 {
        platform::hsi_ops()
    } else {
        seq![]
    };
    lemma_wb_granted(config, world, mode, extscr, moved);
    lemma_wb_steps(config, world, mode, wb_asked(), moved);
}

/// The first steps of entering stop mode on STM32WB with semaphore 4.
spec fn wb_asked() -> Seq<Op> {
    seq![
        Op::PauseTime,
        Op::Log(Message::TryingSem3),
        Op::PollLock { sem: 3, process: 0 },
        Op::Log(Message::GotSem3),
        Op::TryLock { sem: 4, process: 0 },
        Op::Log(Message::GotSem4),
        Op::Read(Register::PwrExtscr),
        Op::Unlock { sem: 4 },
    ]
}

proof fn lemma_wb_granted(
    config: Config,
    world: World,
    mode: StopMode,
    extscr: u32,
    moved: Seq<Op>,
)
    requires
        config.chip is Wb,
        trace::permitted(world) == Some(mode),
        trace::paused(world, mode),
        trace::sem3(world, mode),
        trace::sem4(world, mode),
        trace::cpu2_asleep(world, mode) == ((extscr >> 15) & 1 == 1),
        moved == if (extscr >> 15) & 1 == 1 {
            platform::hsi_ops()
        } else {
            seq![]
        },
    ensures
        trace::decided_trace(config, world) == wb_asked() + moved + (platform::settled_ops(
            config,
            mode,
        ) + sleep::entered_ops(config, mode)),
{
    let pause = seq![Op::PauseTime];
    let ask = platform::ask_sem3_ops() + platform::ask_sem4_ops() + platform::ask_cpu2_ops()
        + seq![Op::Unlock { sem: 4 }];
    let settled = platform::settled_ops(config, mode);
    let entered = sleep::entered_ops(config, mode);
    assert(wb_asked() =~= pause + ask);
    lemma_regroup(pause, ask, moved, settled, entered);
    assert(trace::enter_trace(config, mode, world) == ask + moved + settled) by {
        reveal(trace::enter_trace);
    }
    reveal(trace::decided_trace);
}

proof fn lemma_regroup<A>(a: Seq<A>, b: Seq<A>, c: Seq<A>, d: Seq<A>, e: Seq<A>)
    ensures
        a + (b + c + d) + e == a + b + c + (d + e),
{
    assert(a + (b + c + d) + e =~= a + b + c + (d + e));
}

/// Where the parts of entering stop mode stand on STM32WB.
proof fn lemma_wb_steps(
    config: Config,
    world: World,
    mode: StopMode,
    asked: Seq<Op>,
    moved: Seq<Op>,
)
    requires
        config.chip is Wb,
        trace::decided_trace(config, world) == asked + moved + (platform::settled_ops(config, mode)
            + sleep::entered_ops(config, mode)),
    ensures
        ({
            let before = trace::before_wfi(config, world);
            let place: int = if config.use_low_power_sleep {
                5
            } else {
                4
            };
            &&& performs(before, place, asked)
            &&& performs(before, place + asked.len(), moved)
            &&& performs(before, place + asked.len() + moved.len(), wb_settled(config, mode))
            &&& before.len() == place + asked.len() + moved.len() + 7 + (if config.debug_with_sleep {
                0int
            } else {
                1
            }) + last_len(config)
        }),
{
    let before = trace::before_wfi(config, world);
    let middle = trace::decided_trace(config, world);
    let tail = platform::settled_ops(config, mode) + sleep::entered_ops(config, mode);
    let start: int = (sleep::slow_ops(config) + sleep::configure_ops(config)).len() as int;
    assert(start == if config.use_low_power_sleep {
        5int
    } else {
        4
    });
    lemma_decided_place(config, world);
    lemma_lengths(config, world);
    lemma_parts(asked, moved, tail);
    assert(tail.len() == 7 + if config.debug_with_sleep {
        0int
    } else {
        1
    });
    lemma_wb_tail(config, mode);
    let last: int = (asked.len() + moved.len()) as int;
    lemma_performs_within(before, start, middle, 0, asked);
    lemma_performs_within(before, start, middle, asked.len() as int, moved);
    lemma_performs_within(before, start, middle, last, tail);
    lemma_performs_within(before, start + last, tail, 0, wb_settled(config, mode));
}

proof fn lemma_parts(a: Seq<Op>, b: Seq<Op>, c: Seq<Op>)
    ensures
        performs(a + b + c, 0, a),
        performs(a + b + c, a.len() as int, b),
        performs(a + b + c, (a.len() + b.len()) as int, c),
{
}

proof fn lemma_wb_tail(config: Config, mode: StopMode)
    requires
        config.chip is Wb,
    ensures
        performs(
            platform::settled_ops(config, mode) + sleep::entered_ops(config, mode),
            0,
            wb_settled(config, mode),
        ),
{
}

/// The last steps of entering stop mode on STM32WB.
spec fn wb_settled(config: Config, mode: StopMode) -> Seq<Op> {
    let lpms = if mode == StopMode::Stop1 {
        Lpms::Stop1
    } else {
        Lpms::Stop2
    };
    seq![
        Op::Modify(Edit::PwrClockOn),
        Op::Dsb,
        Op::Modify(Edit::SmpsBypass),
        Op::Delay(1000),
        Op::Modify(
            if config.core_cm0p {
                Edit::SelectLpmsCpu2(lpms)
            } else {
                Edit::SelectLpms(lpms)
            },
        ),
        Op::Unlock { sem: 3 },
        Op::Log(Message::EnterStop(Some(mode))),
    ]
}

/// What a sleep does between the answer to how deep a stop is permitted and WFI, if it does not
/// enter stop mode. Only the log and the ports follow.
pub proof fn law_steps_without_stop(config: Config, world: World, mode: Option<StopMode>)
    requires
        world(Wait::StopMode) == Reply::StopMode(mode),
        mode matches Some(m) ==> world(Wait::PauseTime(m)) == Reply::Success(false) || (
        config.chip is Wb && world(Wait::PauseTime(m)) == Reply::Success(true) && world(
            Wait::Sem3(m),
        ) == Reply::Success(false)),
    ensures
        ({
            let before = trace::before_wfi(config, world);
            let steps = if mode is None {
                if config.use_low_power_sleep {
                    seq![
                        Op::Log(Message::LowPowerSleep),
                        Op::Modify(Edit::FlashSleepPowerDown),
                        Op::Modify(Edit::RewritePwrCr),
                    ]
                } else {
                    seq![]
                }
            } else if world(Wait::PauseTime(mode->0)) == Reply::Success(false) {
                seq![Op::PauseTime, Op::Log(Message::PauseFailed)]
            } else {
                seq![
                    Op::PauseTime,
                    Op::Log(Message::TryingSem3),
                    Op::PollLock { sem: 3, process: 0 },
                    Op::Log(Message::EnterStopFailed),
                    Op::ResumeTime,
                ]
            };
            &&& performs(before, asked_len(config), steps)
            &&& before.len() == asked_len(config) + steps.len() + last_len(config)
        }),
{
    lemma_lengths(config, world);
    lemma_decided_place(config, world);
    reveal(trace::decided_trace);
    reveal(trace::enter_trace);
}

/// What a sleep does between the answer to how deep a stop is permitted and WFI, if it enters stop
/// mode on a chip other than STM32WB. Only the log and the ports follow.
pub proof fn law_steps_to_stop(config: Config, world: World, mode: StopMode)
    requires
        !(config.chip is Wb),
        world(Wait::StopMode) == Reply::StopMode(Some(mode)),
        world(Wait::PauseTime(mode)) == Reply::Success(true),
    ensures
        ({
            let before = trace::before_wfi(config, world);
            let lpms = if mode == StopMode::Stop1 {
                Lpms::Stop1
            } else if config.chip is Wba {
                Lpms::Stop0
            } else {
                Lpms::Stop2
            };
            let steps = match config.chip {
                Chip::L0 => seq![
                    Op::PauseTime,
                    Op::Modify(Edit::SelectStop),
                    Op::Modify(Edit::VrefintOff),
                    Op::Modify(Edit::AdcOff),
                    Op::Modify(Edit::Dac1Off),
                    Op::Modify(Edit::Dac2Off),
                    Op::Log(Message::EnterStop(None)),
                ],
                Chip::H5 => seq![
                    Op::PauseTime,
                    Op::Modify(Edit::SelectStopScale3),
                    Op::Log(Message::EnterStop(Some(mode))),
                ],
                Chip::Other => seq![Op::PauseTime, Op::Log(Message::EnterStop(Some(mode)))],
                _ => seq![
                    Op::PauseTime,
                    Op::Modify(
                        if config.core_cm0p {
                            Edit::SelectLpmsCpu2(lpms)
                        } else {
                            Edit::SelectLpms(lpms)
                        },
                    ),
                    Op::Log(Message::EnterStop(Some(mode))),
                ],
            };
            &&& performs(before, asked_len(config), steps)
            &&& if config.debug_with_sleep {
                before.len() == asked_len(config) + steps.len() + last_len(config)
            } else {
                &&& before[asked_len(config) + steps.len()] == Op::SetSleepdeep
                &&& before.len() == asked_len(config) + steps.len() + 1 + last_len(config)
            }
        }),
{
    lemma_lengths(config, world);
    lemma_decided_place(config, world);
    reveal(trace::decided_trace);
    reveal(trace::enter_trace);
    let before = trace::before_wfi(config, world);
    let middle = trace::decided_trace(config, world);
    if !config.debug_with_sleep {
        assert(before[asked_len(config) + (middle.len() - 1)] == middle[middle.len() - 1]);
    }
}

/// How many operations a sleep performs up to the question how deep a stop is permitted.
pub open spec fn asked_len(config: Config) -> int {
    (if config.use_low_power_sleep {
        1int
    } else {
        0
    }) + (match config.chip {
        Chip::L0 | Chip::Wba | Chip::Wb | Chip::Wl5x | Chip::Wlex => 4int,
        _ => 3,
    })
}

/// How many operations a sleep performs last before WFI: one for the log, and for the ports 49 reads
/// and 14 writes.
pub open spec fn last_len(config: Config) -> int {
    (if config.defmt_flush {
        1int
    } else {
        0
    }) + (if config.chip is L0 && config.no_gpios_while_stop {
        63int
    } else {
        0
    })
}

proof fn lemma_lengths(config: Config, world: World)
    ensures
        (sleep::slow_ops(config) + sleep::configure_ops(config)).len() == asked_len(config),
        trace::before_wfi(config, world).len() == asked_len(config) + trace::decided_trace(
            config,
            world,
        ).len() + last_len(config),
        trace::after_wfi(config, world).len() == woken_len(config) + trace::wakeup_trace(
            config,
            world,
        ).len() + if config.use_low_power_sleep {
            1int
        } else {
            0
        },
{
    reveal(trace::gpio_off_trace);
    reveal(trace::gpio_on_trace);
    reveal(gpio::stored_reads);
    reveal(gpio::disable_ops);
    reveal(gpio::recover_ops);
}

/// How many operations a sleep performs first after WFI: for the ports, 50 writes.
pub open spec fn woken_len(config: Config) -> int {
    if config.chip is L0 && config.no_gpios_while_stop {
        50
    } else {
        0
    }
}

/// The last things before WFI are the log, then the ports: 49 reads save them and 14 writes turn
/// them off. The first thing after it are the 50 writes that bring them back.
pub proof fn law_ports_around_wfi(config: Config, world: World, i: int)
    ensures
        ({
            let before = trace::before_wfi(config, world);
            let after = trace::after_wfi(config, world);
            let gated = config.chip is L0 && config.no_gpios_while_stop;
            &&& config.defmt_flush ==> before[before.len() - last_len(config)] == Op::FlushLog
            &&& gated && before.len() - 63 <= i < before.len() - 14 ==> before[i] is Read
            &&& gated && before.len() - 14 <= i < before.len() ==> before[i] is Write
            &&& gated && 0 <= i < 50 ==> after[i] is Write
        }),
{
    lemma_lengths(config, world);
    reveal(trace::gpio_off_trace);
    reveal(trace::gpio_on_trace);
    let before = trace::before_wfi(config, world);
    let off = trace::gpio_off_trace(config);
    let on = trace::gpio_on_trace(config, world);
    assert(off.len() == if config.chip is L0 && config.no_gpios_while_stop {
        63int
    } else {
        0
    } && (config.chip is L0 && config.no_gpios_while_stop ==> on.len() == 50)) by {
        reveal(gpio::stored_reads);
        reveal(gpio::disable_ops);
        reveal(gpio::recover_ops);
    }
    if config.chip is L0 && config.no_gpios_while_stop {
        lemma_port_kinds(trace::ports(world), i - (before.len() - 63), i);
        if before.len() - 63 <= i < before.len() {
            assert(before[i] == off[i - (before.len() - 63)]);
        }
        if 0 <= i < 50 {
            assert(trace::after_wfi(config, world)[i] == on[i]);
        }
    }
}

proof fn lemma_port_kinds(words: Seq<u32>, i: int, j: int)
    ensures
        ({
            let off = gpio::stored_reads() + gpio::disable_ops();
            let on = gpio::recover_ops(GpioContexts::from_words(words), words[48]);
            &&& 0 <= i < 49 ==> off[i] is Read
            &&& 49 <= i < 63 ==> off[i] is Write
            &&& 0 <= j < 50 ==> on[j] is Write
        }),
{
    reveal(gpio::stored_reads);
    reveal(gpio::disable_ops);
    reveal(gpio::recover_ops);
}

// The end of a stop.

/// What a sleep does after WFI if it entered stop mode: once the ports are back it reads the status
/// word, if the chip has one, and then does what that asks for; at last time resumes. On STM32WL5x
/// semaphore 3 is taken ahead of the read. Only the clocks follow.
pub proof fn law_steps_from_stop(config: Config, world: World, mode: StopMode, status: u32)
    requires
        world(Wait::StopMode) == Reply::StopMode(Some(mode)),
        world(Wait::PauseTime(mode)) == Reply::Success(true),
        config.chip is Wb ==> world(Wait::Sem3(mode)) == Reply::Success(true),
        config.chip is L0 || config.chip is Wba || config.chip is Wb || config.chip is Wl5x
            || config.chip is Wlex ==> {
            &&& world(Wait::Status) is Words
            &&& (world(Wait::Status)->Words_0)@ == seq![status]
        },
    ensures
        ({
            let after = trace::after_wfi(config, world);
            let steps = match config.chip {
                Chip::L0 => seq![Op::Read(Register::PwrCsr)],
                Chip::Wba => seq![Op::Read(Register::PwrSr)],
                Chip::Wl5x => seq![
                    Op::BlockingLock { sem: 3, process: 0 },
                    Op::Read(Register::PwrExtscr),
                ],
                Chip::Wlex | Chip::Wb => seq![Op::Read(Register::PwrExtscr)],
                _ => seq![],
            };
            let asked = if steps.len() > 0 {
                platform::status_ops(config, status)
            } else {
                seq![]
            };
            let place = woken_len(config) + steps.len() + asked.len();
            &&& performs(after, woken_len(config), steps)
            &&& performs(after, woken_len(config) + steps.len(), asked)
            &&& performs(after, place, seq![Op::ResumeTime, Op::Log(Message::Resumed)])
            &&& after.len() == place + 2 + if config.use_low_power_sleep {
                1int
            } else {
                0
            }
        }),
{
    lemma_lengths(config, world);
    reveal(trace::gpio_on_trace);
    reveal(gpio::recover_ops);
    reveal(trace::wakeup_trace);
    let on = trace::gpio_on_trace(config, world);
    let wake = trace::wakeup_trace(config, world);
    let exit = platform::exit_ops(config);
    let all = platform::status_ops(config, status);
    let resumed = sleep::resumed_ops();
    let after = trace::after_wfi(config, world);
    lemma_performs(on, wake, sleep::fast_ops(config));
    if config.chip.has_stop_status() {
        lemma_performs(seq![], exit, all + resumed);
        assert(seq![] + exit + (all + resumed) =~= wake);
        lemma_performs(exit, all, resumed);
        lemma_performs(exit + all, resumed, seq![]);
        assert(exit + all + resumed + seq![] =~= wake);
        lemma_performs_within(after, on.len() as int, wake, 0, exit);
        lemma_performs_within(after, on.len() as int, wake, exit.len() as int, all);
        lemma_performs_within(after, on.len() as int, wake, (exit + all).len() as int, resumed);
    }
}

/// A sleep that did not enter stop mode does nothing after WFI but bring the ports and the clocks
/// back, where they were turned down.
pub proof fn law_steps_after_plain_wfi(config: Config, world: World, mode: Option<StopMode>)
    requires
        world(Wait::StopMode) == Reply::StopMode(mode),
        mode matches Some(m) ==> world(Wait::PauseTime(m)) == Reply::Success(false) || (
        config.chip is Wb && world(Wait::PauseTime(m)) == Reply::Success(true) && world(
            Wait::Sem3(m),
        ) == Reply::Success(false)),
    ensures
        trace::after_wfi(config, world).len() == woken_len(config) + if config.use_low_power_sleep {
            1int
        } else {
            0
        },
{
    lemma_lengths(config, world);
    reveal(trace::wakeup_trace);
}

/// Which step of leaving a stop an operation belongs to, once the status word is known.
pub open spec fn step(op: Op) -> int {
    match op {
        Op::ReinitRcc => 1,
        Op::Log(Message::ReinitTimer) => 6,
        Op::Log(
            Message::Cpu2Stop1
            | Message::Cpu2Stop2
            | Message::Cpu2Stop1And2
            | Message::Cpu2NotStopped,
        ) => 3,
        Op::Log(_) => 2,
        Op::Modify(_) => 4,
        Op::Unlock { .. } => 5,
        Op::InitTimer => 7,
        _ => 0,
    }
}

/// Once the status word is known, the clock tree comes first, then the report, CPU1 before CPU2, then
/// the flags are cleared, then semaphore 3 is released, and only then is the timer seen to. No step
/// is taken twice, and there is nothing else.
pub proof fn law_status_order(config: Config, status: u32, i: int, j: int)
    requires
        0 <= i < j < platform::status_ops(config, status).len(),
    ensures
        0 < step(platform::status_ops(config, status)[i]) < step(
            platform::status_ops(config, status)[j],
        ),
{
}

/// What is logged of the status word, bit by bit. Of each core of an STM32WL that is reported on,
/// one bit tells of STOP2 (9, for CPU2 12) and one of STOP0 or STOP1 (10, for CPU2 13).
pub proof fn law_status_reports(config: Config, status: u32, message: Message)
    ensures
        platform::status_ops(config, status).contains(Op::Log(message)) <==> match message {
            Message::Cpu1Stop1 => (config.chip is Wl5x || config.chip is Wlex) && (status >> 10) & 1
                == 1 && (status >> 9) & 1 != 1,
            Message::Cpu1Stop2 => (config.chip is Wl5x || config.chip is Wlex) && (status >> 10) & 1
                != 1 && (status >> 9) & 1 == 1,
            Message::Cpu1Stop1And2 => (config.chip is Wl5x || config.chip is Wlex) && (status >> 10)
                & 1 == 1 && (status >> 9) & 1 == 1,
            Message::Cpu1NotStopped => (config.chip is Wl5x || config.chip is Wlex) && (status
                >> 10) & 1 != 1 && (status >> 9) & 1 != 1,
            Message::Cpu2Stop1 => config.chip is Wl5x && (status >> 13) & 1 == 1 && (status >> 12)
                & 1 != 1,
            Message::Cpu2Stop2 => config.chip is Wl5x && (status >> 13) & 1 != 1 && (status >> 12)
                & 1 == 1,
            Message::Cpu2Stop1And2 => config.chip is Wl5x && (status >> 13) & 1 == 1 && (status
                >> 12) & 1 == 1,
            Message::Cpu2NotStopped => config.chip is Wl5x && (status >> 13) & 1 != 1 && (status
                >> 12) & 1 != 1,
            Message::WbCpu1Stopped => config.chip is Wb && (status >> 9) & 1 == 1 && (status >> 11)
                & 1 != 1,
            Message::WbCpu2Stopped => config.chip is Wb && (status >> 9) & 1 != 1 && (status >> 11)
                & 1 == 1,
            Message::WbBothStopped => config.chip is Wb && (status >> 9) & 1 == 1 && (status >> 11)
                & 1 == 1,
            Message::WbNotStopped => config.chip is Wb && (status >> 9) & 1 != 1 && (status >> 11)
                & 1 != 1,
            Message::WbaWokeFromStop2 => config.chip is Wba && (status >> 1) & 1 == 1 && (status
                >> 3) & 1 == 1,
            Message::WbaWokeFromStop01 => config.chip is Wba && (status >> 1) & 1 == 1 && (status
                >> 3) & 1 != 1,
            Message::L0Stopped => config.chip is L0 && (status >> 0) & 1 == 1,
            Message::ReinitTimer => match config.chip {
                Chip::Wl5x | Chip::Wlex => if config.core_cm0p {
                    (status >> 12) & 1 == 1
                } else {
                    (status >> 9) & 1 == 1
                },
                Chip::Wba => (status >> 1) & 1 == 1,
                _ => false,
            },
            _ => false,
        },
{
    let ops = platform::status_ops(config, status);
    let rcc = platform::rcc_ops(config.chip, status);
    let report = platform::report_ops(config.chip, status);
    let flags = platform::clear_flags_ops(config);
    let unlock = if config.chip is Wl5x {
        seq![Op::Unlock { sem: 3 }]
    } else {
        seq![]
    };
    let timer = platform::timer_ops(config, status);
    let line = Op::Log(message);
    let ahead = rcc + report + flags + unlock;
    if report.contains(line) {
        let k = choose|k: int| 0 <= k < report.len() && report[k] == line;
        assert(ops[rcc.len() + k] == line);
    }
    if timer.contains(line) {
        let k = choose|k: int| 0 <= k < timer.len() && timer[k] == line;
        assert(ops[ahead.len() + k] == line);
    }
    if ops.contains(line) {
        let k = choose|k: int| 0 <= k < ops.len() && ops[k] == line;
        if k < ahead.len() {
            assert(report[k - rcc.len()] == line);
        } else {
            assert(timer[k - ahead.len()] == line);
        }
    }
    assert(timer.len() > 0 ==> timer[0] == Op::Log(Message::ReinitTimer));
    assert(report.len() > 0 ==> report[0] is Log);
    assert(config.chip is Wl5x ==> report[1] is Log);
}

} // verus!
