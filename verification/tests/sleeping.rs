use low_power::chip::{Chip, Config, Lpms, StopMode};
use low_power::op::{Message, Op, Reply};
use low_power::platform::{
    clear_flags, enter_stop, exit_stop, extscr_read, re_initialize_rcc, re_initialize_timer,
    sem3_polled, sem4_tried, status_read, Entry,
};
use low_power::register::{Condition, Edit, GpioRegister, Port, Register};
use low_power::sleep::{enter_low_power_sleep, resume, sleep};
use low_power::state::{LowPower, Wait};

const CHIPS: [Chip; 12] = [
    Chip::L0,
    Chip::L4,
    Chip::L5,
    Chip::U0,
    Chip::U3,
    Chip::U5,
    Chip::H5,
    Chip::Wb,
    Chip::Wba,
    Chip::Wl5x,
    Chip::Wlex,
    Chip::Other,
];

fn config(chip: Chip) -> Config {
    Config {
        chip,
        core_cm0p: false,
        lp_time_driver: false,
        no_gpios_while_stop: false,
        use_low_power_sleep: false,
        debug_with_sleep: false,
        defmt_flush: false,
    }
}

/// Registers that hold what was last written, ports that ignore writes while they are gated, and
/// drivers that report what they are told to.
struct Machine {
    words: Vec<(Register, u32)>,
    mode: Option<StopMode>,
    pauses: bool,
    sem3: bool,
    sem4: bool,
    trace: Vec<Op>,
    at_wfi: Vec<(Register, u32)>,
}

fn clock_of(port: Port) -> u32 {
    match port {
        Port::A => 0x1,
        Port::B => 0x2,
        Port::C => 0x4,
        Port::D => 0x8,
        Port::E => 0x10,
        Port::H => 0x80,
    }
}

impl Machine {
    fn new(mode: Option<StopMode>) -> Machine {
        Machine {
            words: vec![],
            mode,
            pauses: true,
            sem3: true,
            sem4: true,
            trace: vec![],
            at_wfi: vec![],
        }
    }

    fn read(&self, register: Register) -> u32 {
        for (r, word) in &self.words {
            if *r == register {
                return *word;
            }
        }
        0
    }

    fn write(&mut self, register: Register, word: u32) {
        if let Register::Gpio(port, _) = register {
            if self.read(Register::RccGpioenr) & clock_of(port) == 0 {
                return;
            }
        }
        self.hold(register, word)
    }

    fn hold(&mut self, register: Register, word: u32) {
        for entry in self.words.iter_mut() {
            if entry.0 == register {
                entry.1 = word;
                return;
            }
        }
        self.words.push((register, word));
    }

    fn perform(&mut self, ops: Vec<Op>) -> Reply {
        let mut read = vec![];
        let mut other = None;
        for op in ops {
            self.trace.push(op);
            match op {
                Op::Wfi => self.at_wfi = self.words.clone(),
                Op::Read(register) => read.push(self.read(register)),
                Op::Write(register, word) => self.write(register, word),
                Op::Modify(edit) => {
                    let word = edit.apply(self.read(edit.register()));
                    self.write(edit.register(), word)
                }
                Op::GetStopMode => other = Some(Reply::StopMode(self.mode)),
                Op::PauseTime => other = Some(Reply::Success(self.pauses)),
                Op::PollLock { .. } => other = Some(Reply::Success(self.sem3)),
                Op::TryLock { .. } => other = Some(Reply::Success(self.sem4)),
                _ => {}
            }
        }
        other.unwrap_or(Reply::Words(read))
    }

    fn sleep(&mut self, lp: &mut LowPower) {
        assert_eq!(lp.wait, Wait::Nothing);
        let mut reply = self.perform(sleep(lp));
        while lp.wait != Wait::Nothing {
            assert!(lp.wait.accepts(&reply));
            let ops = resume(lp, reply);
            reply = self.perform(ops);
        }
    }

    fn count(&self, op: Op) -> usize {
        self.trace.iter().filter(|o| **o == op).count()
    }

    fn place(&self, op: Op) -> usize {
        self.trace.iter().position(|o| *o == op).unwrap()
    }
}

#[test]
fn flags_are_cleared_by_chip() {
    assert_eq!(clear_flags(&config(Chip::L0)), vec![Op::Modify(Edit::ClearWakeupFlag)]);
    assert_eq!(clear_flags(&config(Chip::Wba)), vec![Op::Modify(Edit::ClearStopFlags)]);
    assert_eq!(clear_flags(&config(Chip::Wlex)), vec![Op::Modify(Edit::ClearCpu1StopFlags)]);
    let cm0p = Config { core_cm0p: true, ..config(Chip::Wl5x) };
    assert_eq!(clear_flags(&cm0p), vec![Op::Modify(Edit::ClearCpu2StopFlags)]);
    assert_eq!(clear_flags(&config(Chip::Wb)), vec![Op::Modify(Edit::ClearCpu1StopFlags)]);
    let cm0p = Config { core_cm0p: true, ..config(Chip::Wb) };
    assert_eq!(clear_flags(&cm0p), vec![Op::Modify(Edit::ClearCpu2StopFlags)]);
    assert_eq!(clear_flags(&config(Chip::L4)), vec![]);
}

#[test]
fn most_chips_enter_stop_at_once() {
    let r = enter_stop(&config(Chip::L4), StopMode::Stop1);
    assert_eq!(r.ops, vec![Op::Modify(Edit::SelectLpms(Lpms::Stop1))]);
    assert_eq!(r.entry, Entry::Done(Ok(())));
    let cm0p = Config { core_cm0p: true, ..config(Chip::Wl5x) };
    let r = enter_stop(&cm0p, StopMode::Standby);
    assert_eq!(r.ops, vec![Op::Modify(Edit::SelectLpmsCpu2(Lpms::Stop2))]);
    let r = enter_stop(&config(Chip::Wba), StopMode::Stop2);
    assert_eq!(r.ops, vec![Op::Modify(Edit::SelectLpms(Lpms::Stop0))]);
    let r = enter_stop(&config(Chip::H5), StopMode::Stop2);
    assert_eq!(r.ops, vec![Op::Modify(Edit::SelectStopScale3)]);
    let r = enter_stop(&config(Chip::Other), StopMode::Stop2);
    assert_eq!(r.ops, vec![]);
    assert_eq!(r.entry, Entry::Done(Ok(())));
    let r = enter_stop(&config(Chip::L0), StopMode::Stop1);
    assert_eq!(
        r.ops,
        vec![
            Op::Modify(Edit::SelectStop),
            Op::Modify(Edit::VrefintOff),
            Op::Modify(Edit::AdcOff),
            Op::Modify(Edit::Dac1Off),
            Op::Modify(Edit::Dac2Off),
        ]
    );
}

#[test]
fn wb_is_refused_without_semaphore_3() {
    let r = enter_stop(&config(Chip::Wb), StopMode::Stop2);
    assert_eq!(
        r.ops,
        vec![Op::Log(Message::TryingSem3), Op::PollLock { sem: 3, process: 0 }]
    );
    assert_eq!(r.entry, Entry::Sem3);
    let r = sem3_polled(false);
    assert_eq!(r.ops, vec![]);
    assert_eq!(r.entry, Entry::Done(Err(())));
}

#[test]
fn wb_moves_to_hsi_while_cpu2_keeps_the_clocks() {
    let wb = config(Chip::Wb);
    let r = sem3_polled(true);
    assert_eq!(r.entry, Entry::Sem4);
    let hsi = vec![
        Op::Modify(Edit::HsiOn),
        Op::WaitUntil(Condition::HsiReady),
        Op::Modify(Edit::SysclkFromHsi),
        Op::WaitUntil(Condition::SysclkIsHsi),
        Op::Modify(Edit::SmpsFromHsi),
    ];
    let settled = vec![
        Op::Modify(Edit::PwrClockOn),
        Op::Dsb,
        Op::Modify(Edit::SmpsBypass),
        Op::Delay(1000),
        Op::Modify(Edit::SelectLpms(Lpms::Stop2)),
        Op::Unlock { sem: 3 },
    ];
    let r = sem4_tried(&wb, StopMode::Stop2, false);
    assert_eq!(r.ops, [hsi.clone(), settled.clone()].concat());
    assert_eq!(r.entry, Entry::Done(Ok(())));
    let r = sem4_tried(&wb, StopMode::Stop2, true);
    assert_eq!(r.ops, vec![Op::Log(Message::GotSem4), Op::Read(Register::PwrExtscr)]);
    assert_eq!(r.entry, Entry::Extscr);
    let unlock = vec![Op::Unlock { sem: 4 }];
    let r = extscr_read(&wb, StopMode::Stop2, 0x8000);
    assert_eq!(r.ops, [unlock.clone(), hsi, settled.clone()].concat());
    let r = extscr_read(&wb, StopMode::Stop2, 0xffff_7fff);
    assert_eq!(r.ops, [unlock, settled].concat());
    assert_eq!(r.entry, Entry::Done(Ok(())));
}

#[test]
fn both_cores_of_wl5x_must_have_stopped() {
    for c1 in [0, 0x200, 0x400, 0x600] {
        for c2 in [0, 0x1000, 0x2000, 0x3000] {
            assert_eq!(re_initialize_rcc(Chip::Wl5x, c1 | c2), c1 != 0 && c2 != 0);
            assert_eq!(re_initialize_rcc(Chip::Wlex, c1 | c2), c1 != 0);
        }
    }
    assert!(re_initialize_rcc(Chip::Wba, 0x2));
    assert!(!re_initialize_rcc(Chip::Wba, 0x8));
    assert!(re_initialize_rcc(Chip::L0, 0x1));
    assert!(!re_initialize_rcc(Chip::L0, 0xffff_fffe));
    assert!(!re_initialize_rcc(Chip::Wb, 0xffff_ffff));
}

#[test]
fn the_timer_is_lost_in_stop2_of_the_running_core() {
    let cm4 = config(Chip::Wl5x);
    let cm0p = Config { core_cm0p: true, ..cm4 };
    assert!(re_initialize_timer(&cm4, 0x200));
    assert!(!re_initialize_timer(&cm4, 0x3400));
    assert!(re_initialize_timer(&cm0p, 0x1000));
    assert!(!re_initialize_timer(&cm0p, 0x2600));
    assert!(re_initialize_timer(&config(Chip::Wba), 0x2));
    assert!(!re_initialize_timer(&config(Chip::L0), 0x1));
    assert!(!re_initialize_timer(&config(Chip::Wb), 0xffff_ffff));
}

#[test]
fn the_status_word_is_read_where_there_is_one() {
    let r = exit_stop(&config(Chip::Wl5x));
    assert_eq!(
        r.ops,
        vec![Op::BlockingLock { sem: 3, process: 0 }, Op::Read(Register::PwrExtscr)]
    );
    assert!(r.awaits_status);
    assert_eq!(exit_stop(&config(Chip::L0)).ops, vec![Op::Read(Register::PwrCsr)]);
    assert_eq!(exit_stop(&config(Chip::Wba)).ops, vec![Op::Read(Register::PwrSr)]);
    assert_eq!(exit_stop(&config(Chip::Wb)).ops, vec![Op::Read(Register::PwrExtscr)]);
    let r = exit_stop(&config(Chip::L4));
    assert_eq!(r.ops, vec![]);
    assert!(!r.awaits_status);
}

#[test]
fn wl5x_leaves_stop2_of_both_cores() {
    assert_eq!(
        status_read(&config(Chip::Wl5x), 0x1200),
        vec![
            Op::ReinitRcc,
            Op::Log(Message::Cpu1Stop2),
            Op::Log(Message::Cpu2Stop2),
            Op::Modify(Edit::ClearCpu1StopFlags),
            Op::Unlock { sem: 3 },
            Op::Log(Message::ReinitTimer),
            Op::InitTimer,
        ]
    );
    let lptim = Config { lp_time_driver: true, ..config(Chip::Wlex) };
    assert_eq!(
        status_read(&lptim, 0x600),
        vec![
            Op::ReinitRcc,
            Op::Log(Message::Cpu1Stop1And2),
            Op::Modify(Edit::ClearCpu1StopFlags),
            Op::Log(Message::ReinitTimer),
        ]
    );
}

#[test]
fn stops_are_reported() {
    let wb = config(Chip::Wb);
    let cleared = Op::Modify(Edit::ClearCpu1StopFlags);
    assert_eq!(status_read(&wb, 0x200), vec![Op::Log(Message::WbCpu1Stopped), cleared]);
    assert_eq!(status_read(&wb, 0x800), vec![Op::Log(Message::WbCpu2Stopped), cleared]);
    assert_eq!(status_read(&wb, 0xa00), vec![Op::Log(Message::WbBothStopped), cleared]);
    assert_eq!(status_read(&wb, 0), vec![Op::Log(Message::WbNotStopped), cleared]);
    let wba = config(Chip::Wba);
    assert_eq!(status_read(&wba, 0xa)[1], Op::Log(Message::WbaWokeFromStop2));
    assert_eq!(status_read(&wba, 0x2)[1], Op::Log(Message::WbaWokeFromStop01));
    assert_eq!(status_read(&wba, 0x8), vec![Op::Modify(Edit::ClearStopFlags)]);
    let wlex = config(Chip::Wlex);
    assert_eq!(status_read(&wlex, 0)[0], Op::Log(Message::Cpu1NotStopped));
    assert_eq!(status_read(&wlex, 0x400)[1], Op::Log(Message::Cpu1Stop1));
    let l0 = config(Chip::L0);
    assert_eq!(
        status_read(&l0, 1),
        vec![Op::ReinitRcc, Op::Log(Message::L0Stopped), Op::Modify(Edit::ClearWakeupFlag)]
    );
    assert_eq!(status_read(&l0, 0), vec![Op::Modify(Edit::ClearWakeupFlag)]);
}

#[test]
fn low_power_sleep_powers_the_flash_down() {
    assert_eq!(
        enter_low_power_sleep(),
        vec![
            Op::Log(Message::LowPowerSleep),
            Op::Modify(Edit::FlashSleepPowerDown),
            Op::Modify(Edit::RewritePwrCr),
        ]
    );
}

#[test]
fn without_a_stop_mode_a_sleep_is_wfi() {
    let mut machine = Machine::new(None);
    let mut lp = LowPower::new(config(Chip::L4));
    machine.sleep(&mut lp);
    assert_eq!(
        machine.trace,
        vec![
            Op::ClearSleepdeep,
            Op::CompilerFence,
            Op::GetStopMode,
            Op::Dsb,
            Op::Wfi,
            Op::Isb,
        ]
    );
    assert_eq!(lp, LowPower::new(config(Chip::L4)));
}

#[test]
fn a_stop_of_l4() {
    let mut machine = Machine::new(Some(StopMode::Stop2));
    let mut lp = LowPower::new(config(Chip::L4));
    machine.sleep(&mut lp);
    assert_eq!(
        machine.trace,
        vec![
            Op::ClearSleepdeep,
            Op::CompilerFence,
            Op::GetStopMode,
            Op::PauseTime,
            Op::Modify(Edit::SelectLpms(Lpms::Stop2)),
            Op::Log(Message::EnterStop(Some(StopMode::Stop2))),
            Op::SetSleepdeep,
            Op::Dsb,
            Op::Wfi,
            Op::Isb,
            Op::ResumeTime,
            Op::Log(Message::Resumed),
        ]
    );
    assert_eq!(machine.read(Register::PwrCr1), 2);
    assert!(!lp.stop_entered);
}

#[test]
fn time_that_cannot_pause_keeps_the_core_in_shallow_sleep() {
    let mut machine = Machine::new(Some(StopMode::Stop1));
    machine.pauses = false;
    let mut lp = LowPower::new(config(Chip::L4));
    machine.sleep(&mut lp);
    assert_eq!(machine.count(Op::Log(Message::PauseFailed)), 1);
    assert_eq!(machine.count(Op::SetSleepdeep), 0);
    assert_eq!(machine.count(Op::ResumeTime), 0);
    assert_eq!(machine.count(Op::Wfi), 1);
}

#[test]
fn wb_refused_semaphore_3_sleeps_without_a_stop() {
    let mut machine = Machine::new(Some(StopMode::Stop2));
    machine.sem3 = false;
    let mut lp = LowPower::new(config(Chip::Wb));
    machine.sleep(&mut lp);
    assert_eq!(machine.count(Op::Log(Message::EnterStopFailed)), 1);
    assert_eq!(machine.count(Op::SetSleepdeep), 0);
    assert_eq!(machine.count(Op::PauseTime), 1);
    assert_eq!(machine.count(Op::ResumeTime), 1);
    assert!(machine.place(Op::PauseTime) < machine.place(Op::ResumeTime));
    assert!(machine.place(Op::ResumeTime) < machine.place(Op::Wfi));
    assert_eq!(lp, LowPower::new(config(Chip::Wb)));
    assert_eq!(machine.count(Op::Unlock { sem: 3 }), 0);
    assert_eq!(machine.count(Op::Wfi), 1);
}

#[test]
fn granted_semaphores_are_released() {
    for sem4 in [false, true] {
        for extscr in [0, 0x8000] {
            let mut machine = Machine::new(Some(StopMode::Stop2));
            machine.sem4 = sem4;
            machine.write(Register::PwrExtscr, extscr);
            let mut lp = LowPower::new(config(Chip::Wb));
            machine.sleep(&mut lp);
            assert_eq!(machine.count(Op::Unlock { sem: 3 }), 1);
            assert_eq!(machine.count(Op::Unlock { sem: 4 }), if sem4 { 1 } else { 0 });
            let hsi = !sem4 || extscr != 0;
            assert_eq!(machine.count(Op::Modify(Edit::HsiOn)), if hsi { 1 } else { 0 });
            assert_eq!(machine.count(Op::SetSleepdeep), 1);
        }
    }
    let mut machine = Machine::new(Some(StopMode::Stop2));
    let mut lp = LowPower::new(config(Chip::Wl5x));
    machine.sleep(&mut lp);
    assert_eq!(machine.count(Op::BlockingLock { sem: 3, process: 0 }), 1);
    assert_eq!(machine.count(Op::Unlock { sem: 3 }), 1);
}

#[test]
fn the_clock_tree_of_wl5x_is_set_up_under_the_lock() {
    let mut machine = Machine::new(Some(StopMode::Stop2));
    machine.write(Register::PwrExtscr, 0x1200);
    let mut lp = LowPower::new(config(Chip::Wl5x));
    machine.sleep(&mut lp);
    let locked = machine.place(Op::BlockingLock { sem: 3, process: 0 });
    let rcc = machine.place(Op::ReinitRcc);
    let released = machine.place(Op::Unlock { sem: 3 });
    let timer = machine.place(Op::InitTimer);
    let resumed = machine.place(Op::ResumeTime);
    assert!(locked < rcc && rcc < released && released < timer && timer < resumed);
}

#[test]
fn every_chip_stops_and_wakes_up() {
    for chip in CHIPS {
        for debug in [false, true] {
            let config = Config { debug_with_sleep: debug, ..config(chip) };
            let mut machine = Machine::new(Some(StopMode::Stop1));
            let mut lp = LowPower::new(config);
            machine.sleep(&mut lp);
            assert_eq!(lp, LowPower::new(config));
            assert_eq!(machine.count(Op::Wfi), 1);
            assert_eq!(machine.count(Op::ResumeTime), 1);
            assert_eq!(machine.count(Op::SetSleepdeep), if debug { 0 } else { 1 });
            assert!(machine.place(Op::PauseTime) < machine.place(Op::Wfi));
            assert!(machine.place(Op::Wfi) < machine.place(Op::ResumeTime));
        }
    }
}

#[test]
fn low_power_sleep_shifts_the_clocks_around_everything() {
    let mut machine = Machine::new(None);
    let mut lp = LowPower::new(Config {
        use_low_power_sleep: true,
        defmt_flush: true,
        ..config(Chip::L0)
    });
    machine.sleep(&mut lp);
    assert_eq!(
        machine.trace,
        vec![
            Op::GearshiftSlow,
            Op::ClearSleepdeep,
            Op::Modify(Edit::ClearWakeupFlag),
            Op::CompilerFence,
            Op::GetStopMode,
            Op::Log(Message::LowPowerSleep),
            Op::Modify(Edit::FlashSleepPowerDown),
            Op::Modify(Edit::RewritePwrCr),
            Op::FlushLog,
            Op::Dsb,
            Op::Wfi,
            Op::Isb,
            Op::GearshiftFast,
        ]
    );
    assert_eq!(machine.read(Register::FlashAcr), 0x8);
}

#[test]
fn a_stop_of_l0_with_the_ports_off() {
    let mut machine = Machine::new(Some(StopMode::Stop1));
    machine.write(Register::PwrCsr, 1);
    machine.hold(Register::Gpio(Port::B, GpioRegister::Moder), 0xabcd_ef01);
    machine.hold(Register::Gpio(Port::B, GpioRegister::Pupdr), 0x5);
    machine.hold(Register::Gpio(Port::H, GpioRegister::Afrh), 0x7);
    machine.write(Register::RccGpioenr, 0x3);
    machine.write(Register::RccAhbenr, 0x100);
    let mut lp = LowPower::new(Config { no_gpios_while_stop: true, ..config(Chip::L0) });
    machine.sleep(&mut lp);
    assert_eq!(lp.wait, Wait::Nothing);
    assert!(!lp.stop_entered);
    assert_eq!(lp.gpio_rcc_state, Some(0x3));
    assert_eq!(machine.read(Register::Gpio(Port::B, GpioRegister::Moder)), 0xabcd_ef01);
    assert_eq!(machine.read(Register::Gpio(Port::H, GpioRegister::Afrh)), 0x7);
    assert_eq!(machine.read(Register::Gpio(Port::B, GpioRegister::Pupdr)), 0x5);
    assert_eq!(machine.read(Register::RccGpioenr), 0x3);
    for port in [Port::A, Port::B, Port::C, Port::D, Port::E, Port::H] {
        let moder = (Register::Gpio(port, GpioRegister::Moder), 0xffff_ffff);
        let pupdr = (Register::Gpio(port, GpioRegister::Pupdr), 0);
        assert!(machine.at_wfi.contains(&moder));
        assert!(machine.at_wfi.contains(&pupdr));
    }
    assert!(machine.at_wfi.contains(&(Register::RccGpioenr, 0)));
    assert_eq!(machine.read(Register::RccAhbenr), 0x100);
    assert_eq!(machine.read(Register::PwrCr), 0x605);
    let analog = Op::Write(Register::Gpio(Port::B, GpioRegister::Moder), 0xffff_ffff);
    let back = Op::Write(Register::Gpio(Port::B, GpioRegister::Moder), 0xabcd_ef01);
    assert!(machine.place(analog) < machine.place(Op::Wfi));
    assert!(machine.place(Op::Wfi) < machine.place(back));
    assert!(machine.place(back) < machine.place(Op::ReinitRcc));
    assert!(machine.place(Op::ReinitRcc) < machine.place(Op::ResumeTime));
    assert_eq!(machine.count(Op::Log(Message::EnterStop(None))), 1);
}

#[test]
fn ports_are_left_alone_on_other_chips() {
    let mut machine = Machine::new(Some(StopMode::Stop1));
    let mut lp = LowPower::new(Config { no_gpios_while_stop: true, ..config(Chip::L4) });
    machine.sleep(&mut lp);
    assert_eq!(lp.gpio_contexts, None);
    assert_eq!(machine.words, vec![(Register::PwrCr1, 1)]);
}

#[test]
fn replies_that_were_not_asked_for_are_not_accepted() {
    let words = Reply::Words(vec![0]);
    assert!(!Wait::Nothing.accepts(&words));
    assert!(!Wait::StopMode.accepts(&words));
    assert!(!Wait::Sem3(StopMode::Stop1).accepts(&words));
    assert!(Wait::Status.accepts(&words));
    assert!(!Wait::Status.accepts(&Reply::Words(vec![])));
    assert!(!Wait::GpioContext.accepts(&words));
    assert!(Wait::GpioContext.accepts(&Reply::Words(vec![0; 49])));
    assert!(Wait::StopMode.accepts(&Reply::StopMode(None)));
    assert!(Wait::PauseTime(StopMode::Stop2).accepts(&Reply::Success(false)));
}

#[test]
fn stop_flags_are_cleared_before_and_after_a_stop() {
    for (chip, edit) in [
        (Chip::L0, Edit::ClearWakeupFlag),
        (Chip::Wba, Edit::ClearStopFlags),
        (Chip::Wb, Edit::ClearCpu1StopFlags),
        (Chip::Wl5x, Edit::ClearCpu1StopFlags),
        (Chip::Wlex, Edit::ClearCpu1StopFlags),
    ] {
        let mut machine = Machine::new(Some(StopMode::Stop1));
        let mut lp = LowPower::new(config(chip));
        machine.sleep(&mut lp);
        assert_eq!(machine.count(Op::Modify(edit)), 2);
        assert!(machine.place(Op::Modify(edit)) < machine.place(Op::GetStopMode));
    }
}

fn is_question(op: &Op) -> bool {
    matches!(op, Op::GetStopMode | Op::PauseTime | Op::PollLock { .. } | Op::TryLock { .. })
}

#[test]
fn every_batch_asks_what_is_waited_for_and_nothing_else() {
    for chip in CHIPS {
        for mode in [None, Some(StopMode::Stop2)] {
            for answers in 0..8 {
                let mut machine = Machine::new(mode);
                machine.pauses = answers & 1 == 0;
                machine.sem3 = answers & 2 == 0;
                machine.sem4 = answers & 4 == 0;
                let mut lp = LowPower::new(Config { no_gpios_while_stop: true, ..config(chip) });
                let mut ops = sleep(&mut lp);
                loop {
                    let reads = ops.iter().filter(|op| matches!(op, Op::Read(_))).count();
                    let questions = ops.iter().filter(|op| is_question(op)).count();
                    let (expected, last) = match lp.wait {
                        Wait::Nothing => (0, None),
                        Wait::StopMode => (0, Some(Op::GetStopMode)),
                        Wait::PauseTime(_) => (0, Some(Op::PauseTime)),
                        Wait::Sem3(_) => (0, Some(Op::PollLock { sem: 3, process: 0 })),
                        Wait::Sem4(_) => (0, Some(Op::TryLock { sem: 4, process: 0 })),
                        Wait::Extscr(_) | Wait::Status => (1, None),
                        Wait::GpioContext => (49, None),
                    };
                    assert_eq!(reads, expected);
                    assert_eq!(questions, if last.is_some() { 1 } else { 0 });
                    if last.is_some() {
                        assert_eq!(ops.last().copied(), last);
                    }
                    let reply = machine.perform(ops);
                    if lp.wait == Wait::Nothing {
                        break;
                    }
                    assert!(lp.wait.accepts(&reply));
                    ops = resume(&mut lp, reply);
                }
                assert_eq!(machine.count(Op::Wfi), 1);
            }
        }
    }
}

#[test]
fn the_permitted_stop_mode_is_selected_at_wfi() {
    for (chip, register, mask, expected) in [
        (Chip::L4, Register::PwrCr1, 0x7, 0x2),
        (Chip::Wb, Register::PwrCr1, 0x7, 0x2),
        (Chip::Wba, Register::PwrCr1, 0x7, 0x0),
        (Chip::L0, Register::PwrCr, 0x607, 0x605),
        (Chip::L0, Register::SyscfgCfgr3, 0x1, 0),
        (Chip::L0, Register::Adc1Cr, 0x2, 0x2),
        (Chip::L0, Register::Dac1Cr, 0x1_0001, 0),
        (Chip::H5, Register::PwrPmcr, 0xd, 0xc),
    ] {
        for before in [0, 0xffff_ffff] {
            let mut machine = Machine::new(Some(StopMode::Stop2));
            machine.hold(register, before);
            let mut lp = LowPower::new(config(chip));
            machine.sleep(&mut lp);
            let word = machine.at_wfi.iter().find(|entry| entry.0 == register).unwrap().1;
            assert_eq!(word & mask, expected);
            assert_eq!(word & !(mask | 0x4), before & !(mask | 0x4));
        }
    }
}
