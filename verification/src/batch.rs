//! What a batch of operations asks, and that performing it gives the reply that is waited for.
use vstd::prelude::*;
use crate::chip::{Chip, Config, StopMode};
use crate::gpio;
use crate::op::{Message, Op, Reply};
use crate::platform;
use crate::register::{Edit, Register};
use crate::sleep;
use crate::state::{LowPower, Wait};
use crate::trace::{self, World};

verus! {

/// `op` reports something other than the word of a register.
pub open spec fn is_question(op: Op) -> bool {
    op is GetStopMode || op is PauseTime || op is PollLock || op is TryLock
}

/// `ops` holds no question.
pub open spec fn no_question(ops: Seq<Op>) -> bool {
    forall|i: int| 0 <= i < ops.len() ==> !is_question(#[trigger] ops[i])
}

/// The registers that `ops` reads, in order.
pub open spec fn registers_read(ops: Seq<Op>) -> Seq<Register>
    decreases ops.len(),
{
    if ops.len() == 0 {
        seq![]
    } else {
        let before = registers_read(ops.drop_last());
        match ops.last() {
            Op::Read(register) => before.push(register),
            _ => before,
        }
    }
}

/// `ops` reads `registers`, in that order, and asks nothing else.
pub open spec fn asks_words(ops: Seq<Op>, registers: Seq<Register>) -> bool {
    no_question(ops) && registers_read(ops) == registers
}

/// `ops` ends in `question` and asks nothing else.
pub open spec fn asks(ops: Seq<Op>, question: Op) -> bool {
    &&& ops.len() > 0
    &&& ops.last() == question
    &&& asks_words(ops.drop_last(), seq![])
}

impl LowPower {
    /// `ops` asks what is waited for, once, and nothing else.
    pub open spec fn asked_by(self, ops: Seq<Op>) -> bool {
        match self.wait {
            Wait::Nothing => asks_words(ops, seq![]),
            Wait::StopMode => asks(ops, Op::GetStopMode),
            Wait::PauseTime(_) => asks(ops, Op::PauseTime),
            Wait::Sem3(_) => asks(ops, Op::PollLock { sem: 3, process: 0 }),
            Wait::Sem4(_) => asks(ops, Op::TryLock { sem: 4, process: 0 }),
            Wait::Extscr(_) => asks_words(ops, seq![Register::PwrExtscr]),
            Wait::GpioContext => asks_words(ops, registers_read(gpio::stored_reads())),
            Wait::Status => asks_words(ops, seq![platform::status_register(self.config.chip)]),
        }
    }
}

/// `reply` is what performing `ops` reports: the answer to the question that they end in, or else
/// one word for each read.
pub open spec fn reported(ops: Seq<Op>, reply: Reply) -> bool {
    if ops.len() > 0 && ops.last() is GetStopMode {
        reply is StopMode
    } else if ops.len() > 0 && is_question(ops.last()) {
        reply is Success
    } else {
        reply matches Reply::Words(words) && words@.len() == registers_read(ops).len()
    }
}

proof fn lemma_registers_add(a: Seq<Op>, b: Seq<Op>)
    ensures
        registers_read(a + b) == registers_read(a) + registers_read(b),
    decreases b.len(),
{
    if b.len() == 0 {
        assert(a + b =~= a);
        assert(registers_read(a) + registers_read(b) =~= registers_read(a));
    } else {
        assert((a + b).drop_last() =~= a + b.drop_last());
        lemma_registers_add(a, b.drop_last());
        assert(registers_read(a + b) =~= registers_read(a) + registers_read(b));
    }
}

/// Operations that neither read nor ask.
proof fn lemma_quiet(ops: Seq<Op>)
    requires
        forall|i: int|
            0 <= i < ops.len() ==> !is_question(#[trigger] ops[i]) && !(ops[i] is Read),
    ensures
        asks_words(ops, seq![]),
    decreases ops.len(),
{
    if ops.len() > 0 {
        assert forall|i: int| 0 <= i < ops.drop_last().len() implies !is_question(
            #[trigger] ops.drop_last()[i],
        ) && !(ops.drop_last()[i] is Read) by {
            assert(ops.drop_last()[i] == ops[i]);
        }
        lemma_quiet(ops.drop_last());
        assert(!(ops[ops.len() - 1] is Read));
    }
}

/// Quiet operations ahead of a batch, or behind it, change nothing of what it asks.
proof fn lemma_around(a: Seq<Op>, b: Seq<Op>, registers: Seq<Register>)
    ensures
        asks_words(a, seq![]) && asks_words(b, registers) ==> asks_words(a + b, registers),
        asks_words(a, registers) && asks_words(b, seq![]) ==> asks_words(a + b, registers),
{
    lemma_registers_add(a, b);
    assert(Seq::<Register>::empty() + registers =~= registers);
    assert(registers + Seq::<Register>::empty() =~= registers);
    if no_question(a) && no_question(b) {
        assert forall|i: int| 0 <= i < (a + b).len() implies !is_question(
            #[trigger] (a + b)[i],
        ) by {
            if i < a.len() {
                assert((a + b)[i] == a[i]);
            } else {
                assert((a + b)[i] == b[i - a.len()]);
            }
        }
    }
}

/// Quiet operations ahead of a batch leave it asking what is waited for.
proof fn lemma_ahead(lp: LowPower, a: Seq<Op>, b: Seq<Op>)
    requires
        asks_words(a, seq![]),
        lp.asked_by(b),
    ensures
        lp.asked_by(a + b),
{
    match lp.wait {
        Wait::Nothing | Wait::Extscr(_) | Wait::GpioContext | Wait::Status => {
            lemma_around(a, b, registers_read(b));
        },
        _ => {
            assert((a + b).drop_last() =~= a + b.drop_last());
            lemma_around(a, b.drop_last(), seq![]);
        },
    }
}

/// A batch that asks what is waited for, faithfully performed, gives the reply that is waited for.
pub proof fn law_reported_is_answered(lp: LowPower, ops: Seq<Op>, reply: Reply)
    requires
        !(lp.wait is Nothing),
        lp.asked_by(ops),
        reported(ops, reply),
    ensures
        lp.wait.answered_by(reply),
{
    match lp.wait {
        Wait::Extscr(_) | Wait::Status => {
            lemma_last_no_question(ops);
        },
        Wait::GpioContext => {
            lemma_last_no_question(ops);
            lemma_stored_reads();
        },
        _ => {},
    }
}

proof fn lemma_last_no_question(ops: Seq<Op>)
    requires
        no_question(ops),
    ensures
        ops.len() > 0 ==> !is_question(ops.last()),
{
    if ops.len() > 0 {
        assert(!is_question(ops[ops.len() - 1]));
    }
}

/// Reads read what they name.
proof fn lemma_all_reads(ops: Seq<Op>)
    requires
        forall|i: int| 0 <= i < ops.len() ==> #[trigger] ops[i] is Read,
    ensures
        registers_read(ops).len() == ops.len(),
        no_question(ops),
    decreases ops.len(),
{
    if ops.len() > 0 {
        assert forall|i: int| 0 <= i < ops.drop_last().len() implies #[trigger] ops.drop_last()[i]
            is Read by {
            assert(ops.drop_last()[i] == ops[i]);
        }
        lemma_all_reads(ops.drop_last());
        assert(ops[ops.len() - 1] is Read);
    }
}

proof fn lemma_stored_reads()
    ensures
        asks_words(gpio::stored_reads(), registers_read(gpio::stored_reads())),
        registers_read(gpio::stored_reads()).len() == gpio::STORED_WORDS,
{
    reveal(gpio::stored_reads);
    lemma_all_reads(gpio::stored_reads());
}

proof fn lemma_wakeup_asks(lp: LowPower)
    ensures
        sleep::finished(sleep::wakeup_turn(lp)).0.asked_by(
            sleep::finished(sleep::wakeup_turn(lp)).1,
        ),
{
    let fast = sleep::fast_ops(lp.config);
    let turn = sleep::wakeup_turn(lp);
    lemma_quiet(fast);
    if turn.0.wait is Nothing {
        lemma_quiet(turn.1);
        lemma_around(turn.1, fast, seq![]);
    } else {
        let read = seq![Op::Read(platform::status_register(lp.config.chip))];
        reveal_with_fuel(registers_read, 2);
        assert(registers_read(read) =~= seq![platform::status_register(lp.config.chip)]);
        if lp.config.chip is Wl5x {
            let lock = seq![Op::BlockingLock { sem: 3, process: 0 }];
            lemma_quiet(lock);
            lemma_around(lock, read, registers_read(read));
            assert(turn.1 =~= lock + read);
        } else {
            assert(turn.1 =~= read);
        }
    }
}

proof fn lemma_configured_asks(lp: LowPower)
    ensures
        sleep::configured_turn(lp).0.asked_by(sleep::configured_turn(lp).1),
{
    let flush = sleep::flush_ops(lp.config);
    lemma_quiet(flush);
    let turn = sleep::configured_turn(lp);
    if sleep::gates_gpios(lp.config) {
        lemma_stored_reads();
        lemma_ahead(turn.0, flush, gpio::stored_reads());
    } else {
        let woken = sleep::finished(sleep::wakeup_turn(lp));
        lemma_wakeup_asks(lp);
        lemma_quiet(sleep::wfi_ops());
        lemma_ahead(woken.0, sleep::wfi_ops(), woken.1);
        lemma_ahead(woken.0, flush, sleep::wfi_ops() + woken.1);
    }
}

proof fn lemma_then_configured_asks(turn: (LowPower, Seq<Op>))
    requires
        turn.0.asked_by(turn.1),
    ensures
        sleep::then_configured(turn).0.asked_by(sleep::then_configured(turn).1),
{
    if turn.0.wait is Nothing {
        lemma_configured_asks(turn.0);
        let next = sleep::configured_turn(turn.0);
        lemma_ahead(next.0, turn.1, next.1);
    }
}

/// The operations that end the configuration of the power controller ask nothing.
proof fn lemma_entry_quiet(config: Config, mode: StopMode)
    ensures
        asks_words(platform::select_ops(config, mode), seq![]),
        asks_words(sleep::entered_ops(config, mode), seq![]),
        asks_words(platform::hsi_ops(), seq![]),
        asks_words(platform::settled_ops(config, mode), seq![]),
        asks_words(sleep::refused_ops(), seq![]),
{
    lemma_quiet(platform::select_ops(config, mode));
    lemma_quiet(sleep::entered_ops(config, mode));
    lemma_quiet(platform::hsi_ops());
    lemma_quiet(sleep::refused_ops());
    let power = seq![
        Op::Modify(Edit::PwrClockOn),
        Op::Dsb,
        Op::Modify(Edit::SmpsBypass),
        Op::Delay(1000),
    ];
    let select = platform::select_ops(config, mode);
    let unlock = seq![Op::Unlock { sem: 3 }];
    lemma_quiet(power);
    lemma_quiet(unlock);
    lemma_around(power, select, seq![]);
    lemma_around(power + select, unlock, seq![]);
}

/// One operation, and a question after it.
proof fn lemma_asks_second(op: Op, question: Op)
    requires
        !is_question(op),
        !(op is Read),
    ensures
        asks(seq![op, question], question),
        asks(seq![question], question),
{
    lemma_quiet(seq![op]);
    lemma_quiet(seq![]);
    assert(seq![op, question].drop_last() =~= seq![op]);
    assert(seq![question].drop_last() =~= seq![]);
}

proof fn lemma_stop_mode_asks(lp: LowPower, mode: Option<StopMode>)
    ensures
        sleep::stop_mode_turn(lp, mode).0.asked_by(sleep::stop_mode_turn(lp, mode).1),
{
    lemma_quiet(sleep::low_power_sleep_ops());
    lemma_quiet(seq![]);
    lemma_asks_second(Op::Dsb, Op::PauseTime);
}

proof fn lemma_paused_asks(lp: LowPower, mode: StopMode, paused: bool)
    ensures
        sleep::paused_turn(lp, mode, paused).0.asked_by(sleep::paused_turn(lp, mode, paused).1),
{
    lemma_quiet(seq![Op::Log(Message::PauseFailed)]);
    lemma_asks_second(Op::Log(Message::TryingSem3), Op::PollLock { sem: 3, process: 0 });
    lemma_entry_quiet(lp.config, mode);
    lemma_around(
        platform::select_ops(lp.config, mode),
        sleep::entered_ops(lp.config, mode),
        seq![],
    );
}

proof fn lemma_sem3_asks(lp: LowPower, mode: StopMode, granted: bool)
    ensures
        sleep::sem3_turn(lp, mode, granted).0.asked_by(sleep::sem3_turn(lp, mode, granted).1),
{
    lemma_asks_second(Op::Log(Message::GotSem3), Op::TryLock { sem: 4, process: 0 });
    lemma_entry_quiet(lp.config, mode);
}

proof fn lemma_sem4_asks(lp: LowPower, mode: StopMode, granted: bool)
    ensures
        sleep::sem4_turn(lp, mode, granted).0.asked_by(sleep::sem4_turn(lp, mode, granted).1),
{
    if granted {
        let line = seq![Op::Log(Message::GotSem4)];
        let read = seq![Op::Read(Register::PwrExtscr)];
        lemma_quiet(line);
        reveal_with_fuel(registers_read, 2);
        assert(registers_read(read) =~= seq![Register::PwrExtscr]);
        lemma_around(line, read, seq![Register::PwrExtscr]);
        assert(platform::ask_cpu2_ops() =~= line + read);
    } else {
        let hsi = platform::hsi_ops();
        let settled = platform::settled_ops(lp.config, mode);
        lemma_entry_quiet(lp.config, mode);
        lemma_around(hsi, settled, seq![]);
        lemma_around(hsi + settled, sleep::entered_ops(lp.config, mode), seq![]);
    }
}

proof fn lemma_extscr_asks(lp: LowPower, mode: StopMode, extscr: u32)
    ensures
        sleep::extscr_turn(lp, mode, extscr).0.asked_by(sleep::extscr_turn(lp, mode, extscr).1),
{
    let unlock = seq![Op::Unlock { sem: 4 }];
    let hsi = if platform::cpu2_deep_sleep(extscr) {
        platform::hsi_ops()
    } else {
        seq![]
    };
    let settled = platform::settled_ops(lp.config, mode);
    lemma_quiet(unlock);
    lemma_quiet(hsi);
    lemma_entry_quiet(lp.config, mode);
    lemma_around(unlock, hsi, seq![]);
    lemma_around(unlock + hsi, settled, seq![]);
    lemma_around(unlock + hsi + settled, sleep::entered_ops(lp.config, mode), seq![]);
}

proof fn lemma_gpio_asks(lp: LowPower, words: Seq<u32>)
    ensures
        sleep::gpio_turn(lp, words).0.asked_by(sleep::gpio_turn(lp, words).1),
{
    let stored = lp.with_gpio(words);
    let woken = sleep::finished(sleep::wakeup_turn(stored));
    let off = gpio::disable_ops();
    let wfi = sleep::wfi_ops();
    let on = gpio::recover_ops(stored.gpio_contexts->0, stored.gpio_rcc_state->0);
    assert(asks_words(off, seq![])) by {
        reveal(gpio::disable_ops);
        lemma_quiet(off);
    }
    assert(asks_words(on, seq![])) by {
        reveal(gpio::recover_ops);
        lemma_quiet(on);
    }
    lemma_quiet(wfi);
    lemma_around(off, wfi, seq![]);
    lemma_around(off + wfi, on, seq![]);
    lemma_wakeup_asks(stored);
    lemma_ahead(woken.0, off + wfi + on, woken.1);
}

proof fn lemma_status_asks(lp: LowPower, status: u32)
    ensures
        sleep::finished(sleep::status_turn(lp, status)).0.asked_by(
            sleep::finished(sleep::status_turn(lp, status)).1,
        ),
{
    let rcc = platform::rcc_ops(lp.config.chip, status);
    let report = platform::report_ops(lp.config.chip, status);
    let flags = platform::clear_flags_ops(lp.config);
    let unlock = if lp.config.chip is Wl5x {
        seq![Op::Unlock { sem: 3 }]
    } else {
        seq![]
    };
    let timer = platform::timer_ops(lp.config, status);
    let resumed = sleep::resumed_ops();
    let fast = sleep::fast_ops(lp.config);
    lemma_quiet(rcc);
    lemma_quiet(report);
    lemma_quiet(flags);
    lemma_quiet(unlock);
    lemma_quiet(timer);
    lemma_quiet(resumed);
    lemma_quiet(fast);
    lemma_around(rcc, report, seq![]);
    lemma_around(rcc + report, flags, seq![]);
    lemma_around(rcc + report + flags, unlock, seq![]);
    lemma_around(rcc + report + flags + unlock, timer, seq![]);
    lemma_around(platform::status_ops(lp.config, status), resumed, seq![]);
    lemma_around(platform::status_ops(lp.config, status) + resumed, fast, seq![]);
}

/// The first batch of a sleep asks exactly what is waited for after it.
pub proof fn law_sleep_asks(lp: LowPower)
    ensures
        sleep::sleep_turn(lp).0.asked_by(sleep::sleep_turn(lp).1),
{
    let slow = sleep::slow_ops(lp.config);
    let clear = seq![Op::ClearSleepdeep];
    let flags = platform::clear_flags_ops(lp.config);
    let ask = seq![Op::CompilerFence, Op::GetStopMode];
    let turn = sleep::sleep_turn(lp);
    lemma_quiet(slow);
    lemma_quiet(clear);
    lemma_quiet(flags);
    lemma_asks_second(Op::CompilerFence, Op::GetStopMode);
    lemma_around(clear, flags, seq![]);
    lemma_ahead(turn.0, clear + flags, ask);
    lemma_ahead(turn.0, slow, clear + flags + ask);
}

/// Every later batch of a sleep asks exactly what is waited for after it, and the last batch asks
/// nothing.
pub proof fn law_resume_asks(lp: LowPower, reply: Reply)
    ensures
        sleep::resume_turn(lp, reply).0.asked_by(sleep::resume_turn(lp, reply).1),
{
    match lp.wait {
        Wait::Nothing => {
            lemma_quiet(seq![]);
        },
        Wait::StopMode => {
            lemma_stop_mode_asks(lp, reply->StopMode_0);
            lemma_then_configured_asks(sleep::stop_mode_turn(lp, reply->StopMode_0));
        },
        Wait::PauseTime(mode) => {
            lemma_paused_asks(lp, mode, reply->Success_0);
            lemma_then_configured_asks(sleep::paused_turn(lp, mode, reply->Success_0));
        },
        Wait::Sem3(mode) => {
            lemma_sem3_asks(lp, mode, reply->Success_0);
            lemma_then_configured_asks(sleep::sem3_turn(lp, mode, reply->Success_0));
        },
        Wait::Sem4(mode) => {
            lemma_sem4_asks(lp, mode, reply->Success_0);
            lemma_then_configured_asks(sleep::sem4_turn(lp, mode, reply->Success_0));
        },
        Wait::Extscr(mode) => {
            let word = sleep::words_of(reply)[0];
            lemma_extscr_asks(lp, mode, word);
            lemma_then_configured_asks(sleep::extscr_turn(lp, mode, word));
        },
        Wait::GpioContext => {
            lemma_gpio_asks(lp, sleep::words_of(reply));
        },
        Wait::Status => {
            lemma_status_asks(lp, sleep::words_of(reply)[0]);
        },
    }
}

/// From `turn` on, every batch is faithfully performed: `world` replies what performing it
/// reports.
pub open spec fn performed(turn: (LowPower, Seq<Op>), world: World) -> bool
    decreases turn.0.wait.rank(),
{
    turn.0.wait is Nothing || {
        proof {
            trace::law_sleep_progresses(turn.0, world(turn.0.wait));
        }
        &&& reported(turn.1, world(turn.0.wait))
        &&& performed(sleep::resume_turn(turn.0, world(turn.0.wait)), world)
    }
}

/// In the rest of the sleep from `lp` on, every reply of `world` is what is waited for.
pub open spec fn answers(lp: LowPower, world: World) -> bool
    decreases lp.wait.rank(),
{
    lp.wait is Nothing || {
        proof {
            trace::law_sleep_progresses(lp, world(lp.wait));
        }
        &&& lp.wait.answered_by(world(lp.wait))
        &&& answers(sleep::resume_turn(lp, world(lp.wait)).0, world)
    }
}

/// Where every batch of a sleep is faithfully performed, every reply is one that `resume` takes: a
/// sleep never gets stuck half way.
pub proof fn law_sleep_is_answered(lp: LowPower, world: World)
    requires
        performed(sleep::sleep_turn(lp), world),
    ensures
        answers(sleep::sleep_turn(lp).0, world),
{
    law_sleep_asks(lp);
    lemma_performed_answers(sleep::sleep_turn(lp), world);
}

proof fn lemma_performed_answers(turn: (LowPower, Seq<Op>), world: World)
    requires
        turn.0.asked_by(turn.1),
        performed(turn, world),
    ensures
        answers(turn.0, world),
    decreases turn.0.wait.rank(),
{
    if !(turn.0.wait is Nothing) {
        let reply = world(turn.0.wait);
        law_reported_is_answered(turn.0, turn.1, reply);
        law_resume_asks(turn.0, reply);
        trace::law_sleep_progresses(turn.0, reply);
        lemma_performed_answers(sleep::resume_turn(turn.0, reply), world);
    }
}

/// Only a reply that performing the batch can give is taken for the reply that is waited for, and
/// none at all when nothing is waited for.
pub proof fn law_answer_is_reported(lp: LowPower, ops: Seq<Op>, reply: Reply)
    requires
        lp.asked_by(ops),
        lp.wait.answered_by(reply),
    ensures
        !(lp.wait is Nothing),
        reported(ops, reply),
{
    match lp.wait {
        Wait::Extscr(_) | Wait::Status => {
            lemma_last_no_question(ops);
        },
        Wait::GpioContext => {
            lemma_last_no_question(ops);
            lemma_stored_reads();
        },
        _ => {},
    }
}

/// The stop status word is the one that the chip keeps its stop flags in: PWR_CSR on STM32L0, PWR_SR
/// on STM32WBA, PWR_EXTSCR on STM32WB and STM32WL. No other chip is asked for one.
pub proof fn law_status_asked(lp: LowPower, ops: Seq<Op>)
    requires
        lp.wf(),
        lp.wait is Status,
        lp.asked_by(ops),
    ensures
        match lp.config.chip {
            Chip::L0 => registers_read(ops) == seq![Register::PwrCsr],
            Chip::Wba => registers_read(ops) == seq![Register::PwrSr],
            Chip::Wb | Chip::Wl5x | Chip::Wlex => registers_read(ops) == seq![Register::PwrExtscr],
            _ => false,
        },
{
}

} // verus!
