//! What low-power code asks of the hardware, and what it learns back.
use vstd::prelude::*;
use crate::chip::StopMode;
use crate::register::{Condition, Edit, Register};

verus! {

/// A line for the log.
#[derive(Clone, Copy, Debug, PartialEq, Eq, Structural)]
pub enum Message {
    TryingSem3,
    GotSem3,
    GotSem4,
    /// Time could not be paused, so stop mode is not entered.
    PauseFailed,
    EnterStopFailed,
    /// Stop mode is being entered; the mode is named except on STM32L0.
    EnterStop(Option<StopMode>),
    LowPowerSleep,
    Resumed,
    ReinitTimer,
    /// STM32L0 has been in stop mode.
    L0Stopped,
    WbaWokeFromStop2,
    WbaWokeFromStop01,
    Cpu1Stop1,
    Cpu1Stop2,
    Cpu1Stop1And2,
    Cpu1NotStopped,
    Cpu2Stop1,
    Cpu2Stop2,
    Cpu2Stop1And2,
    Cpu2NotStopped,
    /// STM32WB: CPU1 alone has been in stop mode.
    WbCpu1Stopped,
    WbCpu2Stopped,
    WbBothStopped,
    WbNotStopped,
}

/// One operation of the hardware or of another driver.
#[derive(Clone, Copy, Debug, PartialEq, Eq, Structural)]
pub enum Op {
    /// Read a register and report the word.
    Read(Register),
    /// Write a word to a register.
    Write(Register, u32),
    /// Read a register, change the word, and write it back.
    Modify(Edit),
    /// Read a register until the condition holds.
    WaitUntil(Condition),
    /// Clear SLEEPDEEP in the system control block.
    ClearSleepdeep,
    /// Set SLEEPDEEP in the system control block.
    SetSleepdeep,
    /// Compiler fence with acquire ordering.
    CompilerFence,
    /// Data synchronization barrier.
    Dsb,
    /// Wait for interrupt.
    Wfi,
    /// Instruction synchronization barrier.
    Isb,
    /// Spin for a number of cycles.
    Delay(u32),
    /// Ask the clock driver for the deepest stop mode that running peripherals permit, and
    /// report it.
    GetStopMode,
    /// Ask the clock driver to set the clock tree up again as it was saved.
    ReinitRcc,
    /// Ask the clock driver for the slow clocks of low-power sleep.
    GearshiftSlow,
    /// Ask the clock driver for the normal clocks.
    GearshiftFast,
    /// Ask the time driver to pause, and report whether it did.
    PauseTime,
    /// Ask the time driver to resume.
    ResumeTime,
    /// Ask the time driver to set its timer up again.
    InitTimer,
    /// Poll the lock of a hardware semaphore once, and report whether it was granted.
    PollLock { sem: u8, process: u8 },
    /// Try to lock a hardware semaphore, and report whether it was granted.
    TryLock { sem: u8, process: u8 },
    /// Lock a hardware semaphore, however long it takes.
    BlockingLock { sem: u8, process: u8 },
    /// Release a hardware semaphore.
    Unlock { sem: u8 },
    /// Write a line to the log.
    Log(Message),
    /// Flush the log.
    FlushLog,
    /// Stay here for good, for a debugger to look around.
    Spin,
}

/// What the operations of a batch reported.
#[derive(Clone, Debug, PartialEq, Eq)]
pub enum Reply {
    /// To a batch that ends in `GetStopMode`.
    StopMode(Option<StopMode>),
    /// To a batch that ends in `PauseTime`, `PollLock` or `TryLock`.
    Success(bool),
    /// To a batch with reads: the words, in the order of the reads.
    Words(Vec<u32>),
}

/// A write to `register` takes effect: a port ignores what is written to it while it is gated.
pub open spec fn takes_writes(regs: Map<Register, u32>, register: Register) -> bool {
    match register {
        Register::Gpio(port, _) => port.clocked(regs[Register::RccGpioenr]),
        _ => true,
    }
}

/// The registers after `op`, where each register holds what was last written to it, gated ports
/// aside.
///
/// Left out are the bits that the hardware changes by itself, and what a gated port reports when it
/// is read.
pub open spec fn effect(regs: Map<Register, u32>, op: Op) -> Map<Register, u32> {
    match op {
        Op::Write(register, word) => if takes_writes(regs, register) {
            regs.insert(register, word)
        } else {
            regs
        },
        Op::Modify(edit) => regs.insert(edit.target(), edit.applied(regs[edit.target()])),
        _ => regs,
    }
}

/// The registers after all of `ops`, in their order.
pub open spec fn effects(regs: Map<Register, u32>, ops: Seq<Op>) -> Map<Register, u32>
    decreases ops.len(),
{
    if ops.len() == 0 {
        regs
    } else {
        effect(effects(regs, ops.drop_last()), ops.last())
    }
}

/// The words that the reads among `ops` report, in their order, when the registers start as
/// `regs`.
pub open spec fn words_read(regs: Map<Register, u32>, ops: Seq<Op>) -> Seq<u32>
    decreases ops.len(),
{
    if ops.len() == 0 {
        seq![]
    } else {
        let before = words_read(regs, ops.drop_last());
        match ops.last() {
            Op::Read(register) => before.push(effects(regs, ops.drop_last())[register]),
            _ => before,
        }
    }
}

/// How often `op` stands in `ops`.
pub open spec fn count(ops: Seq<Op>, op: Op) -> nat
    decreases ops.len(),
{
    if ops.len() == 0 {
        0
    } else {
        count(ops.drop_last(), op) + if ops.last() == op {
            1nat
        } else {
            0
        }
    }
}

/// Operations that follow one another add up.
pub proof fn lemma_count_add(a: Seq<Op>, b: Seq<Op>, op: Op)
    ensures
        count(a + b, op) == count(a, op) + count(b, op),
    decreases b.len(),
{
    if b.len() == 0 {
        assert(a + b =~= a);
    } else {
        assert((a + b).drop_last() =~= a + b.drop_last());
        lemma_count_add(a, b.drop_last(), op);
    }
}

/// What stands nowhere counts nothing.
pub proof fn lemma_count_none(ops: Seq<Op>, op: Op)
    requires
        forall|i: int| 0 <= i < ops.len() ==> ops[i] != op,
    ensures
        count(ops, op) == 0,
    decreases ops.len(),
{
    if ops.len() > 0 {
        lemma_count_none(ops.drop_last(), op);
    }
}

/// What stands somewhere counts.
pub proof fn lemma_count_some(ops: Seq<Op>, i: int)
    requires
        0 <= i < ops.len(),
    ensures
        count(ops, ops[i]) >= 1,
    decreases ops.len(),
{
    if i < ops.len() - 1 {
        lemma_count_some(ops.drop_last(), i);
    }
}

/// What counts one stands in one place.
pub proof fn lemma_count_unique(ops: Seq<Op>, i: int, j: int)
    requires
        0 <= i < ops.len(),
        0 <= j < ops.len(),
        ops[i] == ops[j],
        count(ops, ops[i]) == 1,
    ensures
        i == j,
{
    if i < j {
        lemma_count_twice(ops, i, j);
    } else if j < i {
        lemma_count_twice(ops, j, i);
    }
}

proof fn lemma_count_twice(ops: Seq<Op>, i: int, j: int)
    requires
        0 <= i < j < ops.len(),
        ops[i] == ops[j],
    ensures
        count(ops, ops[i]) >= 2,
{
    let a = ops.take(j);
    let b = ops.skip(j);
    assert(ops =~= a + b);
    lemma_count_add(a, b, ops[i]);
    lemma_count_some(a, i);
    assert(b[0] == ops[i]);
    lemma_count_some(b, 0);
}

/// Effects follow one another.
pub proof fn lemma_effects_add(regs: Map<Register, u32>, a: Seq<Op>, b: Seq<Op>)
    ensures
        effects(regs, a + b) == effects(effects(regs, a), b),
    decreases b.len(),
{
    if b.len() == 0 {
        assert(a + b =~= a);
    } else {
        assert((a + b).drop_last() =~= a + b.drop_last());
        lemma_effects_add(regs, a, b.drop_last());
    }
}

/// Reads change nothing, and report what the registers hold.
pub proof fn lemma_reads(regs: Map<Register, u32>, ops: Seq<Op>)
    requires
        forall|i: int| 0 <= i < ops.len() ==> ops[i] is Read,
    ensures
        effects(regs, ops) == regs,
        words_read(regs, ops).len() == ops.len(),
        forall|i: int|
            0 <= i < ops.len() ==> #[trigger] words_read(regs, ops)[i] == regs[ops[i]->Read_0],
    decreases ops.len(),
{
    if ops.len() > 0 {
        lemma_reads(regs, ops.drop_last());
    }
}

/// `op` writes to `register`.
pub open spec fn writes_to(op: Op, register: Register) -> bool {
    match op {
        Op::Write(written, _) => written == register,
        Op::Modify(edit) => edit.target() == register,
        _ => false,
    }
}

/// A register that nothing writes to keeps its word.
pub proof fn lemma_unwritten(regs: Map<Register, u32>, ops: Seq<Op>, register: Register)
    requires
        forall|i: int| 0 <= i < ops.len() ==> !writes_to(#[trigger] ops[i], register),
    ensures
        effects(regs, ops)[register] == regs[register],
    decreases ops.len(),
{
    if ops.len() > 0 {
        assert(!writes_to(ops[ops.len() - 1], register));
        assert forall|i: int| 0 <= i < ops.drop_last().len() implies !writes_to(
            #[trigger] ops.drop_last()[i],
            register,
        ) by {
            assert(!writes_to(ops[i], register));
        }
        lemma_unwritten(regs, ops.drop_last(), register);
    }
}

/// `op` writes to no register.
pub open spec fn is_silent(op: Op) -> bool {
    !(op is Write) && !(op is Modify)
}

/// Operations that write nothing leave every register as it is.
pub proof fn lemma_silent(regs: Map<Register, u32>, ops: Seq<Op>)
    requires
        forall|i: int| 0 <= i < ops.len() ==> is_silent(#[trigger] ops[i]),
    ensures
        effects(regs, ops) == regs,
    decreases ops.len(),
{
    if ops.len() > 0 {
        assert(is_silent(ops[ops.len() - 1]));
        assert forall|i: int| 0 <= i < ops.drop_last().len() implies is_silent(
            #[trigger] ops.drop_last()[i],
        ) by {
            assert(is_silent(ops[i]));
        }
        lemma_silent(regs, ops.drop_last());
    }
}

} // verus!
