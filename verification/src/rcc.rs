//! Peripheral clocks: saved, gated, and restored.
use vstd::prelude::*;
use crate::op::Op;
use crate::register::Register;
use crate::state::LowPower;

verus! {

/// How many words are read to save the peripheral clocks.
pub const RCC_WORDS: usize = 3;

/// The reads that save the peripheral clocks.
pub open spec fn rcc_reads() -> Seq<Op> {
    seq![
        Op::Read(Register::RccAhbenr),
        Op::Read(Register::RccApb1enr),
        Op::Read(Register::RccApb2enr),
    ]
}

/// The reads whose words `_store_rcc_state` takes.
pub fn rcc_reads_ops() -> (r: Vec<Op>)
    ensures
        r@ == rcc_reads(),
{
    vec![
        Op::Read(Register::RccAhbenr),
        Op::Read(Register::RccApb1enr),
        Op::Read(Register::RccApb2enr),
    ]
}

/// Keeps the peripheral clocks in `lp`.
pub fn _store_rcc_state(lp: &mut LowPower, words: &Vec<u32>)
    requires
        words.len() == RCC_WORDS,
    ensures
        *final(lp) == old(lp).with_rcc(words@),
{
    lp.rcc_ahbenr_state = Some(words[0]);
    lp.rcc_apb1enr_state = Some(words[1]);
    lp.rcc_apb2enr_state = Some(words[2]);
}

/// The writes that set the peripheral clocks.
pub open spec fn rcc_writes(ahbenr: u32, apb1enr: u32, apb2enr: u32) -> Seq<Op> {
    seq![
        Op::Write(Register::RccAhbenr, ahbenr),
        Op::Write(Register::RccApb1enr, apb1enr),
        Op::Write(Register::RccApb2enr, apb2enr),
    ]
}

/// Gates every peripheral on the AHB and APB buses.
pub fn _gate_all_peripherals() -> (r: Vec<Op>)
    ensures
        r@ == rcc_writes(0, 0, 0),
{
    vec![
        Op::Write(Register::RccAhbenr, 0),
        Op::Write(Register::RccApb1enr, 0),
        Op::Write(Register::RccApb2enr, 0),
    ]
}

/// Writes the saved peripheral clocks back.
pub fn _restore_rcc_state(lp: &LowPower) -> (r: Vec<Op>)
    requires
        lp.rcc_ahbenr_state is Some,
        lp.rcc_apb1enr_state is Some,
        lp.rcc_apb2enr_state is Some,
    ensures
        r@ == rcc_writes(
            lp.rcc_ahbenr_state->0,
            lp.rcc_apb1enr_state->0,
            lp.rcc_apb2enr_state->0,
        ),
{
    vec![
        Op::Write(Register::RccAhbenr, lp.rcc_ahbenr_state.unwrap()),
        Op::Write(Register::RccApb1enr, lp.rcc_apb1enr_state.unwrap()),
        Op::Write(Register::RccApb2enr, lp.rcc_apb2enr_state.unwrap()),
    ]
}

} // verus!
