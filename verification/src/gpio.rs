//! GPIO ports across a sleep: saved, turned to analog, and written back.
use vstd::prelude::*;
use crate::op::Op;
use crate::pac;
use crate::register::{GpioRegister, Port, Register};
use crate::state::LowPower;

verus! {

/// How many registers of a port are saved.
pub const CONTEXT_WORDS: usize = 8;

/// How many words are read to save every port and the port clocks.
pub const STORED_WORDS: usize = 49;

/// The configuration of one port.
#[derive(Clone, Copy, Debug, PartialEq, Eq, Structural)]
pub struct GpioContext {
    pub moder: u32,
    pub otyper: u32,
    pub ospeedr: u32,
    pub pupdr: u32,
    pub odr: u32,
    pub lckr: u32,
    pub afrl: u32,
    pub afrh: u32,
}

/// The register that is saved as word `i` of a context.
pub open spec fn context_register(i: int) -> GpioRegister {
    if i == 0 {
        GpioRegister::Moder
    } else if i == 1 {
        GpioRegister::Otyper
    } else if i == 2 {
        GpioRegister::Ospeedr
    } else if i == 3 {
        GpioRegister::Pupdr
    } else if i == 4 {
        GpioRegister::Odr
    } else if i == 5 {
        GpioRegister::Lckr
    } else if i == 6 {
        GpioRegister::Afrl
    } else {
        GpioRegister::Afrh
    }
}

/// The reads that make up a context of `port`.
pub open spec fn context_reads(port: Port) -> Seq<Op> {
    Seq::new(8, |i: int| Op::Read(Register::Gpio(port, context_register(i))))
}

/// The reads whose words `GpioContext::from_peripheral` takes.
pub fn context_reads_of(port: Port) -> (r: Vec<Op>)
    ensures
        r@ == context_reads(port),
{
    let r = vec![
        Op::Read(Register::Gpio(port, GpioRegister::Moder)),
        Op::Read(Register::Gpio(port, GpioRegister::Otyper)),
        Op::Read(Register::Gpio(port, GpioRegister::Ospeedr)),
        Op::Read(Register::Gpio(port, GpioRegister::Pupdr)),
        Op::Read(Register::Gpio(port, GpioRegister::Odr)),
        Op::Read(Register::Gpio(port, GpioRegister::Lckr)),
        Op::Read(Register::Gpio(port, GpioRegister::Afrl)),
        Op::Read(Register::Gpio(port, GpioRegister::Afrh)),
    ];
    r
}

impl GpioContext {
    /// The saved word of a register.
    pub open spec fn word(self, register: GpioRegister) -> u32 {
        match register {
            GpioRegister::Moder => self.moder,
            GpioRegister::Otyper => self.otyper,
            GpioRegister::Ospeedr => self.ospeedr,
            GpioRegister::Pupdr => self.pupdr,
            GpioRegister::Odr => self.odr,
            GpioRegister::Lckr => self.lckr,
            GpioRegister::Afrl => self.afrl,
            GpioRegister::Afrh => self.afrh,
        }
    }

    /// The context whose words stand in `words` from `at` on.
    pub open spec fn at(words: Seq<u32>, at: int) -> GpioContext {
        GpioContext {
            moder: words[at],
            otyper: words[at + 1],
            ospeedr: words[at + 2],
            pupdr: words[at + 3],
            odr: words[at + 4],
            lckr: words[at + 5],
            afrl: words[at + 6],
            afrh: words[at + 7],
        }
    }

    /// The writes that restore the context to `port`.
    pub open spec fn writes(self, port: Port) -> Seq<Op> {
        Seq::new(
            8,
            |i: int|
                Op::Write(Register::Gpio(port, context_register(i)), self.word(context_register(i))),
        )
    }

    /// Takes the words of one port out of `words`, from `at` on, in the order of
    /// `context_reads_of`.
    pub fn from_peripheral(words: &Vec<u32>, at: usize) -> (r: GpioContext)
        requires
            at + CONTEXT_WORDS <= words.len(),
        ensures
            r == GpioContext::at(words@, at as int),
    {
        GpioContext {
            moder: words[at],
            otyper: words[at + 1],
            ospeedr: words[at + 2],
            pupdr: words[at + 3],
            odr: words[at + 4],
            lckr: words[at + 5],
            afrl: words[at + 6],
            afrh: words[at + 7],
        }
    }

    /// Writes the context back to `port`.
    pub fn into_peripheral(&self, port: Port) -> (r: Vec<Op>)
        ensures
            r@ == self.writes(port),
    {
        let r = vec![
            Op::Write(Register::Gpio(port, GpioRegister::Moder), self.moder),
            Op::Write(Register::Gpio(port, GpioRegister::Otyper), self.otyper),
            Op::Write(Register::Gpio(port, GpioRegister::Ospeedr), self.ospeedr),
            Op::Write(Register::Gpio(port, GpioRegister::Pupdr), self.pupdr),
            Op::Write(Register::Gpio(port, GpioRegister::Odr), self.odr),
            Op::Write(Register::Gpio(port, GpioRegister::Lckr), self.lckr),
            Op::Write(Register::Gpio(port, GpioRegister::Afrl), self.afrl),
            Op::Write(Register::Gpio(port, GpioRegister::Afrh), self.afrh),
        ];
        r
    }

    /// A context of zeros.
    pub fn new() -> (r: GpioContext)
        ensures
            forall|register: GpioRegister| r.word(register) == 0,
            r == (GpioContext {
                moder: 0,
                otyper: 0,
                ospeedr: 0,
                pupdr: 0,
                odr: 0,
                lckr: 0,
                afrl: 0,
                afrh: 0,
            }),
    {
        GpioContext {
            moder: 0,
            otyper: 0,
            ospeedr: 0,
            pupdr: 0,
            odr: 0,
            lckr: 0,
            afrl: 0,
            afrh: 0,
        }
    }
}

/// The configuration of every port.
#[derive(Clone, Copy, Debug, PartialEq, Eq, Structural)]
pub struct GpioContexts {
    pub a: GpioContext,
    pub b: GpioContext,
    pub c: GpioContext,
    pub d: GpioContext,
    pub e: GpioContext,
    pub h: GpioContext,
}

impl GpioContexts {
    /// The saved context of a port.
    pub open spec fn of(self, port: Port) -> GpioContext {
        match port {
            Port::A => self.a,
            Port::B => self.b,
            Port::C => self.c,
            Port::D => self.d,
            Port::E => self.e,
            Port::H => self.h,
        }
    }

    /// The contexts whose words are `words`, port after port.
    pub open spec fn from_words(words: Seq<u32>) -> GpioContexts {
        GpioContexts {
            a: GpioContext::at(words, 0),
            b: GpioContext::at(words, 8),
            c: GpioContext::at(words, 16),
            d: GpioContext::at(words, 24),
            e: GpioContext::at(words, 32),
            h: GpioContext::at(words, 40),
        }
    }
}

/// The reads that save every port and the port clocks.
#[verifier::opaque]
pub open spec fn stored_reads() -> Seq<Op> {
    context_reads(Port::A) + context_reads(Port::B) + context_reads(Port::C) + context_reads(
        Port::D,
    ) + context_reads(Port::E) + context_reads(Port::H) + seq![Op::Read(Register::RccGpioenr)]
}

/// The reads whose words `_store_gpio_context` takes: eight of each port, then the port clocks.
pub fn stored_reads_ops() -> (r: Vec<Op>)
    ensures
        r@ == stored_reads(),
        r@.len() == STORED_WORDS,
{
    reveal(stored_reads);
    let mut r = context_reads_of(Port::A);
    r.append(&mut context_reads_of(Port::B));
    r.append(&mut context_reads_of(Port::C));
    r.append(&mut context_reads_of(Port::D));
    r.append(&mut context_reads_of(Port::E));
    r.append(&mut context_reads_of(Port::H));
    r.push(Op::Read(Register::RccGpioenr));
    r
}

/// Keeps the configuration of every port, and the port clocks, in `lp`.
pub fn _store_gpio_context(lp: &mut LowPower, words: &Vec<u32>)
    requires
        words.len() == STORED_WORDS,
    ensures
        *final(lp) == old(lp).with_gpio(words@),
{
    let contexts = GpioContexts {
        a: GpioContext::from_peripheral(words, 0),
        b: GpioContext::from_peripheral(words, 8),
        c: GpioContext::from_peripheral(words, 16),
        d: GpioContext::from_peripheral(words, 24),
        e: GpioContext::from_peripheral(words, 32),
        h: GpioContext::from_peripheral(words, 40),
    };
    lp.gpio_contexts = Some(contexts);
    lp.gpio_rcc_state = Some(words[48]);
}

/// The writes that restore `contexts`, and `clocks` as the port clocks: all ports are clocked for
/// them, so that they take effect, and the port clocks come last.
#[verifier::opaque]
pub open spec fn recover_ops(contexts: GpioContexts, clocks: u32) -> Seq<Op> {
    seq![Op::Write(Register::RccGpioenr, ALL_PORT_CLOCKS)] + contexts.a.writes(Port::A)
        + contexts.b.writes(Port::B) + contexts.c.writes(Port::C) + contexts.d.writes(Port::D)
        + contexts.e.writes(Port::E) + contexts.h.writes(Port::H) + seq![
        Op::Write(Register::RccGpioenr, clocks),
    ]
}

/// Writes the saved configuration of every port back, and then the saved port clocks.
pub fn _recover_gpio_context(lp: &LowPower) -> (r: Vec<Op>)
    requires
        lp.gpio_contexts is Some,
        lp.gpio_rcc_state is Some,
    ensures
        r@ == recover_ops(lp.gpio_contexts->0, lp.gpio_rcc_state->0),
{
    reveal(recover_ops);
    let context = lp.gpio_contexts.unwrap();
    let rcc_gpioenr = lp.gpio_rcc_state.unwrap();
    let mut r = vec![Op::Write(Register::RccGpioenr, port_clocks(true))];
    r.append(&mut context.a.into_peripheral(Port::A));
    r.append(&mut context.b.into_peripheral(Port::B));
    r.append(&mut context.c.into_peripheral(Port::C));
    r.append(&mut context.d.into_peripheral(Port::D));
    r.append(&mut context.e.into_peripheral(Port::E));
    r.append(&mut context.h.into_peripheral(Port::H));
    r.push(Op::Write(Register::RccGpioenr, rcc_gpioenr));
    r
}

/// The writes that make every pin of `port` analog, without pull resistors.
pub open spec fn analog_ops(port: Port) -> Seq<Op> {
    seq![
        Op::Write(Register::Gpio(port, GpioRegister::Moder), 0xffff_ffff),
        Op::Write(Register::Gpio(port, GpioRegister::Pupdr), 0),
    ]
}

/// Makes every pin of `port` analog and floating.
pub fn _gpio_to_analog(port: Port) -> (r: Vec<Op>)
    ensures
        r@ == analog_ops(port),
{
    vec![
        Op::Write(Register::Gpio(port, GpioRegister::Moder), 0xffff_ffff),
        Op::Write(Register::Gpio(port, GpioRegister::Pupdr), 0),
    ]
}

/// The clock enables of all six ports.
pub const ALL_PORT_CLOCKS: u32 = 0x9f;

/// The clock enables of the ports, with those of all six ports set to `on`.
fn port_clocks(on: bool) -> (r: u32)
    ensures
        r == if on { ALL_PORT_CLOCKS } else { 0u32 },
{
    let w0 = pac::gpioenr_default();
    let w1 = pac::gpioenr_set_gpioaen(w0, on);
    let w2 = pac::gpioenr_set_gpioben(w1, on);
    let w3 = pac::gpioenr_set_gpiocen(w2, on);
    let w4 = pac::gpioenr_set_gpioden(w3, on);
    let w5 = pac::gpioenr_set_gpioeen(w4, on);
    let r = pac::gpioenr_set_gpiohen(w5, on);
    proof {
        assert(0u32 | (1u32 << 0) | (1u32 << 1) | (1u32 << 2) | (1u32 << 3) | (1u32 << 4) | (1u32
            << 7) == 0x9fu32) by (bit_vector);
        assert(0u32 & !(1u32 << 0) & !(1u32 << 1) & !(1u32 << 2) & !(1u32 << 3) & !(1u32 << 4)
            & !(1u32 << 7) == 0u32) by (bit_vector);
    }
    r
}

/// The writes that turn every port to analog: all ports are clocked for them, so that they take
/// effect, and gated after them.
#[verifier::opaque]
pub open spec fn disable_ops() -> Seq<Op> {
    seq![Op::Write(Register::RccGpioenr, ALL_PORT_CLOCKS)] + analog_ops(Port::A) + analog_ops(
        Port::B,
    ) + analog_ops(Port::C) + analog_ops(Port::D) + analog_ops(Port::E) + analog_ops(Port::H)
        + seq![Op::Write(Register::RccGpioenr, 0)]
}

/// Makes every pin of every port analog and floating, and gates the ports.
pub fn _disable_all_gpios() -> (r: Vec<Op>)
    ensures
        r@ == disable_ops(),
{
    reveal(disable_ops);
    let mut r = vec![Op::Write(Register::RccGpioenr, port_clocks(true))];
    r.append(&mut _gpio_to_analog(Port::A));
    r.append(&mut _gpio_to_analog(Port::B));
    r.append(&mut _gpio_to_analog(Port::C));
    r.append(&mut _gpio_to_analog(Port::D));
    r.append(&mut _gpio_to_analog(Port::E));
    r.append(&mut _gpio_to_analog(Port::H));
    r.push(Op::Write(Register::RccGpioenr, port_clocks(false)));
    r
}

} // verus!
