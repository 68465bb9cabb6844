//! What low-power code remembers between operations.
use vstd::prelude::*;
use crate::chip::{Config, StopMode};
use crate::gpio::GpioContexts;
use crate::op::Reply;

verus! {

/// What a sleep waits to be told before it goes on.
#[derive(Clone, Copy, Debug, PartialEq, Eq, Structural)]
pub enum Wait {
    /// No sleep is under way.
    Nothing,
    /// The deepest stop mode that is permitted.
    StopMode,
    /// Whether time was paused.
    PauseTime(StopMode),
    /// Whether semaphore 3 was granted.
    Sem3(StopMode),
    /// Whether semaphore 4 was granted.
    Sem4(StopMode),
    /// The status word that tells whether CPU2 is in deep sleep.
    Extscr(StopMode),
    /// The configuration of the ports.
    GpioContext,
    /// The stop status word.
    Status,
}

impl Wait {
    /// `reply` is what is waited for.
    pub open spec fn answered_by(self, reply: Reply) -> bool {
        match self {
            Wait::Nothing => false,
            Wait::StopMode => reply is StopMode,
            Wait::PauseTime(_) | Wait::Sem3(_) | Wait::Sem4(_) => reply is Success,
            Wait::Extscr(_) | Wait::Status => reply matches Reply::Words(words) && words@.len() == 1,
            Wait::GpioContext => reply matches Reply::Words(words) && words@.len()
                == crate::gpio::STORED_WORDS,
        }
    }

    /// Whether `reply` is what is waited for.
    pub fn accepts(&self, reply: &Reply) -> (r: bool)
        ensures
            r == self.answered_by(*reply),
    {
        match self {
            Wait::Nothing => false,
            Wait::StopMode => matches!(reply, Reply::StopMode(_)),
            Wait::PauseTime(_) | Wait::Sem3(_) | Wait::Sem4(_) => matches!(reply, Reply::Success(_)),
            Wait::Extscr(_) | Wait::Status => match reply {
                Reply::Words(words) => words.len() == 1,
                _ => false,
            },
            Wait::GpioContext => match reply {
                Reply::Words(words) => words.len() == crate::gpio::STORED_WORDS,
                _ => false,
            },
        }
    }
}

/// The memory of the low-power code.
#[derive(Clone, Copy, Debug, PartialEq, Eq, Structural)]
pub struct LowPower {
    pub config: Config,
    /// Stop mode has been entered and not yet left.
    pub stop_entered: bool,
    pub gpio_contexts: Option<GpioContexts>,
    pub gpio_rcc_state: Option<u32>,
    pub rcc_ahbenr_state: Option<u32>,
    pub rcc_apb1enr_state: Option<u32>,
    pub rcc_apb2enr_state: Option<u32>,
    pub wait: Wait,
}

impl LowPower {
    /// Nothing is stored and no sleep is under way.
    pub open spec fn fresh(config: Config) -> LowPower {
        LowPower {
            config,
            stop_entered: false,
            gpio_contexts: None,
            gpio_rcc_state: None,
            rcc_ahbenr_state: None,
            rcc_apb1enr_state: None,
            rcc_apb2enr_state: None,
            wait: Wait::Nothing,
        }
    }

    /// The ports' configuration taken from the words of `gpio::stored_reads`.
    pub open spec fn with_gpio(self, words: Seq<u32>) -> LowPower {
        LowPower {
            gpio_contexts: Some(GpioContexts::from_words(words)),
            gpio_rcc_state: Some(words[48]),
            ..self
        }
    }

    /// The peripheral clocks taken from the words of `rcc::rcc_reads`.
    pub open spec fn with_rcc(self, words: Seq<u32>) -> LowPower {
        LowPower {
            rcc_ahbenr_state: Some(words[0]),
            rcc_apb1enr_state: Some(words[1]),
            rcc_apb2enr_state: Some(words[2]),
            ..self
        }
    }

    /// The same memory, waiting for `wait`.
    pub open spec fn waiting(self, wait: Wait) -> LowPower {
        LowPower { wait, ..self }
    }

    /// The same memory, with the stop flag at `stop_entered`.
    pub open spec fn stopped(self, stop_entered: bool) -> LowPower {
        LowPower { stop_entered, ..self }
    }

    /// The stop flag and the chip agree with what is waited for. In particular the stop flag is
    /// down when no sleep is under way.
    pub open spec fn wf(self) -> bool {
        match self.wait {
            Wait::Nothing | Wait::StopMode | Wait::PauseTime(_) => !self.stop_entered,
            Wait::Sem3(_) | Wait::Sem4(_) | Wait::Extscr(_) => !self.stop_entered
                && self.config.chip is Wb,
            Wait::GpioContext => self.config.no_gpios_while_stop && self.config.chip is L0,
            Wait::Status => self.stop_entered && self.config.chip.has_stop_status(),
        }
    }

    /// Nothing stored, no sleep under way.
    pub fn new(config: Config) -> (r: LowPower)
        ensures
            r == LowPower::fresh(config),
            r.wf(),
            r.config == config,
            !r.stop_entered,
            r.gpio_contexts is None,
            r.gpio_rcc_state is None,
            r.rcc_ahbenr_state is None,
            r.rcc_apb1enr_state is None,
            r.rcc_apb2enr_state is None,
            r.wait is Nothing,
    {
        LowPower {
            config,
            stop_entered: false,
            gpio_contexts: None,
            gpio_rcc_state: None,
            rcc_ahbenr_state: None,
            rcc_apb1enr_state: None,
            rcc_apb2enr_state: None,
            wait: Wait::Nothing,
        }
    }
}

} // verus!
