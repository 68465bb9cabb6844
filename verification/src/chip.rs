//! The chip family, the build options and the stop modes.
use vstd::prelude::*;

verus! {

/// The chip families that the low-power code tells apart.
#[derive(Clone, Copy, Debug, PartialEq, Eq, Structural)]
pub enum Chip {
    L0,
    L4,
    L5,
    U0,
    U3,
    U5,
    H5,
    Wb,
    Wba,
    /// STM32WL5x: two cores.
    Wl5x,
    /// STM32WLEx: one core.
    Wlex,
    /// Any family that needs nothing of its own to stop.
    Other,
}

impl Chip {
    /// STM32WL, with one core or two.
    pub open spec fn is_wl(self) -> bool {
        self is Wl5x || self is Wlex
    }

    /// The family selects its stop mode in an `LPMS` field of three bits.
    pub open spec fn has_lpms(self) -> bool {
        match self {
            Chip::L4 | Chip::L5 | Chip::U5 | Chip::U3 | Chip::U0 | Chip::Wb | Chip::Wba
            | Chip::Wl5x | Chip::Wlex => true,
            _ => false,
        }
    }

    /// The family has a status word to look at when it leaves stop mode.
    pub open spec fn has_stop_status(self) -> bool {
        match self {
            Chip::L0 | Chip::Wl5x | Chip::Wlex | Chip::Wb | Chip::Wba => true,
            _ => false,
        }
    }
}

/// What a build selects: the chip and the options of the low-power code.
#[derive(Clone, Copy, Debug, PartialEq, Eq, Structural)]
pub struct Config {
    pub chip: Chip,
    /// The code runs on the Cortex-M0+ core of a dual-core chip.
    pub core_cm0p: bool,
    /// Time is kept by the low-power timer, which survives stop mode.
    pub lp_time_driver: bool,
    /// On STM32L0: turn every pin to analog and gate the ports while asleep.
    pub no_gpios_while_stop: bool,
    /// Where no stop mode is possible, use low-power sleep, with slower clocks.
    pub use_low_power_sleep: bool,
    /// Never set SLEEPDEEP, so that a debugger stays attached.
    pub debug_with_sleep: bool,
    /// Flush the log before sleeping.
    pub defmt_flush: bool,
}

/// How deep a stop the clock tree permits.
#[derive(Clone, Copy, Debug, PartialEq, Eq, Structural)]
pub enum StopMode {
    Stop1,
    Stop2,
    Standby,
}

/// A value of the `LPMS` field.
#[derive(Clone, Copy, Debug, PartialEq, Eq, Structural)]
pub enum Lpms {
    Stop0,
    Stop1,
    Stop2,
}

impl Lpms {
    /// The field's encoding.
    pub open spec fn encoding(self) -> u32 {
        match self {
            Lpms::Stop0 => 0,
            Lpms::Stop1 => 1,
            Lpms::Stop2 => 2,
        }
    }

    /// The field's encoding.
    pub fn bits(self) -> (r: u32)
        ensures
            r == self.encoding(),
    {
        match self {
            Lpms::Stop0 => 0,
            Lpms::Stop1 => 1,
            Lpms::Stop2 => 2,
        }
    }
}

impl StopMode {
    /// The `LPMS` value that selects this mode.
    ///
    /// STM32WBA has no value for STOP2: the hardware enters it by itself from STOP0 when the
    /// radio is in deep sleep.
    pub open spec fn lpms(self, chip: Chip) -> Lpms {
        if self is Stop1 {
            Lpms::Stop1
        } else if chip is Wba {
            Lpms::Stop0
        } else {
            Lpms::Stop2
        }
    }

    /// The `LPMS` value that selects this mode on `chip`.
    pub fn into_lpms(self, chip: Chip) -> (r: Lpms)
        ensures
            r == self.lpms(chip),
    {
        match self {
            StopMode::Stop1 => Lpms::Stop1,
            StopMode::Standby | StopMode::Stop2 => match chip {
                Chip::Wba => Lpms::Stop0,
                _ => Lpms::Stop2,
            },
        }
    }
}

} // verus!
