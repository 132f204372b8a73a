use vstd::prelude::*;

verus! {

/// Alternate-function selector that gives the processor direct GPIO control
/// of a line.
pub const ALT_FUNC_GPIO: u32 = 0;

/// Alternate-function selector that routes the SWD clock line to the
/// shift-register peripheral.
pub const ALT_FUNC_SPI: u32 = 5;

/// Logic level of a digital line.
#[derive(Clone, Copy, PartialEq, Eq, Structural, Debug)]
pub enum PinState {
    Low,
    High,
}

/// Pad pull configuration.
#[derive(Clone, Copy, PartialEq, Eq, Structural, Debug)]
pub enum Pull {
    PullDown,
    PullUp,
    Floating,
}

/// One digital line: its pad configuration, its driven level, and — because
/// the board layer replays the model's actions onto the hardware — the full
/// sequence of levels the logic drove, oldest first.
pub struct Pin {
    pub output_enable: bool,
    pub level: bool,
    pub alt: u32,
    pub open_drain: bool,
    pub pull: Pull,
    pub level_log: Vec<bool>,
}

impl Pin {
    /// A line in its reset state: high-impedance input, level latch low.
    pub fn new() -> (r: Pin)
        ensures
            !r.output_enable,
            !r.level,
            r.alt == ALT_FUNC_GPIO,
            !r.open_drain,
            r.pull == Pull::Floating,
            r.level_log@.len() == 0,
    {
        Pin {
            output_enable: false,
            level: false,
            alt: ALT_FUNC_GPIO,
            open_drain: false,
            pull: Pull::Floating,
            level_log: Vec::new(),
        }
    }

    pub fn set_mode_output(&mut self)
        ensures
            *final(self) == (Pin { output_enable: true, ..*old(self) }),
    {
        self.output_enable = true;
    }

    pub fn set_mode_input(&mut self)
        ensures
            *final(self) == (Pin { output_enable: false, ..*old(self) }),
    {
        self.output_enable = false;
    }

    pub(crate) fn set_high(&mut self)
        ensures
            *final(self) == (Pin {
                level: true,
                level_log: final(self).level_log,
                ..*old(self)
            }),
            final(self).level_log@ == old(self).level_log@.push(true),
    {
        self.level = true;
        self.level_log.push(true);
    }

    pub(crate) fn set_low(&mut self)
        ensures
            *final(self) == (Pin {
                level: false,
                level_log: final(self).level_log,
                ..*old(self)
            }),
            final(self).level_log@ == old(self).level_log@.push(false),
    {
        self.level = false;
        self.level_log.push(false);
    }

    pub fn set_state(&mut self, state: PinState)
        ensures
            *final(self) == (Pin {
                level: state is High,
                level_log: final(self).level_log,
                ..*old(self)
            }),
            final(self).level_log@ == old(self).level_log@.push(state is High),
    {
        match state {
            PinState::Low => self.set_low(),
            PinState::High => self.set_high(),
        }
    }

    pub fn toggle(&mut self)
        ensures
            *final(self) == (Pin {
                level: !old(self).level,
                level_log: final(self).level_log,
                ..*old(self)
            }),
            final(self).level_log@ == old(self).level_log@.push(!old(self).level),
    {
        let next = !self.level;
        self.level = next;
        self.level_log.push(next);
    }

    pub fn get_sate(&self) -> (r: PinState)
        ensures
            r == (if self.level { PinState::High } else { PinState::Low }),
    {
        if self.level {
            PinState::High
        } else {
            PinState::Low
        }
    }

    pub fn is_high(&self) -> (r: bool)
        ensures
            r == self.level,
    {
        self.level
    }

    pub fn is_low(&self) -> (r: bool)
        ensures
            r == !self.level,
    {
        !self.level
    }

    pub fn set_af(&mut self, alt: u32)
        requires
            alt < 32,
        ensures
            *final(self) == (Pin { alt: alt, ..*old(self) }),
    {
        self.alt = alt;
    }

    pub fn set_push_pull(&mut self)
        ensures
            *final(self) == (Pin { open_drain: false, ..*old(self) }),
    {
        self.open_drain = false;
    }

    pub fn set_open_drain(&mut self)
        ensures
            *final(self) == (Pin { open_drain: true, ..*old(self) }),
    {
        self.open_drain = true;
    }

    pub fn set_pull(&mut self, pull: Pull)
        ensures
            *final(self) == (Pin { pull: pull, ..*old(self) }),
    {
        self.pull = pull;
    }

    pub fn set_pull_down(&mut self)
        ensures
            *final(self) == (Pin { pull: Pull::PullDown, ..*old(self) }),
    {
        self.set_pull(Pull::PullDown);
    }

    pub fn set_pull_up(&mut self)
        ensures
            *final(self) == (Pin { pull: Pull::PullUp, ..*old(self) }),
    {
        self.set_pull(Pull::PullUp);
    }

    pub fn set_pull_floating(&mut self)
        ensures
            *final(self) == (Pin { pull: Pull::Floating, ..*old(self) }),
    {
        self.set_pull(Pull::Floating);
    }
}

/// The probe's named signal lines: three status indicators and the four
/// debug lines that drive the target (SWD clock and data, JTAG clock and
/// data), each a modelled `Pin`.
pub struct Pins {
    pub led_r: Pin,
    pub led_g: Pin,
    pub led_b: Pin,
    pub spi1_clk: Pin,
    pub spi1_io: Pin,
    pub spi2_clk: Pin,
    pub spi2_io: Pin,
}

impl Pins {
    pub fn new() -> (r: Pins)
        ensures
            !r.led_r.output_enable && !r.led_g.output_enable && !r.led_b.output_enable,
            !r.spi1_clk.output_enable && !r.spi1_io.output_enable,
            !r.spi2_clk.output_enable && !r.spi2_io.output_enable,
            r.spi1_clk.level_log@.len() == 0,
    {
        Pins {
            led_r: Pin::new(),
            led_g: Pin::new(),
            led_b: Pin::new(),
            spi1_clk: Pin::new(),
            spi1_io: Pin::new(),
            spi2_clk: Pin::new(),
            spi2_io: Pin::new(),
        }
    }

    /// Configure the status indicators: GPIO function, output mode, driven
    /// high (the indicators are active-low, so high is "off").
    pub fn setup(&mut self)
        ensures
            final(self).led_r.alt == ALT_FUNC_GPIO && final(self).led_r.output_enable
                && final(self).led_r.level,
            final(self).led_g.alt == ALT_FUNC_GPIO && final(self).led_g.output_enable
                && final(self).led_g.level,
            final(self).led_b.alt == ALT_FUNC_GPIO && final(self).led_b.output_enable
                && final(self).led_b.level,
            *final(self) == (Pins {
                led_r: final(self).led_r,
                led_g: final(self).led_g,
                led_b: final(self).led_b,
                ..*old(self)
            }),
    {
        self.led_r.set_af(ALT_FUNC_GPIO);
        self.led_r.set_mode_output();
        self.led_r.set_high();
        self.led_g.set_af(ALT_FUNC_GPIO);
        self.led_g.set_mode_output();
        self.led_g.set_high();
        self.led_b.set_af(ALT_FUNC_GPIO);
        self.led_b.set_mode_output();
        self.led_b.set_high();
    }

    /// Force every debug line into high impedance: input mode, no pull. The
    /// target is left electrically undisturbed.
    pub fn high_impedance_mode(&mut self)
        ensures
            !final(self).spi1_clk.output_enable && final(self).spi1_clk.pull == Pull::Floating,
            !final(self).spi1_io.output_enable && final(self).spi1_io.pull == Pull::Floating,
            !final(self).spi2_clk.output_enable && final(self).spi2_clk.pull == Pull::Floating,
            !final(self).spi2_io.output_enable && final(self).spi2_io.pull == Pull::Floating,
            *final(self) == (Pins {
                spi1_clk: Pin {
                    output_enable: false,
                    pull: Pull::Floating,
                    ..old(self).spi1_clk
                },
                spi1_io: Pin { output_enable: false, pull: Pull::Floating, ..old(self).spi1_io },
                spi2_clk: Pin {
                    output_enable: false,
                    pull: Pull::Floating,
                    ..old(self).spi2_clk
                },
                spi2_io: Pin { output_enable: false, pull: Pull::Floating, ..old(self).spi2_io },
                ..*old(self)
            }),
    {
        self.spi1_clk.set_mode_input();
        self.spi1_clk.set_pull_floating();
        self.spi1_io.set_mode_input();
        self.spi1_io.set_pull_floating();
        self.spi2_clk.set_mode_input();
        self.spi2_clk.set_pull_floating();
        self.spi2_io.set_mode_input();
        self.spi2_io.set_pull_floating();
    }

    /// Take direct GPIO control of the SWD clock line, keeping it an output,
    /// so the logic can insert manual clock periods.
    pub fn swd_clk_direct(&mut self)
        ensures
            *final(self) == (Pins {
                spi1_clk: Pin {
                    alt: ALT_FUNC_GPIO,
                    output_enable: true,
                    ..old(self).spi1_clk
                },
                ..*old(self)
            }),
    {
        self.spi1_clk.set_af(ALT_FUNC_GPIO);
        self.spi1_clk.set_mode_output();
    }

    /// Hand the SWD clock line back to the shift-register peripheral.
    pub fn swd_clk_spi(&mut self)
        ensures
            *final(self) == (Pins {
                spi1_clk: Pin { alt: ALT_FUNC_SPI, ..old(self).spi1_clk },
                ..*old(self)
            }),
    {
        self.spi1_clk.set_af(ALT_FUNC_SPI);
    }
}

} // verus!
