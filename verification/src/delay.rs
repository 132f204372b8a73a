use vstd::prelude::*;

use crate::clock::Clocks;

verus! {

/// The elapsed time between two samples of a free-running 32-bit tick
/// counter, `last` taken first: the difference modulo the counter's wrap.
pub open spec fn spec_wrap_delta(now: u32, last: u32) -> int {
    if now >= last {
        now - last
    } else {
        now + 0x1_0000_0000 - last
    }
}

/// Tick-granular waits derived from the machine timer. The model holds the
/// timer's clock frequency; the sampling of the live counter and the actual
/// spinning stay on the board, driven by the step functions below.
pub struct Delay {
    pub base_clock: u32,
}

impl Delay {
    pub fn new() -> (r: Delay)
        ensures
            r.base_clock == 0,
    {
        Delay { base_clock: 0 }
    }

    pub fn set_base_clock(&mut self, clocks: &Clocks)
        ensures
            *final(self) == (Delay { base_clock: clocks.clk_mchtmr0 }),
    {
        self.base_clock = clocks.get_clk_mchtmr0_freq();
    }

    /// Ticks of the machine timer that make up one period of `frequency`.
    pub fn calc_period_ticks(&self, frequency: u32) -> (r: u32)
        requires
            self.base_clock > 0,
            frequency > 0,
        ensures
            r == self.base_clock as int / frequency as int,
    {
        self.base_clock / frequency
    }

    /// Ticks of the machine timer that cover a wait of `us` microseconds:
    /// `us * base_clock / 1_000_000`, computed without overflow. The board
    /// spins for the returned count.
    pub fn delay_us(&self, us: u32) -> (r: u32)
        requires
            us < 1_000_000,
            self.base_clock > 0,
        ensures
            r == us as int * self.base_clock as int / 1_000_000,
    {
        proof {
            assert(us as int * self.base_clock as int <= u64::MAX as int)
                by (nonlinear_arith)
                requires
                    us < 1_000_000,
                    self.base_clock <= 0xFFFF_FFFFu32,
            ;
        }
        let ticks = (us as u64) * (self.base_clock as u64) / 1_000_000;
        proof {
            assert(us as int * self.base_clock as int / 1_000_000 < self.base_clock as int)
                by (nonlinear_arith)
                requires
                    us < 1_000_000,
                    self.base_clock > 0,
            ;
        }
        ticks as u32
    }

    /// Spin until `ticks` timer ticks have passed. The wait has no effect the
    /// model can observe; the board runs the loop with `delay_ticks_step`.
    pub fn delay_ticks(&self, ticks: u32) {
        let _ = ticks;
    }
}

/// One step of the tick-wait loop: `last` is the counter sample the wait has
/// accounted for, `now` a fresh sample. Either the elapsed delta covers the
/// remaining `ticks` and the wait is over, or the wait shrinks by the delta
/// and `now` becomes the accounted-for sample. The returned triple is
/// (done, remaining ticks, accounted-for sample).
pub fn delay_ticks_step(ticks: u32, last: u32, now: u32) -> (r: (bool, u32, u32))
    ensures
        r.0 == (spec_wrap_delta(now, last) >= ticks),
        r.0 ==> r.1 == ticks && r.2 == last,
        !r.0 ==> r.1 == ticks - spec_wrap_delta(now, last) && r.2 == now,
{
    let delta = if now >= last {
        now - last
    } else {
        (0xffff_ffffu32 - last) + now + 1
    };
    if delta >= ticks {
        (true, ticks, last)
    } else {
        (false, ticks - delta, now)
    }
}

/// One step of the variant of the tick wait that measures from a caller-held
/// sample, with the delta taken in the opposite direction (`last` minus
/// `now`, modulo the wrap), as the caller-sample wait does. When done, the
/// fresh sample is handed back so the caller can chain waits.
pub fn delay_ticks_from_last_step(ticks: u32, last: u32, now: u32) -> (r: (bool, u32, u32))
    ensures
        r.0 == (spec_wrap_delta(last, now) >= ticks),
        r.0 ==> r.1 == ticks && r.2 == now,
        !r.0 ==> r.1 == ticks - spec_wrap_delta(last, now) && r.2 == now,
{
    let delta = if last >= now {
        last - now
    } else {
        (0xffff_ffffu32 - now) + last + 1
    };
    if delta >= ticks {
        (true, ticks, now)
    } else {
        (false, ticks - delta, now)
    }
}

} // verus!
