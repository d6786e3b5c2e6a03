//! The divider/timer unit: a free-running 16-bit divider whose upper byte
//! is the DIV register, and the programmable counter TIMA with its reload
//! value TMA and control register TAC.

use vstd::prelude::*;

verus! {

/// Timer state.  `div_counter` advances by one per T-cycle; `timer_cycles`
/// accumulates T-cycles towards the next TIMA tick.
pub struct Timer {
    pub div_counter: u16,
    pub tima: u8,
    pub tma: u8,
    pub tac: u8,
    pub timer_cycles: u16,
}

/// TAC bit 2 gates TIMA entirely.
pub open spec fn spec_timer_enabled(tac: u8) -> bool {
    tac & 0x04 != 0
}

/// T-cycles per TIMA tick, chosen by TAC bits 1-0: 00 is 4096 Hz (1024
/// cycles), 01 is 262144 Hz (16), 10 is 65536 Hz (64), 11 is 16384 Hz (256).
pub open spec fn spec_timer_frequency(tac: u8) -> u16 {
    if tac % 4 == 0 {
        1024u16
    } else if tac % 4 == 1 {
        16u16
    } else if tac % 4 == 2 {
        64u16
    } else {
        256u16
    }
}

/// TIMA after a number of ticks: each tick increments it, except that a
/// tick finding it at 0xFF reloads it from TMA.
pub open spec fn spec_tima_after(tima: u8, tma: u8, ticks: nat) -> u8
    decreases ticks,
{
    if ticks == 0 {
        tima
    } else {
        spec_tima_after(
            if tima == 0xFF {
                tma
            } else {
                (tima + 1) as u8
            },
            tma,
            (ticks - 1) as nat,
        )
    }
}

/// Whether any of the ticks found TIMA at 0xFF, which reloads it and
/// requests the timer interrupt.
pub open spec fn spec_tima_overflowed(tima: u8, tma: u8, ticks: nat) -> bool
    decreases ticks,
{
    if ticks == 0 {
        false
    } else {
        tima == 0xFF || spec_tima_overflowed(
            if tima == 0xFF {
                tma
            } else {
                (tima + 1) as u8
            },
            tma,
            (ticks - 1) as nat,
        )
    }
}

/// Unrolls one tick off the end of the tick evolution, so a loop that
/// ticks TIMA front to back can carry the evolution as its invariant.
proof fn lemma_tima_unroll_last(tima: u8, tma: u8, ticks: nat)
    ensures
        spec_tima_after(tima, tma, ticks + 1) == (if spec_tima_after(tima, tma, ticks) == 0xFF {
            tma
        } else {
            (spec_tima_after(tima, tma, ticks) + 1) as u8
        }),
        spec_tima_overflowed(tima, tma, ticks + 1) == (spec_tima_overflowed(tima, tma, ticks)
            || spec_tima_after(tima, tma, ticks) == 0xFF),
    decreases ticks,
{
    let next = if tima == 0xFF {
        tma
    } else {
        (tima + 1) as u8
    };
    if ticks == 0 {
        assert(spec_tima_after(tima, tma, 1) == spec_tima_after(next, tma, 0));
        assert(spec_tima_overflowed(tima, tma, 1) == (tima == 0xFF || spec_tima_overflowed(
            next,
            tma,
            0,
        )));
    } else {
        lemma_tima_unroll_last(next, tma, (ticks - 1) as nat);
        assert(spec_tima_after(tima, tma, ticks + 1) == spec_tima_after(next, tma, ticks));
        assert(spec_tima_overflowed(tima, tma, ticks + 1) == (tima == 0xFF
            || spec_tima_overflowed(next, tma, ticks)));
    }
}

/// How one timer step relates the state before and after: the divider
/// advances by the cycle count (wrapping), and while TAC enables it TIMA
/// ticks once per period of accumulated time, reloading from TMA and
/// firing on overflow.
#[verifier::opaque]
pub open spec fn spec_step_timer_rel(pre: Timer, post: Timer, fired: bool, cycles: u16) -> bool {
    &&& post.div_counter == vstd::wrapping::u16_specs::wrapping_add(pre.div_counter, cycles)
    &&& post.tma == pre.tma
    &&& post.tac == pre.tac
    &&& (!spec_timer_enabled(pre.tac) ==> post.tima == pre.tima && post.timer_cycles
        == pre.timer_cycles && !fired)
    &&& (spec_timer_enabled(pre.tac) ==> {
        let total = pre.timer_cycles + cycles;
        let freq = spec_timer_frequency(pre.tac);
        let ticks = (total / freq as int) as nat;
        &&& post.timer_cycles == total % freq as int
        &&& post.tima == spec_tima_after(pre.tima, pre.tma, ticks)
        &&& fired == spec_tima_overflowed(pre.tima, pre.tma, ticks)
    })
}

impl Timer {
    /// Reset state: all counters zero and the timer disabled.
    pub fn new() -> (r: Timer)
        ensures
            r.div_counter == 0,
            r.tima == 0,
            r.tma == 0,
            r.tac == 0,
            r.timer_cycles == 0,
    {
        Timer { div_counter: 0, tima: 0, tma: 0, tac: 0, timer_cycles: 0 }
    }

    /// The state the bootstrap ROM leaves behind: the divider has been
    /// running, TIMA is untouched and the timer is disabled.
    pub fn new_post_boot() -> (r: Timer)
        ensures
            r.div_counter == 0xABCC,
            r.tima == 0,
            r.tma == 0,
            r.tac == 0,
            r.timer_cycles == 0,
    {
        Timer { div_counter: 0xABCC, tima: 0, tma: 0, tac: 0, timer_cycles: 0 }
    }

    /// Advances the timer by a number of T-cycles.  The divider always
    /// advances (wrapping); while TAC enables it, TIMA ticks once per
    /// `spec_timer_frequency(tac)` cycles of accumulated time.  Returns
    /// true exactly when some tick found TIMA at 0xFF, which reloads it
    /// from TMA and requests the timer interrupt.
    pub fn step(&mut self, cycles: u16) -> (timer_interrupt: bool)
        ensures
            spec_step_timer_rel(*old(self), *final(self), timer_interrupt, cycles),
    {
        proof {
            reveal(spec_step_timer_rel);
        }
        let mut timer_interrupt = false;
        self.div_counter = self.div_counter.wrapping_add(cycles);

        if self.is_timer_enabled() {
            let freq: u32 = self.get_timer_frequency() as u32;
            let total: u32 = self.timer_cycles as u32 + cycles as u32;
            let ticks: u32 = total / freq;
            let ghost tma = self.tma;
            let ghost tima0 = self.tima;
            let ghost div0 = self.div_counter;
            let ghost tac0 = self.tac;
            let ghost tc0 = self.timer_cycles;
            let mut i: u32 = 0;
            while i < ticks
                invariant
                    i <= ticks,
                    self.tma == tma,
                    self.div_counter == div0,
                    self.tac == tac0,
                    self.timer_cycles == tc0,
                    self.tima == spec_tima_after(tima0, tma, i as nat),
                    timer_interrupt == spec_tima_overflowed(tima0, tma, i as nat),
                decreases ticks - i,
            {
                proof {
                    lemma_tima_unroll_last(tima0, tma, i as nat);
                }
                if self.tima == 0xFF {
                    self.tima = self.tma;
                    timer_interrupt = true;
                } else {
                    self.tima = self.tima + 1;
                }
                i = i + 1;
            }
            self.timer_cycles = (total % freq) as u16;
        }
        timer_interrupt
    }

    /// Reads a timer register: DIV is the divider's upper byte, TAC reads
    /// with its unused bits set; any other address reads 0xFF.
    pub fn read_register(&self, addr: u16) -> (r: u8)
        ensures
            addr == 0xFF04 ==> r == self.div_counter / 256,
            addr == 0xFF05 ==> r == self.tima,
            addr == 0xFF06 ==> r == self.tma,
            addr == 0xFF07 ==> r == self.tac | 0xF8,
            !(0xFF04 <= addr <= 0xFF07) ==> r == 0xFF,
    {
        match addr {
            0xFF04 => (self.div_counter / 256) as u8,
            0xFF05 => self.tima,
            0xFF06 => self.tma,
            0xFF07 => self.tac | 0xF8,
            _ => 0xFF,
        }
    }

    /// Writes a timer register: any write to DIV clears the whole divider;
    /// TAC keeps only its low three bits; other addresses are ignored.
    pub fn write_register(&mut self, addr: u16, value: u8)
        ensures
            final(self).tima == (if addr == 0xFF05 {
                value
            } else {
                old(self).tima
            }),
            final(self).tma == (if addr == 0xFF06 {
                value
            } else {
                old(self).tma
            }),
            final(self).tac == (if addr == 0xFF07 {
                value & 0x07
            } else {
                old(self).tac
            }),
            final(self).div_counter == (if addr == 0xFF04 {
                0
            } else {
                old(self).div_counter
            }),
            final(self).timer_cycles == old(self).timer_cycles,
    {
        match addr {
            0xFF04 => {
                self.div_counter = 0;
            },
            0xFF05 => {
                self.tima = value;
            },
            0xFF06 => {
                self.tma = value;
            },
            0xFF07 => {
                self.tac = value & 0x07;
            },
            _ => {},
        }
    }

    /// TAC bit 2 gates TIMA.
    fn is_timer_enabled(&self) -> (r: bool)
        ensures
            r == spec_timer_enabled(self.tac),
    {
        (self.tac & 0x04) != 0
    }

    /// The T-cycle period of a TIMA tick selected by TAC bits 1-0.
    fn get_timer_frequency(&self) -> (r: u16)
        ensures
            r == spec_timer_frequency(self.tac),
    {
        match self.tac % 4 {
            0 => 1024,
            1 => 16,
            2 => 64,
            _ => 256,
        }
    }
}

} // verus!
