//! The CPU bus's own timing and controller state: the OAM DMA countdown,
//! the CPU cycles owed to DMC sample fetches, the PPU's frame-complete
//! flag as the bus hands it out, and the controller port's shift register
//! and strobe.

use vstd::prelude::*;
use vstd::arithmetic::power2::pow2;

verus! {

/// Abstract contents of a [`BusTiming`].
pub struct BusTimingView {
    pub controller: u8,
    pub controller_state: u16,
    pub strobe: bool,
    pub dma_cycles: u32,
    pub dma_in_progress: bool,
    pub dmc_stall_cycles: u32,
    pub frame_complete: bool,
}

pub struct BusTiming {
    controller: u8,
    controller_state: u16,
    strobe: bool,
    dma_cycles: u32,
    dma_in_progress: bool,
    dmc_stall_cycles: u32,
    frame_complete: bool,
}

impl View for BusTiming {
    type V = BusTimingView;

    closed spec fn view(&self) -> BusTimingView {
        BusTimingView {
            controller: self.controller,
            controller_state: self.controller_state,
            strobe: self.strobe,
            dma_cycles: self.dma_cycles,
            dma_in_progress: self.dma_in_progress,
            dmc_stall_cycles: self.dmc_stall_cycles,
            frame_complete: self.frame_complete,
        }
    }
}

/// The CPU cycles an OAM DMA ($4014 write) takes.
pub open spec fn oam_dma_cycles() -> u32 {
    513
}

/// One CPU cycle of a DMA in progress: the countdown goes down by one and
/// the DMA ends when it reaches 0; the result says whether it ended now.
pub open spec fn dma_stepped(v: BusTimingView) -> (BusTimingView, bool) {
    if v.dma_in_progress && v.dma_cycles > 0 {
        let left = (v.dma_cycles - 1) as u32;
        if left == 0 {
            (BusTimingView { dma_cycles: 0, dma_in_progress: false, ..v }, true)
        } else {
            (BusTimingView { dma_cycles: left, ..v }, false)
        }
    } else {
        (v, false)
    }
}

/// A controller read ($4016): with the strobe high the port reloads and
/// gives the A button; otherwise it gives the next button bit and shifts.
pub open spec fn controller_read(v: BusTimingView) -> (BusTimingView, u8) {
    if v.strobe {
        (BusTimingView { controller_state: v.controller as u16, ..v }, v.controller & 0x01)
    } else {
        (
            BusTimingView { controller_state: v.controller_state / 2, ..v },
            if v.controller_state % 2 == 1 { 1u8 } else { 0u8 },
        )
    }
}

/// The port after a strobe write ($4016): bit 0 is the new strobe, and its
/// falling edge latches the buttons into the shift register.
pub open spec fn strobe_written(v: BusTimingView, data: u8) -> BusTimingView {
    BusTimingView {
        strobe: data & 0x01 != 0,
        controller_state: if v.strobe && data & 0x01 == 0 { v.controller as u16 } else { v.controller_state },
        ..v
    }
}

/// The port after `k` controller reads.
pub open spec fn after_reads(v: BusTimingView, k: nat) -> BusTimingView
    decreases k,
{
    if k == 0 { v } else { controller_read(after_reads(v, (k - 1) as nat)).0 }
}

proof fn lemma_reads_shift(w: BusTimingView, k: nat)
    requires
        !w.strobe,
    ensures
        !after_reads(w, k).strobe,
        after_reads(w, k).controller_state as int == w.controller_state as int / pow2(k) as int,
    decreases k,
{
    if k == 0 {
        vstd::arithmetic::power2::lemma2_to64();
    } else {
        lemma_reads_shift(w, (k - 1) as nat);
        let c = w.controller_state as int;
        let p = pow2((k - 1) as nat) as int;
        vstd::arithmetic::power2::lemma_pow2_pos((k - 1) as nat);
        vstd::arithmetic::div_mod::lemma_div_denominator(c, p, 2);
        vstd::arithmetic::power2::lemma_pow2_unfold(k);
        assert(p * 2 == pow2(k) as int);
    }
}

/// Law of the controller port: once the strobe has been raised and
/// lowered, successive reads give the buttons held at that moment one bit
/// at a time, bit 0 (A) first; after the eighth they give 0.
pub proof fn lemma_controller_read_order(v: BusTimingView, k: nat)
    ensures
        ({
            let w = strobe_written(strobe_written(v, 1), 0);
            controller_read(after_reads(w, k)).1 as int == (v.controller as int / pow2(k) as int) % 2
        }),
{
    let w = strobe_written(strobe_written(v, 1), 0);
    assert(1u8 & 0x01 != 0 && 0u8 & 0x01 == 0) by (bit_vector);
    lemma_reads_shift(w, k);
}

impl BusTiming {
    /// Nothing pending, no button pressed, strobe low.
    pub fn new() -> (b: BusTiming)
        ensures
            b@ == (BusTimingView {
                controller: 0,
                controller_state: 0,
                strobe: false,
                dma_cycles: 0,
                dma_in_progress: false,
                dmc_stall_cycles: 0,
                frame_complete: false,
            }),
    {
        BusTiming {
            controller: 0,
            controller_state: 0,
            strobe: false,
            dma_cycles: 0,
            dma_in_progress: false,
            dmc_stall_cycles: 0,
            frame_complete: false,
        }
    }

    /// The buttons currently held (bit 0 A, then B, Select, Start, Up,
    /// Down, Left, Right).
    pub fn set_controller(&mut self, controller: u8)
        ensures
            final(self)@ == (BusTimingView { controller, ..old(self)@ }),
    {
        self.controller = controller;
    }

    /// A controller read (see `controller_read`).
    pub fn read_controller(&mut self) -> (r: u8)
        ensures
            (final(self)@, r) == controller_read(old(self)@),
    {
        if self.strobe {
            self.controller_state = self.controller as u16;
            return self.controller & 0x01;
        }
        let value: u8 = if self.controller_state & 0x01 != 0 { 0x01 } else { 0x00 };
        proof {
            let s = self.controller_state;
            assert(s & 0x01 == s % 2 && s >> 1 == s / 2) by (bit_vector);
        }
        self.controller_state = self.controller_state >> 1;
        value
    }

    /// A write of the strobe register ($4016): bit 0 is the new strobe, and
    /// its falling edge latches the buttons into the shift register.
    pub fn write_strobe(&mut self, data: u8)
        ensures
            final(self)@ == strobe_written(old(self)@, data),
    {
        let new_strobe = (data & 0x01) != 0;
        if self.strobe && !new_strobe {
            self.controller_state = self.controller as u16;
        }
        self.strobe = new_strobe;
    }

    /// The start of an OAM DMA: the CPU is held for `oam_dma_cycles`.
    pub fn start_oam_dma(&mut self)
        ensures
            final(self)@ == (BusTimingView { dma_in_progress: true, dma_cycles: oam_dma_cycles(), ..old(self)@ }),
    {
        self.dma_in_progress = true;
        self.dma_cycles = 513;
    }

    /// The DMA cycles still owed, which are then cleared.
    pub fn get_dma_cycles(&mut self) -> (r: u32)
        ensures
            r == old(self)@.dma_cycles,
            final(self)@ == (BusTimingView { dma_cycles: 0, ..old(self)@ }),
    {
        let cycles = self.dma_cycles;
        self.dma_cycles = 0;
        cycles
    }

    pub fn is_dma_in_progress(&self) -> (r: bool)
        ensures
            r == self@.dma_in_progress,
    {
        self.dma_in_progress
    }

    /// One CPU cycle of the DMA (see `dma_stepped`).
    pub fn step_dma(&mut self) -> (done: bool)
        ensures
            (final(self)@, done) == dma_stepped(old(self)@),
    {
        if self.dma_in_progress {
            if self.dma_cycles > 0 {
                self.dma_cycles -= 1;
                if self.dma_cycles == 0 {
                    self.dma_in_progress = false;
                    return true;
                }
            }
        }
        false
    }

    /// Counts the CPU cycles a DMC sample fetch stalls the CPU.
    pub fn add_dmc_stall_cycles(&mut self, cycles: u8)
        requires
            old(self)@.dmc_stall_cycles + cycles <= u32::MAX,
        ensures
            final(self)@ == (BusTimingView {
                dmc_stall_cycles: (old(self)@.dmc_stall_cycles + cycles) as u32,
                ..old(self)@
            }),
    {
        self.dmc_stall_cycles = self.dmc_stall_cycles + cycles as u32;
    }

    /// The DMC stall cycles counted so far, which are then cleared.
    pub fn take_dmc_stall_cycles(&mut self) -> (r: u32)
        ensures
            r == old(self)@.dmc_stall_cycles,
            final(self)@ == (BusTimingView { dmc_stall_cycles: 0, ..old(self)@ }),
    {
        let r = self.dmc_stall_cycles;
        self.dmc_stall_cycles = 0;
        r
    }

    /// The PPU finished a frame.
    pub fn mark_frame_complete(&mut self)
        ensures
            final(self)@ == (BusTimingView { frame_complete: true, ..old(self)@ }),
    {
        self.frame_complete = true;
    }

    /// Whether a frame completed since the last call; the flag is cleared.
    pub fn ppu_frame_complete(&mut self) -> (r: bool)
        ensures
            r == old(self)@.frame_complete,
            final(self)@ == (BusTimingView { frame_complete: false, ..old(self)@ }),
    {
        let complete = self.frame_complete;
        if complete {
            self.frame_complete = false;
        }
        complete
    }

    /// DMA cycles, DMA flag, DMC stall cycles and frame flag, for a save
    /// state.
    pub fn timing_state(&self) -> (r: (u32, bool, u32, bool))
        ensures
            r == (self@.dma_cycles, self@.dma_in_progress, self@.dmc_stall_cycles, self@.frame_complete),
    {
        (self.dma_cycles, self.dma_in_progress, self.dmc_stall_cycles, self.frame_complete)
    }

    /// Loads what `timing_state` gave.
    pub fn restore_timing_state(
        &mut self,
        dma_cycles: u32,
        dma_in_progress: bool,
        dmc_stall_cycles: u32,
        ppu_frame_complete: bool,
    )
        ensures
            final(self)@ == (BusTimingView {
                dma_cycles,
                dma_in_progress,
                dmc_stall_cycles,
                frame_complete: ppu_frame_complete,
                ..old(self)@
            }),
    {
        self.dma_cycles = dma_cycles;
        self.dma_in_progress = dma_in_progress;
        self.dmc_stall_cycles = dmc_stall_cycles;
        self.frame_complete = ppu_frame_complete;
    }
}

/// Law of the OAM DMA: once started, it ends on exactly its 513th CPU
/// cycle.
pub proof fn lemma_oam_dma_length(v: BusTimingView, k: nat)
    requires
        v.dma_in_progress,
        v.dma_cycles == oam_dma_cycles(),
        k < 512,
    ensures
        dma_iterated(v, k).0.dma_in_progress,
        dma_iterated(v, k).0.dma_cycles == 513 - k,
        !dma_iterated(v, k).1,
        dma_iterated(v, 513).1,
        !dma_iterated(v, 513).0.dma_in_progress,
{
    lemma_dma_countdown(v, 512);
    lemma_dma_countdown(v, k);
}

/// `k` DMA cycles; the flag says whether the last one ended the DMA.
pub open spec fn dma_iterated(v: BusTimingView, k: nat) -> (BusTimingView, bool)
    decreases k,
{
    if k == 0 {
        (v, false)
    } else {
        dma_stepped(dma_iterated(v, (k - 1) as nat).0)
    }
}

proof fn lemma_dma_countdown(v: BusTimingView, k: nat)
    requires
        v.dma_in_progress,
        v.dma_cycles == oam_dma_cycles(),
        k <= 512,
    ensures
        dma_iterated(v, k).0.dma_in_progress,
        dma_iterated(v, k).0.dma_cycles == 513 - k,
        !dma_iterated(v, k).1,
    decreases k,
{
    if k > 0 {
        lemma_dma_countdown(v, (k - 1) as nat);
    }
}

} // verus!
