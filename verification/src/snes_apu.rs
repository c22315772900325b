//! The memory-mapped side of the S-SMP sound unit: 64 KiB of RAM, the
//! 64-byte boot ROM that can be mapped over $FFC0-$FFFF, the three timers,
//! the DSP address latch and the two sets of CPU/APU port latches. The DSP
//! itself and the processor are not part of it: a read of the DSP data
//! register takes the value the DSP gives, a write to it is handed back to
//! the caller, and the processor status byte is an argument of writes.

use vstd::prelude::*;
use crate::snes_timer::{Timer, TimerView, timer_after, stage2_period, lemma_counter_after_cycles};

verus! {

/// Byte `i` of the boot ROM the unit powers on with.
#[verifier::opaque]
pub open spec fn spec_ipl_rom_byte(i: usize) -> u8 {
    match i {
        0 => 0xCD,
        1 => 0xEF,
        2 => 0xBD,
        3 => 0xE8,
        4 => 0x00,
        5 => 0xC6,
        6 => 0x1D,
        7 => 0xD0,
        8 => 0xFC,
        9 => 0x8F,
        10 => 0xAA,
        11 => 0xF4,
        12 => 0x8F,
        13 => 0xBB,
        14 => 0xF5,
        15 => 0x78,
        16 => 0xCC,
        17 => 0xF4,
        18 => 0xD0,
        19 => 0xFB,
        20 => 0x2F,
        21 => 0x19,
        22 => 0xEB,
        23 => 0xF4,
        24 => 0xD0,
        25 => 0xFC,
        26 => 0x7E,
        27 => 0xF4,
        28 => 0xD0,
        29 => 0x0B,
        30 => 0xE4,
        31 => 0xF5,
        32 => 0xCB,
        33 => 0xF4,
        34 => 0xD7,
        35 => 0x00,
        36 => 0xFC,
        37 => 0xD0,
        38 => 0xF3,
        39 => 0xAB,
        40 => 0x01,
        41 => 0x10,
        42 => 0xEF,
        43 => 0x7E,
        44 => 0xF4,
        45 => 0x10,
        46 => 0xEB,
        47 => 0xBA,
        48 => 0xF6,
        49 => 0xDA,
        50 => 0x00,
        51 => 0xBA,
        52 => 0xF4,
        53 => 0xC4,
        54 => 0xF4,
        55 => 0xDD,
        56 => 0x5D,
        57 => 0xD0,
        58 => 0xDB,
        59 => 0x1F,
        60 => 0x00,
        61 => 0x00,
        62 => 0xC0,
        _ => 0xFF,
    }
}

/// The boot ROM the unit powers on with.
pub open spec fn default_ipl_rom() -> Seq<u8> {
    Seq::new(64, |i: int| spec_ipl_rom_byte(i as usize))
}

/// Executable lookup of [`spec_ipl_rom_byte`].
fn ipl_rom_byte(i: usize) -> (r: u8)
    requires
        i < 64,
    ensures
        r == spec_ipl_rom_byte(i),
{
    proof {
        reveal(spec_ipl_rom_byte);
    }
    match i {
        0 => 0xCD,
        1 => 0xEF,
        2 => 0xBD,
        3 => 0xE8,
        4 => 0x00,
        5 => 0xC6,
        6 => 0x1D,
        7 => 0xD0,
        8 => 0xFC,
        9 => 0x8F,
        10 => 0xAA,
        11 => 0xF4,
        12 => 0x8F,
        13 => 0xBB,
        14 => 0xF5,
        15 => 0x78,
        16 => 0xCC,
        17 => 0xF4,
        18 => 0xD0,
        19 => 0xFB,
        20 => 0x2F,
        21 => 0x19,
        22 => 0xEB,
        23 => 0xF4,
        24 => 0xD0,
        25 => 0xFC,
        26 => 0x7E,
        27 => 0xF4,
        28 => 0xD0,
        29 => 0x0B,
        30 => 0xE4,
        31 => 0xF5,
        32 => 0xCB,
        33 => 0xF4,
        34 => 0xD7,
        35 => 0x00,
        36 => 0xFC,
        37 => 0xD0,
        38 => 0xF3,
        39 => 0xAB,
        40 => 0x01,
        41 => 0x10,
        42 => 0xEF,
        43 => 0x7E,
        44 => 0xF4,
        45 => 0x10,
        46 => 0xEB,
        47 => 0xBA,
        48 => 0xF6,
        49 => 0xDA,
        50 => 0x00,
        51 => 0xBA,
        52 => 0xF4,
        53 => 0xC4,
        54 => 0xF4,
        55 => 0xDD,
        56 => 0x5D,
        57 => 0xD0,
        58 => 0xDB,
        59 => 0x1F,
        60 => 0x00,
        61 => 0x00,
        62 => 0xC0,
        _ => 0xFF,
    }
}

/// Abstract contents of the unit's I/O side.
pub struct SmpIoView {
    pub ram: Seq<u8>,
    pub ipl_rom: Seq<u8>,
    pub timers: Seq<TimerView>,
    pub is_ipl_rom_enabled: bool,
    pub dsp_reg_address: u8,
    pub cpu_to_apu_ports: Seq<u8>,
    pub apu_to_cpu_ports: Seq<u8>,
}

/// The S-SMP's memory map and I/O registers.
pub struct Apu {
    ram: Vec<u8>,
    ipl_rom: Vec<u8>,
    timer0: Timer,
    timer1: Timer,
    timer2: Timer,
    is_ipl_rom_enabled: bool,
    dsp_reg_address: u8,
    cpu_to_apu_ports: Vec<u8>,
    apu_to_cpu_ports: Vec<u8>,
}

impl View for Apu {
    type V = SmpIoView;

    closed spec fn view(&self) -> SmpIoView {
        SmpIoView {
            ram: self.ram@,
            ipl_rom: self.ipl_rom@,
            timers: seq![self.timer0@, self.timer1@, self.timer2@],
            is_ipl_rom_enabled: self.is_ipl_rom_enabled,
            dsp_reg_address: self.dsp_reg_address,
            cpu_to_apu_ports: self.cpu_to_apu_ports@,
            apu_to_cpu_ports: self.apu_to_cpu_ports@,
        }
    }
}

/// The sizes of the memories and latches, and the timers' dividers: 256
/// CPU cycles for timers 0 and 1, 32 for timer 2.
pub open spec fn smp_io_wf(v: SmpIoView) -> bool {
    &&& v.ram.len() == 0x10000
    &&& v.ipl_rom.len() == 64
    &&& v.timers.len() == 3
    &&& v.timers[0].resolution == 256 && v.timers[1].resolution == 256 && v.timers[2].resolution == 32
    &&& v.cpu_to_apu_ports.len() == 4 && v.apu_to_cpu_ports.len() == 4
}

/// A timer after its start bit is written: 1 restarts it from zero, 0
/// stops it.
pub open spec fn timer_started(t: TimerView, on: bool) -> TimerView {
    if on {
        TimerView { is_running: true, ticks: 0, counter_low: 0, counter_high: 0, ..t }
    } else {
        TimerView { is_running: false, ..t }
    }
}

/// A timer after a reset: stopped, target and counters cleared; the
/// divider keeps its phase.
pub open spec fn timer_cleared(t: TimerView) -> TimerView {
    TimerView { is_running: false, target: 0, counter_low: 0, counter_high: 0, ..t }
}

/// The CONTROL register ($F1) written with `value`: bit 7 maps the boot
/// ROM, bit 5 clears CPU ports 2 and 3, bit 4 clears ports 0 and 1, bits
/// 0-2 start or stop the three timers.
pub open spec fn control_written(v: SmpIoView, value: u8) -> SmpIoView {
    let p = v.cpu_to_apu_ports;
    let p1 = if value & 0x20 != 0 { p.update(2, 0u8).update(3, 0u8) } else { p };
    let p2 = if value & 0x10 != 0 { p1.update(0, 0u8).update(1, 0u8) } else { p1 };
    SmpIoView {
        is_ipl_rom_enabled: value & 0x80 != 0,
        cpu_to_apu_ports: p2,
        timers: seq![
            timer_started(v.timers[0], value & 0x01 != 0),
            timer_started(v.timers[1], value & 0x02 != 0),
            timer_started(v.timers[2], value & 0x04 != 0)
        ],
        ..v
    }
}

/// RAM right after a reset: cleared but for TEST ($F0) = $0A and CONTROL
/// ($F1) = $B0.
pub open spec fn reset_ram() -> Seq<u8> {
    Seq::new(0x10000, |i: int| if i == 0xF0 { 0x0Au8 } else if i == 0xF1 { 0xB0u8 } else { 0u8 })
}

/// The unit after a reset: RAM as `reset_ram`, the boot ROM reloaded and
/// mapped, the timers cleared, the DSP address and all ports cleared.
pub open spec fn smp_after_reset(v: SmpIoView) -> SmpIoView {
    SmpIoView {
        ram: reset_ram(),
        ipl_rom: default_ipl_rom(),
        timers: seq![timer_cleared(v.timers[0]), timer_cleared(v.timers[1]), timer_cleared(v.timers[2])],
        is_ipl_rom_enabled: true,
        dsp_reg_address: 0,
        cpu_to_apu_ports: seq![0u8, 0, 0, 0],
        apu_to_cpu_ports: seq![0u8, 0, 0, 0],
    }
}

/// A timer as first built: stopped, everything at 0, dividing by
/// `resolution`.
pub open spec fn fresh_timer(resolution: i32) -> TimerView {
    TimerView { resolution, is_running: false, ticks: 0, target: 0, counter_low: 0, counter_high: 0 }
}

/// The unit as first powered on.
pub open spec fn smp_power_on() -> SmpIoView {
    SmpIoView {
        ram: reset_ram(),
        ipl_rom: default_ipl_rom(),
        timers: seq![fresh_timer(256), fresh_timer(256), fresh_timer(32)],
        is_ipl_rom_enabled: true,
        dsp_reg_address: 0,
        cpu_to_apu_ports: seq![0u8, 0, 0, 0],
        apu_to_cpu_ports: seq![0u8, 0, 0, 0],
    }
}

/// The byte a processor read at `a` ($0000-$FFFF) gives, `dsp_value` being
/// the DSP register the DSP address selects: TEST and CONTROL, and the
/// timer targets, read 0; $F2 the DSP address; $F3 the DSP register; $F4-$F7
/// what the CPU last wrote to its ports; $FD-$FF the low nibble of a timer's
/// counter; the boot ROM at $FFC0-$FFFF while mapped; RAM elsewhere.
pub open spec fn smp_read_value(v: SmpIoView, a: int, dsp_value: u8) -> u8 {
    if 0xF0 <= a < 0x100 {
        if a == 0xF0 || a == 0xF1 || (0xFA <= a <= 0xFC) {
            0
        } else if a == 0xF2 {
            v.dsp_reg_address
        } else if a == 0xF3 {
            dsp_value
        } else if 0xFD <= a <= 0xFF {
            (v.timers[a - 0xFD].counter_high % 16) as u8
        } else if 0xF4 <= a <= 0xF7 {
            v.cpu_to_apu_ports[a - 0xF4]
        } else {
            v.ram[a]
        }
    } else if a >= 0xFFC0 && v.is_ipl_rom_enabled {
        v.ipl_rom[a - 0xFFC0]
    } else {
        v.ram[a]
    }
}

/// The unit after a processor read at `a`: reading a timer counter
/// ($FD-$FF) clears it.
pub open spec fn smp_after_read(v: SmpIoView, a: int) -> SmpIoView {
    if 0xFD <= a <= 0xFF {
        SmpIoView {
            timers: v.timers.update(a - 0xFD, TimerView { counter_high: 0, ..v.timers[a - 0xFD] }),
            ..v
        }
    } else {
        v
    }
}

/// The unit after a processor write of `value` at `a` with status byte
/// `psw`: TEST ($F0) only while the P flag (bit 5) is clear; CONTROL ($F1);
/// the DSP address ($F2); the APU-to-CPU ports ($F4-$F7); the timer targets
/// ($FA-$FC); these but the ports also land in RAM, and so do $F8/$F9. $F3
/// goes to the DSP and $FD-$FF are read-only. Every other address is RAM,
/// also under the boot ROM.
pub open spec fn smp_written(v: SmpIoView, a: int, value: u8, psw: u8) -> SmpIoView {
    if 0xF0 <= a < 0x100 {
        if a == 0xF0 {
            if psw & 0x20 == 0 { SmpIoView { ram: v.ram.update(a, value), ..v } } else { v }
        } else if a == 0xF1 {
            SmpIoView { ram: v.ram.update(a, value), ..control_written(v, value) }
        } else if a == 0xF2 {
            SmpIoView { dsp_reg_address: value, ram: v.ram.update(a, value), ..v }
        } else if 0xF4 <= a <= 0xF7 {
            SmpIoView { apu_to_cpu_ports: v.apu_to_cpu_ports.update(a - 0xF4, value), ..v }
        } else if a == 0xF8 || a == 0xF9 {
            SmpIoView { ram: v.ram.update(a, value), ..v }
        } else if 0xFA <= a <= 0xFC {
            SmpIoView {
                timers: v.timers.update(a - 0xFA, TimerView { target: value, ..v.timers[a - 0xFA] }),
                ram: v.ram.update(a, value),
                ..v
            }
        } else {
            v
        }
    } else {
        SmpIoView { ram: v.ram.update(a, value), ..v }
    }
}

/// The timers count while TEST ($F0) has bit 3 set and bit 0 clear.
pub open spec fn timers_enabled(v: SmpIoView) -> bool {
    v.ram[0xF0] & 0x08 != 0 && v.ram[0xF0] & 0x01 == 0
}

/// The unit after `n` CPU cycles: each timer counts them while the timers
/// are enabled.
pub open spec fn smp_after_cycles(v: SmpIoView, n: int) -> SmpIoView {
    if timers_enabled(v) {
        SmpIoView {
            timers: seq![timer_after(v.timers[0], n), timer_after(v.timers[1], n), timer_after(v.timers[2], n)],
            ..v
        }
    } else {
        v
    }
}

/// `n` cycles keep every running timer's divider within `i32`.
pub open spec fn cycles_fit(v: SmpIoView, n: int) -> bool {
    forall|i: int| 0 <= i < 3 && #[trigger] v.timers[i].is_running ==>
        i32::MIN <= v.timers[i].ticks + n <= i32::MAX
}

/// 64 KiB of zeros.
fn zeroed_ram() -> (r: Vec<u8>)
    ensures
        r@ == Seq::new(0x10000, |i: int| 0u8),
{
    let mut r: Vec<u8> = Vec::new();
    let mut i: usize = 0;
    while i < 0x10000
        invariant
            i <= 0x10000,
            r@ =~= Seq::new(i as nat, |k: int| 0u8),
        decreases 0x10000 - i,
    {
        r.push(0);
        i += 1;
        proof {
            assert(r@ =~= Seq::new(i as nat, |k: int| 0u8));
        }
    }
    r
}

/// The boot ROM the unit powers on with.
fn default_ipl_rom_vec() -> (r: Vec<u8>)
    ensures
        r@ == default_ipl_rom(),
{
    let mut r: Vec<u8> = Vec::new();
    let mut j: usize = 0;
    while j < 64
        invariant
            j <= 64,
            r@ =~= default_ipl_rom().take(j as int),
        decreases 64 - j,
    {
        r.push(ipl_rom_byte(j));
        j += 1;
        proof {
            assert(r@ =~= default_ipl_rom().take(j as int));
        }
    }
    proof {
        assert(default_ipl_rom().take(64) =~= default_ipl_rom());
    }
    r
}

/// Four zero bytes.
fn vec_of_zeros() -> (r: Vec<u8>)
    ensures
        r@ == seq![0u8, 0, 0, 0],
{
    let mut r: Vec<u8> = Vec::new();
    r.push(0);
    r.push(0);
    r.push(0);
    r.push(0);
    proof {
        assert(r@ =~= seq![0u8, 0, 0, 0]);
    }
    r
}

/// The port mask the unit uses.
pub proof fn lemma_port_mask(p: u8)
    by (bit_vector)
    ensures
        p & 0x03 == p % 4,
        p & 0x03 < 4,
{
}

/// The address mask the unit uses.
proof fn lemma_address_mask(a: u32)
    by (bit_vector)
    ensures
        a & 0xFFFF == a % 0x10000,
        a & 0xFFFF < 0x10000,
{
}

/// Law of the memory map: a processor write to RAM outside the I/O page
/// ($00F0-$00FF) is read back, unless the boot ROM is mapped over it; a
/// write under the mapped boot ROM still lands in RAM and is read once the
/// ROM is unmapped.
pub proof fn lemma_ram_read_back(v: SmpIoView, a: int, value: u8, psw: u8, dsp_value: u8)
    requires
        smp_io_wf(v),
        0 <= a < 0x10000,
        !(0xF0 <= a < 0x100),
    ensures
        !(a >= 0xFFC0 && v.is_ipl_rom_enabled) ==> smp_read_value(smp_written(v, a, value, psw), a, dsp_value) == value,
        smp_written(v, a, value, psw).ram[a] == value,
{
}

/// Law of the ports: what the CPU writes to a port the processor reads at
/// $F4-$F7, and what the processor writes there the CPU reads.
pub proof fn lemma_ports_carry(v: SmpIoView, p: int, value: u8, psw: u8, dsp_value: u8)
    requires
        smp_io_wf(v),
        0 <= p < 4,
    ensures
        smp_read_value(SmpIoView { cpu_to_apu_ports: v.cpu_to_apu_ports.update(p, value), ..v }, 0xF4 + p, dsp_value) == value,
        smp_written(v, 0xF4 + p, value, psw).apu_to_cpu_ports[p] == value,
{
}

/// Law of the CONTROL register ($F1): bit 0 starts (1) or stops (0) timer
/// 0, bit 1 timer 1 and bit 2 timer 2; a started timer counts from zero;
/// bit 7 maps the boot ROM; the value also lands in RAM.
pub proof fn lemma_control_bits(v: SmpIoView, value: u8, psw: u8)
    requires
        smp_io_wf(v),
    ensures
        ({
            let n = smp_written(v, 0xF1, value, psw);
            &&& n.timers.len() == 3
            &&& n.timers[0].is_running == (value & 0x01 != 0)
            &&& n.timers[1].is_running == (value & 0x02 != 0)
            &&& n.timers[2].is_running == (value & 0x04 != 0)
            &&& forall|i: int| 0 <= i < 3 && #[trigger] n.timers[i].is_running ==>
                    n.timers[i].ticks == 0 && n.timers[i].counter_low == 0 && n.timers[i].counter_high == 0
            &&& forall|i: int| 0 <= i < 3 ==> #[trigger] n.timers[i].resolution == v.timers[i].resolution
                    && n.timers[i].target == v.timers[i].target
            &&& n.is_ipl_rom_enabled == (value & 0x80 != 0)
            &&& n.ram[0xF1] == value
        }),
{
}

/// Law of the timer chain as the processor sees it: with the timers
/// enabled in TEST, a timer whose target was written and that CONTROL
/// started reads, after `n` CPU cycles, the number of whole target periods
/// of whole divider periods modulo 16 (a target of 0 counting as 256).
pub proof fn lemma_started_timer_reads(v: SmpIoView, i: int, target: u8, n: int, psw: u8)
    requires
        smp_io_wf(v),
        0 <= i < 3,
        timers_enabled(v),
        0 <= n <= i32::MAX,
    ensures
        ({
            let w1 = smp_written(v, 0xFA + i, target, psw);
            let bit: u8 = if i == 0 { 0x01u8 } else if i == 1 { 0x02u8 } else { 0x04u8 };
            let w2 = smp_written(w1, 0xF1, bit, psw);
            let w3 = smp_after_cycles(w2, n);
            smp_read_value(w3, 0xFD + i, 0) as int
                == ((n / w1.timers[i].resolution as int) / stage2_period(target) as int) % 16
        }),
{
    let w1 = smp_written(v, 0xFA + i, target, psw);
    let bit: u8 = if i == 0 { 0x01u8 } else if i == 1 { 0x02u8 } else { 0x04u8 };
    assert(0x01u8 & 0x01 != 0 && 0x01u8 & 0x02 == 0 && 0x01u8 & 0x04 == 0 && 0x01u8 & 0x80 == 0
        && 0x02u8 & 0x01 == 0 && 0x02u8 & 0x02 != 0 && 0x02u8 & 0x04 == 0 && 0x02u8 & 0x80 == 0
        && 0x04u8 & 0x01 == 0 && 0x04u8 & 0x02 == 0 && 0x04u8 & 0x04 != 0 && 0x04u8 & 0x80 == 0
        && 0x01u8 & 0x30 == 0 && 0x02u8 & 0x30 == 0 && 0x04u8 & 0x30 == 0) by (bit_vector);
    let w2 = smp_written(w1, 0xF1, bit, psw);
    assert(w2.ram[0xF0] == v.ram[0xF0]);
    let r = w1.timers[i].resolution;
    lemma_counter_after_cycles(r, target, n);
    assert(w2.timers[i] == (TimerView { resolution: r, is_running: true, ticks: 0, target, counter_low: 0, counter_high: 0 }));
}

/// Law of the timer counters: a read of $FD-$FF gives the low nibble of
/// that timer's stage-3 counter and clears the counter, so a read right
/// after gives 0; the other timers are untouched.
pub proof fn lemma_counter_read_clears(v: SmpIoView, i: int, dsp_value: u8)
    requires
        smp_io_wf(v),
        0 <= i < 3,
    ensures
        smp_read_value(v, 0xFD + i, dsp_value) as int == v.timers[i].counter_high as int % 16,
        smp_read_value(smp_after_read(v, 0xFD + i), 0xFD + i, dsp_value) == 0,
        forall|j: int| 0 <= j < 3 && j != i ==> #[trigger] smp_after_read(v, 0xFD + i).timers[j] == v.timers[j],
{
}

/// Law of the TEST register ($F0) and the write-only registers: a TEST
/// write is ignored while the processor's P flag (status bit 5) is set, and
/// otherwise enables the timers exactly when it sets bit 3 and clears bit
/// 0; TEST, CONTROL and the timer targets read back as 0 whatever was
/// written.
pub proof fn lemma_test_and_write_only(v: SmpIoView, a: int, x: u8, psw: u8, dsp_value: u8)
    requires
        smp_io_wf(v),
        a == 0xF0 || a == 0xF1 || a == 0xFA || a == 0xFB || a == 0xFC,
    ensures
        psw & 0x20 != 0 ==> smp_written(v, 0xF0, x, psw) == v,
        psw & 0x20 == 0 ==> timers_enabled(smp_written(v, 0xF0, x, psw)) == (x & 0x08 != 0 && x & 0x01 == 0),
        smp_read_value(smp_written(v, a, x, psw), a, dsp_value) == 0,
{
}

impl Apu {
    /// A unit just powered on (see `smp_power_on`).
    pub fn new() -> (a: Apu)
        ensures
            smp_io_wf(a@),
            a@ == smp_power_on(),
    {
        let mut a = Apu {
            ram: zeroed_ram(),
            ipl_rom: default_ipl_rom_vec(),
            timer0: Timer::new(256),
            timer1: Timer::new(256),
            timer2: Timer::new(32),
            is_ipl_rom_enabled: true,
            dsp_reg_address: 0,
            cpu_to_apu_ports: vec_of_zeros(),
            apu_to_cpu_ports: vec_of_zeros(),
        };
        a.reset();
        proof {
            assert(a@.timers =~= smp_power_on().timers);
        }
        a
    }

    /// Resets the unit (see `smp_after_reset`).
    pub fn reset(&mut self)
        requires
            smp_io_wf(old(self)@),
        ensures
            smp_io_wf(final(self)@),
            final(self)@ == smp_after_reset(old(self)@),
    {
        let ghost o = self@;
        self.ram = zeroed_ram();
        self.ipl_rom = default_ipl_rom_vec();
        self.timer0.reset();
        self.timer1.reset();
        self.timer2.reset();
        self.is_ipl_rom_enabled = true;
        self.dsp_reg_address = 0;
        self.cpu_to_apu_ports = vec_of_zeros();
        self.apu_to_cpu_ports = vec_of_zeros();
        self.ram.set(0xF0, 0x0A);
        proof {
            assert(0xB0u8 & 0x01 == 0 && 0xB0u8 & 0x02 == 0 && 0xB0u8 & 0x04 == 0
                && 0xB0u8 & 0x80 != 0 && 0xB0u8 & 0x20 != 0 && 0xB0u8 & 0x10 != 0) by (bit_vector);
            assert(self.timer0@ == timer_cleared(o.timers[0]));
            assert(self.timer1@ == timer_cleared(o.timers[1]));
            assert(self.timer2@ == timer_cleared(o.timers[2]));
        }
        self.set_control_reg(0xB0);
        self.ram.set(0xF1, 0xB0);
        proof {
            assert(self.ram@ =~= reset_ram());
            assert(self@.timers =~= smp_after_reset(o).timers);
            assert(self@.cpu_to_apu_ports =~= seq![0u8, 0, 0, 0]);
            assert(self@.apu_to_cpu_ports =~= seq![0u8, 0, 0, 0]);
        }
    }

    /// The CONTROL register write (see `control_written`).
    fn set_control_reg(&mut self, value: u8)
        requires
            smp_io_wf(old(self)@),
        ensures
            final(self)@ == control_written(old(self)@, value),
    {
        let ghost o = self@;
        self.is_ipl_rom_enabled = value & 0x80 != 0;
        if value & 0x20 != 0 {
            self.cpu_to_apu_ports.set(2, 0);
            self.cpu_to_apu_ports.set(3, 0);
        }
        if value & 0x10 != 0 {
            self.cpu_to_apu_ports.set(0, 0);
            self.cpu_to_apu_ports.set(1, 0);
        }
        self.timer0.set_start_stop_bit(value & 0x01 != 0);
        self.timer1.set_start_stop_bit(value & 0x02 != 0);
        self.timer2.set_start_stop_bit(value & 0x04 != 0);
        proof {
            let c = control_written(o, value);
            assert(self@.cpu_to_apu_ports =~= c.cpu_to_apu_ports);
            assert(self@.timers =~= c.timers);
        }
    }

    /// A CPU write of its port `port` (low two bits), read by the S-SMP at
    /// $F4-$F7.
    pub fn cpu_write_port(&mut self, port: u8, value: u8)
        requires
            smp_io_wf(old(self)@),
        ensures
            smp_io_wf(final(self)@),
            final(self)@ == (SmpIoView {
                cpu_to_apu_ports: old(self)@.cpu_to_apu_ports.update((port % 4) as int, value),
                ..old(self)@
            }),
    {
        proof {
            lemma_port_mask(port);
        }
        let p = (port & 0x03) as usize;
        self.cpu_to_apu_ports.set(p, value);
    }

    /// A CPU read of its port `port` (low two bits): what the S-SMP last
    /// wrote at $F4-$F7.
    pub fn cpu_read_port(&self, port: u8) -> (r: u8)
        requires
            smp_io_wf(self@),
        ensures
            r == self@.apu_to_cpu_ports[(port % 4) as int],
    {
        proof {
            lemma_port_mask(port);
        }
        self.apu_to_cpu_ports[(port & 0x03) as usize]
    }

    /// `num_cycles` CPU cycles for the timers (see `smp_after_cycles`).
    pub fn cpu_cycles_callback(&mut self, num_cycles: i32)
        requires
            smp_io_wf(old(self)@),
            cycles_fit(old(self)@, num_cycles as int),
        ensures
            smp_io_wf(final(self)@),
            final(self)@ == smp_after_cycles(old(self)@, num_cycles as int),
    {
        let ghost o = self@;
        let test = self.ram[0xF0];
        if test & 0x08 != 0 && test & 0x01 == 0 {
            proof {
                assert(o.timers[0] == self.timer0@);
                assert(o.timers[1] == self.timer1@);
                assert(o.timers[2] == self.timer2@);
            }
            self.timer0.cpu_cycles_callback(num_cycles);
            self.timer1.cpu_cycles_callback(num_cycles);
            self.timer2.cpu_cycles_callback(num_cycles);
            proof {
                assert(self@.timers =~= smp_after_cycles(o, num_cycles as int).timers);
            }
        }
    }

    /// A processor read at `address` (modulo 64 KiB), `dsp_value` being the
    /// DSP register the DSP address selects (see `smp_read_value` and
    /// `smp_after_read`).
    pub fn read_u8(&mut self, address: u32, dsp_value: u8) -> (r: u8)
        requires
            smp_io_wf(old(self)@),
        ensures
            smp_io_wf(final(self)@),
            r == smp_read_value(old(self)@, (address % 0x10000) as int, dsp_value),
            final(self)@ == smp_after_read(old(self)@, (address % 0x10000) as int),
    {
        let ghost o = self@;
        proof {
            lemma_address_mask(address);
        }
        let a = (address & 0xFFFF) as usize;
        if a >= 0xF0 && a < 0x100 {
            if a == 0xF0 || a == 0xF1 || (a >= 0xFA && a <= 0xFC) {
                0
            } else if a == 0xF2 {
                self.dsp_reg_address
            } else if a == 0xF3 {
                dsp_value
            } else if a == 0xFD {
                let v = self.timer0.read_counter();
                proof {
                    assert(self@.timers =~= smp_after_read(o, a as int).timers);
                }
                v
            } else if a == 0xFE {
                let v = self.timer1.read_counter();
                proof {
                    assert(self@.timers =~= smp_after_read(o, a as int).timers);
                }
                v
            } else if a == 0xFF {
                let v = self.timer2.read_counter();
                proof {
                    assert(self@.timers =~= smp_after_read(o, a as int).timers);
                }
                v
            } else if a >= 0xF4 && a <= 0xF7 {
                self.cpu_to_apu_ports[a - 0xF4]
            } else {
                self.ram[a]
            }
        } else if a >= 0xFFC0 && self.is_ipl_rom_enabled {
            self.ipl_rom[a - 0xFFC0]
        } else {
            self.ram[a]
        }
    }

    /// A processor write of `value` at `address` (modulo 64 KiB) with status
    /// byte `psw` (see `smp_written`). A write of the DSP data register ($F3)
    /// is handed back as the DSP address and the value, for the DSP.
    pub fn write_u8(&mut self, address: u32, value: u8, psw: u8) -> (dsp_write: Option<(u8, u8)>)
        requires
            smp_io_wf(old(self)@),
        ensures
            smp_io_wf(final(self)@),
            final(self)@ == smp_written(old(self)@, (address % 0x10000) as int, value, psw),
            dsp_write == if address % 0x10000 == 0xF3 {
                Some((old(self)@.dsp_reg_address, value))
            } else {
                None::<(u8, u8)>
            },
    {
        let ghost o = self@;
        proof {
            lemma_address_mask(address);
        }
        let a = (address & 0xFFFF) as usize;
        if a >= 0xF0 && a < 0x100 {
            if a == 0xF0 {
                if psw & 0x20 == 0 {
                    self.ram.set(a, value);
                }
                None
            } else if a == 0xF1 {
                self.set_control_reg(value);
                self.ram.set(a, value);
                None
            } else if a == 0xF2 {
                self.dsp_reg_address = value;
                self.ram.set(a, value);
                None
            } else if a == 0xF3 {
                Some((self.dsp_reg_address, value))
            } else if a >= 0xF4 && a <= 0xF7 {
                self.apu_to_cpu_ports.set(a - 0xF4, value);
                None
            } else if a == 0xF8 || a == 0xF9 {
                self.ram.set(a, value);
                None
            } else if a == 0xFA {
                self.timer0.set_target(value);
                self.ram.set(a, value);
                proof {
                    assert(self@.timers =~= smp_written(o, a as int, value, psw).timers);
                }
                None
            } else if a == 0xFB {
                self.timer1.set_target(value);
                self.ram.set(a, value);
                proof {
                    assert(self@.timers =~= smp_written(o, a as int, value, psw).timers);
                }
                None
            } else if a == 0xFC {
                self.timer2.set_target(value);
                self.ram.set(a, value);
                proof {
                    assert(self@.timers =~= smp_written(o, a as int, value, psw).timers);
                }
                None
            } else {
                None
            }
        } else {
            self.ram.set(a, value);
            None
        }
    }
}

} // verus!
