//! The CPU side of the sound unit's ports ($2140-$2143) with the optional
//! high-level boot: instead of running the boot ROM's upload loop, the
//! handshake answers the CPU's upload protocol itself, writes each byte
//! into the unit's RAM and, when the CPU sends the start command, hands the
//! start address to the processor.

use vstd::prelude::*;
use crate::snes_apu::{lemma_port_mask, Apu, SmpIoView, smp_io_wf, smp_power_on, smp_written, smp_read_value, smp_after_read};

verus! {

/// Where the boot handshake stands.
#[derive(Debug, Clone, Copy, PartialEq, Eq, Structural)]
pub enum BootState {
    /// The ports show the boot signature $AA/$BB; the CPU's $CC starts the
    /// upload.
    ReadySignature,
    /// Bytes are being uploaded.
    Uploading,
    /// The uploaded program runs; the ports carry what it writes.
    Running,
}

/// The front end's choices for the sound unit's ports.
#[derive(Debug, Clone, Copy)]
pub struct BootFlags {
    /// Answer the boot protocol here instead of by the boot ROM.
    pub boot_hle_enabled: bool,
    /// Seed the boot signature even when the boot ROM runs.
    pub fast_upload: bool,
    /// Start in the running state, as if a program had been uploaded.
    pub skip_boot: bool,
    /// Go to the running state on the CPU's first port write.
    pub fake_upload: bool,
    /// Reads in the running state give what the CPU last saw.
    pub smw_apu_echo: bool,
    /// Keep answering the handshake in the running state: two zero writes
    /// to port 0 restart the program.
    pub smw_apu_hle_handshake: bool,
    /// Reads in the running state echo what the CPU last saw until a
    /// program has been started.
    pub smw_apu_port_echo_strict: bool,
    /// A fixed answer for port 0 reads during the boot.
    pub force_port0: Option<u8>,
    /// A fixed answer for port 0 reads, in every state.
    pub debug_force_port0: Option<u8>,
    /// A fixed answer for port 1 reads, in every state.
    pub debug_force_port1: Option<u8>,
}

/// Abstract contents of a [`BootHandshake`].
pub struct BootView {
    pub io: SmpIoView,
    pub flags: BootFlags,
    pub state: BootState,
    pub to_cpu: Seq<u8>,
    pub latch: Seq<u8>,
    pub upload_addr: u16,
    pub expected_index: u8,
    pub last_port1: u8,
    pub pending_idx: Option<u8>,
    pub data_ready: bool,
    pub upload_bytes: u64,
    pub last_upload_idx: u8,
    pub upload_done_count: u64,
    pub port0_echo: u8,
    pub zero_write_seen: bool,
    pub block_active: bool,
    pub zero_streak: u8,
    pub start_pc: Option<u16>,
}

pub struct BootHandshake {
    io: Apu,
    flags: BootFlags,
    state: BootState,
    to_cpu: Vec<u8>,
    latch: Vec<u8>,
    upload_addr: u16,
    expected_index: u8,
    last_port1: u8,
    pending_idx: Option<u8>,
    data_ready: bool,
    upload_bytes: u64,
    last_upload_idx: u8,
    upload_done_count: u64,
    port0_echo: u8,
    zero_write_seen: bool,
    block_active: bool,
    zero_streak: u8,
    start_pc: Option<u16>,
}

impl View for BootHandshake {
    type V = BootView;

    closed spec fn view(&self) -> BootView {
        BootView {
            io: self.io@,
            flags: self.flags,
            state: self.state,
            to_cpu: self.to_cpu@,
            latch: self.latch@,
            upload_addr: self.upload_addr,
            expected_index: self.expected_index,
            last_port1: self.last_port1,
            pending_idx: self.pending_idx,
            data_ready: self.data_ready,
            upload_bytes: self.upload_bytes,
            last_upload_idx: self.last_upload_idx,
            upload_done_count: self.upload_done_count,
            port0_echo: self.port0_echo,
            zero_write_seen: self.zero_write_seen,
            block_active: self.block_active,
            zero_streak: self.zero_streak,
            start_pc: self.start_pc,
        }
    }
}

/// The unit is well formed and both port tables have four entries.
pub open spec fn boot_wf(v: BootView) -> bool {
    smp_io_wf(v.io) && v.to_cpu.len() == 4 && v.latch.len() == 4
}

/// The upload ends and the program starts: the boot ROM is unmapped, port
/// 0 carries `ack`, the CPU side shows the unit's ports, and the processor
/// is to start at the upload address ($0200 for 0).
pub open spec fn upload_finished(v: BootView, ack: u8) -> BootView {
    let io1 = smp_written(v.io, 0xF1, 0, 0);
    let io2 = smp_written(io1, 0xF4, ack, 0);
    BootView {
        io: io2,
        state: BootState::Running,
        block_active: false,
        data_ready: false,
        upload_done_count: (v.upload_done_count + 1) as u64,
        start_pc: Some(if v.upload_addr == 0 { 0x0200u16 } else { v.upload_addr }),
        to_cpu: io2.apu_to_cpu_ports,
        ..v
    }
}

/// Byte `data` of index `idx` is stored at the upload address plus the
/// index (modulo 64 KiB); the next index is expected. A byte that lands on
/// the DSP data register is handed back for the DSP.
pub open spec fn byte_uploaded(v: BootView, idx: u8, data: u8, psw: u8) -> (BootView, Option<(u8, u8)>) {
    let addr = (v.upload_addr as int + idx as int) % 0x10000;
    (
        BootView {
            io: smp_written(v.io, addr, data, psw),
            upload_bytes: if v.upload_bytes == u64::MAX { u64::MAX } else { (v.upload_bytes + 1) as u64 },
            last_upload_idx: idx,
            expected_index: ((v.expected_index + 1) % 256) as u8,
            data_ready: false,
            pending_idx: None,
            ..v
        },
        if addr == 0xF3 { Some((v.io.dsp_reg_address, data)) } else { None },
    )
}

/// Port 2 sets the low byte of the upload address, port 3 the high byte.
pub open spec fn upload_address_written(a: u16, p: int, value: u8) -> u16 {
    if p == 2 {
        ((a & 0xFF00) | (value as u16)) as u16
    } else {
        ((a & 0x00FF) | ((value as u16) << 8u16)) as u16
    }
}

/// A port write while the signature shows: $CC on port 0 starts the upload
/// (other values leave the signature), ports 2/3 set the upload address,
/// port 1 is kept as the next data byte.
pub open spec fn signature_written(v: BootView, p: int, value: u8) -> BootView {
    if p == 0 {
        if value != 0xCC {
            v
        } else {
            BootView {
                state: BootState::Uploading,
                to_cpu: v.to_cpu.update(0, 0xCCu8),
                port0_echo: 0xCC,
                expected_index: 0,
                block_active: false,
                zero_write_seen: false,
                pending_idx: None,
                data_ready: false,
                upload_bytes: 0,
                last_upload_idx: 0,
                ..v
            }
        }
    } else if p == 2 || p == 3 {
        BootView { upload_addr: upload_address_written(v.upload_addr, p, value), ..v }
    } else {
        BootView { last_port1: value, ..v }
    }
}

/// A port write during the upload. Ports 2/3 set the address. Port 0
/// carries the index and is echoed back: the expected index stores the
/// data byte once port 1 has given it; another index ends the block, and
/// with a data byte of 0 it starts the program, acknowledged with the
/// index. Port 1 carries the data byte, stored at once when its index came
/// first.
pub open spec fn upload_written(v: BootView, p: int, value: u8, psw: u8) -> (BootView, Option<(u8, u8)>) {
    if p == 2 || p == 3 {
        (BootView { upload_addr: upload_address_written(v.upload_addr, p, value), ..v }, None)
    } else if p == 0 {
        let v1 = BootView { to_cpu: v.to_cpu.update(0, value), port0_echo: value, ..v };
        if value == v.expected_index {
            let v2 = BootView { pending_idx: Some(value), ..v1 };
            if v.data_ready {
                byte_uploaded(v2, value, v.last_port1, psw)
            } else {
                (v2, None)
            }
        } else {
            let v2 = BootView { pending_idx: None, data_ready: false, expected_index: 0, ..v1 };
            if v.last_port1 == 0 {
                (upload_finished(v2, value), None)
            } else {
                (v2, None)
            }
        }
    } else {
        let v1 = BootView { last_port1: value, to_cpu: v.to_cpu.update(1, value), data_ready: true, ..v };
        match v.pending_idx {
            Some(idx) => if idx == v.expected_index {
                byte_uploaded(v1, idx, value, psw)
            } else {
                (v1, None)
            },
            None => (v1, None),
        }
    }
}

/// A port write while the program runs: the CPU side keeps the value; with
/// the continued handshake, a second zero in a row on port 0 restarts the
/// program.
pub open spec fn running_written(v: BootView, p: int, value: u8) -> BootView {
    let v1 = BootView { to_cpu: v.to_cpu.update(p, value), ..v };
    if v.flags.smw_apu_hle_handshake && p == 0 {
        let streak: u8 = if value == 0 {
            if v.zero_streak == 255 { 255u8 } else { (v.zero_streak + 1) as u8 }
        } else {
            0
        };
        if streak >= 2 {
            BootView { zero_streak: 0, ..upload_finished(v1, 0) }
        } else {
            BootView { zero_streak: streak, ..v1 }
        }
    } else {
        v1
    }
}

/// A CPU write of `value` to port `port` (low two bits), the processor's
/// status byte being `psw`: the unit sees the value at $F4-$F7; then, with
/// the high-level boot, the handshake takes its step. The result is a DSP
/// register write an uploaded byte made, if any.
pub open spec fn port_written(v: BootView, port: u8, value: u8, psw: u8) -> (BootView, Option<(u8, u8)>) {
    let p = (port % 4) as int;
    let v1 = BootView {
        latch: v.latch.update(p, value),
        io: SmpIoView { cpu_to_apu_ports: v.io.cpu_to_apu_ports.update(p, value), ..v.io },
        ..v
    };
    let v2 = if v1.flags.fake_upload && v1.state != BootState::Running { upload_finished(v1, 0) } else { v1 };
    if !v2.flags.boot_hle_enabled {
        (v2, None)
    } else {
        match v2.state {
            BootState::ReadySignature => (signature_written(v2, p, value), None),
            BootState::Uploading => upload_written(v2, p, value, psw),
            BootState::Running => (running_written(v2, p, value), None),
        }
    }
}

/// A CPU read of port `port` (low two bits) and the handshake after it: a
/// fixed answer where one is set; while running, the unit's port (or the
/// CPU side's copy, as the flags ask), which the copy then takes; during
/// the boot, port 0 echoes the CPU's last write and the others show the
/// CPU side's copy.
pub open spec fn port_read(v: BootView, port: u8) -> (BootView, u8) {
    let p = (port % 4) as int;
    let forced = if p == 0 { v.flags.debug_force_port0 } else if p == 1 { v.flags.debug_force_port1 } else { None };
    match forced {
        Some(f) => (v, f),
        None => if v.state == BootState::Running {
            let r = if v.flags.smw_apu_port_echo_strict {
                if v.upload_done_count > 0 { v.io.apu_to_cpu_ports[p] } else { v.to_cpu[p] }
            } else if v.flags.smw_apu_echo || v.flags.smw_apu_hle_handshake {
                v.to_cpu[p]
            } else {
                v.io.apu_to_cpu_ports[p]
            };
            (if !v.flags.smw_apu_echo { BootView { to_cpu: v.to_cpu.update(p, r), ..v } } else { v }, r)
        } else {
            (v, match v.flags.force_port0 {
                Some(f) => if p == 0 { f } else { v.to_cpu[p] },
                None => if p == 0 { v.port0_echo } else { v.to_cpu[p] },
            })
        },
    }
}

/// The ports shown before the boot: the signature $AA/$BB, written to the
/// unit too, when the high-level boot waits for it (or a fast upload is
/// asked for); zeros otherwise.
pub open spec fn boot_ports_seeded(v: BootView) -> BootView {
    if v.state == BootState::ReadySignature || v.flags.fast_upload {
        let io1 = smp_written(v.io, 0xF4, 0xAA, 0);
        let io2 = smp_written(io1, 0xF5, 0xBB, 0);
        let io3 = smp_written(io2, 0xF6, 0, 0);
        let io4 = smp_written(io3, 0xF7, 0, 0);
        BootView {
            to_cpu: seq![0xAAu8, 0xBB, 0, 0],
            io: io4,
            latch: seq![0u8, 0, 0, 0],
            port0_echo: 0xAA,
            ..v
        }
    } else {
        BootView { to_cpu: seq![0u8, 0, 0, 0], ..v }
    }
}

/// The handshake as first built with `flags`: a fresh unit, running at once
/// without the high-level boot or when the boot is skipped, otherwise
/// showing the signature; a skipped boot starts at once, acknowledged with
/// $CC, and then shows $CC/$BB.
pub open spec fn boot_initial(flags: BootFlags) -> BootView {
    let v0 = BootView {
        io: smp_power_on(),
        flags,
        state: if flags.skip_boot || !flags.boot_hle_enabled { BootState::Running } else { BootState::ReadySignature },
        to_cpu: seq![0u8, 0, 0, 0],
        latch: seq![0u8, 0, 0, 0],
        upload_addr: 0x0200,
        expected_index: 0,
        last_port1: 0,
        pending_idx: None,
        data_ready: false,
        upload_bytes: 0,
        last_upload_idx: 0,
        upload_done_count: 0,
        port0_echo: 0xAA,
        zero_write_seen: false,
        block_active: false,
        zero_streak: 0,
        start_pc: None,
    };
    let v1 = boot_ports_seeded(v0);
    if flags.skip_boot {
        let v2 = upload_finished(BootView { to_cpu: seq![0xAAu8, 0xBB, 0, 0], port0_echo: 0xAA, ..v1 }, 0xCC);
        BootView { port0_echo: 0xCC, to_cpu: v2.to_cpu.update(0, 0xCCu8).update(1, 0xBBu8), ..v2 }
    } else {
        v1
    }
}

/// Law of the upload's blocks: in the upload phase of the high-level boot,
/// a port-0 write of anything but the expected index ends the block. With a
/// non-zero byte last given on port 1 the upload goes on at the same
/// address and the next block counts its indices from 0 again; with 0 the
/// program starts at the upload address ($0200 for 0), acknowledged with
/// the written value.
pub proof fn lemma_upload_block_end(v: BootView, value: u8, psw: u8)
    requires
        boot_wf(v),
        v.flags.boot_hle_enabled,
        !v.flags.fake_upload,
        v.state == BootState::Uploading,
        value != v.expected_index,
        v.upload_done_count < u64::MAX - 1,
    ensures
        ({
            let n = port_written(v, 0, value, psw).0;
            &&& v.last_port1 != 0 ==> n.state == BootState::Uploading && n.expected_index == 0
                && n.pending_idx is None && !n.data_ready && n.upload_addr == v.upload_addr
            &&& v.last_port1 == 0 ==> n.state == BootState::Running
                && n.start_pc == Some(if v.upload_addr == 0 { 0x0200u16 } else { v.upload_addr })
                && n.io.apu_to_cpu_ports[0] == value
        }),
{
}

/// Law of a multi-block upload: after a block ends with a non-zero port-1
/// byte, the next block's first byte (given on port 1, then index 0 on
/// port 0) is stored at the upload address, outside the I/O page.
pub proof fn lemma_next_block_first_byte(v: BootView, cmd: u8, d: u8, psw: u8)
    requires
        boot_wf(v),
        v.flags.boot_hle_enabled,
        !v.flags.fake_upload,
        v.state == BootState::Uploading,
        cmd != v.expected_index,
        v.last_port1 != 0,
        v.upload_done_count < u64::MAX - 1,
        !(0xF0 <= v.upload_addr < 0x100),
    ensures
        ({
            let n1 = port_written(v, 0, cmd, psw).0;
            let n2 = port_written(n1, 1, d, psw).0;
            let n3 = port_written(n2, 0, 0, psw).0;
            &&& n3.io.ram[v.upload_addr as int] == d
            &&& n3.expected_index == 1
            &&& n3.state == BootState::Uploading
        }),
{
    let n1 = port_written(v, 0, cmd, psw).0;
    lemma_upload_block_end(v, cmd, psw);
    let n2 = port_written(n1, 1, d, psw).0;
    assert(n2.data_ready && n2.last_port1 == d && n2.expected_index == 0 && n2.state == BootState::Uploading);
    assert(boot_wf(n2));
    lemma_upload_byte_lands(n2, 0, psw);
}

/// Law of the port-0 echo during the upload: without fixed answers, a
/// CPU read of port 0 right after a port-0 write gives the written value
/// back, unless that write started the program.
pub proof fn lemma_upload_port0_echo(v: BootView, x: u8, psw: u8)
    requires
        boot_wf(v),
        v.flags.boot_hle_enabled,
        !v.flags.fake_upload,
        v.state == BootState::Uploading,
        v.flags.force_port0 is None,
        v.flags.debug_force_port0 is None,
        !(x != v.expected_index && v.last_port1 == 0),
        v.upload_done_count < u64::MAX - 1,
    ensures
        port_read(port_written(v, 0, x, psw).0, 0).1 == x,
{
}

/// Law of the upload: in the upload phase of the high-level boot, with a
/// data byte given on port 1, writing the expected index on port 0 stores
/// that byte at the upload address plus the index (modulo 64 KiB), where
/// the processor then reads it (outside the I/O page and the mapped boot
/// ROM), and the next index is expected.
pub proof fn lemma_upload_byte_lands(v: BootView, value: u8, psw: u8)
    requires
        boot_wf(v),
        v.flags.boot_hle_enabled,
        !v.flags.fake_upload,
        v.state == BootState::Uploading,
        v.data_ready,
        value == v.expected_index,
    ensures
        ({
            let addr = (v.upload_addr as int + value as int) % 0x10000;
            let n = port_written(v, 0, value, psw).0;
            &&& n.expected_index == (v.expected_index + 1) % 256
            &&& (!(0xF0 <= addr < 0x100) && !(addr >= 0xFFC0 && v.io.is_ipl_rom_enabled))
                ==> smp_read_value(n.io, addr, 0) == v.last_port1
        }),
{
}


/// Four entries.
fn four(a: u8, b: u8, c: u8, d: u8) -> (r: Vec<u8>)
    ensures
        r@ == seq![a, b, c, d],
{
    let mut r: Vec<u8> = Vec::new();
    r.push(a);
    r.push(b);
    r.push(c);
    r.push(d);
    proof {
        assert(r@ =~= seq![a, b, c, d]);
    }
    r
}

impl BootHandshake {
    /// The handshake as first built (see `boot_initial`).
    pub fn new(flags: BootFlags) -> (b: BootHandshake)
        ensures
            boot_wf(b@),
            b@ == boot_initial(flags),
    {
        let mut b = BootHandshake {
            io: Apu::new(),
            flags,
            state: if flags.skip_boot || !flags.boot_hle_enabled { BootState::Running } else { BootState::ReadySignature },
            to_cpu: four(0, 0, 0, 0),
            latch: four(0, 0, 0, 0),
            upload_addr: 0x0200,
            expected_index: 0,
            last_port1: 0,
            pending_idx: None,
            data_ready: false,
            upload_bytes: 0,
            last_upload_idx: 0,
            upload_done_count: 0,
            port0_echo: 0xAA,
            zero_write_seen: false,
            block_active: false,
            zero_streak: 0,
            start_pc: None,
        };
        b.init_boot_ports();
        if flags.skip_boot {
            b.to_cpu = four(0xAA, 0xBB, 0, 0);
            b.port0_echo = 0xAA;
            b.finish_upload_and_start_with_ack(0xCC);
            b.port0_echo = 0xCC;
            b.to_cpu.set(0, 0xCC);
            b.to_cpu.set(1, 0xBB);
            proof {
                assert(b@.to_cpu =~= boot_initial(flags).to_cpu);
            }
        }
        b
    }

    /// Seeds the ports before the boot (see `boot_ports_seeded`).
    fn init_boot_ports(&mut self)
        requires
            boot_wf(old(self)@),
        ensures
            boot_wf(final(self)@),
            final(self)@ == boot_ports_seeded(old(self)@),
    {
        if self.state == BootState::ReadySignature || self.flags.fast_upload {
            self.to_cpu = four(0xAA, 0xBB, 0, 0);
            self.io.write_u8(0x00F4, 0xAA, 0);
            self.io.write_u8(0x00F5, 0xBB, 0);
            self.io.write_u8(0x00F6, 0x00, 0);
            self.io.write_u8(0x00F7, 0x00, 0);
            self.latch = four(0, 0, 0, 0);
            self.port0_echo = 0xAA;
        } else {
            self.to_cpu = four(0, 0, 0, 0);
        }
    }

    /// Ends the upload (see `upload_finished`).
    fn finish_upload_and_start_with_ack(&mut self, ack: u8)
        requires
            boot_wf(old(self)@),
            old(self)@.upload_done_count < u64::MAX,
        ensures
            boot_wf(final(self)@),
            final(self)@ == upload_finished(old(self)@, ack),
    {
        self.state = BootState::Running;
        self.block_active = false;
        self.data_ready = false;
        self.upload_done_count = self.upload_done_count + 1;
        self.io.write_u8(0x00F1, 0x00, 0);
        self.start_pc = Some(if self.upload_addr == 0 { 0x0200 } else { self.upload_addr });
        self.io.write_u8(0x00F4, ack, 0);
        let p0 = self.io.cpu_read_port(0);
        let p1 = self.io.cpu_read_port(1);
        let p2 = self.io.cpu_read_port(2);
        let p3 = self.io.cpu_read_port(3);
        self.to_cpu = four(p0, p1, p2, p3);
        proof {
            assert(self.to_cpu@ =~= self.io@.apu_to_cpu_ports);
        }
    }

    /// Stores an uploaded byte (see `byte_uploaded`).
    fn upload_byte(&mut self, idx: u8, data: u8, psw: u8) -> (dsp_write: Option<(u8, u8)>)
        requires
            boot_wf(old(self)@),
        ensures
            boot_wf(final(self)@),
            (final(self)@, dsp_write) == byte_uploaded(old(self)@, idx, data, psw),
    {
        self.data_ready = false;
        self.pending_idx = None;
        let addr: u32 = self.upload_addr as u32 + idx as u32;
        let w = self.io.write_u8(addr, data, psw);
        self.upload_bytes = if self.upload_bytes == u64::MAX { u64::MAX } else { self.upload_bytes + 1 };
        self.last_upload_idx = idx;
        self.expected_index = if self.expected_index == 255 { 0 } else { self.expected_index + 1 };
        w
    }

    fn set_upload_address(&mut self, p: usize, value: u8)
        requires
            p == 2 || p == 3,
        ensures
            final(self)@ == (BootView {
                upload_addr: upload_address_written(old(self)@.upload_addr, p as int, value),
                ..old(self)@
            }),
    {
        if p == 2 {
            self.upload_addr = (self.upload_addr & 0xFF00) | value as u16;
        } else {
            self.upload_addr = (self.upload_addr & 0x00FF) | ((value as u16) << 8);
        }
    }

    /// A CPU port write (see `port_written`).
    pub fn write_port(&mut self, port: u8, value: u8, psw: u8) -> (dsp_write: Option<(u8, u8)>)
        requires
            boot_wf(old(self)@),
            old(self)@.upload_done_count < u64::MAX - 1,
        ensures
            boot_wf(final(self)@),
            (final(self)@, dsp_write) == port_written(old(self)@, port, value, psw),
    {
        proof {
            lemma_port_mask(port);
        }
        let p = (port & 0x03) as usize;
        self.latch.set(p, value);
        self.io.cpu_write_port(p as u8, value);
        proof {
            assert((p as u8) % 4 == p as u8);
        }
        if self.flags.fake_upload && self.state != BootState::Running {
            self.finish_upload_and_start_with_ack(0);
        }
        if !self.flags.boot_hle_enabled {
            return None;
        }
        match self.state {
            BootState::ReadySignature => {
                self.signature_step(p, value);
                None
            },
            BootState::Uploading => self.upload_step(p, value, psw),
            BootState::Running => {
                self.running_step(p, value);
                None
            },
        }
    }

    /// See `signature_written`.
    fn signature_step(&mut self, p: usize, value: u8)
        requires
            boot_wf(old(self)@),
            p < 4,
        ensures
            boot_wf(final(self)@),
            final(self)@ == signature_written(old(self)@, p as int, value),
    {
        if p == 0 {
            if value != 0xCC {
                return;
            }
            self.state = BootState::Uploading;
            self.to_cpu.set(0, 0xCC);
            self.port0_echo = 0xCC;
            self.expected_index = 0;
            self.block_active = false;
            self.zero_write_seen = false;
            self.pending_idx = None;
            self.data_ready = false;
            self.upload_bytes = 0;
            self.last_upload_idx = 0;
        } else if p == 2 || p == 3 {
            self.set_upload_address(p, value);
        } else {
            self.last_port1 = value;
        }
    }

    /// See `upload_written`.
    fn upload_step(&mut self, p: usize, value: u8, psw: u8) -> (dsp_write: Option<(u8, u8)>)
        requires
            boot_wf(old(self)@),
            p < 4,
            old(self)@.upload_done_count < u64::MAX,
        ensures
            boot_wf(final(self)@),
            (final(self)@, dsp_write) == upload_written(old(self)@, p as int, value, psw),
    {
        if p == 2 || p == 3 {
            self.set_upload_address(p, value);
            return None;
        }
        if p == 0 {
            let idx = value;
            self.to_cpu.set(0, idx);
            self.port0_echo = idx;
            if idx == self.expected_index {
                self.pending_idx = Some(idx);
                if self.data_ready {
                    let data = self.last_port1;
                    return self.upload_byte(idx, data, psw);
                }
                None
            } else {
                self.pending_idx = None;
                self.data_ready = false;
                self.expected_index = 0;
                if self.last_port1 == 0 {
                    self.finish_upload_and_start_with_ack(idx);
                }
                None
            }
        } else {
            self.last_port1 = value;
            self.to_cpu.set(1, value);
            self.data_ready = true;
            match self.pending_idx {
                Some(idx) => {
                    if idx == self.expected_index {
                        return self.upload_byte(idx, value, psw);
                    }
                    None
                },
                None => None,
            }
        }
    }

    /// See `running_written`.
    fn running_step(&mut self, p: usize, value: u8)
        requires
            boot_wf(old(self)@),
            p < 4,
            old(self)@.upload_done_count < u64::MAX,
        ensures
            boot_wf(final(self)@),
            final(self)@ == running_written(old(self)@, p as int, value),
    {
        self.to_cpu.set(p, value);
        if self.flags.smw_apu_hle_handshake && p == 0 {
            if value == 0 {
                self.zero_streak = if self.zero_streak == 255 { 255 } else { self.zero_streak + 1 };
            } else {
                self.zero_streak = 0;
            }
            if self.zero_streak >= 2 {
                self.finish_upload_and_start_with_ack(0);
                self.zero_streak = 0;
            }
        }
    }

    /// A CPU port read (see `port_read`).
    pub fn read_port(&mut self, port: u8) -> (r: u8)
        requires
            boot_wf(old(self)@),
        ensures
            boot_wf(final(self)@),
            (final(self)@, r) == port_read(old(self)@, port),
    {
        proof {
            lemma_port_mask(port);
        }
        let p = (port & 0x03) as usize;
        let forced = if p == 0 {
            self.flags.debug_force_port0
        } else if p == 1 {
            self.flags.debug_force_port1
        } else {
            None
        };
        if let Some(f) = forced {
            return f;
        }
        if self.state == BootState::Running {
            let v = if self.flags.smw_apu_port_echo_strict {
                if self.upload_done_count > 0 {
                    self.io.cpu_read_port(p as u8)
                } else {
                    self.to_cpu[p]
                }
            } else if self.flags.smw_apu_echo || self.flags.smw_apu_hle_handshake {
                self.to_cpu[p]
            } else {
                self.io.cpu_read_port(p as u8)
            };
            if !self.flags.smw_apu_echo {
                self.to_cpu.set(p, v);
            }
            v
        } else {
            match self.flags.force_port0 {
                Some(f) => if p == 0 { f } else { self.to_cpu[p] },
                None => if p == 0 { self.port0_echo } else { self.to_cpu[p] },
            }
        }
    }

    /// After the processor ran: while the program runs, the CPU side takes
    /// the unit's ports.
    pub fn refresh_ports(&mut self)
        requires
            boot_wf(old(self)@),
        ensures
            boot_wf(final(self)@),
            final(self)@ == if old(self)@.state == BootState::Running {
                BootView { to_cpu: old(self)@.io.apu_to_cpu_ports, ..old(self)@ }
            } else {
                old(self)@
            },
    {
        if self.state == BootState::Running {
            let p0 = self.io.cpu_read_port(0);
            let p1 = self.io.cpu_read_port(1);
            let p2 = self.io.cpu_read_port(2);
            let p3 = self.io.cpu_read_port(3);
            self.to_cpu = four(p0, p1, p2, p3);
            proof {
                assert(self.to_cpu@ =~= self.io@.apu_to_cpu_ports);
            }
        }
    }

    /// The start address a finished upload set for the processor, which is
    /// then cleared.
    pub fn take_start_pc(&mut self) -> (r: Option<u16>)
        ensures
            r == old(self)@.start_pc,
            final(self)@ == (BootView { start_pc: None, ..old(self)@ }),
    {
        let r = self.start_pc;
        self.start_pc = None;
        r
    }

    /// A processor read of the unit's memory map (see `Apu::read_u8`).
    pub fn smp_read_u8(&mut self, address: u32, dsp_value: u8) -> (r: u8)
        requires
            boot_wf(old(self)@),
        ensures
            boot_wf(final(self)@),
            r == smp_read_value(old(self)@.io, (address % 0x10000) as int, dsp_value),
            final(self)@ == (BootView { io: smp_after_read(old(self)@.io, (address % 0x10000) as int), ..old(self)@ }),
    {
        self.io.read_u8(address, dsp_value)
    }

    /// A processor write of the unit's memory map (see `Apu::write_u8`).
    pub fn smp_write_u8(&mut self, address: u32, value: u8, psw: u8) -> (dsp_write: Option<(u8, u8)>)
        requires
            boot_wf(old(self)@),
        ensures
            boot_wf(final(self)@),
            final(self)@ == (BootView { io: smp_written(old(self)@.io, (address % 0x10000) as int, value, psw), ..old(self)@ }),
            dsp_write == if address % 0x10000 == 0xF3 {
                Some((old(self)@.io.dsp_reg_address, value))
            } else {
                None::<(u8, u8)>
            },
    {
        self.io.write_u8(address, value, psw)
    }

    /// Where the handshake stands.
    pub fn boot_state(&self) -> (r: BootState)
        ensures
            r == self@.state,
    {
        self.state
    }
}

} // verus!
