//! Bandai FCG / LZ93D50 (mappers 16, 153, 159): CHR and PRG bank registers,
//! a CPU-cycle IRQ down-counter, and the serial (I2C) 24C02 EEPROM that
//! holds the save data, driven bit by bit through register $800D.

use vstd::prelude::*;
use crate::cartridge::Mirroring;

verus! {

/// What the EEPROM does after acknowledging a byte.
#[derive(Debug, Clone, Copy, PartialEq, Eq, Structural)]
pub enum BandaiEepromNext {
    ReceiveAddress,
    ReceiveData,
    SendData,
}

/// Phase of the EEPROM's serial protocol.
#[derive(Debug, Clone, Copy, PartialEq, Eq, Structural)]
pub enum BandaiEepromPhase {
    Idle,
    ReceivingControl,
    ReceivingAddress,
    ReceivingData,
    AckPending(BandaiEepromNext),
    AckLow(BandaiEepromNext),
    Sending { byte: u8, bit_index: u8 },
    WaitAckPending,
    WaitAck,
}

/// Abstract contents of a [`BandaiEeprom`].
pub struct BandaiEepromView {
    pub phase: BandaiEepromPhase,
    pub address: u8,
    pub shift: u8,
    pub bits: u8,
    pub prev_scl: bool,
    pub prev_sda: bool,
    pub data_out: bool,
}

/// The serial EEPROM state machine.
pub struct BandaiEeprom {
    phase: BandaiEepromPhase,
    address: u8,
    shift: u8,
    bits: u8,
    prev_scl: bool,
    prev_sda: bool,
    data_out: bool,
}

impl View for BandaiEeprom {
    type V = BandaiEepromView;

    closed spec fn view(&self) -> BandaiEepromView {
        BandaiEepromView {
            phase: self.phase,
            address: self.address,
            shift: self.shift,
            bits: self.bits,
            prev_scl: self.prev_scl,
            prev_sda: self.prev_sda,
            data_out: self.data_out,
        }
    }
}

impl BandaiEepromView {
    /// At most 7 bits of a byte have been shifted in, and a byte being sent
    /// is at one of its 8 bit positions.
    pub open spec fn valid(&self) -> bool {
        &&& self.bits < 8
        &&& (self.phase matches BandaiEepromPhase::Sending { bit_index, .. } ==> bit_index < 8)
    }
}

/// Bit `i` of `byte`.
pub open spec fn bit_of(byte: u8, i: u8) -> bool {
    (byte >> i) & 1 == 1
}

/// A start condition: receive the control byte.
pub open spec fn eeprom_started(s: BandaiEepromView) -> BandaiEepromView {
    BandaiEepromView { phase: BandaiEepromPhase::ReceivingControl, shift: 0, bits: 0, data_out: true, ..s }
}

/// A stop condition: back to idle with the data line released.
pub open spec fn eeprom_stopped(s: BandaiEepromView) -> BandaiEepromView {
    BandaiEepromView { phase: BandaiEepromPhase::Idle, data_out: true, shift: 0, bits: 0, ..s }
}

/// Starts sending `byte`, most significant bit first.
pub open spec fn eeprom_sending(s: BandaiEepromView, byte: u8) -> BandaiEepromView {
    BandaiEepromView { phase: BandaiEepromPhase::Sending { byte, bit_index: 7 }, data_out: bit_of(byte, 7), ..s }
}

/// The byte at the current address, the address wrapping over the memory.
pub open spec fn eeprom_read(storage: Seq<u8>, address: u8) -> u8 {
    storage[(address as int) % (storage.len() as int)]
}

/// The end of an acknowledge: go on as decided when the byte was received.
pub open spec fn eeprom_after_ack(s: BandaiEepromView, next: BandaiEepromNext, storage: Seq<u8>) -> BandaiEepromView {
    let t = BandaiEepromView { data_out: true, ..s };
    match next {
        BandaiEepromNext::ReceiveAddress => BandaiEepromView {
            phase: BandaiEepromPhase::ReceivingAddress,
            shift: 0,
            bits: 0,
            ..t
        },
        BandaiEepromNext::ReceiveData => BandaiEepromView {
            phase: BandaiEepromPhase::ReceivingData,
            shift: 0,
            bits: 0,
            ..t
        },
        BandaiEepromNext::SendData => eeprom_sending(t, eeprom_read(storage, t.address)),
    }
}

/// A complete byte received: the control byte must address the 24C02
/// ($A0 to write, $A1 to read), the address byte sets the address, a data
/// byte is stored at the address, which then advances. Each accepted byte
/// is acknowledged.
pub open spec fn eeprom_received(s: BandaiEepromView, byte: u8, storage: Seq<u8>, dirty: bool) -> (BandaiEepromView, Seq<u8>, bool) {
    match s.phase {
        BandaiEepromPhase::ReceivingControl => {
            if byte == 0xA0 {
                (BandaiEepromView { phase: BandaiEepromPhase::AckPending(BandaiEepromNext::ReceiveAddress), ..s }, storage, dirty)
            } else if byte == 0xA1 {
                (BandaiEepromView { phase: BandaiEepromPhase::AckPending(BandaiEepromNext::SendData), ..s }, storage, dirty)
            } else {
                (BandaiEepromView { phase: BandaiEepromPhase::Idle, ..s }, storage, dirty)
            }
        },
        BandaiEepromPhase::ReceivingAddress => (
            BandaiEepromView { address: byte, phase: BandaiEepromPhase::AckPending(BandaiEepromNext::ReceiveData), ..s },
            storage,
            dirty,
        ),
        BandaiEepromPhase::ReceivingData => {
            let index = (s.address as int) % (storage.len() as int);
            (
                BandaiEepromView {
                    address: ((s.address + 1) % 256) as u8,
                    phase: BandaiEepromPhase::AckPending(BandaiEepromNext::ReceiveData),
                    ..s
                },
                storage.update(index, byte),
                dirty || storage[index] != byte,
            )
        },
        _ => (s, storage, dirty),
    }
}

/// A rising clock edge with data line `sda`: shift a bit in, move to the
/// next bit being sent, or take the master's acknowledge of a sent byte
/// (low: send the next byte; high: stop sending).
pub open spec fn eeprom_rising(s: BandaiEepromView, sda: bool, storage: Seq<u8>, dirty: bool) -> (BandaiEepromView, Seq<u8>, bool) {
    match s.phase {
        BandaiEepromPhase::ReceivingControl | BandaiEepromPhase::ReceivingAddress | BandaiEepromPhase::ReceivingData => {
            let shift = ((s.shift as int * 2) % 256 + if sda { 1int } else { 0 }) as u8;
            let bits = (s.bits + 1) as u8;
            if bits == 8 {
                eeprom_received(BandaiEepromView { shift: 0, bits: 0, ..s }, shift, storage, dirty)
            } else {
                (BandaiEepromView { shift, bits, ..s }, storage, dirty)
            }
        },
        BandaiEepromPhase::Sending { byte, bit_index } => {
            if bit_index == 0 {
                (BandaiEepromView { phase: BandaiEepromPhase::WaitAckPending, ..s }, storage, dirty)
            } else {
                (BandaiEepromView { phase: BandaiEepromPhase::Sending { byte, bit_index: (bit_index - 1) as u8 }, ..s }, storage, dirty)
            }
        },
        BandaiEepromPhase::WaitAck => {
            if !sda {
                let address = ((s.address + 1) % 256) as u8;
                (eeprom_sending(BandaiEepromView { address, ..s }, eeprom_read(storage, address)), storage, dirty)
            } else {
                (BandaiEepromView { phase: BandaiEepromPhase::Idle, data_out: true, ..s }, storage, dirty)
            }
        },
        _ => (s, storage, dirty),
    }
}

/// A falling clock edge: drive the acknowledge low, finish it, present the
/// next bit being sent, or release the line for the master's acknowledge.
pub open spec fn eeprom_falling(s: BandaiEepromView, storage: Seq<u8>) -> BandaiEepromView {
    match s.phase {
        BandaiEepromPhase::AckPending(next) => BandaiEepromView { phase: BandaiEepromPhase::AckLow(next), data_out: false, ..s },
        BandaiEepromPhase::AckLow(next) => eeprom_after_ack(s, next, storage),
        BandaiEepromPhase::Sending { byte, bit_index } => BandaiEepromView { data_out: bit_of(byte, bit_index), ..s },
        BandaiEepromPhase::WaitAckPending => BandaiEepromView { phase: BandaiEepromPhase::WaitAck, data_out: true, ..s },
        _ => s,
    }
}

/// One write of the control register: bit 5 is the clock line, bit 6 the
/// data line (read as high while bit 7 selects reading). Data changing while
/// the clock is high is a start (falling) or stop (rising) condition; then
/// the clock edge, if any, acts.
pub open spec fn eeprom_clock(s: BandaiEepromView, control: u8, storage: Seq<u8>, dirty: bool) -> (BandaiEepromView, Seq<u8>, bool) {
    if storage.len() == 0 {
        (BandaiEepromView { data_out: true, ..s }, storage, dirty)
    } else {
        let sda = (control & 0x80) != 0 || (control & 0x40) != 0;
        let scl = (control & 0x20) != 0;
        let s1 = if s.prev_scl && scl && s.prev_sda && !sda {
            eeprom_started(s)
        } else if s.prev_scl && scl && !s.prev_sda && sda {
            eeprom_stopped(s)
        } else {
            s
        };
        let (s2, st2, d2) = if !s.prev_scl && scl { eeprom_rising(s1, sda, storage, dirty) } else { (s1, storage, dirty) };
        let s3 = if s.prev_scl && !scl { eeprom_falling(s2, st2) } else { s2 };
        (BandaiEepromView { prev_scl: scl, prev_sda: sda, ..s3 }, st2, d2)
    }
}

proof fn lemma_control_byte(byte: u8)
    by (bit_vector)
    ensures
        (byte >> 1u8 == 0x50) == (byte == 0xA0 || byte == 0xA1),
        byte == 0xA0 ==> byte & 0x01 == 0,
        byte == 0xA1 ==> byte & 0x01 != 0,
{
}

proof fn lemma_shift_in(shift: u8, bit: u8)
    by (bit_vector)
    requires
        bit <= 1,
    ensures
        (shift << 1u8) | bit == ((shift as int * 2) % 256 + bit as int) as u8,
{
}

proof fn lemma_bit_test(byte: u8, i: u8)
    by (bit_vector)
    ensures
        (((byte >> i) & 0x01) != 0) == ((byte >> i) & 1 == 1),
{
}

proof fn lemma_top_bit(byte: u8)
    by (bit_vector)
    ensures
        ((byte & 0x80) != 0) == ((byte >> 7u8) & 1 == 1),
        ((byte >> 7u8) & 1 == 1) == ((byte >> 7u8) & 0x01 != 0),
{
}

impl BandaiEeprom {
    #[verifier::type_invariant]
    spec fn inv(&self) -> bool {
        self@.valid()
    }

    /// Power-on state: idle, both lines high, the clock low.
    pub fn new() -> (e: BandaiEeprom)
        ensures
            e@ == (BandaiEepromView {
                phase: BandaiEepromPhase::Idle,
                address: 0,
                shift: 0,
                bits: 0,
                prev_scl: false,
                prev_sda: true,
                data_out: true,
            }),
    {
        BandaiEeprom {
            phase: BandaiEepromPhase::Idle,
            address: 0,
            shift: 0,
            bits: 0,
            prev_scl: false,
            prev_sda: true,
            data_out: true,
        }
    }

    /// The data line as the EEPROM drives it.
    pub fn data_out(&self) -> (r: bool)
        ensures
            r == self@.data_out,
    {
        self.data_out
    }

    fn eeprom_start(&mut self)
        ensures
            final(self)@ == eeprom_started(old(self)@),
    {
        proof {
            use_type_invariant(&*self);
        }
        self.phase = BandaiEepromPhase::ReceivingControl;
        self.shift = 0;
        self.bits = 0;
        self.data_out = true;
    }

    fn eeprom_stop(&mut self)
        ensures
            final(self)@ == eeprom_stopped(old(self)@),
    {
        proof {
            use_type_invariant(&*self);
        }
        self.phase = BandaiEepromPhase::Idle;
        self.data_out = true;
        self.shift = 0;
        self.bits = 0;
    }

    fn eeprom_begin_send(&mut self, byte: u8)
        ensures
            final(self)@ == eeprom_sending(old(self)@, byte),
    {
        proof {
            use_type_invariant(&*self);
            lemma_top_bit(byte);
        }
        self.phase = BandaiEepromPhase::Sending { byte, bit_index: 7 };
        self.data_out = (byte & 0x80) != 0;
    }

    fn eeprom_transition_after_ack(&mut self, next: BandaiEepromNext, storage: &Vec<u8>)
        requires
            storage@.len() > 0,
        ensures
            final(self)@ == eeprom_after_ack(old(self)@, next, storage@),
    {
        proof {
            use_type_invariant(&*self);
        }
        self.data_out = true;
        match next {
            BandaiEepromNext::ReceiveAddress => {
                self.phase = BandaiEepromPhase::ReceivingAddress;
                self.shift = 0;
                self.bits = 0;
            },
            BandaiEepromNext::ReceiveData => {
                self.phase = BandaiEepromPhase::ReceivingData;
                self.shift = 0;
                self.bits = 0;
            },
            BandaiEepromNext::SendData => {
                let byte = storage[self.address as usize % storage.len()];
                self.eeprom_begin_send(byte);
            },
        }
    }

    fn eeprom_process_received_byte(&mut self, byte: u8, storage: &mut Vec<u8>, dirty: &mut bool)
        requires
            old(storage)@.len() > 0,
        ensures
            (final(self)@, final(storage)@, *final(dirty)) == eeprom_received(old(self)@, byte, old(storage)@, *old(dirty)),
    {
        proof {
            use_type_invariant(&*self);
            lemma_control_byte(byte);
        }
        match self.phase {
            BandaiEepromPhase::ReceivingControl => {
                if (byte >> 1) == 0x50 {
                    let next = if byte & 0x01 == 0 {
                        BandaiEepromNext::ReceiveAddress
                    } else {
                        BandaiEepromNext::SendData
                    };
                    self.phase = BandaiEepromPhase::AckPending(next);
                } else {
                    self.phase = BandaiEepromPhase::Idle;
                }
            },
            BandaiEepromPhase::ReceivingAddress => {
                self.address = byte;
                self.phase = BandaiEepromPhase::AckPending(BandaiEepromNext::ReceiveData);
            },
            BandaiEepromPhase::ReceivingData => {
                let index = self.address as usize % storage.len();
                if storage[index] != byte {
                    storage.set(index, byte);
                    *dirty = true;
                }
                proof {
                    if old(storage)@[index as int] == byte {
                        assert(old(storage)@.update(index as int, byte) =~= old(storage)@);
                    }
                }
                self.address = self.address.wrapping_add(1);
                self.phase = BandaiEepromPhase::AckPending(BandaiEepromNext::ReceiveData);
            },
            _ => {},
        }
    }

    /// Handles one write of the control register ($800D) against the
    /// EEPROM contents `storage`; `dirty` is set when a stored byte changes.
    /// With no storage the data line just stays high.
    pub fn eeprom_clock_control(&mut self, control: u8, storage: &mut Vec<u8>, dirty: &mut bool)
        ensures
            (final(self)@, final(storage)@, *final(dirty)) == eeprom_clock(old(self)@, control, old(storage)@, *old(dirty)),
    {
        proof {
            use_type_invariant(&*self);
        }
        if storage.len() == 0 {
            self.data_out = true;
            return;
        }
        let read_enabled = (control & 0x80) != 0;
        let sda = if read_enabled { true } else { (control & 0x40) != 0 };
        let scl = (control & 0x20) != 0;

        if self.prev_scl && scl {
            if self.prev_sda && !sda {
                self.eeprom_start();
            } else if !self.prev_sda && sda {
                self.eeprom_stop();
            }
        }

        if !self.prev_scl && scl {
            match self.phase {
                BandaiEepromPhase::ReceivingControl
                | BandaiEepromPhase::ReceivingAddress
                | BandaiEepromPhase::ReceivingData => {
                    let bit: u8 = if sda { 1 } else { 0 };
                    proof {
                        lemma_shift_in(self.shift, bit);
                    }
                    let shifted = (self.shift << 1) | bit;
                    if self.bits + 1 == 8 {
                        self.shift = 0;
                        self.bits = 0;
                        self.eeprom_process_received_byte(shifted, storage, dirty);
                    } else {
                        self.shift = shifted;
                        self.bits = self.bits + 1;
                    }
                },
                BandaiEepromPhase::Sending { byte, bit_index } => {
                    if bit_index == 0 {
                        self.phase = BandaiEepromPhase::WaitAckPending;
                    } else {
                        self.phase = BandaiEepromPhase::Sending { byte, bit_index: bit_index - 1 };
                    }
                },
                BandaiEepromPhase::WaitAckPending => {},
                BandaiEepromPhase::WaitAck => {
                    if !sda {
                        self.address = self.address.wrapping_add(1);
                        let byte = storage[self.address as usize % storage.len()];
                        self.eeprom_begin_send(byte);
                    } else {
                        self.phase = BandaiEepromPhase::Idle;
                        self.data_out = true;
                    }
                },
                BandaiEepromPhase::AckPending(_) | BandaiEepromPhase::AckLow(_) | BandaiEepromPhase::Idle => {},
            }
        }

        if self.prev_scl && !scl {
            match self.phase {
                BandaiEepromPhase::AckPending(next) => {
                    self.phase = BandaiEepromPhase::AckLow(next);
                    self.data_out = false;
                },
                BandaiEepromPhase::AckLow(next) => {
                    self.eeprom_transition_after_ack(next, storage);
                },
                BandaiEepromPhase::Sending { byte, bit_index } => {
                    proof {
                        lemma_bit_test(byte, bit_index);
                    }
                    self.data_out = ((byte >> bit_index) & 0x01) != 0;
                },
                BandaiEepromPhase::WaitAckPending => {
                    self.phase = BandaiEepromPhase::WaitAck;
                    self.data_out = true;
                },
                _ => {},
            }
        }

        self.prev_scl = scl;
        self.prev_sda = sda;
    }
}

/// The Bandai FCG chip: eight 1 KiB CHR banks, a 16 KiB PRG bank at $8000
/// (the last bank is fixed at $C000), a 16-bit IRQ down-counter clocked by
/// the CPU, and the save EEPROM.
pub struct BandaiFcg {
    pub chr_banks: [u8; 8],
    pub prg_bank: u8,
    pub irq_counter: u16,
    pub irq_latch: u16,
    pub irq_enabled: bool,
    pub irq_pending: bool,
    pub eeprom: BandaiEeprom,
}

/// The chip after one CPU cycle of its IRQ counter: while enabled it counts
/// down, and at 0 it raises the IRQ and disables itself.
pub open spec fn bandai_irq_clocked(b: BandaiFcg) -> BandaiFcg {
    if !b.irq_enabled {
        b
    } else if b.irq_counter == 0 {
        BandaiFcg { irq_pending: true, irq_enabled: false, ..b }
    } else {
        BandaiFcg { irq_counter: (b.irq_counter - 1) as u16, ..b }
    }
}

/// The chip after `n` such cycles.
pub open spec fn bandai_irq_clocked_n(b: BandaiFcg, n: nat) -> BandaiFcg
    decreases n,
{
    if n == 0 { b } else { bandai_irq_clocked(bandai_irq_clocked_n(b, (n - 1) as nat)) }
}

/// The mirroring selected by the low two bits of register $8009.
pub open spec fn bandai_mirroring(data: u8) -> Mirroring {
    let m = data % 4;
    if m == 0 {
        Mirroring::Vertical
    } else if m == 1 {
        Mirroring::Horizontal
    } else if m == 2 {
        Mirroring::OneScreenLower
    } else {
        Mirroring::OneScreenUpper
    }
}

/// The power-on state of the chip.
pub open spec fn bandai_power_on(b: BandaiFcg) -> bool {
    &&& b.chr_banks@ =~= seq![0u8, 0, 0, 0, 0, 0, 0, 0]
    &&& b.prg_bank == 0
    &&& b.irq_counter == 0
    &&& b.irq_latch == 0
    &&& !b.irq_enabled
    &&& !b.irq_pending
    &&& b.eeprom@ == (BandaiEepromView {
        phase: BandaiEepromPhase::Idle,
        address: 0,
        shift: 0,
        bits: 0,
        prev_scl: false,
        prev_sda: true,
        data_out: true,
    })
}

impl BandaiFcg {
    pub fn new() -> (b: BandaiFcg)
        ensures
            bandai_power_on(b),
    {
        BandaiFcg {
            chr_banks: [0; 8],
            prg_bank: 0,
            irq_counter: 0,
            irq_latch: 0,
            irq_enabled: false,
            irq_pending: false,
            eeprom: BandaiEeprom::new(),
        }
    }

    /// One CPU cycle of the IRQ counter: while enabled it counts down, and
    /// at 0 it raises the IRQ and disables itself.
    pub fn clock_irq_mut(&mut self)
        ensures
            *final(self) == bandai_irq_clocked(*old(self)),
    {
        if self.irq_enabled {
            if self.irq_counter == 0 {
                self.irq_pending = true;
                self.irq_enabled = false;
            } else {
                self.irq_counter -= 1;
            }
        }
    }
}

} // verus!
