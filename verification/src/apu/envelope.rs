//! Behaviour shared by the channels that have a volume envelope and a length
//! counter (the two pulses, the noise channel, the MMC5 pulses).

use vstd::prelude::*;

verus! {

/// One quarter-frame clock of a volume envelope, on
/// `(start flag, divider, decay level)`. A pending start reloads the decay
/// level to 15 and the divider to the volume; otherwise the divider counts
/// down and, when it expires, the decay level steps down, restarting from 15
/// in loop mode.
pub open spec fn envelope_clock(start: bool, divider: u8, decay: u8, volume: u8, looping: bool) -> (bool, u8, u8) {
    if start {
        (false, volume, 15u8)
    } else if divider == 0 {
        let next_decay: u8 = if decay > 0 {
            (decay - 1) as u8
        } else if looping {
            15u8
        } else {
            0u8
        };
        (false, volume, next_decay)
    } else {
        (false, (divider - 1) as u8, decay)
    }
}

/// One half-frame clock of a length counter: it counts down to 0 unless
/// halted.
pub open spec fn length_clock(counter: u8, enabled: bool) -> u8 {
    if enabled && counter > 0 {
        (counter - 1) as u8
    } else {
        counter
    }
}

/// The value loaded into the 11-bit timer period by a write of the low
/// register.
pub open spec fn with_low_byte(reload: u16, data: u8) -> u16 {
    (reload & 0xFF00) | (data as u16)
}

/// The value loaded into the 11-bit timer period by a write of the high
/// register (its low 3 bits are the period's bits 8..10).
pub open spec fn with_high_bits(reload: u16, data: u8) -> u16 {
    (reload & 0x00FF) | (((data as u16) & 0x07) << 8)
}

} // verus!
