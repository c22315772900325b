//! Lookup tables of the 2A03 APU, shared with the MMC5 expansion pulses.

use vstd::prelude::*;

verus! {

/// Ranges of the register fields that index the tables.
pub proof fn lemma_field_ranges(data: u8)
    by (bit_vector)
    ensures
        (data >> 3) & 0x1F < 32,
        (data >> 6) & 0x03 < 4,
        (data >> 4) & 0x07 < 8,
        data & 0x0F < 16,
        data & 0x07 < 8,
        data & 0x1F < 32,
        data & 0x7F < 128,
        data & 0x3F < 64,
        data & 0x03 < 4,
{
}

/// Length-counter load values, indexed by bits 3..7 of the fourth channel register.
#[verifier::opaque]
pub open spec fn spec_length_table(index: u8) -> u8 {
    match index {
        0 => 10,
        1 => 254,
        2 => 20,
        3 => 2,
        4 => 40,
        5 => 4,
        6 => 80,
        7 => 6,
        8 => 160,
        9 => 8,
        10 => 60,
        11 => 10,
        12 => 14,
        13 => 12,
        14 => 26,
        15 => 14,
        16 => 12,
        17 => 16,
        18 => 24,
        19 => 18,
        20 => 48,
        21 => 20,
        22 => 96,
        23 => 22,
        24 => 192,
        25 => 24,
        26 => 72,
        27 => 26,
        28 => 16,
        29 => 28,
        30 => 32,
        _ => 30,
    }
}

/// Executable lookup of [`spec_length_table`].
pub fn length_table(index: u8) -> (r: u8)
    requires
        index < 32,
    ensures
        r == spec_length_table(index),
    no_unwind
{
    proof {
        reveal(spec_length_table);
    }
    match index {
        0 => 10,
        1 => 254,
        2 => 20,
        3 => 2,
        4 => 40,
        5 => 4,
        6 => 80,
        7 => 6,
        8 => 160,
        9 => 8,
        10 => 60,
        11 => 10,
        12 => 14,
        13 => 12,
        14 => 26,
        15 => 14,
        16 => 12,
        17 => 16,
        18 => 24,
        19 => 18,
        20 => 48,
        21 => 20,
        22 => 96,
        23 => 22,
        24 => 192,
        25 => 24,
        26 => 72,
        27 => 26,
        28 => 16,
        29 => 28,
        30 => 32,
        _ => 30,
    }
}

/// Noise timer periods (NTSC), indexed by the low 4 bits of $400E.
#[verifier::opaque]
pub open spec fn spec_noise_period_table(index: u8) -> u16 {
    match index {
        0 => 4,
        1 => 8,
        2 => 16,
        3 => 32,
        4 => 64,
        5 => 96,
        6 => 128,
        7 => 160,
        8 => 202,
        9 => 254,
        10 => 380,
        11 => 508,
        12 => 762,
        13 => 1016,
        14 => 2034,
        _ => 4068,
    }
}

/// Executable lookup of [`spec_noise_period_table`].
pub fn noise_period_table(index: u8) -> (r: u16)
    requires
        index < 16,
    ensures
        r == spec_noise_period_table(index),
    no_unwind
{
    proof {
        reveal(spec_noise_period_table);
    }
    match index {
        0 => 4,
        1 => 8,
        2 => 16,
        3 => 32,
        4 => 64,
        5 => 96,
        6 => 128,
        7 => 160,
        8 => 202,
        9 => 254,
        10 => 380,
        11 => 508,
        12 => 762,
        13 => 1016,
        14 => 2034,
        _ => 4068,
    }
}

/// DMC timer periods (NTSC), indexed by the low 4 bits of $4010.
#[verifier::opaque]
pub open spec fn spec_dmc_rate_table(index: u8) -> u16 {
    match index {
        0 => 428,
        1 => 380,
        2 => 340,
        3 => 320,
        4 => 286,
        5 => 254,
        6 => 226,
        7 => 214,
        8 => 190,
        9 => 160,
        10 => 142,
        11 => 128,
        12 => 106,
        13 => 85,
        14 => 72,
        _ => 54,
    }
}

/// Executable lookup of [`spec_dmc_rate_table`].
pub fn dmc_rate_table(index: u8) -> (r: u16)
    requires
        index < 16,
    ensures
        r == spec_dmc_rate_table(index),
    no_unwind
{
    proof {
        reveal(spec_dmc_rate_table);
    }
    match index {
        0 => 428,
        1 => 380,
        2 => 340,
        3 => 320,
        4 => 286,
        5 => 254,
        6 => 226,
        7 => 214,
        8 => 190,
        9 => 160,
        10 => 142,
        11 => 128,
        12 => 106,
        13 => 85,
        14 => 72,
        _ => 54,
    }
}

/// The 32-step triangle waveform.
#[verifier::opaque]
pub open spec fn spec_triangle_sequence(index: u8) -> u8 {
    match index {
        0 => 15,
        1 => 14,
        2 => 13,
        3 => 12,
        4 => 11,
        5 => 10,
        6 => 9,
        7 => 8,
        8 => 7,
        9 => 6,
        10 => 5,
        11 => 4,
        12 => 3,
        13 => 2,
        14 => 1,
        15 => 0,
        16 => 0,
        17 => 1,
        18 => 2,
        19 => 3,
        20 => 4,
        21 => 5,
        22 => 6,
        23 => 7,
        24 => 8,
        25 => 9,
        26 => 10,
        27 => 11,
        28 => 12,
        29 => 13,
        30 => 14,
        _ => 15,
    }
}

/// Executable lookup of [`spec_triangle_sequence`].
pub fn triangle_sequence(index: u8) -> (r: u8)
    requires
        index < 32,
    ensures
        r == spec_triangle_sequence(index),
    no_unwind
{
    proof {
        reveal(spec_triangle_sequence);
    }
    match index {
        0 => 15,
        1 => 14,
        2 => 13,
        3 => 12,
        4 => 11,
        5 => 10,
        6 => 9,
        7 => 8,
        8 => 7,
        9 => 6,
        10 => 5,
        11 => 4,
        12 => 3,
        13 => 2,
        14 => 1,
        15 => 0,
        16 => 0,
        17 => 1,
        18 => 2,
        19 => 3,
        20 => 4,
        21 => 5,
        22 => 6,
        23 => 7,
        24 => 8,
        25 => 9,
        26 => 10,
        27 => 11,
        28 => 12,
        29 => 13,
        30 => 14,
        _ => 15,
    }
}

/// Pulse duty waveforms: 12.5%, 25%, 50% and 75% (negated 25%).
#[verifier::opaque]
pub open spec fn spec_duty_table(duty: u8, step: u8) -> u8 {
    match duty {
        0 => match step {
            0 => 0,
            1 => 1,
            2 => 0,
            3 => 0,
            4 => 0,
            5 => 0,
            6 => 0,
            _ => 0,
        },
        1 => match step {
            0 => 0,
            1 => 1,
            2 => 1,
            3 => 0,
            4 => 0,
            5 => 0,
            6 => 0,
            _ => 0,
        },
        2 => match step {
            0 => 0,
            1 => 1,
            2 => 1,
            3 => 1,
            4 => 1,
            5 => 0,
            6 => 0,
            _ => 0,
        },
        _ => match step {
            0 => 1,
            1 => 0,
            2 => 0,
            3 => 1,
            4 => 1,
            5 => 1,
            6 => 1,
            _ => 1,
        },
    }
}

/// Executable lookup of [`spec_duty_table`].
pub fn duty_table(duty: u8, step: u8) -> (r: u8)
    requires
        duty < 4,
        step < 8,
    ensures
        r == spec_duty_table(duty, step),
    no_unwind
{
    proof {
        reveal(spec_duty_table);
    }
    match duty {
        0 => match step {
            0 => 0,
            1 => 1,
            2 => 0,
            3 => 0,
            4 => 0,
            5 => 0,
            6 => 0,
            _ => 0,
        },
        1 => match step {
            0 => 0,
            1 => 1,
            2 => 1,
            3 => 0,
            4 => 0,
            5 => 0,
            6 => 0,
            _ => 0,
        },
        2 => match step {
            0 => 0,
            1 => 1,
            2 => 1,
            3 => 1,
            4 => 1,
            5 => 0,
            6 => 0,
            _ => 0,
        },
        _ => match step {
            0 => 1,
            1 => 0,
            2 => 0,
            3 => 1,
            4 => 1,
            5 => 1,
            6 => 1,
            _ => 1,
        },
    }
}

} // verus!
