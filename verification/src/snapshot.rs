//! Packed state telemetry: three source-feedback bits and one bit per
//! configured sink, at fixed positions in one byte.
//!
//! Bit assignment: bit 0 = Bat1 feedback, bit 1 = Bat2 feedback,
//! bit 2 = AuxPwr feedback, bit 3 = RocketLST, bit 4 = SensorUpper,
//! bit 5 = RocketHD. Bits 6 and 7 are never set.

use vstd::prelude::*;

verus! {

/// The named boolean flags of one telemetry snapshot.
#[derive(Clone, Copy, Debug, PartialEq, Eq, Structural)]
pub struct StateSnapshot {
    pub bat_1: bool,
    pub bat_2: bool,
    pub aux_pwr: bool,
    pub rocket_lst: bool,
    pub sensor_upp: bool,
    pub rocket_hd: bool,
}

/// A flag's contribution to the packed byte.
pub open spec fn flag_bit(flag: bool, weight: int) -> int {
    if flag {
        weight
    } else {
        0
    }
}

/// The packed value of a snapshot: each flag at its fixed bit position.
pub open spec fn bits_spec(s: StateSnapshot) -> int {
    flag_bit(s.bat_1, 1) + flag_bit(s.bat_2, 2) + flag_bit(s.aux_pwr, 4)
        + flag_bit(s.rocket_lst, 8) + flag_bit(s.sensor_upp, 16) + flag_bit(s.rocket_hd, 32)
}

/// The snapshot whose flags are the low six bits of `b`.
pub open spec fn snapshot_of_bits(b: int) -> StateSnapshot {
    StateSnapshot {
        bat_1: b % 2 == 1,
        bat_2: (b / 2) % 2 == 1,
        aux_pwr: (b / 4) % 2 == 1,
        rocket_lst: (b / 8) % 2 == 1,
        sensor_upp: (b / 16) % 2 == 1,
        rocket_hd: (b / 32) % 2 == 1,
    }
}

impl StateSnapshot {
    /// Pack the flags into one byte.
    pub fn bits(&self) -> (r: u8)
        ensures
            r as int == bits_spec(*self),
            r < 64,
    {
        let mut b: u8 = 0;
        if self.bat_1 {
            b = b + 1;
        }
        if self.bat_2 {
            b = b + 2;
        }
        if self.aux_pwr {
            b = b + 4;
        }
        if self.rocket_lst {
            b = b + 8;
        }
        if self.sensor_upp {
            b = b + 16;
        }
        if self.rocket_hd {
            b = b + 32;
        }
        b
    }

    /// Unpack a byte into a snapshot. Bytes with either of the two unused
    /// high bits set do not encode any snapshot and are rejected.
    pub fn from_bits(bits: u8) -> (r: Option<StateSnapshot>)
        ensures
            bits < 64 ==> r == Some(snapshot_of_bits(bits as int)),
            bits >= 64 ==> r.is_none(),
    {
        if bits >= 64 {
            None
        } else {
            Some(StateSnapshot {
                bat_1: bits % 2 == 1,
                bat_2: (bits / 2) % 2 == 1,
                aux_pwr: (bits / 4) % 2 == 1,
                rocket_lst: (bits / 8) % 2 == 1,
                sensor_upp: (bits / 16) % 2 == 1,
                rocket_hd: (bits / 32) % 2 == 1,
            })
        }
    }
}

/// Round trip: packing any snapshot and unpacking the byte yields the
/// original flags, for every combination of the six bits.
pub proof fn lemma_snapshot_round_trip(s: StateSnapshot)
    ensures
        0 <= bits_spec(s) < 64,
        snapshot_of_bits(bits_spec(s)) == s,
{
}

/// The packed positions are injective the other way as well: unpacking a
/// byte below 64 and packing again yields the same byte.
pub proof fn lemma_bits_round_trip(b: int)
    requires
        0 <= b < 64,
    ensures
        bits_spec(snapshot_of_bits(b)) == b,
{
}

} // verus!
