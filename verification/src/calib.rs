//! Factory calibration values of the analog front end. On hardware they
//! are read once from fixed system-memory registers; here they are plain
//! data handed in by whoever performed that read.

use vstd::prelude::*;

verus! {

/// The three factory-programmed calibration words.
#[derive(Clone, Copy, Debug, PartialEq, Eq, Structural)]
pub struct FactoryCalibratedValues {
    pub ts_cal_1: u16,
    pub ts_cal_2: u16,
    pub v_refint: u16,
}

impl FactoryCalibratedValues {
    /// Bundle calibration words already read from the device.
    pub fn new(ts_cal_1: u16, ts_cal_2: u16, v_refint: u16) -> (r: Self)
        ensures
            r == (FactoryCalibratedValues { ts_cal_1, ts_cal_2, v_refint }),
    {
        FactoryCalibratedValues { ts_cal_1, ts_cal_2, v_refint }
    }
}

} // verus!
