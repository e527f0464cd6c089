use vstd::prelude::*;

verus! {

/// `x` clamped to the range of `i64`.
pub open spec fn clamp_i64(x: int) -> int {
    if x > i64::MAX {
        i64::MAX as int
    } else if x < i64::MIN {
        i64::MIN as int
    } else {
        x
    }
}

/// The calibrated weight of a raw sample: `raw * gain - offset`, saturated to `i64`.
pub open spec fn calibrated(raw: int, gain: int, offset: int) -> int {
    clamp_i64(raw * gain - offset)
}

/// Per-scale calibration parameters, fixed once a scale connects.
#[derive(Debug, Clone, Copy, PartialEq, Eq, Structural)]
pub struct CalibrationConfig {
    /// Weight units per raw count.
    pub gain: i64,
    /// Weight subtracted after scaling (the tare).
    pub offset: i64,
    /// Number of readings in the stability window.
    pub buffer_length: usize,
    /// Largest spread, exclusive, of a stable window, in weight units.
    pub max_noise: i64,
    /// Time between two samples, in milliseconds.
    pub sample_period_ms: u64,
    /// Serial number of the sensor bridge.
    pub sensor_id: i32,
    /// Channel of the load cell on that bridge.
    pub channel_id: i32,
}

impl CalibrationConfig {
    /// The configuration can drive a stability window.
    pub open spec fn wf(&self) -> bool {
        self.buffer_length > 0
    }

    /// Whether the buffer length is positive.
    pub fn is_valid(&self) -> (r: bool)
        ensures
            r == self.wf(),
    {
        self.buffer_length > 0
    }

    /// Converts a raw sample into a calibrated weight.
    pub fn calibrate(&self, raw: i64) -> (r: i64)
        ensures
            r == calibrated(raw as int, self.gain as int, self.offset as int),
    {
        let r128 = raw as i128;
        let g128 = self.gain as i128;
        proof {
            assert(-0x8000_0000_0000_0000 <= r128 <= 0x7fff_ffff_ffff_ffff);
            assert(-0x8000_0000_0000_0000 <= g128 <= 0x7fff_ffff_ffff_ffff);
            assert(r128 * g128 <= 0x4000_0000_0000_0000_0000_0000_0000_0000) by (nonlinear_arith)
                requires
                    -0x8000_0000_0000_0000 <= r128 <= 0x7fff_ffff_ffff_ffff,
                    -0x8000_0000_0000_0000 <= g128 <= 0x7fff_ffff_ffff_ffff;
            assert(r128 * g128 >= -0x4000_0000_0000_0000_0000_0000_0000_0000) by (nonlinear_arith)
                requires
                    -0x8000_0000_0000_0000 <= r128 <= 0x7fff_ffff_ffff_ffff,
                    -0x8000_0000_0000_0000 <= g128 <= 0x7fff_ffff_ffff_ffff;
        }
        let x: i128 = r128 * g128 - (self.offset as i128);
        if x > i64::MAX as i128 {
            i64::MAX
        } else if x < i64::MIN as i128 {
            i64::MIN
        } else {
            x as i64
        }
    }

    pub fn get_gain(&self) -> (r: i64)
        ensures
            r == self.gain,
    {
        self.gain
    }

    pub fn get_offset(&self) -> (r: i64)
        ensures
            r == self.offset,
    {
        self.offset
    }
}

/// Identity of the appliance a scale belongs to.
#[derive(Debug, Clone, Copy, PartialEq, Eq, Structural)]
pub struct DeviceIdentity {
    /// Hardware model number.
    pub model: u32,
    /// Position of the scale within the appliance.
    pub index: u32,
}

} // verus!
