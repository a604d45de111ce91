//! The speed of light, the values that a run takes where its caller sets
//! none, and the settings of a tracking task, as whole numbers in the unit
//! that each name gives.

use vstd::prelude::*;

verus! {

/// Speed of light in metres per second.
pub const SPEED_OF_LIGHT_M_S: u64 = 299_792_458;

/// Carrier frequency in hertz: 10 GHz.
pub const DEFAULT_CARRIER_HZ: u64 = 10_000_000_000;

/// Sampling rate in hertz: 1 MHz.
pub const DEFAULT_SAMPLE_RATE_HZ: u64 = 1_000_000;

/// Pulse repetition frequency in hertz.
pub const DEFAULT_PRF_HZ: u64 = 500;

/// Pulse width in microseconds.
pub const DEFAULT_PULSE_WIDTH_US: u64 = 50;

/// Standard deviation of the noise in thousandths: 0.1.
pub const DEFAULT_NOISE_SIGMA_PERMILLE: u64 = 100;

/// A point target in whole units. A positive speed moves it away from the
/// sensor, a negative one towards it.
#[derive(Clone, Copy, Debug, PartialEq, Eq)]
pub struct TargetPreset {
    /// Range in metres.
    pub range_m: u64,
    /// Radial speed in metres per second.
    pub vel_m_s: i64,
    /// Amplitude factor in thousandths.
    pub rcs_permille: u64,
}

/// The two targets of a run that names none: one at 10 km with 30 m/s and
/// full amplitude, one at 15 km with -50 m/s and six tenths of it.
pub open spec fn default_target_presets() -> Seq<TargetPreset> {
    seq![
        TargetPreset { range_m: 10_000, vel_m_s: 30, rcs_permille: 1000 },
        TargetPreset { range_m: 15_000, vel_m_s: -50i64, rcs_permille: 600 },
    ]
}

/// The targets of a run that names none.
pub fn default_targets() -> (targets: Vec<TargetPreset>)
    ensures
        targets@ == default_target_presets(),
{
    let mut targets: Vec<TargetPreset> = Vec::new();
    targets.push(TargetPreset { range_m: 10_000, vel_m_s: 30, rcs_permille: 1000 });
    targets.push(TargetPreset { range_m: 15_000, vel_m_s: -50, rcs_permille: 600 });
    assert(targets@ =~= default_target_presets());
    targets
}

/// Milliseconds between two messages of a tracking task.
pub const TRACKING_TICK_MS: u64 = 100;

/// Tenths of a degree by which the azimuth of a tracked target grows from
/// one message to the next.
pub const TRACKING_AZIMUTH_STEP_DECIDEG: u64 = 5;

/// Range in metres below which a tracked target is set back and turned.
pub const TRACKING_MIN_RANGE_M: u64 = 1_000;

/// Range in metres above which a tracked target is set back and turned.
pub const TRACKING_MAX_RANGE_M: u64 = 50_000;

/// The three targets that a tracking task starts with.
pub open spec fn tracking_target_presets() -> Seq<TargetPreset> {
    seq![
        TargetPreset { range_m: 10_000, vel_m_s: 30, rcs_permille: 1000 },
        TargetPreset { range_m: 15_000, vel_m_s: -50i64, rcs_permille: 600 },
        TargetPreset { range_m: 8_000, vel_m_s: 25, rcs_permille: 800 },
    ]
}

/// The targets that a tracking task starts with.
pub fn tracking_targets() -> (targets: Vec<TargetPreset>)
    ensures
        targets@ == tracking_target_presets(),
{
    let mut targets: Vec<TargetPreset> = Vec::new();
    targets.push(TargetPreset { range_m: 10_000, vel_m_s: 30, rcs_permille: 1000 });
    targets.push(TargetPreset { range_m: 15_000, vel_m_s: -50, rcs_permille: 600 });
    targets.push(TargetPreset { range_m: 8_000, vel_m_s: 25, rcs_permille: 800 });
    assert(targets@ =~= tracking_target_presets());
    targets
}

/// The azimuth in degrees at which the tracked target with number `id`
/// starts: the targets are spread over the circle a third of it apart.
pub fn initial_azimuth_deg(id: usize) -> (degrees: u32)
    ensures
        degrees == (id * 120) % 360,
{
    let third: usize = id % 3;
    proof {
        let whole: int = id as int / 3;
        assert(id * 120 == whole * 360 + third * 120) by (nonlinear_arith)
            requires
                id == whole * 3 + third,
        ;
        vstd::arithmetic::div_mod::lemma_fundamental_div_mod_converse(
            id * 120,
            360,
            whole,
            third * 120,
        );
    }
    (third * 120) as u32
}

} // verus!
