//! The records that go into a run and come out of it. They are generic in
//! the scalar `S` that carries the physical quantities and the magnitudes:
//! the records hold such values and hand them on, the arithmetic on them is
//! the business of the signal chain.

use vstd::prelude::*;
use crate::geometry::{Geometry, DEFAULT_NUM_PULSES};
use crate::grid::{rectangular, rows_of, Grid};

verus! {

/// A point scatterer.
#[derive(Clone, Copy, Debug, PartialEq)]
pub struct Target<S> {
    /// Range in metres.
    pub range_m: S,
    /// Radial speed in metres per second, positive away from the sensor.
    pub vel_m_s: S,
    /// Amplitude factor of the echo.
    pub rcs: S,
}

/// What a caller may set of a run. Each field that is `None` takes its
/// default.
#[derive(Clone, Debug, PartialEq)]
pub struct SimulationParams<S> {
    /// Carrier frequency in hertz.
    pub fc: Option<S>,
    /// Sampling rate in hertz.
    pub fs: Option<S>,
    /// Pulse repetition frequency in hertz.
    pub prf: Option<S>,
    /// Count of pulses.
    pub num_pulses: Option<usize>,
    /// Pulse width in seconds.
    pub pulse_width: Option<S>,
    /// Standard deviation of the noise.
    pub noise_sigma: Option<S>,
    /// The targets.
    pub targets: Option<Vec<Target<S>>>,
}

/// The defaults of the fields that hold scalars.
#[derive(Clone, Debug, PartialEq)]
pub struct ParamDefaults<S> {
    pub fc: S,
    pub fs: S,
    pub prf: S,
    pub pulse_width: S,
    pub noise_sigma: S,
    pub targets: Vec<Target<S>>,
}

/// The parameters of a run with nothing left open.
#[derive(Clone, Debug, PartialEq)]
pub struct ResolvedParams<S> {
    pub fc: S,
    pub fs: S,
    pub prf: S,
    pub num_pulses: usize,
    pub pulse_width: S,
    pub noise_sigma: S,
    pub targets: Vec<Target<S>>,
}

/// `value` where it is set, `default` where it is not.
pub open spec fn set_or<A>(value: Option<A>, default: A) -> A {
    match value {
        Some(v) => v,
        None => default,
    }
}

impl<S> SimulationParams<S> {
    /// Parameters with every field left open.
    pub fn unset() -> (params: SimulationParams<S>)
        ensures
            params.fc is None,
            params.fs is None,
            params.prf is None,
            params.num_pulses is None,
            params.pulse_width is None,
            params.noise_sigma is None,
            params.targets is None,
    {
        SimulationParams {
            fc: None,
            fs: None,
            prf: None,
            num_pulses: None,
            pulse_width: None,
            noise_sigma: None,
            targets: None,
        }
    }

    /// Fills every field that is left open with its default and keeps every
    /// field that is set. An empty list of targets is a set field.
    pub fn resolve(self, defaults: ParamDefaults<S>) -> (resolved: ResolvedParams<S>)
        ensures
            resolved.fc == set_or(self.fc, defaults.fc),
            resolved.fs == set_or(self.fs, defaults.fs),
            resolved.prf == set_or(self.prf, defaults.prf),
            resolved.num_pulses == set_or(self.num_pulses, DEFAULT_NUM_PULSES),
            resolved.pulse_width == set_or(self.pulse_width, defaults.pulse_width),
            resolved.noise_sigma == set_or(self.noise_sigma, defaults.noise_sigma),
            resolved.targets == set_or(self.targets, defaults.targets),
    {
        ResolvedParams {
            fc: match self.fc {
                Some(v) => v,
                None => defaults.fc,
            },
            fs: match self.fs {
                Some(v) => v,
                None => defaults.fs,
            },
            prf: match self.prf {
                Some(v) => v,
                None => defaults.prf,
            },
            num_pulses: match self.num_pulses {
                Some(v) => v,
                None => DEFAULT_NUM_PULSES,
            },
            pulse_width: match self.pulse_width {
                Some(v) => v,
                None => defaults.pulse_width,
            },
            noise_sigma: match self.noise_sigma {
                Some(v) => v,
                None => defaults.noise_sigma,
            },
            targets: match self.targets {
                Some(v) => v,
                None => defaults.targets,
            },
        }
    }
}

/// The shape of the products of a run and the rates that it ran with.
#[derive(Clone, Copy, Debug, PartialEq)]
pub struct SimulationConfig<S> {
    pub n_range_bins: usize,
    pub n_doppler_bins: usize,
    pub fs: S,
    pub prf: S,
    pub fc: S,
}

/// The products of a run.
#[derive(Clone, Debug, PartialEq)]
pub struct SimulationResult<S> {
    /// Magnitude for each range bin and each Doppler bin: one row for each
    /// range bin.
    pub range_doppler_map: Vec<Vec<S>>,
    /// Mean magnitude over the pulses for each range bin.
    pub range_profile: Vec<S>,
    pub config: SimulationConfig<S>,
}

impl<S> SimulationResult<S> {
    /// The map has a row and the profile an entry for each range bin, and
    /// each row of the map has an entry for each Doppler bin.
    pub open spec fn well_formed(&self) -> bool {
        &&& rectangular(
            rows_of(self.range_doppler_map),
            self.config.n_range_bins as nat,
            self.config.n_doppler_bins as nat,
        )
        &&& self.range_profile@.len() == self.config.n_range_bins
    }

    /// The shape of a well-formed result in terms of its vectors: the map
    /// has as many rows, and the profile as many entries, as the
    /// configuration counts range bins, and every row of the map has as many
    /// entries as it counts Doppler bins.
    pub proof fn lemma_well_formed_shape(&self)
        requires
            self.well_formed(),
        ensures
            self.range_doppler_map@.len() == self.config.n_range_bins,
            self.range_profile@.len() == self.config.n_range_bins,
            forall|r: int|
                0 <= r < self.range_doppler_map@.len() ==> (#[trigger] self.range_doppler_map@[r])@.len()
                    == self.config.n_doppler_bins,
    {
        assert forall|r: int| 0 <= r < self.range_doppler_map@.len() implies (
        #[trigger] self.range_doppler_map@[r])@.len() == self.config.n_doppler_bins by {
            assert(rows_of(self.range_doppler_map)[r] == self.range_doppler_map@[r]@);
        }
    }

    /// Whether the products have the shape that the configuration states.
    pub fn is_well_formed(&self) -> (ok: bool)
        ensures
            ok == self.well_formed(),
    {
        if self.range_doppler_map.len() != self.config.n_range_bins {
            return false;
        }
        if self.range_profile.len() != self.config.n_range_bins {
            return false;
        }
        let mut r: usize = 0;
        while r < self.range_doppler_map.len()
            invariant
                r <= self.range_doppler_map@.len(),
                forall|k: int|
                    0 <= k < r ==> (#[trigger] rows_of(self.range_doppler_map)[k]).len()
                        == self.config.n_doppler_bins,
            decreases self.range_doppler_map@.len() - r,
        {
            if self.range_doppler_map[r].len() != self.config.n_doppler_bins {
                assert(rows_of(self.range_doppler_map)[r as int].len()
                    != self.config.n_doppler_bins);
                return false;
            }
            r += 1;
        }
        true
    }

    /// The result without products that a service hands out in place of a
    /// failed run: no range bin, no Doppler bin.
    pub fn empty(fs: S, prf: S, fc: S) -> (result: SimulationResult<S>)
        ensures
            result.well_formed(),
            result.range_doppler_map@.len() == 0,
            result.range_profile@.len() == 0,
            result.config == (SimulationConfig { n_range_bins: 0, n_doppler_bins: 0, fs, prf, fc }),
    {
        SimulationResult {
            range_doppler_map: Vec::new(),
            range_profile: Vec::new(),
            config: SimulationConfig { n_range_bins: 0, n_doppler_bins: 0, fs, prf, fc },
        }
    }
}

impl<S: Copy> SimulationResult<S> {
    /// Puts the products of a run together. They must have the shape that
    /// the geometry gives: a map of `n_range_bins` rows and `n_doppler_bins`
    /// columns and a profile of `n_range_bins` entries; else there is no
    /// result.
    pub fn assemble(
        geometry: &Geometry,
        map: &Grid<S>,
        profile: Vec<S>,
        fs: S,
        prf: S,
        fc: S,
    ) -> (result: Option<SimulationResult<S>>)
        ensures
            result is Some <==> {
                &&& map.height() == geometry@.range_bins()
                &&& map.width() == geometry@.doppler_bins()
                &&& profile@.len() == geometry@.range_bins()
            },
            result matches Some(res) ==> {
                &&& res.well_formed()
                &&& rows_of(res.range_doppler_map) == map@
                &&& res.range_profile == profile
                &&& res.config.n_range_bins == geometry@.range_bins()
                &&& res.config.n_doppler_bins == geometry@.num_pulses
                &&& res.config.fs == fs
                &&& res.config.prf == prf
                &&& res.config.fc == fc
            },
    {
        let n_range_bins: usize = geometry.n_range_bins();
        let n_doppler_bins: usize = geometry.n_doppler_bins();
        if map.n_rows() != n_range_bins || map.n_cols() != n_doppler_bins || profile.len()
            != n_range_bins {
            return None;
        }
        let range_doppler_map = map.to_rows();
        Some(
            SimulationResult {
                range_doppler_map,
                range_profile: profile,
                config: SimulationConfig { n_range_bins, n_doppler_bins, fs, prf, fc },
            },
        )
    }
}

} // verus!
