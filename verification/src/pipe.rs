//! The pipe configuration record.
//!
//! A [`Pipe`] gathers the nine inputs of a flue pipe calculation, each as a
//! plain scaled integer (millihertz, micrometers, thousandths of a ratio,
//! and so on), with the conventional defaults pinned by contract. Setters
//! replace one field and keep the rest, so a configuration is built by
//! chaining them from [`Pipe::new`]. Deriving the thirteen output
//! quantities from such a configuration is real-valued physics, done by the
//! callers that own the numeric tower.

use vstd::prelude::*;

verus! {

/// Configuration of a single organ flue pipe.
#[derive(Clone, Copy, PartialEq, Eq, Structural, Debug)]
pub struct Pipe {
    /// Whether the resonator's far end is closed.
    pub stopped: bool,
    /// Target frequency, in millihertz.
    pub frequency_millihertz: u64,
    /// Voicing intonation number, in thousandths (2.0 is written 2000).
    pub intonation_number_milli: u64,
    /// Resonator radius, in micrometers.
    pub radius_micrometers: u64,
    /// Mouth width as a share of the circumference, in thousandths.
    pub mouth_ratio_milli: u64,
    /// Cutup (mouth height over mouth width), in thousandths.
    pub cutup_ratio_milli: u64,
    /// Air temperature, in millidegrees Celsius.
    pub air_temperature_millicelsius: i64,
    /// Air density, in grams per cubic meter.
    pub air_density_grams_per_cubic_meter: u64,
    /// Wind pressure, in millipascals.
    pub wind_pressure_millipascals: u64,
}

impl Pipe {
    /// The default configuration: an open pipe at intonation number 2.0,
    /// mouth ratio 0.25 and 20 degrees Celsius, with frequency, radius,
    /// cutup, density and pressure left at zero to be set by the caller.
    pub open spec fn spec_default() -> Pipe {
        Pipe {
            stopped: false,
            frequency_millihertz: 0,
            intonation_number_milli: 2000,
            radius_micrometers: 0,
            mouth_ratio_milli: 250,
            cutup_ratio_milli: 0,
            air_temperature_millicelsius: 20_000,
            air_density_grams_per_cubic_meter: 0,
            wind_pressure_millipascals: 0,
        }
    }

    /// A fresh configuration holding the defaults.
    pub fn new() -> (r: Pipe)
        ensures
            r == Pipe::spec_default(),
    {
        Pipe {
            stopped: false,
            frequency_millihertz: 0,
            intonation_number_milli: 2000,
            radius_micrometers: 0,
            mouth_ratio_milli: 250,
            cutup_ratio_milli: 0,
            air_temperature_millicelsius: 20_000,
            air_density_grams_per_cubic_meter: 0,
            wind_pressure_millipascals: 0,
        }
    }

    /// The same configuration with the target frequency replaced.
    pub fn set_frequency(self, frequency_millihertz: u64) -> (r: Pipe)
        ensures
            r == (Pipe { frequency_millihertz, ..self }),
    {
        Pipe { frequency_millihertz, ..self }
    }

    /// The same configuration with the radius replaced.
    pub fn set_radius(self, radius_micrometers: u64) -> (r: Pipe)
        ensures
            r == (Pipe { radius_micrometers, ..self }),
    {
        Pipe { radius_micrometers, ..self }
    }

    /// The same configuration with the mouth ratio replaced.
    pub fn set_mouth_ratio(self, mouth_ratio_milli: u64) -> (r: Pipe)
        ensures
            r == (Pipe { mouth_ratio_milli, ..self }),
    {
        Pipe { mouth_ratio_milli, ..self }
    }

    /// The same configuration with the cutup ratio replaced.
    pub fn set_cutup_ratio(self, cutup_ratio_milli: u64) -> (r: Pipe)
        ensures
            r == (Pipe { cutup_ratio_milli, ..self }),
    {
        Pipe { cutup_ratio_milli, ..self }
    }

    /// The same configuration, open or stopped as given.
    pub fn set_stopped(self, stopped: bool) -> (r: Pipe)
        ensures
            r == (Pipe { stopped, ..self }),
    {
        Pipe { stopped, ..self }
    }

    /// The same configuration with the intonation number replaced.
    pub fn set_intonation_number(self, intonation_number_milli: u64) -> (r: Pipe)
        ensures
            r == (Pipe { intonation_number_milli, ..self }),
    {
        Pipe { intonation_number_milli, ..self }
    }

    /// The same configuration with the air temperature replaced.
    pub fn set_air_temperature(self, air_temperature_millicelsius: i64) -> (r: Pipe)
        ensures
            r == (Pipe { air_temperature_millicelsius, ..self }),
    {
        Pipe { air_temperature_millicelsius, ..self }
    }

    /// The same configuration with the air density replaced.
    pub fn set_air_density(self, air_density_grams_per_cubic_meter: u64) -> (r: Pipe)
        ensures
            r == (Pipe { air_density_grams_per_cubic_meter, ..self }),
    {
        Pipe { air_density_grams_per_cubic_meter, ..self }
    }

    /// The same configuration with the wind pressure replaced.
    pub fn set_wind_pressure(self, wind_pressure_millipascals: u64) -> (r: Pipe)
        ensures
            r == (Pipe { wind_pressure_millipascals, ..self }),
    {
        Pipe { wind_pressure_millipascals, ..self }
    }
}

} // verus!
