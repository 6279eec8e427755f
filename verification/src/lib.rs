//! Organ flue pipe scaling: musical pitches under an equal-temperament
//! layout, with exact whole-cent interval arithmetic, and the configuration
//! record of a single pipe calculation.

pub mod pipe;
pub mod temperament;

pub use pipe::Pipe;
pub use temperament::Pitch;
pub use temperament::Temperament;
