//! Signal transmission time and tropospheric delay of GNSS observations.
//!
//! For each satellite that takes part in a position solution, this library resolves the
//! instant at which the sampled signal was transmitted ([`candidate`]) and the delay that
//! the troposphere added on its way ([`model`]).
//!
//! Every quantity is an integer, so that every result is exact and can be stated exactly:
//!
//! | quantity                         | unit                    |
//! |----------------------------------|-------------------------|
//! | time                             | nanosecond              |
//! | range, delay, position, altitude | millimetre              |
//! | elevation, azimuth, latitude     | millionth of a degree   |
//! | carrier frequency                | hertz                   |
//! | signal to noise ratio            | thousandth of a decibel |
//! | clock bias, drift, drift rate    | 1.0E-15 of the SI unit  |

pub mod candidate;
pub mod cfg;
pub mod error;
pub mod model;
pub mod prelude;
pub mod sv;
pub mod time;

pub use candidate::Vector3D;
pub use error::Error;
