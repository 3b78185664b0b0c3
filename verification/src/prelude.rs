//! The items that most users of this library need.

pub use crate::candidate::{Candidate, PseudoRange, Vector3D};
pub use crate::cfg::{Config, Mode};
pub use crate::error::Error;
pub use crate::model::{Modeling, Models, TropoComponents};
pub use crate::sv::{Constellation, SV};
pub use crate::time::{Duration, Epoch, TimeScale};
