//! Solver configuration.

use vstd::prelude::*;
use crate::model::Modeling;

verus! {

/// Way in which positions are solved.
#[derive(Clone, Copy, Debug, PartialEq, Eq, Structural)]
pub enum Mode {
    /// Single point positioning
    SPP,
    /// Single point positioning refined by recursive least squares
    LSQSPP,
    /// Precise point positioning
    PPP,
}

/// Configuration of one solving session.
#[derive(Clone, Copy, Debug, PartialEq, Eq, Structural)]
pub struct Config {
    /// Way in which positions are solved
    pub mode: Mode,
    /// Physical effects that are compensated
    pub modeling: Modeling,
}

impl Config {
    /// Configuration that suits `mode`.
    pub fn new(mode: Mode) -> (cfg: Config)
        ensures
            cfg.mode == mode,
            cfg.modeling == Modeling::preset(mode),
    {
        Config { mode, modeling: Modeling::from(mode) }
    }
}

} // verus!
