//! Position solving candidate.

use vstd::prelude::*;
use crate::cfg::Config;
use crate::error::Error;
use crate::sv::SV;
use crate::time::{Duration, Epoch, NANOSECONDS_PER_SECOND};

verus! {

/// Speed of light in vacuum, in metres per second.
pub const SPEED_OF_LIGHT: i128 = 299_792_458;

/// Nanoseconds in a second, over millimetres in a metre: a range in millimetres, times
/// this, over the speed of light, is a time in nanoseconds.
pub const NANOSECONDS_PER_MILLIMETRE: i128 = 1_000_000;

/// Three coordinates.
#[derive(Clone, Copy, Debug, PartialEq, Eq, Structural)]
pub struct Vector3D {
    /// First coordinate
    pub x: i64,
    /// Second coordinate
    pub y: i64,
    /// Third coordinate
    pub z: i64,
}

/// Pseudo range observation on a specific carrier frequency.
#[derive(Clone, Copy, Debug, PartialEq, Eq, Structural)]
pub struct PseudoRange {
    /// Observed range, in millimetres
    pub value: i64,
    /// Frequency of the carrier, in hertz
    pub frequency: u64,
}

impl Default for PseudoRange {
    fn default() -> (pr: PseudoRange)
        ensures
            pr.value == 0,
            pr.frequency == 0,
    {
        PseudoRange { value: 0, frequency: 0 }
    }
}

/// Time that light takes to travel `range` millimetres, in nanoseconds, rounded down.
pub open spec fn light_time(range: int) -> int {
    (range * NANOSECONDS_PER_MILLIMETRE) / (SPEED_OF_LIGHT as int)
}

/// Time that light takes to travel `range` millimetres, rounded down to the nanosecond.
pub fn light_time_of_flight(range: i64) -> (dt: Duration)
    ensures
        dt.nanoseconds == light_time(range as int),
{
    let length: i128 = range as i128;
    if length >= 0 {
        Duration { nanoseconds: (length * NANOSECONDS_PER_MILLIMETRE) / SPEED_OF_LIGHT }
    } else {
        let scaled: i128 = (-length) * NANOSECONDS_PER_MILLIMETRE;
        let rounded_up: i128 = (scaled + (SPEED_OF_LIGHT - 1)) / SPEED_OF_LIGHT;
        Duration { nanoseconds: -rounded_up }
    }
}

/// Light needs more than no time and less than one second exactly for the ranges from
/// 300 millimetres up to, but not including, 299,792,458 metres.
pub proof fn lemma_light_time_within_one_second(range: int)
    ensures
        0 < light_time(range) < NANOSECONDS_PER_SECOND <==> 300 <= range < 299_792_458_000,
{
}

/// Light does not need less time for a longer range.
pub proof fn lemma_light_time_is_monotonic(shorter: int, longer: int)
    requires
        shorter <= longer,
    ensures
        light_time(shorter) <= light_time(longer),
{
}

/// What a [`Candidate`] holds.
pub struct CandidateView {
    /// Satellite vehicle
    pub sv: SV,
    /// Instant at which the signals were sampled
    pub t: Epoch,
    /// Position of the satellite, in millimetres, once it is resolved
    pub state: Option<Vector3D>,
    /// Elevation of the satellite, in millionths of a degree, once it is resolved
    pub elevation: Option<i64>,
    /// Azimuth of the satellite, in millionths of a degree, once it is resolved
    pub azimuth: Option<i64>,
    /// Total group delay of the satellite, once it is known
    pub tgd: Option<Duration>,
    /// State of the satellite clock: bias, drift and drift rate, each in units of 1.0E-15
    pub clock_state: Vector3D,
    /// Correction to apply to the satellite clock
    pub clock_corr: Duration,
    /// Signal to noise ratio at the sampling instant, in thousandths of a decibel
    pub snr: Option<i64>,
    /// Pseudo range observations at `t`, in the order they were given
    pub pseudo_range: Seq<PseudoRange>,
}

/// Position solving candidate: what one satellite contributes at one instant.
#[derive(Debug)]
pub struct Candidate {
    sv: SV,
    t: Epoch,
    state: Option<Vector3D>,
    elevation: Option<i64>,
    azimuth: Option<i64>,
    tgd: Option<Duration>,
    clock_state: Vector3D,
    clock_corr: Duration,
    snr: Option<i64>,
    pseudo_range: Vec<PseudoRange>,
}

impl View for Candidate {
    type V = CandidateView;

    closed spec fn view(&self) -> CandidateView {
        CandidateView {
            sv: self.sv,
            t: self.t,
            state: self.state,
            elevation: self.elevation,
            azimuth: self.azimuth,
            tgd: self.tgd,
            clock_state: self.clock_state,
            clock_corr: self.clock_corr,
            snr: self.snr,
            pseudo_range: self.pseudo_range@,
        }
    }
}

impl Clone for Candidate {
    fn clone(&self) -> (copy: Candidate)
        ensures
            copy@ == self@,
    {
        proof {
            use_type_invariant(self);
        }
        let pseudo_range = self.pseudo_range.clone();
        assert(pseudo_range@ =~= self.pseudo_range@);
        Candidate {
            sv: self.sv,
            t: self.t,
            state: self.state,
            elevation: self.elevation,
            azimuth: self.azimuth,
            tgd: self.tgd,
            clock_state: self.clock_state,
            clock_corr: self.clock_corr,
            snr: self.snr,
            pseudo_range,
        }
    }
}

impl CandidateView {
    /// The range that stands for all observations: the one given first.
    pub open spec fn range(self) -> int
        recommends
            self.pseudo_range.len() > 0,
    {
        self.pseudo_range[0].value as int
    }

    /// Share of the satellite clock correction in the time of flight, in nanoseconds.
    pub open spec fn clock_term(self, cfg: Config) -> int {
        if cfg.modeling.sv_clock_bias {
            self.clock_corr.nanoseconds as int
        } else {
            0
        }
    }

    /// Share of the total group delay in the time of flight, in nanoseconds.
    pub open spec fn group_delay_term(self, cfg: Config) -> int {
        if cfg.modeling.sv_total_group_delay {
            match self.tgd {
                Some(tgd) => tgd.nanoseconds as int,
                None => 0,
            }
        } else {
            0
        }
    }

    /// Time between transmission and sampling of the signal, in nanoseconds.
    pub open spec fn transmission_gap(self, cfg: Config) -> int {
        light_time(self.range()) + self.clock_term(cfg) + self.group_delay_term(cfg)
    }

    /// Instant at which the signal was transmitted, in nanoseconds of the time scale of `t`.
    pub open spec fn transmission_instant(self, cfg: Config) -> int {
        self.t.duration.nanoseconds - self.transmission_gap(cfg)
    }
}

/// The range of a candidate is the value of its first observation, however many
/// observations follow.
pub proof fn lemma_range_is_the_first_observation(
    candidate: CandidateView,
    first: PseudoRange,
    others: Seq<PseudoRange>,
)
    requires
        candidate.pseudo_range == seq![first] + others,
    ensures
        candidate.range() == first.value,
{
}

/// With both corrections compensated and the group delay known, the signal was transmitted
/// at the sampling instant less the time of light, less the clock correction, less the
/// group delay.
pub proof fn lemma_transmission_instant_with_both_corrections(
    candidate: CandidateView,
    cfg: Config,
    tgd: Duration,
)
    requires
        candidate.pseudo_range.len() > 0,
        cfg.modeling.sv_clock_bias,
        cfg.modeling.sv_total_group_delay,
        candidate.tgd == Some(tgd),
    ensures
        candidate.transmission_instant(cfg) == candidate.t.duration.nanoseconds - light_time(
            candidate.range(),
        ) - candidate.clock_corr.nanoseconds - tgd.nanoseconds,
{
}

/// Whether the clock correction counts depends on `sv_clock_bias` alone: with it
/// the signal was transmitted earlier by exactly the clock correction than without it,
/// everything else being equal.
pub proof fn lemma_clock_bias_is_toggled_alone(candidate: CandidateView, with: Config, without: Config)
    requires
        candidate.pseudo_range.len() > 0,
        with.modeling.sv_clock_bias,
        !without.modeling.sv_clock_bias,
        with.modeling.sv_total_group_delay == without.modeling.sv_total_group_delay,
    ensures
        candidate.group_delay_term(with) == candidate.group_delay_term(without),
        candidate.clock_term(without) == 0,
        candidate.transmission_instant(without) == candidate.transmission_instant(with)
            + candidate.clock_corr.nanoseconds,
{
}

/// Whether the group delay counts depends on `sv_total_group_delay` alone: with it, and
/// with the group delay known, the signal was transmitted earlier by exactly the group
/// delay than without it, everything else being equal.
pub proof fn lemma_group_delay_is_toggled_alone(
    candidate: CandidateView,
    with: Config,
    without: Config,
    tgd: Duration,
)
    requires
        candidate.pseudo_range.len() > 0,
        with.modeling.sv_total_group_delay,
        !without.modeling.sv_total_group_delay,
        with.modeling.sv_clock_bias == without.modeling.sv_clock_bias,
        candidate.tgd == Some(tgd),
    ensures
        candidate.clock_term(with) == candidate.clock_term(without),
        candidate.group_delay_term(without) == 0,
        candidate.transmission_instant(without) == candidate.transmission_instant(with)
            + tgd.nanoseconds,
{
}

/// A group delay that is not known counts for nothing, whatever the configuration.
pub proof fn lemma_unknown_group_delay_counts_for_nothing(candidate: CandidateView, cfg: Config)
    requires
        candidate.pseudo_range.len() > 0,
        candidate.tgd is None,
    ensures
        candidate.group_delay_term(cfg) == 0,
        candidate.transmission_gap(cfg) == light_time(candidate.range()) + candidate.clock_term(
            cfg,
        ),
{
}

impl Candidate {
    #[verifier::type_invariant]
    spec fn has_pseudo_range(self) -> bool {
        self.pseudo_range@.len() > 0
    }

    /// Creates a new candidate, to inject in the solver pool.
    ///
    /// * `sv`: satellite vehicle
    /// * `t`: instant at which the signals were sampled
    /// * `clock_state`: state of the satellite clock
    /// * `clock_corr`: correction to apply to the satellite clock
    /// * `snr`: signal to noise ratio at the sampling instant
    /// * `pseudo_range`: observations on as many carriers as desired, at least one
    pub fn new(
        sv: SV,
        t: Epoch,
        clock_state: Vector3D,
        clock_corr: Duration,
        snr: Option<i64>,
        pseudo_range: Vec<PseudoRange>,
    ) -> (candidate: Result<Candidate, Error>)
        ensures
            match candidate {
                Ok(c) => pseudo_range@.len() > 0 && c@ == (CandidateView {
                    sv,
                    t,
                    state: None,
                    elevation: None,
                    azimuth: None,
                    tgd: None,
                    clock_state,
                    clock_corr,
                    snr,
                    pseudo_range: pseudo_range@,
                }),
                Err(e) => pseudo_range@.len() == 0 && e == Error::NeedsAtLeastOnePseudoRange,
            },
    {
        if pseudo_range.len() == 0 {
            Err(Error::NeedsAtLeastOnePseudoRange)
        } else {
            Ok(
                Candidate {
                    sv,
                    t,
                    clock_state,
                    clock_corr,
                    snr,
                    pseudo_range,
                    tgd: None,
                    state: None,
                    elevation: None,
                    azimuth: None,
                },
            )
        }
    }

    /// Returns one pseudo range observation, in millimetres, disregarding its frequency:
    /// the one that was given first.
    pub fn pseudo_range(&self) -> (range: i64)
        ensures
            self@.pseudo_range.len() > 0,
            range == self@.range(),
    {
        proof {
            use_type_invariant(self);
        }
        self.pseudo_range[0].value
    }

    /// Computes the instant at which the signal was transmitted.
    ///
    /// The time of flight is the time light takes for the observed range, plus the satellite
    /// clock correction while `cfg` has the clock bias compensated, plus the total group delay
    /// while `cfg` has it compensated and it is known. The signal left that long before it was
    /// sampled. A time of flight that is not positive, or that reaches one second, is refused.
    pub fn transmission_time(&self, cfg: &Config) -> (e_tx: Result<Epoch, Error>)
        ensures
            match e_tx {
                Ok(e) => {
                    &&& 0 < self@.transmission_gap(*cfg) < NANOSECONDS_PER_SECOND
                    &&& e.time_scale == self@.t.time_scale
                    &&& e.duration.nanoseconds == self@.transmission_instant(*cfg)
                },
                Err(Error::PhysicalNonSenseRxPriorTx) => self@.transmission_gap(*cfg) <= 0,
                Err(Error::PhysicalNonSenseRxTooLate) => self@.transmission_gap(*cfg)
                    >= NANOSECONDS_PER_SECOND,
                Err(Error::EpochOutOfRange) => {
                    &&& 0 < self@.transmission_gap(*cfg) < NANOSECONDS_PER_SECOND
                    &&& self@.transmission_instant(*cfg) < i128::MIN
                },
                Err(Error::NeedsAtLeastOnePseudoRange) => false,
            },
    {
        let light: i128 = light_time_of_flight(self.pseudo_range()).nanoseconds;
        let clock: i128 = if cfg.modeling.sv_clock_bias {
            self.clock_corr.nanoseconds
        } else {
            0
        };
        let group_delay: i128 = if cfg.modeling.sv_total_group_delay {
            match self.tgd {
                Some(tgd) => tgd.nanoseconds,
                None => 0,
            }
        } else {
            0
        };
        match clock.checked_add(group_delay) {
            None => {
                if clock < 0 {
                    Err(Error::PhysicalNonSenseRxPriorTx)
                } else {
                    Err(Error::PhysicalNonSenseRxTooLate)
                }
            },
            Some(corrections) => match corrections.checked_add(light) {
                None => {
                    if light < 0 {
                        Err(Error::PhysicalNonSenseRxPriorTx)
                    } else {
                        Err(Error::PhysicalNonSenseRxTooLate)
                    }
                },
                Some(gap) => {
                    if gap <= 0 {
                        Err(Error::PhysicalNonSenseRxPriorTx)
                    } else if gap >= NANOSECONDS_PER_SECOND {
                        Err(Error::PhysicalNonSenseRxTooLate)
                    } else {
                        match self.t.duration.nanoseconds.checked_sub(gap) {
                            Some(nanoseconds) => Ok(
                                Epoch {
                                    duration: Duration { nanoseconds },
                                    time_scale: self.t.time_scale,
                                },
                            ),
                            None => Err(Error::EpochOutOfRange),
                        }
                    }
                },
            },
        }
    }
    /// Satellite vehicle of this candidate.
    pub fn sv(&self) -> (sv: SV)
        ensures
            sv == self@.sv,
    {
        self.sv
    }

    /// Instant at which the signals were sampled.
    pub fn t(&self) -> (t: Epoch)
        ensures
            t == self@.t,
    {
        self.t
    }

    /// Position of the satellite, in millimetres, once it is resolved.
    pub fn state(&self) -> (state: Option<Vector3D>)
        ensures
            state == self@.state,
    {
        self.state
    }

    /// Elevation of the satellite, in millionths of a degree, once it is resolved.
    pub fn elevation(&self) -> (elevation: Option<i64>)
        ensures
            elevation == self@.elevation,
    {
        self.elevation
    }

    /// Azimuth of the satellite, in millionths of a degree, once it is resolved.
    pub fn azimuth(&self) -> (azimuth: Option<i64>)
        ensures
            azimuth == self@.azimuth,
    {
        self.azimuth
    }

    /// Total group delay of the satellite, once it is known.
    pub fn tgd(&self) -> (tgd: Option<Duration>)
        ensures
            tgd == self@.tgd,
    {
        self.tgd
    }

    /// State of the satellite clock: bias, drift and drift rate, each in units of 1.0E-15.
    pub fn clock_state(&self) -> (clock_state: Vector3D)
        ensures
            clock_state == self@.clock_state,
    {
        self.clock_state
    }

    /// Correction to apply to the satellite clock.
    pub fn clock_corr(&self) -> (clock_corr: Duration)
        ensures
            clock_corr == self@.clock_corr,
    {
        self.clock_corr
    }

    /// Signal to noise ratio at the sampling instant, in thousandths of a decibel.
    pub fn snr(&self) -> (snr: Option<i64>)
        ensures
            snr == self@.snr,
    {
        self.snr
    }

    /// Number of pseudo range observations, at least one.
    pub fn observations(&self) -> (n: usize)
        ensures
            n == self@.pseudo_range.len(),
            n > 0,
    {
        proof {
            use_type_invariant(self);
        }
        self.pseudo_range.len()
    }

    /// The pseudo range observation that was given in place `i`, counted from 0.
    pub fn observation(&self, i: usize) -> (pr: Option<PseudoRange>)
        ensures
            pr == (if i < self@.pseudo_range.len() {
                Some(self@.pseudo_range[i as int])
            } else {
                None
            }),
    {
        if i < self.pseudo_range.len() {
            Some(self.pseudo_range[i])
        } else {
            None
        }
    }

    /// Records the position of the satellite, in millimetres.
    pub fn set_state(&mut self, state: Vector3D)
        ensures
            final(self)@ == (CandidateView { state: Some(state), ..old(self)@ }),
    {
        proof {
            use_type_invariant(&*self);
        }
        self.state = Some(state);
    }

    /// Records the elevation of the satellite, in millionths of a degree.
    pub fn set_elevation(&mut self, elevation: i64)
        ensures
            final(self)@ == (CandidateView { elevation: Some(elevation), ..old(self)@ }),
    {
        proof {
            use_type_invariant(&*self);
        }
        self.elevation = Some(elevation);
    }

    /// Records the azimuth of the satellite, in millionths of a degree.
    pub fn set_azimuth(&mut self, azimuth: i64)
        ensures
            final(self)@ == (CandidateView { azimuth: Some(azimuth), ..old(self)@ }),
    {
        proof {
            use_type_invariant(&*self);
        }
        self.azimuth = Some(azimuth);
    }

    /// Records the total group delay of the satellite, or that it is not known.
    pub fn set_tgd(&mut self, tgd: Option<Duration>)
        ensures
            final(self)@ == (CandidateView { tgd, ..old(self)@ }),
    {
        proof {
            use_type_invariant(&*self);
        }
        self.tgd = tgd;
    }
}

} // verus!
