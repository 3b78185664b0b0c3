use gnss_rtk::candidate::{light_time_of_flight, Candidate, PseudoRange, Vector3D, SPEED_OF_LIGHT};
use gnss_rtk::cfg::{Config, Mode};
use gnss_rtk::error::Error;
use gnss_rtk::sv::{Constellation, SV};
use gnss_rtk::time::{Duration, Epoch, TimeScale};

const T_NS: i128 = 1_400_000_000_000_000_000;

fn gps(prn: u8) -> SV {
    SV::new(Constellation::GPS, prn)
}

fn sampling_instant() -> Epoch {
    Epoch::from_duration(Duration::from_total_nanoseconds(T_NS), TimeScale::GPST)
}

fn no_clock_state() -> Vector3D {
    Vector3D { x: 0, y: 0, z: 0 }
}

fn candidate(range_mm: i64, clock_corr_ns: i128, tgd_ns: Option<i128>) -> Candidate {
    let mut cd = Candidate::new(
        gps(3),
        sampling_instant(),
        no_clock_state(),
        Duration::from_total_nanoseconds(clock_corr_ns),
        None,
        vec![PseudoRange { value: range_mm, frequency: 1_575_420_000 }],
    )
    .unwrap();
    cd.set_tgd(tgd_ns.map(Duration::from_total_nanoseconds));
    cd
}

fn config(sv_clock_bias: bool, sv_total_group_delay: bool) -> Config {
    let mut cfg = Config::new(Mode::SPP);
    cfg.modeling.sv_clock_bias = sv_clock_bias;
    cfg.modeling.sv_total_group_delay = sv_total_group_delay;
    cfg
}

#[test]
fn new_without_observation_is_refused() {
    let r = Candidate::new(
        gps(1),
        sampling_instant(),
        no_clock_state(),
        Duration::zero(),
        Some(42_000),
        Vec::new(),
    );
    assert_eq!(r.err(), Some(Error::NeedsAtLeastOnePseudoRange));
}

#[test]
fn new_with_observations_succeeds() {
    for n in 1..5usize {
        let obs: Vec<PseudoRange> = (0..n)
            .map(|i| PseudoRange { value: 1_000 + i as i64, frequency: 1_000_000 + i as u64 })
            .collect();
        let cd = Candidate::new(
            gps(1),
            sampling_instant(),
            Vector3D { x: 1, y: 2, z: 3 },
            Duration::from_total_nanoseconds(17),
            Some(42_000),
            obs.clone(),
        )
        .unwrap();
        assert_eq!(cd.observations(), n);
        for i in 0..n {
            assert_eq!(cd.observation(i), Some(obs[i]));
        }
        assert_eq!(cd.observation(n), None);
        assert_eq!(cd.sv(), gps(1));
        assert_eq!(cd.t(), sampling_instant());
        assert_eq!(cd.clock_state(), Vector3D { x: 1, y: 2, z: 3 });
        assert_eq!(cd.clock_corr(), Duration::from_total_nanoseconds(17));
        assert_eq!(cd.snr(), Some(42_000));
        assert_eq!(cd.state(), None);
        assert_eq!(cd.elevation(), None);
        assert_eq!(cd.azimuth(), None);
        assert_eq!(cd.tgd(), None);
    }
}

#[test]
fn resolved_fields_are_recorded() {
    let mut cd = candidate(20_000_000_000, 0, None);
    cd.set_state(Vector3D { x: 15_000_000_000, y: -7, z: 21_000_000_000 });
    cd.set_elevation(35_500_000);
    cd.set_azimuth(270_000_000);
    cd.set_tgd(Some(Duration::from_total_nanoseconds(5)));
    assert_eq!(cd.state(), Some(Vector3D { x: 15_000_000_000, y: -7, z: 21_000_000_000 }));
    assert_eq!(cd.elevation(), Some(35_500_000));
    assert_eq!(cd.azimuth(), Some(270_000_000));
    assert_eq!(cd.tgd(), Some(Duration::from_total_nanoseconds(5)));
    cd.set_tgd(None);
    assert_eq!(cd.tgd(), None);
    assert_eq!(cd.pseudo_range(), 20_000_000_000);
    assert_eq!(cd.sv(), gps(3));
}

#[test]
fn clone_keeps_everything() {
    let mut cd = candidate(20_000_000_000, 11, Some(5));
    cd.set_elevation(1);
    let copy = cd.clone();
    assert_eq!(copy.sv(), cd.sv());
    assert_eq!(copy.t(), cd.t());
    assert_eq!(copy.tgd(), cd.tgd());
    assert_eq!(copy.clock_corr(), cd.clock_corr());
    assert_eq!(copy.elevation(), cd.elevation());
    assert_eq!(copy.observations(), cd.observations());
    assert_eq!(copy.pseudo_range(), cd.pseudo_range());
}

#[test]
fn default_pseudo_range_is_zero() {
    let pr = PseudoRange::default();
    assert_eq!(pr, PseudoRange { value: 0, frequency: 0 });
}

#[test]
fn pseudo_range_is_the_first_observation() {
    let first = PseudoRange { value: 21_345_678_901, frequency: 1_575_420_000 };
    let mut obs = vec![first];
    for extra in 0..4i64 {
        let cd = Candidate::new(
            gps(9),
            sampling_instant(),
            no_clock_state(),
            Duration::zero(),
            None,
            obs.clone(),
        )
        .unwrap();
        assert_eq!(cd.pseudo_range(), 21_345_678_901);
        assert_eq!(cd.pseudo_range(), cd.pseudo_range());
        obs.push(PseudoRange { value: extra, frequency: 1_227_600_000 });
    }
}

#[test]
fn speed_of_light_is_in_metres_per_second() {
    assert_eq!(SPEED_OF_LIGHT, 299_792_458);
}

#[test]
fn light_time_of_flight_is_rounded_down() {
    assert_eq!(light_time_of_flight(0).total_nanoseconds(), 0);
    assert_eq!(light_time_of_flight(299).total_nanoseconds(), 0);
    assert_eq!(light_time_of_flight(300).total_nanoseconds(), 1);
    assert_eq!(light_time_of_flight(299_792_458).total_nanoseconds(), 1_000_000);
    assert_eq!(light_time_of_flight(20_000_000_000).total_nanoseconds(), 66_712_819);
    assert_eq!(light_time_of_flight(299_792_457_999).total_nanoseconds(), 999_999_999);
    assert_eq!(light_time_of_flight(299_792_458_000).total_nanoseconds(), 1_000_000_000);
    assert_eq!(light_time_of_flight(-1).total_nanoseconds(), -1);
    assert_eq!(light_time_of_flight(-299_792_458).total_nanoseconds(), -1_000_000);
    assert_eq!(light_time_of_flight(-299_792_459).total_nanoseconds(), -1_000_001);
    assert_eq!(
        light_time_of_flight(i64::MAX).total_nanoseconds(),
        (i64::MAX as i128) * 1_000_000 / 299_792_458
    );
    assert_eq!(
        light_time_of_flight(i64::MIN).total_nanoseconds(),
        ((i64::MIN as i128) * 1_000_000).div_euclid(299_792_458)
    );
}

#[test]
fn transmission_time_with_both_corrections() {
    let cd = candidate(20_000_000_000, 123_456, Some(7_890));
    let e_tx = cd.transmission_time(&config(true, true)).unwrap();
    assert_eq!(e_tx.time_scale, TimeScale::GPST);
    assert_eq!(e_tx.to_duration().total_nanoseconds(), T_NS - 66_712_819 - 123_456 - 7_890);
    let gap = T_NS - e_tx.to_duration().total_nanoseconds();
    assert!(gap > 0 && gap < 1_000_000_000);
    assert_eq!(gap, 66_844_165);
}

#[test]
fn transmission_time_of_a_realistic_range() {
    let cd = candidate(20_000_000_000, 0, None);
    let e_tx = cd.transmission_time(&Config::new(Mode::SPP)).unwrap();
    assert_eq!(T_NS - e_tx.to_duration().total_nanoseconds(), 66_712_819);
}

#[test]
fn transmission_time_without_clock_bias() {
    let cd = candidate(20_000_000_000, 123_456, Some(7_890));
    let e_tx = cd.transmission_time(&config(false, true)).unwrap();
    assert_eq!(e_tx.to_duration().total_nanoseconds(), T_NS - 66_712_819 - 7_890);
}

#[test]
fn transmission_time_without_group_delay() {
    let cd = candidate(20_000_000_000, 123_456, Some(7_890));
    let e_tx = cd.transmission_time(&config(true, false)).unwrap();
    assert_eq!(e_tx.to_duration().total_nanoseconds(), T_NS - 66_712_819 - 123_456);
}

#[test]
fn transmission_time_without_any_correction() {
    let cd = candidate(20_000_000_000, 123_456, Some(7_890));
    let e_tx = cd.transmission_time(&config(false, false)).unwrap();
    assert_eq!(e_tx.to_duration().total_nanoseconds(), T_NS - 66_712_819);
}

#[test]
fn transmission_time_with_unknown_group_delay() {
    let cd = candidate(20_000_000_000, 123_456, None);
    let with = cd.transmission_time(&config(true, true)).unwrap();
    let without = cd.transmission_time(&config(true, false)).unwrap();
    assert_eq!(with, without);
    assert_eq!(with.to_duration().total_nanoseconds(), T_NS - 66_712_819 - 123_456);
}

#[test]
fn transmission_time_keeps_the_time_scale() {
    for ts in [
        TimeScale::TAI,
        TimeScale::TT,
        TimeScale::ET,
        TimeScale::TDB,
        TimeScale::UTC,
        TimeScale::GPST,
        TimeScale::GST,
        TimeScale::BDT,
    ] {
        let cd = Candidate::new(
            gps(2),
            Epoch::from_duration(Duration::from_total_nanoseconds(-5), ts),
            no_clock_state(),
            Duration::zero(),
            None,
            vec![PseudoRange { value: 300, frequency: 0 }],
        )
        .unwrap();
        let e_tx = cd.transmission_time(&Config::new(Mode::PPP)).unwrap();
        assert_eq!(e_tx, Epoch::from_duration(Duration::from_total_nanoseconds(-6), ts));
    }
}

#[test]
fn transmission_time_refuses_a_gap_that_is_not_positive() {
    let cfg = config(true, true);
    assert_eq!(
        candidate(0, 0, None).transmission_time(&cfg),
        Err(Error::PhysicalNonSenseRxPriorTx)
    );
    assert_eq!(
        candidate(299, 0, None).transmission_time(&cfg),
        Err(Error::PhysicalNonSenseRxPriorTx)
    );
    assert_eq!(
        candidate(-20_000_000_000, 0, None).transmission_time(&cfg),
        Err(Error::PhysicalNonSenseRxPriorTx)
    );
    assert_eq!(
        candidate(20_000_000_000, -66_712_819, None).transmission_time(&cfg),
        Err(Error::PhysicalNonSenseRxPriorTx)
    );
    assert_eq!(
        candidate(20_000_000_000, 0, Some(-70_000_000)).transmission_time(&cfg),
        Err(Error::PhysicalNonSenseRxPriorTx)
    );
    assert_eq!(
        candidate(20_000_000_000, i128::MIN, Some(i128::MIN)).transmission_time(&cfg),
        Err(Error::PhysicalNonSenseRxPriorTx)
    );
    assert_eq!(
        candidate(-20_000_000_000, i128::MIN, Some(1)).transmission_time(&cfg),
        Err(Error::PhysicalNonSenseRxPriorTx)
    );
    assert!(candidate(20_000_000_000, -66_712_818, None).transmission_time(&cfg).is_ok());
}

#[test]
fn transmission_time_refuses_a_gap_of_one_second_or_more() {
    let cfg = config(true, true);
    assert_eq!(
        candidate(299_792_458_000, 0, None).transmission_time(&cfg),
        Err(Error::PhysicalNonSenseRxTooLate)
    );
    assert_eq!(
        candidate(i64::MAX, 0, None).transmission_time(&cfg),
        Err(Error::PhysicalNonSenseRxTooLate)
    );
    assert_eq!(
        candidate(20_000_000_000, 1_000_000_000 - 66_712_819, None).transmission_time(&cfg),
        Err(Error::PhysicalNonSenseRxTooLate)
    );
    assert_eq!(
        candidate(20_000_000_000, 0, Some(1_000_000_000)).transmission_time(&cfg),
        Err(Error::PhysicalNonSenseRxTooLate)
    );
    assert_eq!(
        candidate(20_000_000_000, i128::MAX, Some(i128::MAX)).transmission_time(&cfg),
        Err(Error::PhysicalNonSenseRxTooLate)
    );
    assert_eq!(
        candidate(20_000_000_000, i128::MAX, Some(-1)).transmission_time(&cfg),
        Err(Error::PhysicalNonSenseRxTooLate)
    );
    assert!(candidate(299_792_457_999, 0, None).transmission_time(&cfg).is_ok());
    assert!(candidate(20_000_000_000, 1_000_000_000 - 66_712_820, None)
        .transmission_time(&cfg)
        .is_ok());
}

#[test]
fn transmission_time_compensates_huge_corrections_exactly() {
    let cd = candidate(20_000_000_000, i128::MAX, Some(-i128::MAX));
    let e_tx = cd.transmission_time(&config(true, true)).unwrap();
    assert_eq!(e_tx.to_duration().total_nanoseconds(), T_NS - 66_712_819);
    assert_eq!(
        cd.transmission_time(&config(false, true)),
        Err(Error::PhysicalNonSenseRxPriorTx)
    );
    assert_eq!(
        cd.transmission_time(&config(true, false)),
        Err(Error::PhysicalNonSenseRxTooLate)
    );
}

#[test]
fn transmission_time_before_the_earliest_epoch() {
    let cd = Candidate::new(
        gps(2),
        Epoch::from_duration(Duration::from_total_nanoseconds(i128::MIN + 5), TimeScale::TAI),
        no_clock_state(),
        Duration::zero(),
        None,
        vec![PseudoRange { value: 20_000_000_000, frequency: 0 }],
    )
    .unwrap();
    assert_eq!(cd.transmission_time(&Config::new(Mode::SPP)), Err(Error::EpochOutOfRange));
    let cd = Candidate::new(
        gps(2),
        Epoch::from_duration(
            Duration::from_total_nanoseconds(i128::MIN + 66_712_819),
            TimeScale::TAI,
        ),
        no_clock_state(),
        Duration::zero(),
        None,
        vec![PseudoRange { value: 20_000_000_000, frequency: 0 }],
    )
    .unwrap();
    assert_eq!(
        cd.transmission_time(&Config::new(Mode::SPP)),
        Ok(Epoch::from_duration(Duration::from_total_nanoseconds(i128::MIN), TimeScale::TAI))
    );
}

#[test]
fn error_messages() {
    assert_eq!(
        Error::NeedsAtLeastOnePseudoRange.message(),
        "need at least one pseudo range observation"
    );
    assert_eq!(
        Error::PhysicalNonSenseRxPriorTx.message(),
        "resolved t_tx is physically impossible"
    );
    assert_eq!(
        Error::PhysicalNonSenseRxTooLate.message(),
        "|t - t_tx| < 1 sec is physically impossible"
    );
    assert_eq!(Error::EpochOutOfRange.message(), "resolved t_tx cannot be expressed");
}
