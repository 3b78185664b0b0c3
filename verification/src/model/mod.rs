//! Physical, atmospherical and environmental modeling.

use std::collections::HashMap;
use vstd::prelude::*;
use vstd::std_specs::convert::FromSpecImpl;
use crate::cfg::{Config, Mode};
use crate::sv::SV;
use crate::time::Epoch;

pub mod tropo;

pub use tropo::TropoComponents;
use tropo::{slant_delay, tropo_delay};

verus! {

/// Whether the satellite clock bias is compensated when nothing else is asked for.
pub fn default_sv_clock() -> (enabled: bool)
    ensures
        enabled,
{
    true
}

/// Whether the satellite total group delay is compensated when nothing else is asked for.
pub fn default_sv_tgd() -> (enabled: bool)
    ensures
        enabled,
{
    true
}

/// Whether the ionospheric delay is compensated when nothing else is asked for.
pub fn default_iono() -> (enabled: bool)
    ensures
        enabled,
{
    true
}

/// Whether the tropospheric delay is compensated when nothing else is asked for.
pub fn default_tropo() -> (enabled: bool)
    ensures
        enabled,
{
    true
}

/// Whether the rotation of the Earth is compensated when nothing else is asked for.
pub fn default_earth_rot() -> (enabled: bool)
    ensures
        !enabled,
{
    false
}

/// Whether relativistic clock effects are compensated when nothing else is asked for.
pub fn default_rel_clock_corr() -> (enabled: bool)
    ensures
        !enabled,
{
    false
}

/// Atmospherical, physical and environmental effects that are compensated.
#[derive(Copy, Clone, Debug, PartialEq, Eq, Structural)]
pub struct Modeling {
    /// Compensate the bias of the satellite clock
    pub sv_clock_bias: bool,
    /// Compensate the delay caused by the troposphere
    pub tropo_delay: bool,
    /// Compensate the delay caused by the ionosphere
    pub iono_delay: bool,
    /// Compensate the total group delay of the satellite
    pub sv_total_group_delay: bool,
    /// Compensate the rotation of the Earth during the flight of the signal
    pub earth_rotation: bool,
    /// Compensate relativistic effects on the satellite clock
    pub relativistic_clock_corr: bool,
}

impl Modeling {
    /// The modeling in force when nothing else is asked for: clock bias, troposphere,
    /// ionosphere and group delay are compensated, Earth rotation and relativistic
    /// effects are not.
    pub open spec fn standard() -> Modeling {
        Modeling {
            sv_clock_bias: true,
            tropo_delay: true,
            iono_delay: true,
            sv_total_group_delay: true,
            earth_rotation: false,
            relativistic_clock_corr: false,
        }
    }

    /// The modeling that a solving mode starts from: the standard one, whatever the mode.
    pub open spec fn preset(mode: Mode) -> Modeling {
        Modeling::standard()
    }
}

impl Default for Modeling {
    fn default() -> (modeling: Modeling)
        ensures
            modeling == Modeling::standard(),
    {
        Modeling {
            sv_clock_bias: default_sv_clock(),
            iono_delay: default_iono(),
            tropo_delay: default_tropo(),
            sv_total_group_delay: default_sv_tgd(),
            earth_rotation: default_earth_rot(),
            relativistic_clock_corr: default_rel_clock_corr(),
        }
    }
}

impl From<Mode> for Modeling {
    fn from(mode: Mode) -> (modeling: Modeling) {
        Modeling::default()
    }
}

impl FromSpecImpl<Mode> for Modeling {
    open spec fn obeys_from_spec() -> bool {
        true
    }

    open spec fn from_spec(mode: Mode) -> Modeling {
        Modeling::preset(mode)
    }
}

/// The satellites that `sv` names.
pub open spec fn satellites(sv: Seq<(SV, i64)>) -> Set<SV> {
    Set::new(|s: SV| exists|i: int| 0 <= i < sv.len() && (#[trigger] sv[i]).0 == s)
}

/// The elevation that `sv` gives for the satellite `s`: where `sv` names `s` more than
/// once, the one given last.
pub open spec fn elevation_of(sv: Seq<(SV, i64)>, s: SV) -> i64
    decreases sv.len(),
{
    if sv.len() == 0 {
        0
    } else if sv.last().0 == s {
        sv.last().1
    } else {
        elevation_of(sv.drop_last(), s)
    }
}

/// A list names the satellites that it names without its last entry, and that of its last
/// entry.
pub proof fn lemma_satellites_of_longer_list(sv: Seq<(SV, i64)>)
    requires
        sv.len() > 0,
    ensures
        satellites(sv) == satellites(sv.drop_last()).insert(sv.last().0),
{
    let shorter = sv.drop_last();
    let added = sv.last().0;
    assert forall|s: SV| satellites(sv).contains(s) implies satellites(shorter).insert(
        added,
    ).contains(s) by {
        let j = choose|j: int| 0 <= j < sv.len() && (#[trigger] sv[j]).0 == s;
        if j < sv.len() - 1 {
            assert(shorter[j].0 == s);
        }
    }
    assert forall|s: SV| satellites(shorter).insert(added).contains(s) implies satellites(
        sv,
    ).contains(s) by {
        if s == added {
            assert(sv[sv.len() - 1].0 == s);
        } else {
            let j = choose|j: int| 0 <= j < shorter.len() && (#[trigger] shorter[j]).0 == s;
            assert(sv[j].0 == s);
        }
    }
    assert(satellites(sv) =~= satellites(shorter).insert(added));
}

/// The elevation of a satellite is the one in the last entry of `sv` that names it.
pub proof fn lemma_elevation_of_last_entry(sv: Seq<(SV, i64)>, i: int)
    requires
        0 <= i < sv.len(),
        forall|j: int| i < j < sv.len() ==> (#[trigger] sv[j]).0 != sv[i].0,
    ensures
        elevation_of(sv, sv[i].0) == sv[i].1,
    decreases sv.len(),
{
    if i < sv.len() - 1 {
        assert(sv.last() == sv[sv.len() - 1]);
        lemma_elevation_of_last_entry(sv.drop_last(), i);
    }
}

/// Whether `table` is the table of the satellites in `sv`: with the zenith delays `used`
/// it gives each of them the delay along its line of sight, and without any it gives each
/// of them a delay of zero. It holds no other satellite.
pub open spec fn is_table_of(
    table: Map<SV, i64>,
    sv: Seq<(SV, i64)>,
    used: Option<TropoComponents>,
) -> bool {
    &&& table.dom() == satellites(sv)
    &&& forall|s: SV| #[trigger]
        table.contains_key(s) ==> table[s] == match used {
            Some(zenith) => slant_delay(
                elevation_of(sv, s) as int,
                zenith.zwd as int,
                zenith.zdd as int,
            ),
            None => 0,
        }
}

/// The table of the satellites in `sv` holds no satellite that `sv` does not name,
/// whatever was in a table before.
pub proof fn lemma_table_holds_no_other_satellite(
    table: Map<SV, i64>,
    sv: Seq<(SV, i64)>,
    used: Option<TropoComponents>,
    s: SV,
)
    requires
        is_table_of(table, sv, used),
        forall|i: int| 0 <= i < sv.len() ==> (#[trigger] sv[i]).0 != s,
    ensures
        !table.contains_key(s),
{
}

/// Without zenith delays, the table gives every satellite a delay of zero, wherever the
/// satellite stands.
pub proof fn lemma_table_without_tropo_is_zero(table: Map<SV, i64>, sv: Seq<(SV, i64)>, i: int)
    requires
        is_table_of(table, sv, None),
        0 <= i < sv.len(),
    ensures
        table.contains_key(sv[i].0),
        table[sv[i].0] == 0,
{
    assert(satellites(sv).contains(sv[i].0));
    assert(table.contains_key(sv[i].0));
}

/// The table of the satellites in `sv` holds each satellite that `sv` names, with the
/// delay that follows from the last entry of `sv` for it: this is what
/// [`Models::sum_up`] returns for that satellite right after [`Models::modelize`].
pub proof fn lemma_table_holds_each_satellite(
    table: Map<SV, i64>,
    sv: Seq<(SV, i64)>,
    zenith: TropoComponents,
    i: int,
)
    requires
        is_table_of(table, sv, Some(zenith)),
        0 <= i < sv.len(),
        forall|j: int| i < j < sv.len() ==> (#[trigger] sv[j]).0 != sv[i].0,
    ensures
        table.contains_key(sv[i].0),
        table[sv[i].0] == slant_delay(sv[i].1 as int, zenith.zwd as int, zenith.zdd as int),
{
    lemma_elevation_of_last_entry(sv, i);
    assert(satellites(sv).contains(sv[i].0));
    assert(table.contains_key(sv[i].0));
}

/// Delay that the environment adds to the signal of each satellite in sight, in millimetres.
#[derive(Debug)]
pub struct Models {
    table: HashMap<u64, i64>,
}

impl View for Models {
    type V = Map<SV, i64>;

    closed spec fn view(&self) -> Map<SV, i64> {
        Map::new(
            |s: SV| self.table@.contains_key(s.spec_key()),
            |s: SV| self.table@[s.spec_key()],
        )
    }
}

impl Default for Models {
    fn default() -> (models: Models)
        ensures
            models@ == Map::<SV, i64>::empty(),
    {
        Models::new()
    }
}

impl Clone for Models {
    fn clone(&self) -> (copy: Models)
        ensures
            copy@ == self@,
    {
        let copy = Models { table: self.table.clone() };
        assert(copy@ =~= self@);
        copy
    }
}

impl Models {
    /// A table without any satellite.
    pub fn new() -> (models: Models)
        ensures
            models@ == Map::<SV, i64>::empty(),
    {
        let models = Models { table: HashMap::new() };
        assert(models@ =~= Map::<SV, i64>::empty());
        models
    }

    /// Whether the zenith components `used` are those that [`Models::modelize`] has to work
    /// with: the ones the caller imposes, or else ones that `zenith_model` gives for
    /// the instant and the place of the receiver.
    pub open spec fn zenith_components<M: Fn(Epoch, i64, i64) -> TropoComponents>(
        tropo_components: Option<TropoComponents>,
        zenith_model: M,
        t: Epoch,
        lat_udeg: i64,
        alt_above_sea_mm: i64,
        used: TropoComponents,
    ) -> bool {
        match tropo_components {
            Some(imposed) => used == imposed,
            None => call_ensures(zenith_model, (t, lat_udeg, alt_above_sea_mm), used),
        }
    }

    /// Rebuilds the table for the satellites in `sv`, each given with its elevation in
    /// millionths of a degree. Whatever the table held before is forgotten.
    ///
    /// While the tropospheric delay is not compensated, every satellite gets a delay of zero.
    /// While it is, every satellite gets the delay along its line of sight, which follows
    /// from its elevation and from the zenith wet and dry delays: those of `tropo_components`
    /// if the caller imposes any, else those that `zenith_model` gives for the instant `t`,
    /// the latitude `lat_udeg` (in millionths of a degree) and the altitude
    /// `alt_above_sea_mm` (in millimetres) of the receiver.
    pub fn modelize<M>(
        &mut self,
        t: Epoch,
        sv: Vec<(SV, i64)>,
        lat_udeg: i64,
        alt_above_sea_mm: i64,
        cfg: &Config,
        tropo_components: Option<TropoComponents>,
        zenith_model: M,
    ) where M: Fn(Epoch, i64, i64) -> TropoComponents
        requires
            cfg.modeling.tropo_delay && tropo_components is None ==> call_requires(
                zenith_model,
                (t, lat_udeg, alt_above_sea_mm),
            ),
        ensures
            !cfg.modeling.tropo_delay ==> is_table_of(final(self)@, sv@, None),
            cfg.modeling.tropo_delay ==> exists|used: TropoComponents|
                {
                    &&& Self::zenith_components(
                        tropo_components,
                        zenith_model,
                        t,
                        lat_udeg,
                        alt_above_sea_mm,
                        used,
                    )
                    &&& is_table_of(final(self)@, sv@, Some(used))
                },
    {
        self.table.clear();
        let components: Option<TropoComponents> = if cfg.modeling.tropo_delay {
            match tropo_components {
                Some(imposed) => Some(imposed),
                None => Some(zenith_model(t, lat_udeg, alt_above_sea_mm)),
            }
        } else {
            None
        };
        assert(self@ =~= Map::<SV, i64>::empty());
        assert(satellites(sv@.take(0)) =~= Set::<SV>::empty());
        let mut i: usize = 0;
        while i < sv.len()
            invariant
                0 <= i <= sv.len(),
                cfg.modeling.tropo_delay == components is Some,
                components matches Some(used) ==> Self::zenith_components(
                    tropo_components,
                    zenith_model,
                    t,
                    lat_udeg,
                    alt_above_sea_mm,
                    used,
                ),
                is_table_of(self@, sv@.take(i as int), components),
            decreases sv.len() - i,
        {
            let (s, elev) = sv[i];
            let ghost before = self@;
            let delay: i64 = match components {
                Some(used) => tropo_delay(elev, used.zwd, used.zdd),
                None => 0,
            };
            self.table.insert(s.key(), delay);
            proof {
                let seen = sv@.take(i as int);
                let next = sv@.take(i + 1);
                assert(next.drop_last() =~= seen);
                assert(next.last() == sv@[i as int]);
                assert forall|other: SV| other.spec_key() == s.spec_key() implies other == s by {
                    SV::lemma_key_is_injective(other, s);
                }
                assert(self@ =~= before.insert(s, delay));
                lemma_satellites_of_longer_list(next);
            }
            i += 1;
        }
        assert(sv@.take(sv.len() as int) =~= sv@);
    }

    /// Returns the delay that the table holds for `sv`, if it holds that satellite.
    pub fn get(&self, sv: SV) -> (delay: Option<i64>)
        ensures
            delay == (if self@.contains_key(sv) {
                Some(self@[sv])
            } else {
                None
            }),
    {
        let key = sv.key();
        match self.table.get(&key) {
            Some(delay) => Some(*delay),
            None => None,
        }
    }

    /// Returns the delay of `sv`, a satellite that the table was last rebuilt with.
    pub fn sum_up(&self, sv: SV) -> (delay: i64)
        requires
            self@.contains_key(sv),
        ensures
            delay == self@[sv],
    {
        let key = sv.key();
        match self.table.get(&key) {
            Some(delay) => *delay,
            None => 0,
        }
    }
}

} // verus!
