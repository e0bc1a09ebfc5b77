use vstd::prelude::*;
use crate::model::{Record, ZoneConfig};

verus! {

/// One record to update, with the zone it belongs to.
pub struct Target {
    pub zone_id: String,
    pub zone_name: String,
    pub record_name: String,
    pub proxy: bool,
}

pub struct TargetView {
    pub zone_id: Seq<char>,
    pub zone_name: Seq<char>,
    pub record_name: Seq<char>,
    pub proxy: bool,
}

impl View for Target {
    type V = TargetView;

    open spec fn view(&self) -> TargetView {
        TargetView {
            zone_id: self.zone_id@,
            zone_name: self.zone_name@,
            record_name: self.record_name@,
            proxy: self.proxy,
        }
    }
}

/// The target for one record of a zone.
pub open spec fn target_of(z: ZoneConfig, r: Record) -> TargetView {
    TargetView { zone_id: z.zone_id@, zone_name: z.name@, record_name: r.name@, proxy: r.proxy }
}

/// The targets of a zone, in the order of its records.
pub open spec fn zone_targets(z: ZoneConfig) -> Seq<TargetView> {
    z.records@.map_values(|r: Record| target_of(z, r))
}

/// The targets of all zones: zone by zone, each in the order of its records.
pub open spec fn targets_of(zs: Seq<ZoneConfig>) -> Seq<TargetView>
    decreases zs.len(),
{
    if zs.len() == 0 {
        Seq::empty()
    } else {
        targets_of(zs.drop_last()) + zone_targets(zs.last())
    }
}

/// The targets of zones placed one after the other are those of the first
/// zones, then those of the others: no target of a later zone comes before one
/// of an earlier zone.
pub proof fn lemma_targets_of_concat(a: Seq<ZoneConfig>, b: Seq<ZoneConfig>)
    ensures
        targets_of(a + b) == targets_of(a) + targets_of(b),
    decreases b.len(),
{
    if b.len() == 0 {
        assert(a + b =~= a);
        assert(targets_of(a) + targets_of(b) =~= targets_of(a));
    } else {
        lemma_targets_of_concat(a, b.drop_last());
        assert((a + b).drop_last() =~= a + b.drop_last());
        assert((a + b).last() == b.last());
        assert(targets_of(a + b) =~= targets_of(a) + targets_of(b));
    }
}

/// The views of a list of targets.
pub open spec fn targets_view(ts: Seq<Target>) -> Seq<TargetView> {
    ts.map_values(|t: Target| t@)
}

/// The records of all zones in the order they are updated: zone by zone, and
/// within a zone in the order of its records.
pub fn plan_targets(zones: &Vec<ZoneConfig>) -> (r: Vec<Target>)
    ensures
        targets_view(r@) == targets_of(zones@),
{
    let mut out: Vec<Target> = Vec::new();
    let mut i: usize = 0;
    while i < zones.len()
        invariant
            i <= zones.len(),
            targets_view(out@) =~= targets_of(zones@.take(i as int)),
        decreases zones.len() - i,
    {
        let zone = &zones[i];
        let mut j: usize = 0;
        let ghost start = targets_view(out@);
        while j < zone.records.len()
            invariant
                i < zones.len(),
                *zone == zones@[i as int],
                j <= zone.records.len(),
                targets_view(out@) =~= start + zone_targets(*zone).take(j as int),
            decreases zone.records.len() - j,
        {
            let rec = &zone.records[j];
            let t = Target {
                zone_id: zone.zone_id.clone(),
                zone_name: zone.name.clone(),
                record_name: rec.name.clone(),
                proxy: rec.proxy,
            };
            let ghost before = out@;
            out.push(t);
            assert(out@ =~= before.push(t));
            assert(targets_view(out@) =~= targets_view(before).push(t@));
            assert(zone_targets(*zone).take(j as int + 1) =~= zone_targets(*zone).take(
                j as int,
            ).push(t@));
            j = j + 1;
        }
        assert(zone_targets(*zone).take(j as int) =~= zone_targets(*zone));
        assert(zones@.take(i as int + 1).drop_last() =~= zones@.take(i as int));
        i = i + 1;
    }
    assert(zones@.take(i as int) =~= zones@);
    out
}

} // verus!
