//! Eggs: an agent's inherited genome set, generated once per
//! population slot and cloned for each frog built from it.
use vstd::prelude::*;

use crate::config::Config;
use crate::frog::CellGroup;

verus! {

/// An egg: a global sensing radius and a sequence of genomes.
/// Immutable after creation.
#[derive(Debug)]
pub struct Egg {
    pub brain_radius: i64,
    pub cell_groups: Vec<CellGroup>,
}

impl Egg {
    /// Every genome the egg carries is within the generation ranges.
    pub open spec fn wf(self) -> bool {
        forall|k: int| 0 <= k < self.cell_groups@.len()
            ==> (#[trigger] self.cell_groups@[k]).wf()
    }

    /// Draws a fresh egg: `cell_group_qty` independently generated
    /// genomes and the configured brain radius.
    pub fn new(cfg: &Config, rng: &mut rand::rngs::StdRng) -> (egg: Egg)
        requires
            cfg.wf(),
        ensures
            egg.brain_radius == cfg.brain_radius,
            egg.cell_groups@.len() == cfg.cell_group_qty,
            egg.wf(),
    {
        let mut cell_groups: Vec<CellGroup> = Vec::new();
        let mut i: usize = 0;
        while i < cfg.cell_group_qty
            invariant
                i <= cfg.cell_group_qty,
                cell_groups@.len() == i,
                forall|k: int| 0 <= k < i ==> (#[trigger] cell_groups@[k]).wf(),
            decreases cfg.cell_group_qty - i,
        {
            cell_groups.push(CellGroup::new(cfg.brain_radius, cfg.instance_radius_bound, rng));
            i = i + 1;
        }
        Egg { brain_radius: cfg.brain_radius, cell_groups }
    }

    pub fn get_brain_radius(&self) -> (r: i64)
        ensures
            r == self.brain_radius,
    {
        self.brain_radius
    }

    pub fn get_cell_groups(&self) -> (r: &Vec<CellGroup>)
        ensures
            *r == self.cell_groups,
    {
        &self.cell_groups
    }
}

impl Clone for Egg {
    /// A deep copy: the clone carries the same brain radius and the
    /// same genome sequence.
    fn clone(&self) -> (r: Self)
        ensures
            r.brain_radius == self.brain_radius,
            r.cell_groups@ == self.cell_groups@,
    {
        let mut cell_groups: Vec<CellGroup> = Vec::new();
        let mut i: usize = 0;
        while i < self.cell_groups.len()
            invariant
                i <= self.cell_groups@.len(),
                cell_groups@.len() == i,
                forall|k: int| 0 <= k < i ==> cell_groups@[k] == self.cell_groups@[k],
            decreases self.cell_groups@.len() - i,
        {
            cell_groups.push(self.cell_groups[i]);
            i = i + 1;
        }
        proof {
            assert(cell_groups@ =~= self.cell_groups@);
        }
        Egg { brain_radius: self.brain_radius, cell_groups }
    }
}

/// Bootstraps a population's eggs: `egg_qty` independently drawn eggs.
pub fn load_eggs(cfg: &Config, rng: &mut rand::rngs::StdRng) -> (eggs: Vec<Egg>)
    requires
        cfg.wf(),
    ensures
        eggs@.len() == cfg.egg_qty,
        forall|k: int| 0 <= k < eggs@.len() ==> {
            &&& (#[trigger] eggs@[k]).wf()
            &&& eggs@[k].brain_radius == cfg.brain_radius
            &&& eggs@[k].cell_groups@.len() == cfg.cell_group_qty
        },
{
    let mut eggs: Vec<Egg> = Vec::new();
    let mut i: usize = 0;
    while i < cfg.egg_qty
        invariant
            i <= cfg.egg_qty,
            eggs@.len() == i,
            forall|k: int| 0 <= k < i ==> {
                &&& (#[trigger] eggs@[k]).wf()
                &&& eggs@[k].brain_radius == cfg.brain_radius
                &&& eggs@[k].cell_groups@.len() == cfg.cell_group_qty
            },
        decreases cfg.egg_qty - i,
    {
        eggs.push(Egg::new(cfg, rng));
        i = i + 1;
    }
    eggs
}

} // verus!
