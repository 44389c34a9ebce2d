//! The environment: grid bounds, per-cell food occupancy, the egg list
//! and the frog population.
use vstd::prelude::*;

use crate::config::Config;
use crate::egg::Egg;
use crate::frog::Frog;
use crate::frog::cell_matches_group;
use crate::rng::gen_range_i64;

verus! {

/// How many cells of one grid column hold food.
pub open spec fn column_food(col: Seq<u8>) -> int
    decreases col.len(),
{
    if col.len() == 0 {
        0
    } else {
        column_food(col.drop_last()) + if col.last() != 0 { 1int } else { 0int }
    }
}

/// How many cells of the whole grid hold food.
pub open spec fn grid_food(grid: Seq<Seq<u8>>) -> int
    decreases grid.len(),
{
    if grid.len() == 0 {
        0
    } else {
        grid_food(grid.drop_last()) + column_food(grid.last())
    }
}

/// The bounded grid world: the egg list, the frog population, and the
/// food occupancy grid, indexed `foods[x][y]` with a nonzero entry
/// meaning one food unit.
pub struct Env {
    pub eggs: Vec<Egg>,
    pub frogs: Vec<Frog>,
    pub foods: Vec<Vec<u8>>,
    pub config: Config,
}

impl Env {
    /// The grid has exactly the configured dimensions and the
    /// configuration is within the library's bounds.
    pub open spec fn wf(self) -> bool {
        &&& self.config.wf()
        &&& self.foods@.len() == self.config.x_size
        &&& forall|i: int| 0 <= i < self.foods@.len()
            ==> (#[trigger] self.foods@[i])@.len() == self.config.y_size
    }

    /// Food is present at the in-bounds cell (x, y).
    pub open spec fn has_food(self, x: int, y: int) -> bool {
        &&& 0 <= x < self.config.x_size
        &&& 0 <= y < self.config.y_size
        &&& self.foods@[x]@[y] != 0
    }

    /// How many cells of the grid hold food.
    pub open spec fn food_count(self) -> int {
        grid_food(self.foods@.map_values(|c: Vec<u8>| c@))
    }

    /// True iff food is present at (x, y); false for any position
    /// outside the grid.
    pub fn exists_food(&self, x: i64, y: i64) -> (r: bool)
        requires
            self.wf(),
        ensures
            r == self.has_food(x as int, y as int),
    {
        if x < 0 || x >= self.config.x_size || y < 0 || y >= self.config.y_size {
            return false;
        }
        self.foods[x as usize][y as usize] != 0
    }

    /// Removes the food unit at (x, y). A no-op when none is present
    /// or the position is outside the grid; afterwards the cell holds
    /// no food and every other cell is as it was.
    pub fn consume_food(&mut self, x: i64, y: i64)
        requires
            old(self).wf(),
        ensures
            final(self).wf(),
            final(self).config == old(self).config,
            final(self).eggs == old(self).eggs,
            final(self).frogs == old(self).frogs,
            !final(self).has_food(x as int, y as int),
            forall|i: int, j: int| !(i == x as int && j == y as int)
                ==> final(self).has_food(i, j) == old(self).has_food(i, j),
            final(self).food_count() == old(self).food_count()
                - (if old(self).has_food(x as int, y as int) { 1int } else { 0int }),
    {
        if x < 0 || x >= self.config.x_size || y < 0 || y >= self.config.y_size {
            return;
        }
        let xu = x as usize;
        let yu = y as usize;
        let ghost g0 = self.foods@.map_values(|c: Vec<u8>| c@);
        self.foods[xu][yu] = 0;
        proof {
            let g1 = self.foods@.map_values(|c: Vec<u8>| c@);
            assert(g1 =~= g0.update(x as int, g0[x as int].update(y as int, 0u8)));
            lemma_column_food_clear(g0[x as int], y as int);
            lemma_grid_food_update(g0, x as int, g0[x as int].update(y as int, 0u8));
        }
    }
}

/// A frog as `rebuild_frog_and_food` leaves it: alive, at a position
/// within the spawn window around the grid center, with the configured
/// initial energy, zero counters, a copy of its egg, and one
/// materialized cell per genome.
pub open spec fn fresh_frog(f: Frog, egg: Egg, c: Config) -> bool {
    &&& f.alive
    &&& f.energy == c.frog_init_energy
    &&& f.eat_foods == 0
    &&& f.move_count == 0
    &&& f.brain_radius == egg.brain_radius
    &&& f.egg.brain_radius == egg.brain_radius
    &&& f.egg.cell_groups@ == egg.cell_groups@
    &&& f.cells@.len() == egg.cell_groups@.len()
    &&& forall|k: int| 0 <= k < f.cells@.len()
        ==> cell_matches_group(#[trigger] f.cells@[k], egg.cell_groups@[k])
    &&& c.x_size / 2 + 1 <= f.x <= c.x_size / 2 + 89
    &&& c.y_size / 2 + 1 <= f.y <= c.y_size / 2 + 89
}

impl Env {
    /// Builds an environment around the given eggs and immediately
    /// bootstraps its population and food.
    pub fn new(eggs: Vec<Egg>, config: Config, rng: &mut rand::rngs::StdRng) -> (env: Env)
        requires
            config.wf(),
            forall|k: int| 0 <= k < eggs@.len() ==> (#[trigger] eggs@[k]).wf(),
        ensures
            env.wf(),
            env.config == config,
            env.eggs == eggs,
            env.frogs@.len() == env.eggs@.len(),
            forall|k: int| 0 <= k < env.frogs@.len()
                ==> fresh_frog(#[trigger] env.frogs@[k], env.eggs@[k], config),
            env.food_count() <= config.food_qty,
            config.food_qty >= 1 ==> env.food_count() >= 1,
    {
        let frogs: Vec<Frog> = Vec::new();
        let foods: Vec<Vec<u8>> = Vec::new();
        let mut env = Env { eggs, frogs, foods, config };
        env.rebuild_frog_and_food(rng);
        env
    }

    /// Rebuilds the population and the food from scratch: one fresh
    /// frog per egg, placed within the spawn window around the grid
    /// center, and `food_qty` uniform food placements on a cleared
    /// grid — colliding placements collapse, so at most `food_qty`
    /// cells end up holding food.
    pub fn rebuild_frog_and_food(&mut self, rng: &mut rand::rngs::StdRng)
        requires
            old(self).config.wf(),
            forall|k: int| 0 <= k < old(self).eggs@.len()
                ==> (#[trigger] old(self).eggs@[k]).wf(),
        ensures
            final(self).wf(),
            final(self).config == old(self).config,
            final(self).eggs == old(self).eggs,
            final(self).frogs@.len() == final(self).eggs@.len(),
            forall|k: int| 0 <= k < final(self).frogs@.len()
                ==> fresh_frog(
                    #[trigger] final(self).frogs@[k],
                    final(self).eggs@[k],
                    final(self).config,
                ),
            final(self).food_count() <= old(self).config.food_qty,
            old(self).config.food_qty >= 1 ==> final(self).food_count() >= 1,
    {
        self.frogs.clear();
        let mut k: usize = 0;
        while k < self.eggs.len()
            invariant
                k <= self.eggs@.len(),
                self.frogs@.len() == k,
                self.config == old(self).config,
                self.eggs == old(self).eggs,
                self.foods == old(self).foods,
                forall|i: int| 0 <= i < k
                    ==> fresh_frog(#[trigger] self.frogs@[i], self.eggs@[i], self.config),
            decreases self.eggs@.len() - k,
        {
            let x = self.config.x_size / 2 + gen_range_i64(rng, 1, 90);
            let y = self.config.y_size / 2 + gen_range_i64(rng, 1, 90);
            let egg = self.eggs[k].clone();
            let frog = Frog::new(x, y, egg, &self.config, rng);
            self.frogs.push(frog);
            k = k + 1;
        }
        let xs = self.config.x_size as usize;
        let ys = self.config.y_size as usize;
        let mut foods: Vec<Vec<u8>> = Vec::new();
        while foods.len() < xs
            invariant
                foods@.len() <= xs,
                forall|i: int| 0 <= i < foods@.len() ==> {
                    &&& (#[trigger] foods@[i])@.len() == ys
                    &&& column_food(foods@[i]@) == 0
                },
            decreases xs - foods@.len(),
        {
            let col: Vec<u8> = vec![0u8; ys];
            proof {
                assert(forall|j: int| 0 <= j < col@.len() ==> col@[j] == 0u8);
                lemma_column_food_all_zero(col@);
            }
            foods.push(col);
        }
        proof {
            lemma_grid_food_zero_columns(foods@.map_values(|c: Vec<u8>| c@));
        }
        self.foods = foods;
        let mut t: usize = 0;
        while t < self.config.food_qty
            invariant
                t <= self.config.food_qty,
                self.config == old(self).config,
                self.eggs == old(self).eggs,
                self.frogs@.len() == self.eggs@.len(),
                forall|i: int| 0 <= i < self.frogs@.len()
                    ==> fresh_frog(#[trigger] self.frogs@[i], self.eggs@[i], self.config),
                self.wf(),
                grid_food(self.foods@.map_values(|c: Vec<u8>| c@)) <= t,
                t >= 1 ==> grid_food(self.foods@.map_values(|c: Vec<u8>| c@)) >= 1,
            decreases self.config.food_qty - t,
        {
            let fx = gen_range_i64(rng, 0, self.config.x_size);
            let fy = gen_range_i64(rng, 0, self.config.y_size);
            let ghost g0 = self.foods@.map_values(|c: Vec<u8>| c@);
            self.foods[fx as usize][fy as usize] = 1;
            proof {
                let g1 = self.foods@.map_values(|c: Vec<u8>| c@);
                assert(g1 =~= g0.update(fx as int, g0[fx as int].update(fy as int, 1u8)));
                lemma_column_food_set(g0[fx as int], fy as int);
                lemma_grid_food_update(g0, fx as int, g0[fx as int].update(fy as int, 1u8));
                lemma_column_food_positive(g0[fx as int].update(fy as int, 1u8), fy as int);
                lemma_grid_food_lower(g1, fx as int);
            }
            t = t + 1;
        }
    }

    /// Advances one round: regenerates the population and the food.
    pub fn run(&mut self, rng: &mut rand::rngs::StdRng)
        requires
            old(self).config.wf(),
            forall|k: int| 0 <= k < old(self).eggs@.len()
                ==> (#[trigger] old(self).eggs@[k]).wf(),
        ensures
            final(self).wf(),
            final(self).config == old(self).config,
            final(self).eggs == old(self).eggs,
            final(self).frogs@.len() == final(self).eggs@.len(),
            forall|k: int| 0 <= k < final(self).frogs@.len()
                ==> fresh_frog(
                    #[trigger] final(self).frogs@[k],
                    final(self).eggs@[k],
                    final(self).config,
                ),
            final(self).food_count() <= old(self).config.food_qty,
            old(self).config.food_qty >= 1 ==> final(self).food_count() >= 1,
    {
        self.rebuild_frog_and_food(rng);
    }
}

/// A column of zeroes holds no food.
proof fn lemma_column_food_all_zero(col: Seq<u8>)
    requires
        forall|j: int| 0 <= j < col.len() ==> col[j] == 0u8,
    ensures
        column_food(col) == 0,
    decreases col.len(),
{
    if col.len() > 0 {
        lemma_column_food_all_zero(col.drop_last());
    }
}

/// A grid whose columns all hold no food holds no food.
proof fn lemma_grid_food_zero_columns(grid: Seq<Seq<u8>>)
    requires
        forall|i: int| 0 <= i < grid.len() ==> column_food(#[trigger] grid[i]) == 0,
    ensures
        grid_food(grid) == 0,
    decreases grid.len(),
{
    if grid.len() > 0 {
        lemma_grid_food_zero_columns(grid.drop_last());
    }
}

/// A column's food count is never negative.
proof fn lemma_column_food_nonneg(col: Seq<u8>)
    ensures
        0 <= column_food(col),
    decreases col.len(),
{
    if col.len() > 0 {
        lemma_column_food_nonneg(col.drop_last());
    }
}

/// A grid's food count is never negative.
proof fn lemma_grid_food_nonneg(grid: Seq<Seq<u8>>)
    ensures
        0 <= grid_food(grid),
    decreases grid.len(),
{
    if grid.len() > 0 {
        lemma_grid_food_nonneg(grid.drop_last());
        lemma_column_food_nonneg(grid.last());
    }
}

/// The grid's food count is at least any one column's.
proof fn lemma_grid_food_lower(grid: Seq<Seq<u8>>, i: int)
    requires
        0 <= i < grid.len(),
    ensures
        grid_food(grid) >= column_food(grid[i]),
    decreases grid.len(),
{
    if i == grid.len() - 1 {
        lemma_grid_food_nonneg(grid.drop_last());
    } else {
        lemma_grid_food_lower(grid.drop_last(), i);
        lemma_column_food_nonneg(grid.last());
    }
}

/// A column with a nonzero cell holds at least one food unit.
proof fn lemma_column_food_positive(col: Seq<u8>, j: int)
    requires
        0 <= j < col.len(),
        col[j] != 0,
    ensures
        column_food(col) >= 1,
    decreases col.len(),
{
    if j == col.len() - 1 {
        lemma_column_food_nonneg(col.drop_last());
    } else {
        lemma_column_food_positive(col.drop_last(), j);
    }
}

/// Setting one cell of a column to food adds at most one to, and never
/// lowers, its food count.
proof fn lemma_column_food_set(col: Seq<u8>, j: int)
    requires
        0 <= j < col.len(),
    ensures
        column_food(col.update(j, 1u8)) <= column_food(col) + 1,
        column_food(col) <= column_food(col.update(j, 1u8)),
    decreases col.len(),
{
    let updated = col.update(j, 1u8);
    if j == col.len() - 1 {
        assert(updated.drop_last() =~= col.drop_last());
    } else {
        lemma_column_food_set(col.drop_last(), j);
        assert(updated.drop_last() =~= col.drop_last().update(j, 1u8));
    }
}

/// Clearing one cell of a column removes exactly its own contribution
/// from the column's food count.
proof fn lemma_column_food_clear(col: Seq<u8>, j: int)
    requires
        0 <= j < col.len(),
    ensures
        column_food(col.update(j, 0u8))
            == column_food(col) - (if col[j] != 0 { 1int } else { 0int }),
    decreases col.len(),
{
    let updated = col.update(j, 0u8);
    if j == col.len() - 1 {
        assert(updated.drop_last() =~= col.drop_last());
    } else {
        lemma_column_food_clear(col.drop_last(), j);
        assert(updated.drop_last() =~= col.drop_last().update(j, 0u8));
    }
}

/// Replacing one column changes the grid's food count by exactly the
/// difference of the column counts.
proof fn lemma_grid_food_update(grid: Seq<Seq<u8>>, i: int, col: Seq<u8>)
    requires
        0 <= i < grid.len(),
    ensures
        grid_food(grid.update(i, col))
            == grid_food(grid) - column_food(grid[i]) + column_food(col),
    decreases grid.len(),
{
    let updated = grid.update(i, col);
    if i == grid.len() - 1 {
        assert(updated.drop_last() =~= grid.drop_last());
    } else {
        lemma_grid_food_update(grid.drop_last(), i, col);
        assert(updated.drop_last() =~= grid.drop_last().update(i, col));
    }
}

} // verus!
