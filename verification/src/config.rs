//! The simulation's configuration: grid bounds, population and food
//! quantities, energy constants, generation bounds, and the five fixed
//! motor zones — an explicit value passed to constructors instead of
//! ambient constants, so tests can vary each knob independently.
use vstd::prelude::*;

use crate::zone::COORD_LIMIT;
use crate::zone::Zone;

verus! {

/// Grid side lengths stay within this bound, so moves and spawn
/// arithmetic on coordinates cannot overflow an i64.
pub const GRID_LIMIT: i64 = 1_000_000;

#[derive(Clone, Copy, Debug)]
pub struct Config {
    /// How many eggs a population bootstrap creates.
    pub egg_qty: usize,
    /// How many food placements each rebuild draws.
    pub food_qty: usize,
    /// Grid width: valid horizontal coordinates are 0 .. x_size.
    pub x_size: i64,
    /// Grid height: valid vertical coordinates are 0 .. y_size.
    pub y_size: i64,
    /// How many steps a driver runs per round.
    pub steps_per_round: usize,
    /// The energy a freshly built frog starts with.
    pub frog_init_energy: i64,
    /// The bound of the uniform draws that place a genome's regions.
    pub brain_radius: i64,
    /// The bound of the uniform draws of a genome's instance radii.
    pub instance_radius_bound: i64,
    /// How many genomes each egg carries.
    pub cell_group_qty: usize,
    /// The energy one food unit grants.
    pub food_energy: i64,
    /// Motor zone that fires an upward move.
    pub zone_move_up: Zone,
    /// Motor zone that fires a downward move.
    pub zone_move_down: Zone,
    /// Motor zone that fires a leftward move.
    pub zone_move_left: Zone,
    /// Motor zone that fires a rightward move.
    pub zone_move_right: Zone,
    /// Motor zone that fires a move in a uniformly drawn direction.
    pub zone_move_random: Zone,
}

impl Config {
    /// The bounds every function of the library expects of its
    /// configuration.
    pub open spec fn wf(self) -> bool {
        &&& 1 <= self.x_size <= GRID_LIMIT
        &&& 1 <= self.y_size <= GRID_LIMIT
        &&& 0 <= self.food_energy
        &&& 0 <= self.frog_init_energy
        &&& 1 <= self.brain_radius <= COORD_LIMIT
        &&& 1 <= self.instance_radius_bound <= COORD_LIMIT
    }

    /// The standard configuration: a 300 by 300 grid, 80 eggs of 300
    /// genomes each, 2000 food placements, and the five motor zones on
    /// the column x = 500.
    pub fn standard() -> (c: Config)
        ensures
            c == standard_config(),
            c.wf(),
    {
        Config {
            egg_qty: 80,
            food_qty: 2000,
            x_size: 300,
            y_size: 300,
            steps_per_round: 3000,
            frog_init_energy: 1000,
            brain_radius: 1000,
            instance_radius_bound: 1,
            cell_group_qty: 300,
            food_energy: 1000,
            zone_move_up: Zone { x: 500, y: 50, radius: 10 },
            zone_move_down: Zone { x: 500, y: 100, radius: 10 },
            zone_move_left: Zone { x: 500, y: 150, radius: 10 },
            zone_move_right: Zone { x: 500, y: 200, radius: 10 },
            zone_move_random: Zone { x: 500, y: 300, radius: 10 },
        }
    }
}

/// The standard configuration as a spec value.
pub open spec fn standard_config() -> Config {
    Config {
        egg_qty: 80,
        food_qty: 2000,
        x_size: 300,
        y_size: 300,
        steps_per_round: 3000,
        frog_init_energy: 1000,
        brain_radius: 1000,
        instance_radius_bound: 1,
        cell_group_qty: 300,
        food_energy: 1000,
        zone_move_up: Zone { x: 500, y: 50, radius: 10 },
        zone_move_down: Zone { x: 500, y: 100, radius: 10 },
        zone_move_left: Zone { x: 500, y: 150, radius: 10 },
        zone_move_right: Zone { x: 500, y: 200, radius: 10 },
        zone_move_random: Zone { x: 500, y: 300, radius: 10 },
    }
}

/// A grid position is inside the bounds of the configuration's grid.
pub open spec fn in_bounds(x: int, y: int, c: Config) -> bool {
    &&& 0 <= x < c.x_size
    &&& 0 <= y < c.y_size
}

} // verus!
