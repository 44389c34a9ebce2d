//! The agents: genomes, the apparatus materialized from them, and the
//! frog with its per-step action resolution.
use vstd::prelude::*;

use crate::config::Config;
use crate::config::in_bounds;
use crate::egg::Egg;
use crate::env::Env;
use crate::rng::gen_range_i64;
use crate::zone::COORD_LIMIT;
use crate::zone::Zone;
use crate::zone::near;
use crate::zone::drawn_within;
use vstd::arithmetic::mul::lemma_mul_inequality;

verus! {

/// The energy every freshly materialized sensor or effector disc
/// starts with.
pub const ZONE_ENERGY: i64 = 1000;

/// A genome: the compact, randomly drawn description of one functional
/// cluster of sensors and effectors, generated once at egg-construction
/// time and never mutated afterward.
#[derive(Clone, Copy, Debug)]
pub struct CellGroup {
    /// The region whose horizontal band places the sensors.
    pub group_input_zone: Zone,
    /// The region whose horizontal band places the effectors.
    pub group_output_zone: Zone,
    /// The radius every materialized sensor disc gets.
    pub cell_input_radius: i64,
    /// A declared cell quantity; reserved, not read by
    /// materialization, which builds one cell per genome.
    pub cell_qty: i32,
    /// The radius every materialized effector disc gets.
    pub cell_output_radius: i64,
    /// How many sensor discs one cell materializes.
    pub input_qty_per_cell: i32,
    /// How many effector discs one cell materializes.
    pub output_qty_per_cell: i32,
}

impl CellGroup {
    /// The ranges generation establishes and materialization relies on.
    pub open spec fn wf(self) -> bool {
        &&& 0 <= self.group_input_zone.x <= COORD_LIMIT
        &&& 0 <= self.group_input_zone.y <= COORD_LIMIT
        &&& 0 <= self.group_input_zone.radius <= COORD_LIMIT
        &&& 0 <= self.group_output_zone.x <= COORD_LIMIT
        &&& 0 <= self.group_output_zone.y <= COORD_LIMIT
        &&& 0 <= self.group_output_zone.radius <= COORD_LIMIT
        &&& 0 <= self.cell_input_radius <= COORD_LIMIT
        &&& 0 <= self.cell_output_radius <= COORD_LIMIT
        &&& 1 <= self.cell_qty < 10
        &&& 1 <= self.input_qty_per_cell < 10
        &&& 1 <= self.output_qty_per_cell < 5
    }

    /// Draws a genome: two region zones with centers uniform in
    /// [0, brain_radius) and radii uniform in [0, brain_radius / 10),
    /// instance radii uniform in [0, instance_radius_bound), a cell
    /// quantity and a sensor quantity in [1, 10), and an effector
    /// quantity in [1, 5).
    pub fn new(brain_radius: i64, instance_radius_bound: i64, rng: &mut rand::rngs::StdRng) -> (g: CellGroup)
        requires
            1 <= brain_radius <= COORD_LIMIT,
            1 <= instance_radius_bound <= COORD_LIMIT,
        ensures
            g.wf(),
            drawn_within(g.group_input_zone, brain_radius as int),
            drawn_within(g.group_output_zone, brain_radius as int),
            0 <= g.cell_input_radius < instance_radius_bound,
            0 <= g.cell_output_radius < instance_radius_bound,
    {
        let group_input_zone = Zone::new(brain_radius, rng);
        let group_output_zone = Zone::new(brain_radius, rng);
        CellGroup {
            group_input_zone,
            group_output_zone,
            cell_input_radius: gen_range_i64(rng, 0, instance_radius_bound),
            cell_qty: gen_range_i64(rng, 1, 10) as i32,
            cell_output_radius: gen_range_i64(rng, 0, instance_radius_bound),
            input_qty_per_cell: gen_range_i64(rng, 1, 10) as i32,
            output_qty_per_cell: gen_range_i64(rng, 1, 5) as i32,
        }
    }
}

/// A materialized sensor disc.
#[derive(Clone, Copy, Debug)]
pub struct InputZone {
    pub x: i64,
    pub y: i64,
    pub radius: i64,
    pub energy: i64,
}

impl InputZone {
    pub fn new(x: i64, y: i64, radius: i64) -> (z: InputZone)
        ensures
            z == (InputZone { x, y, radius, energy: ZONE_ENERGY }),
    {
        InputZone { x, y, radius, energy: ZONE_ENERGY }
    }
}

/// A materialized effector disc.
#[derive(Clone, Copy, Debug)]
pub struct OutputZone {
    pub x: i64,
    pub y: i64,
    pub radius: i64,
    pub energy: i64,
}

impl OutputZone {
    pub fn new(x: i64, y: i64, radius: i64) -> (z: OutputZone)
        ensures
            z == (OutputZone { x, y, radius, energy: ZONE_ENERGY }),
    {
        OutputZone { x, y, radius, energy: ZONE_ENERGY }
    }
}

/// One materialized cell: the concrete sensor and effector discs built
/// from one genome.
pub struct Cell {
    pub inputs: Vec<InputZone>,
    pub outputs: Vec<OutputZone>,
}

/// A coordinate drawn from the half-open band [center - radius,
/// center + radius); the center itself when the radius is zero.
pub open spec fn jittered(v: int, center: int, radius: int) -> bool {
    &&& center - radius <= v
    &&& if radius > 0 {
        v < center + radius
    } else {
        v == center
    }
}

/// Where materialization may place a sensor disc of genome `g`: its
/// horizontal position within the input region's horizontal band, its
/// vertical position within the output region's horizontal band.
pub open spec fn input_placed(z: InputZone, g: CellGroup) -> bool {
    &&& z.radius == g.cell_input_radius
    &&& z.energy == ZONE_ENERGY
    &&& jittered(z.x as int, g.group_input_zone.x as int, g.group_input_zone.radius as int)
    &&& jittered(z.y as int, g.group_output_zone.x as int, g.group_output_zone.radius as int)
}

/// Where materialization may place an effector disc of genome `g`:
/// both coordinates within the output region's horizontal band.
pub open spec fn output_placed(z: OutputZone, g: CellGroup) -> bool {
    &&& z.radius == g.cell_output_radius
    &&& z.energy == ZONE_ENERGY
    &&& jittered(z.x as int, g.group_output_zone.x as int, g.group_output_zone.radius as int)
    &&& jittered(z.y as int, g.group_output_zone.x as int, g.group_output_zone.radius as int)
}

/// A cell is what materialization of genome `g` produces: exactly
/// `input_qty_per_cell` sensors and `output_qty_per_cell` effectors,
/// each placed as `input_placed` / `output_placed` say.
pub open spec fn cell_matches_group(c: Cell, g: CellGroup) -> bool {
    &&& c.inputs@.len() == g.input_qty_per_cell
    &&& c.outputs@.len() == g.output_qty_per_cell
    &&& forall|k: int| 0 <= k < c.inputs@.len() ==> input_placed(#[trigger] c.inputs@[k], g)
    &&& forall|k: int| 0 <= k < c.outputs@.len() ==> output_placed(#[trigger] c.outputs@[k], g)
}

/// A uniform draw from [center - radius, center + radius); the center
/// itself when the radius is zero.
fn jitter(center: i64, radius: i64, rng: &mut rand::rngs::StdRng) -> (r: i64)
    requires
        0 <= radius <= COORD_LIMIT,
        -COORD_LIMIT <= center <= COORD_LIMIT,
    ensures
        jittered(r as int, center as int, radius as int),
{
    if radius == 0 {
        center
    } else {
        center - radius + gen_range_i64(rng, 0, 2 * radius)
    }
}

impl Cell {
    /// Materializes one cell from a genome: `input_qty_per_cell` sensor
    /// discs and `output_qty_per_cell` effector discs. A sensor's
    /// horizontal position is jittered within the input region's
    /// horizontal band; every other produced coordinate — a sensor's
    /// vertical position and both coordinates of an effector — is
    /// jittered within the output region's horizontal band. Each disc
    /// gets the genome's instance radius and starting energy 1000.
    pub fn new(cell_group: &CellGroup, rng: &mut rand::rngs::StdRng) -> (c: Cell)
        requires
            cell_group.wf(),
        ensures
            cell_matches_group(c, *cell_group),
    {
        let mut inputs: Vec<InputZone> = Vec::new();
        let mut i: i32 = 0;
        while i < cell_group.input_qty_per_cell
            invariant
                0 <= i <= cell_group.input_qty_per_cell,
                inputs@.len() == i,
                forall|k: int| 0 <= k < i ==> input_placed(#[trigger] inputs@[k], *cell_group),
            decreases cell_group.input_qty_per_cell - i,
        {
            let x = jitter(cell_group.group_input_zone.x, cell_group.group_input_zone.radius, rng);
            let y = jitter(cell_group.group_output_zone.x, cell_group.group_output_zone.radius, rng);
            inputs.push(InputZone::new(x, y, cell_group.cell_input_radius));
            i = i + 1;
        }
        let mut outputs: Vec<OutputZone> = Vec::new();
        let mut j: i32 = 0;
        while j < cell_group.output_qty_per_cell
            invariant
                0 <= j <= cell_group.output_qty_per_cell,
                outputs@.len() == j,
                forall|k: int| 0 <= k < j ==> output_placed(#[trigger] outputs@[k], *cell_group),
            decreases cell_group.output_qty_per_cell - j,
        {
            let x = jitter(cell_group.group_output_zone.x, cell_group.group_output_zone.radius, rng);
            let y = jitter(cell_group.group_output_zone.x, cell_group.group_output_zone.radius, rng);
            outputs.push(OutputZone::new(x, y, cell_group.cell_output_radius));
            j = j + 1;
        }
        Cell { inputs, outputs }
    }
}

/// A situated agent: a position, an owned egg, the apparatus
/// materialized from it, energy, and liveness.
pub struct Frog {
    pub x: i64,
    pub y: i64,
    pub egg: Egg,
    pub cells: Vec<Cell>,
    pub energy: i64,
    pub alive: bool,
    pub move_count: i32,
    pub brain_radius: i64,
    pub eat_foods: i32,
}

impl Frog {
    /// Builds a frog at the given position from an egg: one cell is
    /// materialized per genome, energy starts at the configured
    /// initial value, and the frog is alive with zero counters.
    pub fn new(x: i64, y: i64, egg: Egg, cfg: &Config, rng: &mut rand::rngs::StdRng) -> (f: Frog)
        requires
            egg.wf(),
        ensures
            f.x == x,
            f.y == y,
            f.egg == egg,
            f.energy == cfg.frog_init_energy,
            f.alive,
            f.move_count == 0,
            f.eat_foods == 0,
            f.brain_radius == egg.brain_radius,
            f.cells@.len() == egg.cell_groups@.len(),
            forall|k: int| 0 <= k < f.cells@.len()
                ==> cell_matches_group(#[trigger] f.cells@[k], egg.cell_groups@[k]),
    {
        let mut cells: Vec<Cell> = Vec::new();
        let mut i: usize = 0;
        while i < egg.cell_groups.len()
            invariant
                i <= egg.cell_groups@.len(),
                cells@.len() == i,
                forall|k: int| 0 <= k < i
                    ==> cell_matches_group(#[trigger] cells@[k], egg.cell_groups@[k]),
            decreases egg.cell_groups@.len() - i,
        {
            let cell = Cell::new(&egg.cell_groups[i], rng);
            cells.push(cell);
            i = i + 1;
        }
        let brain_radius = egg.get_brain_radius();
        Frog {
            x,
            y,
            egg,
            cells,
            energy: cfg.frog_init_energy,
            alive: true,
            move_count: 0,
            brain_radius,
            eat_foods: 0,
        }
    }
}

/// The movement an effector fires, or none.
#[derive(Clone, Copy, Debug)]
pub enum Action {
    Up,
    Down,
    Left,
    Right,
    Random,
    Stay,
}

/// The effector falls within proximity of the motor zone.
pub open spec fn motor_match(z: Zone, out: OutputZone) -> bool {
    near(z.x as int, z.y as int, z.radius as int, out.x as int, out.y as int, out.radius as int)
}

/// The per-effector decision: the first motor zone, in the fixed
/// priority order up, down, left, right, random, whose proximity test
/// the effector passes.
pub open spec fn spec_choose_action(cfg: Config, out: OutputZone) -> Action {
    if motor_match(cfg.zone_move_up, out) {
        Action::Up
    } else if motor_match(cfg.zone_move_down, out) {
        Action::Down
    } else if motor_match(cfg.zone_move_left, out) {
        Action::Left
    } else if motor_match(cfg.zone_move_right, out) {
        Action::Right
    } else if motor_match(cfg.zone_move_random, out) {
        Action::Random
    } else {
        Action::Stay
    }
}

/// Resolves one effector against the five motor zones in priority
/// order.
pub fn choose_action(cfg: &Config, out: &OutputZone) -> (a: Action)
    ensures
        a == spec_choose_action(*cfg, *out),
{
    if cfg.zone_move_up.nearby_output(out) {
        Action::Up
    } else if cfg.zone_move_down.nearby_output(out) {
        Action::Down
    } else if cfg.zone_move_left.nearby_output(out) {
        Action::Left
    } else if cfg.zone_move_right.nearby_output(out) {
        Action::Right
    } else if cfg.zone_move_random.nearby_output(out) {
        Action::Random
    } else {
        Action::Stay
    }
}

/// What a step never touches: the frog's apparatus and identity
/// fields, and everything of the environment but the food grid's
/// contents (whose dimensions are kept).
pub open spec fn step_frame(f0: Frog, f1: Frog, e0: Env, e1: Env) -> bool {
    &&& f1.egg == f0.egg
    &&& f1.cells == f0.cells
    &&& f1.brain_radius == f0.brain_radius
    &&& f1.move_count == f0.move_count
    &&& e1.config == e0.config
    &&& e1.eggs == e0.eggs
    &&& e1.frogs == e0.frogs
    &&& e1.foods@.len() == e0.foods@.len()
    &&& forall|i: int| 0 <= i < e0.foods@.len()
        ==> (#[trigger] e1.foods@[i])@.len() == e0.foods@[i]@.len()
}

/// What eating at the cell (x, y) does: with food present, energy
/// rises by exactly the configured food energy, the eaten-food counter
/// by exactly one, and that cell alone loses its food; with no food
/// present, nothing changes.
pub open spec fn eat_effect(f0: Frog, f1: Frog, e0: Env, e1: Env, x: int, y: int) -> bool {
    if e0.has_food(x, y) {
        &&& f1.energy == f0.energy + e0.config.food_energy
        &&& f1.eat_foods == f0.eat_foods + 1
        &&& !e1.has_food(x, y)
        &&& forall|i: int, j: int| !(i == x && j == y)
            ==> e1.has_food(i, j) == e0.has_food(i, j)
        &&& e1.food_count() == e0.food_count() - 1
    } else {
        &&& f1.energy == f0.energy
        &&& f1.eat_foods == f0.eat_foods
        &&& e1.foods == e0.foods
    }
}

/// One directional move by (dx, dy): the position always changes; a
/// move that leaves the grid kills the frog and touches nothing else,
/// a move that stays inside keeps the frog alive and eats whatever
/// food the target cell holds.
pub open spec fn move_post(f0: Frog, f1: Frog, e0: Env, e1: Env, dx: int, dy: int) -> bool {
    &&& f1.x == f0.x + dx
    &&& f1.y == f0.y + dy
    &&& if in_bounds(f0.x + dx, f0.y + dy, e0.config) {
        &&& f1.alive == f0.alive
        &&& eat_effect(f0, f1, e0, e1, f0.x + dx, f0.y + dy)
    } else {
        &&& !f1.alive
        &&& f1.energy == f0.energy
        &&& f1.eat_foods == f0.eat_foods
        &&& e1.foods == e0.foods
    }
}

/// A movement that crosses the grid boundary kills the frog: it ends
/// dead, its energy and eaten-food counter untouched and the food grid
/// as it was. (A dead frog then takes no further actions: `active` on
/// a dead frog changes nothing and reports false.)
pub proof fn lemma_boundary_crossing_kills(
    f0: Frog, f1: Frog, e0: Env, e1: Env, dx: int, dy: int,
)
    requires
        move_post(f0, f1, e0, e1, dx, dy),
        !in_bounds(f0.x + dx, f0.y + dy, e0.config),
    ensures
        !f1.alive,
        f1.energy == f0.energy,
        f1.eat_foods == f0.eat_foods,
        e1.foods == e0.foods,
{
}

/// Eating food at a cell raises the frog's energy by exactly the
/// configured food energy and its eaten-food counter by exactly one,
/// and leaves the cell empty.
pub proof fn lemma_energy_accounting(f0: Frog, f1: Frog, e0: Env, e1: Env, x: int, y: int)
    requires
        e0.has_food(x, y),
        eat_effect(f0, f1, e0, e1, x, y),
    ensures
        f1.energy == f0.energy + e0.config.food_energy,
        f1.eat_foods == f0.eat_foods + 1,
        !e1.has_food(x, y),
{
}

/// Food is consumed at most once: after one frog eats the food at a
/// cell, the cell holds none, and a second frog eating at the same
/// cell in the same round gains no energy and no count.
pub proof fn lemma_food_eaten_at_most_once(
    f0: Frog, f1: Frog, f2: Frog, f3: Frog, e0: Env, e1: Env, e2: Env, x: int, y: int,
)
    requires
        e0.has_food(x, y),
        eat_effect(f0, f1, e0, e1, x, y),
        eat_effect(f2, f3, e1, e2, x, y),
    ensures
        !e1.has_food(x, y),
        f3.energy == f2.energy,
        f3.eat_foods == f2.eat_foods,
        e2.foods == e1.foods,
{
}

/// How many effector discs a frog's cells hold in all.
pub open spec fn num_outputs(cells: Seq<Cell>) -> int
    decreases cells.len(),
{
    if cells.len() == 0 {
        0
    } else {
        num_outputs(cells.drop_last()) + cells.last().outputs@.len()
    }
}

/// No effector of the frog falls within proximity of any motor zone.
pub open spec fn no_motor_match(f: Frog, c: Config) -> bool {
    forall|ci: int, oi: int|
        0 <= ci < f.cells@.len() && 0 <= oi < f.cells@[ci].outputs@.len()
            ==> spec_choose_action(c, #[trigger] f.cells@[ci].outputs@[oi]) == Action::Stay
}

/// All effector discs of the cells, in the order the step examines
/// them: cell by cell, each cell's effectors in order.
pub open spec fn effectors(cells: Seq<Cell>) -> Seq<OutputZone>
    decreases cells.len(),
{
    if cells.len() == 0 {
        Seq::empty()
    } else {
        cells.first().outputs@ + effectors(cells.drop_first())
    }
}

/// How one effector advances the step: a dead frog stays put; an
/// effector in no motor zone changes nothing; an effector in a motor
/// zone fires that zone's movement — for the random zone, one of the
/// four.
pub open spec fn effector_step(f0: Frog, f1: Frog, e0: Env, e1: Env, out: OutputZone) -> bool {
    if !f0.alive {
        f1 == f0 && e1 == e0
    } else {
        match spec_choose_action(e0.config, out) {
            Action::Up => step_frame(f0, f1, e0, e1) && move_post(f0, f1, e0, e1, 0, 1),
            Action::Down => step_frame(f0, f1, e0, e1) && move_post(f0, f1, e0, e1, 0, -1),
            Action::Left => step_frame(f0, f1, e0, e1) && move_post(f0, f1, e0, e1, -1, 0),
            Action::Right => step_frame(f0, f1, e0, e1) && move_post(f0, f1, e0, e1, 1, 0),
            Action::Random => step_frame(f0, f1, e0, e1) && (
                move_post(f0, f1, e0, e1, -1, 0)
                || move_post(f0, f1, e0, e1, 1, 0)
                || move_post(f0, f1, e0, e1, 0, 1)
                || move_post(f0, f1, e0, e1, 0, -1)
            ),
            Action::Stay => f1 == f0 && e1 == e0,
        }
    }
}

/// The step's action resolution: the effectors, taken in order, chain
/// the starting state to the final one, each advancing by
/// `effector_step` through some intermediate state.
pub open spec fn resolves_outputs(
    f0: Frog, f1: Frog, e0: Env, e1: Env, outs: Seq<OutputZone>,
) -> bool
    decreases outs.len(),
{
    if outs.len() == 0 {
        f1 == f0 && e1 == e0
    } else {
        exists|fm: Frog, em: Env| {
            &&& #[trigger] effector_step(f0, fm, e0, em, outs.first())
            &&& resolves_outputs(fm, f1, em, e1, outs.drop_first())
        }
    }
}

proof fn lemma_resolves_snoc(
    f0: Frog, f1: Frog, f2: Frog, e0: Env, e1: Env, e2: Env, s: Seq<OutputZone>, out: OutputZone,
)
    requires
        resolves_outputs(f0, f1, e0, e1, s),
        effector_step(f1, f2, e1, e2, out),
    ensures
        resolves_outputs(f0, f2, e0, e2, s.push(out)),
    decreases s.len(),
{
    if s.len() == 0 {
        assert(s.push(out).first() == out);
        assert(s.push(out).drop_first() =~= Seq::<OutputZone>::empty());
        assert(effector_step(f0, f2, e0, e2, out));
        assert(resolves_outputs(f2, f2, e2, e2, s.push(out).drop_first()));
    } else {
        let (fm, em) = choose|fm: Frog, em: Env| {
            &&& #[trigger] effector_step(f0, fm, e0, em, s.first())
            &&& resolves_outputs(fm, f1, em, e1, s.drop_first())
        };
        lemma_resolves_snoc(fm, f1, f2, em, e1, e2, s.drop_first(), out);
        assert(s.push(out).first() == s.first());
        assert(s.push(out).drop_first() =~= s.drop_first().push(out));
        assert(effector_step(f0, fm, e0, em, s.push(out).first()));
    }
}

proof fn lemma_resolves_dead_extend(
    f0: Frog, f1: Frog, e0: Env, e1: Env, s: Seq<OutputZone>, t: Seq<OutputZone>,
)
    requires
        resolves_outputs(f0, f1, e0, e1, s),
        !f1.alive,
    ensures
        resolves_outputs(f0, f1, e0, e1, s + t),
    decreases t.len(),
{
    if t.len() == 0 {
        assert(s + t =~= s);
    } else {
        lemma_resolves_dead_extend(f0, f1, e0, e1, s, t.drop_last());
        assert(effector_step(f1, f1, e1, e1, t.last()));
        lemma_resolves_snoc(f0, f1, f1, e0, e1, e1, s + t.drop_last(), t.last());
        assert((s + t.drop_last()).push(t.last()) =~= s + t);
    }
}

proof fn lemma_effectors_skip_step(cells: Seq<Cell>, c: int)
    requires
        0 <= c < cells.len(),
    ensures
        effectors(cells.skip(c)) == cells[c].outputs@ + effectors(cells.skip(c + 1)),
{
    assert(cells.skip(c).first() == cells[c]);
    assert(cells.skip(c).drop_first() =~= cells.skip(c + 1));
}

/// Death is terminal within a step: a resolution chain that starts
/// with a dead frog changes nothing — the frog never moves, eats, or
/// revives.
pub proof fn lemma_dead_frog_resolves(
    f0: Frog, f1: Frog, e0: Env, e1: Env, outs: Seq<OutputZone>,
)
    requires
        !f0.alive,
        resolves_outputs(f0, f1, e0, e1, outs),
    ensures
        f1 == f0,
        e1 == e0,
    decreases outs.len(),
{
    if outs.len() > 0 {
        let (fm, em) = choose|fm: Frog, em: Env| {
            &&& #[trigger] effector_step(f0, fm, e0, em, outs.first())
            &&& resolves_outputs(fm, f1, em, e1, outs.drop_first())
        };
        lemma_dead_frog_resolves(f0, f1, e0, e1, outs.drop_first());
    }
}

/// A lone effector resolves in exactly one `effector_step`: the motor
/// zone it falls in (chosen in priority order) fires its movement and
/// nothing more happens.
pub proof fn lemma_single_effector_fires(
    f0: Frog, f1: Frog, e0: Env, e1: Env, out: OutputZone,
)
    requires
        resolves_outputs(f0, f1, e0, e1, seq![out]),
    ensures
        effector_step(f0, f1, e0, e1, out),
{
    let (fm, em) = choose|fm: Frog, em: Env| {
        &&& #[trigger] effector_step(f0, fm, e0, em, seq![out].first())
        &&& resolves_outputs(fm, f1, em, e1, seq![out].drop_first())
    };
    assert(seq![out].drop_first().len() == 0);
    assert(seq![out].first() == out);
}

/// A live frog whose effector fires a movement whose target cell lies
/// outside the grid is dead once that effector resolves: its energy
/// and eaten-food counter are untouched and the food grid is as it
/// was. (Every later effector of the step, and every later step, then
/// changes nothing: see `lemma_dead_frog_resolves`.)
pub proof fn lemma_crossing_fire_kills(f0: Frog, f1: Frog, e0: Env, e1: Env, out: OutputZone)
    requires
        f0.alive,
        effector_step(f0, f1, e0, e1, out),
        (spec_choose_action(e0.config, out) == Action::Up
            && !in_bounds(f0.x as int, f0.y as int + 1, e0.config))
        || (spec_choose_action(e0.config, out) == Action::Down
            && !in_bounds(f0.x as int, f0.y as int - 1, e0.config))
        || (spec_choose_action(e0.config, out) == Action::Left
            && !in_bounds(f0.x as int - 1, f0.y as int, e0.config))
        || (spec_choose_action(e0.config, out) == Action::Right
            && !in_bounds(f0.x as int + 1, f0.y as int, e0.config)),
    ensures
        !f1.alive,
        f1.energy == f0.energy,
        f1.eat_foods == f0.eat_foods,
        e1.foods == e0.foods,
{
}

/// The magnitude of an integer.
pub open spec fn abs_of(v: int) -> int {
    if v < 0 {
        -v
    } else {
        v
    }
}

/// Each effector fires at most one movement, so a resolution chain
/// displaces the frog by at most one cell per effector.
pub proof fn lemma_resolves_displacement(
    f0: Frog, f1: Frog, e0: Env, e1: Env, outs: Seq<OutputZone>,
)
    requires
        resolves_outputs(f0, f1, e0, e1, outs),
    ensures
        abs_of(f1.x - f0.x) + abs_of(f1.y - f0.y) <= outs.len(),
    decreases outs.len(),
{
    if outs.len() > 0 {
        let (fm, em) = choose|fm: Frog, em: Env| {
            &&& #[trigger] effector_step(f0, fm, e0, em, outs.first())
            &&& resolves_outputs(fm, f1, em, e1, outs.drop_first())
        };
        lemma_resolves_displacement(fm, f1, em, e1, outs.drop_first());
    }
}

proof fn lemma_num_outputs_take_step(cells: Seq<Cell>, c: int)
    requires
        0 <= c < cells.len(),
    ensures
        num_outputs(cells.take(c + 1)) == num_outputs(cells.take(c)) + cells[c].outputs@.len(),
{
    assert(cells.take(c + 1).drop_last() =~= cells.take(c));
    assert(cells.take(c + 1).last() == cells[c]);
}

proof fn lemma_num_outputs_take_le(cells: Seq<Cell>, c: int)
    requires
        0 <= c <= cells.len(),
    ensures
        num_outputs(cells.take(c)) <= num_outputs(cells),
    decreases cells.len() - c,
{
    if c == cells.len() {
        assert(cells.take(c) =~= cells);
    } else {
        lemma_num_outputs_take_step(cells, c);
        lemma_num_outputs_take_le(cells, c + 1);
    }
}

impl Frog {
    /// Queries the environment for food at the frog's position and, if
    /// some is present, consumes it: energy rises by exactly the
    /// configured food energy and the eaten-food counter by one.
    fn check_food_and_eat(&mut self, env: &mut Env)
        requires
            old(env).wf(),
            old(self).energy + old(env).config.food_energy <= i64::MAX,
            old(self).eat_foods < i32::MAX,
        ensures
            step_frame(*old(self), *final(self), *old(env), *final(env)),
            final(env).wf(),
            final(self).x == old(self).x,
            final(self).y == old(self).y,
            final(self).alive == old(self).alive,
            eat_effect(
                *old(self), *final(self), *old(env), *final(env),
                old(self).x as int, old(self).y as int,
            ),
    {
        if env.exists_food(self.x, self.y) {
            env.consume_food(self.x, self.y);
            self.energy = self.energy + env.config.food_energy;
            self.eat_foods = self.eat_foods + 1;
        }
    }

    /// Moves one cell upward; leaving the grid kills the frog, staying
    /// inside eats whatever food the new cell holds.
    fn move_up(&mut self, env: &mut Env)
        requires
            old(env).wf(),
            old(self).alive,
            in_bounds(old(self).x as int, old(self).y as int, old(env).config),
            old(self).energy + old(env).config.food_energy <= i64::MAX,
            old(self).eat_foods < i32::MAX,
        ensures
            step_frame(*old(self), *final(self), *old(env), *final(env)),
            final(env).wf(),
            move_post(*old(self), *final(self), *old(env), *final(env), 0, 1),
    {
        self.y = self.y + 1;
        if self.y >= env.config.y_size {
            self.alive = false;
            return;
        }
        self.check_food_and_eat(env)
    }

    /// Moves one cell downward; leaving the grid kills the frog,
    /// staying inside eats whatever food the new cell holds.
    fn move_down(&mut self, env: &mut Env)
        requires
            old(env).wf(),
            old(self).alive,
            in_bounds(old(self).x as int, old(self).y as int, old(env).config),
            old(self).energy + old(env).config.food_energy <= i64::MAX,
            old(self).eat_foods < i32::MAX,
        ensures
            step_frame(*old(self), *final(self), *old(env), *final(env)),
            final(env).wf(),
            move_post(*old(self), *final(self), *old(env), *final(env), 0, -1),
    {
        self.y = self.y - 1;
        if self.y < 0 {
            self.alive = false;
            return;
        }
        self.check_food_and_eat(env)
    }

    /// Moves one cell leftward; leaving the grid kills the frog,
    /// staying inside eats whatever food the new cell holds.
    fn move_left(&mut self, env: &mut Env)
        requires
            old(env).wf(),
            old(self).alive,
            in_bounds(old(self).x as int, old(self).y as int, old(env).config),
            old(self).energy + old(env).config.food_energy <= i64::MAX,
            old(self).eat_foods < i32::MAX,
        ensures
            step_frame(*old(self), *final(self), *old(env), *final(env)),
            final(env).wf(),
            move_post(*old(self), *final(self), *old(env), *final(env), -1, 0),
    {
        self.x = self.x - 1;
        if self.x < 0 {
            self.alive = false;
            return;
        }
        self.check_food_and_eat(env)
    }

    /// Moves one cell rightward; leaving the grid kills the frog,
    /// staying inside eats whatever food the new cell holds.
    fn move_right(&mut self, env: &mut Env)
        requires
            old(env).wf(),
            old(self).alive,
            in_bounds(old(self).x as int, old(self).y as int, old(env).config),
            old(self).energy + old(env).config.food_energy <= i64::MAX,
            old(self).eat_foods < i32::MAX,
        ensures
            step_frame(*old(self), *final(self), *old(env), *final(env)),
            final(env).wf(),
            move_post(*old(self), *final(self), *old(env), *final(env), 1, 0),
    {
        self.x = self.x + 1;
        if self.x >= env.config.x_size {
            self.alive = false;
            return;
        }
        self.check_food_and_eat(env)
    }

    /// Draws one of the four directions uniformly and moves that way.
    fn move_random(&mut self, env: &mut Env, rng: &mut rand::rngs::StdRng)
        requires
            old(env).wf(),
            old(self).alive,
            in_bounds(old(self).x as int, old(self).y as int, old(env).config),
            old(self).energy + old(env).config.food_energy <= i64::MAX,
            old(self).eat_foods < i32::MAX,
        ensures
            step_frame(*old(self), *final(self), *old(env), *final(env)),
            final(env).wf(),
            move_post(*old(self), *final(self), *old(env), *final(env), -1, 0)
                || move_post(*old(self), *final(self), *old(env), *final(env), 1, 0)
                || move_post(*old(self), *final(self), *old(env), *final(env), 0, 1)
                || move_post(*old(self), *final(self), *old(env), *final(env), 0, -1),
    {
        let value = gen_range_i64(rng, 0, 4);
        if value == 0 {
            self.move_left(env);
        } else if value == 1 {
            self.move_right(env);
        } else if value == 2 {
            self.move_up(env);
        } else {
            self.move_down(env);
        }
    }

    /// Resolves one simulation step. A dead frog does nothing and
    /// returns false. A frog outside the grid dies and returns false.
    /// Otherwise every effector of every cell is matched against the
    /// motor zones in priority order, each match fires its movement —
    /// stopping for good the moment a movement leaves the grid — and
    /// the step returns true; afterwards the frog is alive exactly if
    /// its position is inside the grid, its energy has risen by
    /// exactly the configured food energy per food unit eaten, and no
    /// food has appeared anywhere.
    #[verifier::rlimit(50)]
    pub fn active(&mut self, env: &mut Env, rng: &mut rand::rngs::StdRng) -> (r: bool)
        requires
            old(env).wf(),
            old(self).alive
                ==> old(self).energy + num_outputs(old(self).cells@) * old(env).config.food_energy
                    <= i64::MAX,
            old(self).alive
                ==> old(self).eat_foods + num_outputs(old(self).cells@) <= i32::MAX,
        ensures
            step_frame(*old(self), *final(self), *old(env), *final(env)),
            final(env).wf(),
            !old(self).alive
                ==> !r && *final(self) == *old(self) && *final(env) == *old(env),
            old(self).alive
                && !in_bounds(old(self).x as int, old(self).y as int, old(env).config)
                ==> !r && *final(env) == *old(env)
                    && *final(self) == (Frog { alive: false, ..*old(self) }),
            old(self).alive
                && in_bounds(old(self).x as int, old(self).y as int, old(env).config)
                ==> r,
            r ==> old(self).eat_foods <= final(self).eat_foods,
            r ==> final(self).eat_foods - old(self).eat_foods <= num_outputs(old(self).cells@),
            r ==> final(self).energy == old(self).energy
                + (final(self).eat_foods - old(self).eat_foods) * old(env).config.food_energy,
            r ==> final(env).food_count() == old(env).food_count()
                - (final(self).eat_foods - old(self).eat_foods),
            r ==> (final(self).alive
                <==> in_bounds(final(self).x as int, final(self).y as int, old(env).config)),
            r && no_motor_match(*old(self), old(env).config)
                ==> *final(self) == *old(self) && *final(env) == *old(env),
            r ==> resolves_outputs(
                *old(self), *final(self), *old(env), *final(env), effectors(old(self).cells@),
            ),
            forall|i: int, j: int| final(env).has_food(i, j) ==> old(env).has_food(i, j),
    {
        if !self.alive {
            return false;
        }
        if self.x < 0 || self.x >= env.config.x_size || self.y < 0 || self.y >= env.config.y_size {
            self.alive = false;
            return false;
        }
        let ghost mut done: Seq<OutputZone> = Seq::empty();
        proof {
            assert(self.cells@.skip(0) =~= self.cells@);
            assert(done + effectors(self.cells@.skip(0)) =~= effectors(self.cells@));
        }
        let mut c: usize = 0;
        while c < self.cells.len() && self.alive
            invariant
                0 <= c <= self.cells@.len(),
                step_frame(*old(self), *self, *old(env), *env),
                env.wf(),
                self.alive ==> in_bounds(self.x as int, self.y as int, old(env).config),
                !self.alive ==> !in_bounds(self.x as int, self.y as int, old(env).config),
                old(self).eat_foods <= self.eat_foods,
                self.eat_foods - old(self).eat_foods <= num_outputs(self.cells@.take(c as int)),
                self.energy == old(self).energy
                    + (self.eat_foods - old(self).eat_foods) * old(env).config.food_energy,
                env.food_count() == old(env).food_count()
                    - (self.eat_foods - old(self).eat_foods),
                no_motor_match(*old(self), old(env).config)
                    ==> *self == *old(self) && *env == *old(env),
                resolves_outputs(*old(self), *self, *old(env), *env, done),
                self.alive ==> effectors(self.cells@)
                    == done + effectors(self.cells@.skip(c as int)),
                !self.alive ==> done == effectors(self.cells@),
                forall|i: int, j: int| env.has_food(i, j) ==> old(env).has_food(i, j),
            decreases self.cells@.len() - c,
        {
            let n_out = self.cells[c].outputs.len();
            proof {
                lemma_effectors_skip_step(self.cells@, c as int);
                assert(self.cells@[c as int].outputs@.skip(0) =~= self.cells@[c as int].outputs@);
                assert(done + self.cells@[c as int].outputs@.skip(0)
                    + effectors(self.cells@.skip(c as int + 1))
                    =~= done + effectors(self.cells@.skip(c as int)));
            }
            let mut o: usize = 0;
            while o < n_out && self.alive
                invariant
                    0 <= c < self.cells@.len(),
                    0 <= o <= n_out,
                    n_out == self.cells@[c as int].outputs@.len(),
                    step_frame(*old(self), *self, *old(env), *env),
                    env.wf(),
                    self.alive ==> in_bounds(self.x as int, self.y as int, old(env).config),
                    !self.alive ==> !in_bounds(self.x as int, self.y as int, old(env).config),
                    old(self).eat_foods <= self.eat_foods,
                    self.eat_foods - old(self).eat_foods
                        <= num_outputs(self.cells@.take(c as int)) + o,
                    self.energy == old(self).energy
                        + (self.eat_foods - old(self).eat_foods) * old(env).config.food_energy,
                    env.food_count() == old(env).food_count()
                        - (self.eat_foods - old(self).eat_foods),
                    no_motor_match(*old(self), old(env).config)
                        ==> *self == *old(self) && *env == *old(env),
                    resolves_outputs(*old(self), *self, *old(env), *env, done),
                    self.alive ==> effectors(self.cells@)
                        == done + self.cells@[c as int].outputs@.skip(o as int)
                            + effectors(self.cells@.skip(c as int + 1)),
                    !self.alive ==> done == effectors(self.cells@),
                    forall|i: int, j: int| env.has_food(i, j) ==> old(env).has_food(i, j),
                decreases n_out - o,
            {
                let out: OutputZone = self.cells[c].outputs[o];
                let ghost f_pre = *self;
                let ghost e_pre = *env;
                proof {
                    let d = self.eat_foods as int - old(self).eat_foods as int;
                    let n = num_outputs(self.cells@);
                    let e = old(env).config.food_energy as int;
                    lemma_num_outputs_take_step(self.cells@, c as int);
                    lemma_num_outputs_take_le(self.cells@, c as int + 1);
                    assert(d + 1 <= n);
                    lemma_mul_inequality(d + 1, n, e);
                    assert(d * e + e == (d + 1) * e) by (nonlinear_arith);
                    assert(self.energy + e <= i64::MAX);
                }
                let action = choose_action(&env.config, &out);
                match action {
                    Action::Up => self.move_up(env),
                    Action::Down => self.move_down(env),
                    Action::Left => self.move_left(env),
                    Action::Right => self.move_right(env),
                    Action::Random => self.move_random(env, rng),
                    Action::Stay => (),
                }
                proof {
                    let e = old(env).config.food_energy as int;
                    let d_pre = f_pre.eat_foods as int - old(self).eat_foods as int;
                    let d_post = self.eat_foods as int - old(self).eat_foods as int;
                    assert(d_post == d_pre || d_post == d_pre + 1);
                    assert(d_post * e == d_pre * e || d_post * e == d_pre * e + e)
                        by (nonlinear_arith)
                        requires d_post == d_pre || d_post == d_pre + 1,
                    ;
                    assert forall|i: int, j: int| env.has_food(i, j)
                        implies old(env).has_food(i, j) by {
                        assert(env.has_food(i, j) ==> e_pre.has_food(i, j));
                    };
                    if no_motor_match(*old(self), old(env).config) {
                        assert(out == old(self).cells@[c as int].outputs@[o as int]);
                        assert(spec_choose_action(old(env).config, out) == Action::Stay);
                    }
                    // chain this effector onto the resolution
                    assert(effector_step(f_pre, *self, e_pre, *env, out));
                    lemma_resolves_snoc(
                        *old(self), f_pre, *self, *old(env), e_pre, *env, done, out,
                    );
                    let done_pre = done;
                    done = done.push(out);
                    assert(self.cells@[c as int].outputs@.skip(o as int)
                        =~= seq![out] + self.cells@[c as int].outputs@.skip(o as int + 1));
                    if self.alive {
                        assert(done + self.cells@[c as int].outputs@.skip(o as int + 1)
                            + effectors(self.cells@.skip(c as int + 1))
                            =~= done_pre + self.cells@[c as int].outputs@.skip(o as int)
                                + effectors(self.cells@.skip(c as int + 1)));
                    } else {
                        let rest = self.cells@[c as int].outputs@.skip(o as int + 1)
                            + effectors(self.cells@.skip(c as int + 1));
                        lemma_resolves_dead_extend(
                            *old(self), *self, *old(env), *env, done, rest,
                        );
                        assert(done + rest
                            =~= done_pre + self.cells@[c as int].outputs@.skip(o as int)
                                + effectors(self.cells@.skip(c as int + 1)));
                        done = done + rest;
                        assert(done =~= effectors(self.cells@));
                    }
                }
                o = o + 1;
            }
            proof {
                lemma_num_outputs_take_step(self.cells@, c as int);
                if self.alive {
                    assert(self.cells@[c as int].outputs@.skip(n_out as int)
                        =~= Seq::<OutputZone>::empty());
                    assert(done + effectors(self.cells@.skip(c as int + 1))
                        =~= done + self.cells@[c as int].outputs@.skip(n_out as int)
                            + effectors(self.cells@.skip(c as int + 1)));
                }
            }
            c = c + 1;
        }
        proof {
            lemma_num_outputs_take_le(self.cells@, c as int);
            if self.alive {
                assert(self.cells@.skip(c as int) =~= Seq::<Cell>::empty());
                assert(effectors(self.cells@.skip(c as int)) =~= Seq::<OutputZone>::empty());
                assert(done =~= effectors(self.cells@));
            }
            assert(effectors(old(self).cells@) == effectors(self.cells@));
        }
        true
    }
}

} // verus!

