use frogs::config::Config;
use frogs::egg::Egg;
use frogs::egg::load_eggs;
use frogs::env::Env;
use frogs::frog::Cell;
use frogs::frog::CellGroup;
use frogs::frog::Frog;
use frogs::frog::InputZone;
use frogs::frog::OutputZone;
use frogs::zone::Zone;
use frogs::zone::new_zone;
use rand::Rng;
use rand::SeedableRng;
use rand::rngs::StdRng;

fn rng(seed: u64) -> StdRng {
    StdRng::seed_from_u64(seed)
}

fn empty_grid(cfg: &Config) -> Vec<Vec<u8>> {
    vec![vec![0u8; cfg.y_size as usize]; cfg.x_size as usize]
}

fn count_food(env: &Env) -> usize {
    let mut n: usize = 0;
    for col in &env.foods {
        for cell in col {
            if *cell != 0 {
                n += 1;
            }
        }
    }
    n
}

/// A genome whose single effector always lands exactly at (500, 500):
/// both region zones have radius 0, and both effector coordinates are
/// jittered around the output region's x coordinate, 500.
fn point_genome() -> CellGroup {
    CellGroup {
        group_input_zone: new_zone(100, 100, 0),
        group_output_zone: new_zone(500, 0, 0),
        cell_input_radius: 0,
        cell_qty: 1,
        cell_output_radius: 0,
        input_qty_per_cell: 1,
        output_qty_per_cell: 1,
    }
}

/// The standard configuration with the UP motor zone moved onto
/// (500, 500), where `point_genome`'s effector lands.
fn up_config() -> Config {
    let mut cfg = Config::standard();
    cfg.zone_move_up = new_zone(500, 500, 10);
    cfg
}

fn one_frog_env(cfg: Config) -> Env {
    Env {
        eggs: Vec::new(),
        frogs: Vec::new(),
        foods: empty_grid(&cfg),
        config: cfg,
    }
}

#[test]
fn test_range() {
    assert_eq!(10, (0..10).len());
}

#[test]
fn test_rand() {
    let x: i32 = rand::random();
    println!("{}", x);
}

#[test]
fn test_rng() {
    let mut rng = rand::thread_rng();
    rng.gen_range(1..7);
}

#[test]
fn test_env() {
    let cfg = Config::standard();
    let mut r = rng(11);
    let eggs = load_eggs(&cfg, &mut r);
    let mut env = Env::new(eggs, cfg, &mut r);
    env.rebuild_frog_and_food(&mut r);
}

#[test]
fn nearby_threshold() {
    // summed radii 10: a delta of exactly 10 misses, 9 hits
    let a = new_zone(0, 0, 5);
    let at_threshold = new_zone(10, 0, 5);
    let just_under = new_zone(9, 0, 5);
    assert!(!a.nearby(&at_threshold));
    assert!(a.nearby(&just_under));
    let y_at_threshold = new_zone(0, 10, 5);
    let y_just_under = new_zone(3, 9, 5);
    assert!(!a.nearby(&y_at_threshold));
    assert!(a.nearby(&y_just_under));
    // both axes must be under the threshold
    let far_y = new_zone(9, 30, 5);
    assert!(!a.nearby(&far_y));
    // effector radius counts toward the threshold
    let out_miss = OutputZone::new(5, 0, 0);
    let out_hit = OutputZone::new(5, 0, 1);
    assert!(!a.nearby_output(&out_miss));
    assert!(a.nearby_output(&out_hit));
}

#[test]
fn nearby_extreme_coordinates() {
    let a = new_zone(i64::MAX, i64::MIN, i64::MAX);
    let b = new_zone(i64::MIN, i64::MAX, i64::MAX);
    // the axis deltas exceed even the summed maximal radii
    assert!(!a.nearby(&b));
    assert!(a.nearby(&a));
}

#[test]
fn motor_priority_up_first() {
    // an effector inside both the up and the down motor zones fires
    // the up movement: the priority order is fixed
    let mut cfg = Config::standard();
    cfg.zone_move_up = new_zone(500, 500, 10);
    cfg.zone_move_down = new_zone(500, 500, 10);
    let mut r = rng(14);
    let egg = Egg { brain_radius: 1000, cell_groups: vec![point_genome()] };
    let mut frog = Frog::new(5, 10, egg, &cfg, &mut r);
    let mut env = one_frog_env(cfg);
    frog.active(&mut env, &mut r);
    assert_eq!(frog.y, 11);
    assert_eq!(frog.x, 5);
}

#[test]
fn nearby_symmetry() {
    let cases = [
        (new_zone(0, 0, 5), new_zone(10, 0, 5)),
        (new_zone(2, 3, 4), new_zone(-5, 1, 2)),
        (new_zone(-7, 9, 1), new_zone(0, 0, 0)),
    ];
    for (a, b) in cases {
        assert_eq!(a.nearby(&b), b.nearby(&a));
    }
}

#[test]
fn materialization_counts() {
    let g = CellGroup {
        group_input_zone: new_zone(10, 20, 3),
        group_output_zone: new_zone(50, 60, 2),
        cell_input_radius: 7,
        cell_qty: 2,
        cell_output_radius: 4,
        input_qty_per_cell: 3,
        output_qty_per_cell: 2,
    };
    let mut r = rng(1);
    let cell = Cell::new(&g, &mut r);
    assert_eq!(cell.inputs.len(), 3);
    assert_eq!(cell.outputs.len(), 2);
    for z in &cell.inputs {
        assert_eq!(z.radius, 7);
        assert_eq!(z.energy, 1000);
        assert!(7 <= z.x && z.x <= 13);
        // vertical jitter comes from the output region's x band
        assert!(48 <= z.y && z.y <= 52);
    }
    for z in &cell.outputs {
        assert_eq!(z.radius, 4);
        assert_eq!(z.energy, 1000);
        assert!(48 <= z.x && z.x <= 52);
        assert!(48 <= z.y && z.y <= 52);
    }
}

#[test]
fn edge_death() {
    let cfg = up_config();
    let mut r = rng(2);
    let egg = Egg { brain_radius: 1000, cell_groups: vec![point_genome()] };
    let mut frog = Frog::new(5, 299, egg, &cfg, &mut r);
    let mut env = one_frog_env(cfg);
    let acted = frog.active(&mut env, &mut r);
    assert!(acted);
    assert!(!frog.alive);
    assert_eq!(frog.y, 300);
    assert_eq!(frog.energy, 1000);
    assert_eq!(frog.eat_foods, 0);
    // a dead frog's further steps are no-ops reporting false
    let again = frog.active(&mut env, &mut r);
    assert!(!again);
    assert!(!frog.alive);
    assert_eq!(frog.y, 300);
}

#[test]
fn up_step_scenario() {
    // a 300 by 300 grid, one egg with one genome whose effector falls
    // in the UP motor zone: one step raises y by 1 and eats the food
    // at the new cell
    let cfg = up_config();
    let mut r = rng(3);
    let egg = Egg { brain_radius: 1000, cell_groups: vec![point_genome()] };
    let mut frog = Frog::new(5, 10, egg, &cfg, &mut r);
    let mut env = one_frog_env(cfg);
    env.foods[5][11] = 1;
    let acted = frog.active(&mut env, &mut r);
    assert!(acted);
    assert!(frog.alive);
    assert_eq!(frog.x, 5);
    assert_eq!(frog.y, 11);
    assert_eq!(frog.energy, 1000 + 1000);
    assert_eq!(frog.eat_foods, 1);
    assert!(!env.exists_food(5, 11));
}

#[test]
fn food_eaten_at_most_once() {
    let cfg = up_config();
    let mut r = rng(4);
    let egg = Egg { brain_radius: 1000, cell_groups: vec![point_genome()] };
    let mut first = Frog::new(5, 10, egg.clone(), &cfg, &mut r);
    let mut second = Frog::new(5, 10, egg, &cfg, &mut r);
    let mut env = one_frog_env(cfg);
    env.foods[5][11] = 1;
    first.active(&mut env, &mut r);
    assert_eq!(first.energy, 2000);
    assert_eq!(first.eat_foods, 1);
    assert!(!env.exists_food(5, 11));
    // the second frog moves onto the same cell in the same round and
    // gains nothing
    second.active(&mut env, &mut r);
    assert_eq!(second.y, 11);
    assert_eq!(second.energy, 1000);
    assert_eq!(second.eat_foods, 0);
}

#[test]
fn multiple_effectors_fire_independently() {
    let cfg = up_config();
    let mut r = rng(5);
    let mut genome = point_genome();
    genome.output_qty_per_cell = 2;
    let egg = Egg { brain_radius: 1000, cell_groups: vec![genome] };
    let mut frog = Frog::new(5, 10, egg, &cfg, &mut r);
    let mut env = one_frog_env(cfg);
    env.foods[5][11] = 1;
    env.foods[5][12] = 1;
    frog.active(&mut env, &mut r);
    assert_eq!(frog.y, 12);
    assert_eq!(frog.energy, 3000);
    assert_eq!(frog.eat_foods, 2);
}

#[test]
fn random_zone_moves_one_step() {
    let mut cfg = Config::standard();
    cfg.zone_move_random = new_zone(500, 500, 10);
    let mut r = rng(6);
    let egg = Egg { brain_radius: 1000, cell_groups: vec![point_genome()] };
    let mut frog = Frog::new(50, 50, egg, &cfg, &mut r);
    let mut env = one_frog_env(cfg);
    let acted = frog.active(&mut env, &mut r);
    assert!(acted);
    assert!(frog.alive);
    let dx = (frog.x - 50).abs();
    let dy = (frog.y - 50).abs();
    assert_eq!(dx + dy, 1);
    assert_eq!(frog.energy, 1000);
}

#[test]
fn rebuild_regenerates_population() {
    let mut cfg = Config::standard();
    cfg.egg_qty = 3;
    cfg.cell_group_qty = 4;
    cfg.food_qty = 50;
    let mut r = rng(7);
    let eggs = load_eggs(&cfg, &mut r);
    assert_eq!(eggs.len(), 3);
    let mut env = Env::new(eggs, cfg, &mut r);
    assert_eq!(env.frogs.len(), env.eggs.len());
    assert!(count_food(&env) <= 50);
    assert!(count_food(&env) >= 1);
    for frog in &env.frogs {
        assert!(frog.alive);
        assert_eq!(frog.energy, 1000);
        assert_eq!(frog.eat_foods, 0);
        assert_eq!(frog.cells.len(), 4);
        assert!(151 <= frog.x && frog.x <= 239);
        assert!(151 <= frog.y && frog.y <= 239);
    }
    env.rebuild_frog_and_food(&mut r);
    assert_eq!(env.frogs.len(), 3);
    assert!(count_food(&env) <= 50);
    env.run(&mut r);
    assert_eq!(env.frogs.len(), 3);
}

#[test]
fn generation_ranges() {
    let mut r = rng(8);
    for _ in 0..50 {
        let g = CellGroup::new(1000, 1, &mut r);
        assert!(1 <= g.cell_qty && g.cell_qty < 10);
        assert!(1 <= g.input_qty_per_cell && g.input_qty_per_cell < 10);
        assert!(1 <= g.output_qty_per_cell && g.output_qty_per_cell < 5);
        assert_eq!(g.cell_input_radius, 0);
        assert_eq!(g.cell_output_radius, 0);
        for z in [g.group_input_zone, g.group_output_zone] {
            assert!(0 <= z.x && z.x < 1000);
            assert!(0 <= z.y && z.y < 1000);
            assert!(0 <= z.radius && z.radius < 100);
        }
    }
    let z = Zone::new(5, &mut r);
    assert!(0 <= z.x && z.x < 5);
    assert!(0 <= z.y && z.y < 5);
    assert_eq!(z.radius, 0);
}

#[test]
fn egg_generation_counts() {
    let mut cfg = Config::standard();
    cfg.cell_group_qty = 6;
    let mut r = rng(9);
    let egg = Egg::new(&cfg, &mut r);
    assert_eq!(egg.get_brain_radius(), 1000);
    assert_eq!(egg.get_cell_groups().len(), 6);
}

#[test]
fn egg_clone_is_deep_copy() {
    let mut cfg = Config::standard();
    cfg.cell_group_qty = 3;
    let mut r = rng(10);
    let egg = Egg::new(&cfg, &mut r);
    let copy = egg.clone();
    assert_eq!(format!("{:?}", egg), format!("{:?}", copy));
}

#[test]
fn seeded_generation_reproducible() {
    let cfg = Config::standard();
    let egg_a = Egg::new(&cfg, &mut rng(42));
    let egg_b = Egg::new(&cfg, &mut rng(42));
    assert_eq!(format!("{:?}", egg_a), format!("{:?}", egg_b));
}

#[test]
fn consume_food_is_idempotent() {
    let cfg = Config::standard();
    let mut env = one_frog_env(cfg);
    env.foods[1][2] = 1;
    assert!(env.exists_food(1, 2));
    env.consume_food(1, 2);
    assert!(!env.exists_food(1, 2));
    env.consume_food(1, 2);
    assert!(!env.exists_food(1, 2));
    // positions outside the grid never hold food and are no-ops
    assert!(!env.exists_food(-1, 5));
    env.consume_food(-1, 5);
    assert!(!env.exists_food(300, 0));
}

#[test]
fn out_of_bounds_frog_dies_without_acting() {
    let cfg = Config::standard();
    let mut r = rng(12);
    let egg = Egg { brain_radius: 1000, cell_groups: vec![point_genome()] };
    let mut frog = Frog::new(-5, 10, egg, &cfg, &mut r);
    let mut env = one_frog_env(cfg);
    let acted = frog.active(&mut env, &mut r);
    assert!(!acted);
    assert!(!frog.alive);
    assert_eq!(frog.x, -5);
    assert_eq!(frog.energy, 1000);
}

#[test]
fn frog_new_materializes_per_genome() {
    let mut cfg = Config::standard();
    cfg.cell_group_qty = 5;
    let mut r = rng(13);
    let egg = Egg::new(&cfg, &mut r);
    let frog = Frog::new(7, 8, egg, &cfg, &mut r);
    assert_eq!(frog.x, 7);
    assert_eq!(frog.y, 8);
    assert!(frog.alive);
    assert_eq!(frog.energy, 1000);
    assert_eq!(frog.move_count, 0);
    assert_eq!(frog.eat_foods, 0);
    assert_eq!(frog.brain_radius, 1000);
    assert_eq!(frog.cells.len(), 5);
    for (cell, group) in frog.cells.iter().zip(frog.egg.cell_groups.iter()) {
        assert_eq!(cell.inputs.len(), group.input_qty_per_cell as usize);
        assert_eq!(cell.outputs.len(), group.output_qty_per_cell as usize);
        for z in &cell.inputs {
            assert_eq!(z.energy, 1000);
        }
        for z in &cell.outputs {
            assert_eq!(z.energy, 1000);
        }
    }
}

#[test]
fn zone_accessors() {
    let mut z = new_zone(3, 4, 5);
    assert_eq!(z.get_x(), 3);
    assert_eq!(z.get_y(), 4);
    assert_eq!(z.get_radius(), 5);
    assert_eq!(z.round_x(), 3);
    assert_eq!(z.round_y(), 4);
    z.set_x(30);
    z.set_y(40);
    z.set_radius(50);
    assert_eq!((z.x, z.y, z.radius), (30, 40, 50));
    let other = new_zone(-9, 100, 1);
    z.from(&other);
    assert_eq!(z.x, -9);
    assert_eq!(z.y, 40);
    assert_eq!(z.radius, 50);
    let iz = InputZone::new(1, 2, 3);
    assert_eq!((iz.x, iz.y, iz.radius, iz.energy), (1, 2, 3, 1000));
}

#[test]
fn standard_config_values() {
    let cfg = Config::standard();
    assert_eq!(cfg.egg_qty, 80);
    assert_eq!(cfg.food_qty, 2000);
    assert_eq!(cfg.x_size, 300);
    assert_eq!(cfg.y_size, 300);
    assert_eq!(cfg.steps_per_round, 3000);
    assert_eq!(cfg.frog_init_energy, 1000);
    assert_eq!(cfg.brain_radius, 1000);
    assert_eq!(cfg.cell_group_qty, 300);
    assert_eq!(cfg.food_energy, 1000);
    assert_eq!((cfg.zone_move_up.x, cfg.zone_move_up.y, cfg.zone_move_up.radius), (500, 50, 10));
    assert_eq!((cfg.zone_move_down.x, cfg.zone_move_down.y), (500, 100));
    assert_eq!((cfg.zone_move_left.x, cfg.zone_move_left.y), (500, 150));
    assert_eq!((cfg.zone_move_right.x, cfg.zone_move_right.y), (500, 200));
    assert_eq!((cfg.zone_move_random.x, cfg.zone_move_random.y), (500, 300));
}
