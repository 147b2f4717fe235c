use vypertron_snake::collision::{DeathCause, SpecialKind};
use vypertron_snake::creature::{Snake, TimedEffect};
use vypertron_snake::engine::Simulation;
use vypertron_snake::food::{Food, FoodType};
use vypertron_snake::grid::{Direction, GridBounds, GridPosition};
use vypertron_snake::input::InputVerdict;
use vypertron_snake::level::{Arena, SpecialMechanic, SpeedZone, TeleporterLink, Wall, WallType};

/// Five moves per second: 200 ms buys exactly one move at plain speed.
const SPEED: u64 = 5000;

fn arena(w: u32, h: u32, level: u32) -> Arena {
    Arena::new(GridBounds { width: w, height: h }, level)
}

fn sim_at(a: Arena, head: GridPosition, length: u32, character: u32) -> Simulation {
    Simulation::new(a, head, length, SPEED, 10 * SPEED, character)
}

fn food(x: i32, y: i32, kind: FoodType) -> Food {
    Food::new(GridPosition::new(x, y), kind, 1)
}

#[test]
fn normal_food_grows_and_scores() {
    let mut a = arena(20, 20, 1);
    a.foods.push(food(11, 10, FoodType::Normal));
    let mut s = sim_at(a, GridPosition::new(10, 10), 3, 1);
    let r = s.advance(200);
    assert!(r.stepped);
    let hit = r.collisions.food.expect("food eaten");
    assert_eq!(hit.kind, FoodType::Normal);
    assert_eq!(hit.score, 10);
    assert_eq!(hit.position, GridPosition::new(11, 10));
    assert_eq!(r.growth, 1);
    assert!(r.collisions.death.is_none());
    assert_eq!(s.creature.length, 4);
    // The head plus four body segments; the new one sits where the tail was
    // before the step.
    assert_eq!(s.creature.segments.len(), 5);
    assert!(s.arena.foods.is_empty());
    assert_eq!(
        s.creature.segments,
        vec![
            GridPosition::new(11, 10),
            GridPosition::new(10, 10),
            GridPosition::new(9, 10),
            GridPosition::new(8, 10),
            GridPosition::new(7, 10)
        ]
    );
    assert_eq!(s.creature.speed, SPEED + 100);
}

#[test]
fn food_score_uses_level_and_character_multiplier() {
    let mut a = arena(20, 20, 2);
    a.foods.push(food(11, 10, FoodType::Normal));
    let mut s = sim_at(a, GridPosition::new(10, 10), 3, 4);
    let r = s.advance(200);
    assert_eq!(r.collisions.food.unwrap().score, 30);
    assert_eq!(vypertron_snake::food::food_score(FoodType::Golden, 3, 2), 270);
    assert_eq!(vypertron_snake::food::food_score(FoodType::Bonus, 1, 3), 27);
    assert_eq!(vypertron_snake::food::food_score(FoodType::Speed, 1, 9), 15);
}

#[test]
fn wall_breaker_breaks_breakable_wall() {
    let mut a = arena(20, 20, 5);
    a.mechanics.push(SpecialMechanic::WallBreaking);
    a.walls.push(Wall { position: GridPosition::new(11, 10), kind: WallType::Breakable, health: 1 });
    let mut s = sim_at(a, GridPosition::new(10, 10), 3, 3);
    let r = s.advance(200);
    let w = r.collisions.wall.expect("wall met");
    assert!(w.broke);
    assert!(r.collisions.death.is_none());
    assert!(s.creature.alive);
    assert!(s.arena.walls.is_empty());
}

#[test]
fn wall_breaking_needs_the_level_mechanic() {
    let mut a = arena(20, 20, 5);
    a.walls.push(Wall { position: GridPosition::new(11, 10), kind: WallType::Breakable, health: 1 });
    let mut s = sim_at(a, GridPosition::new(10, 10), 3, 3);
    let r = s.advance(200);
    let d = r.collisions.death.expect("death");
    assert_eq!(d.cause, DeathCause::WallCollision);
    assert_eq!(d.position, GridPosition::new(11, 10));
    assert!(!s.creature.alive);
    assert_eq!(s.arena.walls.len(), 1);
}

#[test]
fn invincibility_passes_obstacles_but_not_boundary_walls() {
    let mut a = arena(20, 20, 1);
    a.walls.push(Wall { position: GridPosition::new(11, 10), kind: WallType::Obstacle, health: 1 });
    let mut s = sim_at(a, GridPosition::new(10, 10), 3, 1);
    s.creature.invincibility = Some(3000);
    let r = s.advance(200);
    assert!(r.collisions.death.is_none());
    assert!(!r.collisions.wall.unwrap().broke);
    assert_eq!(s.arena.walls.len(), 1);

    let mut b = arena(20, 20, 1);
    b.walls.push(Wall { position: GridPosition::new(11, 10), kind: WallType::Boundary, health: 1 });
    let mut t = sim_at(b, GridPosition::new(10, 10), 3, 1);
    t.creature.invincibility = Some(3000);
    let r = t.advance(200);
    assert_eq!(r.collisions.death.unwrap().cause, DeathCause::WallCollision);
}

#[test]
fn self_collision_past_the_grace_window() {
    let a = arena(20, 20, 1);
    let mut s = sim_at(a, GridPosition::new(5, 5), 7, 1);
    // The head at (5,5) steps down to (5,4), which segment 4 holds before the
    // step and segment 5 after it.
    s.creature.segments = vec![
        GridPosition::new(5, 5),
        GridPosition::new(5, 6),
        GridPosition::new(6, 6),
        GridPosition::new(6, 5),
        GridPosition::new(5, 4),
        GridPosition::new(7, 4),
        GridPosition::new(8, 4),
        GridPosition::new(9, 4),
    ];
    s.creature.direction = Direction::Down;
    s.input = vypertron_snake::input::InputBuffer::new(Direction::Down);
    let r = s.advance(200);
    let d = r.collisions.death.expect("death");
    assert_eq!(d.cause, DeathCause::SelfCollision);
    assert_eq!(d.position, GridPosition::new(5, 4));
    assert_eq!(s.creature.segments[5], GridPosition::new(5, 4));
    assert!(!s.creature.alive);
}

#[test]
fn entering_the_nearest_segments_is_not_lethal() {
    let a = arena(20, 20, 1);
    let mut s = sim_at(a, GridPosition::new(10, 10), 4, 1);
    // Turned straight back onto segment 1: after the step that cell is
    // segment 2, inside the grace window.
    s.creature.direction = Direction::Left;
    s.input = vypertron_snake::input::InputBuffer::new(Direction::Left);
    let r = s.advance(200);
    assert!(r.stepped);
    assert!(r.collisions.death.is_none());
    assert_eq!(s.creature.segments[0], GridPosition::new(9, 10));
    assert_eq!(s.creature.segments[2], GridPosition::new(9, 10));
    assert!(s.creature.alive);
}

#[test]
fn edge_exit_without_wrap_is_one_wall_death() {
    let a = arena(20, 20, 1);
    let mut s = sim_at(a, GridPosition::new(19, 10), 3, 1);
    let r = s.advance(200);
    let d = r.collisions.death.expect("death");
    assert_eq!(d.cause, DeathCause::WallCollision);
    assert_eq!(d.position, GridPosition::new(20, 10));
    assert!(!s.creature.alive);
    // A dead creature no longer moves.
    let r = s.advance(1000);
    assert!(!r.stepped);
    assert!(r.collisions.death.is_none());
}

#[test]
fn edge_exit_with_wrap_reenters_opposite_edge() {
    let mut a = arena(20, 20, 3);
    a.mechanics.push(SpecialMechanic::Teleporters);
    let mut s = sim_at(a, GridPosition::new(19, 10), 3, 1);
    let r = s.advance(200);
    assert!(r.collisions.death.is_none());
    assert!(s.creature.alive);
    assert_eq!(s.creature.segments[0], GridPosition::new(0, 10));
    let mut b = arena(20, 20, 3);
    b.mechanics.push(SpecialMechanic::Teleporters);
    let mut t = sim_at(b, GridPosition::new(10, 0), 3, 1);
    t.input.offer(Direction::Down);
    t.advance(200);
    assert_eq!(t.creature.segments[0], GridPosition::new(10, 19));
}

#[test]
fn teleporter_relocates_head_in_the_same_tick() {
    let mut a = arena(20, 20, 3);
    a.mechanics.push(SpecialMechanic::Teleporters);
    a.teleporters.push(TeleporterLink { a: GridPosition::new(11, 10), b: GridPosition::new(3, 3) });
    let mut s = sim_at(a, GridPosition::new(10, 10), 3, 1);
    let r = s.advance(200);
    let sp = r.collisions.special.expect("teleporter");
    assert_eq!(sp.kind, SpecialKind::Teleporter);
    assert_eq!(sp.position, GridPosition::new(3, 3));
    assert_eq!(s.creature.segments[0], GridPosition::new(3, 3));
    assert_eq!(s.creature.segments[1], GridPosition::new(10, 10));
}

#[test]
fn undeclared_teleporters_do_nothing() {
    let mut a = arena(20, 20, 3);
    a.teleporters.push(TeleporterLink { a: GridPosition::new(11, 10), b: GridPosition::new(3, 3) });
    let mut s = sim_at(a, GridPosition::new(10, 10), 3, 1);
    let r = s.advance(200);
    assert!(r.collisions.special.is_none());
    assert_eq!(s.creature.segments[0], GridPosition::new(11, 10));
}

#[test]
fn invincibility_pickup_grants_invincibility() {
    let mut a = arena(20, 20, 9);
    a.mechanics.push(SpecialMechanic::Invincibility);
    a.pickups.push(GridPosition::new(11, 10));
    let mut s = sim_at(a, GridPosition::new(10, 10), 3, 1);
    let r = s.advance(200);
    assert_eq!(r.collisions.special.unwrap().kind, SpecialKind::InvincibilityPickup);
    assert_eq!(s.creature.invincibility, Some(5000));
    assert!(s.arena.pickups.is_empty());
}

#[test]
fn head_moves_one_cell_in_buffered_direction() {
    let a = arena(20, 20, 1);
    let mut s = sim_at(a, GridPosition::new(10, 10), 3, 1);
    assert_eq!(s.input.offer(Direction::Up), InputVerdict::Buffered);
    let before = s.creature.segments[0];
    let r = s.advance(200);
    assert!(r.stepped);
    let after = s.creature.segments[0];
    assert_eq!(after, GridPosition::new(10, 11));
    assert_eq!(after.manhattan_distance(&before), 1);
    assert_eq!(s.creature.direction, Direction::Up);
}

#[test]
fn reversal_never_reaches_the_engine() {
    let a = arena(20, 20, 1);
    let mut s = sim_at(a, GridPosition::new(10, 10), 3, 1);
    assert_eq!(s.input.offer(Direction::Left), InputVerdict::Reversal);
    assert_eq!(s.input.len(), 0);
    s.advance(200);
    assert_eq!(s.creature.segments[0], GridPosition::new(11, 10));
    assert_eq!(s.creature.direction, Direction::Right);
}

#[test]
fn accumulator_carries_the_excess() {
    let a = arena(20, 20, 1);
    let mut s = sim_at(a, GridPosition::new(5, 5), 3, 1);
    let r = s.advance(150);
    assert!(!r.stepped);
    assert_eq!(s.creature.accumulator, 750_000);
    let r = s.advance(150);
    assert!(r.stepped);
    assert_eq!(s.creature.accumulator, 500_000);
    // One move per call, whatever the time.
    let r = s.advance(1000);
    assert!(r.stepped);
    assert_eq!(s.creature.segments[0], GridPosition::new(7, 5));
    assert_eq!(s.creature.accumulator, 4_500_000);
}

#[test]
fn effective_speed_multiplies_character_boost_and_zone() {
    let mut a = arena(20, 20, 2);
    a.mechanics.push(SpecialMechanic::SpeedZones);
    a.speed_zones.push(SpeedZone { min: GridPosition::new(8, 8), max: GridPosition::new(12, 12), percent: 200 });
    let mut s = sim_at(a, GridPosition::new(10, 10), 3, 2);
    s.creature.speed_boost = Some(TimedEffect { percent: 150, remaining_ms: 1000 });
    // 5000 x 1.2 x 1.5 x 2.0
    assert_eq!(s.effective_speed(), 18000);
    let plain = sim_at(arena(20, 20, 1), GridPosition::new(10, 10), 3, 1);
    assert_eq!(plain.effective_speed(), 5000);
}

#[test]
fn segments_match_length_after_every_tick() {
    let mut a = arena(30, 30, 1);
    a.foods.push(food(11, 10, FoodType::Bonus));
    a.foods.push(food(12, 10, FoodType::Golden));
    let mut s = sim_at(a, GridPosition::new(10, 10), 3, 1);
    let mut last = s.creature.length;
    for _ in 0..8 {
        s.advance(200);
        assert_eq!(s.creature.segments.len() as u32, s.creature.length + 1);
        assert!(s.creature.length >= last);
        last = s.creature.length;
    }
    assert_eq!(s.creature.length, 8);
}

#[test]
fn growth_then_ticks_without_food_never_shrinks() {
    let mut a = arena(30, 30, 1);
    a.foods.push(food(11, 10, FoodType::Golden));
    let mut s = sim_at(a, GridPosition::new(10, 10), 3, 1);
    let r = s.advance(200);
    assert_eq!(r.growth, 3);
    assert_eq!(s.creature.length, 6);
    assert_eq!(s.creature.invincibility, Some(5000));
    for _ in 0..3 {
        let r = s.advance(200);
        assert_eq!(r.growth, 0);
        assert_eq!(s.creature.length, 6);
    }
}

#[test]
fn speed_food_grants_a_boost_that_expires() {
    let mut a = arena(30, 30, 1);
    a.foods.push(food(11, 10, FoodType::Speed));
    let mut s = sim_at(a, GridPosition::new(10, 10), 3, 1);
    s.advance(200);
    assert_eq!(s.creature.speed_boost, Some(TimedEffect { percent: 150, remaining_ms: 5000 }));
    s.creature.update_effects(4000);
    assert_eq!(s.creature.speed_boost.unwrap().remaining_ms, 1000);
    s.creature.update_effects(1000);
    assert!(s.creature.speed_boost.is_none());
}

#[test]
fn only_one_food_per_tick() {
    let mut a = arena(30, 30, 1);
    a.foods.push(food(11, 10, FoodType::Normal));
    a.foods.push(food(11, 10, FoodType::Golden));
    let mut s = sim_at(a, GridPosition::new(10, 10), 3, 1);
    let r = s.advance(200);
    assert_eq!(r.collisions.food.unwrap().kind, FoodType::Normal);
    assert_eq!(s.arena.foods.len(), 1);
    assert_eq!(s.arena.foods[0].kind, FoodType::Golden);
}

#[test]
fn spawn_trails_body_to_the_left() {
    let c = Snake::spawn(GridPosition::new(10, 7), 3, 1000, 2000, 1);
    assert_eq!(
        c.segments,
        vec![
            GridPosition::new(10, 7),
            GridPosition::new(9, 7),
            GridPosition::new(8, 7),
            GridPosition::new(7, 7)
        ]
    );
    assert_eq!(c.tail(), GridPosition::new(7, 7));
    let s = Simulation::start(arena(20, 15, 1), 1000, 2000, 2);
    assert_eq!(s.creature.segments[0], GridPosition::new(10, 7));
    assert_eq!(s.creature.length, 3);
}

#[test]
fn moving_food_relocates_normal_and_bonus_only() {
    let mut a = arena(20, 20, 4);
    a.mechanics.push(SpecialMechanic::MovingFood);
    a.foods.push(food(3, 3, FoodType::Golden));
    a.foods.push(food(15, 15, FoodType::Normal));
    let mut s = sim_at(a, GridPosition::new(10, 10), 3, 1);
    s.relocate_food();
    assert_eq!(s.arena.foods.len(), 2);
    assert_eq!(s.arena.foods[0].position, GridPosition::new(3, 3));
    let moved = s.arena.foods[1];
    assert_eq!(moved.kind, FoodType::Normal);
    assert!(moved.position.x >= 1 && moved.position.x < 19);
    for seg in &s.creature.segments {
        assert!(moved.position.manhattan_distance(seg) >= 2);
    }
}
