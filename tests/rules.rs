use vypertron_snake::score::{calculate_length_bonus, get_score_rank, ScoreRank};
use vypertron_snake::state::{
    is_menu_state, is_playing_state, should_show_game_world, GameState, StateMachine,
    StateTransitionEvent,
};
use vypertron_snake::creature::{character_ability, character_score_percent, CharacterAbility};
use vypertron_snake::food::{
    expire_foods, find_safe_food_position, food_kind_for_draw, is_safe_food_cell, Food, FoodType,
};
use vypertron_snake::grid::{Direction, GridBounds, GridPosition};
use vypertron_snake::input::{InputBuffer, InputVerdict};
use vypertron_snake::spawn::{spawn_settings_for_level, special_kind_for_draw, tick_timer, SpawnController};

#[test]
fn buffering_same_direction_twice_stores_it_once() {
    let mut b = InputBuffer::new(Direction::Right);
    assert_eq!(b.offer(Direction::Up), InputVerdict::Buffered);
    b.elapse(100);
    assert_eq!(b.offer(Direction::Up), InputVerdict::Duplicate);
    assert_eq!(b.directions, vec![Direction::Up]);
    // Back to back, with no time between: still one entry.
    let mut c = InputBuffer::new(Direction::Right);
    c.offer(Direction::Down);
    c.offer(Direction::Down);
    assert_eq!(c.directions, vec![Direction::Down]);
}

#[test]
fn buffer_keeps_newest_three_and_trims_with_time() {
    let mut b = InputBuffer::new(Direction::Right);
    for d in [Direction::Up, Direction::Left, Direction::Down, Direction::Right] {
        assert_eq!(b.offer(d), InputVerdict::Buffered);
        // The spacing has passed, but no trim is due yet.
        b.since_last_ms = 100;
    }
    assert_eq!(b.directions, vec![Direction::Left, Direction::Down, Direction::Right]);
    assert_eq!(b.take_next(), Some(Direction::Left));
    assert_eq!(b.len(), 2);
    b.elapse(150);
    assert_eq!(b.len(), 2);
    b.elapse(50);
    assert_eq!(b.directions, vec![Direction::Right]);
    assert_eq!(b.timer_ms, 0);
    b.elapse(200);
    assert_eq!(b.directions, vec![Direction::Right]);
    assert_eq!(b.take_next(), Some(Direction::Right));
    assert_eq!(b.take_next(), None);
}

#[test]
fn reversal_is_rejected_against_the_heading() {
    let mut b = InputBuffer::new(Direction::Up);
    assert_eq!(b.offer(Direction::Down), InputVerdict::Reversal);
    assert!(b.directions.is_empty());
    assert_eq!(b.offer(Direction::Left), InputVerdict::Buffered);
    b.elapse(100);
    assert_eq!(b.offer(Direction::Right), InputVerdict::Reversal);
    assert_eq!(b.offer(Direction::Down), InputVerdict::Buffered);
}

#[test]
fn growth_and_base_scores_per_kind() {
    assert_eq!(FoodType::Normal.growth_amount(), 1);
    assert_eq!(FoodType::Bonus.growth_amount(), 2);
    assert_eq!(FoodType::Speed.growth_amount(), 1);
    assert_eq!(FoodType::Golden.growth_amount(), 3);
    assert_eq!(FoodType::Normal.base_score(), 10);
    assert_eq!(FoodType::Bonus.base_score(), 25);
    assert_eq!(FoodType::Speed.base_score(), 15);
    assert_eq!(FoodType::Golden.base_score(), 100);
    let f = Food::new(GridPosition::new(1, 2), FoodType::Golden, 3);
    assert_eq!(f.score_value, 300);
    assert_eq!(f.expires_in_ms, Some(15_000));
    assert_eq!(Food::new(GridPosition::new(1, 2), FoodType::Bonus, 3).expires_in_ms, None);
}

#[test]
fn characters_abilities_and_multipliers() {
    assert_eq!(character_ability(1), CharacterAbility::Balanced);
    assert_eq!(character_ability(2), CharacterAbility::SpeedBoost);
    assert_eq!(character_ability(3), CharacterAbility::WallBreaker);
    assert_eq!(character_ability(4), CharacterAbility::ScoreBooster);
    assert_eq!(character_score_percent(2), 90);
    assert_eq!(character_score_percent(4), 150);
    assert_eq!(character_score_percent(7), 100);
}

#[test]
fn food_kind_thresholds_grow_with_level() {
    // Level 1: golden below 22, speed below 77, bonus below 237.
    assert_eq!(food_kind_for_draw(1, 0), FoodType::Golden);
    assert_eq!(food_kind_for_draw(1, 21), FoodType::Golden);
    assert_eq!(food_kind_for_draw(1, 22), FoodType::Speed);
    assert_eq!(food_kind_for_draw(1, 76), FoodType::Speed);
    assert_eq!(food_kind_for_draw(1, 77), FoodType::Bonus);
    assert_eq!(food_kind_for_draw(1, 236), FoodType::Bonus);
    assert_eq!(food_kind_for_draw(1, 237), FoodType::Normal);
    assert_eq!(food_kind_for_draw(10, 39), FoodType::Golden);
    assert_eq!(food_kind_for_draw(10, 40), FoodType::Speed);
    assert_eq!(special_kind_for_draw(6), FoodType::Speed);
    assert_eq!(special_kind_for_draw(7), FoodType::Golden);
}

#[test]
fn food_expires_when_its_countdown_runs_out() {
    let mut foods = vec![
        Food::new(GridPosition::new(1, 1), FoodType::Normal, 1),
        Food::new(GridPosition::new(2, 2), FoodType::Speed, 1),
        Food::new(GridPosition::new(3, 3), FoodType::Golden, 1),
    ];
    expire_foods(&mut foods, 9_000);
    assert_eq!(foods.len(), 3);
    assert_eq!(foods[1].expires_in_ms, Some(1_000));
    expire_foods(&mut foods, 1_000);
    assert_eq!(foods.len(), 2);
    assert_eq!(foods[0].kind, FoodType::Normal);
    assert_eq!(foods[1].expires_in_ms, Some(5_000));
    assert_eq!(foods[0].expires_in_ms, None);
}

#[test]
fn safe_cell_keeps_distance_two() {
    let occupied = vec![GridPosition::new(5, 5)];
    assert!(!is_safe_food_cell(GridPosition::new(5, 6), &occupied));
    assert!(!is_safe_food_cell(GridPosition::new(5, 5), &occupied));
    assert!(is_safe_food_cell(GridPosition::new(6, 6), &occupied));
    assert!(is_safe_food_cell(GridPosition::new(5, 7), &occupied));
}

#[test]
fn random_placement_finds_a_safe_inner_cell() {
    // Of the nine inner cells of a 5 x 5 grid, the corner (1,1) and its
    // neighbours are unsafe; a search that only drew the range's low end
    // would never succeed.
    let occupied = vec![GridPosition::new(1, 1)];
    for _ in 0..20 {
        let p = find_safe_food_position(5, 5, &occupied).expect("a safe cell");
        assert!(p.x >= 1 && p.x <= 3 && p.y >= 1 && p.y <= 3);
        assert!(p.manhattan_distance(&GridPosition::new(1, 1)) >= 2);
    }
    assert_eq!(find_safe_food_position(2, 9, &occupied), None);
}

#[test]
fn spawn_timers_fire_and_carry_over() {
    assert_eq!(tick_timer(2900, 200, 3000), (true, 100));
    assert_eq!(tick_timer(100, 200, 3000), (false, 300));
    let s = spawn_settings_for_level(7);
    assert_eq!((s.min_food, s.max_food, s.interval_ms), (2, 4, 2000));
    assert_eq!(spawn_settings_for_level(0).interval_ms, 2000);
    let mut c = SpawnController::new(1);
    let p = c.plan(1000, 1, false, false);
    assert!(!p.regular && !p.bonus && !p.special && !p.burst);
    let p = c.plan(2000, 1, true, true);
    assert!(p.regular);
    assert_eq!(c.regular_ms, 0);
    let p = c.plan(1000, 2, true, true);
    assert!(!p.regular);
    assert!(p.relocate);
    let p = c.plan(20_000, 2, true, false);
    assert!(p.bonus && p.special && p.burst);
    assert!(!p.regular && !p.relocate);
}

#[test]
fn grid_helpers() {
    let b = GridBounds { width: 20, height: 15 };
    assert!(b.contains(GridPosition::new(0, 0)));
    assert!(b.contains(GridPosition::new(19, 14)));
    assert!(!b.contains(GridPosition::new(20, 3)));
    assert!(!b.contains(GridPosition::new(3, -1)));
    assert_eq!(GridPosition::new(-1, 15).wrapped(&b), GridPosition::new(19, 0));
    assert_eq!(GridPosition::new(20, -1).wrapped(&b), GridPosition::new(0, 14));
    assert_eq!(GridPosition::new(1, 2).manhattan_distance(&GridPosition::new(4, -2)), 7);
    assert!(GridPosition::new(1, 2).is_adjacent(&GridPosition::new(1, 3)));
    assert!(!GridPosition::new(1, 2).is_adjacent(&GridPosition::new(2, 3)));
    assert_eq!(Direction::Up.opposite(), Direction::Down);
    assert!(!Direction::Left.is_valid_change(Direction::Right));
    assert!(Direction::Left.is_valid_change(Direction::Up));
    assert_eq!(GridPosition::new(3, i32::MAX).stepped(Direction::Up), None);
    assert_eq!(GridPosition::new(3, 4).stepped(Direction::Left), Some(GridPosition::new(2, 4)));
}

#[test]
fn score_ranks_titles_and_length_bonus() {
    assert_eq!(get_score_rank(999), ScoreRank::Beginner);
    assert_eq!(get_score_rank(1000), ScoreRank::Intermediate);
    assert_eq!(get_score_rank(5000), ScoreRank::Advanced);
    assert_eq!(get_score_rank(10000), ScoreRank::Expert);
    assert_eq!(get_score_rank(25000), ScoreRank::Master);
    assert_eq!(get_score_rank(50000), ScoreRank::Legendary);
    assert_eq!(ScoreRank::Expert.get_title(), "Viper Virtuoso");
    assert_eq!(calculate_length_bonus(3), 0);
    assert_eq!(calculate_length_bonus(10), 35);
}

#[test]
fn state_predicates_and_key_events() {
    assert!(is_playing_state(&GameState::Playing));
    assert!(!is_playing_state(&GameState::Cutscene));
    assert!(is_menu_state(&GameState::Credits));
    assert!(!is_menu_state(&GameState::Loading));
    assert!(should_show_game_world(&GameState::GameOver));
    assert!(!should_show_game_world(&GameState::Settings));
    let mut m = StateMachine::new();
    assert_eq!(m.pause_key_event(), Some(StateTransitionEvent::ToCharacterSelect));
    assert_eq!(m.back_key_event(), None);
    m.handle(StateTransitionEvent::StartGame { character_id: 1 });
    assert_eq!(m.pause_key_event(), Some(StateTransitionEvent::PauseGame));
    assert_eq!(m.back_key_event(), None);
    m.handle(StateTransitionEvent::PauseGame);
    assert_eq!(m.pause_key_event(), Some(StateTransitionEvent::ResumeGame));
    assert_eq!(m.back_key_event(), Some(StateTransitionEvent::QuitToMenu));
    m.handle(StateTransitionEvent::ToSettings);
    assert_eq!(m.back_key_event(), Some(StateTransitionEvent::ToHomeScreen));
}

#[test]
fn placement_always_succeeds_when_every_inner_cell_is_free() {
    let occupied: Vec<GridPosition> = vec![GridPosition::new(0, 0), GridPosition::new(8, 0)];
    for _ in 0..20 {
        let p = find_safe_food_position(9, 4, &occupied).expect("owed");
        assert!(p.x >= 1 && p.x <= 7 && p.y >= 1 && p.y <= 2);
    }
}

#[test]
fn restored_progress_is_merged_as_running_maxima() {
    let mut m = StateMachine::new();
    m.handle(StateTransitionEvent::LevelComplete { score: 50, level: 2 });
    m.restore_progress(&vec![30, 20, 70], 6);
    assert_eq!(m.progression().level_scores[0], 30);
    assert_eq!(m.progression().level_scores[1], 50);
    assert_eq!(m.progression().level_scores[2], 70);
    assert_eq!(m.progression().total_score, 150);
    assert_eq!(m.progression().max_unlocked_level, 6);
    m.restore_progress(&vec![], 2);
    assert_eq!(m.progression().max_unlocked_level, 6);
    assert_eq!(m.state(), GameState::LevelComplete);
}
