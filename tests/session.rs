use vypertron_snake::collision::DeathCause;
use vypertron_snake::food::{Food, FoodType};
use vypertron_snake::grid::{Direction, GridBounds, GridPosition};
use vypertron_snake::input::InputVerdict;
use vypertron_snake::level::Arena;
use vypertron_snake::session::{LevelSetup, Session};
use vypertron_snake::state::{CutsceneState, GameState, PauseState, StateTransitionEvent, StateMachine};

fn setup(level: u32, target: u64) -> LevelSetup {
    LevelSetup {
        arena: Arena::new(GridBounds { width: 20, height: 20 }, level),
        speed: 5000,
        max_speed: 50000,
        target_score: target,
    }
}

fn playing_session(s: LevelSetup) -> Session {
    let mut session = Session::new();
    session.handle(StateTransitionEvent::StartGame { character_id: 1 });
    session.load_level(s);
    session
}

#[test]
fn pause_freezes_ticks_and_keeps_accumulator() {
    let mut session = playing_session(setup(1, 1000));
    assert!(session.frame(100).is_some());
    let acc = session.sim.as_ref().unwrap().creature.accumulator;
    assert_eq!(acc, 500_000);
    let head = session.sim.as_ref().unwrap().creature.segments[0];

    session.handle(StateTransitionEvent::PauseGame);
    assert_eq!(session.machine.state(), GameState::Playing);
    assert_eq!(session.machine.pause_state(), PauseState::Paused);
    for _ in 0..10 {
        assert!(session.frame(1000).is_none());
    }
    session.update_timers(5000);
    assert_eq!(session.sim.as_ref().unwrap().creature.accumulator, acc);
    assert_eq!(session.sim.as_ref().unwrap().creature.segments[0], head);
    assert_eq!(session.offer_direction(Direction::Up), None);

    session.handle(StateTransitionEvent::ResumeGame);
    assert_eq!(session.machine.pause_state(), PauseState::Unpaused);
    let r = session.frame(100).unwrap();
    assert!(r.stepped);
    assert_eq!(session.sim.as_ref().unwrap().creature.accumulator, 0);
}

#[test]
fn death_records_best_score_only_when_higher() {
    let mut s = setup(1, 1000);
    s.arena.foods.push(Food::new(GridPosition::new(11, 10), FoodType::Bonus, 1));
    let mut session = playing_session(s);
    // Eat (score 25), then run into the right boundary.
    let r = session.frame(200).unwrap();
    assert_eq!(r.collisions.food.unwrap().score, 25);
    assert_eq!(session.score, 25);
    let mut died = false;
    for _ in 0..20 {
        if let Some(r) = session.frame(200) {
            if let Some(d) = r.collisions.death {
                assert_eq!(d.cause, DeathCause::WallCollision);
                died = true;
                break;
            }
        }
    }
    assert!(died);
    assert_eq!(session.machine.state(), GameState::GameOver);
    assert_eq!(session.machine.progression().level_scores[0], 25);
    assert_eq!(session.machine.progression().total_score, 25);

    // A lower score later leaves the best score alone.
    let mut m = StateMachine::new();
    m.handle(StateTransitionEvent::StartGame { character_id: 2 });
    m.handle(StateTransitionEvent::GameOver { final_score: 40 });
    assert_eq!(m.progression().level_scores[0], 40);
    m.handle(StateTransitionEvent::RestartLevel);
    m.handle(StateTransitionEvent::GameOver { final_score: 30 });
    assert_eq!(m.state(), GameState::GameOver);
    assert_eq!(m.progression().level_scores[0], 40);
    m.handle(StateTransitionEvent::RestartLevel);
    m.handle(StateTransitionEvent::GameOver { final_score: 55 });
    assert_eq!(m.progression().level_scores[0], 55);
}

#[test]
fn start_game_selects_character_and_resets_session() {
    let mut m = StateMachine::new();
    assert_eq!(m.state(), GameState::HomeScreen);
    m.handle(StateTransitionEvent::StartGame { character_id: 3 });
    assert_eq!(m.state(), GameState::Playing);
    assert_eq!(m.pause_state(), PauseState::Unpaused);
    assert_eq!(m.progression().selected_character, 3);
    assert_eq!(m.progression().current_level, 1);
    m.handle(StateTransitionEvent::StartGame { character_id: 99 });
    assert_eq!(m.progression().selected_character, 4);
    m.handle(StateTransitionEvent::StartGame { character_id: 0 });
    assert_eq!(m.progression().selected_character, 1);
}

#[test]
fn pause_outside_play_is_ignored_and_reset_on_parent_change() {
    let mut m = StateMachine::new();
    m.handle(StateTransitionEvent::PauseGame);
    assert_eq!(m.state(), GameState::HomeScreen);
    assert_eq!(m.pause_state(), PauseState::Unpaused);
    m.handle(StateTransitionEvent::StartGame { character_id: 1 });
    m.handle(StateTransitionEvent::PauseGame);
    assert_eq!(m.pause_state(), PauseState::Paused);
    m.handle(StateTransitionEvent::QuitToMenu);
    assert_eq!(m.state(), GameState::HomeScreen);
    assert_eq!(m.pause_state(), PauseState::Unpaused);
    assert!(m.progression().is_new_game);
}

#[test]
fn level_complete_raises_unlocked_level_as_running_maximum() {
    let mut m = StateMachine::new();
    m.handle(StateTransitionEvent::LevelComplete { score: 300, level: 3 });
    assert_eq!(m.state(), GameState::LevelComplete);
    assert_eq!(m.progression().max_unlocked_level, 4);
    assert_eq!(m.progression().level_scores[2], 300);
    m.handle(StateTransitionEvent::LevelComplete { score: 100, level: 1 });
    assert_eq!(m.progression().max_unlocked_level, 4);
    assert_eq!(m.progression().total_score, 400);
    m.handle(StateTransitionEvent::LevelComplete { score: 200, level: 3 });
    assert_eq!(m.progression().level_scores[2], 300);
    // A level outside the table unlocks but records nothing.
    m.handle(StateTransitionEvent::LevelComplete { score: 900, level: 11 });
    assert_eq!(m.progression().max_unlocked_level, 12);
    assert_eq!(m.progression().total_score, 400);
}

#[test]
fn cutscene_settings_and_credits_transitions() {
    let mut m = StateMachine::new();
    m.handle(StateTransitionEvent::StartCutscene { cutscene_type: CutsceneState::Intro });
    assert_eq!(m.state(), GameState::Cutscene);
    assert_eq!(m.cutscene(), Some(CutsceneState::Intro));
    m.handle(StateTransitionEvent::EndCutscene);
    assert_eq!(m.state(), GameState::Playing);
    m.set_current_level(11);
    m.handle(StateTransitionEvent::StartCutscene { cutscene_type: CutsceneState::Victory });
    m.handle(StateTransitionEvent::EndCutscene);
    assert_eq!(m.state(), GameState::Credits);
    m.handle(StateTransitionEvent::ToSettings);
    assert_eq!(m.state(), GameState::Settings);
    m.handle(StateTransitionEvent::FromSettings);
    assert_eq!(m.state(), GameState::Credits);
    m.handle(StateTransitionEvent::FromSettings);
    assert_eq!(m.state(), GameState::HomeScreen);
    m.handle(StateTransitionEvent::ToCharacterSelect);
    assert_eq!(m.state(), GameState::CharacterSelect);
    m.handle(StateTransitionEvent::ToCredits);
    assert_eq!(m.state(), GameState::Credits);
    m.handle(StateTransitionEvent::ToHomeScreen);
    assert_eq!(m.state(), GameState::HomeScreen);
}

#[test]
fn reaching_target_score_completes_level() {
    let mut s = setup(2, 20);
    s.arena.foods.push(Food::new(GridPosition::new(11, 10), FoodType::Normal, 2));
    let mut session = playing_session(s);
    let r = session.frame(200).unwrap();
    assert_eq!(r.collisions.food.unwrap().score, 20);
    assert_eq!(session.machine.state(), GameState::LevelComplete);
    assert_eq!(session.machine.progression().level_scores[1], 20);
    assert_eq!(session.machine.progression().max_unlocked_level, 3);
}

#[test]
fn restart_respawns_creature_and_keeps_high_scores() {
    let mut session = playing_session(setup(1, 1000));
    session.frame(200);
    session.frame(200);
    session.handle(StateTransitionEvent::GameOver { final_score: 70 });
    session.handle(StateTransitionEvent::RestartLevel);
    assert_eq!(session.machine.state(), GameState::Playing);
    assert_eq!(session.score, 0);
    let sim = session.sim.as_ref().unwrap();
    assert_eq!(sim.creature.segments[0], GridPosition::new(10, 10));
    assert_eq!(sim.creature.length, 3);
    assert!(sim.creature.alive);
    assert_eq!(session.machine.progression().level_scores[0], 70);
}

#[test]
fn session_buffers_input_only_while_running() {
    let mut session = playing_session(setup(1, 1000));
    assert_eq!(session.offer_direction(Direction::Up), Some(InputVerdict::Buffered));
    assert_eq!(session.offer_direction(Direction::Up), Some(InputVerdict::TooSoon));
    session.update_timers(100);
    assert_eq!(session.offer_direction(Direction::Down), Some(InputVerdict::Reversal));
    session.frame(200);
    assert_eq!(session.sim.as_ref().unwrap().creature.segments[0], GridPosition::new(10, 11));
}

#[test]
fn spawn_step_places_food_on_safe_inner_cells() {
    let mut session = playing_session(setup(1, 1000));
    // Below the level's minimum of one piece: a regular spawn is due at once.
    let plan = session.spawn_step(16).unwrap();
    assert!(plan.regular);
    let sim = session.sim.as_ref().unwrap();
    assert_eq!(sim.arena.foods.len(), 1);
    let p = sim.arena.foods[0].position;
    assert!(p.x >= 1 && p.x < 19 && p.y >= 1 && p.y < 19);
    for seg in &sim.creature.segments {
        assert!(p.manhattan_distance(seg) >= 2);
    }
}
