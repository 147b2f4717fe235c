//! The session context passed through every frame: the state machine, the
//! level being played and the running score. The simulation runs only while
//! the machine is playing and unpaused.

use vstd::prelude::*;
use crate::creature::{MAX_LENGTH, SPEED_LIMIT};
use crate::engine::{Simulation, StepReport, START_LENGTH, advanced};
use crate::food::{Food, aged_all, expire_foods};
use crate::grid::{Direction, GridPosition};
use crate::input::{InputVerdict, offer_spec, elapse_spec, sat_add};
use crate::level::{Arena, SpeedZone, SpecialMechanic, TeleporterLink, Wall};
use crate::spawn::{SpawnController, SpawnPlan, planned, relocated, spawned};
use crate::state::{StateTransitionEvent, StateMachine, GameState, PauseState, transition_spec};

verus! {

/// What the level loader hands over: the arena at level start, the starting
/// and maximum speed, and the score that completes the level.
#[derive(Clone, Debug)]
pub struct LevelSetup {
    pub arena: Arena,
    pub speed: u64,
    pub max_speed: u64,
    pub target_score: u64,
}

impl LevelSetup {
    pub open spec fn wf(&self) -> bool {
        &&& self.arena.wf()
        &&& self.arena.bounds.width / 2 >= START_LENGTH
        &&& self.speed <= self.max_speed <= SPEED_LIMIT
    }
}

/// A copy of a vector of plain values.
pub fn copy_vec<T: Copy>(v: &Vec<T>) -> (r: Vec<T>)
    ensures
        r@ == v@,
{
    let mut r: Vec<T> = Vec::new();
    let mut i: usize = 0;
    while i < v.len()
        invariant
            i <= v@.len(),
            r@ == v@.take(i as int),
        decreases v@.len() - i,
    {
        r.push(v[i]);
        i = i + 1;
        assert(r@ =~= v@.take(i as int));
    }
    assert(v@.take(v@.len() as int) =~= v@);
    r
}

impl Arena {
    /// A copy of this arena.
    pub fn duplicate(&self) -> (r: Arena)
        ensures
            r.bounds == self.bounds,
            r.level == self.level,
            r.mechanics@ == self.mechanics@,
            r.foods@ == self.foods@,
            r.walls@ == self.walls@,
            r.teleporters@ == self.teleporters@,
            r.speed_zones@ == self.speed_zones@,
            r.pickups@ == self.pickups@,
    {
        Arena {
            bounds: self.bounds,
            level: self.level,
            mechanics: copy_vec(&self.mechanics),
            foods: copy_vec(&self.foods),
            walls: copy_vec(&self.walls),
            teleporters: copy_vec(&self.teleporters),
            speed_zones: copy_vec(&self.speed_zones),
            pickups: copy_vec(&self.pickups),
        }
    }
}

/// The arena `b` holds the same things as `a`.
pub open spec fn same_arena(a: &Arena, b: &Arena) -> bool {
    &&& a.bounds == b.bounds
    &&& a.level == b.level
    &&& a.mechanics@ == b.mechanics@
    &&& a.foods@ == b.foods@
    &&& a.walls@ == b.walls@
    &&& a.teleporters@ == b.teleporters@
    &&& a.speed_zones@ == b.speed_zones@
    &&& a.pickups@ == b.pickups@
}

/// `sim` is the setup's level freshly entered: its arena, and a creature of
/// the starting length at the centre, playing `character_id`.
pub open spec fn fresh_from(sim: &Simulation, setup: &LevelSetup, character_id: u32) -> bool {
    &&& sim.wf()
    &&& same_arena(&sim.arena, &setup.arena)
    &&& sim.creature.chain() == crate::creature::spawn_chain(
        GridPosition {
            x: (setup.arena.bounds.width / 2) as i32,
            y: (setup.arena.bounds.height / 2) as i32,
        },
        START_LENGTH as nat,
    )
    &&& sim.creature.length == START_LENGTH
    &&& sim.creature.alive
    &&& sim.creature.accumulator == 0
    &&& sim.creature.speed == setup.speed
    &&& sim.creature.character_id == character_id
    &&& sim.input@.directions.len() == 0
}

/// The session: the only owner of the state machine, the level and the score.
#[derive(Clone, Debug)]
pub struct Session {
    pub machine: StateMachine,
    pub setup: Option<LevelSetup>,
    pub sim: Option<Simulation>,
    /// Score gathered in the current play session.
    pub score: u64,
    /// Food spawn timers of the level in play.
    pub spawner: SpawnController,
}

/// One event handled by the session, as a relation between the session
/// before (`s0`) and after (`s1`) it.
pub open spec fn handled(s0: &Session, s1: &Session, e: StateTransitionEvent) -> bool {
    &&& s1.machine@ == transition_spec(s0.machine@, e)
    &&& s1.setup == s0.setup
    &&& s1.spawner == s0.spawner
    &&& s1.score == match e {
        StateTransitionEvent::StartGame { .. }
        | StateTransitionEvent::RestartLevel
        | StateTransitionEvent::QuitToMenu => 0,
        _ => s0.score,
    }
    &&& (e is StartGame || e is RestartLevel) ==> match s0.setup {
        Some(st) => (s1.sim matches Some(sim) && fresh_from(
            &sim,
            &st,
            s1.machine@.selected_character,
        )),
        None => s1.sim is None,
    }
    &&& e is QuitToMenu ==> s1.sim is None
    &&& !(e is StartGame || e is RestartLevel || e is QuitToMenu) ==> s1.sim == s0.sim
}

/// One frame of the session, as a relation between the session before
/// (`s0`) and after (`s1`) it, the elapsed time and what the engine reported.
pub open spec fn framed(s0: &Session, s1: &Session, dt_ms: u32, r: Option<StepReport>) -> bool {
    &&& s1.setup == s0.setup
    &&& s1.spawner == s0.spawner
    &&& !s0.running() ==> {
        &&& r is None
        &&& s1.sim == s0.sim
        &&& s1.machine@ == s0.machine@
        &&& s1.score == s0.score
    }
    &&& s0.running() ==> (r matches Some(rep) && {
        let sim0 = s0.sim.unwrap();
        let sim1 = s1.sim.unwrap();
        let gained = match rep.collisions.food {
            Some(f) => f.score,
            None => 0,
        };
        let score = sat_add(s0.score, gained);
        let target_met = match s0.setup {
            Some(st) => score >= st.target_score && gained > 0,
            None => false,
        };
        &&& s1.sim is Some
        &&& advanced(&sim0, &sim1, dt_ms, rep)
        &&& s1.score == score
        &&& s1.machine@ == if rep.collisions.death is Some {
            transition_spec(s0.machine@, StateTransitionEvent::GameOver { final_score: score })
        } else if target_met {
            transition_spec(
                s0.machine@,
                StateTransitionEvent::LevelComplete { score, level: sim0.arena.level },
            )
        } else {
            s0.machine@
        }
    })
}

impl Session {
    pub open spec fn wf(&self) -> bool {
        &&& self.machine.wf()
        &&& (self.setup matches Some(s) ==> s.wf())
        &&& (self.sim matches Some(s) ==> s.wf())
        &&& self.spawner.wf()
    }

    /// Whether frames advance the simulation now.
    pub open spec fn running(&self) -> bool {
        self.machine@.state == GameState::Playing && self.machine@.pause == PauseState::Unpaused
            && self.sim is Some
    }

    /// A session at process start: home screen, no level, no score.
    pub fn new() -> (r: Session)
        ensures
            r.wf(),
            r.machine@.state == GameState::HomeScreen,
            r.setup is None,
            r.sim is None,
            r.score == 0,
    {
        Session {
            machine: StateMachine::new(),
            setup: None,
            sim: None,
            score: 0,
            spawner: SpawnController::new(1),
        }
    }

    fn spawn(setup: &LevelSetup, character_id: u32) -> (r: Simulation)
        requires
            setup.wf(),
        ensures
            fresh_from(&r, setup, character_id),
    {
        let arena = setup.arena.duplicate();
        Simulation::start(arena, setup.speed, setup.max_speed, character_id)
    }

    /// Takes over a loaded level and enters it with a fresh creature.
    pub fn load_level(&mut self, setup: LevelSetup)
        requires
            old(self).wf(),
            setup.wf(),
        ensures
            final(self).wf(),
            final(self).machine@ == old(self).machine@,
            final(self).score == old(self).score,
            (final(self).sim matches Some(s) && fresh_from(&s, &setup, old(self).machine@.selected_character)),
            final(self).spawner == SpawnController::new_spec(setup.arena.level),
    {
        let sim = Session::spawn(&setup, self.machine.progression().selected_character);
        self.spawner = SpawnController::new(setup.arena.level);
        self.sim = Some(sim);
        self.setup = Some(setup);
    }

    /// Passes an event to the state machine. Starting a game resets the
    /// session's score; starting or restarting re-enters the loaded level
    /// with a fresh creature; quitting to the menu discards the level in
    /// play. High scores are kept throughout.
    pub fn handle(&mut self, e: StateTransitionEvent)
        requires
            old(self).wf(),
        ensures
            final(self).wf(),
            handled(&*old(self), &*final(self), e),
    {
        self.machine.handle(e);
        match e {
            StateTransitionEvent::StartGame { .. } | StateTransitionEvent::RestartLevel => {
                self.score = 0;
                match &self.setup {
                    Some(s) => {
                        self.sim = Some(
                            Session::spawn(s, self.machine.progression().selected_character),
                        );
                    },
                    None => {
                        self.sim = None;
                    },
                }
            },
            StateTransitionEvent::QuitToMenu => {
                self.score = 0;
                self.sim = None;
            },
            _ => {},
        }
    }

    /// Offers a direction from the input layer to the running level's buffer.
    /// Outside play, or while paused, the input is ignored.
    pub fn offer_direction(&mut self, d: Direction) -> (r: Option<InputVerdict>)
        requires
            old(self).wf(),
        ensures
            final(self).wf(),
            final(self).machine@ == old(self).machine@,
            final(self).score == old(self).score,
            !old(self).running() ==> r is None && final(self).sim == old(self).sim,
            old(self).running() ==> r is Some && ({
                let s0 = old(self).sim.unwrap();
                let s1 = final(self).sim.unwrap();
                &&& final(self).sim is Some
                &&& s1.input@ == offer_spec(s0.input@, d)
                &&& s1.creature == s0.creature
                &&& s1.arena == s0.arena
            }),
    {
        if !self.machine.is_running() {
            return None;
        }
        match &mut self.sim {
            Some(sim) => Some(sim.input.offer(d)),
            None => None,
        }
    }

    /// One frame of simulation time. Nothing happens unless the machine is
    /// playing and unpaused, so a pause keeps the accumulator as it was. In
    /// play, the movement engine advances; food eaten adds its score; a death
    /// ends the session in game over with the score reached; reaching the
    /// level's target score completes the level.
    pub fn frame(&mut self, dt_ms: u32) -> (r: Option<StepReport>)
        requires
            old(self).wf(),
        ensures
            final(self).wf(),
            framed(&*old(self), &*final(self), dt_ms, r),
    {
        if !self.machine.is_running() {
            return None;
        }
        let rep = match &mut self.sim {
            Some(sim) => sim.advance(dt_ms),
            None => {
                return None;
            },
        };
        let level = match &self.sim {
            Some(sim) => sim.arena.level,
            None => 0,
        };
        let gained = match rep.collisions.food {
            Some(f) => f.score,
            None => 0,
        };
        self.score = crate::input::saturating_add_u64(self.score, gained);
        let target_met = match &self.setup {
            Some(st) => self.score >= st.target_score && gained > 0,
            None => false,
        };
        if rep.collisions.death.is_some() {
            self.machine.handle(StateTransitionEvent::GameOver { final_score: self.score });
        } else if target_met {
            self.machine.handle(StateTransitionEvent::LevelComplete { score: self.score, level });
        }
        Some(rep)
    }

    /// Counts the timed effects, food expiry and the input buffer's clocks
    /// down by `dt_ms`, only while the level is running.
    pub fn update_timers(&mut self, dt_ms: u64)
        requires
            old(self).wf(),
        ensures
            final(self).wf(),
            final(self).machine@ == old(self).machine@,
            final(self).score == old(self).score,
            final(self).setup == old(self).setup,
            !old(self).running() ==> final(self).sim == old(self).sim,
            old(self).running() ==> ({
                let s0 = old(self).sim.unwrap();
                let s1 = final(self).sim.unwrap();
                &&& final(self).sim is Some
                &&& s1.creature.chain() == s0.creature.chain()
                &&& s1.creature.length == s0.creature.length
                &&& s1.creature.alive == s0.creature.alive
                &&& s1.creature.accumulator == s0.creature.accumulator
                &&& s1.creature.speed_boost == (match s0.creature.speed_boost {
                    Some(e) => match crate::creature::countdown_spec(e.remaining_ms, dt_ms) {
                        Some(t) => Some(
                            crate::creature::TimedEffect { percent: e.percent, remaining_ms: t },
                        ),
                        None => None,
                    },
                    None => None,
                })
                &&& s1.creature.invincibility == (match s0.creature.invincibility {
                    Some(t) => crate::creature::countdown_spec(t, dt_ms),
                    None => None,
                })
                &&& s1.arena.foods@ == aged_all(s0.arena.foods@, dt_ms)
                &&& s1.arena.walls@ == s0.arena.walls@
                &&& s1.input@ == elapse_spec(s0.input@, dt_ms)
            }),
    {
        if !self.machine.is_running() {
            return;
        }
        match &mut self.sim {
            Some(sim) => {
                sim.creature.update_effects(dt_ms);
                expire_foods(&mut sim.arena.foods, dt_ms);
                sim.input.elapse(dt_ms);
            },
            None => {},
        }
    }

    /// Advances the spawn timers by `dt_ms`, moves food that is due to move
    /// and spawns the food that is due, only while the level is running.
    pub fn spawn_step(&mut self, dt_ms: u64) -> (r: Option<SpawnPlan>)
        requires
            old(self).wf(),
        ensures
            final(self).wf(),
            final(self).machine@ == old(self).machine@,
            final(self).score == old(self).score,
            final(self).setup == old(self).setup,
            !old(self).running() ==> r is None && final(self).sim == old(self).sim
                && final(self).spawner == old(self).spawner,
            old(self).running() ==> (r matches Some(plan) && final(self).sim is Some && {
                let s0 = old(self).sim.unwrap();
                let s1 = final(self).sim.unwrap();
                &&& planned(
                    old(self).spawner,
                    final(self).spawner,
                    dt_ms,
                    s0.arena.foods@.len() as usize,
                    s0.arena.declares(SpecialMechanic::MultipleFoods),
                    s0.arena.declares(SpecialMechanic::MovingFood),
                    plan,
                )
                &&& !plan.relocate ==> spawned(&s0, &s1, plan)
                &&& plan.relocate ==> exists|mid: Simulation|
                    relocated(&s0, &mid) && spawned(&mid, &s1, plan)
            }),
    {
        if !self.machine.is_running() {
            return None;
        }
        match &mut self.sim {
            Some(sim) => {
                let multiple = sim.arena.has_mechanic(SpecialMechanic::MultipleFoods);
                let moving = sim.arena.has_mechanic(SpecialMechanic::MovingFood);
                let plan = self.spawner.plan(dt_ms, sim.arena.foods.len(), multiple, moving);
                let ghost s0 = *sim;
                if plan.relocate {
                    sim.relocate_food();
                }
                let ghost mid = *sim;
                sim.spawn_food(plan);
                proof {
                    if plan.relocate {
                        assert(relocated(&s0, &mid) && spawned(&mid, &*sim, plan));
                    } else {
                        assert(mid == s0);
                    }
                }
                Some(plan)
            },
            None => None,
        }
    }
}

/// While the game is paused, a frame is idle: no tick, and the simulation
/// (its accumulator included), the state and the score stay as they were.
pub proof fn lemma_paused_frame_is_idle(s0: &Session, s1: &Session, dt_ms: u32, r: Option<StepReport>)
    requires
        s0.machine@.pause == PauseState::Paused,
        framed(s0, s1, dt_ms, r),
    ensures
        r is None,
        s1.sim == s0.sim,
        s1.machine@ == s0.machine@,
        s1.score == s0.score,
{
}

/// Resuming a paused game and running one frame continues from the
/// simulation as the pause left it: the frame's tick starts from the
/// accumulator kept through the pause, with no time added for the pause.
pub proof fn lemma_resume_continues(
    paused: &Session,
    resumed: &Session,
    after: &Session,
    dt_ms: u32,
    r: Option<StepReport>,
)
    requires
        paused.machine@.state == GameState::Playing,
        paused.machine@.pause == PauseState::Paused,
        paused.sim is Some,
        handled(paused, resumed, StateTransitionEvent::ResumeGame),
        framed(resumed, after, dt_ms, r),
    ensures
        resumed.machine@.state == GameState::Playing,
        resumed.machine@.pause == PauseState::Unpaused,
        resumed.sim == paused.sim,
        r matches Some(rep) && advanced(&paused.sim.unwrap(), &after.sim.unwrap(), dt_ms, rep),
{
}

} // verus!
