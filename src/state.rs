//! The session state machine: a top-level state, a pause sub-state that only
//! means something while playing, and the progression data that only its
//! transitions may change.

use vstd::prelude::*;
use crate::creature::CHARACTER_COUNT;
use crate::input::sat_add;

verus! {

/// Number of levels; best scores are kept per level.
pub const LEVEL_COUNT: u32 = 10;

#[derive(Clone, Copy, Debug, PartialEq, Eq, Structural)]
pub enum GameState {
    HomeScreen,
    CharacterSelect,
    Playing,
    GameOver,
    LevelComplete,
    Cutscene,
    Settings,
    Loading,
    Credits,
}

#[derive(Clone, Copy, Debug, PartialEq, Eq, Structural)]
pub enum PauseState {
    Unpaused,
    Paused,
}

#[derive(Clone, Copy, Debug, PartialEq, Eq, Structural)]
pub enum CutsceneState {
    Intro,
    LevelTransition,
    Victory,
    GameOverStory,
}

/// The discrete events that drive the state machine.
#[derive(Clone, Copy, Debug, PartialEq, Eq, Structural)]
pub enum StateTransitionEvent {
    ToHomeScreen,
    ToCharacterSelect,
    ToSettings,
    ToCredits,
    StartGame { character_id: u32 },
    LevelComplete { score: u64, level: u32 },
    /// The creature died; the session ends with `final_score`.
    GameOver { final_score: u64 },
    PauseGame,
    ResumeGame,
    StartCutscene { cutscene_type: CutsceneState },
    EndCutscene,
    FromSettings,
    RestartLevel,
    QuitToMenu,
}

/// Persisted progression: best score per level and the highest unlocked level.
#[derive(Clone, Debug)]
pub struct GameProgression {
    pub current_level: u32,
    pub max_unlocked_level: u32,
    pub selected_character: u32,
    pub is_new_game: bool,
    /// Sum of the best scores, saturating at `u64::MAX`.
    pub total_score: u64,
    /// Best score of level `i + 1` at index `i`.
    pub level_scores: Vec<u64>,
}

/// The state machine: the only writer of the state pair and of progression.
#[derive(Clone, Debug)]
pub struct StateMachine {
    state: GameState,
    pause: PauseState,
    previous: Option<GameState>,
    cutscene: Option<CutsceneState>,
    progression: GameProgression,
}

/// The state machine as a value.
pub struct MachineModel {
    pub state: GameState,
    pub pause: PauseState,
    pub previous: Option<GameState>,
    pub cutscene: Option<CutsceneState>,
    pub current_level: u32,
    pub max_unlocked_level: u32,
    pub selected_character: u32,
    pub is_new_game: bool,
    pub total_score: u64,
    pub level_scores: Seq<u64>,
}

/// Sum of a sequence of scores, saturating at `u64::MAX`.
pub open spec fn sat_sum(s: Seq<u64>) -> u64
    decreases s.len(),
{
    if s.len() == 0 {
        0
    } else {
        sat_add(sat_sum(s.drop_last()), s.last())
    }
}

pub open spec fn max_u64(a: u64, b: u64) -> u64 {
    if a >= b { a } else { b }
}

pub open spec fn max_u32(a: u32, b: u32) -> u32 {
    if a >= b { a } else { b }
}

pub open spec fn clamp_character_spec(id: u32) -> u32 {
    if id < 1 {
        1
    } else if id > CHARACTER_COUNT {
        CHARACTER_COUNT
    } else {
        id
    }
}

/// `scores` with the slot of `level` raised to `score` if that is higher;
/// unchanged where `level` names no slot.
pub open spec fn record_best(scores: Seq<u64>, level: u32, score: u64) -> Seq<u64> {
    if 1 <= level <= scores.len() {
        scores.update(level - 1, max_u64(scores[level - 1], score))
    } else {
        scores
    }
}

/// `m` in top-level state `s`, the pause sub-state reset.
pub open spec fn enter(m: MachineModel, s: GameState) -> MachineModel {
    MachineModel { state: s, pause: PauseState::Unpaused, ..m }
}

/// The machine after event `e`.
pub open spec fn transition_spec(m: MachineModel, e: StateTransitionEvent) -> MachineModel {
    match e {
        StateTransitionEvent::ToHomeScreen => enter(m, GameState::HomeScreen),
        StateTransitionEvent::ToCharacterSelect => enter(
            MachineModel { previous: Some(m.state), ..m },
            GameState::CharacterSelect,
        ),
        StateTransitionEvent::StartGame { character_id } => enter(
            MachineModel {
                selected_character: clamp_character_spec(character_id),
                current_level: 1,
                is_new_game: true,
                ..m
            },
            GameState::Playing,
        ),
        StateTransitionEvent::PauseGame => if m.state == GameState::Playing {
            MachineModel { pause: PauseState::Paused, ..m }
        } else {
            m
        },
        StateTransitionEvent::ResumeGame => if m.state == GameState::Playing {
            MachineModel { pause: PauseState::Unpaused, ..m }
        } else {
            m
        },
        StateTransitionEvent::GameOver { final_score } => {
            let scores = record_best(m.level_scores, m.current_level, final_score);
            enter(
                MachineModel { level_scores: scores, total_score: sat_sum(scores), ..m },
                GameState::GameOver,
            )
        },
        StateTransitionEvent::LevelComplete { score, level } => {
            let scores = record_best(m.level_scores, level, score);
            let next = if level < u32::MAX { (level + 1) as u32 } else { level };
            enter(
                MachineModel {
                    level_scores: scores,
                    total_score: sat_sum(scores),
                    max_unlocked_level: max_u32(m.max_unlocked_level, next),
                    ..m
                },
                GameState::LevelComplete,
            )
        },
        StateTransitionEvent::StartCutscene { cutscene_type } => enter(
            MachineModel { previous: Some(m.state), cutscene: Some(cutscene_type), ..m },
            GameState::Cutscene,
        ),
        StateTransitionEvent::EndCutscene => enter(
            m,
            if m.current_level > LEVEL_COUNT {
                GameState::Credits
            } else {
                GameState::Playing
            },
        ),
        StateTransitionEvent::ToSettings => enter(
            MachineModel { previous: Some(m.state), ..m },
            GameState::Settings,
        ),
        StateTransitionEvent::FromSettings => enter(
            MachineModel { previous: None, ..m },
            match m.previous {
                Some(s) => s,
                None => GameState::HomeScreen,
            },
        ),
        StateTransitionEvent::ToCredits => enter(
            MachineModel { previous: Some(m.state), ..m },
            GameState::Credits,
        ),
        StateTransitionEvent::RestartLevel => enter(m, GameState::Playing),
        StateTransitionEvent::QuitToMenu => enter(
            MachineModel { is_new_game: true, ..m },
            GameState::HomeScreen,
        ),
    }
}

impl View for StateMachine {
    type V = MachineModel;

    closed spec fn view(&self) -> MachineModel {
        MachineModel {
            state: self.state,
            pause: self.pause,
            previous: self.previous,
            cutscene: self.cutscene,
            current_level: self.progression.current_level,
            max_unlocked_level: self.progression.max_unlocked_level,
            selected_character: self.progression.selected_character,
            is_new_game: self.progression.is_new_game,
            total_score: self.progression.total_score,
            level_scores: self.progression.level_scores@,
        }
    }
}

/// Saturating sum of the scores.
pub fn total_of(scores: &Vec<u64>) -> (r: u64)
    ensures
        r == sat_sum(scores@),
{
    let mut total: u64 = 0;
    let mut i: usize = 0;
    while i < scores.len()
        invariant
            i <= scores@.len(),
            total == sat_sum(scores@.take(i as int)),
        decreases scores@.len() - i,
    {
        assert(scores@.take(i as int + 1).drop_last() =~= scores@.take(i as int));
        total = crate::input::saturating_add_u64(total, scores[i]);
        i = i + 1;
    }
    assert(scores@.take(scores@.len() as int) =~= scores@);
    total
}

impl StateMachine {
    pub closed spec fn wf(&self) -> bool {
        &&& self.progression.level_scores@.len() == LEVEL_COUNT
        &&& (self.state != GameState::Playing ==> self.pause == PauseState::Unpaused)
    }

    /// The machine at process start: home screen, level 1 unlocked, no scores.
    pub fn new() -> (r: StateMachine)
        ensures
            r.wf(),
            r@.state == GameState::HomeScreen,
            r@.pause == PauseState::Unpaused,
            r@.previous is None,
            r@.cutscene is None,
            r@.current_level == 1,
            r@.max_unlocked_level == 1,
            r@.selected_character == 1,
            r@.is_new_game,
            r@.total_score == 0,
            r@.level_scores == Seq::new(LEVEL_COUNT as nat, |i: int| 0u64),
    {
        let mut level_scores: Vec<u64> = Vec::new();
        let mut i: u32 = 0;
        while i < LEVEL_COUNT
            invariant
                i <= LEVEL_COUNT,
                level_scores@ == Seq::new(i as nat, |j: int| 0u64),
            decreases LEVEL_COUNT - i,
        {
            level_scores.push(0);
            i = i + 1;
            assert(level_scores@ =~= Seq::new(i as nat, |j: int| 0u64));
        }
        StateMachine {
            state: GameState::HomeScreen,
            pause: PauseState::Unpaused,
            previous: None,
            cutscene: None,
            progression: GameProgression {
                current_level: 1,
                max_unlocked_level: 1,
                selected_character: 1,
                is_new_game: true,
                total_score: 0,
                level_scores,
            },
        }
    }

    pub fn state(&self) -> (r: GameState)
        ensures
            r == self@.state,
    {
        self.state
    }

    pub fn pause_state(&self) -> (r: PauseState)
        ensures
            r == self@.pause,
    {
        self.pause
    }

    pub fn cutscene(&self) -> (r: Option<CutsceneState>)
        ensures
            r == self@.cutscene,
    {
        self.cutscene
    }

    pub fn progression(&self) -> (r: &GameProgression)
        ensures
            r.current_level == self@.current_level,
            r.max_unlocked_level == self@.max_unlocked_level,
            r.selected_character == self@.selected_character,
            r.is_new_game == self@.is_new_game,
            r.total_score == self@.total_score,
            r.level_scores@ == self@.level_scores,
    {
        &self.progression
    }

    /// Whether the simulation may run: playing and not paused.
    pub fn is_running(&self) -> (r: bool)
        ensures
            r == (self@.state == GameState::Playing && self@.pause == PauseState::Unpaused),
    {
        self.state == GameState::Playing && self.pause == PauseState::Unpaused
    }

    /// Sets the level being played.
    pub fn set_current_level(&mut self, level: u32)
        requires
            old(self).wf(),
        ensures
            final(self).wf(),
            final(self)@ == (MachineModel { current_level: level, ..old(self)@ }),
            final(self)@.level_scores.len() == LEVEL_COUNT,
    {
        self.progression.current_level = level;
    }

    fn record_best_score(&mut self, level: u32, score: u64)
        requires
            old(self).wf(),
        ensures
            final(self).wf(),
            final(self)@ == (MachineModel {
                level_scores: record_best(old(self)@.level_scores, level, score),
                total_score: sat_sum(record_best(old(self)@.level_scores, level, score)),
                ..old(self)@
            }),
    {
        if 1 <= level && level <= LEVEL_COUNT {
            let i = (level - 1) as usize;
            let best = self.progression.level_scores[i];
            if score > best {
                self.progression.level_scores.set(i, score);
            } else {
                proof {
                    assert(old(self)@.level_scores.update(level - 1, best) =~= old(
                        self,
                    )@.level_scores);
                }
            }
        }
        self.progression.total_score = total_of(&self.progression.level_scores);
    }

    fn enter(&mut self, s: GameState)
        requires
            old(self).wf(),
        ensures
            final(self).wf(),
            final(self)@ == enter(old(self)@, s),
    {
        self.state = s;
        self.pause = PauseState::Unpaused;
    }

    /// Applies one event. Every event maps to exactly one state pair; the
    /// pause sub-state is reset on every change of top-level state, and
    /// pausing or resuming outside play is ignored.
    pub fn handle(&mut self, e: StateTransitionEvent)
        requires
            old(self).wf(),
        ensures
            final(self).wf(),
            final(self)@ == transition_spec(old(self)@, e),
            final(self)@.level_scores.len() == LEVEL_COUNT,
    {
        match e {
            StateTransitionEvent::ToHomeScreen => self.enter(GameState::HomeScreen),
            StateTransitionEvent::ToCharacterSelect => {
                self.previous = Some(self.state);
                self.enter(GameState::CharacterSelect);
            },
            StateTransitionEvent::StartGame { character_id } => {
                self.progression.selected_character = crate::creature::clamp_character_id(
                    character_id,
                );
                self.progression.current_level = 1;
                self.progression.is_new_game = true;
                self.enter(GameState::Playing);
            },
            StateTransitionEvent::PauseGame => {
                if self.state == GameState::Playing {
                    self.pause = PauseState::Paused;
                }
            },
            StateTransitionEvent::ResumeGame => {
                if self.state == GameState::Playing {
                    self.pause = PauseState::Unpaused;
                }
            },
            StateTransitionEvent::GameOver { final_score } => {
                let level = self.progression.current_level;
                self.record_best_score(level, final_score);
                self.enter(GameState::GameOver);
            },
            StateTransitionEvent::LevelComplete { score, level } => {
                self.record_best_score(level, score);
                let next = if level < u32::MAX {
                    level + 1
                } else {
                    level
                };
                if next > self.progression.max_unlocked_level {
                    self.progression.max_unlocked_level = next;
                }
                self.enter(GameState::LevelComplete);
            },
            StateTransitionEvent::StartCutscene { cutscene_type } => {
                self.previous = Some(self.state);
                self.cutscene = Some(cutscene_type);
                self.enter(GameState::Cutscene);
            },
            StateTransitionEvent::EndCutscene => {
                if self.progression.current_level > LEVEL_COUNT {
                    self.enter(GameState::Credits);
                } else {
                    self.enter(GameState::Playing);
                }
            },
            StateTransitionEvent::ToSettings => {
                self.previous = Some(self.state);
                self.enter(GameState::Settings);
            },
            StateTransitionEvent::FromSettings => {
                let back = match self.previous {
                    Some(s) => s,
                    None => GameState::HomeScreen,
                };
                self.previous = None;
                self.enter(back);
            },
            StateTransitionEvent::ToCredits => {
                self.previous = Some(self.state);
                self.enter(GameState::Credits);
            },
            StateTransitionEvent::RestartLevel => self.enter(GameState::Playing),
            StateTransitionEvent::QuitToMenu => {
                self.progression.is_new_game = true;
                self.enter(GameState::HomeScreen);
            },
        }
    }
}

/// Pausing while playing unpaused gives (Playing, Paused) and resuming gives
/// back (Playing, Unpaused), with nothing else changed by either.
pub proof fn lemma_pause_resume(m: MachineModel)
    requires
        m.state == GameState::Playing,
        m.pause == PauseState::Unpaused,
    ensures
        transition_spec(m, StateTransitionEvent::PauseGame) == (MachineModel {
            pause: PauseState::Paused,
            ..m
        }),
        transition_spec(transition_spec(m, StateTransitionEvent::PauseGame), StateTransitionEvent::ResumeGame) == m,
{
}

/// No event lowers a level's best score or the highest unlocked level:
/// both are running maxima.
pub proof fn lemma_progress_never_decreases(m: MachineModel, e: StateTransitionEvent)
    ensures
        transition_spec(m, e).level_scores.len() == m.level_scores.len(),
        forall|i: int|
            0 <= i < m.level_scores.len() ==> #[trigger] transition_spec(m, e).level_scores[i]
                >= m.level_scores[i],
        transition_spec(m, e).max_unlocked_level >= m.max_unlocked_level,
{
}

/// A death while playing ends in game over, and the current level's best
/// score becomes the final score exactly when that is higher than the stored one.
pub proof fn lemma_death_records_best(m: MachineModel, final_score: u64)
    requires
        m.state == GameState::Playing,
        1 <= m.current_level <= m.level_scores.len(),
    ensures
        transition_spec(m, StateTransitionEvent::GameOver { final_score }).state == GameState::GameOver,
        transition_spec(m, StateTransitionEvent::GameOver { final_score }).level_scores[m.current_level - 1]
            == if final_score > m.level_scores[m.current_level - 1] {
            final_score
        } else {
            m.level_scores[m.current_level - 1]
        },
        forall|i: int|
            0 <= i < m.level_scores.len() && i != m.current_level - 1 ==> #[trigger] transition_spec(
                m,
                StateTransitionEvent::GameOver { final_score },
            ).level_scores[i] == m.level_scores[i],
        transition_spec(m, StateTransitionEvent::GameOver { final_score }).level_scores.len()
            == m.level_scores.len(),
        transition_spec(m, StateTransitionEvent::GameOver { final_score }).pause
            == PauseState::Unpaused,
        transition_spec(m, StateTransitionEvent::GameOver { final_score }).max_unlocked_level
            == m.max_unlocked_level,
        transition_spec(m, StateTransitionEvent::GameOver { final_score }).total_score == sat_sum(
            transition_spec(m, StateTransitionEvent::GameOver { final_score }).level_scores,
        ),
{
}

/// Whether `state` is gameplay.
pub fn is_playing_state(state: &GameState) -> (r: bool)
    ensures
        r == (*state == GameState::Playing),
{
    *state == GameState::Playing
}

pub open spec fn is_menu_spec(state: GameState) -> bool {
    state == GameState::HomeScreen || state == GameState::CharacterSelect || state
        == GameState::Settings || state == GameState::GameOver || state == GameState::LevelComplete
        || state == GameState::Credits
}

/// Whether `state` is one of the menu screens.
pub fn is_menu_state(state: &GameState) -> (r: bool)
    ensures
        r == is_menu_spec(*state),
{
    match state {
        GameState::HomeScreen | GameState::CharacterSelect | GameState::Settings
        | GameState::GameOver | GameState::LevelComplete | GameState::Credits => true,
        _ => false,
    }
}

/// Whether the game world is drawn in `state`.
pub fn should_show_game_world(state: &GameState) -> (r: bool)
    ensures
        r == (*state == GameState::Playing || *state == GameState::GameOver || *state
            == GameState::LevelComplete),
{
    match state {
        GameState::Playing | GameState::GameOver | GameState::LevelComplete => true,
        _ => false,
    }
}

impl StateMachine {
    /// The event the pause key stands for: pause or resume while playing,
    /// leave the home screen for character selection, nothing elsewhere.
    pub fn pause_key_event(&self) -> (r: Option<StateTransitionEvent>)
        ensures
            r == if self@.state == GameState::Playing {
                if self@.pause == PauseState::Unpaused {
                    Some(StateTransitionEvent::PauseGame)
                } else {
                    Some(StateTransitionEvent::ResumeGame)
                }
            } else if self@.state == GameState::HomeScreen {
                Some(StateTransitionEvent::ToCharacterSelect)
            } else {
                None
            },
    {
        match self.state {
            GameState::Playing => match self.pause {
                PauseState::Unpaused => Some(StateTransitionEvent::PauseGame),
                PauseState::Paused => Some(StateTransitionEvent::ResumeGame),
            },
            GameState::HomeScreen => Some(StateTransitionEvent::ToCharacterSelect),
            _ => None,
        }
    }

    /// The event the back key stands for: home from the side screens, quit
    /// to the menu from a paused game, nothing elsewhere.
    pub fn back_key_event(&self) -> (r: Option<StateTransitionEvent>)
        ensures
            r == if self@.state == GameState::CharacterSelect || self@.state == GameState::Settings
                || self@.state == GameState::Credits {
                Some(StateTransitionEvent::ToHomeScreen)
            } else if self@.state == GameState::Playing && self@.pause == PauseState::Paused {
                Some(StateTransitionEvent::QuitToMenu)
            } else {
                None
            },
    {
        match self.state {
            GameState::CharacterSelect | GameState::Settings | GameState::Credits => Some(
                StateTransitionEvent::ToHomeScreen,
            ),
            GameState::Playing => if self.pause == PauseState::Paused {
                Some(StateTransitionEvent::QuitToMenu)
            } else {
                None
            },
            _ => None,
        }
    }
}

impl StateMachine {
    /// Merges saved progression into the machine as running maxima: each
    /// level's best score and the highest unlocked level only rise.
    pub fn restore_progress(&mut self, saved_scores: &Vec<u64>, saved_unlocked: u32)
        requires
            old(self).wf(),
        ensures
            final(self).wf(),
            final(self)@.level_scores.len() == LEVEL_COUNT,
            forall|i: int|
                0 <= i < LEVEL_COUNT ==> #[trigger] final(self)@.level_scores[i] == if i
                    < saved_scores@.len() {
                    max_u64(old(self)@.level_scores[i], saved_scores@[i])
                } else {
                    old(self)@.level_scores[i]
                },
            final(self)@.total_score == sat_sum(final(self)@.level_scores),
            final(self)@.max_unlocked_level == max_u32(
                old(self)@.max_unlocked_level,
                saved_unlocked,
            ),
            final(self)@ == (MachineModel {
                level_scores: final(self)@.level_scores,
                total_score: final(self)@.total_score,
                max_unlocked_level: final(self)@.max_unlocked_level,
                ..old(self)@
            }),
    {
        let mut i: usize = 0;
        while i < self.progression.level_scores.len()
            invariant
                self.wf(),
                self.state == old(self).state,
                self.pause == old(self).pause,
                self.previous == old(self).previous,
                self.cutscene == old(self).cutscene,
                self.progression.current_level == old(self).progression.current_level,
                self.progression.max_unlocked_level == old(self).progression.max_unlocked_level,
                self.progression.selected_character == old(self).progression.selected_character,
                self.progression.is_new_game == old(self).progression.is_new_game,
                self.progression.total_score == old(self).progression.total_score,
                i <= LEVEL_COUNT,
                forall|j: int|
                    0 <= j < LEVEL_COUNT ==> #[trigger] self.progression.level_scores@[j] == if j
                        < i && j < saved_scores@.len() {
                        max_u64(old(self)@.level_scores[j], saved_scores@[j])
                    } else {
                        old(self)@.level_scores[j]
                    },
            decreases LEVEL_COUNT - i,
        {
            if i < saved_scores.len() && saved_scores[i] > self.progression.level_scores[i] {
                self.progression.level_scores.set(i, saved_scores[i]);
            }
            i = i + 1;
        }
        if saved_unlocked > self.progression.max_unlocked_level {
            self.progression.max_unlocked_level = saved_unlocked;
        }
        self.progression.total_score = total_of(&self.progression.level_scores);
    }
}

} // verus!
