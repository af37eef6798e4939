//! The walkthrough: a fixed sequence of steps that leads a new player
//! through one played card and one enemy turn on an engine of its own.

use crate::card::{Card, CardView};
use crate::engine::CoreGameState;
use crate::guide;
use crate::random::RandomSource;
use crate::rules::{mountain_sentinel, opening_engine, EngineView};
use crate::saturation::sub_floored;
use vstd::prelude::*;
use vstd::string::*;

verus! {

/// The step at which the walkthrough is over.
pub const LAST_STEP: usize = 7;

/// A walkthrough in progress.
pub struct TutorialState {
    step: usize,
    core_game: CoreGameState,
    enemy_health_before: u32,
    player_health_before: u32,
    card_played: Option<Card>,
    enemy_damage_dealt: u32,
    player_damage_taken: u32,
    enemy_turn_damage: u32,
    play_result: String,
}

/// The mathematical value of a walkthrough: its step, its engine, and what
/// it has captured of the engine along the way.
pub struct TutorialView {
    pub step: usize,
    pub game: EngineView,
    pub enemy_health_before: u32,
    pub player_health_before: u32,
    pub card_played: Option<CardView>,
    pub enemy_damage_dealt: u32,
    pub player_damage_taken: u32,
    pub enemy_turn_damage: u32,
    pub play_result: Seq<char>,
}

/// The value of a card that may be absent.
pub open spec fn card_view(card: Option<Card>) -> Option<CardView> {
    match card {
        Some(card) => Some(card@),
        None => None,
    }
}

/// The walkthrough as it begins: step 0 on a new game, with nothing
/// captured but the health of both sides. `taunt` is what the enemy declared
/// as the game began.
pub open spec fn opening_walkthrough(taunt: Seq<char>) -> TutorialView {
    TutorialView {
        step: 0,
        game: opening_engine(taunt),
        enemy_health_before: opening_engine(taunt).enemy.health,
        player_health_before: opening_engine(taunt).player.health,
        card_played: None,
        enemy_damage_dealt: 0,
        player_damage_taken: 0,
        enemy_turn_damage: 0,
        play_result: Seq::empty(),
    }
}

impl View for TutorialState {
    type V = TutorialView;

    closed spec fn view(&self) -> TutorialView {
        TutorialView {
            step: self.step,
            game: self.core_game@,
            enemy_health_before: self.enemy_health_before,
            player_health_before: self.player_health_before,
            card_played: card_view(self.card_played),
            enemy_damage_dealt: self.enemy_damage_dealt,
            player_damage_taken: self.player_damage_taken,
            enemy_turn_damage: self.enemy_turn_damage,
            play_result: self.play_result@,
        }
    }
}

impl TutorialView {
    /// What every walkthrough keeps to: until the first card is played
    /// there is a card to play, and the summary of the play has a card to
    /// speak of. The constructors establish it and every method keeps it.
    pub open spec fn well_formed(self) -> bool {
        &&& self.step <= 2 ==> self.game.player.hand.len() > 0
        &&& self.step == 3 ==> self.card_played is Some
    }

    /// Whether the walkthrough is over.
    pub open spec fn complete(self) -> bool {
        self.step >= LAST_STEP
    }

    /// The remark on the damage that the played card's defense kept off
    /// the player; empty where it kept none off.
    pub open spec fn block_note(self) -> Seq<char> {
        if self.player_damage_taken < self.game.enemy.attack {
            guide::blocked_note_text(
                (self.game.enemy.attack - self.player_damage_taken) as u32,
                self.card_played->0.name,
            )
        } else {
            Seq::empty()
        }
    }

    /// The instruction of the current step.
    pub open spec fn instruction(self) -> Seq<char> {
        if self.step == 0 {
            guide::welcome_text()
        } else if self.step == 1 {
            guide::hand_lesson_text()
        } else if self.step == 2 {
            guide::play_lesson_text()
        } else if self.step == 3 {
            guide::battle_summary_text(
                self.card_played->0.name,
                self.card_played->0.attack,
                self.card_played->0.defense,
                self.enemy_health_before,
                self.game.enemy.health,
                self.enemy_damage_dealt,
                self.player_health_before,
                self.game.player.health,
                self.player_damage_taken,
                self.block_note(),
                self.game.player.hand.len() as usize,
                self.game.enemy.attack,
            )
        } else if self.step == 4 {
            guide::enemy_lesson_text()
        } else if self.step == 5 {
            guide::enemy_turn_summary_text(
                self.enemy_turn_damage,
                self.player_health_before,
                self.game.player.health,
            )
        } else if self.step == 6 {
            guide::closing_lesson_text()
        } else {
            guide::completion_text()
        }
    }

    /// Whether `input` is what the current step asks for: "1" at step 2,
    /// the empty line everywhere else.
    pub open spec fn accepts(self, input: Seq<char>) -> bool {
        if self.step == 2 {
            input == seq!['1']
        } else {
            input.len() == 0
        }
    }

    /// The answer to an input that the current step does not accept.
    pub open spec fn correction(self) -> Seq<char> {
        if self.step == 2 {
            guide::play_correction_text()
        } else {
            guide::enter_correction_text()
        }
    }

    /// The walkthrough one step on, with nothing else changed.
    pub open spec fn advanced(self) -> TutorialView {
        TutorialView {
            step: if self.step < usize::MAX {
                (self.step + 1) as usize
            } else {
                self.step
            },
            ..self
        }
    }

    /// How `post` may come from this walkthrough by the play of step 2: the
    /// first card of the hand is played through the engine, and the
    /// walkthrough keeps the card, the health of both sides before the
    /// play, the damage dealt and taken, and what the engine said.
    pub open spec fn first_card_played(self, post: TutorialView) -> bool {
        &&& post.step == 3
        &&& match self.game.play_refusal(0) {
            Some(refusal) => post.game == self.game && post.play_result == refusal,
            None => self.game.card_played(0, post.game, post.play_result),
        }
        &&& post.enemy_health_before == self.game.enemy.health
        &&& post.player_health_before == self.game.player.health
        &&& post.card_played == Some(self.game.player.hand[0])
        &&& post.enemy_damage_dealt == sub_floored(self.game.enemy.health, post.game.enemy.health)
        &&& post.player_damage_taken == sub_floored(
            self.game.player.health,
            post.game.player.health,
        )
        &&& post.enemy_turn_damage == self.enemy_turn_damage
    }

    /// How `post` may come from this walkthrough by the enemy's turn of
    /// step 4: the engine takes the enemy's turn, and the walkthrough keeps
    /// the player's health before it and the damage it did.
    pub open spec fn enemy_turn_shown(self, post: TutorialView) -> bool {
        &&& post.step == 5
        &&& self.game.enemy_turn_taken(post.game)
        &&& post.player_health_before == self.game.player.health
        &&& post.enemy_turn_damage == sub_floored(
            self.game.player.health,
            post.game.player.health,
        )
        &&& post.enemy_health_before == self.enemy_health_before
        &&& post.card_played == self.card_played
        &&& post.enemy_damage_dealt == self.enemy_damage_dealt
        &&& post.player_damage_taken == self.player_damage_taken
        &&& post.play_result == self.play_result
    }

    /// How `post` and the answer may come from this walkthrough by one
    /// input. An input that the step does not accept changes nothing and is
    /// answered with the step's correction. An accepted input advances the
    /// walkthrough by one step; at step 2 it first plays the first card, at
    /// step 4 it first takes the enemy's turn, whose damage the answer
    /// reports; every other answer is empty.
    pub open spec fn input_handled(
        self,
        input: Seq<char>,
        post: TutorialView,
        answer: Seq<char>,
    ) -> bool {
        if !self.accepts(input) {
            post == self && answer == self.correction()
        } else if self.step == 2 {
            self.first_card_played(post) && answer == Seq::<char>::empty()
        } else if self.step == 4 {
            self.enemy_turn_shown(post) && answer == guide::enemy_attack_response_text(
                post.enemy_turn_damage,
            )
        } else {
            post == self.advanced() && answer == Seq::<char>::empty()
        }
    }
}

impl TutorialState {
    /// Whether the walkthrough is over.
    pub fn is_complete(&self) -> (complete: bool)
        ensures
            complete == self@.complete(),
    {
        self.step >= LAST_STEP
    }

    /// A walkthrough on a new game whose chance is seeded by the operating
    /// system.
    pub fn new() -> (tutorial: Self)
        ensures
            tutorial@.well_formed(),
            exists|taunt: Seq<char>| #[trigger]
                mountain_sentinel().may_taunt(taunt) && tutorial@ == opening_walkthrough(taunt),
    {
        Self::with_source(RandomSource::from_os())
    }

    /// A walkthrough on a new game that draws its chance from `source`.
    pub fn with_source(source: RandomSource) -> (tutorial: Self)
        ensures
            tutorial@.well_formed(),
            exists|taunt: Seq<char>| #[trigger]
                mountain_sentinel().may_taunt(taunt) && tutorial@ == opening_walkthrough(taunt),
    {
        let core_game = CoreGameState::with_source(source);
        let enemy_health_before = core_game.get_enemy_health();
        let player_health_before = core_game.get_player_health();
        TutorialState {
            step: 0,
            core_game,
            enemy_health_before,
            player_health_before,
            card_played: None,
            enemy_damage_dealt: 0,
            player_damage_taken: 0,
            enemy_turn_damage: 0,
            play_result: String::new(),
        }
    }

    /// A walkthrough on a new game that `seed` fixes.
    pub fn with_seed(seed: u64) -> (tutorial: Self)
        ensures
            tutorial@.well_formed(),
            exists|taunt: Seq<char>| #[trigger]
                mountain_sentinel().may_taunt(taunt) && tutorial@ == opening_walkthrough(taunt),
    {
        Self::with_source(RandomSource::seeded(seed))
    }

    /// The current step.
    pub fn step(&self) -> (step: usize)
        ensures
            step == self@.step,
    {
        self.step
    }

    /// The engine that the walkthrough runs on.
    pub fn game(&self) -> (game: &CoreGameState)
        ensures
            game@ == self@.game,
    {
        &self.core_game
    }

    /// What the engine said to the play of step 2; empty before that play.
    pub fn play_result(&self) -> (told: &str)
        ensures
            told@ == self@.play_result,
    {
        self.play_result.as_str()
    }

    /// Ends the walkthrough and hands its engine, as the walkthrough left
    /// it, to the caller.
    pub fn into_game(self) -> (game: CoreGameState)
        ensures
            game@ == self@.game,
    {
        self.core_game
    }

    /// Moves on to the next step and returns its instruction. Step 2 is
    /// left out: only the play of the first card leads from it to step 3.
    pub fn next_step(&mut self) -> (instruction: String)
        requires
            old(self)@.well_formed(),
            old(self)@.step != 2,
        ensures
            final(self)@ == old(self)@.advanced(),
            final(self)@.well_formed(),
            instruction@ == final(self)@.instruction(),
    {
        self.step = self.step.saturating_add(1);
        self.get_current_instruction()
    }

    /// The instruction of the current step. Steps 3 and 5 report what the
    /// walkthrough has captured of the engine.
    pub fn get_current_instruction(&self) -> (instruction: String)
        requires
            self@.well_formed(),
        ensures
            instruction@ == self@.instruction(),
    {
        if self.step == 0 {
            guide::welcome()
        } else if self.step == 1 {
            guide::hand_lesson()
        } else if self.step == 2 {
            guide::play_lesson()
        } else if self.step == 3 {
            let card = self.card_played.as_ref().unwrap();
            let enemy_attack = self.core_game.get_enemy_attack();
            let note = if self.player_damage_taken < enemy_attack {
                guide::blocked_note(enemy_attack - self.player_damage_taken, card.name.as_str())
            } else {
                String::new()
            };
            guide::battle_summary(
                card.name.as_str(),
                card.attack,
                card.defense,
                self.enemy_health_before,
                self.core_game.get_enemy_health(),
                self.enemy_damage_dealt,
                self.player_health_before,
                self.core_game.get_player_health(),
                self.player_damage_taken,
                note.as_str(),
                self.core_game.get_hand().len(),
                enemy_attack,
            )
        } else if self.step == 4 {
            guide::enemy_lesson()
        } else if self.step == 5 {
            guide::enemy_turn_summary(
                self.enemy_turn_damage,
                self.player_health_before,
                self.core_game.get_player_health(),
            )
        } else if self.step == 6 {
            guide::closing_lesson()
        } else {
            guide::completion()
        }
    }

    /// Whether the walkthrough keeps to what every walkthrough keeps to. A
    /// walkthrough built and driven through this module always does.
    pub fn is_well_formed(&self) -> (well_formed: bool)
        ensures
            well_formed == self@.well_formed(),
    {
        (self.step > 2 || self.core_game.get_hand().len() > 0) && (self.step != 3
            || self.card_played.is_some())
    }

    /// Whether `input` is what the current step asks for.
    pub fn accepts_input(&self, input: &str) -> (accepted: bool)
        ensures
            accepted == self@.accepts(input@),
    {
        if self.step == 2 {
            let accepted = input.unicode_len() == 1 && input.get_char(0) == '1';
            assert(accepted == (input@ =~= seq!['1']));
            accepted
        } else {
            input.is_empty()
        }
    }

    /// Takes one input of the player. Step 2 accepts "1" alone and plays
    /// the first card of the hand; every other step accepts the empty line
    /// alone, and step 4 then takes the enemy's turn. An accepted input
    /// advances the walkthrough by one step; any other input is answered
    /// with a correction and changes nothing.
    pub fn handle_input(&mut self, input: &str) -> (answer: String)
        requires
            old(self)@.well_formed(),
        ensures
            old(self)@.input_handled(input@, final(self)@, answer@),
            final(self)@.well_formed(),
    {
        if !self.accepts_input(input) {
            if self.step == 2 {
                guide::play_correction()
            } else {
                guide::enter_correction()
            }
        } else if self.step == 2 {
            self.enemy_health_before = self.core_game.get_enemy_health();
            self.player_health_before = self.core_game.get_player_health();
            let first = self.core_game.get_hand()[0].clone();
            self.card_played = Some(first);
            let result = self.core_game.play_card(0);
            self.enemy_damage_dealt = self.enemy_health_before.saturating_sub(
                self.core_game.get_enemy_health(),
            );
            self.player_damage_taken = self.player_health_before.saturating_sub(
                self.core_game.get_player_health(),
            );
            self.play_result = result;
            self.step = 3;
            String::new()
        } else if self.step == 4 {
            self.player_health_before = self.core_game.get_player_health();
            self.core_game.enemy_turn();
            self.enemy_turn_damage = self.player_health_before.saturating_sub(
                self.core_game.get_player_health(),
            );
            self.step = 5;
            guide::enemy_attack_response(self.enemy_turn_damage)
        } else {
            self.step = self.step.saturating_add(1);
            String::new()
        }
    }
}

} // verus!
