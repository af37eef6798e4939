//! The combat engine: one player, one enemy, one log and a turn counter,
//! driven through the rules of combat.

use crate::card::{card_views, Card, CardView, SpecialAbility};
use crate::enemy::Enemy;
use crate::events::{tenth_of_roll, turn_event_of, TurnEvent};
use crate::logger::GameLogger;
use crate::narration;
use crate::player::{
    drew_cards, lemma_drew_none, lemma_drew_one_more, starting_player, PlayError, Player,
};
use crate::random::{next_roll, shuffle_cards, RandomSource};
use crate::report::{refusal_message, CombatReport};
use crate::rules::{
    ability_bonus, drawn_cards, drew_lines, extra_card_lines, hand_card_lines, mountain_sentinel,
    opening_engine, opening_scene, sentinel_taunts, EngineView,
};
use crate::text::{line_views, to_lowercase};
use vstd::prelude::*;
use vstd::string::*;

verus! {

/// A game in progress. The log and the turn counter change through the
/// engine's own operations only.
pub struct CoreGameState {
    pub player: Player,
    pub enemy: Enemy,
    logger: GameLogger,
    turn_counter: u32,
    source: RandomSource,
}

impl View for CoreGameState {
    type V = EngineView;

    closed spec fn view(&self) -> EngineView {
        EngineView {
            player: self.player@,
            enemy: self.enemy@,
            log: self.logger@,
            turn_counter: self.turn_counter,
        }
    }
}

/// The text inside a message that may be absent.
pub open spec fn message_text(message: Option<String>) -> Option<Seq<char>> {
    match message {
        Some(text) => Some(text@),
        None => None,
    }
}

impl CoreGameState {
    /// A new game whose chance is seeded by the operating system.
    pub fn new() -> (engine: Self)
        ensures
            exists|taunt: Seq<char>| #[trigger]
                mountain_sentinel().may_taunt(taunt) && engine@ == opening_engine(taunt),
    {
        Self::with_source(RandomSource::from_os())
    }

    /// A new game that `seed` fixes: the same seed replays the same game.
    pub fn with_seed(seed: u64) -> (engine: Self)
        ensures
            exists|taunt: Seq<char>| #[trigger]
                mountain_sentinel().may_taunt(taunt) && engine@ == opening_engine(taunt),
    {
        Self::with_source(RandomSource::seeded(seed))
    }

    /// A new game that draws its chance from `source`: the Mountain Sentinel
    /// appears and declares one of its taunts, and the player draws the
    /// opening hand of five cards.
    pub fn with_source(source: RandomSource) -> (engine: Self)
        ensures
            exists|taunt: Seq<char>| #[trigger]
                mountain_sentinel().may_taunt(taunt) && engine@ == opening_engine(taunt),
    {
        let mut taunts: Vec<String> = Vec::new();
        taunts.push("Your primitive tactics are no match for my ancient strength!".to_string());
        taunts.push("Prepare to be crushed beneath the weight of these peaks, human!".to_string());
        taunts.push(
            "Your defeat is as certain as the eternal snow on these mountaintops!".to_string(),
        );
        taunts.push("Initiating avalanche protocols...".to_string());
        taunts.push(
            "Your extinction is inevitable. Surrender now and become one with the mountain!"
                .to_string(),
        );
        assert(line_views(taunts@) =~= sentinel_taunts());
        let enemy = Enemy::new("Mountain Sentinel".to_string(), 20, 2, taunts);
        let enemy_stats = narration::enemy_stats_line(
            enemy.name.as_str(),
            enemy.health,
            enemy.attack,
        );

        let mut core_state = CoreGameState {
            player: Player::new(),
            enemy,
            logger: GameLogger::new(),
            turn_counter: 0,
            source,
        };

        core_state.log(narration::opening_air_line());
        core_state.log(narration::opening_landscape_line());
        core_state.log(narration::opening_portal_line(core_state.enemy.name.as_str()));
        core_state.log(narration::opening_rocks_line());
        core_state.log(narration::opening_eyes_line(core_state.enemy.name.as_str()));
        core_state.log(narration::opening_tension_line());
        core_state.log(narration::opening_malice_line(core_state.enemy.name.as_str()));
        core_state.log(enemy_stats);
        core_state.log(narration::opening_declaration_line(core_state.enemy.name.as_str()));
        let declaration = narration::quoted_line(core_state.enemy.taunt(&mut core_state.source));
        let ghost taunt = choose|taunt: Seq<char>|
            mountain_sentinel().may_taunt(taunt) && declaration@ == narration::quoted_line_text(
                taunt,
            );
        core_state.log(declaration);
        core_state.log(narration::opening_battle_line());

        core_state.log(narration::opening_pass_line());
        core_state.log(narration::opening_breath_line());
        core_state.log(narration::opening_spirits_line());

        core_state.log(narration::opening_hand_line());

        let mut i: u32 = 0;
        proof {
            lemma_drew_none(core_state@.player);
        }
        while i < 5
            invariant
                i <= 5,
                drew_cards(starting_player(), core_state@.player, i as nat),
                core_state@.enemy == mountain_sentinel(),
                core_state@.turn_counter == 0,
                core_state@.log == opening_scene(taunt) + hand_card_lines(
                    drawn_cards(starting_player(), core_state@.player),
                ),
            decreases 5 - i,
        {
            let ghost before = core_state@;
            let drawn = core_state.draw_card();
            proof {
                lemma_drew_one_more(
                    starting_player(),
                    before.player,
                    core_state@.player,
                    i as nat,
                );
            }
            if let Some(card) = drawn {
                let lowered = to_lowercase(card.name.as_str());
                core_state.log(
                    narration::hand_card_line(
                        card.name.as_str(),
                        lowered.as_str(),
                        card.attack,
                        card.defense,
                        card.mana_cost,
                    ),
                );
            }
            i += 1;
        }
        proof {
            assert(core_state@.player.hand =~= drawn_cards(
                starting_player(),
                core_state@.player,
            ));
        }
        core_state
    }

    /// The number of the current turn; zero before the first.
    pub fn get_turn_count(&self) -> (turn: u32)
        ensures
            turn == self@.turn_counter,
    {
        self.turn_counter
    }

    /// Begins the next turn and records it in the log.
    pub fn increment_turn(&mut self)
        ensures
            final(self)@ == old(self)@.turn_begun(),
    {
        self.turn_counter = self.turn_counter.saturating_add(1);
        self.log(narration::turn_line(self.turn_counter));
    }

    /// Appends `message` to the log.
    pub fn log(&mut self, message: String)
        ensures
            final(self)@ == old(self)@.logged(message@),
    {
        self.logger.add_entry(message);
    }

    /// The lines of the log, oldest first.
    pub fn get_log(&self) -> (lines: &[String])
        ensures
            line_views(lines@) == self@.log,
    {
        self.logger.get_log()
    }

    /// Records a remark of the user in the log.
    pub fn add_user_comment(&mut self, comment: String)
        ensures
            final(self)@ == old(self)@.logged(narration::comment_line_text(comment@)),
    {
        self.log(narration::comment_line(comment.as_str()));
    }

    /// The cards in the player's hand.
    pub fn get_hand(&self) -> (hand: &[Card])
        ensures
            card_views(hand@) == self@.player.hand,
    {
        self.player.hand.as_slice()
    }

    /// The player's health.
    pub fn get_player_health(&self) -> (health: u32)
        ensures
            health == self@.player.health,
    {
        self.player.health
    }

    /// The enemy's health.
    pub fn get_enemy_health(&self) -> (health: u32)
        ensures
            health == self@.enemy.health,
    {
        self.enemy.health
    }

    /// The enemy's attack.
    pub fn get_enemy_attack(&self) -> (attack: u32)
        ensures
            attack == self@.enemy.attack,
    {
        self.enemy.attack
    }

    /// Draws one card: the top card of the deck moves into the hand. Where
    /// the deck is empty and the discard pile is not, the discard pile is
    /// first shuffled into a new deck. Returns a copy of the card drawn, or
    /// nothing where both piles are empty.
    pub fn draw_card(&mut self) -> (drawn: Option<Card>)
        ensures
            old(self)@.drew(final(self)@, 1),
            match drawn {
                Some(card) => {
                    &&& final(self)@.player.hand.len() == old(self)@.player.hand.len() + 1
                    &&& card@ == final(self)@.player.hand.last()
                },
                None => {
                    &&& final(self)@.player == old(self)@.player
                    &&& old(self)@.player.deck.len() == 0
                    &&& old(self)@.player.discard_pile.len() == 0
                },
            },
    {
        broadcast use vstd::seq_lib::group_to_multiset_ensures;

        if self.player.deck.is_empty() && !self.player.discard_pile.is_empty() {
            self.player.deck.append(&mut self.player.discard_pile);
            shuffle_cards(&mut self.source, &mut self.player.deck);
        }
        let ghost mid = self@.player;
        let drawn = self.player.draw_top();
        proof {
            let pre = old(self)@.player;
            let post = self@.player;
            let h = pre.hand.len() as int;
            assert(post.hand.take(h) =~= pre.hand);
            if pre.deck.len() > 0 {
                assert(drawn_cards(pre, post) =~= pre.deck.skip(pre.deck.len() - 1).reverse());
            } else if pre.discard_pile.len() > 0 {
                assert(mid.discard_pile =~= Seq::<CardView>::empty());
                assert(pre.discard_pile.len() == pre.discard_pile.to_multiset().len());
                let x = mid.deck.last();
                assert(mid.deck =~= post.deck.push(x));
                assert(drawn_cards(pre, post).skip(0) =~= seq![x]);
                assert(post.deck.to_multiset().add(seq![x].to_multiset())
                    =~= mid.deck.to_multiset());
                assert(drawn_cards(pre, post).take(0) =~= pre.deck.reverse());
            } else {
                assert(post.discard_pile =~= Seq::<CardView>::empty());
                assert(drawn_cards(pre, post).skip(0) =~= Seq::<CardView>::empty());
                assert(post.deck.to_multiset().add(Seq::<CardView>::empty().to_multiset())
                    =~= pre.discard_pile.to_multiset());
            }
        }
        drawn
    }

    /// Applies the turn event `event` and records it in the log.
    pub fn apply_turn_event(&mut self, event: TurnEvent)
        ensures
            old(self)@.turn_event_applied(event, final(self)@),
    {
        match event {
            TurnEvent::Gust => {
                self.log(narration::gust_line());
                self.player.health = self.player.health.saturating_add(1);
                self.enemy.health = self.enemy.health.saturating_add(1);
                self.log(narration::recovery_line());
            },
            TurnEvent::Tremor(damage) => {
                self.log(narration::tremor_line());
                self.player.health = self.player.health.saturating_sub(damage);
                self.enemy.health = self.enemy.health.saturating_sub(damage);
                self.log(narration::tremor_damage_line(damage));
            },
            TurnEvent::ManaSurge => {
                self.log(narration::mana_surge_line());
                self.player.max_mana = self.player.max_mana.saturating_add(1);
                self.player.current_mana = self.player.current_mana.saturating_add(1);
                self.log(narration::mana_gain_line());
            },
            TurnEvent::AncientPower => {
                self.log(narration::ancient_power_line());
                let ghost base = self@;
                match self.draw_card() {
                    Some(card) => {
                        self.log(narration::extra_card_line(card.name.as_str()));
                        assert(extra_card_lines(drawn_cards(old(self)@.player, self@.player))
                            =~= seq![narration::extra_card_line_text(card@.name)]);
                        assert(self@.log =~= base.log + seq![
                            narration::extra_card_line_text(card@.name),
                        ]);
                    },
                    None => {},
                }
            },
            TurnEvent::Calm => {},
        }
    }

    /// Rolls for this round's turn event and applies the one that the roll
    /// falls on: at most one event a round. The damage of a tremor is
    /// rolled for only where the tremor fell.
    pub fn handle_turn_events(&mut self)
        ensures
            exists|event: TurnEvent|
                event.can_be_rolled() && #[trigger] old(self)@.turn_event_applied(
                    event,
                    final(self)@,
                ),
    {
        let roll = next_roll(&mut self.source);
        let raw = if tenth_of_roll(roll) == 1 {
            next_roll(&mut self.source)
        } else {
            0
        };
        let event = turn_event_of(roll, raw);
        self.apply_turn_event(event);
        assert(old(self)@.turn_event_applied(event, self@));
    }

    /// Carries out a card's special ability and returns the damage it adds
    /// to the card's own.
    pub fn handle_special_ability(&mut self, ability: &SpecialAbility) -> (bonus: u32)
        ensures
            old(self)@.ability_applied(*ability, final(self)@),
            bonus == ability_bonus(old(self)@.enemy, *ability),
    {
        match ability {
            SpecialAbility::Heal(amount) => {
                let heal_amount = self.player.health.saturating_add(*amount) - self.player.health;
                self.player.health = self.player.health + heal_amount;
                self.log(narration::healed_line(heal_amount));
                self.log(narration::scoff_line(self.enemy.name.as_str()));
                0
            },
            SpecialAbility::DrawCards(amount) => {
                let mut i: u32 = 0;
                proof {
                    lemma_drew_none(self@.player);
                }
                while i < *amount
                    invariant
                        i <= *amount,
                        drew_cards(old(self)@.player, self@.player, i as nat),
                        self@.enemy == old(self)@.enemy,
                        self@.turn_counter == old(self)@.turn_counter,
                        self@.log == old(self)@.log + drew_lines(
                            drawn_cards(old(self)@.player, self@.player),
                        ),
                    decreases *amount - i,
                {
                    let ghost before = self@;
                    let drawn = self.draw_card();
                    proof {
                        lemma_drew_one_more(
                            old(self)@.player,
                            before.player,
                            self@.player,
                            i as nat,
                        );
                    }
                    if let Some(card) = drawn {
                        self.log(narration::drew_line(card.name.as_str()));
                    }
                    i += 1;
                }
                self.log(narration::draw_taunt_line(self.enemy.name.as_str()));
                0
            },
            SpecialAbility::ApplyPoison(amount) => {
                self.enemy.apply_poison(*amount);
                self.log(narration::poison_applied_line(*amount));
                0
            },
            SpecialAbility::StunEnemy(duration) => {
                self.enemy.apply_stun(*duration);
                self.log(narration::stun_applied_line(*duration));
                0
            },
            SpecialAbility::SummonAvalanche(damage) => {
                let actual_damage = self.enemy.take_damage(*damage);
                self.log(narration::avalanche_line(actual_damage));
                self.log(narration::roar_line(self.enemy.name.as_str()));
                actual_damage
            },
        }
    }

    /// Resolves a played card: its attack hits the enemy, its defense is
    /// added to the player's health, its ability takes effect, and the
    /// enemy, if it still stands, strikes back with its attack less the
    /// card's defense. Returns the numbers of the exchange.
    pub fn resolve_combat(&mut self, card: &Card) -> (report: CombatReport)
        ensures
            old(self)@.combat_resolved(card@, final(self)@),
            report == old(self)@.combat_report(card@, final(self)@),
    {
        let enemy_health_before = self.enemy.health;
        let player_health_before = self.player.health;

        let mut damage_dealt = self.enemy.take_damage(card.attack);
        self.player.health = self.player.health.saturating_add(card.defense);

        if let Some(ability) = &card.special_ability {
            let bonus = self.handle_special_ability(ability);
            damage_dealt = damage_dealt.saturating_add(bonus);
        }

        if self.enemy.health > 0 {
            let damage_taken = self.enemy.attack.saturating_sub(card.defense);
            self.player.health = self.player.health.saturating_sub(damage_taken);
        }

        CombatReport {
            damage_dealt,
            enemy_health_before,
            enemy_health_after: self.enemy.health,
            player_health_before,
            player_health_after: self.player.health,
        }
    }

    /// Resolves a played card as [`CoreGameState::resolve_combat`] does and
    /// returns the summary of the exchange in words.
    pub fn handle_combat(&mut self, card: &Card) -> (summary: String)
        ensures
            old(self)@.combat_resolved(card@, final(self)@),
            summary@ == old(self)@.combat_report(card@, final(self)@).summary_text(),
    {
        self.resolve_combat(card).summary()
    }

    /// Plays the card at `card_index` of the hand. A play that names no
    /// card, or a card that the mana does not cover, changes nothing and is
    /// answered with a fixed message. Otherwise the card is paid for and
    /// resolved, and the narration of the play is logged and returned.
    pub fn play_card(&mut self, card_index: i32) -> (told: String)
        ensures
            match old(self)@.play_refusal(card_index as int) {
                Some(refusal) => told@ == refusal && final(self)@ == old(self)@,
                None => old(self)@.card_played(card_index as int, final(self)@, told@),
            },
    {
        if card_index < 0 || card_index as usize >= self.player.hand.len() {
            return refusal_message(PlayError::IndexOutOfRange);
        }
        match self.player.play_card(card_index as usize) {
            Ok(card) => {
                let result = self.handle_combat(&card);
                let ghost resolved = self@;
                let mut log_message = narration::played_line(
                    card.name.as_str(),
                    card.mana_cost,
                    result.as_str(),
                );
                if self.enemy.health > 0 {
                    let taunt = self.enemy.taunt(&mut self.source);
                    let enemy_reaction = narration::reaction(self.enemy.name.as_str(), taunt);
                    log_message.append(enemy_reaction.as_str());
                } else {
                    let enemy_defeat = narration::defeat_wail(self.enemy.name.as_str());
                    log_message.append(enemy_defeat.as_str());
                }
                self.log(log_message.clone());
                assert(self@.log.drop_last() =~= resolved.log);
                log_message
            },
            Err(error) => refusal_message(error),
        }
    }

    /// The enemy's own part of a round: its poison ticks, and if it still
    /// stands it either sits out a turn of its stun or attacks and taunts.
    /// On every third turn the attack is one stronger.
    pub fn enemy_acts(&mut self)
        ensures
            old(self)@.enemy_acted(final(self)@),
    {
        let poison_damage = self.enemy.take_poison_damage();
        if poison_damage > 0 {
            self.log(narration::poison_damage_line(self.enemy.name.as_str(), poison_damage));
            self.log(narration::hiss_line(self.enemy.name.as_str()));
        }
        if self.enemy.health > 0 {
            if self.enemy.is_stunned() {
                self.log(narration::stunned_line(self.enemy.name.as_str()));
                self.log(narration::growl_line(self.enemy.name.as_str()));
            } else {
                let mut damage = self.enemy.attack;

                if self.turn_counter % 3 == 0 {
                    damage = damage.saturating_add(1);
                    self.log(narration::surge_line(self.enemy.name.as_str()));
                }
                self.player.health = self.player.health.saturating_sub(damage);
                self.log(
                    narration::attack_line(self.enemy.name.as_str(), damage, self.player.health),
                );
                let ghost attacked = self@;
                let taunt = self.enemy.taunt(&mut self.source);
                let ghost said = taunt@;
                let line = narration::taunt_line(self.enemy.name.as_str(), taunt);
                self.log(line);
                assert(old(self)@.enemy.may_taunt(said) && self@ == attacked.logged(
                    narration::taunt_line_text(old(self)@.enemy.name, said),
                ));
            }
        }
    }

    /// The enemy's turn: this round's turn event, then the enemy's own
    /// part.
    pub fn enemy_turn(&mut self)
        ensures
            old(self)@.enemy_turn_taken(final(self)@),
    {
        self.handle_turn_events();
        self.enemy_acts();
    }

    /// Says whether the game is over: lost where the player has no health
    /// left, won where the enemy has none. The engine itself never stops.
    pub fn check_game_over(&self) -> (message: Option<String>)
        ensures
            message_text(message) == self@.game_over(),
    {
        if self.player.health == 0 {
            Some(narration::defeat_message())
        } else if self.enemy.health == 0 {
            Some(narration::victory_message())
        } else {
            None
        }
    }
}

} // verus!
