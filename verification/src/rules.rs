//! The rules of combat, stated over the mathematical value of the engine:
//! what a draw, a turn event, a played card and the enemy's turn make of it,
//! and the laws that follow.

use crate::card::{CardView, SpecialAbility};
use crate::enemy::EnemyView;
use crate::events::TurnEvent;
use crate::narration;
use crate::player::{
    drew_cards, least, lemma_drawing_conserves_cards, lemma_drawn_count, starting_deck,
    starting_player, PlayerView,
};
use crate::report::{refusal_text, CombatReport};
use crate::saturation::{add_capped, sub_floored};
use crate::text::lowercased;
use vstd::prelude::*;

verus! {

/// The mathematical value of an engine. The source of chance is no part of
/// it: the contracts say what holds whatever it gives.
pub struct EngineView {
    pub player: PlayerView,
    pub enemy: EnemyView,
    pub log: Seq<Seq<char>>,
    pub turn_counter: u32,
}

/// The damage that an ability adds to the damage of the card's attack.
pub open spec fn ability_bonus(enemy: EnemyView, ability: SpecialAbility) -> u32 {
    match ability {
        SpecialAbility::SummonAvalanche(damage) => enemy.pierced(damage),
        _ => 0,
    }
}

/// The cards that came into the hand between `pre` and `post`, in the order
/// in which they came.
pub open spec fn drawn_cards(pre: PlayerView, post: PlayerView) -> Seq<CardView> {
    post.hand.skip(pre.hand.len() as int)
}

/// One log line for each card that a turn event brought.
pub open spec fn extra_card_lines(cards: Seq<CardView>) -> Seq<Seq<char>> {
    Seq::new(cards.len(), |i: int| narration::extra_card_line_text(cards[i].name))
}

/// One log line for each card that a card's ability drew.
pub open spec fn drew_lines(cards: Seq<CardView>) -> Seq<Seq<char>> {
    Seq::new(cards.len(), |i: int| narration::drew_line_text(cards[i].name))
}

/// How many cards playing `card` brings into the hand of `player`: as many
/// as its ability draws, or as many as deck and discard pile hold together
/// where that is fewer.
pub open spec fn cards_drawn_by(card: CardView, player: PlayerView) -> nat {
    match card.special_ability {
        Some(SpecialAbility::DrawCards(amount)) => least(
            amount as nat,
            player.deck.len() + player.discard_pile.len(),
        ),
        _ => 0,
    }
}

impl EngineView {
    /// The engine with one more line in its log.
    pub open spec fn logged(self, line: Seq<char>) -> EngineView {
        EngineView { log: self.log.push(line), ..self }
    }

    /// The engine with the player's health set to `health`.
    pub open spec fn with_player_health(self, health: u32) -> EngineView {
        EngineView { player: PlayerView { health, ..self.player }, ..self }
    }

    /// The engine as the next turn begins: the turn counter is one higher,
    /// and the log says so.
    pub open spec fn turn_begun(self) -> EngineView {
        let turn = add_capped(self.turn_counter, 1);
        (EngineView { turn_counter: turn, ..self }).logged(narration::turn_line_text(turn))
    }

    /// The engine after `number` draws: the relation of
    /// [`drew_cards`] on the player, everything else as it was.
    pub open spec fn drew(self, post: EngineView, number: nat) -> bool {
        &&& drew_cards(self.player, post.player, number)
        &&& post.enemy == self.enemy
        &&& post.log == self.log
        &&& post.turn_counter == self.turn_counter
    }

    /// How `post` may come from this engine by the turn event `event`.
    /// Every event but the extra draw fixes `post`; the extra draw fixes it
    /// but for the order that a reshuffle gives the new deck.
    pub open spec fn turn_event_applied(self, event: TurnEvent, post: EngineView) -> bool {
        match event {
            TurnEvent::Gust => post == (EngineView {
                player: PlayerView { health: add_capped(self.player.health, 1), ..self.player },
                enemy: EnemyView { health: add_capped(self.enemy.health, 1), ..self.enemy },
                log: self.log.push(narration::gust_line_text()).push(
                    narration::recovery_line_text(),
                ),
                ..self
            }),
            TurnEvent::Tremor(damage) => post == (EngineView {
                player: PlayerView {
                    health: sub_floored(self.player.health, damage),
                    ..self.player
                },
                enemy: EnemyView { health: sub_floored(self.enemy.health, damage), ..self.enemy },
                log: self.log.push(narration::tremor_line_text()).push(
                    narration::tremor_damage_line_text(damage),
                ),
                ..self
            }),
            TurnEvent::ManaSurge => post == (EngineView {
                player: PlayerView {
                    max_mana: add_capped(self.player.max_mana, 1),
                    current_mana: add_capped(self.player.current_mana, 1),
                    ..self.player
                },
                log: self.log.push(narration::mana_surge_line_text()).push(
                    narration::mana_gain_line_text(),
                ),
                ..self
            }),
            TurnEvent::AncientPower => {
                &&& drew_cards(self.player, post.player, 1)
                &&& post.enemy == self.enemy
                &&& post.turn_counter == self.turn_counter
                &&& post.log == self.log.push(narration::ancient_power_line_text())
                    + extra_card_lines(drawn_cards(self.player, post.player))
            },
            TurnEvent::Calm => post == self,
        }
    }

    /// How `post` may come from this engine by a card's special ability.
    /// Drawing is fixed but for the order that a reshuffle gives the new
    /// deck; every other ability fixes `post`.
    pub open spec fn ability_applied(self, ability: SpecialAbility, post: EngineView) -> bool {
        match ability {
            SpecialAbility::Heal(amount) => post == (EngineView {
                player: PlayerView {
                    health: add_capped(self.player.health, amount),
                    ..self.player
                },
                log: self.log.push(
                    narration::healed_line_text(
                        (add_capped(self.player.health, amount) - self.player.health) as u32,
                    ),
                ).push(narration::scoff_line_text(self.enemy.name)),
                ..self
            }),
            SpecialAbility::DrawCards(amount) => {
                &&& drew_cards(self.player, post.player, amount as nat)
                &&& post.enemy == self.enemy
                &&& post.turn_counter == self.turn_counter
                &&& post.log == (self.log + drew_lines(drawn_cards(self.player, post.player))).push(
                    narration::draw_taunt_line_text(self.enemy.name),
                )
            },
            SpecialAbility::ApplyPoison(amount) => post == (EngineView {
                enemy: self.enemy.poisoned(amount),
                log: self.log.push(narration::poison_applied_line_text(amount)),
                ..self
            }),
            SpecialAbility::StunEnemy(duration) => post == (EngineView {
                enemy: self.enemy.stunned_for(duration),
                log: self.log.push(narration::stun_applied_line_text(duration)),
                ..self
            }),
            SpecialAbility::SummonAvalanche(damage) => post == (EngineView {
                enemy: self.enemy.damaged(damage),
                log: self.log.push(
                    narration::avalanche_line_text(self.enemy.pierced(damage)),
                ).push(narration::roar_line_text(self.enemy.name)),
                ..self
            }),
        }
    }

    /// The engine after a card's attack has hit the enemy and its defense
    /// has been added to the player's health.
    pub open spec fn struck(self, card: CardView) -> EngineView {
        EngineView {
            player: PlayerView {
                health: add_capped(self.player.health, card.defense),
                ..self.player
            },
            enemy: self.enemy.damaged(card.attack),
            ..self
        }
    }

    /// The damage of the enemy's counterattack against a card of the given
    /// defense: the attack less the defense, and nothing from an enemy that
    /// is down.
    pub open spec fn counter_damage(self, defense: u32) -> u32 {
        if self.enemy.health > 0 {
            sub_floored(self.enemy.attack, defense)
        } else {
            0
        }
    }

    /// The engine after the enemy's counterattack.
    pub open spec fn struck_back(self, defense: u32) -> EngineView {
        self.with_player_health(sub_floored(self.player.health, self.counter_damage(defense)))
    }

    /// The damage that playing `card` deals: what its attack gets past the
    /// shield, and what its ability adds.
    pub open spec fn damage_dealt(self, card: CardView) -> u32 {
        match card.special_ability {
            Some(ability) => add_capped(
                self.enemy.pierced(card.attack),
                ability_bonus(self.struck(card).enemy, ability),
            ),
            None => self.enemy.pierced(card.attack),
        }
    }

    /// The player's health once `card` has struck and its ability is done,
    /// before the enemy strikes back.
    pub open spec fn health_before_counter(self, card: CardView) -> u32 {
        match card.special_ability {
            Some(SpecialAbility::Heal(amount)) => add_capped(
                self.struck(card).player.health,
                amount,
            ),
            _ => self.struck(card).player.health,
        }
    }

    /// How `post` may come from this engine by resolving `card`: the card
    /// strikes, its ability takes effect, the enemy strikes back if it still
    /// stands. The counterattack changes the player's health alone, so the
    /// engine before it is `post` with the health that the player had then.
    pub open spec fn combat_resolved(self, card: CardView, post: EngineView) -> bool {
        let before_counter = post.with_player_health(self.health_before_counter(card));
        &&& match card.special_ability {
            Some(ability) => self.struck(card).ability_applied(ability, before_counter),
            None => before_counter == self.struck(card),
        }
        &&& post == before_counter.struck_back(card.defense)
    }

    /// The report of resolving `card`, given the engine that came of it.
    pub open spec fn combat_report(self, card: CardView, post: EngineView) -> CombatReport {
        CombatReport {
            damage_dealt: self.damage_dealt(card),
            enemy_health_before: self.enemy.health,
            enemy_health_after: post.enemy.health,
            player_health_before: self.player.health,
            player_health_after: post.player.health,
        }
    }

    /// The message that refuses a play of the card at `index`, where the
    /// play is refused.
    pub open spec fn play_refusal(self, index: int) -> Option<Seq<char>> {
        match self.player.play_error(index) {
            Some(error) => Some(refusal_text(error)),
            None => None,
        }
    }

    /// The engine once the card at `index` has left the hand and is paid
    /// for.
    pub open spec fn paid(self, index: int) -> EngineView {
        EngineView { player: self.player.played(index), ..self }
    }

    /// How `post` and the narration handed back may come from this engine by
    /// a play of the card at `index` that is not refused: the card is paid
    /// for and resolved, and the narration, which names the card, its cost
    /// and the combat summary and ends with the enemy's reaction, is the
    /// newest line of the log.
    pub open spec fn card_played(self, index: int, post: EngineView, told: Seq<char>) -> bool {
        let card = self.player.hand[index];
        let resolved = EngineView { log: post.log.drop_last(), ..post };
        let head = narration::played_line_text(
            card.name,
            card.mana_cost,
            self.paid(index).combat_report(card, post).summary_text(),
        );
        &&& post.log.len() > 0
        &&& post.log.last() == told
        &&& self.paid(index).combat_resolved(card, resolved)
        &&& if post.enemy.health > 0 {
            exists|taunt: Seq<char>| #[trigger]
                post.enemy.may_taunt(taunt) && told == head + narration::reaction_text(
                    post.enemy.name,
                    taunt,
                )
        } else {
            told == head + narration::defeat_wail_text(post.enemy.name)
        }
    }

    /// The engine after one tick of the enemy's poison, which is logged
    /// where it deals damage.
    pub open spec fn poison_resolved(self) -> EngineView {
        let ticked = EngineView { enemy: self.enemy.poison_ticked(), ..self };
        if self.enemy.poison > 0 {
            ticked.logged(
                narration::poison_damage_line_text(self.enemy.name, self.enemy.poison),
            ).logged(narration::hiss_line_text(self.enemy.name))
        } else {
            ticked
        }
    }

    /// Whether the enemy's attack is one stronger this turn: so it is on
    /// every third turn.
    pub open spec fn power_surges(self) -> bool {
        self.turn_counter % 3 == 0
    }

    /// The damage of the enemy's attack this turn.
    pub open spec fn attack_damage(self) -> u32 {
        if self.power_surges() {
            add_capped(self.enemy.attack, 1)
        } else {
            self.enemy.attack
        }
    }

    /// The engine after the enemy's attack, up to the taunt that follows
    /// it.
    pub open spec fn attacked(self) -> EngineView {
        let health = sub_floored(self.player.health, self.attack_damage());
        let surged = if self.power_surges() {
            self.logged(narration::surge_line_text(self.enemy.name))
        } else {
            self
        };
        surged.with_player_health(health).logged(
            narration::attack_line_text(self.enemy.name, self.attack_damage(), health),
        )
    }

    /// How `post` may come from this engine by the enemy's part of a round:
    /// the poison ticks; an enemy that is down does nothing more; a stunned
    /// enemy uses up one turn of its stun; any other attacks and taunts.
    pub open spec fn enemy_acted(self, post: EngineView) -> bool {
        let ticked = self.poison_resolved();
        let name = self.enemy.name;
        if ticked.enemy.health == 0 {
            post == ticked
        } else if ticked.enemy.stunned > 0 {
            post == (EngineView { enemy: ticked.enemy.stun_checked(), ..ticked }).logged(
                narration::stunned_line_text(name),
            ).logged(narration::growl_line_text(name))
        } else {
            exists|taunt: Seq<char>| #[trigger]
                self.enemy.may_taunt(taunt) && post == ticked.attacked().logged(
                    narration::taunt_line_text(name, taunt),
                )
        }
    }

    /// How `post` may come from this engine by the enemy's turn: one turn
    /// event that a roll can give, then the enemy's own part.
    pub open spec fn enemy_turn_taken(self, post: EngineView) -> bool {
        exists|event: TurnEvent, after_event: EngineView|
            event.can_be_rolled() && #[trigger] self.turn_event_applied(event, after_event)
                && after_event.enemy_acted(post)
    }

    /// The message that ends the game, if it is over: defeat comes before
    /// victory where both sides are down.
    pub open spec fn game_over(self) -> Option<Seq<char>> {
        if self.player.health == 0 {
            Some(narration::defeat_message_text())
        } else if self.enemy.health == 0 {
            Some(narration::victory_message_text())
        } else {
            None
        }
    }
}

/// The taunts of the Mountain Sentinel.
pub open spec fn sentinel_taunts() -> Seq<Seq<char>> {
    seq![
        "Your primitive tactics are no match for my ancient strength!"@,
        "Prepare to be crushed beneath the weight of these peaks, human!"@,
        "Your defeat is as certain as the eternal snow on these mountaintops!"@,
        "Initiating avalanche protocols..."@,
        "Your extinction is inevitable. Surrender now and become one with the mountain!"@,
    ]
}

/// The enemy of every game, as the game begins.
pub open spec fn mountain_sentinel() -> EnemyView {
    EnemyView {
        name: "Mountain Sentinel"@,
        health: 20,
        attack: 2,
        poison: 0,
        taunts: sentinel_taunts(),
        stunned: 0,
        shield: 0,
        rage: 0,
    }
}

/// The opening hand: the five top cards of the starting deck, the topmost
/// first.
pub open spec fn opening_hand() -> Seq<CardView> {
    starting_deck().skip(7).reverse()
}

/// One log line for each card of the opening hand.
pub open spec fn hand_card_lines(cards: Seq<CardView>) -> Seq<Seq<char>> {
    Seq::new(
        cards.len(),
        |i: int|
            narration::hand_card_line_text(
                cards[i].name,
                lowercased(cards[i].name),
                cards[i].attack,
                cards[i].defense,
                cards[i].mana_cost,
            ),
    )
}

/// The opening scene, up to the cards of the opening hand. `taunt` is what
/// the enemy declares.
pub open spec fn opening_scene(taunt: Seq<char>) -> Seq<Seq<char>> {
    let enemy = mountain_sentinel();
    seq![
        narration::opening_air_line_text(),
        narration::opening_landscape_line_text(),
        narration::opening_portal_line_text(enemy.name),
        narration::opening_rocks_line_text(),
        narration::opening_eyes_line_text(enemy.name),
        narration::opening_tension_line_text(),
        narration::opening_malice_line_text(enemy.name),
        narration::enemy_stats_line_text(enemy.name, enemy.health, enemy.attack),
        narration::opening_declaration_line_text(enemy.name),
        narration::quoted_line_text(taunt),
        narration::opening_battle_line_text(),
        narration::opening_pass_line_text(),
        narration::opening_breath_line_text(),
        narration::opening_spirits_line_text(),
        narration::opening_hand_line_text(),
    ]
}

/// The engine as a game begins: the Mountain Sentinel, the player with the
/// opening hand drawn, the opening scene in the log, no turn begun.
pub open spec fn opening_engine(taunt: Seq<char>) -> EngineView {
    EngineView {
        player: PlayerView {
            deck: starting_deck().take(7),
            hand: opening_hand(),
            ..starting_player()
        },
        enemy: mountain_sentinel(),
        log: opening_scene(taunt) + hand_card_lines(opening_hand()),
        turn_counter: 0,
    }
}

impl EngineView {
    /// Whether `post` keeps the history of this engine: every line of the
    /// log is still there and in its place, with new lines only after them,
    /// the turn counter has not gone back, and the enemy is who it was.
    pub open spec fn history_kept(self, post: EngineView) -> bool {
        &&& self.log.is_prefix_of(post.log)
        &&& self.turn_counter <= post.turn_counter
        &&& post.enemy.name == self.enemy.name
        &&& post.enemy.taunts == self.enemy.taunts
    }
}

/// A turn event keeps the history and neither makes nor loses a card.
pub proof fn lemma_turn_event_keeps_history(pre: EngineView, event: TurnEvent, post: EngineView)
    requires
        pre.turn_event_applied(event, post),
    ensures
        pre.history_kept(post),
        post.turn_counter == pre.turn_counter,
        post.player.card_count() == pre.player.card_count(),
        pre.player.current_mana <= pre.player.max_mana ==> post.player.current_mana
            <= post.player.max_mana,
{
    if event == TurnEvent::AncientPower {
        lemma_drawing_conserves_cards(pre.player, post.player, 1);
    }
}

/// A card's ability keeps the history and neither makes nor loses a card.
pub proof fn lemma_ability_keeps_history(
    pre: EngineView,
    ability: SpecialAbility,
    post: EngineView,
)
    requires
        pre.ability_applied(ability, post),
    ensures
        pre.history_kept(post),
        post.turn_counter == pre.turn_counter,
        post.player.card_count() == pre.player.card_count(),
        post.player.current_mana == pre.player.current_mana,
        post.player.max_mana == pre.player.max_mana,
{
    if let SpecialAbility::DrawCards(amount) = ability {
        lemma_drawing_conserves_cards(pre.player, post.player, amount as nat);
    }
}

/// Resolving a card keeps the history and neither makes nor loses a card.
pub proof fn lemma_combat_keeps_history(pre: EngineView, card: CardView, post: EngineView)
    requires
        pre.combat_resolved(card, post),
    ensures
        pre.history_kept(post),
        post.turn_counter == pre.turn_counter,
        post.player.card_count() == pre.player.card_count(),
        post.player.current_mana == pre.player.current_mana,
        post.player.max_mana == pre.player.max_mana,
{
    let before_counter = post.with_player_health(pre.health_before_counter(card));
    if let Some(ability) = card.special_ability {
        lemma_ability_keeps_history(pre.struck(card), ability, before_counter);
    }
}

/// A play keeps the history, whether it is refused or not, and a play that
/// is not refused takes exactly one card out of the game: the played card
/// goes to no pile.
pub proof fn lemma_play_keeps_history(
    pre: EngineView,
    index: int,
    post: EngineView,
    told: Seq<char>,
)
    requires
        match pre.play_refusal(index) {
            Some(refusal) => told == refusal && post == pre,
            None => pre.card_played(index, post, told),
        },
    ensures
        pre.history_kept(post),
        post.turn_counter == pre.turn_counter,
        pre.play_refusal(index) is Some ==> post.player.card_count() == pre.player.card_count(),
        pre.play_refusal(index) is None ==> post.player.card_count() == pre.player.card_count()
            - 1,
        post.player.max_mana == pre.player.max_mana,
        post.player.current_mana <= pre.player.current_mana,
{
    if pre.play_refusal(index) is None {
        let card = pre.player.hand[index];
        let resolved = EngineView { log: post.log.drop_last(), ..post };
        lemma_combat_keeps_history(pre.paid(index), card, resolved);
    }
}

/// The enemy's own part of a round keeps the history, touches no card and
/// no mana.
pub proof fn lemma_enemy_action_keeps_history(pre: EngineView, post: EngineView)
    requires
        pre.enemy_acted(post),
    ensures
        pre.history_kept(post),
        post.turn_counter == pre.turn_counter,
        post.player.deck == pre.player.deck,
        post.player.hand == pre.player.hand,
        post.player.discard_pile == pre.player.discard_pile,
        post.player.current_mana == pre.player.current_mana,
        post.player.max_mana == pre.player.max_mana,
{
}

/// The enemy's turn keeps the history and neither makes nor loses a card.
pub proof fn lemma_enemy_turn_keeps_history(pre: EngineView, post: EngineView)
    requires
        pre.enemy_turn_taken(post),
    ensures
        pre.history_kept(post),
        post.turn_counter == pre.turn_counter,
        post.player.card_count() == pre.player.card_count(),
        pre.player.current_mana <= pre.player.max_mana ==> post.player.current_mana
            <= post.player.max_mana,
{
    let (event, after_event) = choose|event: TurnEvent, after_event: EngineView|
        event.can_be_rolled() && #[trigger] pre.turn_event_applied(event, after_event)
            && after_event.enemy_acted(post);
    lemma_turn_event_keeps_history(pre, event, after_event);
    lemma_enemy_action_keeps_history(after_event, post);
}

/// A play that the mana does not cover takes no card from the hand and no
/// mana. A play that succeeds takes exactly the card's cost from the mana,
/// which therefore never goes below zero, and exactly the played card from
/// the hand; the hand then gains what the card's own ability draws, so that
/// a card that draws nothing leaves the hand one card smaller.
pub proof fn lemma_mana_gate(pre: EngineView, index: int, post: EngineView, told: Seq<char>)
    requires
        0 <= index < pre.player.hand.len(),
        match pre.play_refusal(index) {
            Some(refusal) => told == refusal && post == pre,
            None => pre.card_played(index, post, told),
        },
    ensures
        pre.player.hand[index].mana_cost > pre.player.current_mana ==> {
            &&& post.player.hand == pre.player.hand
            &&& post.player.current_mana == pre.player.current_mana
        },
        pre.player.hand[index].mana_cost <= pre.player.current_mana ==> {
            &&& post.player.current_mana == pre.player.current_mana
                - pre.player.hand[index].mana_cost
            &&& post.player.hand.len() == pre.player.hand.len() - 1 + cards_drawn_by(
                pre.player.hand[index],
                pre.player,
            )
            &&& cards_drawn_by(pre.player.hand[index], pre.player) == 0 ==> post.player.hand.len()
                == pre.player.hand.len() - 1
        },
{
    let card = pre.player.hand[index];
    if card.mana_cost <= pre.player.current_mana {
        let paid = pre.paid(index);
        let resolved = EngineView { log: post.log.drop_last(), ..post };
        let before_counter = resolved.with_player_health(paid.health_before_counter(card));
        if let Some(SpecialAbility::DrawCards(amount)) = card.special_ability {
            lemma_drawn_count(paid.struck(card).player, before_counter.player, amount as nat);
        }
    }
}

/// However strong the enemy's blow, the player's health never goes below
/// zero: the counterattack takes the enemy's attack less the card's
/// defense, the enemy's own attack takes its damage, a tremor takes its
/// strength, each as far as there is health to take and no further.
pub proof fn lemma_player_health_saturates(pre: EngineView, defense: u32, damage: u32)
    ensures
        pre.struck_back(defense).player.health == if pre.player.health > pre.counter_damage(
            defense,
        ) {
            pre.player.health - pre.counter_damage(defense)
        } else {
            0
        },
        pre.counter_damage(defense) <= pre.enemy.attack,
        pre.attacked().player.health == if pre.player.health > pre.attack_damage() {
            pre.player.health - pre.attack_damage()
        } else {
            0
        },
        forall|post: EngineView| #[trigger]
            pre.turn_event_applied(TurnEvent::Tremor(damage), post) ==> {
                &&& post.player.health == if pre.player.health > damage {
                    pre.player.health - damage
                } else {
                    0
                }
                &&& post.enemy.health == if pre.enemy.health > damage {
                    pre.enemy.health - damage
                } else {
                    0
                }
            },
{
}

} // verus!
