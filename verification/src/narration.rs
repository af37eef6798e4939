//! The prose of the game: every line that enters the log or is handed back
//! to the caller, as a text over the numbers and names it reports. The
//! engine decides what happened; these functions only word it.

use crate::text::{append_decimal, decimal};
use vstd::prelude::*;
use vstd::string::*;

verus! {

/// The text of [`gust_line`].
pub open spec fn gust_line_text() -> Seq<char> {
    "A sudden gust of wind sweeps across the battlefield!"@
}

/// A turn event: wind over the battlefield.
pub fn gust_line() -> (line: String)
    ensures
        line@ == gust_line_text(),
{
    "A sudden gust of wind sweeps across the battlefield!".to_string()
}

/// The text of [`recovery_line`].
pub open spec fn recovery_line_text() -> Seq<char> {
    "Both you and the enemy recover 1 health."@
}

/// What the gust of wind does.
pub fn recovery_line() -> (line: String)
    ensures
        line@ == recovery_line_text(),
{
    "Both you and the enemy recover 1 health.".to_string()
}

/// The text of [`tremor_line`].
pub open spec fn tremor_line_text() -> Seq<char> {
    "The ground trembles beneath your feet!"@
}

/// A turn event: the ground shakes.
pub fn tremor_line() -> (line: String)
    ensures
        line@ == tremor_line_text(),
{
    "The ground trembles beneath your feet!".to_string()
}

/// The text of [`tremor_damage_line`].
pub open spec fn tremor_damage_line_text(damage: u32) -> Seq<char> {
    "Both you and the enemy take "@ + decimal(damage as nat) + " damage."@
}

/// What the tremor does to both sides.
pub fn tremor_damage_line(damage: u32) -> (line: String)
    ensures
        line@ == tremor_damage_line_text(damage),
{
    let mut line = "Both you and the enemy take ".to_string();
    append_decimal(&mut line, damage as u64);
    line.append(" damage.");
    line
}

/// The text of [`mana_surge_line`].
pub open spec fn mana_surge_line_text() -> Seq<char> {
    "A mysterious energy fills the air..."@
}

/// A turn event: energy in the air.
pub fn mana_surge_line() -> (line: String)
    ensures
        line@ == mana_surge_line_text(),
{
    "A mysterious energy fills the air...".to_string()
}

/// The text of [`mana_gain_line`].
pub open spec fn mana_gain_line_text() -> Seq<char> {
    "Your maximum mana increases by 1!"@
}

/// What the mysterious energy does.
pub fn mana_gain_line() -> (line: String)
    ensures
        line@ == mana_gain_line_text(),
{
    "Your maximum mana increases by 1!".to_string()
}

/// The text of [`ancient_power_line`].
pub open spec fn ancient_power_line_text() -> Seq<char> {
    "The mountain's ancient power surges through you!"@
}

/// A turn event: the mountain lends its power.
pub fn ancient_power_line() -> (line: String)
    ensures
        line@ == ancient_power_line_text(),
{
    "The mountain's ancient power surges through you!".to_string()
}

/// The text of [`extra_card_line`].
pub open spec fn extra_card_line_text(card: Seq<char>) -> Seq<char> {
    "You draw an extra card: "@ + card
}

/// The card that the mountain's power brought.
pub fn extra_card_line(card: &str) -> (line: String)
    ensures
        line@ == extra_card_line_text(card@),
{
    let mut line = "You draw an extra card: ".to_string();
    line.append(card);
    line
}

/// The text of [`turn_line`].
pub open spec fn turn_line_text(turn: u32) -> Seq<char> {
    "Turn "@ + decimal(turn as nat) + " begins"@
}

/// The start of turn `turn`.
pub fn turn_line(turn: u32) -> (line: String)
    ensures
        line@ == turn_line_text(turn),
{
    let mut line = "Turn ".to_string();
    append_decimal(&mut line, turn as u64);
    line.append(" begins");
    line
}

/// The text of [`comment_line`].
pub open spec fn comment_line_text(comment: Seq<char>) -> Seq<char> {
    "User comment: "@ + comment
}

/// A remark of the user, as it enters the log.
pub fn comment_line(comment: &str) -> (line: String)
    ensures
        line@ == comment_line_text(comment@),
{
    let mut line = "User comment: ".to_string();
    line.append(comment);
    line
}

/// The text of [`defeat_message`].
pub open spec fn defeat_message_text() -> Seq<char> {
    "Game Over: You have been defeated!"@
}

/// The game is lost.
pub fn defeat_message() -> (line: String)
    ensures
        line@ == defeat_message_text(),
{
    "Game Over: You have been defeated!".to_string()
}

/// The text of [`victory_message`].
pub open spec fn victory_message_text() -> Seq<char> {
    "Congratulations! You have defeated the enemy!"@
}

/// The game is won.
pub fn victory_message() -> (line: String)
    ensures
        line@ == victory_message_text(),
{
    "Congratulations! You have defeated the enemy!".to_string()
}

/// The text of [`combat_summary`].
pub open spec fn combat_summary_text(
    dealt: u32,
    enemy_before: u32,
    enemy_after: u32,
    player_before: u32,
    player_after: u32,
) -> Seq<char> {
    "You dealt "@
        + decimal(dealt as nat)
        + " damage. Enemy health: "@
        + decimal(enemy_before as nat)
        + " -> "@
        + decimal(enemy_after as nat)
        + ". Your health: "@
        + decimal(player_before as nat)
        + " -> "@
        + decimal(player_after as nat)
        + "."@
}

/// The outcome of one resolved card: the damage dealt, and the health of both
/// sides before and after.
pub fn combat_summary(
    dealt: u32,
    enemy_before: u32,
    enemy_after: u32,
    player_before: u32,
    player_after: u32,
) -> (line: String)
    ensures
        line@ == combat_summary_text(dealt, enemy_before, enemy_after, player_before, player_after),
{
    let mut line = "You dealt ".to_string();
    append_decimal(&mut line, dealt as u64);
    line.append(" damage. Enemy health: ");
    append_decimal(&mut line, enemy_before as u64);
    line.append(" -> ");
    append_decimal(&mut line, enemy_after as u64);
    line.append(". Your health: ");
    append_decimal(&mut line, player_before as u64);
    line.append(" -> ");
    append_decimal(&mut line, player_after as u64);
    line.append(".");
    line
}

/// The text of [`healed_line`].
pub open spec fn healed_line_text(amount: u32) -> Seq<char> {
    "Player healed for "@ + decimal(amount as nat) + " health"@
}

/// How much health a healing card gave.
pub fn healed_line(amount: u32) -> (line: String)
    ensures
        line@ == healed_line_text(amount),
{
    let mut line = "Player healed for ".to_string();
    append_decimal(&mut line, amount as u64);
    line.append(" health");
    line
}

/// The text of [`scoff_line`].
pub open spec fn scoff_line_text(enemy: Seq<char>) -> Seq<char> {
    enemy + " scoffs: \"Your pitiful healing won't save you!\""@
}

/// The enemy's answer to healing.
pub fn scoff_line(enemy: &str) -> (line: String)
    ensures
        line@ == scoff_line_text(enemy@),
{
    let mut line = enemy.to_string();
    line.append(" scoffs: \"Your pitiful healing won't save you!\"");
    line
}

/// The text of [`drew_line`].
pub open spec fn drew_line_text(card: Seq<char>) -> Seq<char> {
    "Player drew: "@ + card
}

/// A card drawn by a card's ability.
pub fn drew_line(card: &str) -> (line: String)
    ensures
        line@ == drew_line_text(card@),
{
    let mut line = "Player drew: ".to_string();
    line.append(card);
    line
}

/// The text of [`draw_taunt_line`].
pub open spec fn draw_taunt_line_text(enemy: Seq<char>) -> Seq<char> {
    enemy + " taunts: \"Draw all you want, it won't change your fate!\""@
}

/// The enemy's answer to drawing.
pub fn draw_taunt_line(enemy: &str) -> (line: String)
    ensures
        line@ == draw_taunt_line_text(enemy@),
{
    let mut line = enemy.to_string();
    line.append(" taunts: \"Draw all you want, it won't change your fate!\"");
    line
}

/// The text of [`poison_applied_line`].
pub open spec fn poison_applied_line_text(amount: u32) -> Seq<char> {
    "Applied "@ + decimal(amount as nat) + " poison to the enemy"@
}

/// Poison put on the enemy.
pub fn poison_applied_line(amount: u32) -> (line: String)
    ensures
        line@ == poison_applied_line_text(amount),
{
    let mut line = "Applied ".to_string();
    append_decimal(&mut line, amount as u64);
    line.append(" poison to the enemy");
    line
}

/// The text of [`stun_applied_line`].
pub open spec fn stun_applied_line_text(duration: u32) -> Seq<char> {
    "Stunned the enemy for "@ + decimal(duration as nat) + " turns"@
}

/// A stun put on the enemy.
pub fn stun_applied_line(duration: u32) -> (line: String)
    ensures
        line@ == stun_applied_line_text(duration),
{
    let mut line = "Stunned the enemy for ".to_string();
    append_decimal(&mut line, duration as u64);
    line.append(" turns");
    line
}

/// The text of [`avalanche_line`].
pub open spec fn avalanche_line_text(damage: u32) -> Seq<char> {
    "You summon an avalanche, dealing "@ + decimal(damage as nat) + " damage to the enemy!"@
}

/// The damage of a summoned avalanche.
pub fn avalanche_line(damage: u32) -> (line: String)
    ensures
        line@ == avalanche_line_text(damage),
{
    let mut line = "You summon an avalanche, dealing ".to_string();
    append_decimal(&mut line, damage as u64);
    line.append(" damage to the enemy!");
    line
}

/// The text of [`roar_line`].
pub open spec fn roar_line_text(enemy: Seq<char>) -> Seq<char> {
    enemy
        + " roars: \"Your pathetic avalanche is nothing compared to my mountain-forged armor!\""@
}

/// The enemy's answer to the avalanche.
pub fn roar_line(enemy: &str) -> (line: String)
    ensures
        line@ == roar_line_text(enemy@),
{
    let mut line = enemy.to_string();
    line.append(
        " roars: \"Your pathetic avalanche is nothing compared to my mountain-forged armor!\"",
    );
    line
}

/// The text of [`invalid_index_message`].
pub open spec fn invalid_index_message_text() -> Seq<char> {
    "Invalid card index"@
}

/// The answer to a play with an index that names no card.
pub fn invalid_index_message() -> (line: String)
    ensures
        line@ == invalid_index_message_text(),
{
    "Invalid card index".to_string()
}

/// The text of [`no_mana_message`].
pub open spec fn no_mana_message_text() -> Seq<char> {
    "Not enough mana to play this card"@
}

/// The answer to a play that the mana does not cover.
pub fn no_mana_message() -> (line: String)
    ensures
        line@ == no_mana_message_text(),
{
    "Not enough mana to play this card".to_string()
}

/// The text of [`played_line`].
pub open spec fn played_line_text(card: Seq<char>, cost: u32, summary: Seq<char>) -> Seq<char> {
    "Played card: "@ + card + " (Mana cost: "@ + decimal(cost as nat) + "). "@ + summary
}

/// The head of a play's narration: the card, its cost and the combat summary.
pub fn played_line(card: &str, cost: u32, summary: &str) -> (line: String)
    ensures
        line@ == played_line_text(card@, cost, summary@),
{
    let mut line = "Played card: ".to_string();
    line.append(card);
    line.append(" (Mana cost: ");
    append_decimal(&mut line, cost as u64);
    line.append("). ");
    line.append(summary);
    line
}

/// The text of [`reaction`].
pub open spec fn reaction_text(enemy: Seq<char>, taunt: Seq<char>) -> Seq<char> {
    "\n"@ + enemy + " reacts: \""@ + taunt + "\""@
}

/// The tail of a play's narration while the enemy lives: a taunt.
pub fn reaction(enemy: &str, taunt: &str) -> (line: String)
    ensures
        line@ == reaction_text(enemy@, taunt@),
{
    let mut line = "\n".to_string();
    line.append(enemy);
    line.append(" reacts: \"");
    line.append(taunt);
    line.append("\"");
    line
}

/// The text of [`defeat_wail`].
pub open spec fn defeat_wail_text(enemy: Seq<char>) -> Seq<char> {
    "\n"@ + enemy + " wails: \"Impossible! I cannot be defeated by a mere human!\""@
}

/// The tail of a play's narration once the enemy is down.
pub fn defeat_wail(enemy: &str) -> (line: String)
    ensures
        line@ == defeat_wail_text(enemy@),
{
    let mut line = "\n".to_string();
    line.append(enemy);
    line.append(" wails: \"Impossible! I cannot be defeated by a mere human!\"");
    line
}

/// The text of [`poison_damage_line`].
pub open spec fn poison_damage_line_text(enemy: Seq<char>, damage: u32) -> Seq<char> {
    enemy + " took "@ + decimal(damage as nat) + " poison damage"@
}

/// The damage of one tick of poison.
pub fn poison_damage_line(enemy: &str, damage: u32) -> (line: String)
    ensures
        line@ == poison_damage_line_text(enemy@, damage),
{
    let mut line = enemy.to_string();
    line.append(" took ");
    append_decimal(&mut line, damage as u64);
    line.append(" poison damage");
    line
}

/// The text of [`poison_cry`].
pub open spec fn poison_cry_text(enemy: Seq<char>) -> Seq<char> {
    enemy + " sizzles: \"Your poison... it burns!\""@
}

/// The enemy's cry as poison burns it. The cry is for the console alone and
/// never enters the log.
pub fn poison_cry(enemy: &str) -> (line: String)
    ensures
        line@ == poison_cry_text(enemy@),
{
    let mut line = enemy.to_string();
    line.append(" sizzles: \"Your poison... it burns!\"");
    line
}

/// The text of [`hiss_line`].
pub open spec fn hiss_line_text(enemy: Seq<char>) -> Seq<char> {
    enemy + " hisses: \"Your toxins are mere annoyances to my superior systems!\""@
}

/// The enemy's answer to poison.
pub fn hiss_line(enemy: &str) -> (line: String)
    ensures
        line@ == hiss_line_text(enemy@),
{
    let mut line = enemy.to_string();
    line.append(" hisses: \"Your toxins are mere annoyances to my superior systems!\"");
    line
}

/// The text of [`stunned_line`].
pub open spec fn stunned_line_text(enemy: Seq<char>) -> Seq<char> {
    enemy + " is stunned and cannot attack!"@
}

/// The enemy misses its attack.
pub fn stunned_line(enemy: &str) -> (line: String)
    ensures
        line@ == stunned_line_text(enemy@),
{
    let mut line = enemy.to_string();
    line.append(" is stunned and cannot attack!");
    line
}

/// The text of [`growl_line`].
pub open spec fn growl_line_text(enemy: Seq<char>) -> Seq<char> {
    enemy + " growls: \"This... delay... changes nothing!\""@
}

/// The enemy's answer to being stunned.
pub fn growl_line(enemy: &str) -> (line: String)
    ensures
        line@ == growl_line_text(enemy@),
{
    let mut line = enemy.to_string();
    line.append(" growls: \"This... delay... changes nothing!\"");
    line
}

/// The text of [`surge_line`].
pub open spec fn surge_line_text(enemy: Seq<char>) -> Seq<char> {
    enemy + " surges with power, increasing its attack!"@
}

/// The enemy's attack is one stronger this turn.
pub fn surge_line(enemy: &str) -> (line: String)
    ensures
        line@ == surge_line_text(enemy@),
{
    let mut line = enemy.to_string();
    line.append(" surges with power, increasing its attack!");
    line
}

/// The text of [`attack_line`].
pub open spec fn attack_line_text(enemy: Seq<char>, damage: u32, health: u32) -> Seq<char> {
    enemy
        + " attacks! You take "@
        + decimal(damage as nat)
        + " damage. Your current health: "@
        + decimal(health as nat)
}

/// The enemy's attack: the damage, and the health it leaves the player.
pub fn attack_line(enemy: &str, damage: u32, health: u32) -> (line: String)
    ensures
        line@ == attack_line_text(enemy@, damage, health),
{
    let mut line = enemy.to_string();
    line.append(" attacks! You take ");
    append_decimal(&mut line, damage as u64);
    line.append(" damage. Your current health: ");
    append_decimal(&mut line, health as u64);
    line
}

/// The text of [`taunt_line`].
pub open spec fn taunt_line_text(enemy: Seq<char>, taunt: Seq<char>) -> Seq<char> {
    enemy + " taunts: \""@ + taunt + "\""@
}

/// A taunt after the enemy's attack.
pub fn taunt_line(enemy: &str, taunt: &str) -> (line: String)
    ensures
        line@ == taunt_line_text(enemy@, taunt@),
{
    let mut line = enemy.to_string();
    line.append(" taunts: \"");
    line.append(taunt);
    line.append("\"");
    line
}

/// The text of [`opening_air_line`].
pub open spec fn opening_air_line_text() -> Seq<char> {
    "The crisp mountain air suddenly turns electric, a surge of cosmic energy rippling through the ancient peaks!"@
}

/// The opening scene, line by line.
pub fn opening_air_line() -> (line: String)
    ensures
        line@ == opening_air_line_text(),
{
    "The crisp mountain air suddenly turns electric, a surge of cosmic energy rippling through the ancient peaks!".to_string()
}

/// The text of [`opening_landscape_line`].
pub open spec fn opening_landscape_line_text() -> Seq<char> {
    "The rugged landscape itself seems to warp and bend as an otherworldly presence begins to materialize..."@
}

/// Part of the opening scene.
pub fn opening_landscape_line() -> (line: String)
    ensures
        line@ == opening_landscape_line_text(),
{
    "The rugged landscape itself seems to warp and bend as an otherworldly presence begins to materialize...".to_string()
}

/// The text of [`opening_portal_line`].
pub open spec fn opening_portal_line_text(enemy: Seq<char>) -> Seq<char> {
    "With a thunderous roar that echoes off the mountain walls, the "@
        + enemy
        + " emerges from a portal torn into the fabric of reality! Its form, a terrifying fusion of advanced alien technology and raw, destructive power, looms against the backdrop of snow-capped summits."@
}

/// Part of the opening scene.
pub fn opening_portal_line(enemy: &str) -> (line: String)
    ensures
        line@ == opening_portal_line_text(enemy@),
{
    let mut line = "With a thunderous roar that echoes off the mountain walls, the ".to_string();
    line.append(enemy);
    line.append(
        " emerges from a portal torn into the fabric of reality! Its form, a terrifying fusion of advanced alien technology and raw, destructive power, looms against the backdrop of snow-capped summits.",
    );
    line
}

/// The text of [`opening_rocks_line`].
pub open spec fn opening_rocks_line_text() -> Seq<char> {
    "Rocks crumble from nearby cliffs, and you feel the weight of impending doom pressing down on you, as heavy as the mountains themselves."@
}

/// Part of the opening scene.
pub fn opening_rocks_line() -> (line: String)
    ensures
        line@ == opening_rocks_line_text(),
{
    "Rocks crumble from nearby cliffs, and you feel the weight of impending doom pressing down on you, as heavy as the mountains themselves.".to_string()
}

/// The text of [`opening_eyes_line`].
pub open spec fn opening_eyes_line_text(enemy: Seq<char>) -> Seq<char> {
    "The "@
        + enemy
        + "'s eyes, glowing with an eerie red light that outshines even the setting sun, scan you coldly. You feel as if your very soul is being analyzed."@
}

/// Part of the opening scene.
pub fn opening_eyes_line(enemy: &str) -> (line: String)
    ensures
        line@ == opening_eyes_line_text(enemy@),
{
    let mut line = "The ".to_string();
    line.append(enemy);
    line.append(
        "'s eyes, glowing with an eerie red light that outshines even the setting sun, scan you coldly. You feel as if your very soul is being analyzed.",
    );
    line
}

/// The text of [`opening_tension_line`].
pub open spec fn opening_tension_line_text() -> Seq<char> {
    "The thin mountain air grows thick with tension, humming with the weight of the coming battle."@
}

/// Part of the opening scene.
pub fn opening_tension_line() -> (line: String)
    ensures
        line@ == opening_tension_line_text(),
{
    "The thin mountain air grows thick with tension, humming with the weight of the coming battle.".to_string()
}

/// The text of [`opening_malice_line`].
pub open spec fn opening_malice_line_text(enemy: Seq<char>) -> Seq<char> {
    enemy
        + "'s cybernetic eyes pulse with an unholy red glow, scanning you with cold, calculated malice that seems to freeze the very air around you."@
}

/// Part of the opening scene.
pub fn opening_malice_line(enemy: &str) -> (line: String)
    ensures
        line@ == opening_malice_line_text(enemy@),
{
    let mut line = enemy.to_string();
    line.append(
        "'s cybernetic eyes pulse with an unholy red glow, scanning you with cold, calculated malice that seems to freeze the very air around you.",
    );
    line
}

/// The text of [`enemy_stats_line`].
pub open spec fn enemy_stats_line_text(enemy: Seq<char>, health: u32, attack: u32) -> Seq<char> {
    "Enemy stats: "@
        + enemy
        + " - Health = "@
        + decimal(health as nat)
        + ", Attack = "@
        + decimal(attack as nat)
}

/// The enemy's name, health and attack.
pub fn enemy_stats_line(enemy: &str, health: u32, attack: u32) -> (line: String)
    ensures
        line@ == enemy_stats_line_text(enemy@, health, attack),
{
    let mut line = "Enemy stats: ".to_string();
    line.append(enemy);
    line.append(" - Health = ");
    append_decimal(&mut line, health as u64);
    line.append(", Attack = ");
    append_decimal(&mut line, attack as u64);
    line
}

/// The text of [`opening_declaration_line`].
pub open spec fn opening_declaration_line_text(enemy: Seq<char>) -> Seq<char> {
    "Standing tall against the mountainous backdrop, "@
        + enemy
        + "'s glowing red eyes fix upon you as it unleashes a chilling declaration:"@
}

/// Part of the opening scene.
pub fn opening_declaration_line(enemy: &str) -> (line: String)
    ensures
        line@ == opening_declaration_line_text(enemy@),
{
    let mut line = "Standing tall against the mountainous backdrop, ".to_string();
    line.append(enemy);
    line.append("'s glowing red eyes fix upon you as it unleashes a chilling declaration:");
    line
}

/// The text of [`quoted_line`].
pub open spec fn quoted_line_text(speech: Seq<char>) -> Seq<char> {
    "\""@ + speech + "\""@
}

/// A line of speech between quotation marks.
pub fn quoted_line(speech: &str) -> (line: String)
    ensures
        line@ == quoted_line_text(speech@),
{
    let mut line = "\"".to_string();
    line.append(speech);
    line.append("\"");
    line
}

/// The text of [`opening_battle_line`].
pub open spec fn opening_battle_line_text() -> Seq<char> {
    "The very rocks beneath your feet seem to tremble. Here, amidst the towering peaks, the battle for the fate of your world begins NOW!"@
}

/// Part of the opening scene.
pub fn opening_battle_line() -> (line: String)
    ensures
        line@ == opening_battle_line_text(),
{
    "The very rocks beneath your feet seem to tremble. Here, amidst the towering peaks, the battle for the fate of your world begins NOW!".to_string()
}

/// The text of [`opening_pass_line`].
pub open spec fn opening_pass_line_text() -> Seq<char> {
    "\nYou stand at the edge of a narrow mountain pass, the wind whipping around you, carrying the scent of snow and distant pine forests."@
}

/// Part of the opening scene.
pub fn opening_pass_line() -> (line: String)
    ensures
        line@ == opening_pass_line_text(),
{
    "\nYou stand at the edge of a narrow mountain pass, the wind whipping around you, carrying the scent of snow and distant pine forests.".to_string()
}

/// The text of [`opening_breath_line`].
pub open spec fn opening_breath_line_text() -> Seq<char> {
    "Your breath mists in the cold air as you face the Mountain Sentinel, your hand instinctively reaching for your deck of mystical cards."@
}

/// Part of the opening scene.
pub fn opening_breath_line() -> (line: String)
    ensures
        line@ == opening_breath_line_text(),
{
    "Your breath mists in the cold air as you face the Mountain Sentinel, your hand instinctively reaching for your deck of mystical cards.".to_string()
}

/// The text of [`opening_spirits_line`].
pub open spec fn opening_spirits_line_text() -> Seq<char> {
    "The ancient spirits of the mountains seem to whisper encouragement as you prepare to defend your world from this otherworldly threat."@
}

/// Part of the opening scene.
pub fn opening_spirits_line() -> (line: String)
    ensures
        line@ == opening_spirits_line_text(),
{
    "The ancient spirits of the mountains seem to whisper encouragement as you prepare to defend your world from this otherworldly threat.".to_string()
}

/// The text of [`opening_hand_line`].
pub open spec fn opening_hand_line_text() -> Seq<char> {
    "\nYou draw your initial hand:"@
}

/// Part of the opening scene.
pub fn opening_hand_line() -> (line: String)
    ensures
        line@ == opening_hand_line_text(),
{
    "\nYou draw your initial hand:".to_string()
}

/// The text of [`hand_card_line`].
pub open spec fn hand_card_line_text(
    card: Seq<char>,
    lowered: Seq<char>,
    attack: u32,
    defense: u32,
    cost: u32,
) -> Seq<char> {
    "- "@
        + card
        + ": A card infused with the power of "@
        + lowered
        + " (Attack: "@
        + decimal(attack as nat)
        + ", Defense: "@
        + decimal(defense as nat)
        + ", Mana Cost: "@
        + decimal(cost as nat)
        + ")"@
}

/// One card of the opening hand: its name, the name in lower case, and its
/// numbers.
pub fn hand_card_line(
    card: &str,
    lowered: &str,
    attack: u32,
    defense: u32,
    cost: u32,
) -> (line: String)
    ensures
        line@ == hand_card_line_text(card@, lowered@, attack, defense, cost),
{
    let mut line = "- ".to_string();
    line.append(card);
    line.append(": A card infused with the power of ");
    line.append(lowered);
    line.append(" (Attack: ");
    append_decimal(&mut line, attack as u64);
    line.append(", Defense: ");
    append_decimal(&mut line, defense as u64);
    line.append(", Mana Cost: ");
    append_decimal(&mut line, cost as u64);
    line.append(")");
    line
}

} // verus!
