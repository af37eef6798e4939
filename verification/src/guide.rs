//! The wording of the walkthrough: its instructions, its summaries and its
//! answers to the player's input.

use crate::text::{append_decimal, decimal};
use vstd::prelude::*;
use vstd::string::*;

verus! {

/// The text of [`welcome`].
pub open spec fn welcome_text() -> Seq<char> {
    "Welcome to the Deckbuilder Tutorial! Let's start by looking at your hand. Press Enter to continue."@
}

/// The instruction of step 0.
pub fn welcome() -> (line: String)
    ensures
        line@ == welcome_text(),
{
    "Welcome to the Deckbuilder Tutorial! Let's start by looking at your hand. Press Enter to continue.".to_string()
}

/// The text of [`hand_lesson`].
pub open spec fn hand_lesson_text() -> Seq<char> {
    "You start with 5 cards in your hand. Each card has an Attack and Defense value. Press Enter to continue."@
}

/// The instruction of step 1.
pub fn hand_lesson() -> (line: String)
    ensures
        line@ == hand_lesson_text(),
{
    "You start with 5 cards in your hand. Each card has an Attack and Defense value. Press Enter to continue.".to_string()
}

/// The text of [`play_lesson`].
pub open spec fn play_lesson_text() -> Seq<char> {
    "Let's play your first card. Type '1' to play the first card in your hand."@
}

/// The instruction of step 2.
pub fn play_lesson() -> (line: String)
    ensures
        line@ == play_lesson_text(),
{
    "Let's play your first card. Type '1' to play the first card in your hand.".to_string()
}

/// The text of [`blocked_note`].
pub open spec fn blocked_note_text(blocked: u32, card: Seq<char>) -> Seq<char> {
    "(You blocked "@
        + decimal(blocked as nat)
        + " damage with your "@
        + card
        + "'s defense!)"@
}

/// The remark on what the card's defense kept off the player.
pub fn blocked_note(blocked: u32, card: &str) -> (line: String)
    ensures
        line@ == blocked_note_text(blocked, card@),
{
    let mut line = "(You blocked ".to_string();
    append_decimal(&mut line, blocked as u64);
    line.append(" damage with your ");
    line.append(card);
    line.append("'s defense!)");
    line
}

/// The text of [`battle_summary`].
pub open spec fn battle_summary_text(
    card: Seq<char>,
    attack: u32,
    defense: u32,
    enemy_before: u32,
    enemy_after: u32,
    dealt: u32,
    player_before: u32,
    player_after: u32,
    taken: u32,
    note: Seq<char>,
    hand_count: usize,
    enemy_attack: u32,
) -> Seq<char> {
    "--------------------------------------------------\nBATTLE ACTION SUMMARY:\n--------------------------------------------------\n1. Your Move:\n   You played: "@
        + card
        + " (Attack: "@
        + decimal(attack as nat)
        + ", Defense: "@
        + decimal(defense as nat)
        + ")\n\n2. Your Attack:\n   Enemy Health: "@
        + decimal(enemy_before as nat)
        + " -> "@
        + decimal(enemy_after as nat)
        + "  (*-"@
        + decimal(dealt as nat)
        + " damage*)\n\n3. Enemy Counterattack:\n   Your Health: "@
        + decimal(player_before as nat)
        + " -> "@
        + decimal(player_after as nat)
        + "   (*-"@
        + decimal(taken as nat)
        + " damage*)\n   "@
        + note
        + "\n\n4. Final Status:\n   YOU  - Health: "@
        + decimal(player_after as nat)
        + ", Cards in hand: "@
        + decimal(hand_count as nat)
        + "\n   ENEMY - Health: "@
        + decimal(enemy_after as nat)
        + ", Attack: "@
        + decimal(enemy_attack as nat)
        + "\n--------------------------------------------------\nGreat job! You've successfully attacked the enemy and survived their counterattack.\nPress Enter to continue the tutorial."@
}

/// The instruction of step 3: the card that was played, what it did to the
/// enemy, what the enemy did in return, and where both sides stand.
pub fn battle_summary(
    card: &str,
    attack: u32,
    defense: u32,
    enemy_before: u32,
    enemy_after: u32,
    dealt: u32,
    player_before: u32,
    player_after: u32,
    taken: u32,
    note: &str,
    hand_count: usize,
    enemy_attack: u32,
) -> (line: String)
    ensures
        line@ == battle_summary_text(
            card@,
            attack,
            defense,
            enemy_before,
            enemy_after,
            dealt,
            player_before,
            player_after,
            taken,
            note@,
            hand_count,
            enemy_attack,
        ),
{
    let mut line = "--------------------------------------------------\nBATTLE ACTION SUMMARY:\n--------------------------------------------------\n1. Your Move:\n   You played: ".to_string();
    line.append(card);
    line.append(" (Attack: ");
    append_decimal(&mut line, attack as u64);
    line.append(", Defense: ");
    append_decimal(&mut line, defense as u64);
    line.append(")\n\n2. Your Attack:\n   Enemy Health: ");
    append_decimal(&mut line, enemy_before as u64);
    line.append(" -> ");
    append_decimal(&mut line, enemy_after as u64);
    line.append("  (*-");
    append_decimal(&mut line, dealt as u64);
    line.append(" damage*)\n\n3. Enemy Counterattack:\n   Your Health: ");
    append_decimal(&mut line, player_before as u64);
    line.append(" -> ");
    append_decimal(&mut line, player_after as u64);
    line.append("   (*-");
    append_decimal(&mut line, taken as u64);
    line.append(" damage*)\n   ");
    line.append(note);
    line.append("\n\n4. Final Status:\n   YOU  - Health: ");
    append_decimal(&mut line, player_after as u64);
    line.append(", Cards in hand: ");
    append_decimal(&mut line, hand_count as u64);
    line.append("\n   ENEMY - Health: ");
    append_decimal(&mut line, enemy_after as u64);
    line.append(", Attack: ");
    append_decimal(&mut line, enemy_attack as u64);
    line.append(
        "\n--------------------------------------------------\nGreat job! You've successfully attacked the enemy and survived their counterattack.\nPress Enter to continue the tutorial.",
    );
    line
}

/// The text of [`enemy_lesson`].
pub open spec fn enemy_lesson_text() -> Seq<char> {
    "Now it's the enemy's turn. They will attack you. Press Enter to see what happens."@
}

/// The instruction of step 4.
pub fn enemy_lesson() -> (line: String)
    ensures
        line@ == enemy_lesson_text(),
{
    "Now it's the enemy's turn. They will attack you. Press Enter to see what happens.".to_string()
}

/// The text of [`enemy_turn_summary`].
pub open spec fn enemy_turn_summary_text(damage: u32, before: u32, after: u32) -> Seq<char> {
    "The enemy attacked you! You took "@
        + decimal(damage as nat)
        + " damage. Your health decreased from "@
        + decimal(before as nat)
        + " to "@
        + decimal(after as nat)
        + ". The game continues until either you or the enemy runs out of health. Press Enter to continue."@
}

/// The instruction of step 5: what the enemy's turn cost the player.
pub fn enemy_turn_summary(damage: u32, before: u32, after: u32) -> (line: String)
    ensures
        line@ == enemy_turn_summary_text(damage, before, after),
{
    let mut line = "The enemy attacked you! You took ".to_string();
    append_decimal(&mut line, damage as u64);
    line.append(" damage. Your health decreased from ");
    append_decimal(&mut line, before as u64);
    line.append(" to ");
    append_decimal(&mut line, after as u64);
    line.append(
        ". The game continues until either you or the enemy runs out of health. Press Enter to continue.",
    );
    line
}

/// The text of [`closing_lesson`].
pub open spec fn closing_lesson_text() -> Seq<char> {
    "That's the basics of combat! Keep playing cards and defeating enemies. Press Enter to finish the tutorial."@
}

/// The instruction of step 6.
pub fn closing_lesson() -> (line: String)
    ensures
        line@ == closing_lesson_text(),
{
    "That's the basics of combat! Keep playing cards and defeating enemies. Press Enter to finish the tutorial.".to_string()
}

/// The text of [`completion`].
pub open spec fn completion_text() -> Seq<char> {
    "Tutorial complete! You can now start a real game."@
}

/// The instruction once the walkthrough is over.
pub fn completion() -> (line: String)
    ensures
        line@ == completion_text(),
{
    "Tutorial complete! You can now start a real game.".to_string()
}

/// The text of [`play_correction`].
pub open spec fn play_correction_text() -> Seq<char> {
    "Please type '1' to play the first card."@
}

/// The answer to anything but "1" at step 2.
pub fn play_correction() -> (line: String)
    ensures
        line@ == play_correction_text(),
{
    "Please type '1' to play the first card.".to_string()
}

/// The text of [`enter_correction`].
pub open spec fn enter_correction_text() -> Seq<char> {
    "Press Enter to continue."@
}

/// The answer to anything but an empty line at every other step.
pub fn enter_correction() -> (line: String)
    ensures
        line@ == enter_correction_text(),
{
    "Press Enter to continue.".to_string()
}

/// The text of [`enemy_attack_response`].
pub open spec fn enemy_attack_response_text(damage: u32) -> Seq<char> {
    "The enemy attacks! You take "@ + decimal(damage as nat) + " damage."@
}

/// The answer to the empty line at step 4.
pub fn enemy_attack_response(damage: u32) -> (line: String)
    ensures
        line@ == enemy_attack_response_text(damage),
{
    let mut line = "The enemy attacks! You take ".to_string();
    append_decimal(&mut line, damage as u64);
    line.append(" damage.");
    line
}

} // verus!
