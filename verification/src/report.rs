//! The outcome of a play in numbers, apart from the prose that tells it.

use crate::narration;
use crate::player::PlayError;
use vstd::prelude::*;

verus! {

/// What one resolved card did: the damage it dealt, and the health of both
/// sides before and after.
#[derive(Debug, Clone, Copy, PartialEq, Eq, Structural)]
pub struct CombatReport {
    pub damage_dealt: u32,
    pub enemy_health_before: u32,
    pub enemy_health_after: u32,
    pub player_health_before: u32,
    pub player_health_after: u32,
}

impl CombatReport {
    /// The text of [`CombatReport::summary`].
    pub open spec fn summary_text(self) -> Seq<char> {
        narration::combat_summary_text(
            self.damage_dealt,
            self.enemy_health_before,
            self.enemy_health_after,
            self.player_health_before,
            self.player_health_after,
        )
    }

    /// The report in words.
    pub fn summary(&self) -> (line: String)
        ensures
            line@ == self.summary_text(),
    {
        narration::combat_summary(
            self.damage_dealt,
            self.enemy_health_before,
            self.enemy_health_after,
            self.player_health_before,
            self.player_health_after,
        )
    }
}

/// The text of [`refusal_message`].
pub open spec fn refusal_text(error: PlayError) -> Seq<char> {
    match error {
        PlayError::IndexOutOfRange => narration::invalid_index_message_text(),
        PlayError::InsufficientMana => narration::no_mana_message_text(),
    }
}

/// The message that tells the player why a play was refused.
pub fn refusal_message(error: PlayError) -> (message: String)
    ensures
        message@ == refusal_text(error),
{
    match error {
        PlayError::IndexOutOfRange => narration::invalid_index_message(),
        PlayError::InsufficientMana => narration::no_mana_message(),
    }
}

} // verus!
