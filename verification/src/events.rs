//! Turn events: what may happen by itself as a round begins, and how a roll
//! decides which of them does.

use vstd::prelude::*;

verus! {

/// What may happen by itself as a round begins.
#[derive(Debug, Clone, Copy, PartialEq, Eq, Structural)]
pub enum TurnEvent {
    /// Both sides recover one health.
    Gust,
    /// Both sides take the given damage.
    Tremor(u32),
    /// The player's maximum and current mana grow by one.
    ManaSurge,
    /// The player draws one more card.
    AncientPower,
    /// Nothing happens.
    Calm,
}

impl TurnEvent {
    /// Whether a roll can give this event: a tremor deals one, two or three
    /// damage.
    pub open spec fn can_be_rolled(self) -> bool {
        self matches TurnEvent::Tremor(damage) ==> 1 <= damage <= 3
    }
}

/// The tenth of the unit interval that a roll falls in, where the 32 bits
/// of the roll are read as the fraction `roll / 2^32`: 0 for a roll below
/// 0.1, 1 for one below 0.2, and so on to 9.
pub open spec fn roll_tenth(roll: u32) -> nat {
    (roll as nat * 10) / 0x1_0000_0000
}

/// The damage of a tremor, from 32 random bits: one, two or three.
pub open spec fn tremor_strength(raw: u32) -> u32 {
    (raw % 3 + 1) as u32
}

/// The event for a roll. The first four tenths of the unit interval hold
/// one event each, and the rest is calm. `raw` decides the damage of a
/// tremor and is otherwise not looked at.
pub open spec fn rolled_event(roll: u32, raw: u32) -> TurnEvent {
    if roll_tenth(roll) == 0 {
        TurnEvent::Gust
    } else if roll_tenth(roll) == 1 {
        TurnEvent::Tremor(tremor_strength(raw))
    } else if roll_tenth(roll) == 2 {
        TurnEvent::ManaSurge
    } else if roll_tenth(roll) == 3 {
        TurnEvent::AncientPower
    } else {
        TurnEvent::Calm
    }
}

/// The tenth of the unit interval that `roll` falls in.
pub fn tenth_of_roll(roll: u32) -> (tenth: u32)
    ensures
        tenth == roll_tenth(roll),
        tenth <= 9,
{
    let scaled: u64 = roll as u64 * 10;
    (scaled / 0x1_0000_0000) as u32
}

/// The damage of a tremor for the random bits `raw`.
pub fn tremor_damage(raw: u32) -> (damage: u32)
    ensures
        damage == tremor_strength(raw),
        1 <= damage <= 3,
{
    raw % 3 + 1
}

/// The turn event for the roll `roll`; `raw` decides the damage of a
/// tremor.
pub fn turn_event_of(roll: u32, raw: u32) -> (event: TurnEvent)
    ensures
        event == rolled_event(roll, raw),
        event.can_be_rolled(),
{
    let tenth = tenth_of_roll(roll);
    if tenth == 0 {
        TurnEvent::Gust
    } else if tenth == 1 {
        TurnEvent::Tremor(tremor_damage(raw))
    } else if tenth == 2 {
        TurnEvent::ManaSurge
    } else if tenth == 3 {
        TurnEvent::AncientPower
    } else {
        TurnEvent::Calm
    }
}

} // verus!
