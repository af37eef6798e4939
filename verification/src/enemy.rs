//! The scripted enemy: health, attack and the status effects that cards put
//! on it.

use crate::random::{choose_line, RandomSource};
use crate::saturation::{add_capped, sub_floored};
use crate::text::line_views;
use vstd::prelude::*;

verus! {

/// The rage at which the enemy's attack grows.
pub const RAGE_LIMIT: u32 = 100;

/// The enemy. `rage` gathers the damage that got through to it and turns
/// into attack at [`RAGE_LIMIT`].
pub struct Enemy {
    pub name: String,
    pub health: u32,
    pub attack: u32,
    pub poison: u32,
    pub taunts: Vec<String>,
    pub stunned: u32,
    pub shield: u32,
    pub rage: u32,
}

/// The mathematical value of an enemy.
pub struct EnemyView {
    pub name: Seq<char>,
    pub health: u32,
    pub attack: u32,
    pub poison: u32,
    pub taunts: Seq<Seq<char>>,
    pub stunned: u32,
    pub shield: u32,
    pub rage: u32,
}

impl View for Enemy {
    type V = EnemyView;

    open spec fn view(&self) -> EnemyView {
        EnemyView {
            name: self.name@,
            health: self.health,
            attack: self.attack,
            poison: self.poison,
            taunts: line_views(self.taunts@),
            stunned: self.stunned,
            shield: self.shield,
            rage: self.rage,
        }
    }
}

/// What the enemy says when it has no taunt to choose from.
pub open spec fn fallback_taunt() -> Seq<char> {
    "..."@
}

impl EnemyView {
    /// The enemy with `amount` more shield.
    pub open spec fn shielded(self, amount: u32) -> EnemyView {
        EnemyView { shield: add_capped(self.shield, amount), ..self }
    }

    /// The enemy after its rage grew by `amount`: where the sum reaches the
    /// limit, the rage starts again at zero and the attack grows by one.
    pub open spec fn enraged(self, amount: u32) -> EnemyView {
        if self.rage + amount >= RAGE_LIMIT {
            EnemyView { attack: add_capped(self.attack, 1), rage: 0, ..self }
        } else {
            EnemyView { rage: (self.rage + amount) as u32, ..self }
        }
    }

    /// The part of a hit of `amount` that gets past the shield.
    pub open spec fn pierced(self, amount: u32) -> u32 {
        sub_floored(amount, self.shield)
    }

    /// The enemy after a hit of `amount`: the shield absorbs what it can,
    /// the rest comes off the health and feeds the rage.
    pub open spec fn damaged(self, amount: u32) -> EnemyView {
        EnemyView {
            shield: sub_floored(self.shield, amount),
            health: sub_floored(self.health, self.pierced(amount)),
            ..self
        }.enraged(self.pierced(amount))
    }

    /// The enemy with `amount` more poison.
    pub open spec fn poisoned(self, amount: u32) -> EnemyView {
        EnemyView { poison: add_capped(self.poison, amount), ..self }
    }

    /// The enemy after one tick of poison: the current poison comes off the
    /// health, then the poison decays by one.
    pub open spec fn poison_ticked(self) -> EnemyView {
        EnemyView {
            health: sub_floored(self.health, self.poison),
            poison: sub_floored(self.poison, 1),
            ..self
        }
    }

    /// The enemy stunned for `duration` more turns.
    pub open spec fn stunned_for(self, duration: u32) -> EnemyView {
        EnemyView { stunned: add_capped(self.stunned, duration), ..self }
    }

    /// The enemy after one check of its stun, which uses up one turn of it.
    pub open spec fn stun_checked(self) -> EnemyView {
        EnemyView { stunned: sub_floored(self.stunned, 1), ..self }
    }

    /// Whether `line` is something this enemy may say as a taunt: one of
    /// its taunts, or the fallback where it has none.
    pub open spec fn may_taunt(self, line: Seq<char>) -> bool {
        if self.taunts.len() == 0 {
            line == fallback_taunt()
        } else {
            self.taunts.contains(line)
        }
    }
}

impl EnemyView {
    /// The enemy after its rage grew by each of `amounts`, one after the
    /// other.
    pub open spec fn enraged_by_all(self, amounts: Seq<u32>) -> EnemyView
        decreases amounts.len(),
    {
        if amounts.len() == 0 {
            self
        } else {
            self.enraged_by_all(amounts.drop_last()).enraged(amounts.last())
        }
    }

    /// The enemy after `ticks` ticks of poison.
    pub open spec fn poison_ticked_times(self, ticks: nat) -> EnemyView
        decreases ticks,
    {
        if ticks == 0 {
            self
        } else {
            self.poison_ticked_times((ticks - 1) as nat).poison_ticked()
        }
    }
}

/// The sum of a list of amounts.
pub open spec fn total(amounts: Seq<u32>) -> nat
    decreases amounts.len(),
{
    if amounts.len() == 0 {
        0
    } else {
        total(amounts.drop_last()) + amounts.last() as nat
    }
}

/// Whether each of `amounts`, added in turn to the enemy's rage, leaves the
/// rage below the limit or lands exactly on it: none carries it past.
pub open spec fn lands_on_limit(enemy: EnemyView, amounts: Seq<u32>) -> bool {
    forall|k: int|
        0 <= k < amounts.len() ==> enemy.enraged_by_all(amounts.take(k)).rage
            + #[trigger] amounts[k] <= RAGE_LIMIT
}

/// Where no single amount carries the rage past the limit, the enemy's
/// attack has grown by one for every full hundred of rage gathered, and the
/// rage is what remains of the last hundred begun. (An amount that
/// overshoots the limit still adds one to the attack, but the rage starts
/// again at zero and the overshoot is lost.)
pub proof fn lemma_rage_threshold(enemy: EnemyView, amounts: Seq<u32>)
    requires
        enemy.rage < RAGE_LIMIT,
        lands_on_limit(enemy, amounts),
        enemy.attack + (enemy.rage + total(amounts)) / 100 <= u32::MAX,
    ensures
        enemy.enraged_by_all(amounts) == (EnemyView {
            attack: (enemy.attack + (enemy.rage + total(amounts)) / 100) as u32,
            rage: ((enemy.rage + total(amounts)) % 100) as u32,
            ..enemy
        }),
    decreases amounts.len(),
{
    if amounts.len() > 0 {
        let earlier = amounts.drop_last();
        let last = amounts.last();
        assert forall|k: int| 0 <= k < earlier.len() implies enemy.enraged_by_all(
            earlier.take(k),
        ).rage + #[trigger] earlier[k] <= RAGE_LIMIT by {
            assert(earlier.take(k) =~= amounts.take(k));
        }
        lemma_rage_threshold(enemy, earlier);
    }
}

/// A single growth of the rage: below the limit the rage gathers and the
/// attack stays; at the limit and beyond the attack grows by exactly one
/// and the rage starts again at zero. Either way the rage ends below the
/// limit.
pub proof fn lemma_rage_step(enemy: EnemyView, amount: u32)
    ensures
        enemy.enraged(amount).rage < RAGE_LIMIT,
        enemy.rage + amount < RAGE_LIMIT ==> enemy.enraged(amount).attack == enemy.attack
            && enemy.enraged(amount).rage == enemy.rage + amount,
        enemy.rage + amount >= RAGE_LIMIT && enemy.attack < u32::MAX ==> enemy.enraged(
            amount,
        ).attack == enemy.attack + 1 && enemy.enraged(amount).rage == 0,
{
}

/// However hard the hit, nothing of the enemy goes below zero: the shield
/// loses what it can absorb and no more, the health loses what got past the
/// shield and no more, and the rage stays below its limit.
pub proof fn lemma_damage_saturates(enemy: EnemyView, amount: u32)
    ensures
        enemy.pierced(amount) == if amount > enemy.shield {
            amount - enemy.shield
        } else {
            0
        },
        enemy.damaged(amount).shield == if enemy.shield > amount {
            enemy.shield - amount
        } else {
            0
        },
        enemy.damaged(amount).health == if enemy.health > enemy.pierced(amount) {
            enemy.health - enemy.pierced(amount)
        } else {
            0
        },
        0 <= enemy.damaged(amount).rage < RAGE_LIMIT,
        enemy.damaged(amount).poison == enemy.poison,
{
}

/// From a poison of `n`, the poison stands at `n - k` after `k` ticks, and
/// at zero once it has run out. Each tick deals the poison that it finds,
/// so tick number `k + 1` deals `n - k` damage while that is positive and
/// none afterwards. However many ticks follow, neither the poison nor the
/// health goes below zero.
pub proof fn lemma_poison_decays(enemy: EnemyView, ticks: nat)
    ensures
        enemy.poison_ticked_times(ticks).poison == if enemy.poison > ticks {
            enemy.poison - ticks
        } else {
            0
        },
        0 <= enemy.poison_ticked_times(ticks).health <= enemy.health,
    decreases ticks,
{
    if ticks > 0 {
        lemma_poison_decays(enemy, (ticks - 1) as nat);
    }
}

impl Enemy {
    /// An enemy with no poison, stun, shield or rage on it.
    pub fn new(name: String, health: u32, attack: u32, taunts: Vec<String>) -> (enemy: Self)
        ensures
            enemy@ == (EnemyView {
                name: name@,
                health,
                attack,
                poison: 0,
                taunts: line_views(taunts@),
                stunned: 0,
                shield: 0,
                rage: 0,
            }),
    {
        Enemy { name, health, attack, poison: 0, taunts, stunned: 0, shield: 0, rage: 0 }
    }

    /// Adds `amount` to the shield.
    pub fn apply_shield(&mut self, amount: u32)
        ensures
            final(self)@ == old(self)@.shielded(amount),
    {
        self.shield = self.shield.saturating_add(amount);
    }

    /// Adds `amount` to the rage. Where that reaches the limit, the attack
    /// grows by one and the rage starts again at zero.
    pub fn increase_rage(&mut self, amount: u32)
        ensures
            final(self)@ == old(self)@.enraged(amount),
    {
        self.rage = self.rage.saturating_add(amount);
        if self.rage >= RAGE_LIMIT {
            self.attack = self.attack.saturating_add(1);
            self.rage = 0;
        }
    }

    /// Hits the enemy for `amount` and returns the damage that got past the
    /// shield.
    pub fn take_damage(&mut self, amount: u32) -> (dealt: u32)
        ensures
            dealt == old(self)@.pierced(amount),
            final(self)@ == old(self)@.damaged(amount),
    {
        let damage_after_shield = amount.saturating_sub(self.shield);
        self.shield = self.shield.saturating_sub(amount);
        self.health = self.health.saturating_sub(damage_after_shield);
        self.increase_rage(damage_after_shield);
        damage_after_shield
    }

    /// One of the enemy's taunts, chosen by `source`, or the fallback where
    /// the enemy has none.
    pub fn taunt<'a>(&'a self, source: &mut RandomSource) -> (line: &'a str)
        ensures
            self@.may_taunt(line@),
    {
        match choose_line(source, &self.taunts) {
            Some(chosen) => {
                proof {
                    let i = choose|i: int|
                        0 <= i < self.taunts@.len() && self.taunts@[i] == *chosen;
                    assert(line_views(self.taunts@)[i] == chosen@);
                }
                chosen.as_str()
            },
            None => "...",
        }
    }

    /// Stuns the enemy for `duration` more turns.
    pub fn apply_stun(&mut self, duration: u32)
        ensures
            final(self)@ == old(self)@.stunned_for(duration),
    {
        self.stunned = self.stunned.saturating_add(duration);
    }

    /// Reports whether the enemy is stunned, and uses up one turn of the
    /// stun if it is.
    pub fn is_stunned(&mut self) -> (stunned: bool)
        ensures
            stunned == (old(self)@.stunned > 0),
            final(self)@ == old(self)@.stun_checked(),
    {
        if self.stunned > 0 {
            self.stunned -= 1;
            true
        } else {
            false
        }
    }

    /// Adds `amount` to the poison.
    pub fn apply_poison(&mut self, amount: u32)
        ensures
            final(self)@ == old(self)@.poisoned(amount),
    {
        self.poison = self.poison.saturating_add(amount);
    }

    /// One tick of poison; returns the damage it dealt.
    pub fn take_poison_damage(&mut self) -> (damage: u32)
        ensures
            damage == old(self)@.poison,
            final(self)@ == old(self)@.poison_ticked(),
    {
        let damage = self.poison;
        self.health = self.health.saturating_sub(damage);
        self.poison = self.poison.saturating_sub(1);
        damage
    }
}

} // verus!
