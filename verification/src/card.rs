//! Cards and the special abilities they may carry: plain effect descriptors
//! that only the combat resolver interprets.

use vstd::prelude::*;

verus! {

/// What a card does beyond its attack and defense values.
#[derive(Debug, Clone, Copy, PartialEq, Eq, Structural)]
pub enum SpecialAbility {
    Heal(u32),
    DrawCards(u32),
    ApplyPoison(u32),
    StunEnemy(u32),
    SummonAvalanche(u32),
}

/// One card. A card lives in exactly one pile at a time and is never changed
/// once built.
#[derive(Debug)]
pub struct Card {
    pub name: String,
    pub attack: u32,
    pub defense: u32,
    pub special_ability: Option<SpecialAbility>,
    pub mana_cost: u32,
}

/// The mathematical value of a card: its name as a sequence of characters
/// beside its numbers.
pub struct CardView {
    pub name: Seq<char>,
    pub attack: u32,
    pub defense: u32,
    pub special_ability: Option<SpecialAbility>,
    pub mana_cost: u32,
}

impl View for Card {
    type V = CardView;

    open spec fn view(&self) -> CardView {
        CardView {
            name: self.name@,
            attack: self.attack,
            defense: self.defense,
            special_ability: self.special_ability,
            mana_cost: self.mana_cost,
        }
    }
}

impl Clone for Card {
    fn clone(&self) -> (copy: Self)
        ensures
            copy == *self,
    {
        Card {
            name: self.name.clone(),
            attack: self.attack,
            defense: self.defense,
            special_ability: self.special_ability,
            mana_cost: self.mana_cost,
        }
    }
}

/// The values of a pile of cards, in the pile's order.
pub open spec fn card_views(cards: Seq<Card>) -> Seq<CardView> {
    Seq::new(cards.len(), |i: int| cards[i]@)
}

/// Pushing a card onto a pile pushes its value onto the pile's values.
pub proof fn lemma_views_push(cards: Seq<Card>, card: Card)
    ensures
        card_views(cards.push(card)) == card_views(cards).push(card@),
{
}

/// Dropping the top card of a pile drops the top value.
pub proof fn lemma_views_drop_last(cards: Seq<Card>)
    requires
        cards.len() > 0,
    ensures
        card_views(cards.drop_last()) == card_views(cards).drop_last(),
        card_views(cards).last() == cards.last()@,
{
}

/// Taking a card out of a pile takes its value out at the same place.
pub proof fn lemma_views_remove(cards: Seq<Card>, i: int)
    requires
        0 <= i < cards.len(),
    ensures
        card_views(cards.remove(i)) == card_views(cards).remove(i),
{
}

} // verus!
