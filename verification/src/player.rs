//! The player: a deck, a hand, a discard pile, mana and health, with the
//! primitives that move one card at a time.

use crate::card::{
    card_views, lemma_views_drop_last, lemma_views_push, lemma_views_remove, Card, CardView,
    SpecialAbility,
};
use vstd::prelude::*;
use vstd::string::*;

verus! {

/// Why a card could not be played.
#[derive(Debug, Clone, Copy, PartialEq, Eq, Structural)]
pub enum PlayError {
    /// The index names no card of the hand.
    IndexOutOfRange,
    /// The card costs more mana than the player has.
    InsufficientMana,
}

/// The player. The top of the deck is its end.
pub struct Player {
    pub deck: Vec<Card>,
    pub hand: Vec<Card>,
    pub discard_pile: Vec<Card>,
    pub max_mana: u32,
    pub current_mana: u32,
    pub health: u32,
}

/// The mathematical value of a player. The top of the deck is its end.
pub struct PlayerView {
    pub deck: Seq<CardView>,
    pub hand: Seq<CardView>,
    pub discard_pile: Seq<CardView>,
    pub max_mana: u32,
    pub current_mana: u32,
    pub health: u32,
}

impl View for Player {
    type V = PlayerView;

    open spec fn view(&self) -> PlayerView {
        PlayerView {
            deck: card_views(self.deck@),
            hand: card_views(self.hand@),
            discard_pile: card_views(self.discard_pile@),
            max_mana: self.max_mana,
            current_mana: self.current_mana,
            health: self.health,
        }
    }
}

/// The three cards of the starter set.
pub open spec fn mountain_strike() -> CardView {
    CardView {
        name: "Mountain Strike"@,
        attack: 3,
        defense: 1,
        special_ability: None,
        mana_cost: 1,
    }
}

pub open spec fn stone_shield() -> CardView {
    CardView { name: "Stone Shield"@, attack: 1, defense: 3, special_ability: None, mana_cost: 1 }
}

pub open spec fn avalanche() -> CardView {
    CardView {
        name: "Avalanche"@,
        attack: 5,
        defense: 0,
        special_ability: Some(SpecialAbility::SummonAvalanche(2)),
        mana_cost: 3,
    }
}

/// The three cards that the starting deck is made of.
pub open spec fn starter_set() -> Seq<CardView> {
    seq![mountain_strike(), stone_shield(), avalanche()]
}

/// The starting deck: the starter set four times over.
pub open spec fn starting_deck() -> Seq<CardView> {
    (starter_set() + starter_set()) + (starter_set() + starter_set())
}

/// The player as a game begins: the full deck, nothing in hand, nothing
/// discarded.
pub open spec fn starting_player() -> PlayerView {
    PlayerView {
        deck: starting_deck(),
        hand: Seq::empty(),
        discard_pile: Seq::empty(),
        max_mana: 10,
        current_mana: 10,
        health: 30,
    }
}

impl PlayerView {
    /// How many cards the player holds, over all three piles.
    pub open spec fn card_count(self) -> nat {
        self.deck.len() + self.hand.len() + self.discard_pile.len()
    }

    /// The player with mana back at its maximum.
    pub open spec fn mana_restored(self) -> PlayerView {
        PlayerView { current_mana: self.max_mana, ..self }
    }

    /// The player after moving the top card of the deck into the hand;
    /// unchanged where the deck is empty.
    pub open spec fn top_drawn(self) -> PlayerView {
        if self.deck.len() > 0 {
            PlayerView {
                deck: self.deck.drop_last(),
                hand: self.hand.push(self.deck.last()),
                ..self
            }
        } else {
            self
        }
    }

    /// What stands in the way of playing the card at `index`, if anything.
    pub open spec fn play_error(self, index: int) -> Option<PlayError> {
        if !(0 <= index < self.hand.len()) {
            Some(PlayError::IndexOutOfRange)
        } else if self.hand[index].mana_cost > self.current_mana {
            Some(PlayError::InsufficientMana)
        } else {
            None
        }
    }

    /// The player after playing the card at `index`: the card has left the
    /// hand and its cost has left the mana.
    pub open spec fn played(self, index: int) -> PlayerView {
        PlayerView {
            hand: self.hand.remove(index),
            current_mana: (self.current_mana - self.hand[index].mana_cost) as u32,
            ..self
        }
    }
}

/// The smaller of two counts.
pub open spec fn least(a: nat, b: nat) -> nat {
    if a <= b {
        a
    } else {
        b
    }
}

/// How `post` may come from `pre` by `n` draws in a row, each of which moves
/// the top card of the deck into the hand and, where the deck is empty,
/// first makes a new deck of the discard pile in some order. A draw with
/// both piles empty does nothing.
///
/// With `d` cards in the deck before: while `n <= d` the deck alone serves
/// the draws and everything is determined. Otherwise the deck is used up,
/// top card first; the discard pile is emptied, and what was in it is now
/// split, in some order, between the new deck and the cards drawn after the
/// first `d`.
pub open spec fn drew_cards(pre: PlayerView, post: PlayerView, n: nat) -> bool {
    let d = pre.deck.len();
    let drawn = post.hand.skip(pre.hand.len() as int);
    &&& post.max_mana == pre.max_mana
    &&& post.current_mana == pre.current_mana
    &&& post.health == pre.health
    &&& post.hand.len() >= pre.hand.len()
    &&& post.hand.take(pre.hand.len() as int) == pre.hand
    &&& if n <= d {
        &&& drawn == pre.deck.skip(d - n).reverse()
        &&& post.deck == pre.deck.take(d - n)
        &&& post.discard_pile == pre.discard_pile
    } else {
        &&& drawn.len() == least(n, d + pre.discard_pile.len())
        &&& drawn.take(d as int) == pre.deck.reverse()
        &&& post.deck.to_multiset().add(drawn.skip(d as int).to_multiset())
            == pre.discard_pile.to_multiset()
        &&& post.discard_pile == Seq::<CardView>::empty()
    }
}

/// No draw at all leaves the player as it was.
pub proof fn lemma_drew_none(player: PlayerView)
    ensures
        drew_cards(player, player, 0),
{
    let d = player.deck.len();
    assert(player.hand.skip(player.hand.len() as int) =~= player.deck.skip(d as int).reverse());
    assert(player.hand.take(player.hand.len() as int) =~= player.hand);
    assert(player.deck.take(d as int) =~= player.deck);
}

/// One more draw after `i` draws makes `i + 1` draws.
pub proof fn lemma_drew_one_more(a: PlayerView, b: PlayerView, c: PlayerView, i: nat)
    requires
        drew_cards(a, b, i),
        drew_cards(b, c, 1),
    ensures
        drew_cards(a, c, i + 1),
{
    broadcast use vstd::seq_lib::group_to_multiset_ensures;

    let ha = a.hand.len() as int;
    let hb = b.hand.len() as int;
    let da = a.deck.len() as int;
    let db = b.deck.len() as int;
    let pa = a.discard_pile.len();
    let drawn_ab = b.hand.skip(ha);
    let drawn_bc = c.hand.skip(hb);
    let drawn_ac = c.hand.skip(ha);
    assert(c.hand.take(hb).take(ha) =~= c.hand.take(ha));
    assert(drawn_ac =~= drawn_ab + drawn_bc);
    if i + 1 <= da {
        assert(c.deck =~= a.deck.take(da - i - 1));
        assert(drawn_ac =~= a.deck.skip(da - i - 1).reverse());
    } else if i == da {
        assert(drawn_ac.take(da) =~= a.deck.reverse());
        assert(drawn_ac.skip(da) =~= drawn_bc.skip(0));
    } else {
        let tail_ab = drawn_ab.skip(da);
        let tail_ac = drawn_ac.skip(da);
        assert(drawn_ac.take(da) =~= drawn_ab.take(da));
        assert(b.deck.to_multiset().add(tail_ab.to_multiset()).len() == pa);
        if db >= 1 {
            let x = b.deck.last();
            assert(tail_ac =~= tail_ab.push(x));
            assert(b.deck =~= c.deck.push(x));
            assert(c.deck.to_multiset().add(tail_ac.to_multiset()) =~= b.deck.to_multiset().add(
                tail_ab.to_multiset(),
            ));
        } else {
            assert(drawn_bc.skip(0) =~= drawn_bc);
            assert(c.deck.to_multiset().add(drawn_bc.to_multiset()).len() == 0);
            assert(c.deck =~= b.deck);
        }
    }
}

/// Drawing moves cards between the piles and neither makes nor loses one:
/// the number of cards over deck, hand and discard pile stays the same,
/// through a reshuffle too. And the discard pile is only ever touched by a
/// draw that finds the deck empty and the discard pile not.
pub proof fn lemma_drawing_conserves_cards(pre: PlayerView, post: PlayerView, n: nat)
    requires
        drew_cards(pre, post, n),
    ensures
        post.card_count() == pre.card_count(),
        post.discard_pile != pre.discard_pile ==> n > pre.deck.len() && pre.discard_pile.len() > 0,
        n <= pre.deck.len() ==> post.deck == pre.deck.take(pre.deck.len() - n),
{
    broadcast use vstd::seq_lib::group_to_multiset_ensures;

    let d = pre.deck.len() as int;
    let drawn = post.hand.skip(pre.hand.len() as int);
    if n <= d {
        assert(pre.deck.skip(d - n).reverse().len() == n);
    } else {
        assert(post.deck.to_multiset().add(drawn.skip(d).to_multiset()).len()
            == pre.discard_pile.len());
        if pre.discard_pile.len() == 0 {
            assert(post.discard_pile =~= pre.discard_pile);
        }
    }
}

/// `n` draws bring as many cards into the hand as were asked for, or as
/// many as deck and discard pile held together where that is fewer.
pub proof fn lemma_drawn_count(pre: PlayerView, post: PlayerView, n: nat)
    requires
        drew_cards(pre, post, n),
    ensures
        post.hand.len() == pre.hand.len() + least(n, pre.deck.len() + pre.discard_pile.len()),
{
    let d = pre.deck.len() as int;
    let drawn = post.hand.skip(pre.hand.len() as int);
    if n <= d {
        assert(pre.deck.skip(d - n).reverse().len() == n);
    }
}

/// Appends a copy of every card of `cards` to it, in order.
fn double_cards(cards: &mut Vec<Card>)
    ensures
        card_views(final(cards)@) == card_views(old(cards)@) + card_views(old(cards)@),
{
    let count = cards.len();
    let mut i: usize = 0;
    while i < count
        invariant
            i <= count,
            count == old(cards)@.len(),
            cards@.len() == count + i,
            cards@.subrange(0, count as int) == old(cards)@,
            card_views(cards@) == card_views(old(cards)@) + card_views(old(cards)@).subrange(
                0,
                i as int,
            ),
        decreases count - i,
    {
        let copy = cards[i].clone();
        proof {
            lemma_views_push(cards@, copy);
        }
        cards.push(copy);
        i += 1;
    }
}

impl Player {
    /// The player as a game begins.
    pub fn new() -> (player: Self)
        ensures
            player@ == starting_player(),
    {
        let mut deck: Vec<Card> = Vec::new();
        deck.push(
            Card {
                name: "Mountain Strike".to_string(),
                attack: 3,
                defense: 1,
                special_ability: None,
                mana_cost: 1,
            },
        );
        deck.push(
            Card {
                name: "Stone Shield".to_string(),
                attack: 1,
                defense: 3,
                special_ability: None,
                mana_cost: 1,
            },
        );
        deck.push(
            Card {
                name: "Avalanche".to_string(),
                attack: 5,
                defense: 0,
                special_ability: Some(SpecialAbility::SummonAvalanche(2)),
                mana_cost: 3,
            },
        );
        assert(card_views(deck@) =~= starter_set());
        double_cards(&mut deck);
        double_cards(&mut deck);
        let player = Player {
            deck,
            hand: Vec::new(),
            discard_pile: Vec::new(),
            max_mana: 10,
            current_mana: 10,
            health: 30,
        };
        assert(player@.discard_pile =~= Seq::empty());
        player
    }

    /// Sets the mana back to its maximum.
    pub fn restore_mana(&mut self)
        ensures
            final(self)@ == old(self)@.mana_restored(),
    {
        self.current_mana = self.max_mana;
    }

    /// Moves the top card of the deck into the hand and returns a copy of
    /// it; does nothing where the deck is empty.
    pub fn draw_top(&mut self) -> (drawn: Option<Card>)
        ensures
            final(self)@ == old(self)@.top_drawn(),
            match drawn {
                Some(card) => old(self)@.deck.len() > 0 && card@ == old(self)@.deck.last(),
                None => old(self)@.deck.len() == 0,
            },
    {
        match self.deck.pop() {
            Some(card) => {
                proof {
                    lemma_views_drop_last(old(self).deck@);
                    lemma_views_push(self.hand@, card);
                }
                let copy = card.clone();
                self.hand.push(card);
                Some(copy)
            },
            None => None,
        }
    }

    /// Plays the card at `card_index` of the hand: takes it out of the hand,
    /// pays its mana cost and hands the card to the caller. A card that is
    /// not there or costs too much leaves the player unchanged.
    pub fn play_card(&mut self, card_index: usize) -> (played: Result<Card, PlayError>)
        ensures
            match played {
                Ok(card) => {
                    &&& old(self)@.play_error(card_index as int) is None
                    &&& card@ == old(self)@.hand[card_index as int]
                    &&& final(self)@ == old(self)@.played(card_index as int)
                },
                Err(error) => {
                    &&& old(self)@.play_error(card_index as int) == Some(error)
                    &&& *final(self) == *old(self)
                },
            },
    {
        if card_index < self.hand.len() {
            if self.current_mana >= self.hand[card_index].mana_cost {
                proof {
                    lemma_views_remove(self.hand@, card_index as int);
                }
                let card = self.hand.remove(card_index);
                self.current_mana -= card.mana_cost;
                Ok(card)
            } else {
                Err(PlayError::InsufficientMana)
            }
        } else {
            Err(PlayError::IndexOutOfRange)
        }
    }
}

} // verus!
