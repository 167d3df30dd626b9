//! Card model and deck: ranks, suits, the 52-card deck in canonical order,
//! shuffling (through `rand`) and sequential drawing from the top.

use vstd::prelude::*;
use vstd::arithmetic::div_mod::lemma_fundamental_div_mod;
use vstd::arithmetic::div_mod::lemma_mod_bound;
use vstd::string::StringExecFns;

verus! {

/// The thirteen card ranks in their natural order, lowest first.
#[derive(Clone, Copy, Debug, PartialEq, Eq, PartialOrd, Ord)]
pub enum Rank {
    Two,
    Three,
    Four,
    Five,
    Six,
    Seven,
    Eight,
    Nine,
    Ten,
    Jack,
    Queen,
    King,
    Ace,
}

/// The four suits.
#[derive(Clone, Copy, Debug, PartialEq, Eq, PartialOrd, Ord)]
pub enum Suit {
    Heart,
    Diamond,
    Club,
    Spade,
}

/// An immutable rank-suit pair. Exactly 52 distinct values exist.
#[derive(Clone, Copy, Debug, PartialEq, Eq, PartialOrd, Ord)]
pub struct Card {
    pub rank: Rank,
    pub suit: Suit,
}

/// Position of a rank in the natural order: `Two` is 0, `Ace` is 12.
pub open spec fn rank_index(r: Rank) -> int {
    match r {
        Rank::Two => 0,
        Rank::Three => 1,
        Rank::Four => 2,
        Rank::Five => 3,
        Rank::Six => 4,
        Rank::Seven => 5,
        Rank::Eight => 6,
        Rank::Nine => 7,
        Rank::Ten => 8,
        Rank::Jack => 9,
        Rank::Queen => 10,
        Rank::King => 11,
        Rank::Ace => 12,
    }
}

/// The rank at a position in the natural order; inverse of `rank_index`.
pub open spec fn rank_at(i: int) -> Rank {
    if i == 0 {
        Rank::Two
    } else if i == 1 {
        Rank::Three
    } else if i == 2 {
        Rank::Four
    } else if i == 3 {
        Rank::Five
    } else if i == 4 {
        Rank::Six
    } else if i == 5 {
        Rank::Seven
    } else if i == 6 {
        Rank::Eight
    } else if i == 7 {
        Rank::Nine
    } else if i == 8 {
        Rank::Ten
    } else if i == 9 {
        Rank::Jack
    } else if i == 10 {
        Rank::Queen
    } else if i == 11 {
        Rank::King
    } else {
        Rank::Ace
    }
}

/// Position of a suit in the order hearts, diamonds, clubs, spades.
pub open spec fn suit_index(s: Suit) -> int {
    match s {
        Suit::Heart => 0,
        Suit::Diamond => 1,
        Suit::Club => 2,
        Suit::Spade => 3,
    }
}

/// The suit at a position; inverse of `suit_index`.
pub open spec fn suit_at(i: int) -> Suit {
    if i == 0 {
        Suit::Heart
    } else if i == 1 {
        Suit::Diamond
    } else if i == 2 {
        Suit::Club
    } else {
        Suit::Spade
    }
}

/// The card at a position of the canonical deck order: rank-major,
/// four suits within each rank.
pub open spec fn card_at(i: int) -> Card {
    Card { rank: rank_at(i / 4), suit: suit_at(i % 4) }
}

/// Position of a card in the canonical deck order; inverse of `card_at`.
pub open spec fn card_index(c: Card) -> int {
    4 * rank_index(c.rank) + suit_index(c.suit)
}

/// The full 52-card deck in canonical order.
pub open spec fn full_deck() -> Seq<Card> {
    Seq::new(52, |i: int| card_at(i))
}

proof fn lemma_rank_roundtrip(i: int)
    requires
        0 <= i < 13,
    ensures
        rank_index(rank_at(i)) == i,
{
}

proof fn lemma_suit_roundtrip(i: int)
    requires
        0 <= i < 4,
    ensures
        suit_index(suit_at(i)) == i,
{
}

proof fn lemma_card_roundtrip(i: int)
    requires
        0 <= i < 52,
    ensures
        card_index(card_at(i)) == i,
{
    lemma_fundamental_div_mod(i, 4);
    lemma_mod_bound(i, 4);
    lemma_rank_roundtrip(i / 4);
    lemma_suit_roundtrip(i % 4);
}

/// Every position of the canonical deck holds a different card: the deck
/// never contains a duplicate rank-suit pair.
pub proof fn lemma_full_deck_distinct()
    ensures
        full_deck().len() == 52,
        full_deck().no_duplicates(),
{
    assert forall|i: int, j: int|
        0 <= i < 52 && 0 <= j < 52 && i != j implies full_deck()[i] != full_deck()[j] by {
        lemma_card_roundtrip(i);
        lemma_card_roundtrip(j);
    }
}

/// Every rank-suit pair occurs in the canonical deck, at its canonical
/// position: the 52 cards cover all pairs.
pub proof fn lemma_full_deck_complete(c: Card)
    ensures
        0 <= card_index(c) < 52,
        full_deck()[card_index(c)] == c,
        full_deck().contains(c),
{
    let i = card_index(c);
    vstd::arithmetic::div_mod::lemma_fundamental_div_mod_converse(
        i,
        4,
        rank_index(c.rank),
        suit_index(c.suit),
    );
    assert(full_deck()[i] == c);
}

impl Rank {
    /// The display text of a rank: its number, or a single letter for a face.
    pub open spec fn spec_display(self) -> Seq<char> {
        match self {
            Rank::Two => "2"@,
            Rank::Three => "3"@,
            Rank::Four => "4"@,
            Rank::Five => "5"@,
            Rank::Six => "6"@,
            Rank::Seven => "7"@,
            Rank::Eight => "8"@,
            Rank::Nine => "9"@,
            Rank::Ten => "10"@,
            Rank::Jack => "J"@,
            Rank::Queen => "Q"@,
            Rank::King => "K"@,
            Rank::Ace => "A"@,
        }
    }

    /// Renders the rank as text.
    pub fn display(self) -> (r: String)
        ensures
            r@ == self.spec_display(),
    {
        match self {
            Rank::Two => "2".to_owned(),
            Rank::Three => "3".to_owned(),
            Rank::Four => "4".to_owned(),
            Rank::Five => "5".to_owned(),
            Rank::Six => "6".to_owned(),
            Rank::Seven => "7".to_owned(),
            Rank::Eight => "8".to_owned(),
            Rank::Nine => "9".to_owned(),
            Rank::Ten => "10".to_owned(),
            Rank::Jack => "J".to_owned(),
            Rank::Queen => "Q".to_owned(),
            Rank::King => "K".to_owned(),
            Rank::Ace => "A".to_owned(),
        }
    }
}

impl Suit {
    /// The display glyph of a suit.
    pub open spec fn spec_display(self) -> Seq<char> {
        match self {
            Suit::Heart => "❤"@,
            Suit::Diamond => "♦"@,
            Suit::Club => "♣"@,
            Suit::Spade => "♠"@,
        }
    }

    /// Renders the suit as its glyph.
    pub fn display(self) -> (r: String)
        ensures
            r@ == self.spec_display(),
    {
        match self {
            Suit::Heart => "❤".to_owned(),
            Suit::Diamond => "♦".to_owned(),
            Suit::Club => "♣".to_owned(),
            Suit::Spade => "♠".to_owned(),
        }
    }
}

impl Card {
    /// Renders the card as its rank's text followed by its suit's glyph.
    pub fn display(self) -> (r: String)
        ensures
            r@ == self.rank.spec_display() + self.suit.spec_display(),
    {
        let suit = self.suit.display();
        self.rank.display().concat(suit.as_str())
    }
}

/// An ordered deck of cards; drawing takes from the tail (the top).
#[derive(Debug)]
pub struct Deck {
    cards: Vec<Card>,
}

impl View for Deck {
    type V = Seq<Card>;

    closed spec fn view(&self) -> Seq<Card> {
        self.cards@
    }
}

/// The rank at a position in the natural order, as executable code.
fn rank_from_index(i: usize) -> (r: Rank)
    requires
        i < 13,
    ensures
        r == rank_at(i as int),
{
    match i {
        0 => Rank::Two,
        1 => Rank::Three,
        2 => Rank::Four,
        3 => Rank::Five,
        4 => Rank::Six,
        5 => Rank::Seven,
        6 => Rank::Eight,
        7 => Rank::Nine,
        8 => Rank::Ten,
        9 => Rank::Jack,
        10 => Rank::Queen,
        11 => Rank::King,
        _ => Rank::Ace,
    }
}

/// The suit at a position, as executable code.
fn suit_from_index(i: usize) -> (s: Suit)
    requires
        i < 4,
    ensures
        s == suit_at(i as int),
{
    match i {
        0 => Suit::Heart,
        1 => Suit::Diamond,
        2 => Suit::Club,
        _ => Suit::Spade,
    }
}

impl Deck {
    /// A fresh deck: all 52 distinct cards in canonical order.
    pub fn new() -> (deck: Deck)
        ensures
            deck@ == full_deck(),
            deck@.len() == 52,
            deck@.no_duplicates(),
    {
        let mut cards: Vec<Card> = Vec::with_capacity(52);
        for i in 0..52usize
            invariant
                cards@ =~= full_deck().take(i as int),
        {
            proof {
                lemma_mod_bound(i as int, 4);
            }
            cards.push(Card { rank: rank_from_index(i / 4), suit: suit_from_index(i % 4) });
            assert(cards@ =~= full_deck().take(i + 1));
        }
        proof {
            assert(cards@ =~= full_deck());
            lemma_full_deck_distinct();
        }
        Deck { cards }
    }

    /// How many cards remain.
    pub fn len(&self) -> (n: usize)
        ensures
            n == self@.len(),
    {
        self.cards.len()
    }

    /// Reorders the cards in place at random. The multiset of cards is
    /// unchanged: shuffling never adds, removes or duplicates a card.
    pub fn shuffle(&mut self)
        ensures
            final(self)@.to_multiset() == old(self)@.to_multiset(),
            final(self)@.len() == old(self)@.len(),
    {
        shuffle_cards(&mut self.cards);
    }

    /// Removes and returns the top card (the tail of the sequence), or
    /// `None` once the deck is empty; the deck is then unchanged.
    pub fn draw_card(&mut self) -> (r: Option<Card>)
        ensures
            old(self)@.len() > 0 ==> r == Some(old(self)@.last()) && final(self)@ == old(
                self,
            )@.drop_last(),
            old(self)@.len() == 0 ==> r == None::<Card> && final(self)@ == old(self)@,
    {
        self.cards.pop()
    }
}

/// Relies on rand's `SliceRandom::shuffle` (a Fisher-Yates pass of in-place
/// swaps): it permutes the slice and neither adds nor removes an element.
#[verifier::external_body]
fn shuffle_cards(cards: &mut Vec<Card>)
    ensures
        final(cards)@.to_multiset() == old(cards)@.to_multiset(),
        final(cards)@.len() == old(cards)@.len(),
{
    let mut rng = rand::thread_rng();
    rand::seq::SliceRandom::shuffle(cards.as_mut_slice(), &mut rng);
}

/// Drawing from a duplicate-free deck yields a card that was present, leaves
/// the rest duplicate-free, and leaves no copy of the drawn card behind.
pub proof fn lemma_draw_from_distinct(s: Seq<Card>)
    requires
        s.len() > 0,
        s.no_duplicates(),
    ensures
        s.contains(s.last()),
        s.drop_last().no_duplicates(),
        !s.drop_last().contains(s.last()),
{
    assert(s[s.len() - 1] == s.last());
}

/// A deck with the same multiset of cards as a duplicate-free deck is itself
/// duplicate-free: shuffling keeps a deck free of duplicates.
pub proof fn lemma_permutation_keeps_distinct(s1: Seq<Card>, s2: Seq<Card>)
    requires
        s1.to_multiset() == s2.to_multiset(),
        s1.no_duplicates(),
    ensures
        s2.no_duplicates(),
{
    s1.lemma_multiset_has_no_duplicates();
    s2.lemma_multiset_has_no_duplicates_conv();
}

} // verus!
