//! The hand-phase state machine: a forward-only progression through the
//! dealing phases of one Texas Hold'em hand. Each transition consumes the
//! current phase object and yields the next, so a prior phase cannot be
//! replayed. Only the first two transitions have behavior; the later phases
//! are typed extension slots for the betting and evaluation collaborators.

use vstd::prelude::*;
use core::marker::PhantomData;
use crate::cards::Card;
use crate::cards::Deck;
use crate::cards::full_deck;
use crate::table::Player;

verus! {

/// How many cards each player is dealt.
const CARDS_PER_PLAYER: u32 = 2;

/// Initial phase: a fresh, unshuffled deck.
pub struct Start {}

/// The deck has been shuffled; dealing may begin.
pub struct Shuffled {}

/// Every player holds their two cards.
pub struct DealtToPlayers {}

/// Extension slot: the flop has been dealt.
pub struct DealtFlop {}

/// Extension slot: the river has been dealt.
pub struct DealtRiver {}

/// Extension slot: the turn has been dealt.
pub struct DealTurn {}

/// Extension slot: the hand is being evaluated for a winner.
pub struct EvalWinner {}

/// A phase marker of the hand's progression.
pub trait State {}

impl State for Start {}

impl State for Shuffled {}

impl State for DealtToPlayers {}

impl State for DealtFlop {}

impl State for DealtRiver {}

impl State for DealTurn {}

impl State for EvalWinner {}

/// One hand of Texas Hold'em at a given phase. The hand owns its deck and
/// its players; a transition moves both into the next phase's hand.
#[verifier::reject_recursive_types(S)]
pub struct TexasHoldemHand<S: State> {
    deck: Deck,
    players: Vec<Player>,
    marker: PhantomData<S>,
}

/// The card dealt in the given round (starting at 0) to the player at the
/// given position (starting at 0), out of a deck dealt from the tail in
/// player-major order: every player gets one card before any gets a second.
pub open spec fn dealt_card(deck: Seq<Card>, players: int, round: int, position: int) -> Card {
    deck[deck.len() - 1 - round * players - position]
}

/// A player's cards once they have received the first `received` of their
/// two cards of the deal.
spec fn cards_after(
    base: Seq<Card>,
    deck: Seq<Card>,
    players: int,
    position: int,
    received: int,
) -> Seq<Card> {
    if received <= 0 {
        base
    } else if received == 1 {
        base.push(dealt_card(deck, players, 0, position))
    } else {
        base.push(dealt_card(deck, players, 0, position)).push(
            dealt_card(deck, players, 1, position),
        )
    }
}

impl<S: State> TexasHoldemHand<S> {
    /// The cards remaining in the hand's deck, bottom of the deck first.
    pub closed spec fn spec_deck(self) -> Seq<Card> {
        self.deck@
    }

    /// The players the hand deals to, in registration order.
    pub closed spec fn spec_players(self) -> Seq<Player> {
        self.players@
    }

    /// Read access to the players and the cards each currently holds.
    pub fn players(&self) -> (r: &Vec<Player>)
        ensures
            r@ == self.spec_players(),
    {
        &self.players
    }

    /// How many cards remain in the deck.
    pub fn deck_size(&self) -> (n: usize)
        ensures
            n == self.spec_deck().len(),
    {
        self.deck.len()
    }
}

impl TexasHoldemHand<Start> {
    /// A hand at its initial phase: a fresh deck in canonical order, over
    /// the given players.
    pub fn new(players: Vec<Player>) -> (h: TexasHoldemHand<Start>)
        ensures
            h.spec_deck() == full_deck(),
            h.spec_players() == players@,
    {
        TexasHoldemHand { deck: Deck::new(), players, marker: PhantomData }
    }

    /// Start to Shuffled: permutes the deck in place, keeping its multiset
    /// of cards, and moves deck and players into the next phase. Always
    /// succeeds; the consumed hand cannot be shuffled again.
    pub fn shuffle(self) -> (h: TexasHoldemHand<Shuffled>)
        ensures
            h.spec_deck().to_multiset() == self.spec_deck().to_multiset(),
            h.spec_deck().len() == self.spec_deck().len(),
            h.spec_players() == self.spec_players(),
    {
        let TexasHoldemHand { deck: mut deck, players, marker: _ } = self;
        deck.shuffle();
        TexasHoldemHand { deck, players, marker: PhantomData }
    }
}

impl TexasHoldemHand<Shuffled> {
    /// Shuffled to DealtToPlayers: deals two rounds, each round giving every
    /// player one card off the top of the deck in registration order, so the
    /// distribution is player-major. Succeeds exactly when the deck holds at
    /// least two cards per player; it then pins which card lands on which
    /// player. Otherwise the deal stops at the first missing card and the
    /// transition fails with `NotEnoughCardsToDeal`; nothing is rolled back,
    /// and the consumed hand carries the partial distribution away with it.
    #[verifier::loop_isolation(false)]
    pub fn deal_to_players(self) -> (r: Result<TexasHoldemHand<DealtToPlayers>, Errors>)
        ensures
            ({
                let d = self.spec_deck();
                let ps = self.spec_players();
                let p = ps.len() as int;
                match r {
                    Ok(h) => {
                        let hp = h.spec_players();
                        &&& 2 * p <= d.len()
                        &&& h.spec_deck() == d.take(d.len() - 2 * p)
                        &&& hp.len() == p
                        &&& forall|j: int|
                            #![trigger hp[j]]
                            0 <= j < p ==> hp[j].name == ps[j].name && hp[j].cards@ == ps[j].cards@
                                .push(dealt_card(d, p, 0, j)).push(dealt_card(d, p, 1, j))
                    },
                    Err(e) => 2 * p > d.len() && e == Errors::NotEnoughCardsToDeal,
                }
            }),
    {
        let ghost d = self.spec_deck();
        let ghost orig = self.spec_players();
        let ghost p = orig.len() as int;
        let TexasHoldemHand { deck: mut deck, players: mut players, marker: _ } = self;
        let mut round: u32 = 0;
        while round < CARDS_PER_PLAYER
            invariant
                round <= 2,
                players@.len() == p,
                round * p <= d.len(),
                deck@ =~= d.take(d.len() - round * p),
                forall|k: int|
                    #![trigger players@[k]]
                    0 <= k < p ==> players@[k].name == orig[k].name && players@[k].cards@
                        == cards_after(orig[k].cards@, d, p, k, round as int),
            decreases 2 - round,
        {
            let mut j: usize = 0;
            while j < players.len()
                invariant
                    round < 2,
                    j <= p,
                    players@.len() == p,
                    round * p + j <= d.len(),
                    deck@ =~= d.take(d.len() - (round * p + j)),
                    forall|k: int|
                        #![trigger players@[k]]
                        0 <= k < p ==> players@[k].name == orig[k].name && players@[k].cards@
                            == cards_after(
                            orig[k].cards@,
                            d,
                            p,
                            k,
                            round as int + if k < j { 1int } else { 0int },
                        ),
                decreases p - j,
            {
                match deck.draw_card() {
                    Some(c) => {
                        let pl = &mut players[j];
                        pl.receive_card(c);
                    },
                    None => {
                        proof {
                            assert(round * p <= p) by (nonlinear_arith)
                                requires
                                    round < 2,
                                    p >= 0,
                                    round >= 0,
                            ;
                        }
                        return Err(Errors::NotEnoughCardsToDeal);
                    },
                }
                j += 1;
            }
            proof {
                assert((round + 1) * p == round * p + p) by (nonlinear_arith);
            }
            round += 1;
        }
        Ok(TexasHoldemHand { deck, players, marker: PhantomData })
    }
}

/// What can go wrong while a hand advances.
#[derive(Debug, PartialEq, Eq)]
pub enum Errors {
    /// The deck ran out before every player had received two cards.
    NotEnoughCardsToDeal,
}

} // verus!
