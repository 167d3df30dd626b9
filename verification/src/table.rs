//! Player and table registry: named participants, each collecting a hand of
//! cards, seated at a table with a configurable capacity.

use vstd::prelude::*;
use crate::cards::Card;

verus! {

/// A participant: a name fixed for the hand's lifetime and the cards received
/// so far. The hand grows only through `receive_card` and never shrinks here.
#[derive(Debug, Clone, PartialEq, Eq)]
pub struct Player {
    pub name: String,
    pub cards: Vec<Card>,
}

impl Player {
    /// A new player with the given name and an empty hand.
    pub fn new(name: &str) -> (p: Player)
        ensures
            p.name@ == name@,
            p.cards@ == Seq::<Card>::empty(),
    {
        Player { name: name.to_owned(), cards: Vec::new() }
    }

    /// Appends a card to the player's hand; there is no capacity limit on a
    /// hand, so this always succeeds.
    pub fn receive_card(&mut self, card: Card)
        ensures
            final(self).cards@ == old(self).cards@.push(card),
            final(self).name == old(self).name,
    {
        self.cards.push(card);
    }

    /// Renders the player as their name.
    pub fn display(&self) -> (r: String)
        ensures
            r@ == self.name@,
    {
        self.name.clone()
    }
}

/// The seated players and the admission ceiling. A fresh table admits up to
/// ten players; `set_player_limit` replaces the ceiling at any time.
#[derive(Debug, PartialEq, Eq)]
pub struct Table {
    pub players: Vec<Player>,
    pub player_limit: usize,
}

impl Table {
    /// An empty table with the default limit of ten players.
    pub fn new() -> (t: Table)
        ensures
            t.players@ == Seq::<Player>::empty(),
            t.player_limit == 10,
    {
        Table { players: Vec::new(), player_limit: 10 }
    }

    /// Seats a player if the table is below its limit, and otherwise rejects
    /// them with `PlayerLimitExceeded`, leaving the table unchanged.
    pub fn add_player(&mut self, player: Player) -> (r: Result<(), Errors>)
        ensures
            old(self).players@.len() < old(self).player_limit ==> r == Ok::<(), Errors>(())
                && final(self).players@ == old(self).players@.push(player),
            old(self).players@.len() >= old(self).player_limit ==> r == Err::<(), Errors>(
                Errors::PlayerLimitExceeded,
            ) && final(self).players@ == old(self).players@,
            final(self).player_limit == old(self).player_limit,
    {
        if self.players.len() >= self.player_limit {
            return Err(Errors::PlayerLimitExceeded);
        }
        self.players.push(player);
        Ok(())
    }

    /// Replaces the admission ceiling. Players already seated stay seated,
    /// even when the new limit lies below their number.
    pub fn set_player_limit(&mut self, limit: usize)
        ensures
            final(self).player_limit == limit,
            final(self).players@ == old(self).players@,
    {
        self.player_limit = limit;
    }

    /// Renders the table as a fixed piece of line art.
    pub fn display(&self) -> (r: String)
        ensures
            r@ == table_art(),
    {
        " -------------------------------------\n/                                      \\\n|                                      |\n|                                      |\n\\                                     /\n -------------------------------------".to_owned()
    }
}

/// The display text of a table: six lines sketching its outline.
pub open spec fn table_art() -> Seq<char> {
    " -------------------------------------\n/                                      \\\n|                                      |\n|                                      |\n\\                                     /\n -------------------------------------"@
}

/// What can go wrong at registration.
#[derive(Debug, PartialEq, Eq)]
pub enum Errors {
    /// The table is already at its player limit; the join was rejected.
    PlayerLimitExceeded,
}

} // verus!
