//! An earlier, unbounded registry of players: a game seats any number of
//! named participants, each with a hand of cards.

use vstd::prelude::*;
use crate::cards::Card;

verus! {

/// A participant of a game: a name and the cards currently held.
#[derive(Debug, Clone, PartialEq, Eq)]
pub struct Player {
    pub name: String,
    pub cards: Vec<Card>,
}

impl Player {
    /// A new player with the given name and no cards.
    pub fn new(name: &str) -> (p: Player)
        ensures
            p.name@ == name@,
            p.cards@ == Seq::<Card>::empty(),
    {
        Player { name: name.to_owned(), cards: Vec::new() }
    }

    /// Renders the player as their name.
    pub fn display(&self) -> (r: String)
        ensures
            r@ == self.name@,
    {
        self.name.clone()
    }
}

/// The seated players, with no admission ceiling.
#[derive(Debug, PartialEq, Eq)]
pub struct Game {
    pub players: Vec<Player>,
}

impl Game {
    /// An empty game.
    pub fn new() -> (g: Game)
        ensures
            g.players@ == Seq::<Player>::empty(),
    {
        Game { players: Vec::new() }
    }

    /// Seats a player; a game has no limit, so this always succeeds.
    pub fn add_player(&mut self, player: Player)
        ensures
            final(self).players@ == old(self).players@.push(player),
    {
        self.players.push(player);
    }

    /// Renders the game as the same fixed line art as a table.
    pub fn display(&self) -> (r: String)
        ensures
            r@ == crate::table::table_art(),
    {
        " -------------------------------------\n/                                      \\\n|                                      |\n|                                      |\n\\                                     /\n -------------------------------------".to_owned()
    }
}

} // verus!
