//! The player and what the player carries.

use vstd::prelude::*;

verus! {

/// Health of a freshly created player.
pub const STARTING_HEALTH: i32 = 100;

/// Something a player can hold in the inventory.
#[derive(Debug, Clone, Copy, PartialEq, Eq, Structural)]
pub enum Item {
    HealthPotion,
    Sword,
}

/// The adventurer. Health is a plain signed number with no floor: a lost
/// fight may leave it at zero or below.
#[derive(Debug, PartialEq)]
pub struct Player {
    pub name: String,
    pub health: i32,
    pub inventory: Vec<Item>,
}

/// Mathematical model of a [`Player`].
pub struct PlayerView {
    pub name: Seq<char>,
    pub health: int,
    pub inventory: Seq<Item>,
}

impl View for Player {
    type V = PlayerView;

    open spec fn view(&self) -> PlayerView {
        PlayerView { name: self.name@, health: self.health as int, inventory: self.inventory@ }
    }
}

/// A new player called `name`, at full health and with empty hands.
pub fn create_player(name: &str) -> (player: Player)
    ensures
        player@.name == name@,
        player@.health == STARTING_HEALTH,
        player@.inventory == Seq::<Item>::empty(),
{
    Player { name: name.to_owned(), health: STARTING_HEALTH, inventory: Vec::new() }
}

} // verus!
