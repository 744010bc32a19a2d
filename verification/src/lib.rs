//! A small cave adventure: four rooms, one goblin, and a numbered menu.
//!
//! The crate holds the rules of the game and nothing that touches a console.
//! A front end owns the terminal. It shows what [`Session::start`] opens
//! with, and from then on reads a line, hands it to [`Session::respond`] and
//! shows the reply, until a reply says that the session is over.

pub mod combat;
pub mod dialogue;
pub mod input;
pub mod player;
pub mod room;
pub mod session;

pub use combat::{can_fight, goblin, monster_room, Battle, Monster, GOBLIN_DAMAGE};
pub use dialogue::{Output, Reply, INVALID_CHOICE, PROMPT};
pub use input::{is_whitespace, parse_choice};
pub use player::{create_player, Item, Player, STARTING_HEALTH};
pub use room::{Exit, Room};
pub use session::{Session, Turn};
