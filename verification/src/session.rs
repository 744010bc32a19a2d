//! A session: one player's way through the cave, turn by turn.
//!
//! The session is a state machine. Its state is the player and the room the
//! player is in. A turn takes the choice made in that room, where the room
//! offers one, and gives the state after it together with a report. The
//! report tells whoever drives the session what to show and whether to stop.

use crate::combat::{
    after_battle, can_fight, goblin_battle, monster_room, Battle, BattleView, GOBLIN_DAMAGE,
};
use crate::player::{create_player, Item, Player, PlayerView, STARTING_HEALTH};
use crate::room::{Exit, Room};
use vstd::prelude::*;

verus! {

/// The state of a session.
#[derive(Debug, PartialEq)]
pub struct Session {
    pub player: Player,
    pub room: Room,
}

/// Mathematical model of a [`Session`].
pub struct SessionView {
    pub player: PlayerView,
    pub room: Room,
}

impl View for Session {
    type V = SessionView;

    open spec fn view(&self) -> SessionView {
        SessionView { player: self.player@, room: self.room }
    }
}

/// What one turn did.
#[derive(Debug, PartialEq)]
pub enum Turn {
    /// The choice led into another room.
    Moved,
    /// The choice is not on the room's menu: nothing changed, and the room
    /// asks again.
    Stayed,
    /// The player walked out of the cave. The session is over.
    Left,
    /// The player stands in the treasure room and has won. The session is
    /// over.
    Won,
    /// The player fought in the monster room. A lost fight ends the
    /// session; after a won one the player is back in the hallway.
    Fought(Battle),
}

/// Mathematical model of a [`Turn`].
pub enum TurnView {
    Moved,
    Stayed,
    Left,
    Won,
    Fought(BattleView),
}

impl View for Turn {
    type V = TurnView;

    open spec fn view(&self) -> TurnView {
        match self {
            Turn::Moved => TurnView::Moved,
            Turn::Stayed => TurnView::Stayed,
            Turn::Left => TurnView::Left,
            Turn::Won => TurnView::Won,
            Turn::Fought(battle) => TurnView::Fought(battle@),
        }
    }
}

impl TurnView {
    /// Whether the session is over after this turn: the player has left,
    /// has won, or has lost a fight.
    pub open spec fn ends_session(self) -> bool {
        match self {
            TurnView::Moved => false,
            TurnView::Stayed => false,
            TurnView::Left => true,
            TurnView::Won => true,
            TurnView::Fought(battle) => !battle.won,
        }
    }
}

/// The session that every game starts from: a new player at the entrance.
pub open spec fn initial(name: Seq<char>) -> SessionView {
    SessionView {
        player: PlayerView {
            name,
            health: STARTING_HEALTH as int,
            inventory: Seq::<Item>::empty(),
        },
        room: Room::Entrance,
    }
}

/// One turn of the state machine: the session after the turn, and the
/// report of it.
///
/// In a room with a menu the choice is looked up there. In the treasure
/// room and the monster room there is nothing to choose, and `choice` plays
/// no part.
pub open spec fn step(session: SessionView, choice: int) -> (SessionView, TurnView) {
    match session.room {
        Room::TreasureRoom => (session, TurnView::Won),
        Room::MonsterRoom => {
            let battle = goblin_battle(session.player);
            let next = SessionView {
                player: after_battle(session.player, GOBLIN_DAMAGE as int),
                room: if battle.won {
                    Room::Hallway
                } else {
                    Room::MonsterRoom
                },
            };
            (next, TurnView::Fought(battle))
        },
        _ => match session.room.exit(choice) {
            Some(Exit::To(room)) => (
                SessionView { player: session.player, room },
                TurnView::Moved,
            ),
            Some(Exit::Leave) => (session, TurnView::Left),
            None => (session, TurnView::Stayed),
        },
    }
}

impl Turn {
    /// Whether the session is over after this turn.
    pub fn ends_session(&self) -> (over: bool)
        ensures
            over == self@.ends_session(),
    {
        match self {
            Turn::Moved => false,
            Turn::Stayed => false,
            Turn::Left => true,
            Turn::Won => true,
            Turn::Fought(battle) => !battle.won,
        }
    }
}

impl Session {
    /// Starts a session: a new player called `name` stands at the entrance.
    pub fn new(name: &str) -> (session: Session)
        ensures
            session@ == initial(name@),
    {
        Session { player: create_player(name), room: Room::Entrance }
    }

    /// Takes one turn with `choice`, as [`step`] describes it.
    ///
    /// A turn in the monster room is a fight, so there the player must be
    /// able to take the blow: see [`can_fight`].
    pub fn turn(&mut self, choice: i32) -> (turn: Turn)
        requires
            old(self).room == Room::MonsterRoom ==> can_fight(&old(self).player),
        ensures
            (final(self)@, turn@) == step(old(self)@, choice as int),
    {
        match self.room {
            Room::TreasureRoom => Turn::Won,
            Room::MonsterRoom => {
                let battle = monster_room(&mut self.player);
                if battle.won {
                    self.room = Room::Hallway;
                }
                Turn::Fought(battle)
            },
            _ => match self.room.take_exit(choice) {
                Some(Exit::To(room)) => {
                    self.room = room;
                    Turn::Moved
                },
                Some(Exit::Leave) => Turn::Left,
                None => Turn::Stayed,
            },
        }
    }
}

/// The transition table, row by row. For every state and every choice that
/// the state's menu offers, the turn is the one the table gives:
///
/// | room          | choice 1            | choice 2            |
/// |---------------|---------------------|---------------------|
/// | entrance      | to the hallway      | leave: session over |
/// | hallway       | to the treasure room| to the monster room |
/// | treasure room | won: session over   |                     |
/// | monster room  | fight, then hallway if alive, else over   |
///
/// Outside the monster room the player is not touched, and a turn that ends
/// the session leaves the room as it is.
pub proof fn lemma_transition_table(session: SessionView, choice: int)
    requires
        session.room.menu_len() > 0 ==> 1 <= choice <= session.room.menu_len(),
    ensures
        session.room == Room::Entrance && choice == 1 ==> step(session, choice) == (
            SessionView { player: session.player, room: Room::Hallway },
            TurnView::Moved,
        ),
        session.room == Room::Entrance && choice == 2 ==> step(session, choice) == (
            session,
            TurnView::Left,
        ),
        session.room == Room::Hallway && choice == 1 ==> step(session, choice) == (
            SessionView { player: session.player, room: Room::TreasureRoom },
            TurnView::Moved,
        ),
        session.room == Room::Hallway && choice == 2 ==> step(session, choice) == (
            SessionView { player: session.player, room: Room::MonsterRoom },
            TurnView::Moved,
        ),
        session.room == Room::TreasureRoom ==> step(session, choice) == (session, TurnView::Won),
        session.room == Room::MonsterRoom ==> {
            let player = after_battle(session.player, GOBLIN_DAMAGE as int);
            let (next, turn) = step(session, choice);
            &&& next.player == player
            &&& turn == TurnView::Fought(goblin_battle(session.player))
            &&& player.health > 0 ==> next.room == Room::Hallway && !turn.ends_session()
            &&& player.health <= 0 ==> next.room == Room::MonsterRoom && turn.ends_session()
        },
        step(session, choice).1 != TurnView::Stayed,
{
}

/// No turn restores health or takes anything out of the inventory: after a
/// turn the health is at most what it was, and what the player held before
/// is still held, in the same places.
pub proof fn lemma_turn_only_wears_down(session: SessionView, choice: int)
    ensures
        step(session, choice).0.player.name == session.player.name,
        step(session, choice).0.player.health <= session.player.health,
        session.player.inventory.is_prefix_of(step(session, choice).0.player.inventory),
{
}

/// Health at or below zero ends the session. A fight ends it exactly when
/// it leaves the player with no health above zero; and as nothing but a
/// fight touches the health, a player who was alive before a turn is alive
/// after it whenever the session goes on.
pub proof fn lemma_death_ends_session(session: SessionView, choice: int)
    ensures
        session.room == Room::MonsterRoom ==> (step(session, choice).1.ends_session() <==> step(
            session,
            choice,
        ).0.player.health <= 0),
        session.player.health > 0 && !step(session, choice).1.ends_session() ==> step(
            session,
            choice,
        ).0.player.health > 0,
{
}

} // verus!
