//! The four rooms of the cave and the menus that lead from one to the next.

use vstd::prelude::*;

verus! {

/// A place in the cave. A session is in exactly one room at a time.
#[derive(Debug, Clone, Copy, PartialEq, Eq, Structural)]
pub enum Room {
    Entrance,
    Hallway,
    TreasureRoom,
    MonsterRoom,
}

/// Where an entry of a room's menu leads.
#[derive(Debug, Clone, Copy, PartialEq, Eq, Structural)]
pub enum Exit {
    /// Into another room.
    To(Room),
    /// Out of the cave, which ends the session.
    Leave,
}

impl Room {
    /// How many entries the room's menu has, numbered from 1. The treasure
    /// room and the monster room have no menu: what happens there happens
    /// on entry.
    pub open spec fn menu_len(self) -> int {
        match self {
            Room::Entrance => 2,
            Room::Hallway => 2,
            Room::TreasureRoom => 0,
            Room::MonsterRoom => 0,
        }
    }

    /// The menus, entry by entry: where choice number `choice` leads from
    /// this room, or `None` when the room's menu has no such entry.
    pub open spec fn exit(self, choice: int) -> Option<Exit> {
        match self {
            Room::Entrance => if choice == 1 {
                Some(Exit::To(Room::Hallway))
            } else if choice == 2 {
                Some(Exit::Leave)
            } else {
                None
            },
            Room::Hallway => if choice == 1 {
                Some(Exit::To(Room::TreasureRoom))
            } else if choice == 2 {
                Some(Exit::To(Room::MonsterRoom))
            } else {
                None
            },
            Room::TreasureRoom => None,
            Room::MonsterRoom => None,
        }
    }

    /// The number of entries to choose from in this room; 0 where there is
    /// nothing to choose.
    pub fn options(self) -> (n: i32)
        ensures
            n == self.menu_len(),
    {
        match self {
            Room::Entrance => 2,
            Room::Hallway => 2,
            Room::TreasureRoom => 0,
            Room::MonsterRoom => 0,
        }
    }

    /// Looks `choice` up in this room's menu.
    pub fn take_exit(self, choice: i32) -> (exit: Option<Exit>)
        ensures
            exit == self.exit(choice as int),
            exit is Some <==> 1 <= choice <= self.menu_len(),
    {
        match self {
            Room::Entrance => if choice == 1 {
                Some(Exit::To(Room::Hallway))
            } else if choice == 2 {
                Some(Exit::Leave)
            } else {
                None
            },
            Room::Hallway => if choice == 1 {
                Some(Exit::To(Room::TreasureRoom))
            } else if choice == 2 {
                Some(Exit::To(Room::MonsterRoom))
            } else {
                None
            },
            Room::TreasureRoom => None,
            Room::MonsterRoom => None,
        }
    }
}

/// Every menu is complete: each number from 1 to the length of a room's menu
/// is an entry of it, and no other number is.
pub proof fn lemma_menu_complete(room: Room, choice: int)
    ensures
        room.exit(choice) is Some <==> 1 <= choice <= room.menu_len(),
{
}

} // verus!
