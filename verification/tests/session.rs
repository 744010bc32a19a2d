use cave_adventure::{can_fight, Exit, Item, Player, Room, Session, Turn};

fn session_in(room: Room, health: i32) -> Session {
    Session { player: Player { name: String::from("Hero"), health, inventory: Vec::new() }, room }
}

#[test]
fn a_session_starts_at_the_entrance_with_a_new_player() {
    let session = Session::new("Hero");
    assert_eq!(session.room, Room::Entrance);
    assert_eq!(session.player.name, "Hero");
    assert_eq!(session.player.health, 100);
    assert!(session.player.inventory.is_empty());
    assert!(can_fight(&session.player));
}

#[test]
fn menus_have_two_entries_or_none() {
    assert_eq!(Room::Entrance.options(), 2);
    assert_eq!(Room::Hallway.options(), 2);
    assert_eq!(Room::TreasureRoom.options(), 0);
    assert_eq!(Room::MonsterRoom.options(), 0);
}

#[test]
fn the_menus_lead_where_the_table_says() {
    assert_eq!(Room::Entrance.take_exit(1), Some(Exit::To(Room::Hallway)));
    assert_eq!(Room::Entrance.take_exit(2), Some(Exit::Leave));
    assert_eq!(Room::Hallway.take_exit(1), Some(Exit::To(Room::TreasureRoom)));
    assert_eq!(Room::Hallway.take_exit(2), Some(Exit::To(Room::MonsterRoom)));
    for room in [Room::Entrance, Room::Hallway, Room::TreasureRoom, Room::MonsterRoom] {
        for choice in [i32::MIN, -1, 0, 1, 2, 3, 4, i32::MAX] {
            let on_menu = 1 <= choice && choice <= room.options();
            assert_eq!(room.take_exit(choice).is_some(), on_menu);
        }
    }
}

#[test]
fn every_row_of_the_transition_table() {
    let mut session = session_in(Room::Entrance, 100);
    assert_eq!(session.turn(1), Turn::Moved);
    assert_eq!(session, session_in(Room::Hallway, 100));

    let mut session = session_in(Room::Entrance, 100);
    let turn = session.turn(2);
    assert_eq!(turn, Turn::Left);
    assert!(turn.ends_session());
    assert_eq!(session, session_in(Room::Entrance, 100));

    let mut session = session_in(Room::Hallway, 100);
    assert_eq!(session.turn(1), Turn::Moved);
    assert_eq!(session, session_in(Room::TreasureRoom, 100));

    let mut session = session_in(Room::Hallway, 100);
    let turn = session.turn(2);
    assert_eq!(turn, Turn::Moved);
    assert!(!turn.ends_session());
    assert_eq!(session, session_in(Room::MonsterRoom, 100));

    for choice in [0, 1, 2, 7] {
        let mut session = session_in(Room::TreasureRoom, 60);
        let turn = session.turn(choice);
        assert_eq!(turn, Turn::Won);
        assert!(turn.ends_session());
        assert_eq!(session, session_in(Room::TreasureRoom, 60));
    }

    for choice in [0, 1, 2, 7] {
        let mut session = session_in(Room::MonsterRoom, 100);
        let turn = session.turn(choice);
        assert!(!turn.ends_session());
        match turn {
            Turn::Fought(battle) => {
                assert!(battle.won);
                assert_eq!(battle.monster.name, "Goblin");
                assert_eq!(battle.monster.damage, 20);
            }
            other => panic!("no fight: {:?}", other),
        }
        assert_eq!(session.room, Room::Hallway);
        assert_eq!(session.player.health, 80);
        assert_eq!(session.player.inventory, vec![Item::Sword]);
    }
}

#[test]
fn a_choice_off_the_menu_changes_nothing() {
    for room in [Room::Entrance, Room::Hallway] {
        for choice in [i32::MIN, -2, 0, 3, 100, i32::MAX] {
            let mut session = session_in(room, 100);
            let turn = session.turn(choice);
            assert_eq!(turn, Turn::Stayed);
            assert!(!turn.ends_session());
            assert_eq!(session, session_in(room, 100));
        }
    }
}

#[test]
fn scenario_one_fight_at_full_health_goes_on_in_the_hallway() {
    let mut session = session_in(Room::MonsterRoom, 100);
    let turn = session.turn(0);
    assert!(!turn.ends_session());
    assert_eq!(session.player.health, 80);
    assert_eq!(session.player.inventory, vec![Item::Sword]);
    assert_eq!(session.room, Room::Hallway);
}

#[test]
fn scenario_a_fight_at_ten_health_ends_the_session() {
    let mut session = session_in(Room::MonsterRoom, 10);
    let turn = session.turn(0);
    assert!(turn.ends_session());
    match turn {
        Turn::Fought(battle) => assert!(!battle.won),
        other => panic!("no fight: {:?}", other),
    }
    assert_eq!(session.player.health, -10);
    assert_eq!(session.player.inventory, Vec::<Item>::new());
    assert_eq!(session.room, Room::MonsterRoom);
}

#[test]
fn scenario_leaving_at_the_entrance_ends_the_session_at_once() {
    let mut session = Session::new("Hero");
    let turn = session.turn(2);
    assert_eq!(turn, Turn::Left);
    assert!(turn.ends_session());
    assert_eq!(session, Session::new("Hero"));
    assert_eq!(session.room, Room::Entrance);
}

#[test]
fn scenario_hallway_to_treasure_room_is_a_win() {
    let mut session = session_in(Room::Hallway, 100);
    let turn = session.turn(1);
    assert_eq!(turn, Turn::Moved);
    assert!(!turn.ends_session());
    assert_eq!(session.room, Room::TreasureRoom);
    assert_eq!(session.room.options(), 0);
    let turn = session.turn(0);
    assert_eq!(turn, Turn::Won);
    assert!(turn.ends_session());
    assert_eq!(session.room, Room::TreasureRoom);
    assert_eq!(session.player.health, 100);
    assert!(session.player.inventory.is_empty());
}

#[test]
fn the_fifth_goblin_is_one_too_many() {
    let mut session = Session::new("Hero");
    assert_eq!(session.turn(1), Turn::Moved);
    for visit in 1..=5 {
        assert_eq!(session.room, Room::Hallway);
        assert_eq!(session.turn(2), Turn::Moved);
        assert_eq!(session.room, Room::MonsterRoom);
        assert!(can_fight(&session.player));
        let before = session.player.health;
        let turn = session.turn(0);
        assert_eq!(session.player.health, before - 20);
        assert_eq!(session.player.health, 100 - 20 * visit);
        assert_eq!(turn.ends_session(), visit == 5);
    }
    assert_eq!(session.player.health, 0);
    assert_eq!(session.room, Room::MonsterRoom);
    assert_eq!(
        session.player.inventory,
        vec![Item::Sword, Item::Sword, Item::Sword, Item::Sword]
    );
}

#[test]
fn health_never_rises_and_nothing_leaves_the_inventory() {
    for room in [Room::Entrance, Room::Hallway, Room::TreasureRoom, Room::MonsterRoom] {
        for health in [-50, 0, 1, 20, 21, 100] {
            for choice in [0, 1, 2, 3] {
                let held = vec![Item::HealthPotion, Item::Sword];
                let mut session = Session {
                    player: Player { name: String::from("Ida"), health, inventory: held.clone() },
                    room,
                };
                let turn = session.turn(choice);
                assert!(session.player.health <= health);
                assert!(session.player.inventory.starts_with(&held));
                assert_eq!(session.player.name, "Ida");
                if !turn.ends_session() && (room == Room::MonsterRoom || health > 0) {
                    assert!(session.player.health > 0);
                }
            }
        }
    }
}

#[test]
fn a_fight_is_possible_unless_the_damage_would_not_fit() {
    assert!(can_fight(&session_in(Room::MonsterRoom, i32::MIN + 20).player));
    assert!(!can_fight(&session_in(Room::MonsterRoom, i32::MIN + 19).player));
    assert!(!can_fight(&session_in(Room::MonsterRoom, i32::MIN).player));
    for health in [1, 10, 100, i32::MAX] {
        assert!(can_fight(&session_in(Room::Hallway, health).player));
    }
    let mut session = session_in(Room::MonsterRoom, i32::MIN + 20);
    let turn = session.turn(0);
    assert!(turn.ends_session());
    assert_eq!(session.player.health, i32::MIN);
}
