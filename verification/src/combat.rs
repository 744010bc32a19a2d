//! The fight in the monster room.

use crate::player::{Item, Player, PlayerView};
use vstd::prelude::*;

verus! {

/// What a goblin takes off a player's health.
pub const GOBLIN_DAMAGE: i32 = 20;

/// An opponent. Monsters are not kept between visits: each entry into the
/// monster room meets a new one.
#[derive(Debug, PartialEq)]
pub struct Monster {
    pub name: String,
    pub damage: i32,
}

/// Mathematical model of a [`Monster`].
pub struct MonsterView {
    pub name: Seq<char>,
    pub damage: int,
}

impl View for Monster {
    type V = MonsterView;

    open spec fn view(&self) -> MonsterView {
        MonsterView { name: self.name@, damage: self.damage as int }
    }
}

/// How a fight went.
#[derive(Debug, PartialEq)]
pub struct Battle {
    /// The monster that was fought.
    pub monster: Monster,
    /// Whether the player is still alive.
    pub won: bool,
}

/// Mathematical model of a [`Battle`].
pub struct BattleView {
    pub monster: MonsterView,
    pub won: bool,
}

impl View for Battle {
    type V = BattleView;

    open spec fn view(&self) -> BattleView {
        BattleView { monster: self.monster@, won: self.won }
    }
}

/// The one monster of the cave.
pub open spec fn goblin_view() -> MonsterView {
    MonsterView { name: "Goblin"@, damage: GOBLIN_DAMAGE as int }
}

/// The player after taking `damage`: the damage always comes off the health,
/// and a player who is then still alive picks up a sword.
pub open spec fn after_battle(player: PlayerView, damage: int) -> PlayerView {
    let health = player.health - damage;
    PlayerView {
        name: player.name,
        health,
        inventory: if health > 0 {
            player.inventory.push(Item::Sword)
        } else {
            player.inventory
        },
    }
}

/// The fight that [`after_battle`] leaves behind against the goblin.
pub open spec fn goblin_battle(player: PlayerView) -> BattleView {
    BattleView {
        monster: goblin_view(),
        won: after_battle(player, GOBLIN_DAMAGE as int).health > 0,
    }
}

/// Whether `player` can take a goblin's blow: whether the health can go down
/// by [`GOBLIN_DAMAGE`] and still be an `i32`. Every player with health above
/// zero can.
pub open spec fn spec_can_fight(player: &Player) -> bool {
    player.health - GOBLIN_DAMAGE >= i32::MIN
}

/// Whether `player` can take a goblin's blow, for callers that cannot prove
/// it.
#[verifier::when_used_as_spec(spec_can_fight)]
pub fn can_fight(player: &Player) -> (possible: bool)
    ensures
        possible == spec_can_fight(player),
{
    player.health >= i32::MIN + GOBLIN_DAMAGE
}

/// A fresh goblin.
pub fn goblin() -> (monster: Monster)
    ensures
        monster@ == goblin_view(),
{
    Monster { name: "Goblin".to_owned(), damage: GOBLIN_DAMAGE }
}

/// Resolves the encounter in the monster room. A goblin appears and hits
/// the player for [`GOBLIN_DAMAGE`]; a player left with health above zero
/// has beaten it and finds a sword, any other player is defeated and finds
/// nothing.
///
/// The health must be able to go down by the damage without leaving the
/// range of `i32`: see [`can_fight`].
pub fn monster_room(player: &mut Player) -> (battle: Battle)
    requires
        can_fight(old(player)),
    ensures
        final(player)@ == after_battle(old(player)@, GOBLIN_DAMAGE as int),
        battle@ == goblin_battle(old(player)@),
        final(player).health == old(player).health - 20,
        final(player).name == old(player).name,
        final(player).health > 0 ==> final(player).inventory@ == old(player).inventory@.push(
            Item::Sword,
        ),
        final(player).health <= 0 ==> final(player).inventory@ == old(player).inventory@,
        battle.won <==> final(player).health > 0,
{
    let monster = goblin();
    player.health = player.health - monster.damage;
    let won = player.health > 0;
    if won {
        player.inventory.push(Item::Sword);
    }
    Battle { monster, won }
}

/// A won fight adds exactly one sword to the inventory and nothing else:
/// what was held before is still there, in the same order, and no potion
/// comes with the sword.
pub proof fn lemma_victory_adds_one_sword(player: PlayerView, damage: int)
    requires
        player.health - damage > 0,
    ensures
        after_battle(player, damage).inventory.len() == player.inventory.len() + 1,
        after_battle(player, damage).inventory.drop_last() == player.inventory,
        after_battle(player, damage).inventory.last() == Item::Sword,
        after_battle(player, damage).inventory.to_multiset().count(Item::Sword)
            == player.inventory.to_multiset().count(Item::Sword) + 1,
        after_battle(player, damage).inventory.to_multiset().count(Item::HealthPotion)
            == player.inventory.to_multiset().count(Item::HealthPotion),
{
    broadcast use vstd::seq_lib::group_to_multiset_ensures;
}

/// A lost fight changes nothing but the health.
pub proof fn lemma_defeat_keeps_inventory(player: PlayerView, damage: int)
    requires
        player.health - damage <= 0,
    ensures
        after_battle(player, damage).inventory == player.inventory,
        after_battle(player, damage).name == player.name,
        after_battle(player, damage).health == player.health - damage,
{
}

} // verus!
