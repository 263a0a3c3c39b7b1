//! Hits and pickups: which enemies a swing destroys and what they drop, and
//! which dropped items the player collects.

use vstd::prelude::*;
use crate::chance::random_byte;
use crate::color::ColorId;
use crate::ledger::CollectionLedger;
use crate::player::PlayerState;
use crate::vector::{within, Vec2};

verus! {

/// Radius of the swing's hit circle, in thousandths of a pixel.
pub const HIT_RADIUS: u32 = 60_000;

/// Radius within which the player picks an item up, in thousandths of a pixel.
pub const PICKUP_RADIUS: u32 = 60_000;

/// An item lying on the field.
#[derive(Clone, Copy, Debug, PartialEq, Eq, Structural)]
pub struct ItemDrop {
    pub position: Vec2,
    pub color: ColorId,
}

/// The enemies inside the hit circle round `anchor`, in their order.
pub open spec fn struck(anchor: Vec2, enemies: Seq<Vec2>) -> Seq<Vec2>
    decreases enemies.len(),
{
    if enemies.len() == 0 {
        Seq::empty()
    } else if within(anchor, enemies.last(), HIT_RADIUS as nat) {
        struck(anchor, enemies.drop_last()).push(enemies.last())
    } else {
        struck(anchor, enemies.drop_last())
    }
}

/// The enemies outside the hit circle round `anchor`, in their order.
pub open spec fn missed(anchor: Vec2, enemies: Seq<Vec2>) -> Seq<Vec2>
    decreases enemies.len(),
{
    if enemies.len() == 0 {
        Seq::empty()
    } else if within(anchor, enemies.last(), HIT_RADIUS as nat) {
        missed(anchor, enemies.drop_last())
    } else {
        missed(anchor, enemies.drop_last()).push(enemies.last())
    }
}

/// Where the items of `drops` lie.
pub open spec fn positions_of(drops: Seq<ItemDrop>) -> Seq<Vec2> {
    Seq::new(drops.len(), |i: int| drops[i].position)
}

/// The colours of the items within the player's reach, in their order.
pub open spec fn picked_colors(at: Vec2, items: Seq<ItemDrop>) -> Seq<ColorId>
    decreases items.len(),
{
    if items.len() == 0 {
        Seq::empty()
    } else if within(at, items.last().position, PICKUP_RADIUS as nat) {
        picked_colors(at, items.drop_last()).push(items.last().color)
    } else {
        picked_colors(at, items.drop_last())
    }
}

/// The items out of the player's reach, in their order.
pub open spec fn left_lying(at: Vec2, items: Seq<ItemDrop>) -> Seq<ItemDrop>
    decreases items.len(),
{
    if items.len() == 0 {
        Seq::empty()
    } else if within(at, items.last().position, PICKUP_RADIUS as nat) {
        left_lying(at, items.drop_last())
    } else {
        left_lying(at, items.drop_last()).push(items.last())
    }
}

/// The player after picking up items of the colours `picked`, one after the
/// other: each gives its colour to the swing, so the last one stays.
pub open spec fn after_pickups(p: PlayerState, picked: Seq<ColorId>) -> PlayerState {
    if picked.len() == 0 {
        p
    } else {
        PlayerState { phase: p.phase.recolored(picked.last()), swing_color: picked.last(), ..p }
    }
}

/// Every enemy is either struck or missed.
pub proof fn struck_and_missed_partition(anchor: Vec2, enemies: Seq<Vec2>)
    ensures
        struck(anchor, enemies).len() + missed(anchor, enemies).len() == enemies.len(),
        forall|i: int|
            0 <= i < struck(anchor, enemies).len() ==> within(
                anchor,
                #[trigger] struck(anchor, enemies)[i],
                HIT_RADIUS as nat,
            ),
        forall|i: int|
            0 <= i < missed(anchor, enemies).len() ==> !within(
                anchor,
                #[trigger] missed(anchor, enemies)[i],
                HIT_RADIUS as nat,
            ),
    decreases enemies.len(),
{
    if enemies.len() > 0 {
        struck_and_missed_partition(anchor, enemies.drop_last());
    }
}

/// When every enemy is inside the hit circle, all are struck and none stays.
pub proof fn all_in_reach_all_struck(anchor: Vec2, enemies: Seq<Vec2>)
    requires
        forall|i: int|
            0 <= i < enemies.len() ==> within(anchor, #[trigger] enemies[i], HIT_RADIUS as nat),
    ensures
        struck(anchor, enemies) == enemies,
        missed(anchor, enemies) == Seq::<Vec2>::empty(),
    decreases enemies.len(),
{
    if enemies.len() > 0 {
        all_in_reach_all_struck(anchor, enemies.drop_last());
        assert(enemies.drop_last().push(enemies.last()) =~= enemies);
    }
}

/// When every item is within reach, each is picked up, in order, and none
/// is left: as many colours are recorded as there were items.
pub proof fn all_in_reach_all_picked(at: Vec2, items: Seq<ItemDrop>)
    requires
        forall|i: int|
            0 <= i < items.len() ==> within(at, (#[trigger] items[i]).position, PICKUP_RADIUS as nat),
    ensures
        picked_colors(at, items) == Seq::new(items.len(), |i: int| items[i].color),
        picked_colors(at, items).len() == items.len(),
        left_lying(at, items) == Seq::<ItemDrop>::empty(),
    decreases items.len(),
{
    if items.len() > 0 {
        all_in_reach_all_picked(at, items.drop_last());
        assert(picked_colors(at, items) =~= Seq::new(items.len(), |i: int| items[i].color));
    }
}

/// Every item is either picked up or left lying.
pub proof fn picked_and_left_partition(at: Vec2, items: Seq<ItemDrop>)
    ensures
        picked_colors(at, items).len() + left_lying(at, items).len() == items.len(),
    decreases items.len(),
{
    if items.len() > 0 {
        picked_and_left_partition(at, items.drop_last());
    }
}

/// The item that a destroyed enemy leaves: it lies where the enemy was, and
/// the random byte picks its colour.
pub fn drop_for(enemy: Vec2, roll: u8) -> (r: ItemDrop)
    ensures
        r.position == enemy,
        r.color == ColorId::at((roll % 3) as int),
{
    ItemDrop { position: enemy, color: ColorId::from_roll(roll) }
}

/// Resolves the swing against the enemies of this tick. Outside the two
/// active frames nothing happens. In them every enemy inside the hit circle
/// is removed and leaves one item where it was, of a random colour; the
/// others stay, in their order.
pub fn resolve_swing(player: &PlayerState, enemies: &mut Vec<Vec2>) -> (drops: Vec<ItemDrop>)
    ensures
        !player.phase.active() ==> final(enemies)@ == old(enemies)@ && drops@.len() == 0,
        player.phase.active() ==> final(enemies)@ == missed(player.anchor(), old(enemies)@)
            && positions_of(drops@) == struck(player.anchor(), old(enemies)@),
{
    let mut drops: Vec<ItemDrop> = Vec::new();
    if !player.phase.is_active() {
        return drops;
    }
    let anchor: Vec2 = player.hit_anchor();
    let mut kept: Vec<Vec2> = Vec::new();
    let n: usize = enemies.len();
    let mut i: usize = 0;
    while i < n
        invariant
            n == enemies@.len(),
            i <= n,
            kept@ == missed(anchor, enemies@.take(i as int)),
            positions_of(drops@) == struck(anchor, enemies@.take(i as int)),
        decreases n - i,
    {
        let e: Vec2 = enemies[i];
        let ghost before = drops@;
        proof {
            assert(enemies@.take(i + 1).drop_last() =~= enemies@.take(i as int));
        }
        if anchor.within_radius(e, HIT_RADIUS) {
            let roll: u8 = random_byte();
            drops.push(drop_for(e, roll));
            assert(positions_of(drops@) =~= positions_of(before).push(e));
        } else {
            kept.push(e);
        }
        i = i + 1;
    }
    assert(enemies@.take(n as int) =~= enemies@);
    *enemies = kept;
    drops
}

/// Picks up every item within the player's reach. Each is recorded in the
/// ledger, gives the swing its colour and leaves the field. Returns the
/// colours picked up, in the order in which they were recorded.
pub fn collect_items(
    player: &mut PlayerState,
    ledger: &mut CollectionLedger,
    items: &mut Vec<ItemDrop>,
) -> (picked: Vec<ColorId>)
    ensures
        picked@ == picked_colors(old(player).position, old(items)@),
        final(items)@ == left_lying(old(player).position, old(items)@),
        final(ledger)@ == old(ledger)@ + picked@,
        *final(player) == after_pickups(*old(player), picked@),
        old(player).wf() ==> final(player).wf(),
{
    let mut picked: Vec<ColorId> = Vec::new();
    let mut kept: Vec<ItemDrop> = Vec::new();
    let at: Vec2 = player.position;
    let n: usize = items.len();
    let mut i: usize = 0;
    while i < n
        invariant
            n == items@.len(),
            i <= n,
            at == old(player).position,
            picked@ == picked_colors(at, items@.take(i as int)),
            kept@ == left_lying(at, items@.take(i as int)),
            ledger@ == old(ledger)@ + picked@,
            *player == after_pickups(*old(player), picked@),
            old(player).wf() ==> player.wf(),
        decreases n - i,
    {
        let item: ItemDrop = items[i];
        proof {
            assert(items@.take(i + 1).drop_last() =~= items@.take(i as int));
        }
        if at.within_radius(item.position, PICKUP_RADIUS) {
            ledger.append(item.color);
            player.take_color(item.color);
            picked.push(item.color);
            assert(ledger@ =~= old(ledger)@ + picked@);
        } else {
            kept.push(item);
        }
        i = i + 1;
    }
    assert(items@.take(n as int) =~= items@);
    *items = kept;
    picked
}

} // verus!
