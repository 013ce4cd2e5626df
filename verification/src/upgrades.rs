//! Power-ups: the multi-hit upgrade box and the collectible upgrade pickups
//! it releases.

use vstd::prelude::*;

verus! {

use crate::constants::{POS_LIMIT, UPGRADE_BOX_HITS};
use crate::rendering::GameGrid;
use crate::types::{Vector2D, round_cell, round_cell_spec};

/// The eight upgrade kinds a pickup can carry.
#[derive(Clone, Copy, Debug, PartialEq, Eq, Structural)]
pub enum UpgradeType {
    FireRate,
    BulletSpeed,
    BulletSize,
    Booster,
    Shield,
    ShipSize,
    Health,
    HealthMax,
}

/// Pickup glyph: beam upgrades draw as 'B', ship upgrades as 'S', health
/// upgrades as 'H'.
pub open spec fn upgrade_char_spec(t: UpgradeType) -> char {
    match t {
        UpgradeType::FireRate => 'B',
        UpgradeType::BulletSpeed => 'B',
        UpgradeType::BulletSize => 'B',
        UpgradeType::Booster => 'S',
        UpgradeType::Shield => 'S',
        UpgradeType::ShipSize => 'S',
        UpgradeType::Health => 'H',
        UpgradeType::HealthMax => 'H',
    }
}

/// A collectible pickup dropped by a depleted upgrade box; the ship absorbs
/// it by flying within the collection radius.
pub struct Upgrade {
    pub position: Vector2D,
    pub upgrade_type: UpgradeType,
    pub display_char: char,
}

impl Upgrade {
    pub open spec fn wf(&self) -> bool {
        &&& 0 <= self.position.x < POS_LIMIT
        &&& 0 <= self.position.y < POS_LIMIT
        &&& self.display_char == upgrade_char_spec(self.upgrade_type)
    }

    pub fn new(position: Vector2D, upgrade_type: UpgradeType) -> (r: Upgrade)
        requires
            0 <= position.x < POS_LIMIT,
            0 <= position.y < POS_LIMIT,
        ensures
            r.wf(),
            r.position == position,
            r.upgrade_type == upgrade_type,
            r.display_char == upgrade_char_spec(upgrade_type),
    {
        let display_char: char = match upgrade_type {
            UpgradeType::FireRate => 'B',
            UpgradeType::BulletSpeed => 'B',
            UpgradeType::BulletSize => 'B',
            UpgradeType::Booster => 'S',
            UpgradeType::Shield => 'S',
            UpgradeType::ShipSize => 'S',
            UpgradeType::Health => 'H',
            UpgradeType::HealthMax => 'H',
        };
        Upgrade { position, upgrade_type, display_char }
    }

    /// Draw the pickup's single cell.
    pub fn draw(&self, game_grid: &mut GameGrid)
        requires
            self.wf(),
            old(game_grid).wf(),
        ensures
            final(game_grid).wf(),
            final(game_grid).width == old(game_grid).width,
            final(game_grid).height == old(game_grid).height,
    {
        let cx: u16 = round_cell(self.position.x);
        let cy: u16 = round_cell(self.position.y);
        game_grid.set_char(cx, cy, self.display_char);
    }
}

/// The fixed 3-by-3 block of cell offsets an upgrade box occupies, in
/// milli-cells.
pub open spec fn upgrade_box_shape_spec() -> Seq<(i64, i64)> {
    seq![
        (-1000i64, -1000i64),
        (0i64, -1000i64),
        (1000i64, -1000i64),
        (-1000i64, 0i64),
        (0i64, 0i64),
        (1000i64, 0i64),
        (-1000i64, 1000i64),
        (0i64, 1000i64),
        (1000i64, 1000i64),
    ]
}

/// A destructible crate: each bullet hit burns one charge, and on the last
/// hit the resolver replaces the box with one to three pickups.
pub struct UpgradeBox {
    pub position: Vector2D,
    pub hits_remaining: u32,
    pub shape: Vec<(i64, i64)>,
    pub display_char: char,
}

impl UpgradeBox {
    pub open spec fn wf(&self) -> bool {
        &&& 0 <= self.position.x < POS_LIMIT
        &&& 0 <= self.position.y < POS_LIMIT
        &&& 1 <= self.hits_remaining <= UPGRADE_BOX_HITS
        &&& self.shape@ == upgrade_box_shape_spec()
        &&& self.display_char == 'U'
    }

    /// The display cell covered by shape point `i`.
    pub open spec fn cell_spec(&self, i: int) -> (int, int) {
        (
            round_cell_spec(self.position.x + self.shape@[i].0),
            round_cell_spec(self.position.y + self.shape@[i].1),
        )
    }

    pub fn new(x: i64, y: i64) -> (r: UpgradeBox)
        requires
            0 <= x < POS_LIMIT,
            0 <= y < POS_LIMIT,
        ensures
            r.wf(),
            r.position.x == x,
            r.position.y == y,
            r.hits_remaining == UPGRADE_BOX_HITS,
    {
        let mut shape: Vec<(i64, i64)> = Vec::new();
        shape.push((-1000i64, -1000i64));
        shape.push((0i64, -1000i64));
        shape.push((1000i64, -1000i64));
        shape.push((-1000i64, 0i64));
        shape.push((0i64, 0i64));
        shape.push((1000i64, 0i64));
        shape.push((-1000i64, 1000i64));
        shape.push((0i64, 1000i64));
        shape.push((1000i64, 1000i64));
        proof {
            assert(shape@ =~= upgrade_box_shape_spec());
        }
        UpgradeBox {
            position: Vector2D { x, y },
            hits_remaining: UPGRADE_BOX_HITS,
            shape,
            display_char: 'U',
        }
    }

    /// The display cells this box currently occupies.
    pub fn get_absolute_coords(&self) -> (r: Vec<(u16, u16)>)
        requires
            self.wf(),
        ensures
            r@.len() == self.shape@.len(),
            forall|i: int|
                0 <= i < r@.len() ==> (#[trigger] r@[i]).0 as int == self.cell_spec(i).0 && r@[
                    i
                ].1 as int == self.cell_spec(i).1,
    {
        let mut r: Vec<(u16, u16)> = Vec::new();
        let mut i: usize = 0;
        while i < self.shape.len()
            invariant
                self.wf(),
                i <= self.shape@.len(),
                r@.len() == i as int,
                forall|k: int|
                    0 <= k < i as int ==> (#[trigger] r@[k]).0 as int == self.cell_spec(k).0 && r@[
                        k
                    ].1 as int == self.cell_spec(k).1,
            decreases self.shape@.len() - i,
        {
            let (dx, dy) = self.shape[i];
            assert(-1000 <= dx <= 1000 && -1000 <= dy <= 1000);
            let cx: u16 = round_cell(self.position.x + dx);
            let cy: u16 = round_cell(self.position.y + dy);
            r.push((cx, cy));
            i = i + 1;
        }
        r
    }

    /// Draw the box's cells onto the grid.
    pub fn draw(&self, game_grid: &mut GameGrid)
        requires
            self.wf(),
            old(game_grid).wf(),
        ensures
            final(game_grid).wf(),
            final(game_grid).width == old(game_grid).width,
            final(game_grid).height == old(game_grid).height,
    {
        let coords = self.get_absolute_coords();
        let mut i: usize = 0;
        while i < coords.len()
            invariant
                game_grid.wf(),
                game_grid.width == old(game_grid).width,
                game_grid.height == old(game_grid).height,
            decreases coords@.len() - i,
        {
            let (cx, cy) = coords[i];
            game_grid.set_char(cx, cy, self.display_char);
            i = i + 1;
        }
    }
}

} // verus!
