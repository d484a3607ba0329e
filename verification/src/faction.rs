//! Factions and the physics layers that decide who collides with whom.

use vstd::prelude::*;

verus! {

/// The physics layers of the game, one bit each in a layer mask.
#[derive(Clone, Copy, Debug, PartialEq, Eq, Structural)]
pub enum GameLayer {
    Player,
    Enemy,
    Projectile,
}

impl GameLayer {
    /// The layer's bit: `1 << i` for the `i`-th layer in declaration order.
    pub open spec fn bit(self) -> u32 {
        match self {
            GameLayer::Player => 1u32,
            GameLayer::Enemy => 2u32,
            GameLayer::Projectile => 4u32,
        }
    }

    /// The layer's bit in a layer mask.
    pub fn to_bits(self) -> (bits: u32)
        ensures
            bits == self.bit(),
    {
        match self {
            GameLayer::Player => 1u32,
            GameLayer::Enemy => 2u32,
            GameLayer::Projectile => 4u32,
        }
    }
}

/// A set of physics layers, one bit per layer.
#[derive(Clone, Copy, Debug, PartialEq, Eq, Structural)]
pub struct LayerMask(pub u32);

impl LayerMask {
    /// The mask with every layer.
    pub fn all() -> (mask: LayerMask)
        ensures
            mask.0 == u32::MAX,
    {
        LayerMask(u32::MAX)
    }

    /// The mask with just `layer`.
    pub fn from_layer(layer: GameLayer) -> (mask: LayerMask)
        ensures
            mask.0 == layer.bit(),
    {
        LayerMask(layer.to_bits())
    }

    /// Whether `layer` is in the mask.
    pub open spec fn has(self, layer: GameLayer) -> bool {
        self.0 & layer.bit() != 0
    }

    /// Take the layers of `other` out of the mask.
    pub fn remove(&mut self, other: LayerMask)
        ensures
            final(self).0 == old(self).0 & !other.0,
    {
        self.0 = self.0 & !other.0;
    }
}

/// Which side an actor fights for.
#[derive(Clone, Copy, Debug, PartialEq, Eq, Structural)]
pub enum Faction {
    Player,
    Enemy,
}

impl Faction {
    /// Whether this is the player's faction.
    pub fn is_player(&self) -> (r: bool)
        ensures
            r == (*self == Faction::Player),
    {
        match self {
            Faction::Player => true,
            Faction::Enemy => false,
        }
    }

    /// Whether this is the enemies' faction.
    pub fn is_enemy(&self) -> (r: bool)
        ensures
            r == (*self == Faction::Enemy),
    {
        match self {
            Faction::Player => false,
            Faction::Enemy => true,
        }
    }

    /// The physics layer of the faction's actors.
    pub open spec fn game_layer(self) -> GameLayer {
        match self {
            Faction::Player => GameLayer::Player,
            Faction::Enemy => GameLayer::Enemy,
        }
    }

    /// The layer mask of the faction's actors.
    pub fn layer(&self) -> (mask: LayerMask)
        ensures
            mask.0 == self.game_layer().bit(),
    {
        match self {
            Faction::Player => LayerMask::from_layer(GameLayer::Player),
            Faction::Enemy => LayerMask::from_layer(GameLayer::Enemy),
        }
    }
}

/// The layers a projectile fired by `faction` collides with: everything but
/// other projectiles and its owner's own faction.
pub fn projectile_target_layers(faction: Faction) -> (mask: LayerMask)
    ensures
        mask.0 == u32::MAX & !GameLayer::Projectile.bit() & !faction.game_layer().bit(),
{
    let mut x = LayerMask::all();
    x.remove(LayerMask::from_layer(GameLayer::Projectile));
    x.remove(faction.layer());
    x
}

/// A projectile hits exactly the layers other than projectiles and its own
/// faction: player projectiles hit enemies, enemy projectiles hit the player.
pub proof fn law_projectiles_hit_the_other_side(faction: Faction, mask: LayerMask, layer: GameLayer)
    requires
        mask.0 == u32::MAX & !GameLayer::Projectile.bit() & !faction.game_layer().bit(),
    ensures
        mask.has(layer) <==> (layer != GameLayer::Projectile && layer != faction.game_layer()),
{
    let b = layer.bit();
    let f = faction.game_layer().bit();
    let m = mask.0;
    assert(b == 1 || b == 2 || b == 4);
    assert(f == 1 || f == 2);
    if b == 4 {
        assert(m & 4u32 == 0) by (bit_vector)
            requires
                m == u32::MAX & !4u32 & !f,
        ;
    } else if b == f {
        assert(m & b == 0) by (bit_vector)
            requires
                m == u32::MAX & !4u32 & !f,
                b == f,
        ;
    } else {
        assert(m & b != 0) by (bit_vector)
            requires
                m == u32::MAX & !4u32 & !f,
                b == 1 || b == 2,
                f == 1 || f == 2,
                b != f,
        ;
    }
}

} // verus!
