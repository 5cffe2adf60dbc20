//! Portals and the realms they lead to. A portal picks a realm other than
//! the one the player is already in, and each realm has a fixed colour for
//! the portal's material.

use crate::random::random_below;
use vstd::prelude::*;

verus! {

/// One of the four cosmetic realms a portal can lead to.
#[derive(Clone, Copy, Debug, PartialEq, Eq, Structural)]
pub enum Realm {
    Overworld,
    Nether,
    EightBit,
    Inverted,
}

impl Realm {
    /// The position of this realm in the fixed realm order.
    pub open spec fn index_spec(self) -> int {
        match self {
            Realm::Overworld => 0,
            Realm::Nether => 1,
            Realm::EightBit => 2,
            Realm::Inverted => 3,
        }
    }

    /// The realm at a position in the fixed realm order; out-of-range
    /// positions fall back to the overworld.
    pub open spec fn from_index_spec(i: int) -> Realm {
        if i == 0 {
            Realm::Overworld
        } else if i == 1 {
            Realm::Nether
        } else if i == 2 {
            Realm::EightBit
        } else if i == 3 {
            Realm::Inverted
        } else {
            Realm::Overworld
        }
    }

    /// The position of this realm in the fixed realm order.
    pub fn index(&self) -> (i: u32)
        ensures
            i as int == self.index_spec(),
    {
        match self {
            Realm::Overworld => 0,
            Realm::Nether => 1,
            Realm::EightBit => 2,
            Realm::Inverted => 3,
        }
    }

    /// The realm at a position in the fixed realm order.
    pub fn from_index(i: u32) -> (r: Realm)
        ensures
            r == Realm::from_index_spec(i as int),
    {
        match i {
            0 => Realm::Overworld,
            1 => Realm::Nether,
            2 => Realm::EightBit,
            3 => Realm::Inverted,
            _ => Realm::Overworld,
        }
    }

    /// The red, green and blue components of this realm's portal colour.
    pub open spec fn colour_spec(self) -> (u8, u8, u8) {
        match self {
            Realm::Overworld => (77u8, 140u8, 87u8),
            Realm::EightBit => (255u8, 105u8, 180u8),
            Realm::Nether => (139u8, 0u8, 0u8),
            Realm::Inverted => (104u8, 51u8, 255u8),
        }
    }

    /// The red, green and blue components of this realm's portal colour.
    pub fn get_colour(&self) -> (c: (u8, u8, u8))
        ensures
            c == self.colour_spec(),
    {
        match self {
            Realm::Overworld => (77, 140, 87),
            Realm::EightBit => (255, 105, 180),
            Realm::Nether => (139, 0, 0),
            Realm::Inverted => (104, 51, 255),
        }
    }
}

/// A portal leading out of the current realm. The engine-side mesh and
/// material are handled by the host; this holds the realm the portal leads
/// to, which its colour is derived from.
pub struct Portal {
    pub portal_realm: Realm,
}

impl Portal {
    /// A fresh portal, before setup, leads to the overworld.
    pub fn new() -> (p: Portal)
        ensures
            p.portal_realm == Realm::Overworld,
    {
        Portal { portal_realm: Realm::Overworld }
    }

    /// Picks this portal's realm: a uniform draw over the three realms other
    /// than the current one, so a portal never leads back into the realm the
    /// player is already in.
    pub fn setup(&mut self, current_realm: &Realm)
        ensures
            final(self).portal_realm != *current_realm,
    {
        let offset = random_below(3) + 1;
        let drawn = (current_realm.index() + offset) % 4;
        let random_realm = Realm::from_index(drawn);
        self.portal_realm = random_realm;
    }
}

} // verus!
