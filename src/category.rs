//! The groups into which the map metas are sorted.

use vstd::prelude::*;

verus! {

/// The release that a map meta belongs to.
#[derive(Clone, Copy, Debug, PartialEq, Eq, Structural)]
pub enum Category {
    CoreTyria,
    LivingWorldSeason2,
    HeartOfThorns,
    LivingWorldSeason3,
    PathOfFire,
    LivingWorldSeason4,
    TheIcebroodSaga,
    EndOfDragons,
}

} // verus!
