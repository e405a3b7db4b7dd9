//! The entity registry: the one store of live combat entities — the
//! pawn, the enemies, and the weapon — and the counter fresh enemy ids
//! are drawn from.

use vstd::prelude::*;

use crate::enemy::all_wf;
use crate::enemy::ids_below;
use crate::enemy::unique_ids;
use crate::enemy::Enemy;
use crate::pawn::Pawn;
use crate::weapon::Weapon;

verus! {

/// The store of live combat entities. It owns every record; the other
/// subsystems work on it one at a time within a tick.
pub struct Registry {
    pub pawn: Option<Pawn>,
    pub enemies: Vec<Enemy>,
    pub weapon: Option<Weapon>,
    /// The id the next spawned enemy receives; above every live id.
    pub next_id: u64,
}

impl Registry {
    /// Every record within bounds, enemy ids unique and below the
    /// fresh-id counter.
    pub open spec fn wf(self) -> bool {
        &&& all_wf(self.enemies@)
        &&& unique_ids(self.enemies@)
        &&& ids_below(self.enemies@, self.next_id)
        &&& (self.pawn matches Some(p) ==> p.wf())
        &&& (self.weapon matches Some(w) ==> w.wf())
    }

    /// No live entity at all.
    pub open spec fn empty(self) -> bool {
        &&& self.pawn is None
        &&& self.weapon is None
        &&& self.enemies@.len() == 0
    }

    /// A registry with nothing live in it.
    pub fn new() -> (r: Registry)
        ensures
            r.wf(),
            r.empty(),
            r.next_id == 0,
    {
        Registry { pawn: None, enemies: Vec::new(), weapon: None, next_id: 0 }
    }

    /// Despawns every live entity at once, as a state-machine exit
    /// does. The id counter is kept, so ids are never reused.
    pub fn clear(&mut self)
        ensures
            final(self).empty(),
            final(self).wf(),
            final(self).next_id == old(self).next_id,
    {
        self.pawn = None;
        self.weapon = None;
        self.enemies = Vec::new();
    }
}

} // verus!
