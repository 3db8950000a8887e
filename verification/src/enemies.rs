//! Enemies and their health.

pub mod slime;

use vstd::prelude::*;
use vstd::std_specs::ops::SubSpecImpl;

verus! {

#[derive(Debug, PartialEq, Eq, Hash, Clone, Copy, Structural)]
pub enum EnemyKind {
    GreenSlime,
}

/// What is left of an enemy's health.
#[derive(Debug, Clone, Copy, PartialEq, Eq, Structural)]
pub struct EnemyHealth(pub u32);

/// What is left of `health` after a hit of `damage`: never less than none.
pub open spec fn after_hit(health: u32, damage: u32) -> u32 {
    if damage >= health {
        0
    } else {
        (health - damage) as u32
    }
}

impl EnemyHealth {
    pub fn new(start_health: u32) -> (health: EnemyHealth)
        ensures
            health.0 == start_health,
    {
        EnemyHealth(start_health)
    }

    /// Takes `damage` off in place.
    pub fn hit(&mut self, damage: u32)
        ensures
            final(self).0 == after_hit(old(self).0, damage),
    {
        self.0 = if damage >= self.0 {
            0
        } else {
            self.0 - damage
        };
    }
}

impl core::ops::Sub<u32> for EnemyHealth {
    type Output = EnemyHealth;

    fn sub(self, rhs: u32) -> (out: EnemyHealth) {
        EnemyHealth(
            if rhs >= self.0 {
                0
            } else {
                self.0 - rhs
            },
        )
    }
}

impl SubSpecImpl<u32> for EnemyHealth {
    open spec fn obeys_sub_spec() -> bool {
        true
    }

    open spec fn sub_req(self, rhs: u32) -> bool {
        true
    }

    open spec fn sub_spec(self, rhs: u32) -> EnemyHealth {
        EnemyHealth(after_hit(self.0, rhs))
    }
}

/// Whether an enemy with the health `enemy` is to be despawned: it is once
/// nothing of its health is left.
pub fn enemy_die_system(enemy: &EnemyHealth) -> (dead: bool)
    ensures
        dead == (enemy.0 == 0),
{
    enemy.0 == 0
}

} // verus!
