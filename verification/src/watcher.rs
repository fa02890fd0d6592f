//! The proximity watcher: turns the physics layer's contact-sensor output
//! into at most one `CollisionWith` event per tick.
//!
//! The sensor is an external read-only query reporting either no contact or
//! the single contacted entity.  An absent reading — including the case
//! where the player entity itself is gone — is a benign no-op for the tick,
//! not an error.  The scheduler runs this only while the game is in the
//! `Game` state.

use crate::events::CollisionWith;
use crate::events::EventQueue;
use vstd::prelude::*;

verus! {

/// Read one sensor sample and emit a `CollisionWith` event for it, if a
/// contact exists.  Emits at most one event per call; with no contact the
/// channel is untouched.
pub fn poll(sensor_contact: Option<u64>, collisions: &mut EventQueue<CollisionWith>)
    ensures
        sensor_contact matches Option::Some(entity) ==> final(collisions)@ == old(
            collisions,
        )@.push(CollisionWith { entity }),
        sensor_contact is None ==> final(collisions)@ == old(collisions)@,
{
    if let Option::Some(entity) = sensor_contact {
        collisions.push(CollisionWith { entity });
    }
}

} // verus!
