//! Services that give values the logic cannot compute: fresh ids.
use vstd::prelude::*;

verus! {

/// A source of fresh UUIDs.
pub trait UuidGenerator: Send + Sync {
    fn generate_uuid(&self) -> uuid::Uuid;
}

/// UUIDs of version 4, from random bytes.
pub struct DefaultUuidGenerator;

/// Calls `uuid::Uuid::new_v4`, which is random: nothing is stated of the result.
#[verifier::external_body]
fn random_uuid() -> (r: uuid::Uuid) {
    uuid::Uuid::new_v4()
}

impl UuidGenerator for DefaultUuidGenerator {
    fn generate_uuid(&self) -> uuid::Uuid {
        random_uuid()
    }
}

} // verus!
