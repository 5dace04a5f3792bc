//! Stellar objects: the things that exist inside a sector.

use vstd::prelude::*;
use crate::table::{find_first, first_match};

verus! {

/// What kind of thing a stellar object is.
#[derive(Clone, Copy, Debug, PartialEq, Eq, PartialOrd, Structural)]
pub enum StellarObjectKinds {
    Ship,
    Asteroid,
    CargoCrate,
    Station,
    JumpGate,
}

/// An object that exists inside a sector.
#[derive(Clone, Copy, Debug, PartialEq, Eq, Structural)]
pub struct StellarObject {
    pub id: u64,
    pub kind: StellarObjectKinds,
    pub sector_id: u64,
}

/// Marks a stellar object that keeps turning left.
#[derive(Clone, Copy, Debug, PartialEq, Eq, Structural)]
pub struct StellarObjectControllerTurnLeft {
    pub id: u64,
}

impl StellarObject {
    pub fn id(&self) -> (r: u64)
        ensures
            r == self.id,
    {
        self.id
    }
}

impl StellarObjectControllerTurnLeft {
    pub fn id(&self) -> (r: u64)
        ensures
            r == self.id,
    {
        self.id
    }
}

pub open spec fn object_with_id(id: u64) -> spec_fn(StellarObject) -> bool {
    |o: StellarObject| o.id == id
}

/// A stellar object, looked up by its primary key.
pub fn find_stellar_object(objects: &Vec<StellarObject>, id: u64) -> (r: Option<StellarObject>)
    ensures
        r == first_match(objects@, object_with_id(id)),
{
    let ghost pred = object_with_id(id);
    let matches = |row: &StellarObject| -> (b: bool)
        ensures
            b == (row.id == id),
        { row.id == id };
    find_first(objects, matches, Ghost(pred))
}

pub open spec fn spec_same_sector(objects: Seq<StellarObject>, id1: u64, id2: u64) -> bool {
    match (first_match(objects, object_with_id(id1)), first_match(objects, object_with_id(id2))) {
        (Some(a), Some(b)) => a.sector_id == b.sector_id,
        _ => false,
    }
}

/// Whether two stellar objects, looked up by id, are in the same sector;
/// false when either does not exist.
pub fn same_sector_from_ids(objects: &Vec<StellarObject>, id1: u64, id2: u64) -> (r: bool)
    ensures
        r == spec_same_sector(objects@, id1, id2),
{
    if let Some(sobj1) = find_stellar_object(objects, id1) {
        if let Some(sobj2) = find_stellar_object(objects, id2) {
            return sobj1.sector_id == sobj2.sector_id;
        }
    }
    false
}

/// Being in the same sector is symmetric, and an existing object is in the
/// same sector as itself.
pub proof fn lemma_same_sector_symmetric(objects: Seq<StellarObject>, id1: u64, id2: u64)
    ensures
        spec_same_sector(objects, id1, id2) == spec_same_sector(objects, id2, id1),
        spec_same_sector(objects, id1, id1) <==> first_match(objects, object_with_id(id1)) is Some,
{
}

} // verus!
