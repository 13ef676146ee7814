//! Records of the road book: races and their checkpoints.
use vstd::prelude::*;

verus! {

/// A race.
#[derive(Clone, Debug, PartialEq, Eq)]
pub struct Race {
    pub id: i64,
    pub name: String,
    /// Creation time, as the store writes it.
    pub created_at: String,
}

/// A checkpoint ("PC") of a race, numbered within it.
#[derive(Clone, Debug, PartialEq, Eq)]
pub struct PC {
    pub id: i64,
    pub race_id: i64,
    pub pc_number: i32,
    /// Creation time, as the store writes it.
    pub created_at: String,
}

} // verus!
