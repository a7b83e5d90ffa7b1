//! Small value types shared by the entities.

use vstd::prelude::*;

verus! {

/// A 64-bit identifier, unique across the platform.
#[derive(Clone, Copy, Debug, PartialEq, Eq, Structural, PartialOrd, Ord, Hash)]
pub struct Snowflake(pub u64);

impl Default for Snowflake {
    fn default() -> (id: Self)
        ensures
            id == Snowflake(0),
    {
        Snowflake(0)
    }
}

/// A point in time: seconds since the Unix epoch, and nanoseconds within the
/// second.
#[derive(Clone, Copy, Debug, PartialEq, Eq, Structural, Hash)]
pub struct Timestamp {
    pub seconds: i64,
    pub nanoseconds: u32,
}

/// A set of permissions, one bit each. Which bit stands for which permission
/// is the server's business; the engine carries the set as it is.
#[derive(Clone, Copy, Debug, Default, PartialEq, Eq, Structural, PartialOrd, Ord, Hash)]
pub struct PermissionFlags(pub u64);

} // verus!
