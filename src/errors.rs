use vstd::prelude::*;

verus! {

/// Failures that the engine reports to its caller instead of aborting.
#[derive(Debug, Clone, Copy, PartialEq, Eq, Structural)]
pub enum Error {
    /// A level, room, item or skill id has no entry in the catalog.
    DataNotFound,
    /// The operation needs a current room and none is set.
    NoCurrentRoom,
    /// The operation needs a current level and none is set.
    NoCurrentLevel,
    /// An item was to be equipped that the player does not own.
    ItemNotOwned,
    /// A position in a list was past its end.
    IndexOutOfRange,
}

} // verus!
