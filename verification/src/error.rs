//! The error taxonomy of the core: both variants are fatal to the caller.

use vstd::prelude::*;

verus! {

#[derive(Clone, Copy, Debug, PartialEq, Eq, Structural)]
pub enum Error {
    /// The round order was empty while a round was considered active: the
    /// roster/round invariant was broken by a caller skipping
    /// `set_entities`.
    EmptyRound,
    /// The sending half of the event channel was dropped: the event
    /// source is gone and the session cannot continue.
    SourceDisconnected,
}

} // verus!
