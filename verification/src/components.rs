//! Tags for the interactive widgets of the in-game screen.

use vstd::prelude::*;

verus! {

/// Which component a widget value is.
#[derive(Clone, Copy, Debug, PartialEq, Eq, Structural)]
pub enum ComponentType {
    EntityList,
    Command,
    Turn,
}

} // verus!
