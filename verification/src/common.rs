//! Shared data types of the Panda3D formats.

use vstd::prelude::*;

verus! {

/// A format revision, as a major and a minor number.
#[derive(Clone, Copy, Debug, Default, PartialEq, Eq, Structural)]
pub struct Version {
    pub major: u16,
    pub minor: u16,
}

} // verus!
