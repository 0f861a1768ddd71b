//! The two interpretations of a layout configuration.

use vstd::prelude::*;

verus! {

/// Selects how the configuration text is interpreted.
#[derive(Copy, Clone, Debug, PartialEq, Eq, PartialOrd, Ord, Hash, Structural)]
pub enum ConfigType {
    /// Memory layout config
    Memory,
    /// Image layout config
    Image,
}

} // verus!
