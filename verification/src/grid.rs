//! Authoring grid line tiers.

use vstd::prelude::*;

verus! {

/// Which visual tier a grid segment belongs to.
#[derive(Debug, Clone, Copy, PartialEq, Eq, Structural)]
pub enum GridLineKind {
    /// Primary grid line (every LOD-adjusted cell)
    Primary,
    /// Subdivision line between primary lines
    Secondary,
    /// The world X axis (y = 0)
    AxisX,
    /// The world Y axis (x = 0)
    AxisY,
}

} // verus!
