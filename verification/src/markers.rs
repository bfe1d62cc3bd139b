use vstd::prelude::*;

verus! {

/// Radius of the first and the last point of a training path.
pub const ENDPOINT_RADIUS: u32 = 8;

/// Radius of every other point of a training path.
pub const POINT_RADIUS: u32 = 4;

/// Every point whose index is a multiple of this carries its epoch label.
pub const LABEL_INTERVAL: usize = 10;

/// How one point of a training path is drawn.
#[derive(PartialEq, Eq, Structural, Debug, Clone, Copy)]
pub struct PathMarker {
    /// Radius of the dot, in pixels.
    pub radius: u32,
    /// Whether the dot is labelled with its epoch.
    pub labelled: bool,
}

/// The style of point `index` of a training path of `count` points: the
/// endpoints are drawn large, and every tenth point is labelled.
pub fn path_marker(index: usize, count: usize) -> (m: PathMarker)
    requires
        index < count,
    ensures
        m.radius == if index == 0 || index == count - 1 { ENDPOINT_RADIUS } else { POINT_RADIUS },
        m.labelled == (index % LABEL_INTERVAL == 0),
{
    let radius = if index == 0 || index == count - 1 { ENDPOINT_RADIUS } else { POINT_RADIUS };
    PathMarker { radius, labelled: index % LABEL_INTERVAL == 0 }
}

} // verus!
