use vstd::prelude::*;

verus! {

/// Clears the sign bit of an IEEE-754 binary64 bit pattern.
pub const MAGNITUDE_MASK: u64 = 0x7fff_ffff_ffff_ffff;

/// Bit pattern of positive infinity; every larger magnitude pattern is a NaN.
pub const INFINITY_BITS: u64 = 0x7ff0_0000_0000_0000;

/// The magnitude of a binary64 value, as its sign-cleared bit pattern.
///
/// For values that are not NaN, these patterns order exactly as the absolute
/// values do, so comparing them compares `|x|`.
pub open spec fn magnitude_key(bits: u64) -> u64 {
    bits & MAGNITUDE_MASK
}

/// Whether a binary64 bit pattern is a NaN.
pub open spec fn is_nan_bits(bits: u64) -> bool {
    magnitude_key(bits) > INFINITY_BITS
}

/// The world plane that a face is projected onto under the standard projection.
#[derive(Clone, Copy, Debug, PartialEq, Eq)]
pub enum ProjectionAxis {
    /// The normal is closest to Z: the vertex maps to `(x, -y)`.
    Up,
    /// The normal is closest to Y: the vertex maps to `(x, -z)`.
    Right,
    /// The normal is closest to X: the vertex maps to `(y, -z)`.
    Forward,
}

/// A plane normal with no dominant axis: zero length, or not a number.
#[derive(Clone, Copy, Debug, PartialEq, Eq)]
pub struct DegenerateNormal;

/// Whether a normal, given by the bit patterns of its components, has no
/// dominant axis.
pub open spec fn is_degenerate(x: u64, y: u64, z: u64) -> bool {
    ||| is_nan_bits(x)
    ||| is_nan_bits(y)
    ||| is_nan_bits(z)
    ||| (magnitude_key(x) == 0 && magnitude_key(y) == 0 && magnitude_key(z) == 0)
}

/// The magnitude of the normal's component along `axis`.
pub open spec fn axis_magnitude(axis: ProjectionAxis, x: u64, y: u64, z: u64) -> u64 {
    match axis {
        ProjectionAxis::Up => magnitude_key(z),
        ProjectionAxis::Right => magnitude_key(y),
        ProjectionAxis::Forward => magnitude_key(x),
    }
}

/// The axis with the largest component magnitude; on ties Up wins over
/// Right, which wins over Forward.
pub open spec fn dominant_axis_spec(x: u64, y: u64, z: u64) -> Option<ProjectionAxis> {
    let up = magnitude_key(z);
    let right = magnitude_key(y);
    let forward = magnitude_key(x);
    if is_degenerate(x, y, z) {
        None
    } else if up >= right && up >= forward {
        Some(ProjectionAxis::Up)
    } else if right >= forward {
        Some(ProjectionAxis::Right)
    } else {
        Some(ProjectionAxis::Forward)
    }
}

/// Chooses the projection plane of the standard projection for a face whose
/// normal has the components `normal_x`, `normal_y`, `normal_z`, each given as
/// the bit pattern of a binary64 value (`f64::to_bits`).
///
/// The chosen axis is the one whose component has the largest absolute value,
/// with Up winning ties over Right and Right over Forward. A zero-length normal,
/// or one with a NaN component, is an error.
pub fn dominant_axis(normal_x: u64, normal_y: u64, normal_z: u64) -> (r: Result<
    ProjectionAxis,
    DegenerateNormal,
>)
    ensures
        r is Err <==> is_degenerate(normal_x, normal_y, normal_z),
        r matches Ok(axis) ==> dominant_axis_spec(normal_x, normal_y, normal_z) == Some(axis),
        r matches Ok(axis) ==> {
            &&& axis_magnitude(axis, normal_x, normal_y, normal_z) >= magnitude_key(normal_x)
            &&& axis_magnitude(axis, normal_x, normal_y, normal_z) >= magnitude_key(normal_y)
            &&& axis_magnitude(axis, normal_x, normal_y, normal_z) >= magnitude_key(normal_z)
        },
        r == Ok::<ProjectionAxis, DegenerateNormal>(ProjectionAxis::Right) ==> magnitude_key(
            normal_z,
        ) < magnitude_key(normal_y),
        r == Ok::<ProjectionAxis, DegenerateNormal>(ProjectionAxis::Forward) ==> magnitude_key(
            normal_z,
        ) < magnitude_key(normal_x) && magnitude_key(normal_y) < magnitude_key(normal_x),
{
    let up = normal_z & MAGNITUDE_MASK;
    let right = normal_y & MAGNITUDE_MASK;
    let forward = normal_x & MAGNITUDE_MASK;
    if forward > INFINITY_BITS || right > INFINITY_BITS || up > INFINITY_BITS {
        return Err(DegenerateNormal);
    }
    if up == 0 && right == 0 && forward == 0 {
        return Err(DegenerateNormal);
    }
    if up >= right && up >= forward {
        Ok(ProjectionAxis::Up)
    } else if right >= up && right >= forward {
        Ok(ProjectionAxis::Right)
    } else {
        Ok(ProjectionAxis::Forward)
    }
}

impl ProjectionAxis {
    /// The indices, into `[x, y, z]`, of the two vertex coordinates that this
    /// plane keeps: the first is used as it is, the second is negated.
    pub fn kept_coordinates(self) -> (r: (usize, usize))
        ensures
            r == (match self {
                ProjectionAxis::Up => (0usize, 1usize),
                ProjectionAxis::Right => (0usize, 2usize),
                ProjectionAxis::Forward => (1usize, 2usize),
            }),
    {
        match self {
            ProjectionAxis::Up => (0, 1),
            ProjectionAxis::Right => (0, 2),
            ProjectionAxis::Forward => (1, 2),
        }
    }
}

} // verus!
