//! A sanity check on the orientation of an observed marker.
use vstd::prelude::*;
use crate::geometry::{Orientation, Position, Scalar, ONE_BITS, ZERO_BITS};
use crate::numerics::{is_less, is_magnitude, is_rotated, Numerics};
use crate::pose::Pose;

verus! {

/// Bit pattern of `0.2`, the most that a marker's normal may lean along x
/// or along y.
pub const MAX_LEAN_BITS: u64 = 0x3fc9_9999_9999_999a;

/// Bit pattern of `0.9`, which the vertical part of a marker's normal must
/// exceed in size.
pub const MIN_UPRIGHT_BITS: u64 = 0x3fec_cccc_cccc_cccd;

/// The unit vector along z.
pub open spec fn unit_z() -> Position {
    Position {
        x: Scalar { bits: ZERO_BITS },
        y: Scalar { bits: ZERO_BITS },
        z: Scalar { bits: ONE_BITS },
    }
}

/// Whether `verdict` is a result of judging the orientation `turn`: the
/// unit vector along z is rotated by it, and the verdict is that the
/// result leans less than `0.2` along x and along y while its z part
/// exceeds `0.9` in size; the operations are those of `kernel`.
pub open spec fn upright<K: Numerics>(kernel: &K, turn: Orientation, verdict: bool) -> bool {
    exists|rotated: Position, size: Position, within: (bool, bool, bool)|
        {
            &&& #[trigger] is_rotated(kernel, turn, unit_z(), rotated)
            &&& is_magnitude(kernel, rotated.x, size.x)
            &&& is_magnitude(kernel, rotated.y, size.y)
            &&& is_magnitude(kernel, rotated.z, size.z)
            &&& #[trigger] is_less(kernel, size.x, Scalar { bits: MAX_LEAN_BITS }, within.0)
            &&& is_less(kernel, size.y, Scalar { bits: MAX_LEAN_BITS }, within.1)
            &&& is_less(kernel, Scalar { bits: MIN_UPRIGHT_BITS }, size.z, within.2)
            &&& verdict == (within.0 && within.1 && within.2)
        }
}

/// Judges whether the observation `t` shows a marker that lies roughly
/// flat: its normal, the z axis turned by the observed orientation, must
/// point almost straight up or down.
pub fn marker_ok<K: Numerics>(kernel: &K, t: &Pose) -> (ok: bool)
    ensures
        upright(kernel, t@.orientation, ok),
{
    let up = Position {
        x: Scalar { bits: ZERO_BITS },
        y: Scalar { bits: ZERO_BITS },
        z: Scalar { bits: ONE_BITS },
    };
    let rotated = kernel.rotate(t.orientation, up);
    let size = Position {
        x: kernel.magnitude(rotated.x),
        y: kernel.magnitude(rotated.y),
        z: kernel.magnitude(rotated.z),
    };
    let within_x = kernel.less(size.x, Scalar { bits: MAX_LEAN_BITS });
    let within_y = kernel.less(size.y, Scalar { bits: MAX_LEAN_BITS });
    let within_z = kernel.less(Scalar { bits: MIN_UPRIGHT_BITS }, size.z);
    let ok = within_x && within_y && within_z;
    proof {
        let within = (within_x, within_y, within_z);
        assert(is_rotated(kernel, t@.orientation, unit_z(), rotated));
        assert(is_less(kernel, size.x, Scalar { bits: MAX_LEAN_BITS }, within.0));
    }
    ok
}

} // verus!
