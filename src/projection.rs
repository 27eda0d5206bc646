use vstd::prelude::*;
use crate::units::{ONE, PI, within, lemma_product_within};
use crate::rotation::Vector3;

verus! {

/// Largest `x` or `y`, in raw units, of a point that can be projected.
pub const PROJECT_LIMIT: i64 = 1_125_899_906_842_624;

/// Bound on each projected coordinate, in raw units:
/// `PROJECT_LIMIT * 2^16 * ONE * ONE`.
pub const PROJECTED_LIMIT: i128 = 73_786_976_294_838_206_464 * 1_000_000_000_000_000_000;

/// A point on the projection plane or in the viewport, in raw units.
/// Points near the camera plane project far out, so the coordinates are
/// held in 128 bits.
#[derive(Clone, Copy, Debug, PartialEq, Eq, Structural)]
pub struct Vector2 {
    pub x: i128,
    pub y: i128,
}

impl View for Vector2 {
    type V = (int, int);

    open spec fn view(&self) -> (int, int) {
        (self.x as int, self.y as int)
    }
}

/// The camera: a field of view in whole degrees, and the distance of the
/// eye from the origin along the view axis, in whole units.
#[derive(Clone, Copy, Debug, PartialEq, Eq, Structural)]
pub struct CameraSettings {
    pub fov_angle_deg: u16,
    pub camera_dist: u16,
}

/// Half the field of view, in raw radians, rounded down.
pub open spec fn half_fov(fov_angle_deg: int) -> int {
    fov_angle_deg * PI / 360
}

impl CameraSettings {
    pub fn new(fov_angle_deg: u16, camera_dist: u16) -> (r: CameraSettings)
        ensures
            r.fov_angle_deg == fov_angle_deg,
            r.camera_dist == camera_dist,
    {
        CameraSettings { fov_angle_deg, camera_dist }
    }

    /// Half the field of view in raw radians: the angle whose tangent is the
    /// projection's divisor.
    pub fn half_fov_angle(&self) -> (r: i64)
        ensures
            r == half_fov(self.fov_angle_deg as int),
    {
        self.fov_angle_deg as i64 * PI / 360
    }
}

/// Distance, in raw units, from the eye to a point at position `z` along the
/// view axis.
pub open spec fn depth(z: int, camera_dist: int) -> int {
    z + camera_dist * ONE
}

/// One projected coordinate in raw units. With `scale = camera_dist / depth`
/// (or one when the depth is zero) the value is `c * scale / half_fov_tan`,
/// computed in one Euclidean division: rounded down for a point in front of
/// the eye.
pub open spec fn projected(c: int, z: int, camera_dist: int, half_fov_tan: int) -> int {
    let dz = depth(z, camera_dist);
    if dz != 0 {
        (c * camera_dist) * (ONE * ONE) / (dz * half_fov_tan)
    } else {
        c * ONE / half_fov_tan
    }
}

/// The quotient of a division by a non-zero integer is no larger than the
/// dividend in magnitude.
pub proof fn lemma_div_within(n: int, d: int, b: int)
    requires
        d != 0,
        within(n, b),
    ensures
        within(n / d, b),
{
    vstd::arithmetic::div_mod::lemma_fundamental_div_mod(n, d);
    let q = n / d;
    let r = n % d;
    assert(0 <= r < if d > 0 { d } else { -d });
    assert(within(q, b)) by (nonlinear_arith)
        requires
            n == d * q + r,
            0 <= r,
            d > 0 ==> r < d,
            d < 0 ==> r < -d,
            d != 0,
            within(n, b),
    {
    }
}

/// Bound on the dividend of a projected coordinate.
proof fn lemma_numerator_within(c: int, camera_dist: int)
    requires
        within(c, PROJECT_LIMIT as int),
        0 <= camera_dist <= u16::MAX,
    ensures
        within(c * ONE, PROJECTED_LIMIT as int),
        within((c * camera_dist) * (ONE * ONE), PROJECTED_LIMIT as int),
{
    lemma_product_within(c, PROJECT_LIMIT as int, camera_dist, 0x1_0000);
    lemma_product_within(c * camera_dist, PROJECT_LIMIT * 0x1_0000, ONE * ONE, ONE * ONE);
    assert(PROJECT_LIMIT * 0x1_0000 * (ONE * ONE) == PROJECTED_LIMIT);
}

proof fn lemma_nonzero_product(a: int, b: int)
    by (nonlinear_arith)
    requires
        a != 0,
        b != 0,
    ensures
        a * b != 0,
{
}

/// Projected coordinates stay within `PROJECTED_LIMIT`.
pub proof fn lemma_projected_within(c: int, z: int, camera_dist: int, half_fov_tan: int)
    requires
        within(c, PROJECT_LIMIT as int),
        0 <= camera_dist <= u16::MAX,
        half_fov_tan > 0,
    ensures
        within(projected(c, z, camera_dist, half_fov_tan), PROJECTED_LIMIT as int),
{
    lemma_numerator_within(c, camera_dist);
    let dz = depth(z, camera_dist);
    if dz != 0 {
        lemma_nonzero_product(dz, half_fov_tan);
        lemma_div_within((c * camera_dist) * (ONE * ONE), dz * half_fov_tan, PROJECTED_LIMIT as int);
    } else {
        lemma_div_within(c * ONE, half_fov_tan, PROJECTED_LIMIT as int);
    }
}

/// A common positive factor of dividend and divisor leaves the quotient as
/// it is.
proof fn lemma_div_cancel(a: int, b: int, k: int)
    requires
        b > 0,
        k > 0,
    ensures
        (a * k) / (b * k) == a / b,
{
    let q = a / b;
    let r = a % b;
    vstd::arithmetic::div_mod::lemma_fundamental_div_mod(a, b);
    assert(a * k == q * (b * k) + r * k) by (nonlinear_arith)
        requires
            a == b * q + r,
    {
    }
    assert(0 <= r * k < b * k) by (nonlinear_arith)
        requires
            0 <= r < b,
            k > 0,
    {
    }
    vstd::arithmetic::div_mod::lemma_fundamental_div_mod_converse_div(a * k, b * k, q, r * k);
}

/// A point level with the origin (`z = 0`) is projected with scale one:
/// each coordinate is only divided by `half_fov_tan`.
pub proof fn lemma_origin_depth_keeps_scale(c: int, camera_dist: int, half_fov_tan: int)
    requires
        camera_dist > 0,
        half_fov_tan > 0,
    ensures
        projected(c, 0, camera_dist, half_fov_tan) == c * ONE / half_fov_tan,
{
    let k = camera_dist * ONE;
    assert(k > 0);
    assert((c * camera_dist) * (ONE * ONE) == (c * ONE) * k && k * half_fov_tan == half_fov_tan
        * k) by (nonlinear_arith)
        requires
            k == camera_dist * ONE,
    {
    }
    lemma_div_cancel(c * ONE, half_fov_tan, k);
}

/// A point twice as far from the eye as the origin (`z = camera_dist`) is
/// projected at half the scale of the origin's depth.
pub proof fn lemma_double_depth_halves_scale(c: int, camera_dist: int, half_fov_tan: int)
    requires
        camera_dist > 0,
        half_fov_tan > 0,
    ensures
        projected(c, camera_dist * ONE, camera_dist, half_fov_tan) == c * ONE / (2 * half_fov_tan),
{
    let k = camera_dist * ONE;
    assert(k > 0);
    assert(depth(k, camera_dist) == 2 * k);
    assert((c * camera_dist) * (ONE * ONE) == (c * ONE) * k && (2 * k) * half_fov_tan == (2
        * half_fov_tan) * k) by (nonlinear_arith)
        requires
            k == camera_dist * ONE,
    {
    }
    lemma_div_cancel(c * ONE, 2 * half_fov_tan, k);
}

fn project_coord(c: i64, z: i64, camera_dist: u16, half_fov_tan: i64) -> (r: i128)
    requires
        within(c as int, PROJECT_LIMIT as int),
        half_fov_tan > 0,
    ensures
        r == projected(c as int, z as int, camera_dist as int, half_fov_tan as int),
{
    proof {
        lemma_product_within(c as int, PROJECT_LIMIT as int, camera_dist as int, 0x1_0000);
        lemma_numerator_within(c as int, camera_dist as int);
        lemma_projected_within(c as int, z as int, camera_dist as int, half_fov_tan as int);
    }
    let dz: i128 = z as i128 + camera_dist as i128 * ONE as i128;
    if dz != 0 {
        proof {
            lemma_nonzero_product(dz as int, half_fov_tan as int);
            lemma_product_within(dz as int, 0x8000_0000_0000_0000 + 0x1_0000 * ONE, half_fov_tan as int, 0x8000_0000_0000_0000);
        }
        let num: i128 = (c as i128 * camera_dist as i128) * (ONE as i128 * ONE as i128);
        let den: i128 = dz * half_fov_tan as i128;
        num.checked_div_euclid(den).unwrap()
    } else {
        (c as i128 * ONE as i128).checked_div_euclid(half_fov_tan as i128).unwrap()
    }
}

/// Projects `point` onto the plane through the origin facing the camera.
/// The perspective scale is `camera_dist / depth`; a point in the camera
/// plane (depth zero) keeps scale one. The scaled `x` and `y` are divided by
/// `half_fov_tan`, the tangent of half the field of view in raw units.
pub fn project_3d_to_2d(point: &Vector3, camera_settings: &CameraSettings, half_fov_tan: i64) -> (r: Vector2)
    requires
        within(point.x as int, PROJECT_LIMIT as int),
        within(point.y as int, PROJECT_LIMIT as int),
        half_fov_tan > 0,
    ensures
        r@ == (
            projected(point.x as int, point.z as int, camera_settings.camera_dist as int, half_fov_tan as int),
            projected(point.y as int, point.z as int, camera_settings.camera_dist as int, half_fov_tan as int),
        ),
        depth(point.z as int, camera_settings.camera_dist as int) == 0 ==> r@ == (
            point.x * ONE / half_fov_tan as int,
            point.y * ONE / half_fov_tan as int,
        ),
{
    let d = camera_settings.camera_dist;
    Vector2 {
        x: project_coord(point.x, point.z, d, half_fov_tan),
        y: project_coord(point.y, point.z, d, half_fov_tan),
    }
}

} // verus!
