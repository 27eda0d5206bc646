use vstd::prelude::*;
use crate::units::{ONE, within, within3, lemma_product_within};

verus! {

/// Largest coordinate, in raw units, that a matrix product accepts.
pub const APPLY_LIMIT: i64 = 3_000_000_000_000_000_000;

/// Largest coordinate, in raw units, of a point that can be rotated.
pub const ROTATE_LIMIT: i64 = 300_000_000_000_000_000;

/// A point or direction in object space, in raw fixed-point units.
#[derive(Clone, Copy, Debug, PartialEq, Eq, Structural)]
pub struct Vector3 {
    pub x: i64,
    pub y: i64,
    pub z: i64,
}

impl View for Vector3 {
    type V = (int, int, int);

    open spec fn view(&self) -> (int, int, int) {
        (self.x as int, self.y as int, self.z as int)
    }
}

/// Three angles in raw radians: yaw about Z, pitch about Y, roll about X.
#[derive(Clone, Copy, Debug, PartialEq, Eq, Structural)]
pub struct Attitude {
    pub yaw: i64,
    pub pitch: i64,
    pub roll: i64,
}

/// One angle given by its cosine and sine, in raw units.
#[derive(Clone, Copy, Debug, PartialEq, Eq, Structural)]
pub struct Turn {
    pub cos: i64,
    pub sin: i64,
}

impl Turn {
    /// Cosine and sine lie in `[-1, 1]`.
    pub open spec fn wf(self) -> bool {
        within(self.cos as int, ONE as int) && within(self.sin as int, ONE as int)
    }

    /// The turn of the angle zero.
    pub open spec fn is_zero(self) -> bool {
        self.cos == ONE && self.sin == 0
    }

    /// The turn of a quarter turn, `pi / 2`: cosine zero, sine one.
    pub open spec fn is_quarter(self) -> bool {
        self.cos == 0 && self.sin == ONE
    }

    /// The turn of the angle zero: cosine one, sine zero.
    pub fn zero() -> (r: Turn)
        ensures
            r.is_zero(),
            r.wf(),
    {
        Turn { cos: ONE, sin: 0 }
    }
}

/// The rotation of an attitude: the turn of each of its three angles. The
/// cosines and sines are taken by the caller, for instance from the angles
/// that `CursorState::attitude` gives, and handed over in raw units.
#[derive(Clone, Copy, Debug, PartialEq, Eq, Structural)]
pub struct Rotation {
    pub yaw: Turn,
    pub pitch: Turn,
    pub roll: Turn,
}

impl Rotation {
    pub open spec fn wf(self) -> bool {
        self.yaw.wf() && self.pitch.wf() && self.roll.wf()
    }

    /// The rotation of the zero attitude.
    pub open spec fn is_identity(self) -> bool {
        self.yaw.is_zero() && self.pitch.is_zero() && self.roll.is_zero()
    }

    /// The rotation of the zero attitude.
    pub fn identity() -> (r: Rotation)
        ensures
            r.is_identity(),
            r.wf(),
    {
        Rotation { yaw: Turn::zero(), pitch: Turn::zero(), roll: Turn::zero() }
    }
}

/// Rows of a 3x3 matrix over raw units.
pub type Rows = ((int, int, int), (int, int, int), (int, int, int));

pub open spec fn dot(r: (int, int, int), v: (int, int, int)) -> int {
    r.0 * v.0 + r.1 * v.1 + r.2 * v.2
}

/// Fixed-point matrix-by-vector product: each row's dot product, scaled back
/// by `ONE` and rounded down.
pub open spec fn apply(m: Rows, v: (int, int, int)) -> (int, int, int) {
    (dot(m.0, v) / ONE as int, dot(m.1, v) / ONE as int, dot(m.2, v) / ONE as int)
}

/// Yaw, about Z: `[[cos, -sin, 0], [sin, cos, 0], [0, 0, 1]]`.
pub open spec fn yaw_rows(t: Turn) -> Rows {
    let (c, s) = (t.cos as int, t.sin as int);
    ((c, -s, 0), (s, c, 0), (0, 0, ONE as int))
}

/// Pitch, about Y: `[[cos, 0, sin], [0, 1, 0], [-sin, 0, cos]]`.
pub open spec fn pitch_rows(t: Turn) -> Rows {
    let (c, s) = (t.cos as int, t.sin as int);
    ((c, 0, s), (0, ONE as int, 0), (-s, 0, c))
}

/// Roll, about X: `[[1, 0, 0], [0, cos, -sin], [0, sin, cos]]`.
pub open spec fn roll_rows(t: Turn) -> Rows {
    let (c, s) = (t.cos as int, t.sin as int);
    ((ONE as int, 0, 0), (0, c, -s), (0, s, c))
}

/// The point `p` rotated by roll, then pitch, then yaw.
pub open spec fn rotated(p: (int, int, int), r: Rotation) -> (int, int, int) {
    apply(yaw_rows(r.yaw), apply(pitch_rows(r.pitch), apply(roll_rows(r.roll), p)))
}

pub open spec fn row_of(r: [i64; 3]) -> (int, int, int) {
    (r[0] as int, r[1] as int, r[2] as int)
}

pub open spec fn rows_of(m: [[i64; 3]; 3]) -> Rows {
    (row_of(m[0]), row_of(m[1]), row_of(m[2]))
}

/// Every entry of the rows lies in `[-1, 1]`.
pub open spec fn unit_bounded(m: Rows) -> bool {
    within3(m.0, ONE as int) && within3(m.1, ONE as int) && within3(m.2, ONE as int)
}

proof fn lemma_dot_within(r: (int, int, int), v: (int, int, int), b: int)
    requires
        within3(r, ONE as int),
        within3(v, b),
    ensures
        within(dot(r, v), 3 * (ONE * b)),
        within(dot(r, v) / ONE as int, 3 * b + 1),
{
    lemma_product_within(r.0, ONE as int, v.0, b);
    lemma_product_within(r.1, ONE as int, v.1, b);
    lemma_product_within(r.2, ONE as int, v.2, b);
}

/// A product with unit-bounded entries grows each coordinate bound at most
/// threefold, plus one for rounding.
pub proof fn lemma_apply_within(m: Rows, v: (int, int, int), b: int)
    requires
        unit_bounded(m),
        within3(v, b),
    ensures
        within3(apply(m, v), 3 * b + 1),
{
    lemma_dot_within(m.0, v, b);
    lemma_dot_within(m.1, v, b);
    lemma_dot_within(m.2, v, b);
}

fn row_times(row: &[i64; 3], v: &Vector3) -> (r: i64)
    requires
        within3(row_of(*row), ONE as int),
        within3(v@, APPLY_LIMIT as int),
    ensures
        r == dot(row_of(*row), v@) / ONE as int,
{
    proof {
        lemma_dot_within(row_of(*row), v@, APPLY_LIMIT as int);
        lemma_product_within(row[0] as int, ONE as int, v.x as int, APPLY_LIMIT as int);
        lemma_product_within(row[1] as int, ONE as int, v.y as int, APPLY_LIMIT as int);
        lemma_product_within(row[2] as int, ONE as int, v.z as int, APPLY_LIMIT as int);
    }
    let d: i128 = row[0] as i128 * v.x as i128 + row[1] as i128 * v.y as i128 + row[2] as i128
        * v.z as i128;
    let q: i128 = d.checked_div_euclid(ONE as i128).unwrap();
    q as i64
}

fn apply_matrix(m: &[[i64; 3]; 3], v: &Vector3) -> (r: Vector3)
    requires
        unit_bounded(rows_of(*m)),
        within3(v@, APPLY_LIMIT as int),
    ensures
        r@ == apply(rows_of(*m), v@),
{
    Vector3 { x: row_times(&m[0], v), y: row_times(&m[1], v), z: row_times(&m[2], v) }
}

/// Rotates `point` by `rotation`: the roll matrix first, then pitch, then
/// yaw, each a fixed-point matrix product rounded down.
pub fn get_rotated_point(point: &Vector3, rotation: &Rotation) -> (r: Vector3)
    requires
        rotation.wf(),
        within3(point@, ROTATE_LIMIT as int),
    ensures
        r@ == rotated(point@, *rotation),
{
    let (yc, ys) = (rotation.yaw.cos, rotation.yaw.sin);
    let (pc, ps) = (rotation.pitch.cos, rotation.pitch.sin);
    let (rc, rs) = (rotation.roll.cos, rotation.roll.sin);
    let yaw_matrix: [[i64; 3]; 3] = [[yc, -ys, 0], [ys, yc, 0], [0, 0, ONE]];
    let pitch_matrix: [[i64; 3]; 3] = [[pc, 0, ps], [0, ONE, 0], [-ps, 0, pc]];
    let roll_matrix: [[i64; 3]; 3] = [[ONE, 0, 0], [0, rc, -rs], [0, rs, rc]];
    assert(rows_of(yaw_matrix) == yaw_rows(rotation.yaw));
    assert(rows_of(pitch_matrix) == pitch_rows(rotation.pitch));
    assert(rows_of(roll_matrix) == roll_rows(rotation.roll));

    let p1 = apply_matrix(&roll_matrix, point);
    proof {
        lemma_apply_within(rows_of(roll_matrix), point@, ROTATE_LIMIT as int);
    }
    let p2 = apply_matrix(&pitch_matrix, &p1);
    proof {
        lemma_apply_within(rows_of(pitch_matrix), p1@, 3 * ROTATE_LIMIT + 1);
    }
    apply_matrix(&yaw_matrix, &p2)
}

/// Rotating by the zero attitude leaves every point where it is.
pub proof fn lemma_zero_attitude_is_identity(p: (int, int, int), rotation: Rotation)
    requires
        rotation.is_identity(),
    ensures
        rotated(p, rotation) == p,
{
}

/// Rows made of `0` and `+-1` only permute and negate coordinates exactly.
proof fn lemma_unit_rows(m: Rows, v: (int, int, int))
    ensures
        m == ((0int, -ONE as int, 0int), (ONE as int, 0int, 0int), (0int, 0int, ONE as int))
            ==> apply(m, v) == (-v.1, v.0, v.2),
        m == ((0int, 0int, ONE as int), (0int, ONE as int, 0int), (-ONE as int, 0int, 0int))
            ==> apply(m, v) == (v.2, v.1, -v.0),
        m == ((ONE as int, 0int, 0int), (0int, 0int, -ONE as int), (0int, ONE as int, 0int))
            ==> apply(m, v) == (v.0, -v.2, v.1),
        m == ((ONE as int, 0int, 0int), (0int, ONE as int, 0int), (0int, 0int, ONE as int))
            ==> apply(m, v) == v,
{
}

/// A quarter turn about a single axis moves the other two coordinates
/// exactly: yaw takes `(x, y, z)` to `(-y, x, z)`, pitch takes it to
/// `(z, y, -x)`, and roll to `(x, -z, y)`.
pub proof fn lemma_quarter_turn_about_one_axis(p: (int, int, int), rotation: Rotation)
    ensures
        rotation.yaw.is_quarter() && rotation.pitch.is_zero() && rotation.roll.is_zero()
            ==> rotated(p, rotation) == (-p.1, p.0, p.2),
        rotation.yaw.is_zero() && rotation.pitch.is_quarter() && rotation.roll.is_zero()
            ==> rotated(p, rotation) == (p.2, p.1, -p.0),
        rotation.yaw.is_zero() && rotation.pitch.is_zero() && rotation.roll.is_quarter()
            ==> rotated(p, rotation) == (p.0, -p.2, p.1),
{
    let p1 = apply(roll_rows(rotation.roll), p);
    let p2 = apply(pitch_rows(rotation.pitch), p1);
    lemma_unit_rows(roll_rows(rotation.roll), p);
    lemma_unit_rows(pitch_rows(rotation.pitch), p1);
    lemma_unit_rows(yaw_rows(rotation.yaw), p2);
}

/// A quarter turn of pitch followed by a quarter turn of yaw, with no roll,
/// takes `(x, y, z)` to `(-y, z, -x)`: the pitch acts first.
pub proof fn lemma_quarter_pitch_then_quarter_yaw(p: (int, int, int), rotation: Rotation)
    requires
        rotation.yaw.is_quarter(),
        rotation.pitch.is_quarter(),
        rotation.roll.is_zero(),
    ensures
        rotated(p, rotation) == (-p.1, p.2, -p.0),
{
    let p1 = apply(roll_rows(rotation.roll), p);
    let p2 = apply(pitch_rows(rotation.pitch), p1);
    lemma_unit_rows(roll_rows(rotation.roll), p);
    lemma_unit_rows(pitch_rows(rotation.pitch), p1);
    lemma_unit_rows(yaw_rows(rotation.yaw), p2);
}

} // verus!
