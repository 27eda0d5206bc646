use vstd::prelude::*;
use crate::units::{ONE, within3};
use crate::rotation::{
    Attitude, Rotation, Vector3, apply, get_rotated_point, rotated, lemma_apply_within, yaw_rows,
    pitch_rows, roll_rows,
};
use crate::projection::{
    CameraSettings, Vector2, project_3d_to_2d, projected, lemma_projected_within, PROJECT_LIMIT,
};
use crate::model::{Cube, MODEL_LIMIT};
use crate::cursor::{BoundaryPolicy, CursorState, Key, cursor_attitude};

verus! {

/// Where a model vertex lands in the viewport: rotated, projected, then moved
/// by half the viewport so that the origin sits at its center.
pub open spec fn viewport_point(
    v: (int, int, int),
    rotation: Rotation,
    camera_dist: int,
    half_fov_tan: int,
    screen_width: int,
    screen_height: int,
) -> (int, int) {
    let p = rotated(v, rotation);
    (
        projected(p.0, p.2, camera_dist, half_fov_tan) + screen_width * ONE / 2,
        projected(p.1, p.2, camera_dist, half_fov_tan) + screen_height * ONE / 2,
    )
}

/// A rotated model vertex stays within reach of the projector.
proof fn lemma_rotated_model_within(v: (int, int, int), rotation: Rotation)
    requires
        rotation.wf(),
        within3(v, MODEL_LIMIT as int),
    ensures
        within3(rotated(v, rotation), PROJECT_LIMIT as int),
{
    let b = MODEL_LIMIT as int;
    lemma_apply_within(roll_rows(rotation.roll), v, b);
    let p1 = apply(roll_rows(rotation.roll), v);
    lemma_apply_within(pitch_rows(rotation.pitch), p1, 3 * b + 1);
    let p2 = apply(pitch_rows(rotation.pitch), p1);
    lemma_apply_within(yaw_rows(rotation.yaw), p2, 9 * b + 4);
}

/// Everything one frame is made from: the camera, the model, and the cursor
/// that sets the model's attitude.
#[derive(Clone, Copy, Debug)]
pub struct CubeState {
    pub camera_settings: CameraSettings,
    pub cube: Cube,
    pub cursor: CursorState,
}

impl CubeState {
    pub open spec fn wf(self) -> bool {
        self.cube.wf() && self.cursor.wf()
    }

    /// The unit cube, with the cursor at the center of a viewport of the
    /// given size, wrapping at the edges.
    pub fn new(camera_settings: CameraSettings, screen_width: u32, screen_height: u32) -> (r: CubeState)
        requires
            screen_width > 0,
            screen_height > 0,
        ensures
            r.camera_settings == camera_settings,
            r.cube.is_unit(),
            r.cursor.x == screen_width / 2,
            r.cursor.y == screen_height / 2,
            r.cursor.screen_width == screen_width,
            r.cursor.screen_height == screen_height,
            r.cursor.policy == BoundaryPolicy::Wrap,
            r.wf(),
    {
        CubeState {
            camera_settings,
            cube: Cube::default(),
            cursor: CursorState::new(screen_width, screen_height, BoundaryPolicy::Wrap),
        }
    }

    /// Moves the cursor for one key press; nothing else changes.
    pub fn update_cursor(&mut self, key: Key)
        requires
            old(self).cursor.wf(),
        ensures
            final(self).cursor == old(self).cursor.after_key(key),
            key is Other ==> *final(self) == *old(self),
            final(self).camera_settings == old(self).camera_settings,
            final(self).cube == old(self).cube,
            final(self).cursor.wf(),
    {
        self.cursor.press(key);
    }

    /// The attitude for this frame, taken from the cursor.
    pub fn attitude(&self) -> (r: Attitude)
        requires
            self.cursor.wf(),
        ensures
            r == cursor_attitude(self.cursor),
    {
        self.cursor.attitude()
    }

    fn place_vertex(&self, v: &Vector3, rotation: &Rotation, half_fov_tan: i64) -> (r: Vector2)
        requires
            rotation.wf(),
            half_fov_tan > 0,
            within3(v@, MODEL_LIMIT as int),
        ensures
            r@ == viewport_point(
                v@,
                *rotation,
                self.camera_settings.camera_dist as int,
                half_fov_tan as int,
                self.cursor.screen_width as int,
                self.cursor.screen_height as int,
            ),
    {
        proof {
            lemma_rotated_model_within(v@, *rotation);
        }
        let p = get_rotated_point(v, rotation);
        let q = project_3d_to_2d(&p, &self.camera_settings, half_fov_tan);
        proof {
            lemma_projected_within(p.x as int, p.z as int, self.camera_settings.camera_dist as int, half_fov_tan as int);
            lemma_projected_within(p.y as int, p.z as int, self.camera_settings.camera_dist as int, half_fov_tan as int);
        }
        Vector2 {
            x: q.x + self.cursor.screen_width as i128 * ONE as i128 / 2,
            y: q.y + self.cursor.screen_height as i128 * ONE as i128 / 2,
        }
    }

    /// The viewport position of each vertex of the cube, in vertex order,
    /// for the rotation of this frame's attitude. `rotation` holds the cosine
    /// and sine of each angle of `attitude()`, and `half_fov_tan` the tangent
    /// of the camera's `half_fov_angle()`, both in raw units.
    pub fn frame_points(&self, rotation: &Rotation, half_fov_tan: i64) -> (r: [Vector2; 8])
        requires
            self.cube.wf(),
            rotation.wf(),
            half_fov_tan > 0,
        ensures
            forall|i: int|
                0 <= i < 8 ==> (#[trigger] r[i])@ == viewport_point(
                    self.cube.vertices[i]@,
                    *rotation,
                    self.camera_settings.camera_dist as int,
                    half_fov_tan as int,
                    self.cursor.screen_width as int,
                    self.cursor.screen_height as int,
                ),
    {
        let vs = &self.cube.vertices;
        assert(within3(vs[0]@, MODEL_LIMIT as int));
        assert(within3(vs[1]@, MODEL_LIMIT as int));
        assert(within3(vs[2]@, MODEL_LIMIT as int));
        assert(within3(vs[3]@, MODEL_LIMIT as int));
        assert(within3(vs[4]@, MODEL_LIMIT as int));
        assert(within3(vs[5]@, MODEL_LIMIT as int));
        assert(within3(vs[6]@, MODEL_LIMIT as int));
        assert(within3(vs[7]@, MODEL_LIMIT as int));
        let r: [Vector2; 8] = [
            self.place_vertex(&vs[0], rotation, half_fov_tan),
            self.place_vertex(&vs[1], rotation, half_fov_tan),
            self.place_vertex(&vs[2], rotation, half_fov_tan),
            self.place_vertex(&vs[3], rotation, half_fov_tan),
            self.place_vertex(&vs[4], rotation, half_fov_tan),
            self.place_vertex(&vs[5], rotation, half_fov_tan),
            self.place_vertex(&vs[6], rotation, half_fov_tan),
            self.place_vertex(&vs[7], rotation, half_fov_tan),
        ];
        r
    }
}

} // verus!
