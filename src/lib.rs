//! Wireframe cube geometry: rotation by an attitude, perspective projection,
//! the cube model, and the cursor policy that drives the attitude.
//!
//! Lengths and angles are fixed-point integers counted in units of
//! `1 / ONE`, so every transform is exact integer arithmetic whose rounding
//! the contracts state.

pub mod units;
pub mod rotation;
pub mod projection;
pub mod cursor;
pub mod model;
pub mod frame;

pub use units::{ONE, PI};
pub use rotation::{Attitude, Rotation, Turn, Vector3, get_rotated_point};
pub use projection::{CameraSettings, Vector2, project_3d_to_2d};
pub use cursor::{BoundaryPolicy, CursorState, Key, CURSOR_STEP};
pub use model::{Cube, cube_edges};
pub use frame::CubeState;
