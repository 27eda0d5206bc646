use cube::{cube_edges, BoundaryPolicy, CameraSettings, Cube, CubeState, CursorState, Key, Rotation, Turn, Vector2, Vector3, ONE, PI};

fn state() -> CubeState {
    CubeState::new(CameraSettings::new(90, 10), 800, 600)
}

#[test]
fn update_cursor_no_wraparound() {
    let mut state = state();
    assert_eq!((state.cursor.x, state.cursor.y), (400, 300));
    let w = state.cursor.screen_width as i64;
    let h = state.cursor.screen_height as i64;

    // Test right movement
    let initial_x = state.cursor.x as i64;
    state.update_cursor(Key::Right);
    assert_eq!(state.cursor.x as i64, (initial_x - 10 + w) % w);

    // Test left movement
    let initial_x = state.cursor.x as i64;
    state.update_cursor(Key::Left);
    assert_eq!(state.cursor.x as i64, (initial_x + 10 + w) % w);

    // Test down movement
    let initial_y = state.cursor.y as i64;
    state.update_cursor(Key::Down);
    assert_eq!(state.cursor.y as i64, (initial_y + 10 + h) % h);

    // Test up movement
    let initial_y = state.cursor.y as i64;
    state.update_cursor(Key::Up);
    assert_eq!(state.cursor.y as i64, (initial_y - 10 + h) % h);
}

#[test]
fn update_cursor_with_wraparound() {
    let mut state = state();

    // Test x wraparound (right edge)
    state.cursor.x = state.cursor.screen_width - 5;
    state.update_cursor(Key::Right);
    assert!(state.cursor.x < state.cursor.screen_width);
    assert!(state.cursor.x as i64 >= 0);

    // Test x wraparound (left edge)
    state.cursor.x = 5;
    state.update_cursor(Key::Left);
    assert!(state.cursor.x < state.cursor.screen_width);
    assert!(state.cursor.x as i64 >= 0);

    // Test y wraparound (bottom edge)
    state.cursor.y = state.cursor.screen_height - 5;
    state.update_cursor(Key::Down);
    assert!(state.cursor.y < state.cursor.screen_height);
    assert!(state.cursor.y as i64 >= 0);

    // Test y wraparound (top edge)
    state.cursor.y = 5;
    state.update_cursor(Key::Up);
    assert!(state.cursor.y < state.cursor.screen_height);
    assert!(state.cursor.y as i64 >= 0);
}

#[test]
fn update_cursor_does_not_move_cursor_on_invalid_key() {
    let mut state = state();

    let initial_x = state.cursor.x;
    let initial_y = state.cursor.y;

    // Test that cursor doesn't move with invalid key
    state.update_cursor(Key::Other);
    assert_eq!(state.cursor.x, initial_x);
    assert_eq!(state.cursor.y, initial_y);
}

#[test]
fn wrap_crosses_each_edge() {
    let mut s = CursorState::new(800, 600, BoundaryPolicy::Wrap);
    s.x = 3;
    s.press(Key::Right);
    assert_eq!(s.x, 793);
    s.press(Key::Left);
    assert_eq!(s.x, 3);
    s.x = 795;
    s.press(Key::Left);
    assert_eq!(s.x, 5);
    s.y = 598;
    s.press(Key::Down);
    assert_eq!(s.y, 8);
    s.press(Key::Up);
    assert_eq!(s.y, 598);
}

#[test]
fn wrap_step_and_back_returns_home() {
    for (x, y) in [(0u32, 0u32), (3, 597), (400, 300), (799, 599), (795, 5)] {
        let start = CursorState { x, y, screen_width: 800, screen_height: 600, policy: BoundaryPolicy::Wrap };
        for (there, back) in [(Key::Right, Key::Left), (Key::Left, Key::Right), (Key::Up, Key::Down), (Key::Down, Key::Up)] {
            let mut s = start;
            s.press(there);
            s.press(back);
            assert_eq!(s, start);
        }
    }
}

#[test]
fn wrap_on_a_viewport_smaller_than_a_step() {
    let mut s = CursorState::new(7, 3, BoundaryPolicy::Wrap);
    assert_eq!((s.x, s.y), (3, 1));
    s.press(Key::Right);
    assert_eq!(s.x, 0);
    s.press(Key::Right);
    assert_eq!(s.x, 4);
    s.press(Key::Up);
    assert_eq!(s.y, 0);
}

#[test]
fn clamp_stops_exactly_at_each_edge() {
    let mut s = CursorState::new(800, 600, BoundaryPolicy::Clamp);
    for _ in 0..100 {
        s.press(Key::Right);
        assert!(s.x <= 800);
    }
    assert_eq!(s.x, 0);
    for _ in 0..100 {
        s.press(Key::Left);
        assert!(s.x <= 800);
    }
    assert_eq!(s.x, 800);
    for _ in 0..100 {
        s.press(Key::Up);
    }
    assert_eq!(s.y, 0);
    for _ in 0..100 {
        s.press(Key::Down);
    }
    assert_eq!((s.x, s.y), (800, 600));
    s.x = 795;
    s.press(Key::Left);
    assert_eq!(s.x, 800);
    s.x = 4;
    s.press(Key::Right);
    assert_eq!(s.x, 0);
}

#[test]
fn other_key_leaves_clamped_state_unchanged() {
    let start = CursorState { x: 800, y: 0, screen_width: 800, screen_height: 600, policy: BoundaryPolicy::Clamp };
    let mut s = start;
    s.press(Key::Other);
    assert_eq!(s, start);
}

#[test]
fn cursor_maps_to_pitch_and_roll() {
    let s = CursorState::new(800, 600, BoundaryPolicy::Wrap);
    let a = s.attitude();
    assert_eq!((a.yaw, a.pitch, a.roll), (0, 1_570_796_327, 1_570_796_327));
    let s = CursorState { x: 0, y: 600, screen_width: 800, screen_height: 600, policy: BoundaryPolicy::Clamp };
    let a = s.attitude();
    assert_eq!((a.yaw, a.pitch, a.roll), (0, 0, PI));
    let s = CursorState { x: 200, y: 100, screen_width: 800, screen_height: 600, policy: BoundaryPolicy::Wrap };
    let a = state_with(s).attitude();
    assert_eq!((a.pitch, a.roll), (785_398_163, 523_598_775));
}

fn state_with(cursor: CursorState) -> CubeState {
    let mut st = state();
    st.cursor = cursor;
    st
}

#[test]
fn unit_cube_and_its_edges() {
    let c = Cube::default();
    assert_eq!(c.vertices[0], Vector3 { x: -ONE, y: -ONE, z: -ONE });
    assert_eq!(c.vertices[2], Vector3 { x: ONE, y: ONE, z: -ONE });
    assert_eq!(c.vertices[6], Vector3 { x: ONE, y: ONE, z: ONE });
    assert_eq!(c.vertices[7], Vector3 { x: -ONE, y: ONE, z: ONE });
    let edges = cube_edges();
    assert_eq!(edges.len(), 12);
    for (a, b) in edges {
        let (p, q) = (c.vertices[a], c.vertices[b]);
        let differing = [p.x != q.x, p.y != q.y, p.z != q.z].iter().filter(|d| **d).count();
        assert_eq!(differing, 1);
    }
    assert_eq!(edges[0], (0, 1));
    assert_eq!(edges[11], (3, 7));
}

#[test]
fn frame_points_of_the_level_cube() {
    let st = state();
    let pts = st.frame_points(&Rotation::identity(), ONE);
    // Front corners sit at depth 9: scale 10/9, rounded down, then moved to
    // the center of the 800x600 viewport.
    assert_eq!(pts[0], Vector2 { x: 400 * ONE as i128 - 1_111_111_112, y: 300 * ONE as i128 - 1_111_111_112 });
    assert_eq!(pts[2], Vector2 { x: 400 * ONE as i128 + 1_111_111_111, y: 300 * ONE as i128 + 1_111_111_111 });
    // Back corners sit at depth 11: scale 10/11.
    assert_eq!(pts[6], Vector2 { x: 400 * ONE as i128 + 909_090_909, y: 300 * ONE as i128 + 909_090_909 });
    assert_eq!(pts[4], Vector2 { x: 400 * ONE as i128 - 909_090_910, y: 300 * ONE as i128 - 909_090_910 });
}

#[test]
fn frame_points_follow_the_rotation() {
    let st = state();
    let quarter = Turn { cos: 0, sin: ONE };
    let z = Turn::zero();
    // Yaw a quarter turn: vertex 1 at (1, -1, -1) goes to (1, 1, -1).
    let pts = st.frame_points(&Rotation { yaw: quarter, pitch: z, roll: z }, ONE);
    let level = st.frame_points(&Rotation::identity(), ONE);
    assert_eq!(pts[1], level[2]);
    assert_eq!(pts[0], level[1]);
}
