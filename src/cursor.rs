use vstd::prelude::*;
use crate::units::PI;
use crate::rotation::Attitude;

verus! {

/// Distance, in pixels, that one key press moves the cursor.
pub const CURSOR_STEP: i64 = 10;

/// A directional input, or any other key.
#[derive(Clone, Copy, Debug, PartialEq, Eq, Structural)]
pub enum Key {
    Up,
    Down,
    Left,
    Right,
    Other,
}

/// What happens to the cursor at the edges of the viewport.
#[derive(Clone, Copy, Debug, PartialEq, Eq, Structural)]
pub enum BoundaryPolicy {
    /// The position wraps modulo the viewport dimension.
    Wrap,
    /// The position is clamped into `[0, dimension]`.
    Clamp,
}

/// Movement of one key press along `x` and `y`: up and down move `y`, left
/// moves `x` forward and right moves it back.
pub open spec fn key_delta(key: Key) -> (int, int) {
    match key {
        Key::Up => (0, -CURSOR_STEP),
        Key::Down => (0, CURSOR_STEP as int),
        Key::Left => (CURSOR_STEP as int, 0),
        Key::Right => (-CURSOR_STEP, 0),
        Key::Other => (0, 0),
    }
}

/// Where a position lands after moving by `delta` on an axis of `size`
/// pixels.
pub open spec fn moved(pos: int, delta: int, size: int, policy: BoundaryPolicy) -> int {
    match policy {
        BoundaryPolicy::Wrap => (pos + delta) % size,
        BoundaryPolicy::Clamp => if pos + delta < 0 {
            0
        } else if pos + delta > size {
            size
        } else {
            pos + delta
        },
    }
}

/// The positions a policy allows on an axis of `size` pixels: `[0, size)`
/// when wrapping, `[0, size]` when clamping.
pub open spec fn in_range(pos: int, size: int, policy: BoundaryPolicy) -> bool {
    match policy {
        BoundaryPolicy::Wrap => 0 <= pos < size,
        BoundaryPolicy::Clamp => 0 <= pos <= size,
    }
}

/// The cursor, in whole pixels, and the viewport it moves in.
#[derive(Clone, Copy, Debug, PartialEq, Eq, Structural)]
pub struct CursorState {
    pub x: u32,
    pub y: u32,
    pub screen_width: u32,
    pub screen_height: u32,
    pub policy: BoundaryPolicy,
}

/// The attitude of a cursor position: `x / screen_width` of a half turn as
/// pitch, `y / screen_height` of a half turn as roll, and no yaw.
pub open spec fn cursor_attitude(s: CursorState) -> Attitude {
    Attitude {
        yaw: 0,
        pitch: (s.x * PI / s.screen_width as int) as i64,
        roll: (s.y * PI / s.screen_height as int) as i64,
    }
}

impl CursorState {
    /// The viewport is not empty and the cursor lies in it.
    pub open spec fn wf(self) -> bool {
        &&& self.screen_width > 0
        &&& self.screen_height > 0
        &&& in_range(self.x as int, self.screen_width as int, self.policy)
        &&& in_range(self.y as int, self.screen_height as int, self.policy)
    }

    /// The state after one press of `key`.
    pub open spec fn after_key(self, key: Key) -> CursorState {
        if key is Other {
            self
        } else {
            let (dx, dy) = key_delta(key);
            CursorState {
                x: moved(self.x as int, dx, self.screen_width as int, self.policy) as u32,
                y: moved(self.y as int, dy, self.screen_height as int, self.policy) as u32,
                ..self
            }
        }
    }

    /// The state after `n` presses of `key`.
    pub open spec fn after_presses(self, key: Key, n: nat) -> CursorState
        decreases n,
    {
        if n == 0 {
            self
        } else {
            self.after_presses(key, (n - 1) as nat).after_key(key)
        }
    }

    /// A cursor at the center of a viewport of the given size.
    pub fn new(screen_width: u32, screen_height: u32, policy: BoundaryPolicy) -> (r: CursorState)
        requires
            screen_width > 0,
            screen_height > 0,
        ensures
            r.x == screen_width / 2,
            r.y == screen_height / 2,
            r.screen_width == screen_width,
            r.screen_height == screen_height,
            r.policy == policy,
            r.wf(),
    {
        CursorState { x: screen_width / 2, y: screen_height / 2, screen_width, screen_height, policy }
    }

    /// Moves the cursor one step for `key` under the state's boundary
    /// policy; any other key leaves the state as it is.
    pub fn press(&mut self, key: Key)
        requires
            old(self).wf(),
        ensures
            *final(self) == old(self).after_key(key),
            key is Other ==> *final(self) == *old(self),
            final(self).wf(),
    {
        let (dx, dy): (i64, i64) = match key {
            Key::Up => (0, -CURSOR_STEP),
            Key::Down => (0, CURSOR_STEP),
            Key::Left => (CURSOR_STEP, 0),
            Key::Right => (-CURSOR_STEP, 0),
            Key::Other => return,
        };
        self.x = step_coord(self.x, dx, self.screen_width, self.policy);
        self.y = step_coord(self.y, dy, self.screen_height, self.policy);
    }

    /// The attitude that the cursor position calls for.
    pub fn attitude(&self) -> (r: Attitude)
        requires
            self.wf(),
        ensures
            r == cursor_attitude(*self),
            0 <= r.pitch <= PI,
            0 <= r.roll <= PI,
    {
        proof {
            lemma_share_of_pi(self.x as int, self.screen_width as int);
            lemma_share_of_pi(self.y as int, self.screen_height as int);
        }
        let pitch = (self.x as u64 * PI as u64 / self.screen_width as u64) as i64;
        let roll = (self.y as u64 * PI as u64 / self.screen_height as u64) as i64;
        Attitude { yaw: 0, pitch, roll }
    }
}

/// `pos / size` of pi lies in `[0, pi]`.
proof fn lemma_share_of_pi(pos: int, size: int)
    requires
        0 <= pos <= size,
        size > 0,
    ensures
        0 <= pos * PI / size <= PI,
{
    assert(0 <= pos * PI <= size * PI) by (nonlinear_arith)
        requires
            0 <= pos <= size,
    {
    }
    vstd::arithmetic::div_mod::lemma_div_is_ordered(pos * PI, size * PI, size);
    vstd::arithmetic::div_mod::lemma_div_is_ordered(0, pos * PI, size);
    vstd::arithmetic::div_mod::lemma_div_multiples_vanish(PI as int, size);
}

/// Under the wraparound policy a step and the opposite step cancel: right
/// then left, left then right, up then down and down then up each return
/// the cursor to where it was.
pub proof fn lemma_wrap_steps_cancel(s: CursorState)
    requires
        s.wf(),
        s.policy == BoundaryPolicy::Wrap,
    ensures
        s.after_key(Key::Right).after_key(Key::Left) == s,
        s.after_key(Key::Left).after_key(Key::Right) == s,
        s.after_key(Key::Up).after_key(Key::Down) == s,
        s.after_key(Key::Down).after_key(Key::Up) == s,
{
    lemma_wrap_round_trip(s.x as int, -CURSOR_STEP, s.screen_width as int);
    lemma_wrap_round_trip(s.x as int, CURSOR_STEP as int, s.screen_width as int);
    lemma_wrap_round_trip(s.y as int, -CURSOR_STEP, s.screen_height as int);
    lemma_wrap_round_trip(s.y as int, CURSOR_STEP as int, s.screen_height as int);
    lemma_wrap_round_trip(s.x as int, 0, s.screen_width as int);
    lemma_wrap_round_trip(s.y as int, 0, s.screen_height as int);
}

proof fn lemma_wrap_round_trip(pos: int, delta: int, size: int)
    requires
        0 <= pos < size,
    ensures
        ((pos + delta) % size - delta) % size == pos,
        (pos + 0) % size == pos,
{
    vstd::arithmetic::div_mod::lemma_add_mod_noop_right(-delta, pos + delta, size);
    vstd::arithmetic::div_mod::lemma_small_mod(pos as nat, size as nat);
}

/// Under the clamp policy the cursor never leaves the viewport, and enough
/// presses in one direction leave it exactly on that edge: `0` after moving
/// right or up, the viewport's width or height after moving left or down.
pub proof fn lemma_clamp_stops_at_edge(s: CursorState, key: Key, n: nat)
    requires
        s.wf(),
        s.policy == BoundaryPolicy::Clamp,
    ensures
        ({
            let t = s.after_presses(key, n);
            let far = n * CURSOR_STEP;
            &&& t.wf()
            &&& key == Key::Right && far >= s.x ==> t.x == 0
            &&& key == Key::Left && far >= s.screen_width - s.x ==> t.x == s.screen_width
            &&& key == Key::Up && far >= s.y ==> t.y == 0
            &&& key == Key::Down && far >= s.screen_height - s.y ==> t.y == s.screen_height
        }),
{
    lemma_clamp_presses(s, key, n);
}

/// Where `n` clamped presses of `key` leave the cursor.
proof fn lemma_clamp_presses(s: CursorState, key: Key, n: nat)
    requires
        s.wf(),
        s.policy == BoundaryPolicy::Clamp,
    ensures
        ({
            let t = s.after_presses(key, n);
            let far = n * CURSOR_STEP;
            &&& t.wf()
            &&& t.screen_width == s.screen_width
            &&& t.screen_height == s.screen_height
            &&& t.policy == s.policy
            &&& key == Key::Right ==> t.x == if s.x >= far { s.x - far } else { 0 }
            &&& key == Key::Left ==> t.x == if s.x + far <= s.screen_width {
                s.x + far
            } else {
                s.screen_width as int
            }
            &&& key == Key::Up ==> t.y == if s.y >= far { s.y - far } else { 0 }
            &&& key == Key::Down ==> t.y == if s.y + far <= s.screen_height {
                s.y + far
            } else {
                s.screen_height as int
            }
            &&& (key == Key::Right || key == Key::Left) ==> t.y == s.y
            &&& (key == Key::Up || key == Key::Down) ==> t.x == s.x
        }),
    decreases n,
{
    if n > 0 {
        lemma_clamp_presses(s, key, (n - 1) as nat);
    }
}

fn step_coord(pos: u32, delta: i64, size: u32, policy: BoundaryPolicy) -> (r: u32)
    requires
        size > 0,
        in_range(pos as int, size as int, policy),
        -CURSOR_STEP <= delta <= CURSOR_STEP,
    ensures
        r == moved(pos as int, delta as int, size as int, policy),
        in_range(r as int, size as int, policy),
{
    let v: i64 = pos as i64 + delta;
    match policy {
        BoundaryPolicy::Wrap => v.checked_rem_euclid(size as i64).unwrap() as u32,
        BoundaryPolicy::Clamp => if v < 0 {
            0
        } else if v > size as i64 {
            size
        } else {
            v as u32
        },
    }
}

} // verus!
