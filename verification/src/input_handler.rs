//! Keyboard and mouse bookkeeping.
//!
//! [`InputHandler`] tracks which of the four movement keys are currently
//! held and the latest mouse delta. The host event layer calls
//! [`InputHandler::key_down`], [`InputHandler::key_up`] and
//! [`InputHandler::mouse_move`] as events arrive; the camera reads the state
//! once per frame. Mouse coordinates are the integer client coordinates the
//! host reports. The delta is overwritten by each move event and is never
//! zeroed after it is consumed, so a frame without a fresh move event sees
//! the previous delta again; the camera update deliberately preserves this.

use vstd::prelude::*;

verus! {

/// The four movement directions the demo recognizes. Any other key code is
/// dropped by the host event layer and never reaches this crate.
#[derive(Clone, Copy, PartialEq, Eq, Structural, Debug)]
pub enum Key {
    Forward,
    Backward,
    Left,
    Right,
}

/// Bound on the absolute mouse coordinates accepted from the host; far
/// beyond any real screen, and small enough that a coordinate difference
/// always fits in an `i64`.
pub const COORD_LIMIT: i64 = 1_000_000_000;

/// Slot of each key in the `keys` vector.
pub open spec fn key_index(k: Key) -> int {
    match k {
        Key::Forward => 0,
        Key::Backward => 1,
        Key::Left => 2,
        Key::Right => 3,
    }
}

/// Current key flags and the latest mouse position and delta.
pub struct InputHandler {
    /// Latest absolute cursor position reported by the host.
    pub mouse_x: i64,
    pub mouse_y: i64,
    /// Delta from the second-to-last to the last reported cursor position.
    pub dx: i64,
    pub dy: i64,
    /// Cursor position at the previous move event.
    pub last_mouse_x: i64,
    pub last_mouse_y: i64,
    /// One flag per direction, indexed by [`key_index`]: true while held.
    pub keys: Vec<bool>,
}

impl InputHandler {
    /// All coordinates within range and exactly one flag per direction.
    pub open spec fn wf(self) -> bool {
        &&& self.keys@.len() == 4
        &&& -COORD_LIMIT <= self.mouse_x <= COORD_LIMIT
        &&& -COORD_LIMIT <= self.mouse_y <= COORD_LIMIT
        &&& -COORD_LIMIT <= self.last_mouse_x <= COORD_LIMIT
        &&& -COORD_LIMIT <= self.last_mouse_y <= COORD_LIMIT
        &&& -2 * COORD_LIMIT <= self.dx <= 2 * COORD_LIMIT
        &&& -2 * COORD_LIMIT <= self.dy <= 2 * COORD_LIMIT
    }

    /// The flag of `k` as the spec sees it.
    pub open spec fn key_held(self, k: Key) -> bool {
        self.keys@[key_index(k)]
    }

    /// Fresh state: cursor at the origin, no delta, no key held.
    pub fn new() -> (r: InputHandler)
        ensures
            r.wf(),
            r.mouse_x == 0,
            r.mouse_y == 0,
            r.dx == 0,
            r.dy == 0,
            r.last_mouse_x == 0,
            r.last_mouse_y == 0,
            forall|k: Key| !r.key_held(k),
    {
        let mut keys: Vec<bool> = Vec::new();
        keys.push(false);
        keys.push(false);
        keys.push(false);
        keys.push(false);
        let r = InputHandler {
            mouse_x: 0,
            mouse_y: 0,
            dx: 0,
            dy: 0,
            last_mouse_x: 0,
            last_mouse_y: 0,
            keys,
        };
        assert forall|k: Key| !r.key_held(k) by {
            match k {
                Key::Forward => assert(!r.keys@[0]),
                Key::Backward => assert(!r.keys@[1]),
                Key::Left => assert(!r.keys@[2]),
                Key::Right => assert(!r.keys@[3]),
            }
        }
        r
    }

    /// Executable twin of [`key_index`].
    fn key_slot(key: Key) -> (i: usize)
        ensures
            i == key_index(key),
    {
        match key {
            Key::Forward => 0,
            Key::Backward => 1,
            Key::Left => 2,
            Key::Right => 3,
        }
    }

    /// Marks `key` as held. Idempotent on key repeat.
    pub fn key_down(&mut self, key: Key)
        requires
            old(self).wf(),
        ensures
            final(self).wf(),
            final(self).keys@ == old(self).keys@.update(key_index(key), true),
            final(self).key_held(key),
            forall|k: Key| k != key ==> final(self).key_held(k) == old(self).key_held(k),
            final(self).mouse_x == old(self).mouse_x,
            final(self).mouse_y == old(self).mouse_y,
            final(self).dx == old(self).dx,
            final(self).dy == old(self).dy,
            final(self).last_mouse_x == old(self).last_mouse_x,
            final(self).last_mouse_y == old(self).last_mouse_y,
    {
        let slot = Self::key_slot(key);
        self.keys[slot] = true;
        assert forall|k: Key| k != key implies final(self).key_held(k) == old(self).key_held(k) by {
            assert(key_index(k) != key_index(key));
        }
    }

    /// Marks `key` as released.
    pub fn key_up(&mut self, key: Key)
        requires
            old(self).wf(),
        ensures
            final(self).wf(),
            final(self).keys@ == old(self).keys@.update(key_index(key), false),
            !final(self).key_held(key),
            forall|k: Key| k != key ==> final(self).key_held(k) == old(self).key_held(k),
            final(self).mouse_x == old(self).mouse_x,
            final(self).mouse_y == old(self).mouse_y,
            final(self).dx == old(self).dx,
            final(self).dy == old(self).dy,
            final(self).last_mouse_x == old(self).last_mouse_x,
            final(self).last_mouse_y == old(self).last_mouse_y,
    {
        let slot = Self::key_slot(key);
        self.keys[slot] = false;
        assert forall|k: Key| k != key implies final(self).key_held(k) == old(self).key_held(k) by {
            assert(key_index(k) != key_index(key));
        }
    }

    /// Records a cursor move to `(x, y)`: the delta becomes the difference
    /// from the previously recorded position, which is then replaced.
    pub fn mouse_move(&mut self, x: i64, y: i64)
        requires
            old(self).wf(),
            -COORD_LIMIT <= x <= COORD_LIMIT,
            -COORD_LIMIT <= y <= COORD_LIMIT,
        ensures
            final(self).wf(),
            final(self).mouse_x == x,
            final(self).mouse_y == y,
            final(self).dx == x - old(self).last_mouse_x,
            final(self).dy == y - old(self).last_mouse_y,
            final(self).last_mouse_x == x,
            final(self).last_mouse_y == y,
            final(self).keys@ == old(self).keys@,
    {
        self.mouse_x = x;
        self.mouse_y = y;
        self.dx = x - self.last_mouse_x;
        self.dy = y - self.last_mouse_y;
        self.last_mouse_x = x;
        self.last_mouse_y = y;
    }

    /// Latest absolute cursor position.
    pub fn get_mouse(&self) -> (r: (i64, i64))
        ensures
            r.0 == self.mouse_x,
            r.1 == self.mouse_y,
    {
        (self.mouse_x, self.mouse_y)
    }

    /// Whether `key` is currently held.
    pub fn is_key_down(&self, key: Key) -> (r: bool)
        requires
            self.wf(),
        ensures
            r == self.key_held(key),
    {
        let slot = Self::key_slot(key);
        self.keys[slot]
    }

    /// Whether `key` is currently released.
    pub fn is_key_up(&self, key: Key) -> (r: bool)
        requires
            self.wf(),
        ensures
            r == !self.key_held(key),
    {
        !self.is_key_down(key)
    }
}

} // verus!
