use vstd::prelude::*;

verus! {

/// Largest downward speed that gravity alone reaches, in tenths of a cell per tick.
pub const TERMINAL_VELOCITY: i32 = 20;

/// Speed added by gravity on each tick, in tenths of a cell per tick.
pub const GRAVITY: i32 = 2;

/// Velocity after one tick of gravity: it rises by `GRAVITY` while below the cap.
pub open spec fn gravity_step(v: int) -> int {
    if v < TERMINAL_VELOCITY { v + GRAVITY } else { v }
}

/// Velocity after `n` ticks of gravity without a flap.
pub open spec fn velocity_after(v: int, n: nat) -> int
    decreases n,
{
    if n == 0 { v } else { velocity_after(gravity_step(v), (n - 1) as nat) }
}

/// Whole cells moved by a velocity in tenths: the quotient truncated toward zero.
pub open spec fn cells_of(v: int) -> int {
    if v >= 0 { v / 10 } else { -((-v) / 10) }
}

/// Height after moving by `v` tenths from `y`, held at the top of the screen.
pub open spec fn next_y(y: int, v: int) -> int {
    if y + cells_of(v) < 0 { 0 } else { y + cells_of(v) }
}

/// The animation frame that follows `frame` for a player moving at `v`.
pub open spec fn next_frame(frame: int, v: int) -> int {
    if v < 0 || frame > 1 {
        if frame + 1 > 4 { 1 } else { frame + 1 }
    } else {
        frame
    }
}

/// The player: a column `x` that advances each tick, a height `y` (0 at the
/// top of the screen), a vertical velocity in tenths of a cell per tick
/// (positive is downward), and an animation frame in 1..=4.
pub struct Player {
    pub x: i32,
    pub y: i32,
    pub velocity: i32,
    pub frame_number: i32,
}

impl Player {
    /// The player is on or below the top of the screen, its velocity lies
    /// between a flap and one gravity step past the cap, and its frame is valid.
    pub open spec fn wf(&self) -> bool {
        &&& 0 <= self.y
        &&& -TERMINAL_VELOCITY <= self.velocity < TERMINAL_VELOCITY + GRAVITY
        &&& 1 <= self.frame_number <= 4
    }

    /// Room for one more tick without leaving the range of `i32`.
    pub open spec fn can_advance(&self) -> bool {
        &&& self.x < i32::MAX
        &&& self.y <= i32::MAX - 2
    }

    /// A player at rest at `(x, y)`, on its first animation frame.
    pub fn new(x: i32, y: i32) -> (p: Player)
        requires
            0 <= y,
        ensures
            p.wf(),
            p.x == x,
            p.y == y,
            p.velocity == 0,
            p.frame_number == 1,
    {
        Player { x, y, velocity: 0, frame_number: 1 }
    }

    /// One tick of motion: gravity, vertical movement held at the top of the
    /// screen, and one column forward.
    pub fn update(&mut self)
        requires
            old(self).wf(),
            old(self).can_advance(),
        ensures
            final(self).wf(),
            final(self).velocity == gravity_step(old(self).velocity as int),
            final(self).y == next_y(old(self).y as int, final(self).velocity as int),
            final(self).y >= 0,
            final(self).x == old(self).x + 1,
            final(self).frame_number == old(self).frame_number,
    {
        self.apply_gravity_to_velocity();
        self.apply_velocity_to_player();
        self.bind_player_to_screen();
        self.horizontally_advance_player();
    }

    /// Steps the animation: the frame cycles 1, 2, 3, 4 while the player
    /// rises, and a cycle once begun runs on back to frame 1.
    pub fn advance_animation(&mut self)
        requires
            old(self).wf(),
        ensures
            final(self).wf(),
            final(self).frame_number == next_frame(
                old(self).frame_number as int,
                old(self).velocity as int,
            ),
            final(self).x == old(self).x,
            final(self).y == old(self).y,
            final(self).velocity == old(self).velocity,
    {
        if self.velocity < 0 || self.frame_number > 1 {
            self.frame_number = self.frame_number + 1;
            if self.frame_number > 4 {
                self.frame_number = 1;
            }
        }
    }

    /// Gravity: the velocity rises by `GRAVITY` while it is below the cap.
    pub fn apply_gravity_to_velocity(&mut self)
        requires
            old(self).wf(),
        ensures
            final(self).wf(),
            final(self).velocity == gravity_step(old(self).velocity as int),
            old(self).velocity < TERMINAL_VELOCITY ==> final(self).velocity > old(self).velocity,
            old(self).velocity >= TERMINAL_VELOCITY ==> final(self).velocity == old(self).velocity,
            final(self).x == old(self).x,
            final(self).y == old(self).y,
            final(self).frame_number == old(self).frame_number,
    {
        if self.velocity < TERMINAL_VELOCITY {
            self.velocity = self.velocity + GRAVITY;
        }
    }

    /// Moves the player vertically by the whole cells of its velocity.
    pub fn apply_velocity_to_player(&mut self)
        requires
            -TERMINAL_VELOCITY <= old(self).velocity < TERMINAL_VELOCITY + GRAVITY,
            old(self).y <= i32::MAX - 2,
            old(self).y >= i32::MIN + 2,
        ensures
            final(self).y == old(self).y + cells_of(old(self).velocity as int),
            final(self).x == old(self).x,
            final(self).velocity == old(self).velocity,
            final(self).frame_number == old(self).frame_number,
    {
        let cells: i32 = if self.velocity >= 0 {
            self.velocity / 10
        } else {
            -((-self.velocity) / 10)
        };
        self.y = self.y + cells;
    }

    /// Holds the player at the top of the screen.
    pub fn bind_player_to_screen(&mut self)
        ensures
            final(self).y == (if old(self).y < 0 { 0 } else { old(self).y as int }),
            final(self).y >= 0,
            final(self).x == old(self).x,
            final(self).velocity == old(self).velocity,
            final(self).frame_number == old(self).frame_number,
    {
        if self.y < 0 {
            self.y = 0;
        }
    }

    /// Moves the player one column forward.
    pub fn horizontally_advance_player(&mut self)
        requires
            old(self).x < i32::MAX,
        ensures
            final(self).x == old(self).x + 1,
            final(self).y == old(self).y,
            final(self).velocity == old(self).velocity,
            final(self).frame_number == old(self).frame_number,
    {
        self.x = self.x + 1;
    }

    /// A flap: the velocity becomes the upward speed of the cap.
    pub fn flap(&mut self)
        requires
            old(self).wf(),
        ensures
            final(self).wf(),
            final(self).velocity == -TERMINAL_VELOCITY,
            final(self).x == old(self).x,
            final(self).y == old(self).y,
            final(self).frame_number == old(self).frame_number,
    {
        self.velocity = -TERMINAL_VELOCITY;
    }
}

/// Below the cap, gravity strictly raises the velocity; at or above it, the
/// velocity holds constant from then on.
pub proof fn lemma_gravity_rises_to_cap(v: int, n: nat)
    ensures
        v < TERMINAL_VELOCITY ==> gravity_step(v) > v,
        v >= TERMINAL_VELOCITY ==> velocity_after(v, n) == v,
    decreases n,
{
    if n > 0 {
        lemma_gravity_rises_to_cap(v, (n - 1) as nat);
    }
}

/// From rest, `n` ticks of gravity give `min(n * GRAVITY, TERMINAL_VELOCITY)`:
/// the cap is reached after ten ticks and kept from then on.
pub proof fn lemma_velocity_from_rest(n: nat)
    ensures
        velocity_after(0, n) == (if n * GRAVITY < TERMINAL_VELOCITY {
            n * GRAVITY
        } else {
            TERMINAL_VELOCITY as int
        }),
{
    lemma_velocity_from(0, n);
}

proof fn lemma_velocity_from(k: nat, n: nat)
    requires
        k <= 10,
    ensures
        velocity_after(k * GRAVITY, n) == (if (k + n) * GRAVITY < TERMINAL_VELOCITY {
            (k + n) * GRAVITY
        } else {
            TERMINAL_VELOCITY as int
        }),
    decreases n,
{
    if n > 0 {
        if k < 10 {
            assert(gravity_step(k * GRAVITY) == (k + 1) * GRAVITY);
            lemma_velocity_from(k + 1, (n - 1) as nat);
        } else {
            lemma_gravity_rises_to_cap(k * GRAVITY, n);
        }
    }
}

} // verus!
