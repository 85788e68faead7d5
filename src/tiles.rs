use vstd::prelude::*;
use bracket_lib::prelude::to_cp437;
use crate::game::{State, SCREEN_HEIGHT, X_DRAW_OFFSET};
use crate::physics::Player;

verus! {

/// Relies on bracket-lib's `to_cp437`: the code page 437 glyph of a character,
/// which for the printable ASCII characters (space to `~`) is their own code.
#[verifier::external_body]
fn cp437(c: char) -> (r: u16)
    ensures
        ' ' <= c <= '~' ==> r == c as u16,
{
    to_cp437(c)
}

/// Glyph of the walls of an obstacle.
pub fn wall_glyph() -> (r: u16)
    ensures
        r == '#' as u16,
{
    cp437('#')
}

impl Player {
    /// Glyph of the player: the digit of its animation frame, each frame a
    /// tile of its own in the game's font.
    pub fn glyph(&self) -> (r: u16)
        requires
            self.wf(),
        ensures
            r == '0' as u16 + self.frame_number,
    {
        let c = match self.frame_number {
            1 => '1',
            2 => '2',
            3 => '3',
            _ => '4',
        };
        cp437(c)
    }
}

impl State {
    /// Screen column of the obstacle, with the player drawn at `X_DRAW_OFFSET`.
    pub fn obstacle_screen_x(&self) -> (r: i32)
        requires
            self.wf(),
        ensures
            r == self.obstacle.x - self.player.x + X_DRAW_OFFSET,
    {
        self.obstacle.x - self.player.x + X_DRAW_OFFSET
    }

    /// Row `y` of the screen is drawn as wall in the obstacle's column: rows
    /// from the top down to just above `gap_y - size / 2`, and rows from
    /// `gap_y + size / 2` to the bottom of the screen.
    pub fn is_wall_row(&self, y: i32) -> (r: bool)
        requires
            self.obstacle.wf(),
        ensures
            r == (0 <= y && (y < self.obstacle.gap_y - self.obstacle.size / 2 || (
            self.obstacle.gap_y + self.obstacle.size / 2 <= y && y < SCREEN_HEIGHT))),
    {
        let half_size = self.obstacle.size / 2;
        0 <= y && (y < self.obstacle.gap_y - half_size || (self.obstacle.gap_y + half_size <= y
            && y < SCREEN_HEIGHT))
    }
}

} // verus!
