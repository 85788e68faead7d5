use vstd::prelude::*;
use crate::obstacle::{gap_size_for, Obstacle, GAP_Y_END, GAP_Y_MIN, MIN_GAP_SIZE, START_GAP_SIZE};
use crate::physics::{gravity_step, next_y, Player, TERMINAL_VELOCITY};

verus! {

/// Width of the screen in cells.
pub const SCREEN_WIDTH: i32 = 80;

/// Height of the screen in cells; a player below it has hit the floor.
pub const SCREEN_HEIGHT: i32 = 50;

/// Screen column on which the player is drawn.
pub const X_DRAW_OFFSET: i32 = 5;

/// Height at which a new player starts.
pub const START_Y: i32 = 20;

/// What the game is doing: showing its menu, being played, or showing the
/// final score.
#[derive(Clone, Copy, PartialEq, Eq, Structural, Debug)]
pub enum GameMode {
    Menu,
    Playing,
    End,
}

/// The keys that the game answers to; any other key is ignored.
#[derive(Clone, Copy, PartialEq, Eq, Structural, Debug)]
pub enum Key {
    Space,
    P,
    Q,
}

/// The player has fallen below the bottom of the screen.
pub open spec fn floor_hit(p: Player) -> bool {
    p.y > SCREEN_HEIGHT
}

/// The player stands in the obstacle's column, above or below its gap.
pub open spec fn obstacle_hit(p: Player, o: Obstacle) -> bool {
    &&& p.x == o.x
    &&& (p.y < o.gap_y - o.size / 2 || p.y > o.gap_y + o.size / 2)
}

/// The player has moved far enough past the obstacle for the next to appear.
pub open spec fn needs_new_obstacle(p: Player, o: Obstacle) -> bool {
    p.x - X_DRAW_OFFSET > o.x
}

/// The whole game: its mode, the player, the current obstacle, the score,
/// and whether play is paused.
pub struct State {
    pub mode: GameMode,
    pub player: Player,
    pub paused: bool,
    pub score: i32,
    pub obstacle: Obstacle,
}

/// `t` is a player that has just been placed at the start.
pub open spec fn is_start_player(t: Player) -> bool {
    &&& t.x == 0
    &&& t.y == START_Y
    &&& t.velocity == 0
    &&& t.frame_number == 1
}

impl State {
    /// Player and obstacle are well formed, the score is not negative, the
    /// player has not moved backward from the start, and the obstacle lies
    /// between just behind the player and one screen ahead of it.
    pub open spec fn wf(&self) -> bool {
        &&& self.player.wf()
        &&& self.obstacle.wf()
        &&& self.score >= 0
        &&& self.player.x >= 0
        &&& -X_DRAW_OFFSET <= self.obstacle.x - self.player.x <= SCREEN_WIDTH
    }

    /// Room for one more tick without leaving the range of `i32`.
    pub open spec fn can_advance(&self) -> bool {
        &&& self.player.x <= i32::MAX - (SCREEN_WIDTH - X_DRAW_OFFSET + 1)
        &&& self.player.y <= i32::MAX - 2
        &&& self.score < i32::MAX
    }

    /// Whether one more tick fits in the range of `i32`.
    pub fn has_room_to_advance(&self) -> (r: bool)
        ensures
            r == self.can_advance(),
    {
        self.player.x <= i32::MAX - (SCREEN_WIDTH - X_DRAW_OFFSET + 1) && self.player.y <= i32::MAX
            - 2 && self.score < i32::MAX
    }

    /// One update of play from `s` to `t`: nothing while paused; otherwise the
    /// player moves, the game ends on a hit, passing the obstacle's column
    /// scores one point, and a new obstacle appears one screen ahead once the
    /// player is past the current one.
    pub open spec fn update_step(s: State, t: State) -> bool {
        if s.paused {
            t == s
        } else {
            &&& t.player.velocity == gravity_step(s.player.velocity as int)
            &&& t.player.y == next_y(s.player.y as int, t.player.velocity as int)
            &&& t.player.x == s.player.x + 1
            &&& t.player.frame_number == s.player.frame_number
            &&& t.mode == (if floor_hit(t.player) || obstacle_hit(t.player, s.obstacle) {
                GameMode::End
            } else {
                s.mode
            })
            &&& t.score == s.score + (if t.player.x == s.obstacle.x { 1int } else { 0 })
            &&& needs_new_obstacle(t.player, s.obstacle) ==> {
                &&& t.obstacle.x == SCREEN_WIDTH + t.player.x - X_DRAW_OFFSET
                &&& t.obstacle.size == gap_size_for(t.score as int)
                &&& GAP_Y_MIN <= t.obstacle.gap_y < GAP_Y_END
            }
            &&& !needs_new_obstacle(t.player, s.obstacle) ==> t.obstacle == s.obstacle
            &&& t.paused == s.paused
        }
    }

    /// `t` is `s` with the effect of an in-game key: a flap on space, and
    /// pause toggled on `P`.
    pub open spec fn with_ingame_input(s: State, key: Option<Key>) -> State {
        match key {
            Some(Key::Space) => State {
                player: Player { velocity: (-TERMINAL_VELOCITY) as i32, ..s.player },
                ..s
            },
            Some(Key::P) => State { paused: !s.paused, ..s },
            _ => s,
        }
    }

    /// `t` is a fresh game started from `s`: score zero, the player at the
    /// start, an obstacle one screen ahead, and play under way.
    pub open spec fn restarted(s: State, t: State) -> bool {
        &&& t.score == 0
        &&& is_start_player(t.player)
        &&& t.obstacle.x == SCREEN_WIDTH - X_DRAW_OFFSET
        &&& t.obstacle.size == START_GAP_SIZE
        &&& GAP_Y_MIN <= t.obstacle.gap_y < GAP_Y_END
        &&& t.mode == GameMode::Playing
        &&& t.paused == s.paused
    }

    /// A key on the menu: `P` starts a game, `Q` asks to quit, others do nothing.
    pub open spec fn menu_step(s: State, t: State, key: Option<Key>, quit: bool) -> bool {
        match key {
            Some(Key::P) => State::restarted(s, t) && !quit,
            Some(Key::Q) => t == s && quit,
            _ => t == s && !quit,
        }
    }

    /// A key on the final screen: space returns to the menu.
    pub open spec fn with_end_input(s: State, key: Option<Key>) -> State {
        if key == Some(Key::Space) {
            State { mode: GameMode::Menu, ..s }
        } else {
            s
        }
    }

    /// A game on its menu, with a player at the start and a first obstacle
    /// one screen ahead.
    pub fn new() -> (s: State)
        ensures
            s.wf(),
            s.mode == GameMode::Menu,
            is_start_player(s.player),
            !s.paused,
            s.score == 0,
            s.obstacle.x == SCREEN_WIDTH,
            s.obstacle.size == START_GAP_SIZE,
    {
        State {
            mode: GameMode::Menu,
            player: Player::new(0, START_Y),
            paused: false,
            score: 0,
            obstacle: Obstacle::new(SCREEN_WIDTH, 0),
        }
    }

    /// The player has fallen below the bottom of the screen.
    pub fn is_colliding_with_floor(&self) -> (r: bool)
        ensures
            r == floor_hit(self.player),
    {
        self.player.y > SCREEN_HEIGHT
    }

    /// The player stands in the obstacle's column, and its height lies outside
    /// `[gap_y - size / 2, gap_y + size / 2]`.
    pub fn is_colliding_with_obstacle(&self) -> (r: bool)
        requires
            self.obstacle.wf(),
        ensures
            r == obstacle_hit(self.player, self.obstacle),
    {
        if self.player.x != self.obstacle.x {
            return false;
        }
        let half_size = self.obstacle.size / 2;
        if self.player.y < self.obstacle.gap_y - half_size {
            return true;
        }
        if self.player.y > self.obstacle.gap_y + half_size {
            return true;
        }
        false
    }

    /// Ends the game when the player has hit the floor or the obstacle.
    pub fn end_game_if_colliding(&mut self)
        requires
            old(self).obstacle.wf(),
        ensures
            final(self).mode == (if floor_hit(old(self).player) || obstacle_hit(
                old(self).player,
                old(self).obstacle,
            ) {
                GameMode::End
            } else {
                old(self).mode
            }),
            final(self).player == old(self).player,
            final(self).obstacle == old(self).obstacle,
            final(self).score == old(self).score,
            final(self).paused == old(self).paused,
    {
        if self.is_colliding_with_floor() {
            self.mode = GameMode::End;
            return;
        }
        if self.is_colliding_with_obstacle() {
            self.mode = GameMode::End;
        }
    }

    /// Scores one point when the player stands in the obstacle's column.
    pub fn check_score(&mut self)
        requires
            old(self).score < i32::MAX,
        ensures
            final(self).score == old(self).score + (if old(self).player.x == old(
                self,
            ).obstacle.x {
                1int
            } else {
                0
            }),
            final(self).mode == old(self).mode,
            final(self).player == old(self).player,
            final(self).obstacle == old(self).obstacle,
            final(self).paused == old(self).paused,
    {
        if self.player.x == self.obstacle.x {
            self.score = self.score + 1;
        }
    }

    /// Once the player is past the obstacle, places a new one a screen ahead,
    /// sized for the current score.
    pub fn spawn_new_obstacle(&mut self)
        requires
            old(self).score >= 0,
            0 <= old(self).player.x <= i32::MAX - (SCREEN_WIDTH - X_DRAW_OFFSET),
        ensures
            needs_new_obstacle(old(self).player, old(self).obstacle) ==> {
                &&& final(self).obstacle.x == SCREEN_WIDTH + old(self).player.x - X_DRAW_OFFSET
                &&& final(self).obstacle.size == gap_size_for(old(self).score as int)
                &&& GAP_Y_MIN <= final(self).obstacle.gap_y < GAP_Y_END
                &&& final(self).obstacle.wf()
            },
            !needs_new_obstacle(old(self).player, old(self).obstacle) ==> final(self).obstacle
                == old(self).obstacle,
            final(self).mode == old(self).mode,
            final(self).player == old(self).player,
            final(self).score == old(self).score,
            final(self).paused == old(self).paused,
    {
        if self.player.x - X_DRAW_OFFSET > self.obstacle.x {
            self.obstacle = Obstacle::new(self.player.x + (SCREEN_WIDTH - X_DRAW_OFFSET), self.score);
        }
    }

    /// One update of play, skipped while paused.
    pub fn update(&mut self)
        requires
            old(self).wf(),
            old(self).can_advance(),
        ensures
            final(self).wf(),
            State::update_step(*old(self), *final(self)),
            final(self).score >= old(self).score,
    {
        if self.paused {
            return;
        }
        self.player.update();
        self.end_game_if_colliding();
        self.check_score();
        self.spawn_new_obstacle();
    }

    /// Toggles the pause.
    pub fn pause(&mut self)
        ensures
            *final(self) == (State { paused: !old(self).paused, ..*old(self) }),
    {
        self.paused = !self.paused;
    }

    /// In play: space flaps, `P` toggles the pause, other keys are ignored.
    pub fn poll_for_ingame_input(&mut self, key: Option<Key>)
        requires
            old(self).wf(),
        ensures
            final(self).wf(),
            *final(self) == State::with_ingame_input(*old(self), key),
    {
        match key {
            Some(Key::Space) => self.player.flap(),
            Some(Key::P) => self.pause(),
            _ => {},
        }
    }

    /// Starts a fresh game.
    pub fn restart(&mut self)
        ensures
            final(self).wf(),
            State::restarted(*old(self), *final(self)),
    {
        self.score = 0;
        self.player = Player::new(0, START_Y);
        self.obstacle = Obstacle::new(SCREEN_WIDTH + self.player.x - X_DRAW_OFFSET, self.score);
        self.mode = GameMode::Playing;
    }

    /// On the menu: `P` starts a game, `Q` asks to quit (the result is then
    /// true), other keys are ignored.
    pub fn poll_for_menu_input(&mut self, key: Option<Key>) -> (quit: bool)
        requires
            old(self).wf(),
        ensures
            final(self).wf(),
            State::menu_step(*old(self), *final(self), key, quit),
    {
        match key {
            Some(Key::P) => {
                self.restart();
                false
            },
            Some(Key::Q) => true,
            _ => false,
        }
    }

    /// A frame on the menu.
    pub fn main_menu(&mut self, key: Option<Key>) -> (quit: bool)
        requires
            old(self).wf(),
        ensures
            final(self).wf(),
            State::menu_step(*old(self), *final(self), key, quit),
    {
        self.poll_for_menu_input(key)
    }

    /// A frame of play: one update, then the key.
    pub fn playing(&mut self, key: Option<Key>)
        requires
            old(self).wf(),
            old(self).can_advance(),
        ensures
            final(self).wf(),
            exists|mid: State|
                State::update_step(*old(self), mid) && *final(self) == State::with_ingame_input(
                    mid,
                    key,
                ),
            final(self).score >= old(self).score,
    {
        self.update();
        let ghost mid = *self;
        self.poll_for_ingame_input(key);
        assert(State::update_step(*old(self), mid));
    }

    /// A frame on the final screen: space returns to the menu.
    pub fn game_over(&mut self, key: Option<Key>)
        ensures
            *final(self) == State::with_end_input(*old(self), key),
    {
        if let Some(Key::Space) = key {
            self.mode = GameMode::Menu;
        }
    }

    /// One frame of the game in its current mode, given the key pressed during
    /// it, if any. The result is true when the player asked to quit.
    pub fn tick(&mut self, key: Option<Key>) -> (quit: bool)
        requires
            old(self).wf(),
            old(self).can_advance(),
        ensures
            final(self).wf(),
            final(self).player.y >= 0,
            final(self).obstacle.size >= MIN_GAP_SIZE,
            old(self).mode == GameMode::Menu ==> State::menu_step(
                *old(self),
                *final(self),
                key,
                quit,
            ),
            old(self).mode == GameMode::Playing ==> {
                &&& !quit
                &&& final(self).score >= old(self).score
                &&& exists|mid: State|
                    State::update_step(*old(self), mid) && *final(self)
                        == State::with_ingame_input(mid, key)
            },
            old(self).mode == GameMode::End ==> !quit && *final(self) == State::with_end_input(
                *old(self),
                key,
            ),
    {
        match self.mode {
            GameMode::Menu => self.main_menu(key),
            GameMode::Playing => {
                self.playing(key);
                false
            },
            GameMode::End => {
                self.game_over(key);
                false
            },
        }
    }
}

} // verus!
