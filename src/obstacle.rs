use vstd::prelude::*;
use bracket_lib::prelude::RandomNumberGenerator;

verus! {

/// Lowest gap centre that a new obstacle may get.
pub const GAP_Y_MIN: i32 = 10;

/// One past the highest gap centre that a new obstacle may get.
pub const GAP_Y_END: i32 = 40;

/// Gap height of the first obstacle; each point of score takes one off.
pub const START_GAP_SIZE: i32 = 20;

/// Smallest gap height, whatever the score.
pub const MIN_GAP_SIZE: i32 = 2;

#[verifier::external_type_specification]
#[verifier::external_body]
pub struct ExRandomNumberGenerator(RandomNumberGenerator);

/// Relies on bracket-lib's `RandomNumberGenerator::new`: a generator seeded
/// from the operating system, or from the clock where that fails.
pub assume_specification[ RandomNumberGenerator::new ]() -> RandomNumberGenerator;

/// Relies on bracket-lib's `RandomNumberGenerator::range`: a value drawn from
/// `min` inclusive to `max` exclusive (it panics on an empty range).
#[verifier::external_body]
fn random_in_range(rng: &mut RandomNumberGenerator, min: i32, max: i32) -> (r: i32)
    requires
        min < max,
    ensures
        min <= r < max,
{
    rng.range(min, max)
}

/// Gap height of an obstacle made at `score`: `max(2, 20 - score)`.
pub open spec fn gap_size_for(score: int) -> int {
    if START_GAP_SIZE - score < MIN_GAP_SIZE { MIN_GAP_SIZE as int } else { START_GAP_SIZE - score }
}

/// Gap height of an obstacle made at `score`.
pub fn gap_size_for_score(score: i32) -> (r: i32)
    requires
        score > START_GAP_SIZE - i32::MAX,
    ensures
        r == gap_size_for(score as int),
        r >= MIN_GAP_SIZE,
{
    if score >= START_GAP_SIZE - MIN_GAP_SIZE {
        MIN_GAP_SIZE
    } else {
        START_GAP_SIZE - score
    }
}

/// An obstacle: a wall at column `x` with a passable gap of height `size`
/// centred on row `gap_y`.
pub struct Obstacle {
    pub x: i32,
    pub gap_y: i32,
    pub size: i32,
}

impl Obstacle {
    /// The gap centre lies in the range that new obstacles draw from, and the
    /// gap is at least two rows high.
    pub open spec fn wf(&self) -> bool {
        &&& GAP_Y_MIN <= self.gap_y < GAP_Y_END
        &&& self.size >= MIN_GAP_SIZE
    }

    /// Half the gap height: the tolerance around the gap centre.
    pub open spec fn half_size(&self) -> int {
        self.size / 2
    }

    /// An obstacle at column `x` with its gap centred on a random row in
    /// `[GAP_Y_MIN, GAP_Y_END)`, sized for `score`.
    pub fn new(x: i32, score: i32) -> (o: Obstacle)
        requires
            score > START_GAP_SIZE - i32::MAX,
        ensures
            o.wf(),
            o.x == x,
            GAP_Y_MIN <= o.gap_y < GAP_Y_END,
            o.size == gap_size_for(score as int),
    {
        let mut rng = RandomNumberGenerator::new();
        let gap_y = random_in_range(&mut rng, GAP_Y_MIN, GAP_Y_END);
        Obstacle::with_gap(x, gap_y, score)
    }

    /// An obstacle at column `x` with its gap centred on `gap_y`, sized for `score`.
    pub fn with_gap(x: i32, gap_y: i32, score: i32) -> (o: Obstacle)
        requires
            score > START_GAP_SIZE - i32::MAX,
        ensures
            o.x == x,
            o.gap_y == gap_y,
            o.size == gap_size_for(score as int),
            o.size >= MIN_GAP_SIZE,
            GAP_Y_MIN <= gap_y < GAP_Y_END ==> o.wf(),
    {
        Obstacle { x, gap_y, size: gap_size_for_score(score) }
    }
}

/// Whatever the score, a gap is at least two rows high.
pub proof fn lemma_gap_size_floor(score: int)
    ensures
        gap_size_for(score) >= MIN_GAP_SIZE,
        score >= START_GAP_SIZE - MIN_GAP_SIZE ==> gap_size_for(score) == MIN_GAP_SIZE,
{
}

} // verus!
