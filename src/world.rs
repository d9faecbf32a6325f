use vstd::prelude::*;
use crate::geometry::{Vector2, Rectangle, COORD_LIMIT};

verus! {

/// Initial horizontal speed of the ball: 5 pixels per tick.
pub const BALL_SPEED: i64 = 5_000;

/// Distance of the left paddle from the left edge, and of the right paddle
/// from the right edge: 16 pixels.
pub const PADDLE_MARGIN: i64 = 16_000;

/// Largest magnitude of a size accepted when a world is set up.
pub const INPUT_LIMIT: i64 = 10_000_000_000_000;

/// Who has won the match, if anyone.
#[derive(Clone, Copy, Debug, PartialEq, Eq, Structural)]
pub enum Outcome {
    Player1,
    Player2,
    Undecided,
}

impl Outcome {
    pub open spec fn spec_code(self) -> u32 {
        match self {
            Outcome::Player1 => 0,
            Outcome::Player2 => 1,
            Outcome::Undecided => 2,
        }
    }

    /// The wire code: 0 for the first player, 1 for the second, 2 for none.
    pub fn code(&self) -> (r: u32)
        ensures
            r == self.spec_code(),
    {
        match self {
            Outcome::Player1 => 0,
            Outcome::Player2 => 1,
            Outcome::Undecided => 2,
        }
    }
}

/// A rectangular game object.
#[derive(Clone, Copy, Debug, PartialEq, Eq, Structural)]
pub struct Entity {
    pub size: Vector2,
    pub position: Vector2,
    pub velocity: Vector2,
}

impl Entity {
    pub fn new(size: Vector2, position: Vector2) -> (r: Entity)
        ensures
            r == (Entity { size, position, velocity: Vector2 { x: 0, y: 0 } }),
    {
        Entity::with_velocity(size, position, Vector2::zero())
    }

    pub fn with_velocity(size: Vector2, position: Vector2, velocity: Vector2) -> (r: Entity)
        ensures
            r == (Entity { size, position, velocity }),
    {
        Entity { size, position, velocity }
    }

    pub fn width(&self) -> (r: i64)
        ensures
            r == self.size.x,
    {
        self.size.x
    }

    pub fn height(&self) -> (r: i64)
        ensures
            r == self.size.y,
    {
        self.size.y
    }

    /// Twice the centre: `2 * position + size`, exact in integers.
    pub open spec fn spec_double_centre(self) -> (int, int) {
        (2 * self.position.x + self.size.x, 2 * self.position.y + self.size.y)
    }

    pub fn double_centre(&self) -> (r: Vector2)
        requires
            self.position.within(2 * COORD_LIMIT),
            self.size.within(COORD_LIMIT as int),
        ensures
            (r.x as int, r.y as int) == self.spec_double_centre(),
    {
        Vector2::new(
            2 * self.position.x + self.width(),
            2 * self.position.y + self.height(),
        )
    }

    pub open spec fn spec_bounds(self) -> Rectangle {
        Rectangle {
            x: self.position.x,
            y: self.position.y,
            width: self.size.x,
            height: self.size.y,
        }
    }

    pub fn bounds(&self) -> (r: Rectangle)
        ensures
            r == self.spec_bounds(),
    {
        Rectangle::new(self.position.x, self.position.y, self.width(), self.height())
    }

    pub open spec fn within(self, limit: int) -> bool {
        self.size.within(limit) && self.position.within(limit) && self.velocity.within(limit)
    }
}

/// The whole state of a match.
#[derive(Clone, Copy, Debug, PartialEq, Eq, Structural)]
pub struct World {
    pub player1: Entity,
    pub player2: Entity,
    pub ball: Entity,
    pub world_size: Vector2,
    pub winner: Outcome,
}

fn vector_within(v: &Vector2) -> (r: bool)
    ensures
        r == v.within(COORD_LIMIT as int),
{
    -COORD_LIMIT <= v.x && v.x <= COORD_LIMIT && -COORD_LIMIT <= v.y && v.y <= COORD_LIMIT
}

fn entity_within(e: &Entity) -> (r: bool)
    ensures
        r == e.within(COORD_LIMIT as int),
{
    vector_within(&e.size) && vector_within(&e.position) && vector_within(&e.velocity)
}

/// Half of `v`, rounded toward zero.
pub open spec fn half(v: int) -> int {
    if v >= 0 {
        v / 2
    } else {
        -((-v) / 2)
    }
}

pub fn halve(v: i64) -> (r: i64)
    requires
        v > i64::MIN,
    ensures
        r == half(v as int),
{
    if v >= 0 {
        v / 2
    } else {
        -((-v) / 2)
    }
}

/// Horizontal launch speed of the ball: at rest until two players are in,
/// then to the left when the coin shows 0 and to the right otherwise.
pub open spec fn spec_launch_speed(players_count: u32, coin: u32) -> int {
    if players_count < 2 {
        0
    } else if coin == 0 {
        -BALL_SPEED
    } else {
        BALL_SPEED as int
    }
}

pub fn launch_speed(players_count: u32, coin: u32) -> (r: i64)
    ensures
        r == spec_launch_speed(players_count, coin),
{
    if players_count < 2 {
        0
    } else if coin == 0 {
        -BALL_SPEED
    } else {
        BALL_SPEED
    }
}

impl World {
    /// All sizes, positions and velocities lie within `COORD_LIMIT` of zero.
    pub open spec fn within_limits(self) -> bool {
        &&& self.player1.within(COORD_LIMIT as int)
        &&& self.player2.within(COORD_LIMIT as int)
        &&& self.ball.within(COORD_LIMIT as int)
        &&& self.world_size.within(COORD_LIMIT as int)
    }

    pub fn is_within_limits(&self) -> (r: bool)
        ensures
            r == self.within_limits(),
    {
        entity_within(&self.player1) && entity_within(&self.player2) && entity_within(
            &self.ball,
        ) && vector_within(&self.world_size)
    }

    /// The world at the start of a match in a window of `window` with the
    /// given sprite sizes. The second paddle keeps from the right edge the
    /// margin plus its own height.
    pub open spec fn spec_initial(
        window: Vector2,
        player1_size: Vector2,
        player2_size: Vector2,
        ball_size: Vector2,
        ball_speed: int,
    ) -> World {
        World {
            player1: Entity {
                size: player1_size,
                position: Vector2 {
                    x: PADDLE_MARGIN,
                    y: half(window.y - player1_size.y) as i64,
                },
                velocity: Vector2 { x: 0, y: 0 },
            },
            player2: Entity {
                size: player2_size,
                position: Vector2 {
                    x: (window.x - player2_size.y - PADDLE_MARGIN) as i64,
                    y: half(window.y - player2_size.y) as i64,
                },
                velocity: Vector2 { x: 0, y: 0 },
            },
            ball: Entity {
                size: ball_size,
                position: Vector2 {
                    x: (half(window.x as int) - half(ball_size.x as int)) as i64,
                    y: (half(window.y as int) - half(ball_size.y as int)) as i64,
                },
                velocity: Vector2 { x: ball_speed as i64, y: 0 },
            },
            world_size: window,
            winner: Outcome::Undecided,
        }
    }

    pub fn initial(
        window: Vector2,
        player1_size: Vector2,
        player2_size: Vector2,
        ball_size: Vector2,
        ball_speed: i64,
    ) -> (r: World)
        requires
            window.within(INPUT_LIMIT as int),
            player1_size.within(INPUT_LIMIT as int),
            player2_size.within(INPUT_LIMIT as int),
            ball_size.within(INPUT_LIMIT as int),
            -BALL_SPEED <= ball_speed <= BALL_SPEED,
        ensures
            r == World::spec_initial(window, player1_size, player2_size, ball_size, ball_speed as int),
            r.within_limits(),
    {
        let player1 = Entity::new(
            player1_size,
            Vector2::new(PADDLE_MARGIN, halve(window.y - player1_size.y)),
        );
        let player2 = Entity::new(
            player2_size,
            Vector2::new(
                window.x - player2_size.y - PADDLE_MARGIN,
                halve(window.y - player2_size.y),
            ),
        );
        let ball = Entity::with_velocity(
            ball_size,
            Vector2::new(
                halve(window.x) - halve(ball_size.x),
                halve(window.y) - halve(ball_size.y),
            ),
            Vector2::new(ball_speed, 0),
        );
        World { player1, player2, ball, world_size: window, winner: Outcome::Undecided }
    }
}

} // verus!
