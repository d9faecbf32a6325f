use vstd::prelude::*;
use crate::geometry::{Vector2, COORD_LIMIT};
use crate::world::{Entity, World, Outcome};
use crate::service::PlayGame;

verus! {

/// Distance a paddle moves in one tick: 8 pixels.
pub const PADDLE_SPEED: i64 = 8_000;

/// Vertical speed added by a hit one paddle height off the paddle's centre:
/// 4 pixels per tick.
pub const PADDLE_SPIN: i64 = 4_000;

/// Horizontal speed the ball gains on each paddle hit: 0.05 pixels per tick.
pub const BALL_ACC: i64 = 50;

/// Button code that moves a paddle up.
pub const BUTTON_UP: u32 = 0;

/// Button code that moves a paddle down.
pub const BUTTON_DOWN: u32 = 1;

/// `a / b` rounded toward zero.
pub open spec fn quotient(a: int, b: int) -> int {
    let q = abs(a) / abs(b);
    if (a >= 0) == (b >= 0) {
        q
    } else {
        -q
    }
}

pub open spec fn abs(v: int) -> int {
    if v >= 0 {
        v
    } else {
        -v
    }
}

fn div_toward_zero(a: i64, b: i64) -> (r: i64)
    requires
        b != 0,
        a > i64::MIN,
        b > i64::MIN,
    ensures
        r == quotient(a as int, b as int),
{
    let ua: i64 = if a >= 0 { a } else { -a };
    let ub: i64 = if b >= 0 { b } else { -b };
    let q: i64 = ua / ub;
    if (a >= 0) == (b >= 0) {
        q
    } else {
        -q
    }
}

/// How far the pressed button moves a paddle.
pub open spec fn paddle_shift(button: u32) -> int {
    if button == BUTTON_UP {
        -PADDLE_SPEED
    } else if button == BUTTON_DOWN {
        PADDLE_SPEED as int
    } else {
        0
    }
}

pub open spec fn shifted(e: Entity, dy: int) -> Entity {
    Entity { position: Vector2 { y: (e.position.y + dy) as i64, ..e.position }, ..e }
}

/// First rule of a tick: the paddle of `player` moves by the button.
pub open spec fn spec_move_paddles(w: World, button: u32, player: u32) -> World {
    if player == 1 {
        World { player1: shifted(w.player1, paddle_shift(button)), ..w }
    } else if player == 2 {
        World { player2: shifted(w.player2, paddle_shift(button)), ..w }
    } else {
        w
    }
}

/// Second rule: the ball moves by its velocity.
pub open spec fn spec_advance_ball(w: World) -> World {
    let b = w.ball;
    World {
        ball: Entity {
            position: Vector2 {
                x: (b.position.x + b.velocity.x) as i64,
                y: (b.position.y + b.velocity.y) as i64,
            },
            ..b
        },
        ..w
    }
}

/// The paddle the ball overlaps, the first player's tested first.
pub open spec fn spec_paddle_hit(w: World) -> Option<Entity> {
    if w.ball.spec_bounds().overlaps(w.player1.spec_bounds()) {
        Some(w.player1)
    } else if w.ball.spec_bounds().overlaps(w.player2.spec_bounds()) {
        Some(w.player2)
    } else {
        None
    }
}

/// Vertical speed a hit adds: `PADDLE_SPIN` times the ball centre's offset
/// below the paddle centre, in paddle heights, rounded toward zero. A paddle
/// of no height adds none.
pub open spec fn spin(paddle: Entity, ball: Entity) -> int {
    if paddle.size.y == 0 {
        0
    } else {
        quotient(
            PADDLE_SPIN * (ball.spec_double_centre().1 - paddle.spec_double_centre().1),
            2 * paddle.size.y,
        )
    }
}

/// Horizontal velocity after a hit: reversed, and faster by `BALL_ACC`.
/// A ball at rest counts as moving right.
pub open spec fn rebound(vx: int) -> int {
    if vx >= 0 {
        -(vx + BALL_ACC)
    } else {
        -(vx - BALL_ACC)
    }
}

/// Third rule: a ball on a paddle rebounds and takes spin.
pub open spec fn spec_collide(w: World) -> World {
    match spec_paddle_hit(w) {
        Some(paddle) => World {
            ball: Entity {
                velocity: Vector2 {
                    x: rebound(w.ball.velocity.x as int) as i64,
                    y: (w.ball.velocity.y + spin(paddle, w.ball)) as i64,
                },
                ..w.ball
            },
            ..w
        },
        None => w,
    }
}

pub open spec fn touches_wall(w: World) -> bool {
    w.ball.position.y <= 0 || w.ball.position.y + w.ball.size.y >= w.world_size.y
}

/// Fourth rule: a ball on the top or bottom wall turns vertically.
pub open spec fn spec_bounce_walls(w: World) -> World {
    if touches_wall(w) {
        World {
            ball: Entity {
                velocity: Vector2 { y: (-w.ball.velocity.y) as i64, ..w.ball.velocity },
                ..w.ball
            },
            ..w
        }
    } else {
        w
    }
}

/// Fifth rule: a ball past the right edge wins for the first player, one
/// past the left edge for the second.
pub open spec fn spec_judge(w: World) -> World {
    if w.ball.position.x > w.world_size.x {
        World { winner: Outcome::Player1, ..w }
    } else if w.ball.position.x < 0 {
        World { winner: Outcome::Player2, ..w }
    } else {
        w
    }
}

/// One tick of the game.
pub open spec fn spec_step(w: World, button: u32, player: u32) -> World {
    spec_judge(spec_bounce_walls(spec_collide(spec_advance_ball(spec_move_paddles(w, button, player)))))
}

} // verus!

verus! {

/// Twice the vertical centre of the entity, which is exact in integers.
fn double_centre_y(e: &Entity) -> (r: i64)
    requires
        e.position.within(2 * COORD_LIMIT),
        e.size.within(COORD_LIMIT as int),
    ensures
        r == e.spec_double_centre().1,
{
    e.double_centre().y
}

fn spin_of(paddle: &Entity, ball: &Entity) -> (r: i64)
    requires
        paddle.position.within(2 * COORD_LIMIT),
        paddle.size.within(COORD_LIMIT as int),
        ball.position.within(2 * COORD_LIMIT),
        ball.size.within(COORD_LIMIT as int),
    ensures
        r == spin(*paddle, *ball),
        abs(r as int) <= PADDLE_SPIN * 10 * COORD_LIMIT,
{
    if paddle.height() == 0 {
        0
    } else {
        let offset: i64 = double_centre_y(ball) - double_centre_y(paddle);
        assert(abs(offset as int) <= 10 * COORD_LIMIT);
        let n: i64 = PADDLE_SPIN * offset;
        let d: i64 = 2 * paddle.height();
        let r = div_toward_zero(n, d);
        proof {
            assert(abs(r as int) <= abs(n as int)) by (nonlinear_arith)
                requires
                    r == quotient(n as int, d as int),
                    d != 0,
            {}
        }
        r
    }
}

impl PlayGame {
    /// Applies one tick of input and physics to `world`.
    pub fn update_world(world: &mut World, clicked_button: u32, player_number: u32)
        requires
            old(world).within_limits(),
        ensures
            *final(world) == spec_step(*old(world), clicked_button, player_number),
    {
        let shift: i64 = if clicked_button == BUTTON_UP {
            -PADDLE_SPEED
        } else if clicked_button == BUTTON_DOWN {
            PADDLE_SPEED
        } else {
            0
        };
        if player_number == 1 {
            world.player1.position.y = world.player1.position.y + shift;
        } else if player_number == 2 {
            world.player2.position.y = world.player2.position.y + shift;
        }
        world.ball.position.x = world.ball.position.x + world.ball.velocity.x;
        world.ball.position.y = world.ball.position.y + world.ball.velocity.y;

        let player1_bounds = world.player1.bounds();
        let player2_bounds = world.player2.bounds();
        let ball_bounds = world.ball.bounds();

        let paddle_hit: Option<Entity> = if ball_bounds.intersects(&player1_bounds) {
            Some(world.player1)
        } else if ball_bounds.intersects(&player2_bounds) {
            Some(world.player2)
        } else {
            None
        };

        if let Some(paddle) = paddle_hit {
            let vx = world.ball.velocity.x;
            world.ball.velocity.x = if vx >= 0 { -(vx + BALL_ACC) } else { -(vx - BALL_ACC) };
            let spin = spin_of(&paddle, &world.ball);
            world.ball.velocity.y = world.ball.velocity.y + spin;
        }

        if world.ball.position.y <= 0 || world.ball.position.y + world.ball.height()
            >= world.world_size.y {
            world.ball.velocity.y = -world.ball.velocity.y;
        }

        if world.ball.position.x < 0 {
            world.winner = Outcome::Player2;
        }
        if world.ball.position.x > world.world_size.x {
            world.winner = Outcome::Player1;
        }
    }
}

} // verus!

verus! {

/// The world of a tick just before the wall rule: paddles moved, ball
/// advanced, paddle hit applied.
pub open spec fn spec_before_walls(w: World, button: u32, player: u32) -> World {
    spec_collide(spec_advance_ball(spec_move_paddles(w, button, player)))
}

/// Up moves the chosen player's paddle up by `PADDLE_SPEED`, Down moves it
/// down by as much; only that paddle's vertical position changes, and a
/// player number other than 1 or 2, or another button, moves no paddle.
pub proof fn lemma_paddle_moves(w: World, button: u32, player: u32)
    requires
        w.within_limits(),
    ensures
        ({
            let r = spec_step(w, button, player);
            &&& button == BUTTON_UP && player == 1 ==> r.player1.position.y
                == w.player1.position.y - PADDLE_SPEED
            &&& button == BUTTON_DOWN && player == 1 ==> r.player1.position.y
                == w.player1.position.y + PADDLE_SPEED
            &&& button == BUTTON_UP && player == 2 ==> r.player2.position.y
                == w.player2.position.y - PADDLE_SPEED
            &&& button == BUTTON_DOWN && player == 2 ==> r.player2.position.y
                == w.player2.position.y + PADDLE_SPEED
            &&& r.player1.position.x == w.player1.position.x
            &&& r.player1.size == w.player1.size
            &&& r.player1.velocity == w.player1.velocity
            &&& r.player2.position.x == w.player2.position.x
            &&& r.player2.size == w.player2.size
            &&& r.player2.velocity == w.player2.velocity
            &&& player != 1 ==> r.player1 == w.player1
            &&& player != 2 ==> r.player2 == w.player2
            &&& button != BUTTON_UP && button != BUTTON_DOWN ==> r.player1 == w.player1
                && r.player2 == w.player2
        }),
{
}

/// The ball's position advances by exactly its velocity at the start of
/// the tick; hits and bounces change only its velocity.
pub proof fn lemma_ball_advances(w: World, button: u32, player: u32)
    requires
        w.within_limits(),
    ensures
        spec_step(w, button, player).ball.position.x == w.ball.position.x + w.ball.velocity.x,
        spec_step(w, button, player).ball.position.y == w.ball.position.y + w.ball.velocity.y,
        spec_step(w, button, player).ball.size == w.ball.size,
{
}

/// A paddle hit reverses the ball's horizontal velocity and makes its
/// magnitude larger by exactly `BALL_ACC`; without a hit it stays.
pub proof fn lemma_paddle_hit_speeds_up(w: World, button: u32, player: u32)
    requires
        w.within_limits(),
    ensures
        ({
            let r = spec_step(w, button, player);
            let hit = spec_paddle_hit(spec_advance_ball(spec_move_paddles(w, button, player)));
            let vx = w.ball.velocity.x as int;
            &&& hit is Some ==> abs(r.ball.velocity.x as int) == abs(vx) + BALL_ACC
            &&& hit is Some && vx > 0 ==> r.ball.velocity.x < 0
            &&& hit is Some && vx < 0 ==> r.ball.velocity.x > 0
            &&& hit is None ==> r.ball.velocity.x == vx
        }),
{
}

/// A ball that ends the tick on or past the top or bottom wall has its
/// vertical velocity negated, and the wall changes nothing else; elsewhere
/// the wall leaves the world as it is.
pub proof fn lemma_wall_bounce(w: World, button: u32, player: u32)
    requires
        w.within_limits(),
    ensures
        ({
            let r = spec_step(w, button, player);
            let c = spec_before_walls(w, button, player);
            &&& touches_wall(r) ==> r.ball.velocity.y == -c.ball.velocity.y
            &&& !touches_wall(r) ==> r.ball.velocity.y == c.ball.velocity.y
            &&& r.ball.velocity.x == c.ball.velocity.x
            &&& r.ball.position == c.ball.position
            &&& r.ball.size == c.ball.size
            &&& r.player1 == c.player1
            &&& r.player2 == c.player2
            &&& r.world_size == c.world_size
        }),
{
}

/// A ball left of the left edge makes the second player the winner, one
/// right of the right edge the first; otherwise the winner stays.
pub proof fn lemma_winner(w: World, button: u32, player: u32)
    requires
        w.within_limits(),
        w.world_size.x >= 0,
    ensures
        ({
            let r = spec_step(w, button, player);
            &&& r.ball.position.x < 0 ==> r.winner == Outcome::Player2
            &&& r.ball.position.x > r.world_size.x ==> r.winner == Outcome::Player1
            &&& 0 <= r.ball.position.x <= r.world_size.x ==> r.winner == w.winner
            &&& r.world_size == w.world_size
        }),
{
}

} // verus!
