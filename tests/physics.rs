use pong::geometry::{Rectangle, Vector2};
use pong::physics::{BALL_ACC, PADDLE_SPEED};
use pong::service::PlayGame;
use pong::world::{halve, launch_speed, Entity, Outcome, World};

fn px(x: i64, y: i64) -> Vector2 {
    Vector2::new(x * 1000, y * 1000)
}

fn world_with_ball(position: Vector2, velocity: Vector2) -> World {
    let mut w = World::initial(px(1200, 720), px(20, 100), px(20, 100), px(20, 20), 0);
    w.ball.position = position;
    w.ball.velocity = velocity;
    w
}

#[test]
fn up_and_down_move_only_the_chosen_paddle() {
    let w = world_with_ball(px(600, 300), px(0, 0));
    let mut up = w;
    PlayGame::update_world(&mut up, 0, 2);
    assert_eq!(up.player2.position.y, w.player2.position.y - PADDLE_SPEED);
    assert_eq!(up.player1, w.player1);
    let mut down = w;
    PlayGame::update_world(&mut down, 1, 1);
    assert_eq!(down.player1.position.y, w.player1.position.y + PADDLE_SPEED);
    assert_eq!(down.player2, w.player2);
    let mut nobody = w;
    PlayGame::update_world(&mut nobody, 0, 3);
    assert_eq!(nobody.player1, w.player1);
    assert_eq!(nobody.player2, w.player2);
    let mut idle = w;
    PlayGame::update_world(&mut idle, 2, 1);
    assert_eq!(idle.player1, w.player1);
}

#[test]
fn ball_advances_by_velocity() {
    let mut w = world_with_ball(px(600, 300), Vector2::new(5050, -1234));
    PlayGame::update_world(&mut w, 2, 1);
    assert_eq!(w.ball.position, Vector2::new(605_050, 298_766));
    assert_eq!(w.ball.velocity, Vector2::new(5050, -1234));
    assert_eq!(w.winner, Outcome::Undecided);
}

#[test]
fn paddle_hit_reverses_speeds_up_and_spins() {
    let mut w = world_with_ball(px(40, 330), px(-5, 0));
    PlayGame::update_world(&mut w, 2, 1);
    assert_eq!(w.ball.position, px(35, 330));
    assert_eq!(w.ball.velocity.x, 5000 + BALL_ACC);
    // Centre 20 px above the paddle's, a fifth of its height: 4 * -0.2 px.
    assert_eq!(w.ball.velocity.y, -800);
}

#[test]
fn right_paddle_hit_from_below_centre() {
    let mut w = world_with_ball(px(1060, 380), px(5, 0));
    PlayGame::update_world(&mut w, 2, 1);
    assert_eq!(w.ball.position, px(1065, 380));
    assert_eq!(w.ball.velocity.x, -5050);
    // Centre 30 px below the paddle's: 4 * 0.3 px.
    assert_eq!(w.ball.velocity.y, 1200);
}

#[test]
fn resting_ball_on_paddle_goes_left() {
    let mut w = world_with_ball(px(30, 350), px(0, 0));
    PlayGame::update_world(&mut w, 2, 1);
    assert_eq!(w.ball.velocity.x, -BALL_ACC);
    assert_eq!(w.ball.velocity.y, 0);
}

#[test]
fn top_wall_flips_vertical_velocity() {
    let mut w = world_with_ball(px(600, 2), px(5, -3));
    PlayGame::update_world(&mut w, 2, 1);
    assert_eq!(w.ball.position, px(605, -1));
    assert_eq!(w.ball.velocity, px(5, 3));
}

#[test]
fn bottom_wall_flips_vertical_velocity() {
    let mut w = world_with_ball(px(600, 695), px(5, 5));
    PlayGame::update_world(&mut w, 2, 1);
    assert_eq!(w.ball.position, px(605, 700));
    assert_eq!(w.ball.velocity, px(5, -5));
}

#[test]
fn ball_past_right_edge_player1_wins() {
    let mut w = world_with_ball(px(1199, 300), px(5, 0));
    PlayGame::update_world(&mut w, 2, 1);
    assert_eq!(w.winner, Outcome::Player1);
    assert_eq!(w.winner.code(), 0);
}

#[test]
fn winner_stays_while_ball_inside() {
    let mut w = world_with_ball(px(600, 300), px(5, 0));
    w.winner = Outcome::Player2;
    PlayGame::update_world(&mut w, 2, 1);
    assert_eq!(w.winner, Outcome::Player2);
}

#[test]
fn outcome_codes() {
    assert_eq!(Outcome::Player1.code(), 0);
    assert_eq!(Outcome::Player2.code(), 1);
    assert_eq!(Outcome::Undecided.code(), 2);
}

#[test]
fn initial_world_layout() {
    let w = World::initial(px(1200, 720), px(20, 100), px(30, 80), px(20, 20), -5000);
    assert_eq!(w.player1.position, px(16, 310));
    assert_eq!(w.player2.position, px(1104, 320));
    assert_eq!(w.ball.position, px(590, 350));
    assert_eq!(w.ball.velocity, px(-5, 0));
    assert_eq!(w.world_size, px(1200, 720));
    assert_eq!(w.winner, Outcome::Undecided);
    assert!(w.is_within_limits());
}

#[test]
fn launch_speed_follows_count_and_coin() {
    assert_eq!(launch_speed(0, 1), 0);
    assert_eq!(launch_speed(1, 0), 0);
    assert_eq!(launch_speed(2, 0), -5000);
    assert_eq!(launch_speed(2, 1), 5000);
    assert_eq!(launch_speed(7, 1), 5000);
}

#[test]
fn halve_rounds_toward_zero() {
    assert_eq!(halve(7), 3);
    assert_eq!(halve(-7), -3);
    assert_eq!(halve(-8), -4);
    assert_eq!(halve(0), 0);
}

#[test]
fn rectangles_touching_do_not_intersect() {
    let a = Rectangle::new(0, 0, 10, 10);
    assert!(a.intersects(&Rectangle::new(9, 9, 10, 10)));
    assert!(!a.intersects(&Rectangle::new(10, 0, 10, 10)));
    assert!(!a.intersects(&Rectangle::new(0, 10, 10, 10)));
}

#[test]
fn entity_accessors() {
    let e = Entity::with_velocity(px(20, 100), px(16, 310), px(1, 2));
    assert_eq!(e.width(), 20_000);
    assert_eq!(e.height(), 100_000);
    assert_eq!(e.double_centre(), Vector2::new(52_000, 720_000));
    assert_eq!(e.bounds(), Rectangle::new(16_000, 310_000, 20_000, 100_000));
    assert_eq!(Entity::new(px(1, 1), px(2, 2)).velocity, Vector2::zero());
}
