use pong::geometry::Vector2;
use pong::service::{JoinError, JoinRequest, PlayGame, TickError, TickRequest};
use pong::world::Outcome;

fn px(x: i64, y: i64) -> Vector2 {
    Vector2::new(x * 1000, y * 1000)
}

fn standard_join() -> JoinRequest {
    JoinRequest {
        window_size: Some(px(1200, 720)),
        player1_sprite_size: Some(px(20, 100)),
        player2_sprite_size: Some(px(20, 100)),
        ball_sprite_size: Some(px(20, 20)),
    }
}

fn two_player_game() -> PlayGame {
    let mut game = PlayGame::new();
    game.play_request(standard_join()).unwrap();
    game.play_request(standard_join()).unwrap();
    game
}

#[test]
fn first_join_places_paddle_and_rests_ball() {
    let mut game = PlayGame::new();
    let r = game.play_request(standard_join()).unwrap();
    assert_eq!(r.total_players, 1);
    assert_eq!(r.assigned_player_number, 1);
    assert_eq!(r.player1_position, px(16, 310));
    assert_eq!(r.ball.velocity, px(0, 0));
    assert_eq!(r.ball.position, px(590, 350));
}

#[test]
fn second_join_launches_ball() {
    let mut game = PlayGame::new();
    game.play_request(standard_join()).unwrap();
    let r = game.play_request(standard_join()).unwrap();
    assert_eq!(r.total_players, 2);
    assert_eq!(r.assigned_player_number, 2);
    // The right paddle keeps the margin plus its own height from the edge.
    assert_eq!(r.player2_position, px(1084, 310));
    assert_eq!(r.ball.position, px(590, 350));
    assert!(r.ball.velocity.x == -5000 || r.ball.velocity.x == 5000);
    assert_eq!(r.ball.velocity.y, 0);
}

#[test]
fn third_join_counts_but_keeps_world() {
    let mut game = two_player_game();
    let before = game.world;
    let r = game.play_request(JoinRequest {
        window_size: Some(px(800, 600)),
        ..standard_join()
    })
    .unwrap();
    assert_eq!(r.total_players, 3);
    assert_eq!(r.assigned_player_number, 3);
    assert_eq!(game.world, before);
}

#[test]
fn join_counts_one_per_call() {
    let mut game = PlayGame::new();
    for n in 1..=5u32 {
        let r = game.play_request(standard_join()).unwrap();
        assert_eq!(r.total_players, n);
        assert_eq!(game.players_count, n);
    }
}

#[test]
fn join_without_a_size_fails_and_changes_nothing() {
    let mut game = PlayGame::new();
    let r = game.play_request(JoinRequest { ball_sprite_size: None, ..standard_join() });
    assert_eq!(r, Err(JoinError::MissingField));
    assert_eq!(game.players_count, 0);
    assert!(game.world.is_none());
}

#[test]
fn join_with_huge_size_fails() {
    let mut game = PlayGame::new();
    let r = game.play_request(JoinRequest {
        window_size: Some(Vector2::new(i64::MAX, 720_000)),
        ..standard_join()
    });
    assert_eq!(r, Err(JoinError::SizeOutOfRange));
    assert_eq!(game.players_count, 0);
}

#[test]
fn join_at_counter_limit_fails() {
    let mut game = two_player_game();
    game.players_count = u32::MAX;
    let r = game.play_request(standard_join());
    assert_eq!(r, Err(JoinError::TooManyPlayers));
    assert_eq!(game.players_count, u32::MAX);
}

#[test]
fn tick_before_join_fails() {
    let mut game = PlayGame::new();
    let r = game.world_update_request(TickRequest { player_number: 1, button: 0 });
    assert_eq!(r, Err(TickError::NoWorld));
}

#[test]
fn tick_with_one_player_changes_nothing() {
    let mut game = PlayGame::new();
    game.play_request(standard_join()).unwrap();
    let before = game.world;
    for button in 0..3u32 {
        for player in 0..4u32 {
            let r = game
                .world_update_request(TickRequest { player_number: player, button })
                .unwrap();
            assert_eq!(r.total_players, 1);
            assert_eq!(r.player1_position, px(16, 310));
            assert_eq!(r.winner, 2);
        }
    }
    assert_eq!(game.world, before);
}

#[test]
fn tick_ball_left_of_field_player2_wins() {
    let mut game = two_player_game();
    let mut world = game.world.unwrap();
    world.ball.position = px(-1, 100);
    world.ball.velocity = px(-5, 0);
    game.world = Some(world);
    for button in 0..3u32 {
        let r = game.world_update_request(TickRequest { player_number: 2, button }).unwrap();
        assert_eq!(r.winner, 1);
    }
    assert_eq!(game.world.unwrap().winner, Outcome::Player2);
}

#[test]
fn tick_moves_paddle_and_ball() {
    let mut game = two_player_game();
    let start = game.world.unwrap();
    let r = game.world_update_request(TickRequest { player_number: 1, button: 0 }).unwrap();
    assert_eq!(r.player1_position, px(16, 302));
    assert_eq!(r.player2_position, start.player2.position);
    assert_eq!(r.ball.position.x, start.ball.position.x + start.ball.velocity.x);
    assert_eq!(r.total_players, 2);
    assert_eq!(r.winner, 2);
    assert_eq!(game.world.unwrap().player1.position, px(16, 302));
}

#[test]
fn tick_on_world_out_of_range_fails() {
    let mut game = two_player_game();
    let mut world = game.world.unwrap();
    world.ball.position = Vector2::new(i64::MAX, 0);
    game.world = Some(world);
    let r = game.world_update_request(TickRequest { player_number: 1, button: 2 });
    assert_eq!(r, Err(TickError::WorldOutOfRange));
    assert_eq!(game.world, Some(world));
}

#[test]
fn init_then_apply_new_world() {
    let mut game = PlayGame::new();
    game.init(px(1200, 720), px(20, 100), px(20, 100), px(20, 20));
    assert_eq!(game.players_count, 0);
    let mut world = game.world.unwrap();
    assert_eq!(world.ball.velocity, px(0, 0));
    world.winner = Outcome::Player1;
    game.apply_new_world(&world);
    assert_eq!(game.world, Some(world));
    game.increase_players_count();
    assert_eq!(game.players_count, 1);
}
