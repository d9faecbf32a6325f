use vstd::prelude::*;
use crate::geometry::Vector2;
use crate::physics::spec_step;
use crate::world::{World, INPUT_LIMIT, launch_speed, spec_launch_speed};

verus! {

/// A Join call: the joining client's window size and sprite sizes. A field
/// that the request lacks is `None`.
#[derive(Clone, Copy, Debug, PartialEq, Eq, Structural)]
pub struct JoinRequest {
    pub window_size: Option<Vector2>,
    pub player1_sprite_size: Option<Vector2>,
    pub player2_sprite_size: Option<Vector2>,
    pub ball_sprite_size: Option<Vector2>,
}

/// Where the ball is and where it is going.
#[derive(Clone, Copy, Debug, PartialEq, Eq, Structural)]
pub struct BallState {
    pub position: Vector2,
    pub velocity: Vector2,
}

#[derive(Clone, Copy, Debug, PartialEq, Eq, Structural)]
pub struct JoinResponse {
    pub player1_position: Vector2,
    pub player2_position: Vector2,
    pub ball: BallState,
    pub assigned_player_number: u32,
    pub total_players: u32,
}

/// A Tick call: who presses what. Button 0 is Up, 1 is Down, any other
/// value is no button.
#[derive(Clone, Copy, Debug, PartialEq, Eq, Structural)]
pub struct TickRequest {
    pub player_number: u32,
    pub button: u32,
}

#[derive(Clone, Copy, Debug, PartialEq, Eq, Structural)]
pub struct TickResponse {
    pub player1_position: Vector2,
    pub player2_position: Vector2,
    pub ball: BallState,
    pub total_players: u32,
    /// 0 when the first player has won, 1 for the second, 2 for no winner.
    pub winner: u32,
}

#[derive(Clone, Copy, Debug, PartialEq, Eq, Structural)]
pub enum JoinError {
    /// One of the four sizes is absent from the request.
    MissingField,
    /// A size is further than `INPUT_LIMIT` from zero.
    SizeOutOfRange,
    /// The player counter cannot count one more player.
    TooManyPlayers,
}

#[derive(Clone, Copy, Debug, PartialEq, Eq, Structural)]
pub enum TickError {
    /// No player has joined, so there is no world yet.
    NoWorld,
    /// The world has left the range the physics computes in.
    WorldOutOfRange,
}

/// The game service: the shared world and the count of joined players.
///
/// Each operation takes `&mut self`, so a host that shares the service
/// behind one lock runs every Join and every Tick as a whole, one at a time.
pub struct PlayGame {
    pub world: Option<World>,
    pub players_count: u32,
}

/// Relies on rand::thread_rng and rand::Rng::gen_range: a draw from `0..2`
/// lies in that range.
#[verifier::external_body]
fn coin_flip() -> (r: u32)
    ensures
        r < 2,
{
    rand::Rng::gen_range(&mut rand::thread_rng(), 0..2u32)
}

pub open spec fn spec_ball_state(w: World) -> BallState {
    BallState { position: w.ball.position, velocity: w.ball.velocity }
}

pub open spec fn spec_join_response(w: World, players: u32) -> JoinResponse {
    JoinResponse {
        player1_position: w.player1.position,
        player2_position: w.player2.position,
        ball: spec_ball_state(w),
        assigned_player_number: players,
        total_players: players,
    }
}

pub open spec fn spec_tick_response(w: World, players: u32) -> TickResponse {
    TickResponse {
        player1_position: w.player1.position,
        player2_position: w.player2.position,
        ball: spec_ball_state(w),
        total_players: players,
        winner: w.winner.spec_code(),
    }
}

/// The request's sizes, when all four are present.
pub open spec fn spec_sizes(req: JoinRequest) -> Option<(Vector2, Vector2, Vector2, Vector2)> {
    match (req.window_size, req.player1_sprite_size, req.player2_sprite_size, req.ball_sprite_size) {
        (Some(w), Some(p1), Some(p2), Some(b)) => Some((w, p1, p2, b)),
        _ => None,
    }
}

pub open spec fn sizes_in_range(s: (Vector2, Vector2, Vector2, Vector2)) -> bool {
    &&& s.0.within(INPUT_LIMIT as int)
    &&& s.1.within(INPUT_LIMIT as int)
    &&& s.2.within(INPUT_LIMIT as int)
    &&& s.3.within(INPUT_LIMIT as int)
}

/// The worlds a Join can set up from `s` when `players` have joined: the
/// ball rests until two have, then starts left or right.
pub open spec fn initial_choice(
    w: World,
    s: (Vector2, Vector2, Vector2, Vector2),
    players: u32,
) -> bool {
    ||| w == World::spec_initial(s.0, s.1, s.2, s.3, spec_launch_speed(players, 0))
    ||| w == World::spec_initial(s.0, s.1, s.2, s.3, spec_launch_speed(players, 1))
}

/// A Join sets up a fresh world while fewer than two players were in, or
/// while there is no world.
pub open spec fn join_resets(before: PlayGame) -> bool {
    before.players_count < 2 || before.world is None
}

/// A successful Join's effect on the player count.
pub open spec fn counts_one_more(before: PlayGame, after: PlayGame) -> bool {
    after.players_count == before.players_count + 1
}

/// A Join's effect on the player count, successful or not.
pub open spec fn join_counted(before: PlayGame, after: PlayGame, succeeded: bool) -> bool {
    if succeeded {
        counts_one_more(before, after)
    } else {
        after.players_count == before.players_count
    }
}

/// Along any run of Join calls the player count never falls, and when every
/// call succeeded it grows by exactly one per call.
pub proof fn lemma_joins_count_up(states: Seq<PlayGame>, succeeded: Seq<bool>)
    requires
        succeeded.len() + 1 == states.len(),
        forall|k: int|
            0 <= k < succeeded.len() ==> join_counted(
                #[trigger] states[k],
                states[k + 1],
                succeeded[k],
            ),
    ensures
        forall|i: int, j: int|
            0 <= i <= j < states.len() ==> #[trigger] states[i].players_count
                <= #[trigger] states[j].players_count,
        (forall|k: int| 0 <= k < succeeded.len() ==> #[trigger] succeeded[k]) ==> forall|i: int|
            0 <= i < states.len() ==> #[trigger] states[i].players_count == states[0].players_count
                + i,
    decreases states.len(),
{
    if states.len() > 1 {
        let n = states.len() - 1;
        lemma_joins_count_up(states.drop_last(), succeeded.drop_last());
        assert(join_counted(states[n - 1], states[n], succeeded[n - 1]));
        assert forall|i: int, j: int| 0 <= i <= j < states.len() implies #[trigger] states[i].players_count
            <= #[trigger] states[j].players_count by {
            if j == n && i < n {
                assert(states.drop_last()[i] == states[i]);
                assert(states.drop_last()[n - 1] == states[n - 1]);
            } else if j < n {
                assert(states.drop_last()[i] == states[i]);
                assert(states.drop_last()[j] == states[j]);
            }
        }
        if forall|k: int| 0 <= k < succeeded.len() ==> #[trigger] succeeded[k] {
            assert forall|k: int| 0 <= k < succeeded.drop_last().len() implies #[trigger] succeeded.drop_last()[k] by {
                assert(succeeded.drop_last()[k] == succeeded[k]);
            }
            assert forall|i: int| 0 <= i < states.len() implies #[trigger] states[i].players_count
                == states[0].players_count + i by {
                assert(states.drop_last()[0] == states[0]);
                if i < n {
                    assert(states.drop_last()[i] == states[i]);
                } else {
                    assert(states.drop_last()[n - 1] == states[n - 1]);
                    assert(succeeded[n - 1]);
                }
            }
        }
    }
}

fn ball_state(w: &World) -> (r: BallState)
    ensures
        r == spec_ball_state(*w),
{
    BallState { position: w.ball.position, velocity: w.ball.velocity }
}

fn tick_response(w: &World, players: u32) -> (r: TickResponse)
    ensures
        r == spec_tick_response(*w, players),
{
    TickResponse {
        player1_position: w.player1.position,
        player2_position: w.player2.position,
        ball: ball_state(w),
        total_players: players,
        winner: w.winner.code(),
    }
}

fn vector_in_input_range(v: Vector2) -> (r: bool)
    ensures
        r == v.within(INPUT_LIMIT as int),
{
    -INPUT_LIMIT <= v.x && v.x <= INPUT_LIMIT && -INPUT_LIMIT <= v.y && v.y <= INPUT_LIMIT
}

impl PlayGame {
    /// A service that nobody has joined.
    pub fn new() -> (r: PlayGame)
        ensures
            r.world is None,
            r.players_count == 0,
    {
        PlayGame { world: None, players_count: 0 }
    }

    /// Installs a fresh world for a window of `window_size` and the given
    /// sprite sizes, launching the ball when two players are in.
    pub fn init(
        &mut self,
        window_size: Vector2,
        player1_size: Vector2,
        player2_size: Vector2,
        ball_size: Vector2,
    )
        requires
            window_size.within(INPUT_LIMIT as int),
            player1_size.within(INPUT_LIMIT as int),
            player2_size.within(INPUT_LIMIT as int),
            ball_size.within(INPUT_LIMIT as int),
        ensures
            final(self).players_count == old(self).players_count,
            final(self).world is Some,
            initial_choice(
                final(self).world->Some_0,
                (window_size, player1_size, player2_size, ball_size),
                old(self).players_count,
            ),
    {
        let coin: u32 = if self.players_count < 2 { 0 } else { coin_flip() };
        let speed = launch_speed(self.players_count, coin);
        self.world = Some(World::initial(window_size, player1_size, player2_size, ball_size, speed));
    }

    /// Counts one more player.
    pub fn increase_players_count(&mut self)
        requires
            old(self).players_count < u32::MAX,
        ensures
            final(self).players_count == old(self).players_count + 1,
            final(self).world == old(self).world,
    {
        self.players_count = self.players_count + 1;
    }

    /// Replaces the stored world, whatever it held.
    pub fn apply_new_world(&mut self, new_world: &World)
        ensures
            final(self).world == Some(*new_world),
            final(self).players_count == old(self).players_count,
    {
        self.world = Some(*new_world);
    }

    /// Join: counts the caller in, gives it the new count as its player
    /// number, sets up a fresh world if fewer than two players were in
    /// before, and reports the world.
    pub fn play_request(&mut self, request: JoinRequest) -> (r: Result<JoinResponse, JoinError>)
        ensures
            spec_sizes(request) is None ==> r == Err::<JoinResponse, JoinError>(
                JoinError::MissingField,
            ),
            spec_sizes(request) is Some && !sizes_in_range(spec_sizes(request)->Some_0) ==> r
                == Err::<JoinResponse, JoinError>(JoinError::SizeOutOfRange),
            spec_sizes(request) is Some && sizes_in_range(spec_sizes(request)->Some_0)
                && old(self).players_count == u32::MAX ==> r == Err::<JoinResponse, JoinError>(
                JoinError::TooManyPlayers,
            ),
            r is Err ==> *final(self) == *old(self),
            r is Ok ==> {
                &&& counts_one_more(*old(self), *final(self))
                &&& final(self).world is Some
                &&& r->Ok_0 == spec_join_response(
                    final(self).world->Some_0,
                    final(self).players_count,
                )
                &&& join_resets(*old(self)) ==> initial_choice(
                    final(self).world->Some_0,
                    spec_sizes(request)->Some_0,
                    final(self).players_count,
                )
                &&& !join_resets(*old(self)) ==> final(self).world == old(self).world
            },
            spec_sizes(request) is Some && sizes_in_range(spec_sizes(request)->Some_0)
                && old(self).players_count < u32::MAX ==> r is Ok,
    {
        let (window_size, player1_size, player2_size, ball_size) = match (
            request.window_size,
            request.player1_sprite_size,
            request.player2_sprite_size,
            request.ball_sprite_size,
        ) {
            (Some(w), Some(p1), Some(p2), Some(b)) => (w, p1, p2, b),
            _ => {
                return Err(JoinError::MissingField);
            },
        };
        if !(vector_in_input_range(window_size) && vector_in_input_range(player1_size)
            && vector_in_input_range(player2_size) && vector_in_input_range(ball_size)) {
            return Err(JoinError::SizeOutOfRange);
        }
        if self.players_count == u32::MAX {
            return Err(JoinError::TooManyPlayers);
        }
        let resets = self.players_count < 2 || self.world.is_none();
        self.increase_players_count();
        if resets {
            self.init(window_size, player1_size, player2_size, ball_size);
        }
        match &self.world {
            Some(w) => {
                let players = self.players_count;
                Ok(
                    JoinResponse {
                        player1_position: w.player1.position,
                        player2_position: w.player2.position,
                        ball: ball_state(w),
                        assigned_player_number: players,
                        total_players: players,
                    },
                )
            },
            None => vstd::pervasive::unreached(),
        }
    }

    /// Tick: once two players are in, applies the caller's input and one
    /// step of physics to the world; reports the world either way.
    pub fn world_update_request(&mut self, request: TickRequest) -> (r: Result<
        TickResponse,
        TickError,
    >)
        ensures
            old(self).world is None ==> r == Err::<TickResponse, TickError>(TickError::NoWorld),
            old(self).world is Some && old(self).players_count >= 2
                && !old(self).world->Some_0.within_limits() ==> r == Err::<
                TickResponse,
                TickError,
            >(TickError::WorldOutOfRange),
            r is Err ==> *final(self) == *old(self),
            old(self).players_count < 2 ==> *final(self) == *old(self),
            old(self).world is Some && old(self).players_count < 2 ==> r == Ok::<
                TickResponse,
                TickError,
            >(spec_tick_response(old(self).world->Some_0, old(self).players_count)),
            old(self).world is Some && old(self).players_count >= 2
                && old(self).world->Some_0.within_limits() ==> {
                let next = spec_step(old(self).world->Some_0, request.button, request.player_number);
                &&& final(self).world == Some(next)
                &&& final(self).players_count == old(self).players_count
                &&& r == Ok::<TickResponse, TickError>(
                    spec_tick_response(next, old(self).players_count),
                )
            },
    {
        let mut world = match &self.world {
            Some(w) => *w,
            None => {
                return Err(TickError::NoWorld);
            },
        };
        let players = self.players_count;
        if players >= 2 {
            if !world.is_within_limits() {
                return Err(TickError::WorldOutOfRange);
            }
            PlayGame::update_world(&mut world, request.button, request.player_number);
            self.apply_new_world(&world);
        }
        Ok(tick_response(&world, players))
    }
}

} // verus!
