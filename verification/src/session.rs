use crate::move_rules::{MovementError, MovementSuccess};
use crate::piece_colors::PieceColors;
use rand::rngs::ThreadRng;
use rand::Rng;
use vstd::prelude::*;

verus! {

/// The time each player has for a game, in milliseconds: ten minutes.
pub const INITIAL_MS_PER_PLAYER: u128 = 600000;

/// The number of players at which a game is full.
pub const SEATS_PER_GAME: usize = 2;

/// What a move did to the clock of the player who made it.
#[derive(Debug, Clone, Copy, PartialEq, Eq, Structural)]
pub enum PlayerTimeChanged {
    /// The move took longer than the time that was left.
    InsufficientTime,
    /// The move took exactly the time that was left.
    LastMove,
    /// Time is left after the move.
    TimeRemaining,
}

/// The clock of a player: the time left, in milliseconds.
#[derive(Debug, Clone, Copy, PartialEq, Eq, Structural)]
pub struct PlayerClock {
    pub ms_remaining: u128,
}

impl PlayerClock {
    /// A clock with the given time left.
    pub fn new(ms_remaining: u128) -> (clock: PlayerClock)
        ensures
            clock.ms_remaining == ms_remaining,
    {
        PlayerClock { ms_remaining }
    }

    /// Takes the time of a move off the clock. Where more time is left than
    /// the move took, the difference stays on the clock; otherwise the clock
    /// stops at zero, and the result tells a move that used the time up
    /// exactly from one that overran it.
    pub fn reduce_time_by(&mut self, delta_ms: u128) -> (change: PlayerTimeChanged)
        ensures
            old(self).ms_remaining > delta_ms ==> change == PlayerTimeChanged::TimeRemaining
                && final(self).ms_remaining == old(self).ms_remaining - delta_ms,
            old(self).ms_remaining == delta_ms ==> change == PlayerTimeChanged::LastMove
                && final(self).ms_remaining == 0,
            old(self).ms_remaining < delta_ms ==> change == PlayerTimeChanged::InsufficientTime
                && final(self).ms_remaining == 0,
    {
        if self.ms_remaining > delta_ms {
            self.ms_remaining = self.ms_remaining - delta_ms;
            PlayerTimeChanged::TimeRemaining
        } else if self.ms_remaining == delta_ms {
            self.ms_remaining = 0;
            PlayerTimeChanged::LastMove
        } else {
            self.ms_remaining = 0;
            PlayerTimeChanged::InsufficientTime
        }
    }
}

/// Why a user could not be registered.
#[derive(Debug, Clone, Copy, PartialEq, Eq, Structural)]
pub enum RegisterErrors {
    /// The name given is empty.
    NameIsEmpty,
    /// The register of users could not be locked.
    LockPoisoned,
}

impl RegisterErrors {
    /// A sentence describing the error.
    pub fn message(&self) -> (text: &'static str)
        ensures
            text@ == (match *self {
                RegisterErrors::NameIsEmpty => "The user name is empty!"@,
                RegisterErrors::LockPoisoned =>
                    "Intenal server error: The users lock has been poisoned."@,
            }),
    {
        match self {
            RegisterErrors::NameIsEmpty => "The user name is empty!",
            RegisterErrors::LockPoisoned =>
                "Intenal server error: The users lock has been poisoned.",
        }
    }
}

/// Accepts a user name unless it is empty.
pub fn check_user_name(name: &str) -> (checked: Result<(), RegisterErrors>)
    ensures
        checked == if name@.len() == 0 {
            Err::<(), _>(RegisterErrors::NameIsEmpty)
        } else {
            Ok::<_, RegisterErrors>(())
        },
{
    if name.unicode_len() == 0 {
        Err(RegisterErrors::NameIsEmpty)
    } else {
        Ok(())
    }
}

/// The answer to a player who asks to join a game.
#[derive(Debug, Clone, Copy, PartialEq, Eq, Structural)]
pub enum JoinedGameResponses {
    /// The player has joined the game.
    JoinedGame,
    /// The game has its two players already.
    GameFull,
    /// There is no such game.
    GameNotFound,
}

/// Whether a game with the given number of players is full.
pub fn is_full(players: usize) -> (full: bool)
    ensures
        full == (players >= SEATS_PER_GAME),
{
    players >= SEATS_PER_GAME
}

/// Answers a player who asks to join a game, given the number of players in
/// the game if there is such a game.
pub fn join_response(players: Option<usize>) -> (answer: JoinedGameResponses)
    ensures
        answer == (match players {
            None => JoinedGameResponses::GameNotFound,
            Some(count) => if count >= SEATS_PER_GAME {
                JoinedGameResponses::GameFull
            } else {
                JoinedGameResponses::JoinedGame
            },
        }),
{
    match players {
        None => JoinedGameResponses::GameNotFound,
        Some(count) => if is_full(count) {
            JoinedGameResponses::GameFull
        } else {
            JoinedGameResponses::JoinedGame
        },
    }
}

/// The random number generator of the current thread, as the `rand` crate
/// gives it. Nothing is known of what it holds.
#[verifier::external_type_specification]
#[verifier::external_body]
pub struct ExThreadRng(rand::rngs::ThreadRng);

/// Draws a boolean from the generator with `rand::Rng::gen`. The value is
/// random: nothing is claimed of it.
#[verifier::external_body]
fn toss(rng: &mut ThreadRng) -> (side: bool) {
    rng.gen()
}

/// The side a player gets for a toss of a coin.
pub fn color_for_toss(toss: bool) -> (color: PieceColors)
    ensures
        color == if toss {
            PieceColors::Black
        } else {
            PieceColors::White
        },
{
    if toss {
        PieceColors::Black
    } else {
        PieceColors::White
    }
}

/// Picks a side at random: one boolean is drawn from the generator, and the
/// side is the one `color_for_toss` gives for it.
pub fn get_random_color(rng: &mut ThreadRng) -> (color: PieceColors) {
    color_for_toss(toss(rng))
}

/// What a player of a game is told after one of them has asked for a move.
#[derive(Debug, Clone, Copy, PartialEq, Eq, Structural)]
pub enum MovementNotice {
    /// Nothing is sent to this player.
    Nothing,
    /// The move was refused for the given reason.
    MovementRefused(MovementError),
    /// The move was made: here is the game.
    BoardUpdated,
    /// The game is over: you have lost on time.
    LostOnTime,
    /// The game is over: your opponent has lost on time.
    OpponentLostOnTime,
    /// The game is over: you have checkmated your opponent.
    WonByCheckmate,
    /// The game is over: you are checkmated.
    LostByCheckmate,
    /// The game is over: it is a draw by stalemate.
    DrawByStalemate,
}

/// What to tell a player after a move was asked for. A refused move is
/// reported to the player who asked for it and to nobody else. A move that
/// was made but overran its player's clock loses the game on time. Any other
/// move that was made is reported by its outcome.
pub open spec fn spec_movement_notice(
    result: Result<MovementSuccess, MovementError>,
    time: PlayerTimeChanged,
    to_mover: bool,
) -> MovementNotice {
    match result {
        Err(reason) => if to_mover {
            MovementNotice::MovementRefused(reason)
        } else {
            MovementNotice::Nothing
        },
        Ok(outcome) => if time == PlayerTimeChanged::InsufficientTime {
            if to_mover {
                MovementNotice::LostOnTime
            } else {
                MovementNotice::OpponentLostOnTime
            }
        } else {
            match outcome {
                MovementSuccess::NormalMovement => MovementNotice::BoardUpdated,
                MovementSuccess::CheckmateMovement => if to_mover {
                    MovementNotice::WonByCheckmate
                } else {
                    MovementNotice::LostByCheckmate
                },
                MovementSuccess::StalemateMovement => MovementNotice::DrawByStalemate,
            }
        },
    }
}

/// Decides what to tell a player after a move was asked for: `to_mover`
/// says whether the player is the one who asked.
pub fn movement_notice(
    result: Result<MovementSuccess, MovementError>,
    time: PlayerTimeChanged,
    to_mover: bool,
) -> (notice: MovementNotice)
    ensures
        notice == spec_movement_notice(result, time, to_mover),
{
    match result {
        Err(reason) => if to_mover {
            MovementNotice::MovementRefused(reason)
        } else {
            MovementNotice::Nothing
        },
        Ok(outcome) => match time {
            PlayerTimeChanged::InsufficientTime => if to_mover {
                MovementNotice::LostOnTime
            } else {
                MovementNotice::OpponentLostOnTime
            },
            _ => match outcome {
                MovementSuccess::NormalMovement => MovementNotice::BoardUpdated,
                MovementSuccess::CheckmateMovement => if to_mover {
                    MovementNotice::WonByCheckmate
                } else {
                    MovementNotice::LostByCheckmate
                },
                MovementSuccess::StalemateMovement => MovementNotice::DrawByStalemate,
            },
        },
    }
}

} // verus!
