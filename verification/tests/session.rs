use chess_engine::session::{
    check_user_name, color_for_toss, get_random_color, is_full, join_response, movement_notice,
    INITIAL_MS_PER_PLAYER,
};
use chess_engine::{
    JoinedGameResponses, MovementError, MovementNotice, MovementSuccess, PieceColors,
    PlayerClock, PlayerTimeChanged, RegisterErrors,
};

#[test]
fn clock_keeps_the_difference_while_time_is_left() {
    let mut clock = PlayerClock::new(INITIAL_MS_PER_PLAYER);
    assert_eq!(clock.ms_remaining, 600_000);
    assert_eq!(clock.reduce_time_by(1_500), PlayerTimeChanged::TimeRemaining);
    assert_eq!(clock.ms_remaining, 598_500);
    assert_eq!(clock.reduce_time_by(0), PlayerTimeChanged::TimeRemaining);
    assert_eq!(clock.ms_remaining, 598_500);
}

#[test]
fn clock_stops_at_zero() {
    let mut clock = PlayerClock::new(1_000);
    assert_eq!(clock.reduce_time_by(1_000), PlayerTimeChanged::LastMove);
    assert_eq!(clock.ms_remaining, 0);
    let mut clock = PlayerClock::new(1_000);
    assert_eq!(clock.reduce_time_by(1_001), PlayerTimeChanged::InsufficientTime);
    assert_eq!(clock.ms_remaining, 0);
    let mut clock = PlayerClock::new(0);
    assert_eq!(clock.reduce_time_by(0), PlayerTimeChanged::LastMove);
    let mut clock = PlayerClock::new(5);
    assert_eq!(clock.reduce_time_by(u128::MAX), PlayerTimeChanged::InsufficientTime);
    assert_eq!(clock.ms_remaining, 0);
}

#[test]
fn empty_user_name_is_refused() {
    assert_eq!(check_user_name(""), Err(RegisterErrors::NameIsEmpty));
    assert_eq!(check_user_name("ada"), Ok(()));
    assert_eq!(check_user_name(" "), Ok(()));
    assert_eq!(RegisterErrors::NameIsEmpty.message(), "The user name is empty!");
}

#[test]
fn game_is_full_with_two_players() {
    assert!(!is_full(0));
    assert!(!is_full(1));
    assert!(is_full(2));
    assert!(is_full(3));
    assert_eq!(join_response(None), JoinedGameResponses::GameNotFound);
    assert_eq!(join_response(Some(1)), JoinedGameResponses::JoinedGame);
    assert_eq!(join_response(Some(2)), JoinedGameResponses::GameFull);
}

#[test]
fn coin_picks_the_side() {
    assert_eq!(color_for_toss(true), PieceColors::Black);
    assert_eq!(color_for_toss(false), PieceColors::White);
    assert_eq!(color_for_toss(true).opponent(), PieceColors::White);
    let mut rng = rand::thread_rng();
    let mut seen = Vec::new();
    for _ in 0..200 {
        let color = get_random_color(&mut rng);
        assert!(color == PieceColors::Black || color == PieceColors::White);
        if !seen.contains(&color) {
            seen.push(color);
        }
    }
    assert_eq!(seen.len(), 2);
    assert_eq!(PieceColors::White.opponent(), PieceColors::Black);
    assert_eq!(PieceColors::White.name(), "White");
    assert_eq!(PieceColors::Black.name(), "Black");
}

#[test]
fn players_are_told_what_the_move_did() {
    let ok = |outcome| Ok::<MovementSuccess, MovementError>(outcome);
    let left = PlayerTimeChanged::TimeRemaining;
    assert_eq!(
        movement_notice(ok(MovementSuccess::NormalMovement), left, true),
        MovementNotice::BoardUpdated
    );
    assert_eq!(
        movement_notice(ok(MovementSuccess::NormalMovement), PlayerTimeChanged::LastMove, false),
        MovementNotice::BoardUpdated
    );
    assert_eq!(
        movement_notice(ok(MovementSuccess::CheckmateMovement), left, true),
        MovementNotice::WonByCheckmate
    );
    assert_eq!(
        movement_notice(ok(MovementSuccess::CheckmateMovement), left, false),
        MovementNotice::LostByCheckmate
    );
    assert_eq!(
        movement_notice(ok(MovementSuccess::StalemateMovement), left, true),
        MovementNotice::DrawByStalemate
    );
    assert_eq!(
        movement_notice(
            ok(MovementSuccess::CheckmateMovement),
            PlayerTimeChanged::InsufficientTime,
            true
        ),
        MovementNotice::LostOnTime
    );
    assert_eq!(
        movement_notice(
            ok(MovementSuccess::NormalMovement),
            PlayerTimeChanged::InsufficientTime,
            false
        ),
        MovementNotice::OpponentLostOnTime
    );
    assert_eq!(
        movement_notice(Err(MovementError::MoveDoesNotResolveCheck), left, true),
        MovementNotice::MovementRefused(MovementError::MoveDoesNotResolveCheck)
    );
    assert_eq!(
        movement_notice(Err(MovementError::NoPieceAtOrigin), left, false),
        MovementNotice::Nothing
    );
}

#[test]
fn movement_errors_have_messages() {
    assert_eq!(
        MovementError::DestinationDoesNotFollowMovementPattern.message(),
        "The destination positions doesn't follow the movement pattern."
    );
    assert_eq!(
        MovementError::MoveDoesNotResolveCheck.message(),
        "The king of this piece is in check!"
    );
    assert_eq!(
        MovementError::MoveWouldCauseSelfCheck.message(),
        "The movement of this piece would cause a check to the king."
    );
}
