use rock_paper_scissors::choice::Player;
use rock_paper_scissors::game::{parse_goal, InvalidNumberError, MatchState, Progress};

#[test]
fn race_to_three_ends_with_the_first_player() {
    let mut state = MatchState::race(3);
    let rounds = [Player::First, Player::First, Player::Tie, Player::First];
    let next = state.record_all(&rounds);
    assert_eq!(state.score1, 3);
    assert_eq!(state.score2, 0);
    assert_eq!(state.goal, 3);
    assert!(state.is_over());
    assert_eq!(state.winner(), Some(Player::First));
    assert_eq!(next, Progress::MatchOver(Player::First));
}

#[test]
fn race_round_by_round() {
    let mut state = MatchState::race(3);
    assert_eq!(state, MatchState { score1: 0, score2: 0, goal: 3 });
    assert!(!state.is_over());
    assert_eq!(state.winner(), None);
    assert_eq!(state.record(Player::First), Progress::Continue);
    assert_eq!(state.record(Player::First), Progress::Continue);
    assert_eq!(state.record(Player::Tie), Progress::Continue);
    assert_eq!((state.score1, state.score2), (2, 0));
    assert_eq!(state.record(Player::First), Progress::MatchOver(Player::First));
    assert_eq!((state.score1, state.score2), (3, 0));
}

#[test]
fn the_opponent_scores_one_point_a_round() {
    let mut state = MatchState::race(2);
    assert_eq!(state.record(Player::Opponent), Progress::Continue);
    assert_eq!((state.score1, state.score2), (0, 1));
    assert_eq!(state.record(Player::First), Progress::Continue);
    assert_eq!(state.record(Player::Opponent), Progress::MatchOver(Player::Opponent));
    assert_eq!((state.score1, state.score2), (1, 2));
    assert_eq!(state.winner(), Some(Player::Opponent));
}

#[test]
fn a_tie_scores_nothing() {
    let mut state = MatchState { score1: 1, score2: 2, goal: 5 };
    assert_eq!(state.record(Player::Tie), Progress::Continue);
    assert_eq!(state, MatchState { score1: 1, score2: 2, goal: 5 });
}

#[test]
fn a_finished_match_stays_as_it_ended() {
    let mut state = MatchState::race(1);
    assert_eq!(state.record(Player::Opponent), Progress::MatchOver(Player::Opponent));
    let ended = state;
    assert_eq!(state.record(Player::First), Progress::MatchOver(Player::Opponent));
    assert_eq!(state.record(Player::Opponent), Progress::MatchOver(Player::Opponent));
    assert_eq!(state, ended);
}

#[test]
fn rounds_after_the_end_count_for_nothing() {
    let mut state = MatchState::race(2);
    let rounds = [Player::First, Player::First, Player::Opponent, Player::Opponent];
    assert_eq!(state.record_all(&rounds), Progress::MatchOver(Player::First));
    assert_eq!((state.score1, state.score2), (2, 0));
}

#[test]
fn no_rounds_change_nothing() {
    let mut state = MatchState::race(4);
    assert_eq!(state.record_all(&[]), Progress::Continue);
    assert_eq!(state, MatchState { score1: 0, score2: 0, goal: 4 });
}

#[test]
fn scores_never_fall() {
    let mut state = MatchState::race(3);
    let rounds = [
        Player::Tie,
        Player::Opponent,
        Player::First,
        Player::Tie,
        Player::Opponent,
        Player::First,
        Player::First,
        Player::Opponent,
    ];
    let mut before = state;
    for outcome in rounds.iter() {
        state.record(*outcome);
        assert!(state.score1 >= before.score1);
        assert!(state.score2 >= before.score2);
        assert!(state.score1 + state.score2 <= before.score1 + before.score2 + 1);
        assert!(state.score1 <= state.goal && state.score2 <= state.goal);
        assert_eq!(state.goal, 3);
        before = state;
    }
    assert_eq!((state.score1, state.score2), (3, 2));
    assert_eq!(state.winner(), Some(Player::First));
}

#[test]
fn best_of_needs_more_than_half() {
    assert_eq!(MatchState::best_of(1).goal, 1);
    assert_eq!(MatchState::best_of(2).goal, 2);
    assert_eq!(MatchState::best_of(3).goal, 2);
    assert_eq!(MatchState::best_of(4).goal, 3);
    assert_eq!(MatchState::best_of(5).goal, 3);
    assert_eq!(MatchState::best_of(u32::MAX).goal, 2147483648);
}

#[test]
fn best_of_three_ends_after_two_wins() {
    let mut state = MatchState::best_of(3);
    assert_eq!(state.record(Player::Opponent), Progress::Continue);
    assert_eq!(state.record(Player::First), Progress::Continue);
    assert_eq!(state.record(Player::Opponent), Progress::MatchOver(Player::Opponent));
    assert_eq!((state.score1, state.score2), (1, 2));
}

#[test]
fn goal_accepts_positive_numbers() {
    assert_eq!(parse_goal("3"), Ok(3));
    assert_eq!(parse_goal(" 10 \n"), Ok(10));
    assert_eq!(parse_goal("+5"), Ok(5));
    assert_eq!(parse_goal("007"), Ok(7));
    assert_eq!(parse_goal("4294967295"), Ok(4294967295));
}

#[test]
fn goal_rejects_zero() {
    assert_eq!(parse_goal("0"), Err(InvalidNumberError::NotPositive));
    assert_eq!(parse_goal("+0"), Err(InvalidNumberError::NotPositive));
    assert_eq!(parse_goal(" 000 "), Err(InvalidNumberError::NotPositive));
}

#[test]
fn goal_rejects_negative_numbers() {
    assert_eq!(parse_goal("-1"), Err(InvalidNumberError::NotANumber));
    assert_eq!(parse_goal("-0"), Err(InvalidNumberError::NotANumber));
    assert_eq!(parse_goal(" -25"), Err(InvalidNumberError::NotANumber));
}

#[test]
fn goal_rejects_what_is_no_number() {
    assert_eq!(parse_goal(""), Err(InvalidNumberError::NotANumber));
    assert_eq!(parse_goal("   "), Err(InvalidNumberError::NotANumber));
    assert_eq!(parse_goal("+"), Err(InvalidNumberError::NotANumber));
    assert_eq!(parse_goal("++1"), Err(InvalidNumberError::NotANumber));
    assert_eq!(parse_goal("three"), Err(InvalidNumberError::NotANumber));
    assert_eq!(parse_goal("1 2"), Err(InvalidNumberError::NotANumber));
    assert_eq!(parse_goal("1_000"), Err(InvalidNumberError::NotANumber));
    assert_eq!(parse_goal("3.0"), Err(InvalidNumberError::NotANumber));
    assert_eq!(parse_goal("\u{663}"), Err(InvalidNumberError::NotANumber));
    assert_eq!(parse_goal("4294967296"), Err(InvalidNumberError::NotANumber));
}
