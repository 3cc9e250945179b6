use rand::{Rng, SeedableRng};
use rock_paper_scissors::choice::{Choice, Player};
use rock_paper_scissors::game::{MatchState, Progress};
use rock_paper_scissors::opponent::{
    play_a_round, play_and_record, Computer, Friend, GameHandler, Online,
};

fn tally(counts: &mut [u32; 3], choice: Choice) {
    match choice {
        Choice::Rock => counts[0] += 1,
        Choice::Paper => counts[1] += 1,
        Choice::Scissors => counts[2] += 1,
    }
}

fn near_a_third(count: u32, total: u32) -> bool {
    let share = f64::from(count) / f64::from(total);
    (share - 1.0 / 3.0).abs() < 0.03
}

#[test]
fn handlers_start_with_the_first_player() {
    assert_eq!(Computer::default().turn, Player::First);
    assert_eq!(Friend::default().turn, Player::First);
    assert_eq!(Online::default().turn, Player::First);
}

#[test]
fn the_stand_ins_always_show_rock() {
    for _ in 0..50 {
        assert_eq!(Friend::get_second_players_turn(), Choice::Rock);
        assert_eq!(Online::get_second_players_turn(), Choice::Rock);
    }
}

#[test]
fn a_round_against_a_stand_in() {
    assert_eq!(play_a_round::<Friend>(Choice::Paper), Player::First);
    assert_eq!(play_a_round::<Friend>(Choice::Scissors), Player::Opponent);
    assert_eq!(play_a_round::<Friend>(Choice::Rock), Player::Tie);
    assert_eq!(play_a_round::<Online>(Choice::Paper), Player::First);
    assert_eq!(play_a_round::<Online>(Choice::Scissors), Player::Opponent);
    assert_eq!(play_a_round::<Online>(Choice::Rock), Player::Tie);
}

#[test]
fn a_match_against_a_stand_in() {
    let mut state = MatchState::race(2);
    assert_eq!(
        play_and_record::<Friend>(&mut state, Choice::Rock),
        (Player::Tie, Progress::Continue)
    );
    assert_eq!(
        play_and_record::<Friend>(&mut state, Choice::Paper),
        (Player::First, Progress::Continue)
    );
    assert_eq!(
        play_and_record::<Friend>(&mut state, Choice::Scissors),
        (Player::Opponent, Progress::Continue)
    );
    assert_eq!(
        play_and_record::<Friend>(&mut state, Choice::Paper),
        (Player::First, Progress::MatchOver(Player::First))
    );
    assert_eq!(state, MatchState { score1: 2, score2: 1, goal: 2 });
}

#[test]
fn a_match_against_the_computer_keeps_the_score() {
    let mut state = MatchState::race(3);
    let mut rounds = 0;
    while !state.is_over() {
        let before = state;
        let (outcome, next) = play_and_record::<Computer>(&mut state, Choice::Paper);
        let mut expected = before;
        match outcome {
            Player::First => expected.score1 += 1,
            Player::Opponent => expected.score2 += 1,
            Player::Tie => {}
        }
        assert_eq!(state, expected);
        assert_eq!(next == Progress::Continue, !state.is_over());
        rounds += 1;
        assert!(rounds < 100000);
    }
    assert!(state.score1 == 3 || state.score2 == 3);
}

#[test]
fn the_computer_shows_each_move_a_third_of_the_time() {
    let total = 10000;
    let mut counts = [0u32; 3];
    for _ in 0..total {
        tally(&mut counts, Computer::get_second_players_turn());
    }
    assert_eq!(counts[0] + counts[1] + counts[2], total);
    for count in counts.iter() {
        assert!(near_a_third(*count, total));
    }
}

#[test]
fn seeded_draws_map_to_each_move_a_third_of_the_time() {
    let total = 10000;
    let mut rng = rand::rngs::StdRng::seed_from_u64(2024);
    let mut counts = [0u32; 3];
    for _ in 0..total {
        let n: i32 = rng.gen_range(0, 3);
        tally(&mut counts, Choice::from_index(n));
    }
    assert_eq!(counts[0] + counts[1] + counts[2], total);
    for count in counts.iter() {
        assert!(near_a_third(*count, total));
    }
}
