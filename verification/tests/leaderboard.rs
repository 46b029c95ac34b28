use ioio_game::game::Game;
use ioio_game::player::PlayerId;

/// One full pay-activate-submit round for a fresh session.
fn play(g: &mut Game, player: u64, score: u64, t: i64) {
    let idx = g.start_game_session(PlayerId(player), 1, t, 1_000).unwrap();
    g.activate_game(idx).unwrap();
    g.submit_score(idx, score, t + 1).unwrap();
}

#[test]
fn entries_sorted_descending_after_mixed_scores() {
    let mut g = Game::initialize(PlayerId(1));
    let scores: Vec<u64> = vec![5, 9, 1, 9, 3];
    for (k, s) in scores.iter().enumerate() {
        play(&mut g, 100 + k as u64, *s, 10 * (k as i64 + 1));
    }
    let got: Vec<u64> = g.leaderboard.entries.iter().map(|e| e.score).collect();
    assert_eq!(got, vec![9, 9, 5, 3, 1]);
    // Tie-break: among equal scores the earlier submission ranks first.
    assert_eq!(g.leaderboard.entries[0].player, PlayerId(101));
    assert_eq!(g.leaderboard.entries[1].player, PlayerId(103));
    assert_eq!(g.leaderboard.total_games, 5);
}

#[test]
fn eviction_keeps_the_hundred_best() {
    let mut g = Game::initialize(PlayerId(1));
    for k in 1..=101u64 {
        play(&mut g, k, k, k as i64);
    }
    assert_eq!(g.leaderboard.entries.len(), 100);
    assert_eq!(g.leaderboard.total_games, 101);
    // Scores 101 down to 2 survive; the lowest score, 1, was evicted.
    for (i, e) in g.leaderboard.entries.iter().enumerate() {
        assert_eq!(e.score, 101 - i as u64);
    }
    assert!(g.leaderboard.entries.iter().all(|e| e.score != 1));
}

#[test]
fn counter_outlives_evicted_entries() {
    let mut g = Game::initialize(PlayerId(1));
    for k in 1..=150u64 {
        play(&mut g, k, k, k as i64);
    }
    assert_eq!(g.leaderboard.entries.len(), 100);
    assert_eq!(g.leaderboard.total_games, 150);
    assert_eq!(g.leaderboard.entries[0].score, 150);
    assert_eq!(g.leaderboard.entries[99].score, 51);
}

#[test]
fn newcomer_equal_to_the_floor_is_evicted() {
    let mut g = Game::initialize(PlayerId(1));
    for k in 1..=100u64 {
        play(&mut g, k, 5, k as i64);
    }
    assert_eq!(g.leaderboard.entries.len(), 100);
    // The new equal score sorts after the hundred older ones and is dropped.
    play(&mut g, 200, 5, 10_000);
    assert_eq!(g.leaderboard.entries.len(), 100);
    assert_eq!(g.leaderboard.total_games, 101);
    assert!(g.leaderboard.entries.iter().all(|e| e.player != PlayerId(200)));
}

#[test]
fn get_leaderboard_is_idempotent() {
    let mut g = Game::initialize(PlayerId(1));
    play(&mut g, 2, 40, 100);
    play(&mut g, 3, 60, 200);
    let first = g.get_leaderboard();
    let second = g.get_leaderboard();
    assert_eq!(first, second);
    // Operations other than a successful submit leave the view alone too.
    let idx = g.start_game_session(PlayerId(4), 1, 300, 10).unwrap();
    g.activate_game(idx).unwrap();
    let third = g.get_leaderboard();
    assert_eq!(first, third);
}

#[test]
fn view_reports_at_most_ten_entries() {
    let mut g = Game::initialize(PlayerId(1));
    for k in 1..=12u64 {
        play(&mut g, k, k, k as i64);
    }
    let v = g.get_leaderboard();
    assert_eq!(v.total_games, 12);
    assert_eq!(v.top.len(), 10);
    // Best first: scores 12 down to 3.
    for (i, e) in v.top.iter().enumerate() {
        assert_eq!(e.score, 12 - i as u64);
    }
}

#[test]
fn view_reports_whole_board_when_short() {
    let mut g = Game::initialize(PlayerId(1));
    for k in 1..=3u64 {
        play(&mut g, k, 10 * k, k as i64);
    }
    let v = g.get_leaderboard();
    assert_eq!(v.top.len(), 3);
    assert_eq!(v.top[0].score, 30);
    assert_eq!(v.top[2].score, 10);
}
