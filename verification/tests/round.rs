use recycle::level::random::Generator;
use recycle::level::round::{fixed_update, step_in_range, try_fixed_update};
use recycle::level::trash_can::Contact;
use recycle::level::types::TimeRemaining;
use recycle::score::PlayerScore;
use recycle::state::PauseState;
use recycle::ui::types::GameOverEvent;

fn rng() -> Generator {
    Generator::seeded(9)
}

#[test]
fn a_round_that_does_not_run_stands_still() {
    for phase in [PauseState::Loading, PauseState::Paused, PauseState::GameOver] {
        let mut now = phase;
        let mut timer = TimeRemaining::default();
        let mut score = PlayerScore { score: 2 };
        let contacts = vec![Contact { entity: 1, is_trash: true }];
        let step = fixed_update(&mut rng(), &mut now, &mut timer, &mut score, 5_000_000, &contacts);
        assert_eq!(now, phase);
        assert_eq!(timer, TimeRemaining::default());
        assert_eq!(score.score, 2);
        assert_eq!(step.game_over, None);
        assert!(step.spawns.is_empty());
        assert!(step.disposed.is_empty());
    }
}

#[test]
fn a_running_round_steps_its_clock_then_spawns_then_disposes() {
    let mut phase = PauseState::Running;
    let mut timer = TimeRemaining::default();
    let mut score = PlayerScore { score: 0 };
    let contacts = vec![Contact { entity: 4, is_trash: true }];
    let step = fixed_update(&mut rng(), &mut phase, &mut timer, &mut score, 2_800_000, &contacts);
    assert_eq!(phase, PauseState::Running);
    assert_eq!(step.game_over, None);
    assert_eq!(step.spawns.len(), 1);
    assert_eq!(step.spawns[0].y, 12_800);
    assert_eq!(step.disposed.len(), 1);
    assert_eq!(step.disposed[0].entity, 4);
    assert_eq!(score.score, 1);
    assert_eq!(timer.remaining, 3_000_000_000 - 280_000_000 + 175_000_000);
    assert_eq!(timer.multiplier, 105);
    assert_eq!(timer.spawn_every, 2_760_000);
    assert_eq!(timer.last_spawn, 0);
}

#[test]
fn game_over_is_sent_once_however_long_the_loop_goes_on() {
    let mut phase = PauseState::Running;
    let mut timer = TimeRemaining::default();
    let mut score = PlayerScore { score: 9 };
    let mut sent = Vec::new();
    for frame in 0..100 {
        let step = fixed_update(&mut rng(), &mut phase, &mut timer, &mut score, 1_000_000, &Vec::new());
        if let Some(event) = step.game_over {
            sent.push((frame, event));
        }
    }
    assert_eq!(sent, vec![(29, GameOverEvent { final_score: 9 })]);
    assert_eq!(phase, PauseState::GameOver);
    assert_eq!(timer.remaining, 0);
}

#[test]
fn game_over_carries_the_score_from_before_the_last_disposal() {
    let mut phase = PauseState::Running;
    let mut timer = TimeRemaining::default();
    timer.remaining = 1;
    let mut score = PlayerScore { score: 3 };
    let contacts = vec![Contact { entity: 4, is_trash: true }];
    let step = fixed_update(&mut rng(), &mut phase, &mut timer, &mut score, 1, &contacts);
    assert_eq!(step.game_over, Some(GameOverEvent { final_score: 3 }));
    assert_eq!(phase, PauseState::GameOver);
    assert_eq!(score.score, 4);
    assert_eq!(timer.remaining, 1 - 100 + 175_000_000);
}

#[test]
fn a_bonus_in_time_keeps_the_round_going() {
    let mut phase = PauseState::Running;
    let mut timer = TimeRemaining::default();
    timer.remaining = 200;
    let mut score = PlayerScore { score: 0 };
    let contacts = vec![Contact { entity: 4, is_trash: true }];
    let step = fixed_update(&mut rng(), &mut phase, &mut timer, &mut score, 1, &contacts);
    assert_eq!(step.game_over, None);
    assert_eq!(phase, PauseState::Running);
    assert_eq!(timer.remaining, 100 + 175_000_000);
}

#[test]
fn a_step_within_limits_is_taken() {
    let mut phase = PauseState::Running;
    let mut timer = TimeRemaining::default();
    let mut score = PlayerScore { score: 0 };
    let contacts = vec![Contact { entity: 4, is_trash: true }, Contact { entity: 5, is_trash: true }];
    assert!(step_in_range(phase, &timer, &score, 16_000, &contacts));
    let step = try_fixed_update(&mut rng(), &mut phase, &mut timer, &mut score, 16_000, &contacts).unwrap();
    assert_eq!(step.disposed.len(), 2);
    assert_eq!(score.score, 2);
    assert_eq!(timer.remaining, 3_000_000_000 - 1_600_000 + 175_000_000 + 183_750_000);
    assert_eq!(timer.multiplier, 110);
}

#[test]
fn a_step_that_leaves_the_limits_is_not_taken() {
    let contacts = vec![Contact { entity: 4, is_trash: true }];
    let cases = [
        (TimeRemaining { remaining: i64::MIN, ..TimeRemaining::default() }, 0u64, 1u32, 0usize),
        (TimeRemaining { remaining: i64::MAX, ..TimeRemaining::default() }, 0, 0, 1),
        (TimeRemaining { multiplier: u32::MAX - 4, ..TimeRemaining::default() }, 0, 0, 1),
        (TimeRemaining { spawn_every: i64::MIN + 39_999, ..TimeRemaining::default() }, 0, 0, 1),
        (TimeRemaining::default(), u64::MAX, 0, 1),
    ];
    for (timer, points, delta, items) in cases {
        let mut phase = PauseState::Running;
        let mut now = timer;
        let mut score = PlayerScore { score: points };
        let contacts = contacts[..items].to_vec();
        assert!(!step_in_range(phase, &now, &score, delta, &contacts));
        assert!(try_fixed_update(&mut rng(), &mut phase, &mut now, &mut score, delta, &contacts).is_none());
        assert_eq!(phase, PauseState::Running);
        assert_eq!(now, timer);
        assert_eq!(score.score, points);
    }
}

#[test]
fn the_limits_themselves_can_be_reached() {
    let contacts = vec![Contact { entity: 4, is_trash: true }];
    let cases = [
        (TimeRemaining { remaining: i64::MIN + 100, ..TimeRemaining::default() }, 0u64, 1u32, 0usize),
        (TimeRemaining { multiplier: u32::MAX - 5, remaining: 0, ..TimeRemaining::default() }, 0, 0, 1),
        (TimeRemaining { spawn_every: i64::MIN + 40_000, ..TimeRemaining::default() }, 0, 0, 1),
        (TimeRemaining::default(), u64::MAX - 1, 0, 1),
        (TimeRemaining { remaining: i64::MAX - 175_000_000, ..TimeRemaining::default() }, 0, 0, 1),
    ];
    for (timer, points, delta, items) in cases {
        let mut phase = PauseState::Running;
        let mut now = timer;
        let mut score = PlayerScore { score: points };
        let contacts = contacts[..items].to_vec();
        assert!(step_in_range(phase, &now, &score, delta, &contacts));
        assert!(try_fixed_update(&mut rng(), &mut phase, &mut now, &mut score, delta, &contacts).is_some());
    }
}

#[test]
fn a_round_that_does_not_run_is_always_within_limits() {
    let timer = TimeRemaining { remaining: i64::MIN, ..TimeRemaining::default() };
    let score = PlayerScore { score: u64::MAX };
    let contacts = vec![Contact { entity: 4, is_trash: true }];
    assert!(step_in_range(PauseState::Paused, &timer, &score, u32::MAX, &contacts));
    assert!(step_in_range(PauseState::GameOver, &timer, &score, u32::MAX, &contacts));
}
