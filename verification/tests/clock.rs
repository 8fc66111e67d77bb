use recycle::level::random::Generator;
use recycle::level::timer::{spawn_timer, update_timer, TimerEvents};
use recycle::level::trash_can::{despawn_trash, disposal_bonus, Contact};
use recycle::level::types::{TimeRemaining, TrashSpawnEvent};
use recycle::score::PlayerScore;
use recycle::ui::types::GameOverEvent;

fn quiet() -> TimerEvents {
    TimerEvents { game_over: None, spawn: None }
}

#[test]
fn a_round_starts_with_thirty_seconds() {
    let timer = TimeRemaining::default();
    assert_eq!(timer.remaining, 3_000_000_000);
    assert_eq!(timer.multiplier, 100);
    assert_eq!(timer.spawn_every, 2_800_000);
    assert_eq!(timer.last_spawn, 0);
    assert_eq!(spawn_timer(), timer);
}

#[test]
fn a_frame_takes_its_time_at_the_multipliers_pace() {
    let mut timer = TimeRemaining::default();
    let score = PlayerScore { score: 0 };
    let events = update_timer(&mut timer, 1_000_000, &score);
    assert_eq!(events, quiet());
    assert_eq!(timer.remaining, 2_900_000_000);
    assert_eq!(timer.last_spawn, 1_000_000);

    timer.multiplier = 250;
    update_timer(&mut timer, 16_000, &score);
    assert_eq!(timer.remaining, 2_900_000_000 - 16_000 * 250);
    assert_eq!(timer.multiplier, 250);
    assert_eq!(timer.spawn_every, 2_800_000);
}

#[test]
fn time_left_never_grows_over_a_run_of_frames() {
    let mut timer = TimeRemaining::default();
    let score = PlayerScore::default();
    let mut before = timer.remaining;
    for delta in [1u32, 15_625, 250_000, 7, 1_000_000, 33_333] {
        update_timer(&mut timer, delta, &score);
        assert!(timer.remaining < before);
        before = timer.remaining;
    }
}

#[test]
fn one_disposal_grants_a_second_and_three_quarters() {
    let mut timer = TimeRemaining::default();
    disposal_bonus(&mut timer);
    assert_eq!(timer.remaining, 3_000_000_000 + 175_000_000);
    assert_eq!(timer.multiplier, 105);
    assert_eq!(timer.spawn_every, 2_760_000);
    assert_eq!(timer.last_spawn, 0);
}

#[test]
fn the_bonus_grows_with_the_multiplier() {
    let mut timer = TimeRemaining::default();
    disposal_bonus(&mut timer);
    disposal_bonus(&mut timer);
    assert_eq!(timer.remaining, 3_000_000_000 + 175_000_000 + 183_750_000);
    assert_eq!(timer.multiplier, 110);
    assert_eq!(timer.spawn_every, 2_720_000);
}

#[test]
fn a_spawn_is_sent_when_the_wait_reaches_the_interval() {
    let mut timer = TimeRemaining::default();
    let score = PlayerScore::default();
    assert_eq!(update_timer(&mut timer, 2_799_999, &score).spawn, None);
    assert_eq!(timer.last_spawn, 2_799_999);
    assert_eq!(update_timer(&mut timer, 1, &score).spawn, Some(TrashSpawnEvent));
    assert_eq!(timer.last_spawn, 0);
}

#[test]
fn the_wait_starts_over_without_keeping_the_overshoot() {
    let mut timer = TimeRemaining::default();
    let score = PlayerScore::default();
    update_timer(&mut timer, 2_000_000, &score);
    let events = update_timer(&mut timer, 1_000_000, &score);
    assert_eq!(events.spawn, Some(TrashSpawnEvent));
    assert_eq!(timer.last_spawn, 0);
    let events = update_timer(&mut timer, 2_700_000, &score);
    assert_eq!(events.spawn, None);
    assert_eq!(timer.last_spawn, 2_700_000);
}

#[test]
fn spawns_come_once_per_interval_at_a_steady_frame_rate() {
    let mut timer = TimeRemaining::default();
    let score = PlayerScore::default();
    let mut spawns = 0;
    let mut frames_since = 0;
    for _ in 0..1000 {
        frames_since += 1;
        if update_timer(&mut timer, 10_000, &score).spawn.is_some() {
            assert_eq!(frames_since, 280);
            frames_since = 0;
            spawns += 1;
        }
    }
    assert_eq!(spawns, 3);
}

#[test]
fn an_interval_below_zero_spawns_on_every_frame() {
    let mut timer = TimeRemaining::default();
    let score = PlayerScore::default();
    for _ in 0..71 {
        disposal_bonus(&mut timer);
    }
    assert_eq!(timer.spawn_every, -40_000);
    assert_eq!(timer.multiplier, 455);
    assert_eq!(update_timer(&mut timer, 1, &score).spawn, Some(TrashSpawnEvent));
    assert_eq!(update_timer(&mut timer, 0, &score).spawn, Some(TrashSpawnEvent));
    assert_eq!(timer.last_spawn, 0);
}

#[test]
fn game_over_is_sent_when_the_time_reaches_zero() {
    let mut timer = TimeRemaining::default();
    let score = PlayerScore { score: 12 };
    timer.remaining = 100;
    let events = update_timer(&mut timer, 0, &score);
    assert_eq!(events.game_over, None);
    let events = update_timer(&mut timer, 1, &score);
    assert_eq!(timer.remaining, 0);
    assert_eq!(events.game_over, Some(GameOverEvent { final_score: 12 }));
}

#[test]
fn game_over_carries_the_score_of_the_moment() {
    let mut timer = TimeRemaining::default();
    timer.remaining = 5;
    let score = PlayerScore { score: 41 };
    let events = update_timer(&mut timer, 1_000, &score);
    assert_eq!(timer.remaining, 5 - 100_000);
    assert_eq!(events.game_over, Some(GameOverEvent { final_score: 41 }));
}

#[test]
fn every_item_in_the_can_scores_and_grants_its_bonus() {
    let contacts = vec![
        Contact { entity: 7, is_trash: true },
        Contact { entity: 8, is_trash: false },
        Contact { entity: 9, is_trash: true },
    ];
    let mut score = PlayerScore { score: 3 };
    let mut timer = TimeRemaining::default();
    let disposed = despawn_trash(&mut Generator::seeded(11), &contacts, &mut score, &mut timer);
    assert_eq!(disposed.len(), 2);
    assert_eq!(disposed[0].entity, 7);
    assert_eq!(disposed[1].entity, 9);
    for disposal in &disposed {
        assert!((1..=4).contains(&disposal.sound));
    }
    assert_eq!(score.score, 5);
    assert_eq!(timer.remaining, 3_000_000_000 + 175_000_000 + 183_750_000);
    assert_eq!(timer.multiplier, 110);
    assert_eq!(timer.spawn_every, 2_720_000);
}

#[test]
fn an_empty_can_changes_nothing() {
    let contacts = vec![Contact { entity: 1, is_trash: false }];
    let mut score = PlayerScore { score: 3 };
    let mut timer = TimeRemaining::default();
    assert!(despawn_trash(&mut Generator::seeded(11), &contacts, &mut score, &mut timer).is_empty());
    assert!(despawn_trash(&mut Generator::seeded(12), &Vec::new(), &mut score, &mut timer).is_empty());
    assert_eq!(score.score, 3);
    assert_eq!(timer, TimeRemaining::default());
}

#[test]
fn disposal_sounds_vary() {
    let contacts: Vec<Contact> =
        (0..400).map(|entity| Contact { entity, is_trash: true }).collect();
    let mut score = PlayerScore::default();
    let mut timer = TimeRemaining::default();
    let disposed = despawn_trash(&mut Generator::seeded(11), &contacts, &mut score, &mut timer);
    for sound in 1..=4u8 {
        assert!(disposed.iter().any(|disposal| disposal.sound == sound));
    }
}

#[test]
fn each_bonus_uses_the_multiplier_before_its_own_gain() {
    let contacts: Vec<Contact> = (0..5).map(|entity| Contact { entity, is_trash: true }).collect();
    let mut score = PlayerScore::default();
    let mut timer = TimeRemaining::default();
    despawn_trash(&mut Generator::seeded(3), &contacts, &mut score, &mut timer);
    let granted: i64 = (0..5).map(|i| 1_750_000 * (100 + 5 * i)).sum();
    assert_eq!(granted, 175_000_000 + 183_750_000 + 192_500_000 + 201_250_000 + 210_000_000);
    assert_eq!(timer.remaining, 3_000_000_000 + granted);
    assert_eq!(timer.multiplier, 125);
    assert_eq!(timer.spawn_every, 2_600_000);
    assert_eq!(score.score, 5);
}

#[test]
fn the_same_seed_makes_the_same_sounds() {
    let contacts: Vec<Contact> = (0..50).map(|entity| Contact { entity, is_trash: true }).collect();
    let run = |seed: u64| {
        let mut score = PlayerScore::default();
        let mut timer = TimeRemaining::default();
        despawn_trash(&mut Generator::seeded(seed), &contacts, &mut score, &mut timer)
    };
    assert_eq!(run(7), run(7));
    assert_ne!(run(7), run(8));
}
