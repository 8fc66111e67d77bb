use recycle::level::main_level::{level_items, spawn_level, FLOOR_Y};
use recycle::level::random::Generator;
use recycle::level::trash_spawner::{
    accept_spawn_x, pick_spawn_x, random_spawn_x, random_trash, spawn_trash_event, spawn_x_at,
    trash_at, TrashSpawn, CLEAR_POSITIONS, DROP_Y,
};
use recycle::level::types::{TrashSpawnEvent, WORLD_UNIT};

fn clear(x: i32) -> bool {
    -70 * WORLD_UNIT <= x && x < 70 * WORLD_UNIT && !(-8 * WORLD_UNIT <= x && x <= 9 * WORLD_UNIT)
}

#[test]
fn the_band_around_the_can_is_closed_on_both_sides() {
    assert_eq!(accept_spawn_x(-2_048), None);
    assert_eq!(accept_spawn_x(-2_049), Some(-2_049));
    assert_eq!(accept_spawn_x(2_304), None);
    assert_eq!(accept_spawn_x(2_305), Some(2_305));
    assert_eq!(accept_spawn_x(0), None);
}

#[test]
fn the_width_is_open_on_the_right() {
    assert_eq!(accept_spawn_x(-17_920), Some(-17_920));
    assert_eq!(accept_spawn_x(-17_921), None);
    assert_eq!(accept_spawn_x(17_919), Some(17_919));
    assert_eq!(accept_spawn_x(17_920), None);
}

#[test]
fn clear_positions_are_counted_from_the_left() {
    assert_eq!(spawn_x_at(0), -17_920);
    assert_eq!(spawn_x_at(15_871), -2_049);
    assert_eq!(spawn_x_at(15_872), 2_305);
    assert_eq!(spawn_x_at(CLEAR_POSITIONS - 1), 17_919);
}

#[test]
fn every_counted_position_is_clear_and_counted_once() {
    let mut previous = i32::MIN;
    for index in 0..CLEAR_POSITIONS {
        let x = spawn_x_at(index);
        assert!(clear(x));
        assert!(x > previous);
        previous = x;
    }
}

#[test]
fn no_item_appears_above_the_can() {
    let mut rng = Generator::seeded(1);
    for _ in 0..10_000 {
        let x = random_spawn_x(&mut rng);
        assert!(clear(x), "{x} lies in the band or outside the width");
    }
}

#[test]
fn positions_are_spread_evenly_over_what_is_clear() {
    let samples = 10_000;
    let buckets = 10;
    let mut counts = vec![0i32; buckets];
    let mut left = 0;
    let mut rng = Generator::seeded(2);
    for _ in 0..samples {
        let x = random_spawn_x(&mut rng);
        let index = if x < 0 { x + 17_920 } else { x - 2_305 + 15_872 };
        counts[(index as usize * buckets) / CLEAR_POSITIONS as usize] += 1;
        if x < 0 {
            left += 1;
        }
    }
    for count in counts {
        assert!((count - 1_000).abs() < 200, "a tenth of the positions drew {count} of 10000");
    }
    assert!((left - 5_041i32).abs() < 300, "{left} of 10000 fell left of the can");
}

#[test]
fn an_item_takes_the_picture_after_the_draw() {
    assert_eq!(trash_at(5_000, DROP_Y, 0), TrashSpawn { x: 5_000, y: 12_800, sprite: 1 });
    assert_eq!(trash_at(-5_000, FLOOR_Y, 8), TrashSpawn { x: -5_000, y: -6_912, sprite: 9 });
}

#[test]
fn all_nine_pictures_are_used() {
    let mut seen = [false; 10];
    let mut rng = Generator::seeded(3);
    for _ in 0..2_000 {
        let spawn = random_trash(&mut rng, DROP_Y);
        assert!((1..=9).contains(&spawn.sprite));
        assert_eq!(spawn.y, DROP_Y);
        seen[spawn.sprite as usize] = true;
    }
    assert!(seen[1..].iter().all(|used| *used));
}

#[test]
fn each_spawn_event_drops_one_item_from_above() {
    let mut rng = Generator::seeded(4);
    assert!(spawn_trash_event(&mut rng, &Vec::new()).is_empty());
    let spawns =
        spawn_trash_event(&mut rng, &vec![TrashSpawnEvent, TrashSpawnEvent, TrashSpawnEvent]);
    assert_eq!(spawns.len(), 3);
    for spawn in spawns {
        assert!(clear(spawn.x));
        assert_eq!(spawn.y, 50 * WORLD_UNIT);
        assert!((1..=9).contains(&spawn.sprite));
    }
}

#[test]
fn a_round_starts_with_four_to_seven_items_on_the_floor() {
    let mut seen = [false; 8];
    let mut rng = Generator::seeded(5);
    for _ in 0..400 {
        let spawns = spawn_level(&mut rng);
        assert!((4..8).contains(&spawns.len()));
        seen[spawns.len()] = true;
        for spawn in spawns {
            assert!(clear(spawn.x));
            assert_eq!(spawn.y, -27 * WORLD_UNIT);
            assert!((1..=9).contains(&spawn.sprite));
        }
    }
    assert!(seen[4] && seen[5] && seen[6] && seen[7]);
}

#[test]
fn the_first_clear_draw_is_taken_as_it_was_drawn() {
    assert_eq!(pick_spawn_x(&vec![0, -2_048, 2_304, 2_305, -9_000], 7), 2_305);
    assert_eq!(pick_spawn_x(&vec![-9_000, 2_305], 7), -9_000);
    assert_eq!(pick_spawn_x(&vec![17_919], 7), 17_919);
    assert_eq!(pick_spawn_x(&vec![100, -17_920, 5_000], 7), -17_920);
}

#[test]
fn draws_inside_the_band_are_thrown_away_not_moved() {
    assert_eq!(pick_spawn_x(&vec![-2_048, 2_304, 0, 1, -1], 0), -17_920);
    assert_eq!(pick_spawn_x(&vec![0; 16], 15_871), -2_049);
    assert_eq!(pick_spawn_x(&vec![0; 16], 15_872), 2_305);
    assert_eq!(pick_spawn_x(&Vec::new(), CLEAR_POSITIONS - 1), 17_919);
    assert_eq!(pick_spawn_x(&vec![17_920, -17_921, i32::MAX, i32::MIN], 3), -17_917);
}

#[test]
fn a_round_starts_with_as_many_items_as_were_drawn() {
    let mut rng = Generator::seeded(6);
    for count in 4..8 {
        let spawns = level_items(&mut rng, count);
        assert_eq!(spawns.len(), count as usize);
        for spawn in spawns {
            assert!(clear(spawn.x));
            assert_eq!(spawn.y, FLOOR_Y);
            assert!((1..=9).contains(&spawn.sprite));
        }
    }
}

#[test]
fn the_same_seed_lays_out_the_same_round() {
    let first = spawn_level(&mut Generator::seeded(42));
    let again = spawn_level(&mut Generator::seeded(42));
    assert_eq!(first, again);

    let mut rng = Generator::seeded(42);
    let mut other = Generator::seeded(43);
    let here: Vec<i32> = (0..20).map(|_| random_spawn_x(&mut rng)).collect();
    let there: Vec<i32> = (0..20).map(|_| random_spawn_x(&mut other)).collect();
    assert_ne!(here, there);
}
