use recycle::level::trash::{
    grab_object, load_trash_collisions, play_hit_sound, release_object, scale_outline, Grab,
    Motion, Pixel, Probe, Release,
};
use recycle::level::types::{Point, Trash};

fn miss(cursor: u64) -> Probe {
    Probe { cursor, right: None, up: None, left: None, down: None }
}

#[test]
fn a_press_on_nothing_picks_nothing_up() {
    assert_eq!(grab_object(true, &vec![miss(1)], false), None);
    assert_eq!(grab_object(true, &vec![miss(1), miss(2)], true), None);
    assert_eq!(grab_object(true, &Vec::new(), false), None);
}

#[test]
fn nothing_is_picked_up_without_a_press() {
    let probe = Probe { cursor: 1, right: Some(5), up: None, left: None, down: None };
    assert_eq!(grab_object(false, &vec![probe], false), None);
}

#[test]
fn the_rays_are_tried_right_up_left_down() {
    let all = Probe { cursor: 1, right: Some(10), up: Some(11), left: Some(12), down: Some(13) };
    assert_eq!(all.hit(), Some(10));
    assert_eq!(Probe { right: None, ..all }.hit(), Some(11));
    assert_eq!(Probe { right: None, up: None, ..all }.hit(), Some(12));
    assert_eq!(Probe { right: None, up: None, left: None, ..all }.hit(), Some(13));
    assert_eq!(miss(1).hit(), None);
}

#[test]
fn the_first_pointer_with_a_hit_takes_its_item() {
    let second = Probe { cursor: 2, right: None, up: None, left: Some(30), down: Some(31) };
    let third = Probe { cursor: 3, right: Some(40), up: None, left: None, down: None };
    let grab = grab_object(true, &vec![miss(1), second, third], true);
    assert_eq!(grab, Some(Grab { cursor: 2, trash: 30, first_click: false }));
}

#[test]
fn the_first_pick_up_is_marked_as_such() {
    let probe = Probe { cursor: 1, right: None, up: Some(5), left: None, down: None };
    assert_eq!(
        grab_object(true, &vec![probe], false),
        Some(Grab { cursor: 1, trash: 5, first_click: true })
    );
    assert_eq!(
        grab_object(true, &vec![probe], true),
        Some(Grab { cursor: 1, trash: 5, first_click: false })
    );
}

#[test]
fn letting_go_with_nothing_held_does_nothing() {
    let nothing = Release { cursor: None, trash: None, joint: None, sound: false };
    assert_eq!(release_object(false, None, None, None), nothing);
    assert_eq!(release_object(false, None, Some(4), Some(9)), nothing);
}

#[test]
fn nothing_is_let_go_while_the_button_is_down() {
    let nothing = Release { cursor: None, trash: None, joint: None, sound: false };
    assert_eq!(release_object(true, Some(1), Some(4), Some(9)), nothing);
}

#[test]
fn letting_go_undoes_the_marks_and_the_joint() {
    assert_eq!(
        release_object(false, Some(1), Some(4), Some(9)),
        Release { cursor: Some(1), trash: Some(4), joint: Some(9), sound: true }
    );
}

#[test]
fn the_joint_goes_even_if_the_item_is_already_gone() {
    assert_eq!(
        release_object(false, Some(1), None, Some(9)),
        Release { cursor: Some(1), trash: None, joint: Some(9), sound: true }
    );
}

#[test]
fn a_release_without_a_joint_is_silent() {
    assert_eq!(
        release_object(false, Some(1), Some(4), None),
        Release { cursor: Some(1), trash: Some(4), joint: None, sound: false }
    );
    assert_eq!(
        release_object(false, Some(1), None, None),
        Release { cursor: Some(1), trash: None, joint: None, sound: false }
    );
}

#[test]
fn an_impact_is_heard_from_twenty_units_a_second() {
    let hard = Motion { vx: 10_240, vy: 0, touching: true };
    let soft = Motion { vx: 10_239, vy: 0, touching: true };
    assert_eq!(play_hit_sound(&vec![hard], false), 1);
    assert_eq!(play_hit_sound(&vec![soft], false), 0);
    assert_eq!(play_hit_sound(&vec![Motion { vx: -5_120, vy: -5_120, touching: true }], false), 1);
    assert_eq!(play_hit_sound(&vec![Motion { vx: 5_120, vy: -5_119, touching: true }], false), 0);
}

#[test]
fn an_item_in_free_fall_is_not_heard() {
    assert_eq!(play_hit_sound(&vec![Motion { vx: 0, vy: -90_000, touching: false }], false), 0);
}

#[test]
fn no_impact_is_heard_while_one_still_sounds() {
    let hard = Motion { vx: i32::MIN, vy: i32::MIN, touching: true };
    assert_eq!(play_hit_sound(&vec![hard, hard], true), 0);
    assert_eq!(play_hit_sound(&vec![hard, hard], false), 2);
}

#[test]
fn a_silhouette_is_scaled_to_thirty_units_across() {
    let outline = scale_outline(&vec![
        Pixel { x: -256, y: 256 },
        Pixel { x: 256, y: -256 },
        Pixel { x: 1, y: 0 },
        Pixel { x: i16::MAX, y: i16::MIN },
    ]);
    assert_eq!(
        outline,
        vec![
            Point { x: -3_840, y: 3_840 },
            Point { x: 3_840, y: -3_840 },
            Point { x: 15, y: 0 },
            Point { x: 491_505, y: -491_520 },
        ]
    );
    assert!(scale_outline(&Vec::new()).is_empty());
}

#[test]
fn an_item_gets_its_outline_with_its_body() {
    let mut trash = Trash::new();
    assert!(trash.points.is_empty());
    let outline = vec![Point { x: 1, y: 2 }, Point { x: 3, y: 4 }];
    assert!(load_trash_collisions(&mut trash, outline.clone(), true));
    assert_eq!(trash.points, outline);
}

#[test]
fn an_outline_without_a_body_is_not_taken_over() {
    let mut trash = Trash::new();
    let outline = vec![Point { x: 1, y: 2 }];
    assert!(!load_trash_collisions(&mut trash, outline, false));
    assert!(trash.points.is_empty());
}
