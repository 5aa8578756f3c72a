use duhnjyn::animation::{
    adjust_sprite_indices, animate_sprite, select_animation, update_animation_state,
    AnimationIndices,
};

#[test]
fn attack_held_while_airborne_selects_attacking() {
    let mut clip = AnimationIndices::idling();
    let mut frame: usize = 0;
    let changed = select_animation(&mut clip, &mut frame, true, false, 0);
    assert!(changed);
    assert_eq!(clip, AnimationIndices::attacking());
    assert_eq!(frame, 1);
}

#[test]
fn attack_in_progress_is_not_interrupted_by_leaving_the_ground() {
    let mut clip = AnimationIndices::attacking();
    let mut frame: usize = 2;
    let changed = select_animation(&mut clip, &mut frame, false, false, 1);
    assert!(!changed);
    assert_eq!(clip, AnimationIndices::attacking());
    assert_eq!(frame, 2);
}

#[test]
fn finished_attack_gives_way_to_jumping() {
    let mut clip = AnimationIndices::attacking();
    let mut frame: usize = 4;
    let changed = select_animation(&mut clip, &mut frame, false, false, 0);
    assert!(changed);
    assert_eq!(clip, AnimationIndices::jumping());
    assert_eq!(frame, 5);
}

#[test]
fn priority_airborne_over_walking_over_idle() {
    let mut clip = AnimationIndices::idling();
    assert!(update_animation_state(&mut clip, 0, false, false, 1));
    assert_eq!(clip, AnimationIndices::jumping());
    assert!(update_animation_state(&mut clip, 5, false, true, -1));
    assert_eq!(clip, AnimationIndices::walking());
    assert!(update_animation_state(&mut clip, 7, false, true, 0));
    assert_eq!(clip, AnimationIndices::idling());
}

#[test]
fn reselecting_walking_keeps_the_displayed_frame() {
    let mut clip = AnimationIndices::idling();
    let mut frame: usize = 0;
    assert!(select_animation(&mut clip, &mut frame, false, true, 1));
    assert_eq!(clip, AnimationIndices::walking());
    assert_eq!(frame, 6);
    for _ in 0..3 {
        animate_sprite(&clip, &mut frame, true);
    }
    assert_eq!(frame, 9);
    assert!(!select_animation(&mut clip, &mut frame, false, true, 1));
    assert_eq!(clip, AnimationIndices::walking());
    assert_eq!(frame, 9);
}

#[test]
fn reselecting_idle_is_a_no_op() {
    let mut clip = AnimationIndices::idling();
    let mut frame: usize = 0;
    assert!(!select_animation(&mut clip, &mut frame, false, true, 0));
    assert_eq!(clip, AnimationIndices::idling());
    assert_eq!(frame, 0);
}

#[test]
fn playback_wraps_at_the_last_frame() {
    let walking = AnimationIndices::walking();
    assert_eq!(walking.next_frame(10), 11);
    assert_eq!(walking.next_frame(19), 6);
    let mut frame: usize = 19;
    animate_sprite(&walking, &mut frame, false);
    assert_eq!(frame, 19);
    animate_sprite(&walking, &mut frame, true);
    assert_eq!(frame, 6);
}

#[test]
fn adjusting_restarts_at_first_frame() {
    let mut frame: usize = 17;
    adjust_sprite_indices(&AnimationIndices::attacking(), &mut frame);
    assert_eq!(frame, 1);
}

#[test]
fn clip_ranges() {
    assert_eq!(AnimationIndices::idling(), AnimationIndices { first: 0, last: 0 });
    assert_eq!(AnimationIndices::attacking(), AnimationIndices { first: 1, last: 4 });
    assert_eq!(AnimationIndices::jumping(), AnimationIndices { first: 5, last: 5 });
    assert_eq!(AnimationIndices::walking(), AnimationIndices { first: 6, last: 19 });
}
