//! The animation state selector and frame playback.
use vstd::prelude::*;

verus! {

/// A clip: the range of sprite-sheet frames `first..=last` it plays.
/// Two equal values are the same clip.
#[derive(Clone, Copy, Debug, PartialEq, Eq, Structural)]
pub struct AnimationIndices {
    pub first: usize,
    pub last: usize,
}

pub open spec fn idling_clip() -> AnimationIndices {
    AnimationIndices { first: 0, last: 0 }
}

pub open spec fn attacking_clip() -> AnimationIndices {
    AnimationIndices { first: 1, last: 4 }
}

pub open spec fn jumping_clip() -> AnimationIndices {
    AnimationIndices { first: 5, last: 5 }
}

pub open spec fn walking_clip() -> AnimationIndices {
    AnimationIndices { first: 6, last: 19 }
}

impl AnimationIndices {
    pub fn idling() -> (r: AnimationIndices)
        ensures
            r == idling_clip(),
    {
        AnimationIndices { first: 0, last: 0 }
    }

    pub fn attacking() -> (r: AnimationIndices)
        ensures
            r == attacking_clip(),
    {
        AnimationIndices { first: 1, last: 4 }
    }

    pub fn jumping() -> (r: AnimationIndices)
        ensures
            r == jumping_clip(),
    {
        AnimationIndices { first: 5, last: 5 }
    }

    pub fn walking() -> (r: AnimationIndices)
        ensures
            r == walking_clip(),
    {
        AnimationIndices { first: 6, last: 19 }
    }

    /// The frame shown after `frame` when the clip's timer fires: the next
    /// one, wrapping from the last frame back to the first.
    pub open spec fn frame_after(self, frame: int) -> int {
        if frame == self.last {
            self.first as int
        } else {
            frame + 1
        }
    }

    pub fn next_frame(&self, frame: usize) -> (r: usize)
        requires
            frame == self.last || frame < usize::MAX,
        ensures
            r == self.frame_after(frame as int),
    {
        if frame == self.last {
            self.first
        } else {
            frame + 1
        }
    }
}

/// An attack is in progress while the attacking clip plays and its last
/// frame is not yet displayed.
pub open spec fn attack_in_progress(current: AnimationIndices, frame: int) -> bool {
    current == attacking_clip() && current.last != frame
}

/// The clip to show, by priority: attack held, then an attack in progress
/// (which nothing else interrupts), then airborne, then horizontal
/// movement, then idle.
pub open spec fn selected_clip(
    current: AnimationIndices,
    frame: int,
    attack_held: bool,
    grounded: bool,
    direction_x: int,
) -> AnimationIndices {
    if attack_held {
        attacking_clip()
    } else if attack_in_progress(current, frame) {
        current
    } else if !grounded {
        jumping_clip()
    } else if direction_x != 0 {
        walking_clip()
    } else {
        idling_clip()
    }
}

/// Selects the clip for this frame from the actor's state. The clip is
/// written only when it changes; the result says whether it did.
pub fn update_animation_state(
    indices: &mut AnimationIndices,
    frame: usize,
    attack_held: bool,
    grounded: bool,
    direction_x: i8,
) -> (changed: bool)
    ensures
        *final(indices) == selected_clip(
            *old(indices),
            frame as int,
            attack_held,
            grounded,
            direction_x as int,
        ),
        changed == (*final(indices) != *old(indices)),
{
    let attacking = AnimationIndices::attacking();
    let attack_in_progress = *indices == attacking && indices.last != frame;
    let target = if attack_held {
        attacking
    } else if attack_in_progress {
        *indices
    } else if !grounded {
        AnimationIndices::jumping()
    } else if direction_x != 0 {
        AnimationIndices::walking()
    } else {
        AnimationIndices::idling()
    };
    if *indices != target {
        *indices = target;
        true
    } else {
        false
    }
}

/// Restarts playback at the first frame of the clip.
pub fn adjust_sprite_indices(indices: &AnimationIndices, index: &mut usize)
    ensures
        *final(index) == indices.first,
{
    *index = indices.first;
}

/// Selects the clip and, when it changed, restarts playback at its first
/// frame; re-selecting the clip already shown leaves the frame alone. The
/// result says whether the clip changed, so that its timer is restarted.
pub fn select_animation(
    indices: &mut AnimationIndices,
    index: &mut usize,
    attack_held: bool,
    grounded: bool,
    direction_x: i8,
) -> (changed: bool)
    ensures
        *final(indices) == selected_clip(
            *old(indices),
            *old(index) as int,
            attack_held,
            grounded,
            direction_x as int,
        ),
        changed == (*final(indices) != *old(indices)),
        *final(index) == (if changed {
            final(indices).first
        } else {
            *old(index)
        }),
{
    let changed = update_animation_state(indices, *index, attack_held, grounded, direction_x);
    if changed {
        adjust_sprite_indices(indices, index);
    }
    changed
}

/// Advances playback by one frame when the clip's timer has just fired.
pub fn animate_sprite(indices: &AnimationIndices, index: &mut usize, timer_just_finished: bool)
    requires
        *old(index) == indices.last || *old(index) < usize::MAX,
    ensures
        *final(index) == (if timer_just_finished {
            indices.frame_after(*old(index) as int)
        } else {
            *old(index) as int
        }),
{
    if timer_just_finished {
        *index = indices.next_frame(*index);
    }
}

/// Attacking outranks everything: an attack held selects the attacking
/// clip whatever the grounded flag and the direction; and once the attacking
/// clip plays, nothing but the display of its last frame ends it, whether the
/// actor is airborne or moving.
pub proof fn lemma_attack_priority(
    current: AnimationIndices,
    frame: int,
    grounded: bool,
    direction_x: int,
)
    ensures
        selected_clip(current, frame, true, grounded, direction_x) == attacking_clip(),
        current == attacking_clip() && frame != current.last ==> selected_clip(
            current,
            frame,
            false,
            grounded,
            direction_x,
        ) == attacking_clip(),
{
}

/// Selecting twice from the same actor state changes nothing the second
/// time: the clip chosen first is chosen again, so its displayed frame is
/// not reset and its timer is not restarted.
pub proof fn lemma_reselection_is_idempotent(
    current: AnimationIndices,
    frame: int,
    attack_held: bool,
    grounded: bool,
    direction_x: int,
)
    ensures
        ({
            let first = selected_clip(current, frame, attack_held, grounded, direction_x);
            let shown = if first != current {
                first.first as int
            } else {
                frame
            };
            selected_clip(first, shown, attack_held, grounded, direction_x) == first
        }),
{
}

} // verus!
