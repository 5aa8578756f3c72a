//! Facing flags and their propagation from a parent to its children.
use vstd::prelude::*;

verus! {

/// Whether a sprite is mirrored along each axis.
#[derive(Clone, Copy, Debug, Default, PartialEq, Eq, Structural)]
pub struct Flippable {
    pub flip_x: bool,
    pub flip_y: bool,
}

impl Flippable {
    pub fn new(flip_x: bool, flip_y: bool) -> (r: Self)
        ensures
            r.flip_x == flip_x,
            r.flip_y == flip_y,
    {
        Self { flip_x, flip_y }
    }
}

/// The axes along which a child's offset from its parent must be mirrored
/// after its facing was brought in line with the parent's.
#[derive(Clone, Copy, Debug, PartialEq, Eq, Structural)]
pub struct FlipMirror {
    pub mirror_x: bool,
    pub mirror_y: bool,
}

/// Makes the child face as its parent does, and reports on which axes the
/// child's facing changed, so that its offset is mirrored on exactly those.
pub fn propagate_sprite_flip(parent: &Flippable, child: &mut Flippable) -> (r: FlipMirror)
    ensures
        *final(child) == *parent,
        r.mirror_x == (old(child).flip_x != parent.flip_x),
        r.mirror_y == (old(child).flip_y != parent.flip_y),
{
    let mut mirror = FlipMirror { mirror_x: false, mirror_y: false };
    if child.flip_x != parent.flip_x {
        child.flip_x = parent.flip_x;
        mirror.mirror_x = true;
    }
    if child.flip_y != parent.flip_y {
        child.flip_y = parent.flip_y;
        mirror.mirror_y = true;
    }
    mirror
}

} // verus!
