//! The geometry drawn each frame: a quad that covers clip space.

use vstd::prelude::*;

verus! {

/// Components of each vertex position: x and y in clip space.
pub const POSITION_COMPONENTS: usize = 2;

/// The quad as two triangles, each vertex an (x, y) pair: left-bottom,
/// right-bottom, left-top, then left-top, right-bottom, right-top.
pub open spec fn clip_quad() -> Seq<i8> {
    seq![-1i8, -1i8, 1i8, -1i8, -1i8, 1i8, -1i8, 1i8, 1i8, -1i8, 1i8, 1i8]
}

/// The number of vertices in `len` values of `components` each, where the
/// values divide into whole vertices and the count fits a draw call.
pub open spec fn vertex_count_of(len: int, components: int) -> Option<int> {
    if components > 0 && len % components == 0 && len / components <= i32::MAX {
        Some(len / components)
    } else {
        None
    }
}

/// The positions of the quad that covers clip space.
pub fn clip_space_quad() -> (r: Vec<i8>)
    ensures
        r@ == clip_quad(),
{
    let r: Vec<i8> = vec![-1, -1, 1, -1, -1, 1, -1, 1, 1, -1, 1, 1];
    assert(r@ =~= clip_quad());
    r
}

/// The vertex count to draw from `len` values of `components` each; `None`
/// where they do not divide into whole vertices or the count is too large.
pub fn vertex_count(len: usize, components: usize) -> (r: Option<i32>)
    ensures
        match vertex_count_of(len as int, components as int) {
            Some(n) => r == Some(n as i32),
            None => r is None,
        },
{
    if components == 0 || len % components != 0 {
        return None;
    }
    let n = len / components;
    if n > i32::MAX as usize {
        return None;
    }
    Some(n as i32)
}

/// Every coordinate of the quad is a corner of clip space, and its values
/// make whole vertices of two components.
pub proof fn lemma_quad_corners()
    ensures
        forall|i: int| 0 <= i < clip_quad().len() ==> (clip_quad()[i] == -1 || clip_quad()[i] == 1),
        vertex_count_of(clip_quad().len() as int, POSITION_COMPONENTS as int) == Some(6int),
{
    assert forall|i: int| 0 <= i < clip_quad().len() implies (clip_quad()[i] == -1 || clip_quad()[i] == 1) by {
        assert(clip_quad().len() == 12);
    }
}

} // verus!
