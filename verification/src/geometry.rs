//! The full-screen quad that both passes draw.

use vstd::prelude::*;

verus! {

/// A corner of the quad in clip space.
#[derive(Clone, Copy, Debug, PartialEq, Eq, Structural)]
pub struct QuadCorner {
    pub x: i8,
    pub y: i8,
}

/// The four corners, counter-clockwise from the bottom left.
pub open spec fn corners() -> Seq<QuadCorner> {
    seq![
        QuadCorner { x: -1i8, y: -1i8 },
        QuadCorner { x: 1i8, y: -1i8 },
        QuadCorner { x: 1i8, y: 1i8 },
        QuadCorner { x: -1i8, y: 1i8 },
    ]
}

/// The two triangles of the quad, as indices into the corners. They share the
/// diagonal from the bottom left to the top right.
pub open spec fn indices() -> Seq<u16> {
    seq![0u16, 1u16, 2u16, 0u16, 2u16, 3u16]
}

/// The four corners of the quad.
pub fn quad_corners() -> (list: Vec<QuadCorner>)
    ensures
        list@ == corners(),
{
    let list = vec![
        QuadCorner { x: -1, y: -1 },
        QuadCorner { x: 1, y: -1 },
        QuadCorner { x: 1, y: 1 },
        QuadCorner { x: -1, y: 1 },
    ];
    assert(list@ =~= corners());
    list
}

/// The six indices of the quad's two triangles.
pub fn quad_indices() -> (list: Vec<u16>)
    ensures
        list@ == indices(),
{
    let list = vec![0u16, 1u16, 2u16, 0u16, 2u16, 3u16];
    assert(list@ =~= indices());
    list
}

/// Every index names a corner, every corner is used, and every corner lies
/// on the edge of clip space, so that the quad covers the whole target.
pub proof fn lemma_quad_is_full_screen()
    ensures
        corners().len() == 4,
        indices().len() == 6,
        forall|i: int| 0 <= i < 6 ==> (#[trigger] indices()[i]) < 4,
        indices().contains(0) && indices().contains(1) && indices().contains(2) && indices().contains(3),
        forall|c: int|
            0 <= c < 4 ==> ((#[trigger] corners()[c]).x == 1 || corners()[c].x == -1) && (corners()[c].y
                == 1 || corners()[c].y == -1),
{
    assert(indices()[0] == 0 && indices()[1] == 1 && indices()[2] == 2 && indices()[5] == 3);
}

} // verus!
