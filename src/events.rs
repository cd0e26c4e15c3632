//! Per-frame decisions: which casts a click asks for, and which debug colour
//! each body in a collision event is painted with.
use vstd::prelude::*;
use crate::pick::{cast_outcome, cast_request, CastError, NdcPoint, Pixel, Viewport};

verus! {

/// Whether two colliders began or ceased to touch.
#[derive(Clone, Copy, Debug, PartialEq, Eq, Structural)]
pub enum CollisionKind {
    Started,
    Stopped,
}

/// A collision event between two bodies, each named by its entity id.
#[derive(Clone, Copy, Debug, PartialEq, Eq, Structural)]
pub struct CollisionRecord {
    pub kind: CollisionKind,
    pub first: u64,
    pub second: u64,
}

/// The colour that the debug renderer draws a collider with.
#[derive(Clone, Copy, Debug, PartialEq, Eq, Structural)]
pub enum DebugColor {
    Yellow,
    Blue,
}

/// An order to draw the collider of `entity` in `color`.
#[derive(Clone, Copy, Debug, PartialEq, Eq, Structural)]
pub struct Paint {
    pub entity: u64,
    pub color: DebugColor,
}

/// Bodies that start touching turn yellow; bodies that part turn blue.
pub open spec fn color_of(kind: CollisionKind) -> DebugColor {
    match kind {
        CollisionKind::Started => DebugColor::Yellow,
        CollisionKind::Stopped => DebugColor::Blue,
    }
}

/// The two paints that one event gives: its first body, then its second.
pub open spec fn paints_of(e: CollisionRecord) -> Seq<Paint> {
    seq![
        Paint { entity: e.first, color: color_of(e.kind) },
        Paint { entity: e.second, color: color_of(e.kind) },
    ]
}

/// The paints of a sequence of events, in the order of the events.
pub open spec fn all_paints(events: Seq<CollisionRecord>) -> Seq<Paint>
    decreases events.len(),
{
    if events.len() == 0 {
        Seq::empty()
    } else {
        all_paints(events.drop_last()) + paints_of(events.last())
    }
}

/// The debug colour for a kind of collision event.
pub fn debug_color(kind: CollisionKind) -> (r: DebugColor)
    ensures
        r == color_of(kind),
{
    match kind {
        CollisionKind::Started => DebugColor::Yellow,
        CollisionKind::Stopped => DebugColor::Blue,
    }
}

/// The paints for a frame's collision events: for each event in turn, its
/// first body and then its second, in the colour of the event's kind.
pub fn collision_paints(events: &Vec<CollisionRecord>) -> (r: Vec<Paint>)
    requires
        2 * events@.len() <= usize::MAX,
    ensures
        r@ == all_paints(events@),
        r@.len() == 2 * events@.len(),
        forall|i: int| 0 <= i < events@.len() ==> {
            &&& #[trigger] r@[2 * i] == Paint { entity: events@[i].first, color: color_of(events@[i].kind) }
            &&& r@[2 * i + 1] == Paint { entity: events@[i].second, color: color_of(events@[i].kind) }
        },
{
    let mut r: Vec<Paint> = Vec::new();
    let mut n: usize = 0;
    while n < events.len()
        invariant
            n <= events@.len(),
            r@ == all_paints(events@.subrange(0, n as int)),
            r@.len() == 2 * n,
            forall|i: int| 0 <= i < n ==> {
                &&& #[trigger] r@[2 * i] == Paint { entity: events@[i].first, color: color_of(events@[i].kind) }
                &&& r@[2 * i + 1] == Paint { entity: events@[i].second, color: color_of(events@[i].kind) }
            },
        decreases events@.len() - n,
    {
        let e = events[n];
        let color = debug_color(e.kind);
        r.push(Paint { entity: e.first, color });
        r.push(Paint { entity: e.second, color });
        proof {
            let next = events@.subrange(0, n + 1);
            assert(next.drop_last() =~= events@.subrange(0, n as int));
            assert(next.last() == e);
        }
        n = n + 1;
    }
    assert(events@.subrange(0, n as int) =~= events@);
    r
}

/// The casts that one frame asks for: none unless the primary button was just
/// pressed; else one per camera, in the order of the cameras, each decided by
/// `cast_request` with that camera's invertibility.
pub open spec fn frame_casts(
    just_pressed: bool,
    v: Viewport,
    cursor: Option<Pixel>,
    cameras_invertible: Seq<bool>,
) -> Seq<Result<NdcPoint, CastError>> {
    if just_pressed {
        Seq::new(cameras_invertible.len(), |i: int| cast_outcome(v, cursor, cameras_invertible[i]))
    } else {
        Seq::empty()
    }
}

/// The cast decisions of one frame, one for each camera when the primary
/// button was just pressed and none otherwise.
pub fn casts_for_frame(
    just_pressed: bool,
    v: Viewport,
    cursor: Option<Pixel>,
    cameras_invertible: &Vec<bool>,
) -> (r: Vec<Result<NdcPoint, CastError>>)
    ensures
        r@ == frame_casts(just_pressed, v, cursor, cameras_invertible@),
        !just_pressed ==> r@.len() == 0,
        just_pressed ==> r@.len() == cameras_invertible@.len(),
{
    let mut r: Vec<Result<NdcPoint, CastError>> = Vec::new();
    if !just_pressed {
        assert(r@ =~= frame_casts(just_pressed, v, cursor, cameras_invertible@));
        return r;
    }
    let mut n: usize = 0;
    while n < cameras_invertible.len()
        invariant
            n <= cameras_invertible@.len(),
            r@.len() == n,
            forall|i: int| 0 <= i < n ==> #[trigger] r@[i] == cast_outcome(v, cursor, cameras_invertible@[i]),
        decreases cameras_invertible@.len() - n,
    {
        let c = cast_request(v, cursor, cameras_invertible[n]);
        r.push(c);
        n = n + 1;
    }
    assert(r@ =~= frame_casts(just_pressed, v, cursor, cameras_invertible@));
    r
}

} // verus!
