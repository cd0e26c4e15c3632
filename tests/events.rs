use sandbox_pick::events::{casts_for_frame, collision_paints, debug_color, CollisionKind, CollisionRecord, DebugColor, Paint};
use sandbox_pick::pick::{CastError, NdcPoint, Pixel, Viewport};

#[test]
fn kinds_have_their_colours() {
    assert_eq!(debug_color(CollisionKind::Started), DebugColor::Yellow);
    assert_eq!(debug_color(CollisionKind::Stopped), DebugColor::Blue);
}

#[test]
fn paints_follow_events_in_order() {
    let events = vec![
        CollisionRecord { kind: CollisionKind::Started, first: 4, second: 7 },
        CollisionRecord { kind: CollisionKind::Stopped, first: 7, second: 2 },
    ];
    let paints = collision_paints(&events);
    assert_eq!(
        paints,
        vec![
            Paint { entity: 4, color: DebugColor::Yellow },
            Paint { entity: 7, color: DebugColor::Yellow },
            Paint { entity: 7, color: DebugColor::Blue },
            Paint { entity: 2, color: DebugColor::Blue },
        ]
    );
}

#[test]
fn no_events_no_paints() {
    assert!(collision_paints(&Vec::new()).is_empty());
}

#[test]
fn no_click_no_casts() {
    let v = Viewport { width: 800, height: 600 };
    assert!(casts_for_frame(false, v, Some(Pixel { x: 1, y: 2 }), &vec![true, true]).is_empty());
}

#[test]
fn click_casts_once_per_camera() {
    let v = Viewport { width: 800, height: 600 };
    let casts = casts_for_frame(true, v, Some(Pixel { x: 400, y: 300 }), &vec![true, false]);
    assert_eq!(
        casts,
        vec![
            Ok(NdcPoint { x_num: 0, x_den: 800, y_num: 0, y_den: 600 }),
            Err(CastError::DegenerateCamera),
        ]
    );
}
