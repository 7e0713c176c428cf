use waycorner::corner::CornerEvent;
use waycorner::corner::CornerMotionEvent;
use waycorner::router::PointerSample;
use waycorner::router::Router;

fn two_zone_router() -> Router {
    // Zone 0 owns regions 10 and 11; zone 1 owns regions 20 and 10 (10 is
    // shared, and the earlier zone keeps priority).
    Router::new(vec![vec![10, 11], vec![20, 10]])
}

#[test]
fn enter_routes_to_owner_and_records_hover() {
    let mut router = two_zone_router();
    assert_eq!(router.route(PointerSample::Enter(20), 5), Some((1, CornerEvent::Enter)));
    assert_eq!(router.hovered, Some(20));
}

#[test]
fn first_zone_wins_a_shared_region() {
    let mut router = two_zone_router();
    assert_eq!(router.route(PointerSample::Enter(10), 5), Some((0, CornerEvent::Enter)));
}

#[test]
fn unknown_region_is_dropped_silently() {
    let mut router = two_zone_router();
    assert_eq!(router.route(PointerSample::Enter(99), 5), None);
    assert_eq!(router.hovered, Some(99));
    assert_eq!(router.route(PointerSample::Leave(99), 6), None);
    assert_eq!(router.hovered, None);
}

#[test]
fn motion_goes_to_the_hovered_zone_with_receipt_time() {
    let mut router = two_zone_router();
    router.route(PointerSample::Enter(11), 5);
    assert_eq!(
        router.route(PointerSample::Motion { surface_x: 3, surface_y: -4 }, 42),
        Some((
            0,
            CornerEvent::Motion(CornerMotionEvent { time_ms: 42, surface_x: 3, surface_y: -4 })
        ))
    );
    // Hover bookkeeping is untouched by motion.
    assert_eq!(router.hovered, Some(11));
}

#[test]
fn motion_with_nothing_hovered_is_dropped() {
    let mut router = two_zone_router();
    assert_eq!(router.route(PointerSample::Motion { surface_x: 0, surface_y: 0 }, 1), None);
}

#[test]
fn leave_clears_hover_only_for_the_same_region() {
    let mut router = two_zone_router();
    router.route(PointerSample::Enter(11), 5);
    assert_eq!(router.route(PointerSample::Leave(20), 6), Some((1, CornerEvent::Leave)));
    assert_eq!(router.hovered, Some(11));
    assert_eq!(router.route(PointerSample::Leave(11), 7), Some((0, CornerEvent::Leave)));
    assert_eq!(router.hovered, None);
}

#[test]
fn bindings_follow_outputs() {
    let mut router = Router::new(vec![vec![10], Vec::new()]);
    router.add_regions(1, vec![30, 31]);
    assert_eq!(router.route(PointerSample::Enter(31), 1), Some((1, CornerEvent::Enter)));
    router.clear_zone(1);
    assert_eq!(router.route(PointerSample::Enter(31), 2), None);
    assert_eq!(router.route(PointerSample::Enter(10), 3), Some((0, CornerEvent::Enter)));
}
