use ghzinga::app::state::Tab;
use ghzinga::input::hit::{hit_test, HitArea, HitTarget, Rect};

#[test]
fn hit_area_includes_top_left_and_excludes_bottom_right() {
    let area = HitArea::new(Rect::new(2, 3, 5, 4), HitTarget::Tab(Tab::Checks));

    assert!(area.contains(2, 3));
    assert!(area.contains(6, 6));
    assert!(!area.contains(7, 6));
    assert!(!area.contains(6, 7));
}

#[test]
fn hit_test_returns_first_matching_target() {
    let areas = vec![HitArea::new(
        Rect::new(0, 0, 10, 1),
        HitTarget::Tab(Tab::Files),
    )];

    assert_eq!(hit_test(&areas, 4, 0), Some(HitTarget::Tab(Tab::Files)));
}

#[test]
fn hit_test_prefers_the_first_area_and_misses_outside() {
    let areas = vec![
        HitArea::new(Rect::new(0, 0, 10, 2), HitTarget::Refresh),
        HitArea::new(Rect::new(0, 0, 10, 2), HitTarget::Quit),
    ];

    assert_eq!(hit_test(&areas, 9, 1), Some(HitTarget::Refresh));
    assert_eq!(hit_test(&areas, 10, 1), None);
    assert!(HitTarget::OpenUrl("u".into()).is_content_action());
    assert!(!HitTarget::Refresh.is_content_action());
}

#[test]
fn hit_area_saturates_at_the_screen_edge() {
    let area = HitArea::new(Rect::new(u16::MAX - 1, 0, 5, 1), HitTarget::Help);

    assert!(area.contains(u16::MAX - 1, 0));
    assert!(!area.contains(u16::MAX, 0));
}
