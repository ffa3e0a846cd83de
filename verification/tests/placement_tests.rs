use libobs_wrapper::display::placement::DisplayPlacement;
use libobs_wrapper::display::ObsDisplayCreationData;

#[test]
fn placement_starts_from_creation_data() {
    let data = ObsDisplayCreationData::new(10, 20, 640, 480);
    let p = DisplayPlacement::new(&data);
    assert!(p.create_child());
    assert_eq!(p.pos(), (10, 20));
    assert_eq!(p.size(), (640, 480));
    assert!(p.is_visible());
    assert!(!p.render_at_bottom());
}

#[test]
fn render_at_bottom_needs_a_child_window() {
    let data = ObsDisplayCreationData::new(0, 0, 100, 100).set_create_child(false);
    let mut p = DisplayPlacement::new(&data);
    p.set_render_at_bottom(true);
    assert!(!p.render_at_bottom());

    let mut c = DisplayPlacement::new(&ObsDisplayCreationData::new(0, 0, 100, 100));
    c.set_render_at_bottom(true);
    assert!(c.render_at_bottom());
    c.set_render_at_bottom(false);
    assert!(!c.render_at_bottom());
}

#[test]
fn position_size_and_visibility_read_back() {
    let mut p = DisplayPlacement::new(&ObsDisplayCreationData::new(1, 2, 3, 4));
    p.set_pos(-5, 7);
    assert_eq!(p.pos(), (-5, 7));
    assert_eq!(p.size(), (3, 4));
    p.set_size(1920, 1080);
    assert_eq!(p.size(), (1920, 1080));
    assert_eq!(p.pos(), (-5, 7));
    p.hide_window();
    assert!(!p.is_visible());
    p.show();
    assert!(p.is_visible());
}
