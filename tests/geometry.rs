use pm_ui::{display_id_or_default, CoordinateBox, GCanvasState, GCoordinateHelper, Object};

#[test]
fn box_corners_follow_origin_and_size() {
    let b = CoordinateBox::new(10, 20, 300, 400);
    assert_eq!((b.x, b.y), (10, 20));
    assert_eq!((b.width, b.height), (300, 400));
    assert_eq!(b.c1, (10, 20));
    assert_eq!(b.c2, (310, 20));
    assert_eq!(b.c3, (10, 420));
    assert_eq!(b.c4, (310, 420));
}

#[test]
fn box_with_negative_origin() {
    let b = CoordinateBox::new(-5, -7, 5, 3);
    assert_eq!(b.c1, (-5, -7));
    assert_eq!(b.c4, (0, -4));
}

#[test]
fn empty_box_has_one_corner() {
    let b = CoordinateBox::new(3, 4, 0, 0);
    assert_eq!(b.c1, (3, 4));
    assert_eq!(b.c2, (3, 4));
    assert_eq!(b.c3, (3, 4));
    assert_eq!(b.c4, (3, 4));
}

#[test]
fn box_reaching_the_largest_coordinate() {
    let b = CoordinateBox::new(0, -1, i32::MAX as u32, 0);
    assert_eq!(b.c4, (i32::MAX, -1));
}

#[test]
fn center_of_full_hd_screen() {
    assert_eq!(GCoordinateHelper::center(1920, 1080), (960, 540));
}

#[test]
fn center_of_odd_screen_rounds_down() {
    assert_eq!(GCoordinateHelper::center(1921, 1081), (960, 540));
    assert_eq!(GCoordinateHelper::center(1, 3), (0, 1));
}

#[test]
fn center_of_largest_screen() {
    assert_eq!(GCoordinateHelper::center(u32::MAX, 0), (i32::MAX, 0));
}

#[test]
fn default_display_is_local() {
    assert_eq!(display_id_or_default(None), ":0");
    assert_eq!(display_id_or_default(Some(":1".to_string())), ":1");
}

#[test]
fn object_holds_given_state() {
    let mut st = GCanvasState::default();
    st.screen_width = 640;
    let o = Object::new_with_state(1, 2, 3, 4, st);
    assert_eq!(o.state.screen_width, 640);
    assert_eq!(o.rect.c4, (4, 6));
    assert!(o.children.is_empty());
}

#[test]
fn object_starts_with_default_state() {
    let o: Object<GCanvasState> = Object::new(0, 0, 10, 10);
    assert_eq!(o.state.screen_width, 0);
    assert_eq!(o.state.wm_protocols, None);
    assert_eq!(o.rect.c2, (10, 0));
    assert!(o.children.is_empty());
}
