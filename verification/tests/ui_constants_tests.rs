use pantryman_linux::ui_constants::{
    DEFAULT_MARGIN, DEFAULT_WINDOW_HEIGHT, DEFAULT_WINDOW_WIDTH, LIST_PANE_WIDTH, ROW_SPACING,
    SECTION_SPACING, SIDEBAR_WIDTH,
};

#[test]
fn default_margin_is_positive() {
    assert!(DEFAULT_MARGIN > 0);
}

#[test]
fn section_spacing_is_positive() {
    assert!(SECTION_SPACING > 0);
}

#[test]
fn window_dimensions_are_sensible() {
    assert!(DEFAULT_WINDOW_WIDTH >= 800);
    assert!(DEFAULT_WINDOW_HEIGHT >= 600);
    assert!(LIST_PANE_WIDTH > 0);
    assert!(SIDEBAR_WIDTH > 0);
}

#[test]
fn constants_have_their_values() {
    assert_eq!(DEFAULT_MARGIN, 12);
    assert_eq!(SECTION_SPACING, 12);
    assert_eq!(ROW_SPACING, 6);
    assert_eq!(SIDEBAR_WIDTH, 220);
    assert_eq!(LIST_PANE_WIDTH, 280);
    assert_eq!(DEFAULT_WINDOW_WIDTH, 1200);
    assert_eq!(DEFAULT_WINDOW_HEIGHT, 720);
}
