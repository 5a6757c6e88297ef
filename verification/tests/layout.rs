use violet_shell::layout::{compute_position, Position, ScreenSize, WindowSpec};

#[test]
fn overlay_spec_holds_the_shell_constants() {
    let w = WindowSpec::overlay();
    assert_eq!(w.width, 800);
    assert_eq!(w.height, 600);
    assert_eq!(w.margin_right, 20);
    assert_eq!(w.margin_bottom, 40);
}

#[test]
fn full_hd_screen_places_overlay_at_1100_440() {
    let screen = ScreenSize { width: 1920, height: 1080 };
    let p = compute_position(screen, WindowSpec::overlay());
    assert_eq!(p, Position { x: 1100, y: 440 });
}

#[test]
fn screen_820_by_640_fits_overlay_exactly_at_origin() {
    let screen = ScreenSize { width: 820, height: 640 };
    let p = compute_position(screen, WindowSpec::overlay());
    assert_eq!(p, Position { x: 0, y: 0 });
}

#[test]
fn screen_800_by_600_places_overlay_off_screen_unclamped() {
    let screen = ScreenSize { width: 800, height: 600 };
    let p = compute_position(screen, WindowSpec::overlay());
    assert_eq!(p, Position { x: -20, y: -40 });
}

#[test]
fn overlay_position_follows_the_margin_formula() {
    let screen = ScreenSize { width: 2560, height: 1440 };
    let p = compute_position(screen, WindowSpec::overlay());
    assert_eq!(p.x, 2560 - 800 - 20);
    assert_eq!(p.y, 1440 - 600 - 40);
}

#[test]
fn custom_window_spec_keeps_its_own_margins() {
    let screen = ScreenSize { width: 1000, height: 900 };
    let window = WindowSpec { width: 300, height: 200, margin_right: 0, margin_bottom: 7 };
    let p = compute_position(screen, window);
    assert_eq!(p, Position { x: 700, y: 693 });
}

#[test]
fn identical_inputs_give_identical_positions() {
    let screen = ScreenSize { width: 1366, height: 768 };
    let first = compute_position(screen, WindowSpec::overlay());
    let second = compute_position(screen, WindowSpec::overlay());
    assert_eq!(first, second);
}
