use picographics::Error;
use picographics::PicoGraphics;
use picographics::PicoGraphicsBusType;
use picographics::PicoGraphicsDisplay;
use picographics::Rotation;
use picographics::pen::PicoGraphicsPenType;

fn fresh_context() -> PicoGraphics {
    PicoGraphics::new(PicoGraphicsDisplay::DisplayPicoDisplay, None, None, None)
}

#[test]
fn fresh_context_reports_display_profile() {
    let g = fresh_context();
    let (valid, width, height, rotation, bus) = g.get_display_settings();
    assert!(valid);
    assert_eq!(width, 240);
    assert_eq!(height, 135);
    assert_eq!(rotation, Rotation::Rotate270);
    assert_eq!(bus, PicoGraphicsBusType::BusSpi);
}

#[test]
fn unspecified_rotation_resolves_to_display_default() {
    let g = fresh_context();
    let (_, _, _, rotation, _) = g.get_display_settings();
    assert_eq!(rotation, Rotation::Rotate270);
}

#[test]
fn explicit_rotation_is_kept_unchanged() {
    let g = PicoGraphics::new(
        PicoGraphicsDisplay::DisplayPicoDisplay,
        Some(Rotation::Rotate90),
        None,
        None,
    );
    let (_, _, _, rotation, _) = g.get_display_settings();
    assert_eq!(rotation, Rotation::Rotate90);

    let g0 = PicoGraphics::new(
        PicoGraphicsDisplay::DisplayPicoDisplay,
        Some(Rotation::Rotate0),
        None,
        None,
    );
    let (_, _, _, rotation0, _) = g0.get_display_settings();
    assert_eq!(rotation0, Rotation::Rotate0);
}

#[test]
fn explicit_bus_and_pen_type_accepted() {
    let g = PicoGraphics::new(
        PicoGraphicsDisplay::DisplayPicoDisplay,
        None,
        Some(PicoGraphicsBusType::BusSpi),
        Some(PicoGraphicsPenType::PenRgb565),
    );
    let (valid, _, _, _, bus) = g.get_display_settings();
    assert!(valid);
    assert_eq!(bus, PicoGraphicsBusType::BusSpi);
}

#[test]
fn initial_color_is_encoded_black() {
    let g = fresh_context();
    assert_eq!(g.current_color(), 0x0000);
    assert_eq!(g.current_color(), g.create_pen(0, 0, 0));
}

#[test]
fn create_pen_leaves_context_untouched() {
    let g = fresh_context();
    let before_settings = g.get_display_settings();
    let before_color = g.current_color();
    let _ = g.create_pen(12, 34, 56);
    let _ = g.create_pen(255, 255, 255);
    assert_eq!(g.get_display_settings(), before_settings);
    assert_eq!(g.current_color(), before_color);
}

#[test]
fn set_pen_replaces_current_color_only() {
    let mut g = fresh_context();
    let before_settings = g.get_display_settings();
    let white = g.create_pen(255, 255, 255);
    g.set_pen(white);
    assert_eq!(g.current_color(), 0xFFFF);
    assert_eq!(g.get_display_settings(), before_settings);
}

#[test]
fn set_pen_accepts_any_raw_value() {
    let mut g = fresh_context();
    g.set_pen(0xBEEF);
    assert_eq!(g.current_color(), 0xBEEF);
}

#[test]
fn backlight_rejects_out_of_range_requests() {
    let g = fresh_context();
    assert_eq!(g.set_backlight(-10), Err(Error::BrightnessOutOfRange));
    assert_eq!(g.set_backlight(1010), Err(Error::BrightnessOutOfRange));
    assert_eq!(g.set_backlight(i32::MIN), Err(Error::BrightnessOutOfRange));
    assert_eq!(g.set_backlight(i32::MAX), Err(Error::BrightnessOutOfRange));
}

#[test]
fn backlight_accepts_full_range_inclusive() {
    let g = fresh_context();
    assert_eq!(g.set_backlight(0), Ok(()));
    assert_eq!(g.set_backlight(1000), Ok(()));
    assert_eq!(g.set_backlight(800), Ok(()));
}

#[test]
fn backlight_rejection_has_no_side_effects() {
    let g = fresh_context();
    let before_settings = g.get_display_settings();
    let before_color = g.current_color();
    let _ = g.set_backlight(-10);
    let _ = g.set_backlight(1010);
    assert_eq!(g.get_display_settings(), before_settings);
    assert_eq!(g.current_color(), before_color);
}

#[test]
fn clear_and_rectangle_leave_state_alone() {
    let mut g = fresh_context();
    let red = g.create_pen(255, 0, 0);
    g.set_pen(red);
    g.clear();
    g.rectangle(0, 0, 10, 10);
    assert_eq!(g.current_color(), 0xF800);
    let (valid, width, height, _, _) = g.get_display_settings();
    assert!(valid);
    assert_eq!((width, height), (240, 135));
}
