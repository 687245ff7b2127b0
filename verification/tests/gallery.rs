use egui_kittest::{Color32, Enum, FloatBits, GalleryEvent, WidgetGallery};

fn bits(x: f32) -> FloatBits {
    FloatBits::from_bits(x.to_bits())
}

fn value(x: FloatBits) -> f32 {
    f32::from_bits(x.to_bits())
}

#[test]
fn text_edit() {
    let mut gallery = WidgetGallery::default();
    gallery.handle(GalleryEvent::TextEdited("Hello".to_owned()));
    assert_eq!(gallery.string.as_str(), "Hello");
}

#[test]
fn button_click() {
    let mut gallery = WidgetGallery::default();
    assert!(!gallery.boolean);
    gallery.handle(GalleryEvent::ButtonClicked);
    assert!(gallery.boolean);
}

#[test]
fn link_click() {
    let mut gallery = WidgetGallery::default();
    gallery.handle(GalleryEvent::LinkClicked);
    assert!(gallery.boolean);
}

#[test]
fn checkbox_toggle() {
    let mut gallery = WidgetGallery::default();
    assert!(!gallery.boolean);
    gallery.handle(GalleryEvent::CheckboxClicked);
    assert!(gallery.boolean);
    gallery.handle(GalleryEvent::CheckboxClicked);
    assert!(!gallery.boolean);
}

#[test]
fn radio_button() {
    let mut gallery = WidgetGallery::default();
    assert_eq!(gallery.radio, Enum::First);
    gallery.handle(GalleryEvent::RadioClicked(Enum::Second));
    assert_eq!(gallery.radio, Enum::Second);
    assert_ne!(gallery.radio, Enum::First);
    gallery.handle(GalleryEvent::RadioClicked(Enum::Third));
    assert_eq!(gallery.radio, Enum::Third);
}

#[test]
fn selectable_label() {
    let mut gallery = WidgetGallery::default();
    gallery.handle(GalleryEvent::SelectableClicked(Enum::Second));
    assert_eq!(gallery.radio, Enum::Second);
}

#[test]
fn combo_box() {
    let mut gallery = WidgetGallery::default();
    gallery.handle(GalleryEvent::ComboBoxItemClicked(Enum::Third));
    assert_eq!(gallery.radio, Enum::Third);
}

#[test]
fn slider() {
    let mut gallery = WidgetGallery::default();
    let initial_value = value(gallery.scalar);
    assert!((f64::from(initial_value) - 42.0).abs() < f64::EPSILON);
    // A click at 75% of the slider's 0..=360 range.
    gallery.handle(GalleryEvent::SliderMoved(bits(0.75 * 360.0)));
    let new_value = value(gallery.scalar);
    assert!(
        (new_value - initial_value).abs() > 10.0,
        "Slider value should have changed, got {new_value}"
    );
}

#[test]
fn drag_value() {
    let mut gallery = WidgetGallery::default();
    assert_eq!(value(gallery.scalar), 42.0);
    gallery.handle(GalleryEvent::DragValueChanged(bits(100.0)));
    assert!(value(gallery.scalar) == 100.0, "DragValue should be 100 after typing");
}

#[test]
fn toggle_switch() {
    let mut gallery = WidgetGallery::default();
    gallery.handle(GalleryEvent::ToggleSwitchClicked);
    assert!(gallery.boolean);
}

#[test]
fn image_button_click() {
    let mut gallery = WidgetGallery::default();
    gallery.handle(GalleryEvent::ImageButtonClicked);
    assert!(gallery.boolean);
}

#[test]
fn visible_checkbox() {
    let mut gallery = WidgetGallery::default();
    assert!(gallery.visible);
    gallery.handle(GalleryEvent::VisibleClicked);
    assert!(!gallery.visible);
}

#[test]
fn interactive_checkbox() {
    let mut gallery = WidgetGallery::default();
    assert!(gallery.enabled);
    gallery.handle(GalleryEvent::InteractiveClicked);
    assert!(!gallery.enabled);
}

#[test]
fn default_gallery_matches_the_demo() {
    let gallery = WidgetGallery::default();
    assert!(gallery.enabled && gallery.visible);
    assert_eq!(value(gallery.opacity), 1.0);
    assert!(!gallery.animate_progress_bar);
    assert!(gallery.date.is_none());
    assert!(gallery.with_date_button);
    assert!(gallery.string.is_empty());
    let expected = egui::Color32::LIGHT_BLUE.linear_multiply(0.5).to_array();
    let c = gallery.color;
    assert_eq!([c.r, c.g, c.b, c.a], expected);
    assert_eq!(c, Color32::default_gallery());
}

#[test]
fn gallery_name() {
    let gallery = WidgetGallery::default();
    assert_eq!(gallery.name(), "\u{1F5C4} Widget Gallery");
}

#[test]
fn two_clicks_on_different_widgets_restore() {
    let mut gallery = WidgetGallery::default();
    gallery.handle(GalleryEvent::ImageButtonClicked);
    gallery.handle(GalleryEvent::LinkClicked);
    assert!(!gallery.boolean);
    assert_eq!(gallery.radio, Enum::First);
}

#[test]
fn hiding_hides_interactive_controls() {
    let mut gallery = WidgetGallery::default();
    assert!(gallery.shows_interactive_controls());
    let scope = gallery.grid_scope();
    assert!(!scope.disabled && !scope.invisible);
    gallery.handle(GalleryEvent::VisibleClicked);
    assert!(!gallery.shows_interactive_controls());
    assert!(gallery.grid_scope().invisible);
    gallery.handle(GalleryEvent::VisibleClicked);
    gallery.handle(GalleryEvent::InteractiveClicked);
    assert!(gallery.grid_scope().disabled);
    assert!(!gallery.grid_scope().invisible);
}

#[test]
fn other_widgets_set_their_values() {
    let mut gallery = WidgetGallery::default();
    gallery.handle(GalleryEvent::ProgressBarHovered(true));
    assert!(gallery.animate_progress_bar);
    gallery.handle(GalleryEvent::ProgressBarHovered(false));
    assert!(!gallery.animate_progress_bar);
    let red = Color32 { r: 255, g: 0, b: 0, a: 255 };
    gallery.handle(GalleryEvent::ColorPicked(red));
    assert_eq!(gallery.color, red);
    gallery.handle(GalleryEvent::OpacityChanged(bits(0.5)));
    assert_eq!(value(gallery.opacity), 0.5);
    assert!(!gallery.boolean);
}

#[test]
fn date_is_filled_once() {
    let mut gallery = WidgetGallery::default();
    let first = chrono::NaiveDate::from_ymd_opt(2024, 5, 17).unwrap();
    let later = chrono::NaiveDate::from_ymd_opt(2025, 1, 2).unwrap();
    gallery.fill_date(first);
    assert_eq!(gallery.date, Some(first));
    gallery.fill_date(later);
    assert_eq!(gallery.date, Some(first));
    gallery.handle(GalleryEvent::DatePicked(later));
    assert_eq!(gallery.date, Some(later));
}

#[test]
fn date_not_filled_without_button() {
    let mut gallery = WidgetGallery::default().with_date_button(false);
    assert!(!gallery.with_date_button);
    gallery.fill_date(chrono::NaiveDate::from_ymd_opt(2024, 5, 17).unwrap());
    assert!(gallery.date.is_none());
    gallery.prepare_date();
    assert!(gallery.date.is_none());
}

#[test]
fn prepare_date_reads_today() {
    let mut gallery = WidgetGallery::default();
    let before = chrono::Utc::now().date_naive();
    gallery.prepare_date();
    let after = chrono::Utc::now().date_naive();
    let date = gallery.date.unwrap();
    assert!(before <= date && date <= after);
    let picked = chrono::NaiveDate::from_ymd_opt(2001, 2, 3).unwrap();
    gallery.handle(GalleryEvent::DatePicked(picked));
    gallery.prepare_date();
    assert_eq!(gallery.date, Some(picked));
}

#[test]
fn date_from_clock_reading() {
    let mut gallery = WidgetGallery::default();
    gallery.fill_date_from_clock(None);
    assert!(gallery.date.is_none());
    gallery.fill_date_from_clock(Some((0, 0)));
    assert_eq!(gallery.date, chrono::NaiveDate::from_ymd_opt(1970, 1, 1));

    let mut gallery = WidgetGallery::default();
    gallery.fill_date_from_clock(Some((1_700_000_000, 123_456_789)));
    let expected = chrono::DateTime::from_timestamp(1_700_000_000, 0).unwrap().date_naive();
    assert_eq!(gallery.date, Some(expected));
    assert_eq!(gallery.date, chrono::NaiveDate::from_ymd_opt(2023, 11, 14));
    // A later reading keeps the date already there.
    gallery.fill_date_from_clock(Some((1_800_000_000, 0)));
    assert_eq!(gallery.date, Some(expected));

    let mut gallery = WidgetGallery::default();
    gallery.fill_date_from_clock(Some((86_399, 999_999_999)));
    assert_eq!(gallery.date, chrono::NaiveDate::from_ymd_opt(1970, 1, 1));
    gallery = WidgetGallery::default();
    gallery.fill_date_from_clock(Some((86_400, 0)));
    assert_eq!(gallery.date, chrono::NaiveDate::from_ymd_opt(1970, 1, 2));
    gallery = WidgetGallery::default();
    gallery.fill_date_from_clock(Some((8_000_000_000_000, 0)));
    assert!(gallery.date.is_some());
}

#[test]
fn date_from_clock_out_of_range() {
    let mut gallery = WidgetGallery::default();
    gallery.fill_date_from_clock(Some((u64::MAX, 0)));
    assert!(gallery.date.is_none());
    gallery.fill_date_from_clock(Some((i64::MAX as u64, 0)));
    assert!(gallery.date.is_none());
    gallery.fill_date_from_clock(Some((10, 2_000_000_000)));
    assert!(gallery.date.is_none());
    let mut gallery = WidgetGallery::default().with_date_button(false);
    gallery.fill_date_from_clock(Some((0, 0)));
    assert!(gallery.date.is_none());
}
