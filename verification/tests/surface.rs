use egui_kittest::{present_step, PresentStep, SurfaceOutcome, SurfaceSize};

#[test]
fn surface_has_at_least_one_pixel() {
    assert_eq!(SurfaceSize::for_window(0, 0), SurfaceSize { width: 1, height: 1 });
    assert_eq!(SurfaceSize::for_window(800, 0), SurfaceSize { width: 800, height: 1 });
    assert_eq!(SurfaceSize::for_window(1024, 768), SurfaceSize { width: 1024, height: 768 });
}

#[test]
fn resize_reconfigures_only_on_change() {
    let mut size = SurfaceSize::for_window(800, 600);
    assert!(!size.resize(800, 600));
    assert!(size.resize(1024, 600));
    assert_eq!(size, SurfaceSize { width: 1024, height: 600 });
    assert!(!size.resize(1024, 600));
    assert!(size.resize(0, 0));
    assert_eq!(size, SurfaceSize { width: 1, height: 1 });
    assert!(!size.resize(1, 0));
}

#[test]
fn outdated_surface_is_retried_once() {
    assert_eq!(present_step(SurfaceOutcome::Acquired, false), PresentStep::Draw);
    assert_eq!(present_step(SurfaceOutcome::Acquired, true), PresentStep::Draw);
    assert_eq!(present_step(SurfaceOutcome::Outdated, false), PresentStep::Retry);
    assert_eq!(present_step(SurfaceOutcome::Outdated, true), PresentStep::Skip);
    assert_eq!(present_step(SurfaceOutcome::Failed, false), PresentStep::Skip);
    assert_eq!(present_step(SurfaceOutcome::Failed, true), PresentStep::Skip);
}
