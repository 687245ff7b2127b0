//! Configuration and state logic of an egui test harness and of the egui widget gallery
//! demo, with the window, GPU and drawing calls kept outside.
//!
//! - [`builder`]: the settings a test harness is built with, headful mode and the
//!   `KITTEST_HEADFUL` override.
//! - [`gallery`]: the widget gallery's state and how its widgets' reports change it.
//! - [`doc_link`]: the docs.rs links of the gallery's labels.
//! - [`surface`]: the size of a headful window's surface and what to do when it cannot
//!   be drawn to.
//! - [`float_bits`], [`time_span`]: `f32` values as bit patterns, and spans of time.
pub mod builder;
pub mod doc_link;
pub mod float_bits;
pub mod gallery;
pub mod surface;
pub mod time_span;

pub use builder::{
    EnvOverride, HarnessBuilder, OperatingSystem, Renderer, Theme, Vec2, DEFAULT_HEIGHT_BITS,
    DEFAULT_MAX_STEPS, DEFAULT_STEP_DT_BITS, DEFAULT_WIDTH_BITS, HEADFUL_MAX_STEPS,
    HEADFUL_PAUSE_MILLIS, HEADFUL_STEP_DT_BITS, ONE_BITS,
};
pub use doc_link::{doc_link_url, doc_link_url_with_crate};
pub use float_bits::FloatBits;
pub use gallery::{
    Color32, Enum, GalleryEvent, GridScope, WidgetGallery, DEFAULT_SCALAR_BITS,
    FULL_OPACITY_BITS,
};
pub use surface::{present_step, PresentStep, SurfaceOutcome, SurfaceSize};
pub use time_span::{TimeSpan, NANOS_PER_SEC};
