//! The state of the widget gallery demo and how the widgets' reports change it.
use vstd::prelude::*;
use chrono::NaiveDate;
use crate::float_bits::FloatBits;

verus! {

#[verifier::external_type_specification]
#[verifier::external_body]
pub struct ExNaiveDate(chrono::NaiveDate);

/// The three choices of the radio buttons, selectable labels and combo box.
#[derive(Clone, Copy, Debug, PartialEq, Eq, Structural)]
pub enum Enum {
    First,
    Second,
    Third,
}

/// A colour with premultiplied alpha, in gamma space, one byte per channel.
#[derive(Clone, Copy, Debug, PartialEq, Eq, Structural)]
pub struct Color32 {
    pub r: u8,
    pub g: u8,
    pub b: u8,
    pub a: u8,
}

/// `42.0` as an `f32`.
pub const DEFAULT_SCALAR_BITS: u32 = 0x4228_0000;

/// `1.0` as an `f32`.
pub const FULL_OPACITY_BITS: u32 = 0x3F80_0000;

impl Color32 {
    /// Light blue (`#ADD8E6`) at half strength in linear space (premultiplied), the
    /// gallery's initial colour.
    pub open spec fn default_gallery_spec() -> Color32 {
        Color32 { r: 87, g: 108, b: 115, a: 128 }
    }

    /// Light blue (`#ADD8E6`) at half strength in linear space (premultiplied), the
    /// gallery's initial colour.
    pub fn default_gallery() -> (r: Color32)
        ensures
            r == Self::default_gallery_spec(),
    {
        Color32 { r: 87, g: 108, b: 115, a: 128 }
    }
}

/// What one of the gallery's widgets reported in a frame.
#[derive(Debug)]
pub enum GalleryEvent {
    /// The text edit now holds this text.
    TextEdited(String),
    /// The "Click me!" button was clicked.
    ButtonClicked,
    /// The "Click me!" link was clicked.
    LinkClicked,
    /// The "Checkbox" checkbox was clicked.
    CheckboxClicked,
    /// One of the radio buttons was clicked.
    RadioClicked(Enum),
    /// One of the selectable labels was clicked.
    SelectableClicked(Enum),
    /// One of the combo box's items was clicked.
    ComboBoxItemClicked(Enum),
    /// The slider now shows this value.
    SliderMoved(FloatBits),
    /// The drag value now shows this value.
    DragValueChanged(FloatBits),
    /// Whether the pointer hovers the progress bar in this frame.
    ProgressBarHovered(bool),
    /// The colour picker now shows this colour.
    ColorPicked(Color32),
    /// The button with an image was clicked.
    ImageButtonClicked,
    /// The date picker now shows this date.
    DatePicked(NaiveDate),
    /// The custom toggle switch was clicked.
    ToggleSwitchClicked,
    /// The "Visible" checkbox was clicked.
    VisibleClicked,
    /// The "Interactive" checkbox was clicked.
    InteractiveClicked,
    /// The opacity drag value now shows this value.
    OpacityChanged(FloatBits),
}

/// How the grid of widgets is drawn in a frame.
#[derive(Clone, Copy, Debug, PartialEq, Eq, Structural)]
pub struct GridScope {
    /// The widgets are shown greyed out and do not respond.
    pub disabled: bool,
    /// The widgets take their space but are not shown.
    pub invisible: bool,
}

/// Shows off one example of each major type of widget.
pub struct WidgetGallery {
    pub enabled: bool,
    pub visible: bool,
    pub boolean: bool,
    pub opacity: FloatBits,
    pub radio: Enum,
    pub scalar: FloatBits,
    pub string: String,
    pub color: Color32,
    pub animate_progress_bar: bool,
    pub date: Option<NaiveDate>,
    pub with_date_button: bool,
}

impl GalleryEvent {
    /// Clicks on these widgets all flip the gallery's one boolean.
    pub open spec fn flips_boolean(self) -> bool {
        ||| self is ButtonClicked
        ||| self is LinkClicked
        ||| self is CheckboxClicked
        ||| self is ImageButtonClicked
        ||| self is ToggleSwitchClicked
    }
}

impl WidgetGallery {
    /// The gallery after `event`.
    pub open spec fn after(self, event: GalleryEvent) -> WidgetGallery {
        match event {
            GalleryEvent::TextEdited(text) => WidgetGallery { string: text, ..self },
            GalleryEvent::ButtonClicked => WidgetGallery { boolean: !self.boolean, ..self },
            GalleryEvent::LinkClicked => WidgetGallery { boolean: !self.boolean, ..self },
            GalleryEvent::CheckboxClicked => WidgetGallery { boolean: !self.boolean, ..self },
            GalleryEvent::RadioClicked(choice) => WidgetGallery { radio: choice, ..self },
            GalleryEvent::SelectableClicked(choice) => WidgetGallery { radio: choice, ..self },
            GalleryEvent::ComboBoxItemClicked(choice) => WidgetGallery { radio: choice, ..self },
            GalleryEvent::SliderMoved(value) => WidgetGallery { scalar: value, ..self },
            GalleryEvent::DragValueChanged(value) => WidgetGallery { scalar: value, ..self },
            GalleryEvent::ProgressBarHovered(hovered) => WidgetGallery {
                animate_progress_bar: hovered,
                ..self
            },
            GalleryEvent::ColorPicked(color) => WidgetGallery { color, ..self },
            GalleryEvent::ImageButtonClicked => WidgetGallery { boolean: !self.boolean, ..self },
            GalleryEvent::DatePicked(date) => WidgetGallery { date: Some(date), ..self },
            GalleryEvent::ToggleSwitchClicked => WidgetGallery { boolean: !self.boolean, ..self },
            GalleryEvent::VisibleClicked => WidgetGallery { visible: !self.visible, ..self },
            GalleryEvent::InteractiveClicked => WidgetGallery { enabled: !self.enabled, ..self },
            GalleryEvent::OpacityChanged(value) => WidgetGallery { opacity: value, ..self },
        }
    }
}

/// The last reading of the clock, in whole seconds since 1970-01-01 00:00 UTC, that
/// [`utc_date_of_unix_time`] is stated to turn into a date (an instant in about the year
/// 255,000).
pub const LAST_STATED_UNIX_SECS: u64 = 8_000_000_000_000;

/// `std::time::UNIX_EPOCH.elapsed()`: how long ago, by the system clock, 1970-01-01 00:00
/// UTC was, as whole seconds and the nanoseconds beyond them; `None` when the clock reads
/// an earlier time.
///
/// What comes back depends on the clock, so only the documented bound of
/// `Duration::subsec_nanos` is stated.
#[verifier::external_body]
fn clock_since_unix_epoch() -> (r: Option<(u64, u32)>)
    ensures
        r matches Some((_, nanos)) ==> nanos < 1_000_000_000,
{
    match std::time::UNIX_EPOCH.elapsed() {
        Ok(elapsed) => Some((elapsed.as_secs(), elapsed.subsec_nanos())),
        Err(_) => None,
    }
}

/// The UTC date that chrono gives for the instant `secs` seconds and `nanos` nanoseconds
/// after 1970-01-01 00:00 UTC (`DateTime::<Utc>::from_timestamp(secs, nanos)` and then
/// `date_naive()`), or `None` where `from_timestamp` gives `None`.
pub uninterp spec fn utc_date_of_unix_time(secs: i64, nanos: u32) -> Option<NaiveDate>;

/// `chrono::DateTime::<Utc>::from_timestamp(secs, nanos)` and then `date_naive()`: the UTC
/// date of that instant, or `None` when `from_timestamp` rejects it (a date outside the
/// years chrono can hold, about ±262,000, or invalid nanoseconds).
///
/// Stated: the result is [`utc_date_of_unix_time`] of the arguments, and every instant from
/// 1970 up to [`LAST_STATED_UNIX_SECS`] with fewer than a billion nanoseconds gives a date
/// (chrono's source: the day number then fits an `i32`, the year stays below its
/// `MAX_YEAR` of 262,142, and the time of day is valid).
#[verifier::external_body]
fn utc_date_from_timestamp(secs: i64, nanos: u32) -> (r: Option<NaiveDate>)
    ensures
        r == utc_date_of_unix_time(secs, nanos),
        0 <= secs <= LAST_STATED_UNIX_SECS && nanos < 1_000_000_000 ==> r is Some,
{
    match chrono::DateTime::from_timestamp(secs, nanos) {
        Some(instant) => Some(instant.date_naive()),
        None => None,
    }
}

impl Default for WidgetGallery {
    /// The gallery as it first opens: enabled and visible, the boolean off, full opacity,
    /// the first choice, 42 on the slider, no text, half-strength light blue, the progress
    /// bar still, no date picked yet and the date button shown.
    fn default() -> (r: WidgetGallery)
        ensures
            r.enabled,
            r.visible,
            !r.boolean,
            r.opacity.bits == FULL_OPACITY_BITS,
            r.radio == Enum::First,
            r.scalar.bits == DEFAULT_SCALAR_BITS,
            r.string@ == Seq::<char>::empty(),
            r.color == Color32::default_gallery_spec(),
            r.color == (Color32 { r: 87, g: 108, b: 115, a: 128 }),
            !r.animate_progress_bar,
            r.date is None,
            r.with_date_button,
    {
        WidgetGallery {
            enabled: true,
            visible: true,
            opacity: FloatBits { bits: FULL_OPACITY_BITS },
            boolean: false,
            radio: Enum::First,
            scalar: FloatBits { bits: DEFAULT_SCALAR_BITS },
            string: String::new(),
            color: Color32::default_gallery(),
            animate_progress_bar: false,
            date: None,
            with_date_button: true,
        }
    }
}

impl WidgetGallery {
    /// Show or hide the date picker button.
    pub fn with_date_button(self, with_date_button: bool) -> (r: WidgetGallery)
        ensures
            r == (WidgetGallery { with_date_button, ..self }),
    {
        WidgetGallery { with_date_button, ..self }
    }

    /// The title of the gallery's window.
    pub fn name(&self) -> (r: &'static str)
        ensures
            r@ == "\u{1F5C4} Widget Gallery"@,
    {
        "\u{1F5C4} Widget Gallery"
    }

    /// How the grid of widgets is drawn: greyed out unless the gallery is interactive,
    /// hidden unless it is visible.
    pub fn grid_scope(&self) -> (r: GridScope)
        ensures
            r.disabled == !self.enabled,
            r.invisible == !self.visible,
    {
        GridScope { disabled: !self.enabled, invisible: !self.visible }
    }

    /// Whether the "Interactive" checkbox and the opacity control are shown beside the
    /// "Visible" checkbox: only while the widgets are visible.
    pub fn shows_interactive_controls(&self) -> (r: bool)
        ensures
            r == self.visible,
    {
        self.visible
    }

    /// Apply what a widget reported: the button, the link, the checkbox, the image button
    /// and the toggle switch all flip the one boolean; the radio buttons, the selectable
    /// labels and the combo box all choose the one choice; the slider and the drag value
    /// set the one number; each other widget sets its own value.
    pub fn handle(&mut self, event: GalleryEvent)
        ensures
            *final(self) == old(self).after(event),
    {
        match event {
            GalleryEvent::TextEdited(text) => self.string = text,
            GalleryEvent::ButtonClicked => self.boolean = !self.boolean,
            GalleryEvent::LinkClicked => self.boolean = !self.boolean,
            GalleryEvent::CheckboxClicked => self.boolean = !self.boolean,
            GalleryEvent::RadioClicked(choice) => self.radio = choice,
            GalleryEvent::SelectableClicked(choice) => self.radio = choice,
            GalleryEvent::ComboBoxItemClicked(choice) => self.radio = choice,
            GalleryEvent::SliderMoved(value) => self.scalar = value,
            GalleryEvent::DragValueChanged(value) => self.scalar = value,
            GalleryEvent::ProgressBarHovered(hovered) => self.animate_progress_bar = hovered,
            GalleryEvent::ColorPicked(color) => self.color = color,
            GalleryEvent::ImageButtonClicked => self.boolean = !self.boolean,
            GalleryEvent::DatePicked(date) => self.date = Some(date),
            GalleryEvent::ToggleSwitchClicked => self.boolean = !self.boolean,
            GalleryEvent::VisibleClicked => self.visible = !self.visible,
            GalleryEvent::InteractiveClicked => self.enabled = !self.enabled,
            GalleryEvent::OpacityChanged(value) => self.opacity = value,
        }
    }

    /// The gallery after [`Self::fill_date`] with `today`.
    pub open spec fn with_date_filled(self, today: NaiveDate) -> WidgetGallery {
        if self.with_date_button && self.date is None {
            WidgetGallery { date: Some(today), ..self }
        } else {
            self
        }
    }

    /// Before the date picker is drawn: when it is shown and no date is picked yet,
    /// start from `today`; otherwise nothing changes.
    pub fn fill_date(&mut self, today: NaiveDate)
        ensures
            *final(self) == old(self).with_date_filled(today),
    {
        if self.with_date_button && self.date.is_none() {
            self.date = Some(today);
        }
    }

    /// Whether the date picker is shown and has no date yet, so that one is filled in.
    pub open spec fn needs_date(self) -> bool {
        self.with_date_button && self.date is None
    }

    /// The gallery after [`Self::fill_date_from_clock`] with the clock reading `reading`.
    pub open spec fn with_clock_reading(self, reading: Option<(u64, u32)>) -> WidgetGallery {
        match reading {
            Some((secs, nanos)) => if self.needs_date() && secs <= i64::MAX {
                match utc_date_of_unix_time(secs as i64, nanos) {
                    Some(today) => self.with_date_filled(today),
                    None => self,
                }
            } else {
                self
            },
            None => self,
        }
    }

    /// Before the date picker is drawn, given the clock's reading (whole seconds and
    /// nanoseconds since 1970-01-01 00:00 UTC, or `None` when the clock reads an earlier
    /// time): when the picker is shown and has no date yet, start from the UTC date that
    /// chrono gives for that instant. Nothing changes otherwise, nor when there is no
    /// reading or chrono cannot hold the instant.
    pub fn fill_date_from_clock(&mut self, reading: Option<(u64, u32)>)
        ensures
            *final(self) == old(self).with_clock_reading(reading),
            !(old(self).with_date_button && old(self).date is None) ==> *final(self) == *old(self),
            reading is None ==> *final(self) == *old(self),
            ({
                &&& old(self).needs_date()
                &&& reading matches Some((secs, nanos))
                &&& secs <= LAST_STATED_UNIX_SECS
                &&& nanos < 1_000_000_000
            }) ==> final(self).date is Some,
    {
        if self.with_date_button && self.date.is_none() {
            if let Some((secs, nanos)) = reading {
                if secs <= 0x7fff_ffff_ffff_ffff {
                    let instant = secs as i64;
                    if let Some(today) = utc_date_from_timestamp(instant, nanos) {
                        self.fill_date(today);
                    }
                }
            }
        }
    }

    /// Before the date picker is drawn: when it is shown and no date is picked yet, start
    /// from today's date in UTC, read from the system clock (which is read only then) and
    /// turned into a date by chrono; otherwise nothing changes. When the clock reads a time
    /// before 1970, or one whose date chrono cannot hold, no date is filled in.
    pub fn prepare_date(&mut self)
        ensures
            !old(self).needs_date() ==> *final(self) == *old(self),
            !(old(self).with_date_button && old(self).date is None) ==> *final(self) == *old(self),
            exists|reading: Option<(u64, u32)>|
                (reading matches Some((_, nanos)) ==> nanos < 1_000_000_000)
                    && *final(self) == old(self).with_clock_reading(reading),
    {
        if self.with_date_button && self.date.is_none() {
            let reading = clock_since_unix_epoch();
            self.fill_date_from_clock(reading);
            assert(*self == old(self).with_clock_reading(reading));
        } else {
            let ghost no_reading: Option<(u64, u32)> = None;
            assert(*self == old(self).with_clock_reading(no_reading));
        }
    }
}

/// The button, the link, the checkbox, the image button and the toggle switch all act
/// on one boolean and on nothing else: each click flips it.
pub proof fn clicks_flip_one_boolean(gallery: WidgetGallery, event: GalleryEvent)
    requires
        event.flips_boolean(),
    ensures
        gallery.after(event) == (WidgetGallery { boolean: !gallery.boolean, ..gallery }),
{
}

/// Two clicks on any of the boolean's widgets (the same or different ones) give back the
/// gallery as it was.
pub proof fn two_clicks_restore(gallery: WidgetGallery, first: GalleryEvent, second: GalleryEvent)
    requires
        first.flips_boolean(),
        second.flips_boolean(),
    ensures
        gallery.after(first).after(second) == gallery,
{
}

/// The radio buttons, the selectable labels and the combo box choose the same one value:
/// picking a choice with any of them gives the same gallery, with that choice made.
pub proof fn pickers_share_one_choice(gallery: WidgetGallery, choice: Enum)
    ensures
        gallery.after(GalleryEvent::RadioClicked(choice)) == (WidgetGallery { radio: choice, ..gallery }),
        gallery.after(GalleryEvent::SelectableClicked(choice)) == gallery.after(
            GalleryEvent::RadioClicked(choice),
        ),
        gallery.after(GalleryEvent::ComboBoxItemClicked(choice)) == gallery.after(
            GalleryEvent::RadioClicked(choice),
        ),
{
}

/// Unchecking "Visible" hides the grid and the "Interactive" and opacity controls;
/// checking it again gives back the gallery as it was.
pub proof fn visible_toggle_round_trip(gallery: WidgetGallery)
    requires
        gallery.visible,
    ensures
        !gallery.after(GalleryEvent::VisibleClicked).visible,
        gallery.after(GalleryEvent::VisibleClicked).after(GalleryEvent::VisibleClicked) == gallery,
{
}

/// Once the date picker has a date, later frames keep it: filling in today's date again,
/// on any later day, changes nothing.
pub proof fn picked_date_is_kept(gallery: WidgetGallery, first_day: NaiveDate, later_day: NaiveDate)
    ensures
        gallery.with_date_filled(first_day).with_date_filled(later_day) == gallery.with_date_filled(
            first_day,
        ),
{
}

/// The "Interactive" checkbox turns interactivity on when it is off and off when it is
/// on, and changes nothing else; two clicks give back the gallery as it was.
pub proof fn interactive_click_toggles(gallery: WidgetGallery)
    ensures
        gallery.after(GalleryEvent::InteractiveClicked).enabled == !gallery.enabled,
        gallery.after(GalleryEvent::InteractiveClicked) == (WidgetGallery {
            enabled: !gallery.enabled,
            ..gallery
        }),
        gallery.after(GalleryEvent::InteractiveClicked).after(GalleryEvent::InteractiveClicked)
            == gallery,
{
}

/// The "Visible" checkbox shows the widgets when they are hidden and hides them when they
/// are shown, and changes nothing else; two clicks give back the gallery as it was.
pub proof fn visible_click_toggles(gallery: WidgetGallery)
    ensures
        gallery.after(GalleryEvent::VisibleClicked).visible == !gallery.visible,
        gallery.after(GalleryEvent::VisibleClicked) == (WidgetGallery {
            visible: !gallery.visible,
            ..gallery
        }),
        gallery.after(GalleryEvent::VisibleClicked).after(GalleryEvent::VisibleClicked) == gallery,
{
}

/// A widget that reports a value sets its own field to exactly that value and changes
/// nothing else: the text edit the text, the slider and the drag value the number, the
/// opacity control the opacity, the progress bar whether it animates, the colour picker
/// the colour and the date picker the date.
pub proof fn reports_set_their_values(
    gallery: WidgetGallery,
    text: String,
    value: FloatBits,
    hovered: bool,
    color: Color32,
    date: NaiveDate,
)
    ensures
        gallery.after(GalleryEvent::TextEdited(text)) == (WidgetGallery { string: text, ..gallery }),
        gallery.after(GalleryEvent::SliderMoved(value)) == (WidgetGallery { scalar: value, ..gallery }),
        gallery.after(GalleryEvent::DragValueChanged(value)) == (WidgetGallery {
            scalar: value,
            ..gallery
        }),
        gallery.after(GalleryEvent::OpacityChanged(value)) == (WidgetGallery {
            opacity: value,
            ..gallery
        }),
        gallery.after(GalleryEvent::ProgressBarHovered(hovered)) == (WidgetGallery {
            animate_progress_bar: hovered,
            ..gallery
        }),
        gallery.after(GalleryEvent::ColorPicked(color)) == (WidgetGallery { color, ..gallery }),
        gallery.after(GalleryEvent::DatePicked(date)) == (WidgetGallery {
            date: Some(date),
            ..gallery
        }),
{
}

/// Filling in a date sets it only when the date picker is shown and has none yet, and then
/// to exactly the given day, changing nothing else.
pub proof fn date_filled_only_when_missing(gallery: WidgetGallery, today: NaiveDate)
    ensures
        gallery.with_date_button && gallery.date is None ==> gallery.with_date_filled(today) == (
        WidgetGallery { date: Some(today), ..gallery }),
        !(gallery.with_date_button && gallery.date is None) ==> gallery.with_date_filled(today)
            == gallery,
{
}

/// A clock reading fills in the UTC date that chrono gives for exactly that instant (when
/// the picker is shown, has no date yet and the seconds fit an `i64`); no reading, or a
/// gallery that needs no date, changes nothing.
pub proof fn clock_reading_gives_its_utc_date(gallery: WidgetGallery, secs: u64, nanos: u32)
    ensures
        gallery.with_clock_reading(None) == gallery,
        !(gallery.with_date_button && gallery.date is None) ==> gallery.with_clock_reading(
            Some((secs, nanos)),
        ) == gallery,
        gallery.with_date_button && gallery.date is None && secs <= i64::MAX
            ==> gallery.with_clock_reading(Some((secs, nanos))) == (WidgetGallery {
            date: utc_date_of_unix_time(secs as i64, nanos),
            ..gallery
        }),
{
}

} // verus!
