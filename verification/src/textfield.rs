//! Text and number fields: the option sets that the builders fill in, and
//! the decisions the fields take from them (corners, frame, underline, text
//! colour, margins, and when a typed number is taken over).

use vstd::prelude::*;

use crate::theme::{ColorRole, Paint};

verus! {

/// The two looks of a Material Design 3 text field.
#[derive(Clone, Copy, Debug, PartialEq, Eq, Structural)]
pub enum TextFieldVariant {
    Filled,
    Outlined,
}

/// Corner radii, in whole points, of a field's frame.
#[derive(Clone, Copy, Debug, PartialEq, Eq, Structural)]
pub struct Corners {
    /// North-West (left top) corner.
    pub nw: u8,
    /// North-East (right top) corner.
    pub ne: u8,
    /// South-West (left bottom) corner.
    pub sw: u8,
    /// South-East (right bottom) corner.
    pub se: u8,
}

/// Corner radius of a field that was given none.
pub const DEFAULT_CORNER_RADIUS: u8 = 4;

impl Corners {
    /// The same radius on all four corners.
    pub fn same(radius: u8) -> (c: Self)
        ensures
            c == (Corners { nw: radius, ne: radius, sw: radius, se: radius }),
    {
        Corners { nw: radius, ne: radius, sw: radius, se: radius }
    }
}

/// Inner margins, in whole points, between a field's frame and its text.
#[derive(Clone, Copy, Debug, PartialEq, Eq, Structural)]
pub struct Margins {
    pub left: i8,
    pub right: i8,
    pub top: i8,
    pub bottom: i8,
}

impl Margins {
    /// Left plus right margin.
    pub fn horizontal(&self) -> (sum: i16)
        ensures
            sum == self.left + self.right,
    {
        self.left as i16 + self.right as i16
    }
}

/// Least height of the line of text inside a text field.
pub const TEXT_LINE_MIN_HEIGHT: i8 = 24;

/// Height of a single line text field (Material Design 3): 56.
pub const TEXT_FIELD_HEIGHT: i16 = 56;

/// Margins of a text field: 16 on every side, so that a line of the least
/// height makes the 56 high field of Material Design 3.
pub fn text_field_margins() -> (m: Margins)
    ensures
        m == (Margins { left: 16, right: 16, top: 16, bottom: 16 }),
        m.top + TEXT_LINE_MIN_HEIGHT + m.bottom == TEXT_FIELD_HEIGHT,
{
    Margins { left: 16, right: 16, top: 16, bottom: 16 }
}

/// Margins of a number field: tighter than a text field's, 8 at the sides
/// and 4 above and below.
pub fn number_field_margins() -> (m: Margins)
    ensures
        m == (Margins { left: 8, right: 8, top: 4, bottom: 4 }),
{
    Margins { left: 8, right: 8, top: 4, bottom: 4 }
}

/// Fill and outline of a field's frame.
#[derive(Clone, Copy, Debug, PartialEq, Eq, Structural)]
pub struct FrameStyle {
    /// Background of the frame.
    pub fill: Paint,
    /// Colour of the 1 point outline, where the frame has one.
    pub stroke: Option<Paint>,
}

/// A filled field has a background and no outline; an outlined field has an
/// outline (primary while focused, the outline role otherwise) over a
/// transparent background. Disabled fields are drawn in faded on-surface:
/// 4% for the fill, 12% for the outline.
pub open spec fn frame_style_spec(variant: TextFieldVariant, enabled: bool, focused: bool) -> FrameStyle {
    match variant {
        TextFieldVariant::Filled => FrameStyle {
            fill: if enabled {
                Paint::Solid(ColorRole::SurfaceContainerHighest)
            } else {
                Paint::Faded(ColorRole::OnSurface, 4)
            },
            stroke: None,
        },
        TextFieldVariant::Outlined => FrameStyle {
            fill: Paint::Transparent,
            stroke: Some(
                if !enabled {
                    Paint::Faded(ColorRole::OnSurface, 12)
                } else if focused {
                    Paint::Solid(ColorRole::Primary)
                } else {
                    Paint::Solid(ColorRole::Outline)
                },
            ),
        },
    }
}

/// The frame of a field with the given look, state and focus.
pub fn frame_style(variant: TextFieldVariant, enabled: bool, focused: bool) -> (style: FrameStyle)
    ensures
        style == frame_style_spec(variant, enabled, focused),
{
    match variant {
        TextFieldVariant::Filled => FrameStyle {
            fill: if enabled {
                Paint::Solid(ColorRole::SurfaceContainerHighest)
            } else {
                Paint::Faded(ColorRole::OnSurface, 4)
            },
            stroke: None,
        },
        TextFieldVariant::Outlined => FrameStyle {
            fill: Paint::Transparent,
            stroke: Some(
                if !enabled {
                    Paint::Faded(ColorRole::OnSurface, 12)
                } else if focused {
                    Paint::Solid(ColorRole::Primary)
                } else {
                    Paint::Solid(ColorRole::Outline)
                },
            ),
        },
    }
}

/// The corners of a field: the given radii, or the default radius on all
/// corners; a filled field squares off its bottom corners so that they meet
/// the underline.
pub open spec fn field_corners_spec(variant: TextFieldVariant, custom: Option<Corners>) -> Corners {
    let given = match custom {
        Some(c) => c,
        None => Corners {
            nw: DEFAULT_CORNER_RADIUS,
            ne: DEFAULT_CORNER_RADIUS,
            sw: DEFAULT_CORNER_RADIUS,
            se: DEFAULT_CORNER_RADIUS,
        },
    };
    match variant {
        TextFieldVariant::Filled => Corners { nw: given.nw, ne: given.ne, sw: 0, se: 0 },
        TextFieldVariant::Outlined => given,
    }
}

/// The corners of a field's frame, over all inputs: an outlined field keeps
/// the radii it was given exactly; a filled field keeps the given top radii
/// and squares off both bottom corners; a field given no radii uses 4 on
/// every corner, save the squared-off bottom of a filled field.
pub proof fn lemma_field_corners(c: Corners)
    ensures
        field_corners_spec(TextFieldVariant::Outlined, Some(c)) == c,
        field_corners_spec(TextFieldVariant::Filled, Some(c)).nw == c.nw,
        field_corners_spec(TextFieldVariant::Filled, Some(c)).ne == c.ne,
        field_corners_spec(TextFieldVariant::Filled, Some(c)).sw == 0,
        field_corners_spec(TextFieldVariant::Filled, Some(c)).se == 0,
        field_corners_spec(TextFieldVariant::Outlined, None) == (Corners {
            nw: 4,
            ne: 4,
            sw: 4,
            se: 4,
        }),
        field_corners_spec(TextFieldVariant::Filled, None) == (Corners {
            nw: 4,
            ne: 4,
            sw: 0,
            se: 0,
        }),
{
}

/// A filled field's frame always has square bottom corners and the same top
/// corners as the outlined frame with the same radii; switching between the
/// looks changes only the bottom corners.
pub proof fn lemma_filled_squares_bottom(custom: Option<Corners>)
    ensures
        field_corners_spec(TextFieldVariant::Filled, custom).sw == 0,
        field_corners_spec(TextFieldVariant::Filled, custom).se == 0,
        field_corners_spec(TextFieldVariant::Filled, custom).nw == field_corners_spec(
            TextFieldVariant::Outlined,
            custom,
        ).nw,
        field_corners_spec(TextFieldVariant::Filled, custom).ne == field_corners_spec(
            TextFieldVariant::Outlined,
            custom,
        ).ne,
{
}

/// The corners of a text field.
pub fn field_corners(variant: TextFieldVariant, custom: Option<Corners>) -> (c: Corners)
    ensures
        c == field_corners_spec(variant, custom),
        variant == TextFieldVariant::Outlined && custom is Some ==> c == custom->0,
        variant == TextFieldVariant::Filled && custom is Some ==> c.nw == custom->0.nw && c.ne
            == custom->0.ne && c.sw == 0 && c.se == 0,
        variant == TextFieldVariant::Outlined && custom is None ==> c.nw == 4 && c.ne == 4 && c.sw
            == 4 && c.se == 4,
        variant == TextFieldVariant::Filled && custom is None ==> c.nw == 4 && c.ne == 4 && c.sw
            == 0 && c.se == 0,
{
    let given = match custom {
        Some(c) => c,
        None => Corners::same(DEFAULT_CORNER_RADIUS),
    };
    match variant {
        TextFieldVariant::Filled => Corners { nw: given.nw, ne: given.ne, sw: 0, se: 0 },
        TextFieldVariant::Outlined => given,
    }
}

/// The corners of a number field: square while it has focus, those of a
/// text field otherwise.
pub fn number_field_corners(variant: TextFieldVariant, focused: bool, custom: Option<Corners>) -> (c: Corners)
    ensures
        focused ==> c == (Corners { nw: 0, ne: 0, sw: 0, se: 0 }),
        !focused ==> c == field_corners_spec(variant, custom),
        !focused && variant == TextFieldVariant::Outlined && custom is Some ==> c == custom->0,
        !focused && variant == TextFieldVariant::Filled && custom is Some ==> c.nw == custom->0.nw
            && c.ne == custom->0.ne && c.sw == 0 && c.se == 0,
        !focused && custom is None ==> c.nw == 4 && c.ne == 4,
        !focused && variant == TextFieldVariant::Outlined && custom is None ==> c.sw == 4 && c.se
            == 4,
        !focused && variant == TextFieldVariant::Filled ==> c.sw == 0 && c.se == 0,
{
    if focused {
        Corners::same(0)
    } else {
        field_corners(variant, custom)
    }
}

/// The underline along the bottom of a filled text field: faded on-surface
/// (38%) when disabled, primary while focused, on-surface-variant otherwise.
/// Outlined fields have none.
pub open spec fn underline_spec(variant: TextFieldVariant, enabled: bool, focused: bool) -> Option<Paint> {
    match variant {
        TextFieldVariant::Filled => Some(
            if !enabled {
                Paint::Faded(ColorRole::OnSurface, 38)
            } else if focused {
                Paint::Solid(ColorRole::Primary)
            } else {
                Paint::Solid(ColorRole::OnSurfaceVariant)
            },
        ),
        TextFieldVariant::Outlined => None,
    }
}

/// The underline of a text field, where it has one.
pub fn field_underline(variant: TextFieldVariant, enabled: bool, focused: bool) -> (line: Option<Paint>)
    ensures
        line == underline_spec(variant, enabled, focused),
{
    match variant {
        TextFieldVariant::Filled => Some(
            if !enabled {
                Paint::Faded(ColorRole::OnSurface, 38)
            } else if focused {
                Paint::Solid(ColorRole::Primary)
            } else {
                Paint::Solid(ColorRole::OnSurfaceVariant)
            },
        ),
        TextFieldVariant::Outlined => None,
    }
}

/// Colour of a text field's text: on-surface, faded to 38% when disabled.
pub open spec fn text_paint_spec(enabled: bool) -> Paint {
    if enabled {
        Paint::Solid(ColorRole::OnSurface)
    } else {
        Paint::Faded(ColorRole::OnSurface, 38)
    }
}

/// Colour of a text field's text.
pub fn field_text_paint(enabled: bool) -> (p: Paint)
    ensures
        p == text_paint_spec(enabled),
{
    if enabled {
        Paint::Solid(ColorRole::OnSurface)
    } else {
        Paint::Faded(ColorRole::OnSurface, 38)
    }
}

/// A disabled field looks the same whether or not it has focus: its frame
/// and underline do not depend on focus.
pub proof fn lemma_disabled_ignores_focus(variant: TextFieldVariant, focused: bool)
    ensures
        frame_style_spec(variant, false, focused) == frame_style_spec(variant, false, !focused),
        underline_spec(variant, false, focused) == underline_spec(variant, false, !focused),
{
}

/// The focus colour (primary) shows on a field only while it is enabled and
/// focused.
pub proof fn lemma_primary_only_when_focused(variant: TextFieldVariant, enabled: bool, focused: bool)
    ensures
        frame_style_spec(variant, enabled, focused).fill.role() != Some(ColorRole::Primary),
        (frame_style_spec(variant, enabled, focused).stroke matches Some(p) && p.role() == Some(
            ColorRole::Primary,
        )) ==> enabled && focused,
        (underline_spec(variant, enabled, focused) matches Some(p) && p.role() == Some(
            ColorRole::Primary,
        )) ==> enabled && focused,
        text_paint_spec(enabled).role() != Some(ColorRole::Primary),
{
}

/// A filled field always has a background and an underline and never an
/// outline; an outlined field always has an outline, a transparent
/// background and no underline.
pub proof fn lemma_variant_decoration(variant: TextFieldVariant, enabled: bool, focused: bool)
    ensures
        variant == TextFieldVariant::Filled ==> {
            &&& !frame_style_spec(variant, enabled, focused).fill.is_transparent()
            &&& frame_style_spec(variant, enabled, focused).stroke is None
            &&& underline_spec(variant, enabled, focused) is Some
        },
        variant == TextFieldVariant::Outlined ==> {
            &&& frame_style_spec(variant, enabled, focused).fill.is_transparent()
            &&& frame_style_spec(variant, enabled, focused).stroke is Some
            &&& underline_spec(variant, enabled, focused) is None
        },
{
}

/// The settings of a text field that shape how it looks and behaves: hint,
/// look, single or multiple lines, enabled, corner radii and focus lock.
pub struct TextFieldOptions {
    /// Text shown while the field is empty.
    pub hint_text: Option<String>,
    /// Filled or outlined look.
    pub variant: TextFieldVariant,
    /// Several lines of text instead of one.
    pub multiline: bool,
    /// Whether the field takes input.
    pub enabled: bool,
    /// Corner radii that replace the default ones.
    pub corner_radius: Option<Corners>,
    /// Keep the focus in the field (Tab inserts rather than moves on).
    pub lock_focus: bool,
}

impl TextFieldOptions {
    /// A filled, enabled, single line field without hint, custom corners or
    /// focus lock.
    pub fn new() -> (o: Self)
        ensures
            o.hint_text is None,
            o.variant == TextFieldVariant::Filled,
            !o.multiline,
            o.enabled,
            o.corner_radius is None,
            !o.lock_focus,
    {
        TextFieldOptions {
            hint_text: None,
            variant: TextFieldVariant::Filled,
            multiline: false,
            enabled: true,
            corner_radius: None,
            lock_focus: false,
        }
    }

    /// The default options with the filled look.
    pub fn filled() -> (o: Self)
        ensures
            o.hint_text is None,
            o.variant == TextFieldVariant::Filled,
            !o.multiline,
            o.enabled,
            o.corner_radius is None,
            !o.lock_focus,
    {
        Self::new().variant(TextFieldVariant::Filled)
    }

    /// The default options with the outlined look.
    pub fn outlined() -> (o: Self)
        ensures
            o.hint_text is None,
            o.variant == TextFieldVariant::Outlined,
            !o.multiline,
            o.enabled,
            o.corner_radius is None,
            !o.lock_focus,
    {
        Self::new().variant(TextFieldVariant::Outlined)
    }

    /// Sets the hint text; every other setting stays.
    pub fn hint_text(self, hint_text: String) -> (o: Self)
        ensures
            o.hint_text == Some(hint_text),
            o.variant == self.variant,
            o.multiline == self.multiline,
            o.enabled == self.enabled,
            o.corner_radius == self.corner_radius,
            o.lock_focus == self.lock_focus,
    {
        TextFieldOptions { hint_text: Some(hint_text), ..self }
    }

    /// Sets whether the field has several lines; every other setting stays.
    pub fn multiline(self, multiline: bool) -> (o: Self)
        ensures
            o.hint_text == self.hint_text,
            o.variant == self.variant,
            o.multiline == multiline,
            o.enabled == self.enabled,
            o.corner_radius == self.corner_radius,
            o.lock_focus == self.lock_focus,
    {
        TextFieldOptions { multiline, ..self }
    }

    /// Sets the look; every other setting stays.
    pub fn variant(self, variant: TextFieldVariant) -> (o: Self)
        ensures
            o.hint_text == self.hint_text,
            o.variant == variant,
            o.multiline == self.multiline,
            o.enabled == self.enabled,
            o.corner_radius == self.corner_radius,
            o.lock_focus == self.lock_focus,
    {
        TextFieldOptions { variant, ..self }
    }

    /// Sets whether the field takes input; every other setting stays.
    pub fn enabled(self, enabled: bool) -> (o: Self)
        ensures
            o.hint_text == self.hint_text,
            o.variant == self.variant,
            o.multiline == self.multiline,
            o.enabled == enabled,
            o.corner_radius == self.corner_radius,
            o.lock_focus == self.lock_focus,
    {
        TextFieldOptions { enabled, ..self }
    }

    /// Sets the corner radii; every other setting stays.
    pub fn corner_radius(self, corners: Corners) -> (o: Self)
        ensures
            o.hint_text == self.hint_text,
            o.variant == self.variant,
            o.multiline == self.multiline,
            o.enabled == self.enabled,
            o.corner_radius == Some(corners),
            o.lock_focus == self.lock_focus,
    {
        TextFieldOptions { corner_radius: Some(corners), ..self }
    }

    /// Sets the focus lock; every other setting stays.
    pub fn lock_focus(self, lock_focus: bool) -> (o: Self)
        ensures
            o.hint_text == self.hint_text,
            o.variant == self.variant,
            o.multiline == self.multiline,
            o.enabled == self.enabled,
            o.corner_radius == self.corner_radius,
            o.lock_focus == lock_focus,
    {
        TextFieldOptions { lock_focus, ..self }
    }

    /// The corners of the field's frame.
    pub fn corners(&self) -> (c: Corners)
        ensures
            c == field_corners_spec(self.variant, self.corner_radius),
            self.variant == TextFieldVariant::Outlined && self.corner_radius is Some ==> c
                == self.corner_radius->0,
            self.variant == TextFieldVariant::Filled ==> c.sw == 0 && c.se == 0,
            self.corner_radius is Some ==> c.nw == self.corner_radius->0.nw && c.ne
                == self.corner_radius->0.ne,
    {
        field_corners(self.variant, self.corner_radius)
    }

    /// The field's frame, given whether it has focus.
    pub fn frame(&self, focused: bool) -> (f: FrameStyle)
        ensures
            f == frame_style_spec(self.variant, self.enabled, focused),
    {
        frame_style(self.variant, self.enabled, focused)
    }

    /// The field's underline, given whether it has focus.
    pub fn underline(&self, focused: bool) -> (line: Option<Paint>)
        ensures
            line == underline_spec(self.variant, self.enabled, focused),
    {
        field_underline(self.variant, self.enabled, focused)
    }

    /// The colour of the field's text.
    pub fn text_paint(&self) -> (p: Paint)
        ensures
            p == text_paint_spec(self.enabled),
    {
        field_text_paint(self.enabled)
    }
}

/// Decimals shown by a number field that was given none: one, so that a
/// whole number shows as `1.0` rather than `1`.
pub const DEFAULT_DECIMALS: usize = 1;

/// The settings of a number field that shape how it looks: look, enabled,
/// corner radii, decimals shown and the suffix after the value.
pub struct NumberFieldOptions {
    /// Filled or outlined look.
    pub variant: TextFieldVariant,
    /// Whether the field takes input.
    pub enabled: bool,
    /// Corner radii that replace the default ones.
    pub corner_radius: Option<Corners>,
    /// Decimals shown while the field is not being edited.
    pub decimals: Option<usize>,
    /// Text shown after the value, such as a unit.
    pub suffix: Option<String>,
}

impl NumberFieldOptions {
    /// A filled, enabled field without custom corners, decimals or suffix.
    pub fn new() -> (o: Self)
        ensures
            o.variant == TextFieldVariant::Filled,
            o.enabled,
            o.corner_radius is None,
            o.decimals is None,
            o.suffix is None,
    {
        NumberFieldOptions {
            variant: TextFieldVariant::Filled,
            enabled: true,
            corner_radius: None,
            decimals: None,
            suffix: None,
        }
    }

    /// The default options with the filled look.
    pub fn filled() -> (o: Self)
        ensures
            o.variant == TextFieldVariant::Filled,
            o.enabled,
            o.corner_radius is None,
            o.decimals is None,
            o.suffix is None,
    {
        Self::new().variant(TextFieldVariant::Filled)
    }

    /// The default options with the outlined look.
    pub fn outlined() -> (o: Self)
        ensures
            o.variant == TextFieldVariant::Outlined,
            o.enabled,
            o.corner_radius is None,
            o.decimals is None,
            o.suffix is None,
    {
        Self::new().variant(TextFieldVariant::Outlined)
    }

    /// Sets the look; every other setting stays.
    pub fn variant(self, variant: TextFieldVariant) -> (o: Self)
        ensures
            o.variant == variant,
            o.enabled == self.enabled,
            o.corner_radius == self.corner_radius,
            o.decimals == self.decimals,
            o.suffix == self.suffix,
    {
        NumberFieldOptions { variant, ..self }
    }

    /// Sets whether the field takes input; every other setting stays.
    pub fn enabled(self, enabled: bool) -> (o: Self)
        ensures
            o.variant == self.variant,
            o.enabled == enabled,
            o.corner_radius == self.corner_radius,
            o.decimals == self.decimals,
            o.suffix == self.suffix,
    {
        NumberFieldOptions { enabled, ..self }
    }

    /// Sets the corner radii; every other setting stays.
    pub fn corner_radius(self, corners: Corners) -> (o: Self)
        ensures
            o.variant == self.variant,
            o.enabled == self.enabled,
            o.corner_radius == Some(corners),
            o.decimals == self.decimals,
            o.suffix == self.suffix,
    {
        NumberFieldOptions { corner_radius: Some(corners), ..self }
    }

    /// Sets the decimals shown; every other setting stays.
    pub fn decimals(self, decimals: usize) -> (o: Self)
        ensures
            o.variant == self.variant,
            o.enabled == self.enabled,
            o.corner_radius == self.corner_radius,
            o.decimals == Some(decimals),
            o.suffix == self.suffix,
    {
        NumberFieldOptions { decimals: Some(decimals), ..self }
    }

    /// Sets the suffix; every other setting stays.
    pub fn suffix(self, suffix: String) -> (o: Self)
        ensures
            o.variant == self.variant,
            o.enabled == self.enabled,
            o.corner_radius == self.corner_radius,
            o.decimals == self.decimals,
            o.suffix == Some(suffix),
    {
        NumberFieldOptions { suffix: Some(suffix), ..self }
    }

    /// The decimals shown: the ones set, or the default.
    pub fn shown_decimals(&self) -> (d: usize)
        ensures
            d == (match self.decimals {
                Some(n) => n,
                None => DEFAULT_DECIMALS,
            }),
    {
        match self.decimals {
            Some(n) => n,
            None => DEFAULT_DECIMALS,
        }
    }

    /// The corners of the field's frame, given whether it has focus.
    pub fn corners(&self, focused: bool) -> (c: Corners)
        ensures
            focused ==> c == (Corners { nw: 0, ne: 0, sw: 0, se: 0 }),
            !focused ==> c == field_corners_spec(self.variant, self.corner_radius),
            !focused && self.variant == TextFieldVariant::Outlined && self.corner_radius is Some
                ==> c == self.corner_radius->0,
            !focused && self.variant == TextFieldVariant::Filled ==> c.sw == 0 && c.se == 0,
            !focused && self.corner_radius is Some ==> c.nw == self.corner_radius->0.nw && c.ne
                == self.corner_radius->0.ne,
    {
        number_field_corners(self.variant, focused, self.corner_radius)
    }

    /// The field's frame, given whether it has focus.
    pub fn frame(&self, focused: bool) -> (f: FrameStyle)
        ensures
            f == frame_style_spec(self.variant, self.enabled, focused),
    {
        frame_style(self.variant, self.enabled, focused)
    }
}

/// What a number field does with the text being typed after one frame.
#[derive(Clone, Copy, Debug, PartialEq, Eq, Structural)]
pub struct DraftAction {
    /// Parse the text and, where it is a number, store it (clamped to the range).
    pub try_commit: bool,
    /// Keep the typed text for the next frame instead of showing the value.
    pub keep_draft: bool,
}

/// The number field's decision after its text edit ran: the text is taken
/// over when it changed or the field lost focus, and the typed text is kept
/// only while the field has focus.
pub fn number_draft_action(changed: bool, lost_focus: bool, has_focus: bool) -> (a: DraftAction)
    ensures
        a.try_commit == (changed || lost_focus),
        a.keep_draft == has_focus,
{
    DraftAction { try_commit: changed || lost_focus, keep_draft: has_focus }
}

} // verus!
