use vstd::prelude::*;
use crate::emoji::color::Color;
use crate::emoji::fit::{Bounds, Fit, Fitter, Probe};
use crate::emoji::typeface::{Typeface, TypefaceView};
use crate::emoji::units::{LENGTH_MAX, SCALE_ONE};
use crate::emoji::utils::TextAlign;

verus! {

/// An accepted fit: the font size, the horizontal scale, the bounds measured at
/// that size and scale, and the width measured at that size and scale 1.
#[derive(Clone, Copy, PartialEq, Eq, Structural, Debug)]
pub struct MeasureSpec {
    pub text_size: u64,
    pub text_scale_x: u32,
    pub bounds: Bounds,
    pub raw_width: u32,
}

impl MeasureSpec {
    pub open spec fn spec_new() -> MeasureSpec {
        MeasureSpec {
            text_size: 1_280_000,
            text_scale_x: SCALE_ONE,
            bounds: Bounds { left: 0, top: 0, width: 1_280_000, height: 1_280_000 },
            raw_width: 1_280_000,
        }
    }

    /// The fit a line has before it was ever measured: 128 pixels, unscaled,
    /// filling a box of 128 by 128 pixels.
    pub fn new() -> (spec: MeasureSpec)
        ensures
            spec == Self::spec_new(),
    {
        MeasureSpec {
            text_size: 1_280_000,
            text_scale_x: SCALE_ONE,
            bounds: Bounds { left: 0, top: 0, width: 1_280_000, height: 1_280_000 },
            raw_width: 1_280_000,
        }
    }
}

/// A font to measure or draw with.
#[derive(Clone, PartialEq, Eq, Debug)]
pub struct FontSpec {
    pub typeface: Typeface,
    pub size: u64,
    pub scale_x: u32,
}

/// A `FontSpec` with its typeface as characters.
pub struct FontSpecView {
    pub typeface: TypefaceView,
    pub size: u64,
    pub scale_x: u32,
}

impl View for FontSpec {
    type V = FontSpecView;

    open spec fn view(&self) -> FontSpecView {
        FontSpecView { typeface: self.typeface@, size: self.size, scale_x: self.scale_x }
    }
}

/// A paint to measure or draw with: `stroke` is the stroke width of an
/// outlining paint and `None` for a filling one.
#[derive(Clone, Copy, PartialEq, Eq, Structural, Debug)]
pub struct PaintSpec {
    pub anti_alias: bool,
    pub color: Color,
    pub stroke: Option<u64>,
}

/// One pass of drawing a line's text: what, where, and with which font and paint.
#[derive(Clone, PartialEq, Eq, Debug)]
pub struct DrawCall {
    pub text: String,
    pub x: i64,
    pub y: i64,
    pub font: FontSpec,
    pub paint: PaintSpec,
    pub align: TextAlign,
}

/// A `DrawCall` with its text and its font's typeface as characters.
pub struct DrawCallView {
    pub text: Seq<char>,
    pub x: i64,
    pub y: i64,
    pub font: FontSpecView,
    pub paint: PaintSpec,
    pub align: TextAlign,
}

impl View for DrawCall {
    type V = DrawCallView;

    open spec fn view(&self) -> DrawCallView {
        DrawCallView {
            text: self.text@,
            x: self.x,
            y: self.y,
            font: self.font@,
            paint: self.paint,
            align: self.align,
        }
    }
}

/// The drawing passes as mathematical values.
pub open spec fn draw_calls_of(calls: Seq<DrawCall>) -> Seq<DrawCallView> {
    Seq::new(calls.len(), |i: int| calls[i]@)
}

/// One line of text, the box it is fitted into, its style, and the search
/// for its fit. A line is always valid: its box is no larger than
/// `LENGTH_MAX` each way.
#[derive(Clone, Debug)]
pub struct Line {
    text: String,
    width: u64,
    line_height: u64,
    typeface: Typeface,
    text_align: TextAlign,
    color: Color,
    disable_stretch: bool,
    disable_outline: bool,
    outline_width: u64,
    outline_color: Color,
    fit: Fitter,
}

/// The mathematical content of a `Line`.
pub struct LineView {
    pub text: Seq<char>,
    pub width: u64,
    pub line_height: u64,
    pub typeface: TypefaceView,
    pub text_align: TextAlign,
    pub color: Color,
    pub disable_stretch: bool,
    pub disable_outline: bool,
    pub outline_width: u64,
    pub outline_color: Color,
    pub fit: Fit,
}

impl View for Line {
    type V = LineView;

    closed spec fn view(&self) -> LineView {
        LineView {
            text: self.text@,
            width: self.width,
            line_height: self.line_height,
            typeface: self.typeface@,
            text_align: self.text_align,
            color: self.color,
            disable_stretch: self.disable_stretch,
            disable_outline: self.disable_outline,
            outline_width: self.outline_width,
            outline_color: self.outline_color,
            fit: self.fit@,
        }
    }
}

/// Half of `n`, rounded down.
pub open spec fn half(n: int) -> int {
    n / 2
}

fn half_of(n: i64) -> (h: i64)
    ensures
        h == half(n as int),
{
    if n >= 0 {
        n / 2
    } else {
        (n + 1) / 2 - 1
    }
}

impl LineView {
    /// The line as first made: empty, in a box of 128 by 128 pixels, centred,
    /// black, stretch allowed, outlined in white 8 pixels wide, in the default
    /// typeface, and not waiting for any measurement.
    pub open spec fn spec_new() -> LineView {
        LineView {
            text: Seq::<char>::empty(),
            width: 1_280_000,
            line_height: 1_280_000,
            typeface: TypefaceView::Default,
            text_align: TextAlign::Center,
            color: Color::spec_black(),
            disable_stretch: false,
            disable_outline: false,
            outline_width: 80_000,
            outline_color: Color::spec_white(),
            fit: Fit::spec_new(),
        }
    }

    /// Validity: the box is no larger than `LENGTH_MAX` each way and the fit is valid.
    pub open spec fn wf(self) -> bool {
        &&& self.width <= LENGTH_MAX
        &&& self.line_height <= LENGTH_MAX
        &&& self.fit.wf()
    }

    /// The search a call of `measure` starts, from the line's box, stretch
    /// flag and text.
    pub open spec fn spec_start(self, text_size: Option<u64>) -> Fit {
        match text_size {
            Some(size) => Fit::spec_fixed(
                self.width,
                self.line_height,
                self.disable_stretch,
                size,
            ),
            None => Fit::spec_adjusted(
                self.width,
                self.line_height,
                self.disable_stretch,
                self.text.len() > 0,
            ),
        }
    }

    /// Horizontal position of the text's origin. Compressed text is placed as
    /// if aligned left, whatever alignment was asked for.
    pub open spec fn spec_draw_x(self) -> int {
        let spec = self.fit.spec;
        let left_x = -(spec.bounds.left as int);
        match self.text_align {
            TextAlign::Left => left_x,
            TextAlign::Center => if spec.text_scale_x < SCALE_ONE {
                left_x
            } else {
                half(self.width - spec.bounds.width) - spec.bounds.left
            },
            TextAlign::Right => if spec.text_scale_x < SCALE_ONE {
                left_x
            } else {
                self.width - spec.bounds.width - spec.bounds.left
            },
        }
    }

    /// Vertical position of the text's origin for a line whose box starts at `y`:
    /// the glyphs are centred in the line's height.
    pub open spec fn spec_draw_y(self, y: u64) -> int {
        let spec = self.fit.spec;
        y - spec.bounds.top + half(self.line_height - spec.bounds.height)
    }

    /// The paint the text is filled with.
    pub open spec fn spec_fill_paint(self) -> PaintSpec {
        PaintSpec { anti_alias: true, color: self.color, stroke: None }
    }

    /// The paint the outline is stroked with.
    pub open spec fn spec_outline_paint(self) -> PaintSpec {
        PaintSpec { anti_alias: true, color: self.outline_color, stroke: Some(self.outline_width) }
    }

    /// The font the line is drawn with.
    pub open spec fn spec_draw_font(self) -> FontSpecView {
        FontSpecView {
            typeface: self.typeface,
            size: self.fit.spec.text_size,
            scale_x: self.fit.spec.text_scale_x,
        }
    }

    /// One drawing pass of this line with the given paint.
    pub open spec fn spec_draw_call(self, y: u64, paint: PaintSpec) -> DrawCallView {
        DrawCallView {
            text: self.text,
            x: self.spec_draw_x() as i64,
            y: self.spec_draw_y(y) as i64,
            font: self.spec_draw_font(),
            paint,
            align: self.text_align,
        }
    }

    /// The drawing passes of this line: outline first, if enabled, then fill.
    pub open spec fn spec_draw(self, y: u64) -> Seq<DrawCallView> {
        if self.disable_outline {
            seq![self.spec_draw_call(y, self.spec_fill_paint())]
        } else {
            seq![
                self.spec_draw_call(y, self.spec_outline_paint()),
                self.spec_draw_call(y, self.spec_fill_paint()),
            ]
        }
    }
}

impl Line {
    /// An empty line in a box of 128 by 128 pixels: centred, black, stretch
    /// allowed, outlined in white 8 pixels wide, and not waiting for any
    /// measurement.
    pub fn new() -> (line: Line)
        ensures
            line@ == LineView::spec_new(),
            line@.wf(),
    {
        Line {
            text: String::new(),
            width: 1_280_000,
            line_height: 1_280_000,
            typeface: Typeface::Default,
            text_align: TextAlign::Center,
            color: Color::black(),
            disable_stretch: false,
            disable_outline: false,
            outline_width: 80_000,
            outline_color: Color::white(),
            fit: Fitter::new(),
        }
    }

    /// Starts fitting the line into its box: at the given size, or, with
    /// `None`, at the largest size that fits. Returns the first measurement
    /// wanted, if any.
    pub fn measure(&mut self, text_size: Option<u64>) -> (probe: Option<Probe>)
        requires
            old(self)@.wf(),
        ensures
            final(self)@ == (LineView { fit: old(self)@.spec_start(text_size), ..old(self)@ }),
            probe == final(self)@.fit.spec_pending(),
            final(self)@.wf(),
    {
        match text_size {
            Some(size) => self.measure_size_fixed(size),
            None => self.measure_adjusted(),
        }
    }

    /// Starts the search for the largest size at which the text fits the box.
    /// An empty text needs no measurement: it has size 0 and empty bounds.
    pub fn measure_adjusted(&mut self) -> (probe: Option<Probe>)
        requires
            old(self)@.wf(),
        ensures
            final(self)@ == (LineView { fit: old(self)@.spec_start(None), ..old(self)@ }),
            probe == final(self)@.fit.spec_pending(),
            final(self)@.wf(),
    {
        let has_text = !self.text.as_str().is_empty();
        self.fit = Fitter::adjusted(self.width, self.line_height, self.disable_stretch, has_text);
        self.fit.pending()
    }

    /// Starts the fit at the given size: one measurement at that size, then
    /// compression if the text is wider than the box.
    pub fn measure_size_fixed(&mut self, text_size: u64) -> (probe: Option<Probe>)
        requires
            old(self)@.wf(),
        ensures
            final(self)@ == (LineView {
                fit: old(self)@.spec_start(Some(text_size)),
                ..old(self)@
            }),
            probe == final(self)@.fit.spec_pending(),
            probe == Some(Probe { size: text_size, scale: SCALE_ONE }),
            final(self)@.wf(),
    {
        self.fit = Fitter::fixed(self.width, self.line_height, self.disable_stretch, text_size);
        self.fit.pending()
    }

    /// The measurement the line waits for; `None` when its fit is final.
    pub fn pending(&self) -> (probe: Option<Probe>)
        ensures
            probe == self@.fit.spec_pending(),
    {
        self.fit.pending()
    }

    /// Hands the line the bounds measured for its pending probe and returns
    /// the next probe wanted, if any.
    pub fn advance(&mut self, measured: Bounds) -> (probe: Option<Probe>)
        requires
            old(self)@.wf(),
        ensures
            final(self)@ == (LineView { fit: old(self)@.fit.spec_advance(measured), ..old(self)@ }),
            probe == final(self)@.fit.spec_pending(),
            final(self)@.wf(),
            old(self)@.fit.phase !is Done ==> final(self)@.fit.remaining() < old(
                self,
            )@.fit.remaining(),
    {
        self.fit.advance(measured)
    }

    /// The drawing passes for this line in a box that starts at height `y`:
    /// with the outline enabled the stroking pass first and the filling pass
    /// second, at the same position; else the filling pass alone.
    pub fn draw(&self, y: u64) -> (calls: Vec<DrawCall>)
        requires
            self@.wf(),
            y <= LENGTH_MAX,
        ensures
            draw_calls_of(calls@) == self@.spec_draw(y),
            calls@.len() == self@.spec_draw(y).len(),
            forall|i: int| 0 <= i < calls@.len() ==> (#[trigger] calls@[i])@ == self@.spec_draw(y)[i],
    {
        let spec = self.fit.spec();
        let left_x: i64 = -(spec.bounds.left as i64);
        let compressed = spec.text_scale_x < SCALE_ONE;
        let spare: i64 = self.width as i64 - spec.bounds.width as i64;
        let x: i64 = match self.text_align {
            TextAlign::Left => left_x,
            TextAlign::Center => if compressed {
                left_x
            } else {
                half_of(spare) - spec.bounds.left as i64
            },
            TextAlign::Right => if compressed {
                left_x
            } else {
                spare - spec.bounds.left as i64
            },
        };
        let offset_y: i64 = half_of(self.line_height as i64 - spec.bounds.height as i64);
        let text_y: i64 = y as i64 - spec.bounds.top as i64 + offset_y;

        let mut calls: Vec<DrawCall> = Vec::new();
        if !self.disable_outline {
            calls.push(
                DrawCall {
                    text: self.text.clone(),
                    x,
                    y: text_y,
                    font: self.prepare_font_for_draw(),
                    paint: self.prepare_paint_for_outline(),
                    align: self.text_align,
                },
            );
        }
        calls.push(
            DrawCall {
                text: self.text.clone(),
                x,
                y: text_y,
                font: self.prepare_font_for_draw(),
                paint: self.prepare_paint_for_draw(),
                align: self.text_align,
            },
        );
        assert(draw_calls_of(calls@) =~= self@.spec_draw(y));
        assert forall|i: int| 0 <= i < calls@.len() implies (#[trigger] calls@[i])@
            == self@.spec_draw(y)[i] by {
            assert(draw_calls_of(calls@)[i] == calls@[i]@);
        }
        calls
    }

    /// The paint text is measured with: a black, anti-aliased fill. The
    /// outline plays no part in measuring.
    pub fn prepare_paint_for_measure(&self) -> (paint: PaintSpec)
        ensures
            paint == (PaintSpec { anti_alias: true, color: Color::spec_black(), stroke: None }),
    {
        PaintSpec { anti_alias: true, color: Color::black(), stroke: None }
    }

    /// The paint the text is filled with: anti-aliased, in the line's colour.
    pub fn prepare_paint_for_draw(&self) -> (paint: PaintSpec)
        ensures
            paint == self@.spec_fill_paint(),
    {
        PaintSpec { anti_alias: true, color: self.color, stroke: None }
    }

    /// The paint the outline is stroked with: anti-aliased, in the outline's
    /// colour and width.
    pub fn prepare_paint_for_outline(&self) -> (paint: PaintSpec)
        ensures
            paint == self@.spec_outline_paint(),
    {
        PaintSpec { anti_alias: true, color: self.outline_color, stroke: Some(self.outline_width) }
    }

    /// The font for one measurement: the line's typeface at the probe's size and scale.
    pub fn prepare_font_for_measure(&self, probe: Probe) -> (font: FontSpec)
        ensures
            font@ == (FontSpecView {
                typeface: self@.typeface,
                size: probe.size,
                scale_x: probe.scale,
            }),
    {
        FontSpec { typeface: self.typeface.duplicate(), size: probe.size, scale_x: probe.scale }
    }

    /// The font the line is drawn with: its typeface at the fitted size and scale.
    pub fn prepare_font_for_draw(&self) -> (font: FontSpec)
        ensures
            font@ == self@.spec_draw_font(),
    {
        FontSpec {
            typeface: self.typeface.duplicate(),
            size: self.fit.spec().text_size,
            scale_x: self.fit.spec().text_scale_x,
        }
    }

    /// The fitted font size.
    pub fn get_text_size(&self) -> (size: u64)
        ensures
            size == self@.fit.spec.text_size,
    {
        self.fit.spec().text_size
    }

    /// The width measured at the fitted size before any compression.
    pub fn get_raw_bounds_width(&self) -> (width: u32)
        ensures
            width == self@.fit.spec.raw_width,
    {
        self.fit.spec().raw_width
    }

    /// The fit accepted last.
    pub fn get_spec(&self) -> (spec: MeasureSpec)
        ensures
            spec == self@.fit.spec,
    {
        self.fit.spec()
    }

    /// The state of the search for the fit.
    pub fn get_fit(&self) -> (fit: Fit)
        ensures
            fit == self@.fit,
    {
        self.fit.state()
    }

    /// The text of the line.
    pub fn get_text(&self) -> (text: &String)
        ensures
            text@ == self@.text,
    {
        &self.text
    }

    /// Width of the line's box.
    pub fn get_width(&self) -> (width: u64)
        ensures
            width == self@.width,
    {
        self.width
    }

    /// Height of the line's box.
    pub fn get_line_height(&self) -> (line_height: u64)
        ensures
            line_height == self@.line_height,
    {
        self.line_height
    }

    /// The typeface the line is set in.
    pub fn get_typeface(&self) -> (typeface: &Typeface)
        ensures
            typeface@ == self@.typeface,
    {
        &self.typeface
    }

    pub fn set_text(&mut self, text: String)
        ensures
            final(self)@ == (LineView { text: text@, ..old(self)@ }),
    {
        self.text = text;
    }

    /// Sets the width of the box, which must not be over `LENGTH_MAX`. The
    /// fit stays as it is until the line is measured again.
    pub fn set_width(&mut self, width: u64)
        requires
            width <= LENGTH_MAX,
        ensures
            final(self)@ == (LineView { width, ..old(self)@ }),
    {
        self.width = width;
    }

    /// Sets the height of the box, which must not be over `LENGTH_MAX`. The
    /// fit stays as it is until the line is measured again.
    pub fn set_line_height(&mut self, line_height: u64)
        requires
            line_height <= LENGTH_MAX,
        ensures
            final(self)@ == (LineView { line_height, ..old(self)@ }),
    {
        self.line_height = line_height;
    }

    pub fn set_typeface(&mut self, typeface: Typeface)
        ensures
            final(self)@ == (LineView { typeface: typeface@, ..old(self)@ }),
    {
        self.typeface = typeface;
    }

    pub fn set_text_align(&mut self, text_align: TextAlign)
        ensures
            final(self)@ == (LineView { text_align, ..old(self)@ }),
    {
        self.text_align = text_align;
    }

    pub fn set_color(&mut self, color: Color)
        ensures
            final(self)@ == (LineView { color, ..old(self)@ }),
    {
        self.color = color;
    }

    pub fn set_disable_stretch(&mut self, disable_stretch: bool)
        ensures
            final(self)@ == (LineView { disable_stretch, ..old(self)@ }),
    {
        self.disable_stretch = disable_stretch;
    }

    pub fn set_disable_outline(&mut self, disable_outline: bool)
        ensures
            final(self)@ == (LineView { disable_outline, ..old(self)@ }),
    {
        self.disable_outline = disable_outline;
    }

    pub fn set_outline_width(&mut self, outline_width: u64)
        ensures
            final(self)@ == (LineView { outline_width, ..old(self)@ }),
    {
        self.outline_width = outline_width;
    }

    pub fn set_outline_color(&mut self, outline_color: Color)
        ensures
            final(self)@ == (LineView { outline_color, ..old(self)@ }),
    {
        self.outline_color = outline_color;
    }
}

/// An uncompressed, centred line starts at half the spare width less the
/// glyphs' left bearing; a compressed line starts where a left-aligned one
/// would, whatever its alignment. Whatever the top of the line's box, that is
/// the horizontal position of every drawing pass, with no wrap-around.
pub proof fn lemma_alignment(line: LineView)
    requires
        line.wf(),
    ensures
        line.fit.spec.text_scale_x == SCALE_ONE && line.text_align == TextAlign::Center
            ==> line.spec_draw_x() == half(line.width - line.fit.spec.bounds.width)
            - line.fit.spec.bounds.left,
        line.fit.spec.text_scale_x == SCALE_ONE && line.text_align == TextAlign::Right
            ==> line.spec_draw_x() == line.width - line.fit.spec.bounds.width
            - line.fit.spec.bounds.left,
        line.text_align == TextAlign::Left ==> line.spec_draw_x() == -line.fit.spec.bounds.left,
        line.fit.spec.text_scale_x < SCALE_ONE ==> line.spec_draw_x() == (LineView {
            text_align: TextAlign::Left,
            ..line
        }).spec_draw_x(),
        line.fit.spec.text_scale_x < SCALE_ONE ==> line.spec_draw_x()
            == -line.fit.spec.bounds.left,
        forall|y: u64, i: int|
            0 <= i < line.spec_draw(y).len() ==> (#[trigger] line.spec_draw(y)[i]).x
                == line.spec_draw_x(),
{
}

/// The glyphs of a line are centred in the height of its box: every drawing
/// pass has the vertical position specified, with no wrap-around, for any
/// top of the box that a page can have.
pub proof fn lemma_vertical_position(line: LineView, y: u64)
    requires
        line.wf(),
        y <= LENGTH_MAX,
    ensures
        line.spec_draw_y(y) == y - line.fit.spec.bounds.top + half(
            line.line_height - line.fit.spec.bounds.height,
        ),
        forall|i: int|
            0 <= i < line.spec_draw(y).len() ==> (#[trigger] line.spec_draw(y)[i]).y
                == line.spec_draw_y(y),
{
}

} // verus!
