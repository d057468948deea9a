use vstd::prelude::*;
use crate::emoji::color::Color;
use crate::emoji::compose::{lines_of, Composer, Page};
use crate::emoji::fit::Fit;
use crate::emoji::line::{Line, LineView};
use crate::emoji::typeface::{Typeface, TypefaceView};
use crate::emoji::units::{units_from_pixels, LENGTH_MAX, UNIT};
use crate::emoji::utils::{
    chars_of, parse_color_code, parse_image_format, parse_text_align, spec_parse_color_code,
    spec_parse_image_format, spec_parse_text_align, ImageFormat, TextAlign,
};

verus! {

/// What to render and how: the lines of text, the size of the image in
/// pixels, and the style shared by all lines.
#[derive(Clone, Debug)]
pub struct Generator {
    pub texts: Vec<String>,
    pub width: u32,
    pub height: u32,
    pub flexible_width: bool,
    pub color: Color,
    pub background_color: Color,
    pub text_align: TextAlign,
    pub text_size_fixed: bool,
    pub disable_stretch: bool,
    pub disable_outline: bool,
    pub outline_width: u32,
    pub outline_color: Color,
    pub typeface: Typeface,
    pub format: ImageFormat,
    pub quality: u32,
}

/// The mathematical content of a `Generator`: the input of a page.
pub struct PageInput {
    pub texts: Seq<Seq<char>>,
    pub width: u32,
    pub height: u32,
    pub flexible_width: bool,
    pub color: Color,
    pub background_color: Color,
    pub text_align: TextAlign,
    pub text_size_fixed: bool,
    pub disable_stretch: bool,
    pub disable_outline: bool,
    pub outline_width: u32,
    pub outline_color: Color,
    pub typeface: TypefaceView,
    pub format: ImageFormat,
    pub quality: u32,
}

impl View for Generator {
    type V = PageInput;

    open spec fn view(&self) -> PageInput {
        PageInput {
            texts: texts_of(self.texts@),
            width: self.width,
            height: self.height,
            flexible_width: self.flexible_width,
            color: self.color,
            background_color: self.background_color,
            text_align: self.text_align,
            text_size_fixed: self.text_size_fixed,
            disable_stretch: self.disable_stretch,
            disable_outline: self.disable_outline,
            outline_width: self.outline_width,
            outline_color: self.outline_color,
            typeface: self.typeface@,
            format: self.format,
            quality: self.quality,
        }
    }
}

/// The lines of a text: the pieces between its line feeds. A text with `n`
/// line feeds has `n + 1` lines; the empty text has one empty line.
pub open spec fn split_lines(text: Seq<char>) -> Seq<Seq<char>>
    decreases text.len(),
{
    if text.len() == 0 {
        seq![Seq::<char>::empty()]
    } else {
        let before = split_lines(text.drop_last());
        if text.last() == '\n' {
            before.push(Seq::<char>::empty())
        } else {
            before.drop_last().push(before.last().push(text.last()))
        }
    }
}

/// The characters of each string.
pub open spec fn texts_of(strings: Seq<String>) -> Seq<Seq<char>> {
    Seq::new(strings.len(), |i: int| strings[i]@)
}

/// The lines joined again, with a line feed between neighbours.
pub open spec fn join_lines(lines: Seq<Seq<char>>) -> Seq<char>
    decreases lines.len(),
{
    if lines.len() == 0 {
        Seq::<char>::empty()
    } else if lines.len() == 1 {
        lines[0]
    } else {
        join_lines(lines.drop_last()) + seq!['\n'] + lines.last()
    }
}

/// Splitting loses nothing and leaves no line feed inside a line: the lines
/// joined by line feeds are the text again.
pub proof fn lemma_split_lines(text: Seq<char>)
    ensures
        split_lines(text).len() >= 1,
        join_lines(split_lines(text)) == text,
        forall|i: int, j: int|
            0 <= i < split_lines(text).len() && 0 <= j < split_lines(text)[i].len()
                ==> split_lines(text)[i][j] != '\n',
    decreases text.len(),
{
    if text.len() > 0 {
        let shorter = text.drop_last();
        let before = split_lines(shorter);
        lemma_split_lines(shorter);
        let lines = split_lines(text);
        if text.last() == '\n' {
            assert(lines.drop_last() == before);
            assert(join_lines(lines) == join_lines(before) + seq!['\n'] + Seq::<char>::empty());
            assert(join_lines(lines) == text);
        } else {
            let grown = before.last().push(text.last());
            assert(lines.last() == grown);
            if before.len() == 1 {
                assert(before[0] == shorter);
                assert(lines[0] == shorter.push(text.last()));
                assert(join_lines(lines) == text);
            } else {
                assert(lines.drop_last() == before.drop_last());
                assert(join_lines(before) == join_lines(before.drop_last()) + seq!['\n']
                    + before.last());
                assert(join_lines(lines) == join_lines(before.drop_last()) + seq!['\n'] + grown);
                assert(join_lines(lines) == (join_lines(before.drop_last()) + seq!['\n']
                    + before.last()).push(text.last()));
                assert(shorter.push(text.last()) == text);
            }
        }
    }
}

/// The formats that have a keyword are the formats that can be set: `png`
/// and `jpeg` are the only keywords, and the format of either is accepted
/// by `set_format`.
pub proof fn lemma_format_keywords(text: Seq<char>)
    ensures
        spec_parse_image_format(text) is Ok <==> text == "png"@ || text == "jpeg"@,
        spec_parse_image_format(text) matches Ok(format) ==> Generator::spec_check_format(format)
            == Ok::<ImageFormat, Seq<char>>(format),
        text == "png"@ ==> spec_parse_image_format(text) == Ok::<ImageFormat, Seq<char>>(
            ImageFormat::PNG,
        ),
        text == "jpeg"@ ==> spec_parse_image_format(text) == Ok::<ImageFormat, Seq<char>>(
            ImageFormat::JPEG,
        ),
{
    reveal_strlit("png");
    reveal_strlit("jpeg");
    assert("png"@.len() == 3 && "jpeg"@.len() == 4);
}

impl PageInput {
    /// The defaults: no text yet, 128 by 128 pixels, fixed width, black on
    /// transparent, centred, sizes fitted line by line, stretch allowed, a
    /// white outline 8 pixels wide, the default typeface, PNG at quality 100.
    pub open spec fn spec_new() -> PageInput {
        PageInput {
            texts: Seq::<Seq<char>>::empty(),
            width: 128,
            height: 128,
            flexible_width: false,
            color: Color::spec_black(),
            background_color: Color::spec_transparent(),
            text_align: TextAlign::Center,
            text_size_fixed: false,
            disable_stretch: false,
            disable_outline: false,
            outline_width: 8,
            outline_color: Color::spec_white(),
            typeface: TypefaceView::Default,
            format: ImageFormat::PNG,
            quality: 100,
        }
    }

    /// Height of each line's box: the page's height divided evenly among the
    /// lines, rounded down to a fixed-point unit.
    pub open spec fn spec_line_height(self) -> u64 {
        if self.texts.len() == 0 {
            (self.height * UNIT) as u64
        } else {
            ((self.height * UNIT) / (self.texts.len() as int)) as u64
        }
    }

    /// The line made for the text at `index`, its search started.
    pub open spec fn spec_line(self, index: int) -> LineView {
        LineView {
            text: self.texts[index],
            width: (self.width * UNIT) as u64,
            line_height: self.spec_line_height(),
            typeface: self.typeface,
            text_align: self.text_align,
            color: self.color,
            disable_stretch: self.disable_stretch,
            disable_outline: self.disable_outline,
            outline_width: (self.outline_width * UNIT) as u64,
            outline_color: self.outline_color,
            fit: Fit::spec_adjusted(
                (self.width * UNIT) as u64,
                self.spec_line_height(),
                self.disable_stretch,
                self.texts[index].len() > 0,
            ),
        }
    }

    /// The page before anything was looked at: one line per text, each in a
    /// box as wide as the page, its search just begun.
    pub open spec fn spec_first_page(self) -> Page {
        Page::spec_first(
            Seq::new(self.texts.len(), |i: int| self.spec_line(i)),
            (self.width * UNIT) as u64,
            (self.height * UNIT) as u64,
            self.spec_line_height(),
            self.flexible_width,
            self.text_size_fixed,
            self.background_color,
            self.format,
            self.quality,
        )
    }

    /// The page as composing begins: the first page, brought to the first
    /// thing to be done outside.
    pub open spec fn spec_generate(self) -> Page {
        self.spec_first_page().settle()
    }
}

impl Generator {
    /// The defaults: no text yet, 128 by 128 pixels, fixed width, black on
    /// transparent, centred, sizes fitted line by line, stretch allowed, a
    /// white outline 8 pixels wide, the default typeface, PNG at quality 100.
    pub fn new() -> (generator: Generator)
        ensures
            generator@ == PageInput::spec_new(),
    {
        assert(texts_of(Seq::<String>::empty()) =~= Seq::<Seq<char>>::empty());
        Generator {
            texts: Vec::new(),
            width: 128,
            height: 128,
            flexible_width: false,
            color: Color::black(),
            background_color: Color::transparent(),
            text_align: TextAlign::Center,
            text_size_fixed: false,
            disable_stretch: false,
            disable_outline: false,
            outline_width: 8,
            outline_color: Color::white(),
            typeface: Typeface::Default,
            format: ImageFormat::PNG,
            quality: 100,
        }
    }

    /// Sets the lines to render: the pieces of `texts` between its line feeds.
    pub fn set_texts(&mut self, texts: String)
        ensures
            final(self)@ == (PageInput { texts: split_lines(texts@), ..old(self)@ }),
    {
        let chars = chars_of(texts.as_str());
        let mut lines: Vec<String> = Vec::new();
        let mut start: usize = 0;
        let mut i: usize = 0;
        assert(texts@.take(0) == Seq::<char>::empty());
        assert(texts_of(lines@).push(texts@.subrange(0, 0)) == seq![Seq::<char>::empty()]);
        while i < chars.len()
            invariant
                start <= i <= chars.len(),
                chars@ == texts@,
                texts_of(lines@).push(texts@.subrange(start as int, i as int)) == split_lines(
                    texts@.take(i as int),
                ),
            decreases chars.len() - i,
        {
            let ghost before = split_lines(texts@.take(i as int));
            let ghost piece_so_far = texts@.subrange(start as int, i as int);
            assert(texts@.take(i + 1).drop_last() == texts@.take(i as int));
            assert(texts@.take(i + 1).last() == chars@[i as int]);
            assert(before.last() == piece_so_far);
            assert(before.drop_last() == texts_of(lines@));
            if chars[i] == '\n' {
                let piece = texts.as_str().substring_char(start, i);
                let ghost old_lines = lines@;
                lines.push(String::from_str(piece));
                assert(texts_of(lines@) == texts_of(old_lines).push(piece_so_far));
                start = i + 1;
                assert(texts@.subrange(start as int, i + 1) == Seq::<char>::empty());
            } else {
                assert(texts@.subrange(start as int, i + 1) == piece_so_far.push(chars@[i as int]));
            }
            i += 1;
        }
        assert(texts@.take(chars.len() as int) == texts@);
        let piece = texts.as_str().substring_char(start, chars.len());
        let ghost old_lines = lines@;
        lines.push(String::from_str(piece));
        assert(texts_of(lines@) == texts_of(old_lines).push(piece@));
        self.texts = lines;
    }

    pub fn set_width(&mut self, width: u32)
        ensures
            final(self)@ == (PageInput { width, ..old(self)@ }),
    {
        self.width = width;
    }

    pub fn set_height(&mut self, height: u32)
        ensures
            final(self)@ == (PageInput { height, ..old(self)@ }),
    {
        self.height = height;
    }

    pub fn set_flexible_width(&mut self, flexible_width: bool)
        ensures
            final(self)@ == (PageInput { flexible_width, ..old(self)@ }),
    {
        self.flexible_width = flexible_width;
    }

    /// Sets the text colour from a colour code; a malformed code is reported
    /// and changes nothing.
    pub fn set_color(&mut self, color: String) -> (result: Result<(), String>)
        ensures
            match spec_parse_color_code(color@) {
                Ok(parsed) => result is Ok && final(self)@ == (PageInput {
                    color: parsed,
                    ..old(self)@
                }),
                Err(message) => result is Err && result->Err_0@ == message && final(self)@ == old(
                    self,
                )@,
            },
    {
        match parse_color_code(color) {
            Ok(parsed) => {
                self.color = parsed;
                Ok(())
            },
            Err(message) => Err(message),
        }
    }

    /// Sets the background colour from a colour code; a malformed code is
    /// reported and changes nothing.
    pub fn set_background_color(&mut self, background_color: String) -> (result: Result<
        (),
        String,
    >)
        ensures
            match spec_parse_color_code(background_color@) {
                Ok(parsed) => result is Ok && final(self)@ == (PageInput {
                    background_color: parsed,
                    ..old(self)@
                }),
                Err(message) => result is Err && result->Err_0@ == message && final(self)@ == old(
                    self,
                )@,
            },
    {
        match parse_color_code(background_color) {
            Ok(parsed) => {
                self.background_color = parsed;
                Ok(())
            },
            Err(message) => Err(message),
        }
    }

    pub fn set_text_align(&mut self, text_align: TextAlign)
        ensures
            final(self)@ == (PageInput { text_align, ..old(self)@ }),
    {
        self.text_align = text_align;
    }

    /// Sets the alignment from its keyword; an unknown keyword is reported
    /// and changes nothing.
    pub fn set_text_align_by_string(&mut self, text_align: String) -> (result: Result<(), String>)
        ensures
            match spec_parse_text_align(text_align@) {
                Ok(parsed) => result is Ok && final(self)@ == (PageInput {
                    text_align: parsed,
                    ..old(self)@
                }),
                Err(message) => result is Err && result->Err_0@ == message && final(self)@ == old(
                    self,
                )@,
            },
    {
        match parse_text_align(text_align) {
            Ok(parsed) => {
                self.text_align = parsed;
                Ok(())
            },
            Err(message) => Err(message),
        }
    }

    pub fn set_text_size_fixed(&mut self, text_size_fixed: bool)
        ensures
            final(self)@ == (PageInput { text_size_fixed, ..old(self)@ }),
    {
        self.text_size_fixed = text_size_fixed;
    }

    pub fn set_disable_stretch(&mut self, disable_stretch: bool)
        ensures
            final(self)@ == (PageInput { disable_stretch, ..old(self)@ }),
    {
        self.disable_stretch = disable_stretch;
    }

    pub fn set_disable_outline(&mut self, disable_outline: bool)
        ensures
            final(self)@ == (PageInput { disable_outline, ..old(self)@ }),
    {
        self.disable_outline = disable_outline;
    }

    pub fn set_outline_width(&mut self, outline_width: u32)
        ensures
            final(self)@ == (PageInput { outline_width, ..old(self)@ }),
    {
        self.outline_width = outline_width;
    }

    /// Sets the outline colour from a colour code; a malformed code is
    /// reported and changes nothing.
    pub fn set_outline_color(&mut self, outline_color: String) -> (result: Result<(), String>)
        ensures
            match spec_parse_color_code(outline_color@) {
                Ok(parsed) => result is Ok && final(self)@ == (PageInput {
                    outline_color: parsed,
                    ..old(self)@
                }),
                Err(message) => result is Err && result->Err_0@ == message && final(self)@ == old(
                    self,
                )@,
            },
    {
        match parse_color_code(outline_color) {
            Ok(parsed) => {
                self.outline_color = parsed;
                Ok(())
            },
            Err(message) => Err(message),
        }
    }

    /// Chooses the typeface of a font file, if the file could be loaded as a
    /// font (`loaded`); else the typeface chosen before stays.
    pub fn set_typeface_file(&mut self, path: String, loaded: bool)
        ensures
            final(self)@ == if loaded {
                PageInput { typeface: TypefaceView::File(path@), ..old(self)@ }
            } else {
                old(self)@
            },
    {
        if loaded {
            self.typeface = Typeface::File(path);
        }
    }

    /// Chooses the typeface of a font family, if a font of that name was found
    /// (`found`); else the typeface chosen before stays.
    pub fn set_typeface_name(&mut self, name: String, found: bool)
        ensures
            final(self)@ == if found {
                PageInput { typeface: TypefaceView::Name(name@), ..old(self)@ }
            } else {
                old(self)@
            },
    {
        if found {
            self.typeface = Typeface::Name(name);
        }
    }

    /// What `set_format` answers: PNG and JPEG are accepted, any other format
    /// is reported by its name.
    pub open spec fn spec_check_format(format: ImageFormat) -> Result<ImageFormat, Seq<char>> {
        match format {
            ImageFormat::PNG => Ok(format),
            ImageFormat::JPEG => Ok(format),
            ImageFormat::WEBP => Err("Invalid image format: WEBP"@),
            ImageFormat::GIF => Err("Invalid image format: GIF"@),
        }
    }

    /// Sets the encoding, which must be PNG or JPEG; another format is
    /// reported and changes nothing.
    pub fn set_format(&mut self, format: ImageFormat) -> (result: Result<(), String>)
        ensures
            match Self::spec_check_format(format) {
                Ok(accepted) => result is Ok && final(self)@ == (PageInput {
                    format: accepted,
                    ..old(self)@
                }),
                Err(message) => result is Err && result->Err_0@ == message && final(self)@ == old(
                    self,
                )@,
            },
    {
        match format {
            ImageFormat::PNG => {
                self.format = format;
                Ok(())
            },
            ImageFormat::JPEG => {
                self.format = format;
                Ok(())
            },
            ImageFormat::WEBP => Err(String::from_str("Invalid image format: WEBP")),
            ImageFormat::GIF => Err(String::from_str("Invalid image format: GIF")),
        }
    }

    /// Sets the encoding from its keyword, `png` or `jpeg`; any other keyword
    /// is reported and changes nothing.
    pub fn set_format_by_string(&mut self, format: String) -> (result: Result<(), String>)
        ensures
            match spec_parse_image_format(format@) {
                Ok(parsed) => result is Ok && final(self)@ == (PageInput {
                    format: parsed,
                    ..old(self)@
                }),
                Err(message) => result is Err && result->Err_0@ == message && final(self)@ == old(
                    self,
                )@,
            },
    {
        match parse_image_format(format) {
            Ok(parsed) => {
                self.format = parsed;
                Ok(())
            },
            Err(message) => Err(message),
        }
    }

    /// Begins composing the page. The composer returned says what is to be
    /// done outside (`pending`) and is told what came of it (`step`) until it
    /// finishes or fails.
    pub fn generate(&self) -> (composer: Composer)
        ensures
            composer@ == self@.spec_generate(),
            composer@.wf(),
    {
        let width = units_from_pixels(self.width);
        let height = units_from_pixels(self.height);
        let count = self.texts.len();
        let line_height: u64 = if count == 0 {
            height
        } else {
            height / (count as u64)
        };
        assert(line_height * count <= height) by (nonlinear_arith)
            requires
                line_height == if count == 0 {
                    height as int
                } else {
                    height as int / count as int
                },
        ;
        let outline_width = units_from_pixels(self.outline_width);

        let mut lines: Vec<Line> = Vec::new();
        let mut i: usize = 0;
        while i < count
            invariant
                i <= count,
                count == self.texts.len(),
                width == self.width * UNIT,
                height == self.height * UNIT,
                line_height == self@.spec_line_height(),
                line_height <= height,
                height <= LENGTH_MAX,
                width <= LENGTH_MAX,
                outline_width == self.outline_width * UNIT,
                lines.len() == i,
                forall|j: int| 0 <= j < i ==> (#[trigger] lines[j])@ == self@.spec_line(j),
            decreases count - i,
        {
            let mut line = Line::new();
            line.set_width(width);
            line.set_line_height(line_height);
            line.set_text(self.texts[i].clone());
            line.set_typeface(self.typeface.duplicate());
            line.set_text_align(self.text_align);
            line.set_color(self.color);
            line.set_disable_stretch(self.disable_stretch);
            line.set_disable_outline(self.disable_outline);
            line.set_outline_width(outline_width);
            line.set_outline_color(self.outline_color);
            line.measure(None);
            lines.push(line);
            i += 1;
        }
        assert(lines_of(lines@) =~= self@.spec_first_page().lines);
        Composer::start(
            lines,
            width,
            height,
            line_height,
            self.flexible_width,
            self.text_size_fixed,
            self.background_color,
            self.format,
            self.quality,
        )
    }

    pub fn set_quality(&mut self, quality: u32)
        ensures
            final(self)@ == (PageInput { quality, ..old(self)@ }),
    {
        self.quality = quality;
    }
}

} // verus!
