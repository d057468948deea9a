use vstd::prelude::*;
use crate::emoji::color::Color;
use crate::emoji::compose::Composer;
use crate::emoji::generator::{split_lines, Generator, PageInput};
use crate::emoji::typeface::TypefaceView;
use crate::emoji::utils::{
    spec_parse_color_code, spec_parse_image_format, spec_parse_text_align, ImageFormat, TextAlign,
};

pub mod emoji;

verus! {

/// The settings a caller may give; each one left out keeps its default.
#[derive(Clone, Debug)]
pub struct EmojiOptions {
    pub width: Option<u32>,
    pub height: Option<u32>,
    pub flexible_width: Option<bool>,
    pub color: Option<String>,
    pub background_color: Option<String>,
    pub text_align: Option<String>,
    pub text_size_fixed: Option<bool>,
    pub disable_stretch: Option<bool>,
    pub disable_outline: Option<bool>,
    pub outline_width: Option<u32>,
    pub outline_color: Option<String>,
    pub typeface_file: Option<String>,
    pub typeface_name: Option<String>,
    pub format: Option<String>,
    pub quality: Option<u32>,
}

/// The mathematical content of `EmojiOptions`.
pub struct OptionsView {
    pub width: Option<u32>,
    pub height: Option<u32>,
    pub flexible_width: Option<bool>,
    pub color: Option<Seq<char>>,
    pub background_color: Option<Seq<char>>,
    pub text_align: Option<Seq<char>>,
    pub text_size_fixed: Option<bool>,
    pub disable_stretch: Option<bool>,
    pub disable_outline: Option<bool>,
    pub outline_width: Option<u32>,
    pub outline_color: Option<Seq<char>>,
    pub typeface_file: Option<Seq<char>>,
    pub typeface_name: Option<Seq<char>>,
    pub format: Option<Seq<char>>,
    pub quality: Option<u32>,
}

/// The characters of a string that may be absent.
pub open spec fn chars_of_option(text: Option<String>) -> Option<Seq<char>> {
    match text {
        Some(text) => Some(text@),
        None => None,
    }
}

impl View for EmojiOptions {
    type V = OptionsView;

    open spec fn view(&self) -> OptionsView {
        OptionsView {
            width: self.width,
            height: self.height,
            flexible_width: self.flexible_width,
            color: chars_of_option(self.color),
            background_color: chars_of_option(self.background_color),
            text_align: chars_of_option(self.text_align),
            text_size_fixed: self.text_size_fixed,
            disable_stretch: self.disable_stretch,
            disable_outline: self.disable_outline,
            outline_width: self.outline_width,
            outline_color: chars_of_option(self.outline_color),
            typeface_file: chars_of_option(self.typeface_file),
            typeface_name: chars_of_option(self.typeface_name),
            format: chars_of_option(self.format),
            quality: self.quality,
        }
    }
}

/// The options, if any, as mathematical values.
pub open spec fn options_of(options: Option<EmojiOptions>) -> Option<OptionsView> {
    match options {
        Some(options) => Some(options@),
        None => None,
    }
}

/// The value given, or the default.
pub open spec fn given_or<T>(given: Option<T>, default: T) -> T {
    match given {
        Some(value) => value,
        None => default,
    }
}

/// The message for a colour code that is given and malformed.
pub open spec fn color_error(code: Option<Seq<char>>) -> Option<Seq<char>> {
    match code {
        Some(text) => match spec_parse_color_code(text) {
            Ok(_) => None,
            Err(message) => Some(message),
        },
        None => None,
    }
}

/// The colour of a well-formed code that is given, or the default.
pub open spec fn color_or(code: Option<Seq<char>>, default: Color) -> Color {
    match code {
        Some(text) => match spec_parse_color_code(text) {
            Ok(color) => color,
            Err(_) => default,
        },
        None => default,
    }
}

/// The message for an alignment keyword that is given and unknown.
pub open spec fn text_align_error(keyword: Option<Seq<char>>) -> Option<Seq<char>> {
    match keyword {
        Some(text) => match spec_parse_text_align(text) {
            Ok(_) => None,
            Err(message) => Some(message),
        },
        None => None,
    }
}

/// The alignment of a known keyword that is given, or the default.
pub open spec fn text_align_or(keyword: Option<Seq<char>>, default: TextAlign) -> TextAlign {
    match keyword {
        Some(text) => match spec_parse_text_align(text) {
            Ok(align) => align,
            Err(_) => default,
        },
        None => default,
    }
}

/// The message for a format keyword that is given and unknown.
pub open spec fn format_error(keyword: Option<Seq<char>>) -> Option<Seq<char>> {
    match keyword {
        Some(text) => match spec_parse_image_format(text) {
            Ok(_) => None,
            Err(message) => Some(message),
        },
        None => None,
    }
}

/// The format of a known keyword that is given, or the default.
pub open spec fn format_or(keyword: Option<Seq<char>>, default: ImageFormat) -> ImageFormat {
    match keyword {
        Some(text) => match spec_parse_image_format(text) {
            Ok(format) => format,
            Err(_) => default,
        },
        None => default,
    }
}

/// The typeface chosen: a font file counts only if it was loaded, a font name
/// only if it was found, and the name, applied last, wins over the file.
pub open spec fn typeface_or(
    file: Option<Seq<char>>,
    file_loaded: bool,
    name: Option<Seq<char>>,
    name_found: bool,
    default: TypefaceView,
) -> TypefaceView {
    if name is Some && name_found {
        TypefaceView::Name(name->0)
    } else if file is Some && file_loaded {
        TypefaceView::File(file->0)
    } else {
        default
    }
}

/// The first complaint about the options, in the order they are applied:
/// text colour, background colour, alignment, outline colour, format.
pub open spec fn spec_options_error(options: OptionsView) -> Option<Seq<char>> {
    if color_error(options.color) is Some {
        color_error(options.color)
    } else if color_error(options.background_color) is Some {
        color_error(options.background_color)
    } else if text_align_error(options.text_align) is Some {
        text_align_error(options.text_align)
    } else if color_error(options.outline_color) is Some {
        color_error(options.outline_color)
    } else {
        format_error(options.format)
    }
}

/// The page input with every option that is given applied to it.
pub open spec fn spec_apply(
    input: PageInput,
    options: OptionsView,
    typeface_file_loaded: bool,
    typeface_name_found: bool,
) -> PageInput {
    PageInput {
        texts: input.texts,
        width: given_or(options.width, input.width),
        height: given_or(options.height, input.height),
        flexible_width: given_or(options.flexible_width, input.flexible_width),
        color: color_or(options.color, input.color),
        background_color: color_or(options.background_color, input.background_color),
        text_align: text_align_or(options.text_align, input.text_align),
        text_size_fixed: given_or(options.text_size_fixed, input.text_size_fixed),
        disable_stretch: given_or(options.disable_stretch, input.disable_stretch),
        disable_outline: given_or(options.disable_outline, input.disable_outline),
        outline_width: given_or(options.outline_width, input.outline_width),
        outline_color: color_or(options.outline_color, input.outline_color),
        typeface: typeface_or(
            options.typeface_file,
            typeface_file_loaded,
            options.typeface_name,
            typeface_name_found,
            input.typeface,
        ),
        format: format_or(options.format, input.format),
        quality: given_or(options.quality, input.quality),
    }
}

/// The page input for a text and options: the lines of the text and, for each
/// setting, the value the options give or else the default; or the first
/// complaint about the options.
pub open spec fn spec_configure(
    text: Seq<char>,
    options: Option<OptionsView>,
    typeface_file_loaded: bool,
    typeface_name_found: bool,
) -> Result<PageInput, Seq<char>> {
    let start = PageInput { texts: split_lines(text), ..PageInput::spec_new() };
    match options {
        None => Ok(start),
        Some(options) => match spec_options_error(options) {
            Some(message) => Err(message),
            None => Ok(spec_apply(start, options, typeface_file_loaded, typeface_name_found)),
        },
    }
}

fn apply_canvas(emoji: &mut Generator, options: &EmojiOptions)
    ensures
        final(emoji)@ == (PageInput {
            width: given_or(options.width, old(emoji).width),
            height: given_or(options.height, old(emoji).height),
            flexible_width: given_or(options.flexible_width, old(emoji).flexible_width),
            quality: given_or(options.quality, old(emoji).quality),
            ..old(emoji)@
        }),
{
    if let Some(width) = options.width {
        emoji.set_width(width);
    }
    if let Some(height) = options.height {
        emoji.set_height(height);
    }
    if let Some(flexible_width) = options.flexible_width {
        emoji.set_flexible_width(flexible_width);
    }
    if let Some(quality) = options.quality {
        emoji.set_quality(quality);
    }
}

fn apply_policy(emoji: &mut Generator, options: &EmojiOptions)
    ensures
        final(emoji)@ == (PageInput {
            text_size_fixed: given_or(options.text_size_fixed, old(emoji).text_size_fixed),
            disable_stretch: given_or(options.disable_stretch, old(emoji).disable_stretch),
            disable_outline: given_or(options.disable_outline, old(emoji).disable_outline),
            outline_width: given_or(options.outline_width, old(emoji).outline_width),
            ..old(emoji)@
        }),
{
    if let Some(text_size_fixed) = options.text_size_fixed {
        emoji.set_text_size_fixed(text_size_fixed);
    }
    if let Some(disable_stretch) = options.disable_stretch {
        emoji.set_disable_stretch(disable_stretch);
    }
    if let Some(disable_outline) = options.disable_outline {
        emoji.set_disable_outline(disable_outline);
    }
    if let Some(outline_width) = options.outline_width {
        emoji.set_outline_width(outline_width);
    }
}

fn apply_typeface(
    emoji: &mut Generator,
    typeface_file: Option<String>,
    typeface_file_loaded: bool,
    typeface_name: Option<String>,
    typeface_name_found: bool,
)
    ensures
        final(emoji)@ == (PageInput {
            typeface: typeface_or(
                chars_of_option(typeface_file),
                typeface_file_loaded,
                chars_of_option(typeface_name),
                typeface_name_found,
                old(emoji)@.typeface,
            ),
            ..old(emoji)@
        }),
{
    if let Some(path) = typeface_file {
        emoji.set_typeface_file(path, typeface_file_loaded);
    }
    if let Some(name) = typeface_name {
        emoji.set_typeface_name(name, typeface_name_found);
    }
}

fn apply_colors(
    emoji: &mut Generator,
    color: Option<String>,
    background_color: Option<String>,
) -> (result: Result<(), String>)
    ensures
        if color_error(chars_of_option(color)) is Some {
            result is Err && result->Err_0@ == color_error(chars_of_option(color))->0
        } else if color_error(chars_of_option(background_color)) is Some {
            result is Err && result->Err_0@ == color_error(chars_of_option(background_color))->0
        } else {
            result is Ok && final(emoji)@ == (PageInput {
                color: color_or(chars_of_option(color), old(emoji).color),
                background_color: color_or(
                    chars_of_option(background_color),
                    old(emoji).background_color,
                ),
                ..old(emoji)@
            })
        },
{
    if let Some(code) = color {
        match emoji.set_color(code) {
            Ok(()) => {},
            Err(message) => {
                return Err(message);
            },
        }
    }
    if let Some(code) = background_color {
        match emoji.set_background_color(code) {
            Ok(()) => {},
            Err(message) => {
                return Err(message);
            },
        }
    }
    Ok(())
}

fn apply_keywords(
    emoji: &mut Generator,
    text_align: Option<String>,
    outline_color: Option<String>,
    format: Option<String>,
) -> (result: Result<(), String>)
    ensures
        if text_align_error(chars_of_option(text_align)) is Some {
            result is Err && result->Err_0@ == text_align_error(chars_of_option(text_align))->0
        } else if color_error(chars_of_option(outline_color)) is Some {
            result is Err && result->Err_0@ == color_error(chars_of_option(outline_color))->0
        } else if format_error(chars_of_option(format)) is Some {
            result is Err && result->Err_0@ == format_error(chars_of_option(format))->0
        } else {
            result is Ok && final(emoji)@ == (PageInput {
                text_align: text_align_or(chars_of_option(text_align), old(emoji).text_align),
                outline_color: color_or(chars_of_option(outline_color), old(emoji).outline_color),
                format: format_or(chars_of_option(format), old(emoji).format),
                ..old(emoji)@
            })
        },
{
    if let Some(keyword) = text_align {
        match emoji.set_text_align_by_string(keyword) {
            Ok(()) => {},
            Err(message) => {
                return Err(message);
            },
        }
    }
    if let Some(code) = outline_color {
        match emoji.set_outline_color(code) {
            Ok(()) => {},
            Err(message) => {
                return Err(message);
            },
        }
    }
    if let Some(keyword) = format {
        match emoji.set_format_by_string(keyword) {
            Ok(()) => {},
            Err(message) => {
                return Err(message);
            },
        }
    }
    Ok(())
}

/// Builds the generator for a text and options, or reports the first option
/// that is malformed. `typeface_file_loaded` says whether the font file named
/// in the options could be loaded, `typeface_name_found` whether a font of
/// the family named there exists.
pub fn configure(
    text: String,
    options: Option<EmojiOptions>,
    typeface_file_loaded: bool,
    typeface_name_found: bool,
) -> (result: Result<Generator, String>)
    ensures
        match spec_configure(
            text@,
            options_of(options),
            typeface_file_loaded,
            typeface_name_found,
        ) {
            Ok(input) => result is Ok && result->Ok_0@ == input,
            Err(message) => result is Err && result->Err_0@ == message,
        },
{
    let mut emoji = Generator::new();
    emoji.set_texts(text);

    if let Some(options) = options {
        apply_canvas(&mut emoji, &options);
        apply_policy(&mut emoji, &options);
        match apply_colors(&mut emoji, options.color, options.background_color) {
            Ok(()) => {},
            Err(message) => {
                return Err(message);
            },
        }
        match apply_keywords(&mut emoji, options.text_align, options.outline_color, options.format) {
            Ok(()) => {},
            Err(message) => {
                return Err(message);
            },
        }
        apply_typeface(
            &mut emoji,
            options.typeface_file,
            typeface_file_loaded,
            options.typeface_name,
            typeface_name_found,
        );
    }
    Ok(emoji)
}

/// Begins composing the image for a text and options: the composer of the
/// generator that `configure` builds, or the first complaint about the
/// options, before anything is measured.
pub fn generate(
    text: String,
    options: Option<EmojiOptions>,
    typeface_file_loaded: bool,
    typeface_name_found: bool,
) -> (result: Result<Composer, String>)
    ensures
        match spec_configure(
            text@,
            options_of(options),
            typeface_file_loaded,
            typeface_name_found,
        ) {
            Ok(input) => result is Ok && result->Ok_0@ == input.spec_generate()
                && result->Ok_0@.wf(),
            Err(message) => result is Err && result->Err_0@ == message,
        },
{
    match configure(text, options, typeface_file_loaded, typeface_name_found) {
        Ok(emoji) => Ok(emoji.generate()),
        Err(message) => Err(message),
    }
}

} // verus!
