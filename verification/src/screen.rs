//! What is drawn on the screen: the host's name in capitals, underlined.

use crate::error::KeyboardError;
use embedded_graphics::fonts::{Font, Font12x16};
use vstd::prelude::*;
use vstd::utf8::encode_utf8;

verus! {

/// The measures of a font.
#[derive(Debug, Clone, Copy, PartialEq, Eq, Structural)]
pub struct FontMetrics {
    /// The width of a character's cell, in pixels.
    pub character_width: u32,
    /// The height of a character's cell, in pixels.
    pub character_height: u32,
    /// The gap between two characters, in pixels.
    pub character_spacing: u32,
    /// Whether each character has a width of its own.
    pub variable_width: bool,
}

/// A point of the screen, or beside it: `x` to the right, `y` down.
#[derive(Debug, Clone, Copy, PartialEq, Eq, Structural)]
pub struct Point {
    pub x: i32,
    pub y: i32,
}

/// A straight line between two points.
#[derive(Debug, Clone, Copy, PartialEq, Eq, Structural)]
pub struct Line {
    pub start: Point,
    pub end: Point,
}

/// The sum of the widths of some characters.
pub open spec fn total_width(widths: Seq<u32>) -> nat
    decreases widths.len(),
{
    if widths.len() == 0 {
        0
    } else {
        total_width(widths.drop_last()) + widths.last() as nat
    }
}

/// The width of a text of `len` bytes in a font: the widths of its
/// characters (`widths`, where each has its own, else a cell for each byte)
/// and a gap after each byte but the last.
pub open spec fn text_width(len: nat, widths: Seq<u32>, font: FontMetrics) -> int {
    let characters = if font.variable_width {
        total_width(widths) as int
    } else {
        len * font.character_width
    };
    characters + (len - 1) * font.character_spacing
}

/// Whether a text of `len` bytes has a width in a font: it is not empty and
/// the width fits in 32 bits.
pub open spec fn has_width(len: nat, widths: Seq<u32>, font: FontMetrics) -> bool {
    len >= 1 && text_width(len, widths, font) <= u32::MAX
}

/// The measures of the font in which the host's name is drawn: cells of 12
/// by 16 pixels, set side by side.
pub open spec fn host_font() -> FontMetrics {
    FontMetrics {
        character_width: 12,
        character_height: 16,
        character_spacing: 0,
        variable_width: false,
    }
}

/// The constants of `embedded_graphics::fonts::Font12x16` as a `Font`: the
/// size of its cells, which is 12 by 16, and the spacing and the variable
/// width that it leaves at the trait's defaults, none and off.
#[verifier::external_body]
fn font_12x16() -> (font: FontMetrics)
    ensures
        font == host_font(),
{
    FontMetrics {
        character_width: Font12x16::CHARACTER_SIZE.width,
        character_height: Font12x16::CHARACTER_SIZE.height,
        character_spacing: Font12x16::CHARACTER_SPACING,
        variable_width: Font12x16::VARIABLE_WIDTH,
    }
}

/// The capitals of a text, as `str::to_uppercase` gives them.
pub uninterp spec fn uppercase(text: Seq<char>) -> Seq<char>;

/// `str::to_uppercase`: the text with each character replaced by its
/// capital.
#[verifier::external_body]
fn to_uppercase(text: &str) -> (upper: String)
    ensures
        upper@ == uppercase(text@),
{
    text.to_uppercase()
}

/// The sum of the widths of some characters.
fn sum_widths(widths: &Vec<u32>) -> (sum: u128)
    ensures
        sum == total_width(widths@),
        sum <= widths@.len() * u32::MAX,
{
    let mut sum: u128 = 0;
    let mut i: usize = 0;
    while i < widths.len()
        invariant
            i <= widths.len(),
            sum == total_width(widths@.take(i as int)),
            sum <= i * u32::MAX,
        decreases widths.len() - i,
    {
        proof {
            let seen = widths@.take(i + 1);
            assert(seen.drop_last() =~= widths@.take(i as int));
            assert((i + 1) * u32::MAX == i * u32::MAX + u32::MAX) by (nonlinear_arith);
            assert(i * u32::MAX <= usize::MAX * u32::MAX) by (nonlinear_arith)
                requires
                    i <= usize::MAX,
            ;
        }
        sum = sum + widths[i] as u128;
        i = i + 1;
    }
    assert(widths@.take(widths.len() as int) =~= widths@);
    sum
}

/// The width of a text of `len` bytes in a font, in pixels; `widths` holds
/// the width of each of its characters and is looked at only for a font in
/// which each character has a width of its own. `None` for an empty text and
/// for a width that does not fit in 32 bits.
pub fn str_width(len: usize, widths: &Vec<u32>, font: &FontMetrics) -> (width: Option<u32>)
    ensures
        has_width(len as nat, widths@, *font) ==> width == Some(
            text_width(len as nat, widths@, *font) as u32,
        ),
        !has_width(len as nat, widths@, *font) ==> width is None,
{
    if len == 0 {
        return None;
    }
    assert(len * font.character_width <= usize::MAX * u32::MAX) by (nonlinear_arith)
        requires
            len <= usize::MAX,
            font.character_width <= u32::MAX,
    ;
    assert((len - 1) * font.character_spacing <= usize::MAX * u32::MAX) by (nonlinear_arith)
        requires
            1 <= len <= usize::MAX,
            font.character_spacing <= u32::MAX,
    ;
    assert(widths@.len() * u32::MAX <= usize::MAX * u32::MAX) by (nonlinear_arith)
        requires
            widths@.len() == widths.len(),
            widths.len() <= usize::MAX,
    ;
    let characters: u128 = if font.variable_width {
        sum_widths(widths)
    } else {
        len as u128 * font.character_width as u128
    };
    let spaces: u128 = (len as u128 - 1) * font.character_spacing as u128;
    let width = characters + spaces;
    if width <= u32::MAX as u128 {
        Some(width as u32)
    } else {
        None
    }
}

/// The text to draw for a host: its name in capitals. A host whose name
/// could not be read as text (`None`) has none.
pub fn screen_text(hostname: Option<&str>) -> (text: Result<String, KeyboardError>)
    ensures
        hostname matches Some(name) ==> text matches Ok(upper) && upper@ == uppercase(name@),
        hostname is None ==> text == Err::<String, KeyboardError>(KeyboardError::InvalidHostname),
{
    match hostname {
        Some(name) => Ok(to_uppercase(name)),
        None => Err(KeyboardError::InvalidHostname),
    }
}

/// Whether a text of `len` bytes can be underlined in a font: it has a width,
/// and the width and the height of a character are coordinates.
pub open spec fn can_underline(len: nat, widths: Seq<u32>, font: FontMetrics) -> bool {
    &&& has_width(len, widths, font)
    &&& text_width(len, widths, font) <= i32::MAX
    &&& font.character_height <= i32::MAX
}

/// The line under a text of `len` bytes drawn at the origin: it runs below
/// the characters, from the left edge to the width of the text. A text
/// without a width, or with measures that are no coordinates, has none.
pub fn underline(len: usize, widths: &Vec<u32>, font: &FontMetrics) -> (line: Result<
    Line,
    KeyboardError,
>)
    ensures
        can_underline(len as nat, widths@, *font) ==> line == Ok::<Line, KeyboardError>(
            Line {
                start: Point { x: 0, y: font.character_height as i32 },
                end: Point {
                    x: text_width(len as nat, widths@, *font) as i32,
                    y: font.character_height as i32,
                },
            },
        ),
        !can_underline(len as nat, widths@, *font) ==> line == Err::<Line, KeyboardError>(
            KeyboardError::TextLayout,
        ),
{
    let width = match str_width(len, widths, font) {
        Some(width) => width,
        None => {
            return Err(KeyboardError::TextLayout);
        },
    };
    if width > i32::MAX as u32 || font.character_height > i32::MAX as u32 {
        return Err(KeyboardError::TextLayout);
    }
    let y = font.character_height as i32;
    Ok(Line { start: Point { x: 0, y }, end: Point { x: width as i32, y } })
}

/// What is drawn on the screen: a text in the host's font, with its top
/// left corner at `origin`, and a line under it.
#[derive(Debug, PartialEq, Eq)]
pub struct Screen {
    pub text: String,
    pub origin: Point,
    pub underline: Line,
}

/// Whether `screen` shows the host's name `hostname`: the name in capitals at
/// the top left corner of the screen, underlined.
pub open spec fn shows_host(screen: Screen, hostname: Seq<char>) -> bool {
    let len = encode_utf8(uppercase(hostname)).len();
    &&& screen.text@ == uppercase(hostname)
    &&& screen.origin == Point { x: 0, y: 0 }
    &&& screen.underline == Line {
        start: Point { x: 0, y: 16 },
        end: Point { x: (12 * len) as i32, y: 16 },
    }
}

/// Whether the host's name `hostname` can be drawn: in capitals it is not
/// empty and no wider than a coordinate can say.
pub open spec fn host_fits(hostname: Seq<char>) -> bool {
    can_underline(encode_utf8(uppercase(hostname)).len(), Seq::empty(), host_font())
}

/// What to draw for a host: its name in capitals (see [`screen_text`]) with a
/// line under it (see [`underline`]). A host whose name could not be read as
/// text (`None`) cannot be drawn, nor one whose name has no underline.
pub fn host_screen(hostname: Option<&str>) -> (screen: Result<Screen, KeyboardError>)
    ensures
        hostname is None ==> screen == Err::<Screen, KeyboardError>(
            KeyboardError::InvalidHostname,
        ),
        hostname matches Some(name) ==> {
            &&& host_fits(name@) ==> (screen matches Ok(drawn) && shows_host(drawn, name@))
            &&& !host_fits(name@) ==> screen == Err::<Screen, KeyboardError>(
                KeyboardError::TextLayout,
            )
        },
{
    let text = match screen_text(hostname) {
        Ok(text) => text,
        Err(error) => {
            return Err(error);
        },
    };
    let font = font_12x16();
    let widths: Vec<u32> = Vec::new();
    let len = text.as_str().as_bytes().len();
    proof {
        broadcast use vstd::slice::axiom_spec_len;

        assert(widths@ =~= Seq::<u32>::empty());
    }
    let underline = match underline(len, &widths, &font) {
        Ok(line) => line,
        Err(error) => {
            return Err(error);
        },
    };
    Ok(Screen { text, origin: Point { x: 0, y: 0 }, underline })
}

} // verus!
