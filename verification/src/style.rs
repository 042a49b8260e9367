//! The two styles a menu is drawn with, and the calls that apply them.

use console::{Color, Style};
use vstd::prelude::*;

verus! {

/// `console::Style`, carried through as an opaque value.
#[verifier::external_type_specification]
#[verifier::external_body]
pub struct ExStyle(console::Style);

/// How the rows of a menu are styled.
pub struct MenuOptions {
    /// Style of the highlighted row.
    pub style_selected: Style,
    /// Style of every other row.
    pub style_normal: Style,
}

/// The 256-colour palette entry behind the highlighted row by default.
pub const HIGHLIGHT_BACKGROUND: u8 = 241;

/// The palette entry that `style` holds as its background, if it holds one:
/// the background field of `console::Style`, read for the colours of the
/// 256-colour palette.
pub uninterp spec fn background(style: Style) -> Option<u8>;

/// What `console` writes for `text` in `style`: with the style's escape
/// codes when `colors` holds, without them when it does not.
pub uninterp spec fn styled_text(style: Style, text: Seq<char>, colors: bool) -> Seq<char>;

/// `line` holds `text` unchanged, with anything before and after it.
pub open spec fn wraps(line: Seq<char>, text: Seq<char>) -> bool {
    exists|before: Seq<char>, after: Seq<char>| line == before + text + after
}

/// `line` is `text` written in `style`, with escape codes or without.
pub open spec fn drawn_as(line: Seq<char>, style: Style, text: Seq<char>) -> bool {
    exists|colors: bool| line == styled_text(style, text, colors)
}

/// Calls `console::Style::new`, which gives a style without colours or
/// attributes. Claimed: it has no background.
#[verifier::external_body]
pub(crate) fn plain_style() -> (style: Style)
    ensures
        background(style) is None,
{
    Style::new()
}

/// Calls `console::Style::bg` with `console::Color::Color256(color)`, which
/// sets the background of `style` and leaves the rest of it alone. Claimed:
/// the background of the result is `color`.
#[verifier::external_body]
pub(crate) fn on_color256(style: Style, color: u8) -> (result: Style)
    ensures
        background(result) == Some(color),
{
    style.bg(Color::Color256(color))
}

/// Calls `console::Style::apply_to` on `text` and formats the styled object.
/// Its `Display` writes the style's escape codes or nothing, then `text` as
/// it is, then a reset code or nothing. Whether codes are written is the
/// style's own forced setting or, without one, the process's colour switch;
/// beyond that the result depends on the style and the text alone. Claimed:
/// the result is what `console` writes for this style and text, with codes
/// or without, and the text stands in it unchanged.
#[verifier::external_body]
pub(crate) fn styled(style: &Style, text: &str) -> (line: String)
    ensures
        exists|colors: bool| line@ == styled_text(*style, text@, colors),
        wraps(line@, text@),
{
    format!("{}", style.apply_to(text))
}

impl MenuOptions {
    /// The style of a row: `style_selected` for the highlighted one,
    /// `style_normal` for the others.
    pub open spec fn style_of(self, selected: bool) -> Style {
        if selected {
            self.style_selected
        } else {
            self.style_normal
        }
    }

    /// The style of a row: `style_selected` for the highlighted one,
    /// `style_normal` for the others.
    pub fn style_for(&self, selected: bool) -> (style: &Style)
        ensures
            *style == self.style_of(selected),
    {
        if selected {
            &self.style_selected
        } else {
            &self.style_normal
        }
    }
}

impl Default for MenuOptions {
    /// A grey background for the highlighted row, none for the others: the
    /// two styles differ.
    fn default() -> (options: MenuOptions)
        ensures
            background(options.style_selected) == Some(HIGHLIGHT_BACKGROUND),
            background(options.style_normal) is None,
            options.style_selected != options.style_normal,
    {
        MenuOptions {
            style_selected: on_color256(plain_style(), HIGHLIGHT_BACKGROUND),
            style_normal: plain_style(),
        }
    }
}

} // verus!
