//! What the menu shows: the rows of its window, padded and styled.

use crate::menu::{Menu, MenuView};
use crate::style::{drawn_as, styled, wraps};
use vstd::prelude::*;
use vstd::utf8::encode_utf8;

verus! {

/// One row of the window, before it is styled.
#[derive(Debug, PartialEq, Eq)]
pub struct Row {
    /// The option's text, padded with spaces.
    pub text: String,
    /// Whether this is the highlighted option.
    pub selected: bool,
}

/// The mathematical value of a [`Row`].
pub struct RowView {
    pub text: Seq<char>,
    pub selected: bool,
}

impl View for Row {
    type V = RowView;

    open spec fn view(&self) -> RowView {
        RowView { text: self.text@, selected: self.selected }
    }
}

/// `count` spaces.
pub open spec fn spaces(count: nat) -> Seq<char> {
    Seq::new(count, |i: int| ' ')
}

/// `text` followed by the spaces that bring its UTF-8 length up to `width`;
/// `text` itself when it is that long already.
pub open spec fn padded(text: Seq<char>, width: nat) -> Seq<char> {
    let length = encode_utf8(text).len();
    text + spaces(
        if width > length {
            (width - length) as nat
        } else {
            0
        },
    )
}

impl MenuView {
    /// `line` is the text of `row` written in the style of its kind:
    /// `style_selected` for the highlighted row, `style_normal` for the
    /// others. The text stands in the line unchanged.
    pub open spec fn draws(self, line: Seq<char>, row: RowView) -> bool {
        &&& drawn_as(line, self.settings.style_of(row.selected), row.text)
        &&& wraps(line, row.text)
    }

    /// Number of rows drawn in a window of `rows` rows: the options from
    /// `scroll` on, as far as the window and the list reach.
    pub open spec fn visible(self, rows: nat) -> nat {
        if self.scroll >= self.options.len() {
            0
        } else if rows < self.options.len() - self.scroll {
            rows
        } else {
            (self.options.len() - self.scroll) as nat
        }
    }

    /// The rows drawn on a terminal `width` columns wide with `rows` rows for
    /// options: row `k` shows option `scroll + k`, padded to `width`, and is
    /// marked when that option is the highlighted one.
    pub open spec fn frame(self, width: nat, rows: nat) -> Seq<RowView> {
        Seq::new(
            self.visible(rows),
            |k: int|
                RowView {
                    text: padded(self.options[self.scroll + k], width),
                    selected: self.scroll + k == self.selected,
                },
        )
    }
}

/// Pads `text` with spaces to `width` bytes.
pub fn pad(text: &str, width: usize) -> (line: String)
    ensures
        line@ == padded(text@, width as nat),
{
    let mut line = text.to_owned();
    let length: usize = text.as_bytes().len();
    let mut filled: usize = length;
    proof {
        reveal_strlit(" ");
        assert(line@ =~= text@ + spaces(0));
    }
    while filled < width
        invariant
            length <= filled,
            filled <= width || filled == length,
            length == encode_utf8(text@).len(),
            line@ == text@ + spaces((filled - length) as nat),
            " "@ == seq![' '],
        decreases width - filled,
    {
        line.append(" ");
        filled += 1;
        assert(line@ =~= text@ + spaces((filled - length) as nat));
    }
    line
}

impl Menu {
    /// The rows of the window on a terminal `term_width` columns wide with
    /// `term_height` rows for options.
    pub fn frame(&self, term_width: usize, term_height: usize) -> (rows: Vec<Row>)
        ensures
            rows@.len() == self@.visible(term_height as nat),
            forall|k: int|
                0 <= k < rows@.len() ==> (#[trigger] rows@[k])@ == self@.frame(
                    term_width as nat,
                    term_height as nat,
                )[k],
    {
        let count: usize = self.options.len();
        let visible: usize = if self.scroll >= count {
            0
        } else if term_height < count - self.scroll {
            term_height
        } else {
            count - self.scroll
        };
        let mut rows: Vec<Row> = Vec::new();
        let mut k: usize = 0;
        while k < visible
            invariant
                k <= visible,
                visible == self@.visible(term_height as nat),
                visible > 0 ==> self.scroll + visible <= self.options.len(),
                rows@.len() == k,
                forall|j: int|
                    0 <= j < k ==> (#[trigger] rows@[j])@ == self@.frame(
                        term_width as nat,
                        term_height as nat,
                    )[j],
            decreases visible - k,
        {
            let index: usize = self.scroll + k;
            let text = pad(self.options[index].as_str(), term_width);
            rows.push(Row { text, selected: index == self.selected });
            k += 1;
        }
        rows
    }

    /// The lines to print, top to bottom: each row of the window, written
    /// in `style_selected` when it is the highlighted one and in
    /// `style_normal` when it is not.
    pub fn render_options(&self, term_width: usize, term_height: usize) -> (lines: Vec<String>)
        ensures
            lines@.len() == self@.visible(term_height as nat),
            forall|k: int|
                0 <= k < lines@.len() ==> self@.draws(
                    (#[trigger] lines@[k])@,
                    self@.frame(term_width as nat, term_height as nat)[k],
                ),
    {
        let rows = self.frame(term_width, term_height);
        let mut lines: Vec<String> = Vec::new();
        let mut k: usize = 0;
        while k < rows.len()
            invariant
                k <= rows.len(),
                lines@.len() == k,
                forall|j: int|
                    0 <= j < k ==> self@.draws((#[trigger] lines@[j])@, rows@[j]@),
            decreases rows.len() - k,
        {
            let row = &rows[k];
            let style = self.settings.style_for(row.selected);
            lines.push(styled(style, row.text.as_str()));
            k += 1;
        }
        lines
    }
}

} // verus!
