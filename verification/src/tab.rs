//! The tab bar: what a tab holds, and the cells that show its label.
use crate::outside::{columns, display_width};
use crate::source::MsgSource;
use crate::text::{index_of, lemma_index_of};
use vstd::prelude::*;

verus! {

/// The attribute bit that underlines a cell.
pub const TB_UNDERLINE: u16 = 0x0200;

/// What a tab has to tell since it was last shown.
#[derive(Clone, Copy, Debug, PartialEq, Eq)]
pub enum TabStyle {
    Normal,
    JoinOrPart,
    NewMsg,
    Highlight,
}

/// Foreground and background of a cell, as the terminal takes them.
#[derive(Clone, Copy, Debug, PartialEq, Eq)]
pub struct Style {
    pub fg: u16,
    pub bg: u16,
}

/// The styles of the tab bar.
#[derive(Clone, Copy, Debug, PartialEq, Eq)]
pub struct Colors {
    pub tab_active: Style,
    pub tab_normal: Style,
    pub tab_joinpart: Style,
    pub tab_new_msg: Style,
    pub tab_highlight: Style,
}

/// One character cell of the terminal, and what is written into it.
#[derive(Clone, Copy, Debug, PartialEq, Eq)]
pub struct Cell {
    pub x: i32,
    pub y: i32,
    pub ch: char,
    pub fg: u16,
    pub bg: u16,
}

/// A tab of the interface. What the tab shows below its label is the
/// widget, which is carried along and never looked into here.
#[derive(Clone, Debug, PartialEq, Eq)]
pub struct Tab<W> {
    pub visible_name: String,
    pub widget: W,
    pub src: MsgSource,
    pub style: TabStyle,
    /// Alt-character to use to switch to this tab.
    pub switch: Option<char>,
}

/// The style of a tab that is not the active one.
pub open spec fn style_of(style: TabStyle, colors: Colors) -> Style {
    match style {
        TabStyle::Normal => colors.tab_normal,
        TabStyle::JoinOrPart => colors.tab_joinpart,
        TabStyle::NewMsg => colors.tab_new_msg,
        TabStyle::Highlight => colors.tab_highlight,
    }
}

/// The style that a tab is drawn in: the active tab in the active style,
/// whatever its own style is.
pub open spec fn drawn_style(style: TabStyle, colors: Colors, active: bool) -> Style {
    if active {
        colors.tab_active
    } else {
        style_of(style, colors)
    }
}

/// Whether the character at `i` is underlined: it is the switch character
/// and does not occur before `i`.
pub open spec fn underlined(name: Seq<char>, switch: Option<char>, i: int) -> bool {
    &&& 0 <= i < name.len()
    &&& switch == Some(name[i])
    &&& forall|j: int| 0 <= j < i ==> name[j] != name[i]
}

/// The cell that shows the character at `i` of a label drawn from `x` on.
pub open spec fn cell_at(
    name: Seq<char>,
    switch: Option<char>,
    style: Style,
    x: int,
    y: i32,
    i: int,
) -> Cell {
    Cell {
        x: (x + i) as i32,
        y,
        ch: name[i],
        fg: if underlined(name, switch, i) {
            style.fg | TB_UNDERLINE
        } else {
            style.fg
        },
        bg: style.bg,
    }
}

/// The cells that show a label: one for each character, from left to right.
pub open spec fn label_cells(
    name: Seq<char>,
    switch: Option<char>,
    style: Style,
    x: int,
    y: i32,
) -> Seq<Cell> {
    Seq::new(name.len(), |i: int| cell_at(name, switch, style, x, y, i))
}

/// At most one character of a label is underlined.
pub proof fn lemma_one_underline(name: Seq<char>, switch: Option<char>, i: int, j: int)
    requires
        underlined(name, switch, i),
        underlined(name, switch, j),
    ensures
        i == j,
{
}

/// The underlined character is the first occurrence of the switch
/// character in the label; it is underlined whenever it occurs at all.
pub proof fn lemma_underline_position(name: Seq<char>, c: char, i: int)
    ensures
        underlined(name, Some(c), i) <==> 0 <= i < name.len() && i == index_of(name, c, 0),
        name.contains(c) ==> underlined(name, Some(c), index_of(name, c, 0)),
{
    lemma_index_of(name, c, 0);
    let first = index_of(name, c, 0);
    if underlined(name, Some(c), i) && first < i {
        assert(name[first] != name[i]);
    }
    if name.contains(c) {
        let k = choose|k: int| 0 <= k < name.len() && name[k] == c;
        assert(first <= k);
    }
}

/// The style of a tab that is not the active one.
pub fn tab_style(style: TabStyle, colors: &Colors) -> (r: Style)
    ensures
        r == style_of(style, *colors),
{
    match style {
        TabStyle::Normal => colors.tab_normal,
        TabStyle::JoinOrPart => colors.tab_joinpart,
        TabStyle::NewMsg => colors.tab_new_msg,
        TabStyle::Highlight => colors.tab_highlight,
    }
}

/// A number of columns as the signed number that positions on the screen
/// are counted in: the same number if it fits, else its low 32 bits.
pub fn columns_to_width(cols: usize) -> (r: i32)
    ensures
        r == cols as i32,
        cols <= i32::MAX ==> r == cols,
{
    #[verifier::truncate]
    (cols as i32)
}

impl<W> Tab<W> {
    /// The label of the tab.
    pub fn visible_name(&self) -> (r: &str)
        ensures
            r@ == self.visible_name@,
    {
        self.visible_name.as_str()
    }

    /// Sets what the tab has to tell.
    pub fn set_style(&mut self, style: TabStyle)
        ensures
            final(self).style == style,
            final(self).visible_name == old(self).visible_name,
            final(self).widget == old(self).widget,
            final(self).src == old(self).src,
            final(self).switch == old(self).switch,
    {
        self.style = style;
    }

    /// Replaces the source of the tab by what `f` makes of it. The tab
    /// stays the same tab.
    pub fn update_source<F: Fn(&MsgSource) -> MsgSource>(&mut self, f: &F)
        requires
            call_requires(*f, (&old(self).src,)),
        ensures
            call_ensures(*f, (&old(self).src,), final(self).src),
            final(self).visible_name == old(self).visible_name,
            final(self).widget == old(self).widget,
            final(self).style == old(self).style,
            final(self).switch == old(self).switch,
    {
        let src = f(&self.src);
        self.src = src;
    }

    /// The number of columns that the label takes on the screen.
    pub fn width(&self) -> (r: i32)
        ensures
            r == columns(self.visible_name@) as i32,
    {
        columns_to_width(display_width(self.visible_name()))
    }

    /// The cells that show the tab's label from `(pos_x, pos_y)` to the
    /// right, one cell for each character. The first occurrence of the
    /// switch character is underlined.
    pub fn draw(&self, colors: &Colors, pos_x: i32, pos_y: i32, active: bool) -> (r: Vec<Cell>)
        requires
            pos_x + self.visible_name@.len() <= i32::MAX,
        ensures
            r@ == label_cells(
                self.visible_name@,
                self.switch,
                drawn_style(self.style, *colors, active),
                pos_x as int,
                pos_y,
            ),
    {
        let style: Style = if active {
            colors.tab_active
        } else {
            tab_style(self.style, colors)
        };
        let name = crate::text::to_chars(self.visible_name());
        let ghost shown = label_cells(self.visible_name@, self.switch, style, pos_x as int, pos_y);
        let mut r: Vec<Cell> = Vec::new();
        let mut x: i32 = pos_x;
        let mut switch_drawn = false;
        let mut i: usize = 0;
        while i < name.len()
            invariant
                i <= name.len(),
                name@ == self.visible_name@,
                x == pos_x + i,
                pos_x + name.len() <= i32::MAX,
                shown == label_cells(name@, self.switch, style, pos_x as int, pos_y),
                switch_drawn <==> exists|j: int| 0 <= j < i && self.switch == Some(name@[j]),
                r@ == shown.take(i as int),
            decreases name.len() - i,
        {
            let ch = name[i];
            let is_switch = match self.switch {
                Some(c) => c == ch,
                None => false,
            };
            let under = is_switch && !switch_drawn;
            let fg = if under {
                switch_drawn = true;
                style.fg | TB_UNDERLINE
            } else {
                style.fg
            };
            let cell = Cell { x, y: pos_y, ch, fg, bg: style.bg };
            assert(shown[i as int] == cell);
            r.push(cell);
            assert(r@ =~= shown.take(i + 1));
            x = x + 1;
            i = i + 1;
        }
        assert(shown.take(i as int) == shown);
        r
    }
}

} // verus!
