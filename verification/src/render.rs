use vstd::prelude::*;
use vstd::string::*;
use crate::element::{element_views, push_element, Block, BlockView, Element, ElementView};
use crate::geometry::{Color, WIDTH};
use crate::units::{saturate, saturated};

verus! {

/// Where a text sits relative to its anchor's horizontal position.
#[derive(Clone, Copy, Debug, PartialEq, Eq, Structural)]
pub enum TextAlignment {
    Left,
    Center,
    Right,
}

impl Default for TextAlignment {
    fn default() -> (res: Self)
        ensures
            res == TextAlignment::Left,
    {
        TextAlignment::Left
    }
}

/// The typefaces a frame is set in.
#[derive(Clone, Copy, Debug, PartialEq, Eq, Structural)]
pub enum Font {
    /// Section titles.
    Title,
    /// Tick labels of a dial.
    Small,
    /// Everything else.
    Regular,
}

/// A rectangle in logical pixels, given by its top left corner and size.
#[derive(Clone, Copy, Debug, PartialEq, Eq, Structural)]
pub struct Rect {
    pub x: i32,
    pub y: i32,
    pub width: u32,
    pub height: u32,
}

/// Half of `a`, rounded towards zero.
pub open spec fn half_toward_zero(a: int) -> int {
    if a >= 0 {
        a / 2
    } else {
        -((-a) / 2)
    }
}

/// The rectangle that a text of the given measured size covers when it is
/// anchored at `(x, y)`: centred on `y`, and starting at, centred on or
/// ending at `x` as the alignment says. Half pixels go towards zero, and a
/// corner beyond the range of a coordinate stops at the end of that range.
pub open spec fn text_target(x: int, y: int, alignment: TextAlignment, width: u32, height: u32)
    -> Rect {
    Rect {
        x: saturated(
            match alignment {
                TextAlignment::Left => x,
                TextAlignment::Center => half_toward_zero(2 * x - width),
                TextAlignment::Right => x - width,
            },
        ),
        y: saturated(half_toward_zero(2 * y - height)),
        width,
        height,
    }
}

fn halve_toward_zero(a: i128) -> (h: i128)
    requires
        -0x2_0000_0000_0000_0000 <= a <= 0x2_0000_0000_0000_0000,
    ensures
        h == half_toward_zero(a as int),
{
    if a >= 0 {
        a / 2
    } else {
        let m: u128 = (-a) as u128;
        -((m / 2) as i128)
    }
}

/// A piece of text with its alignment and colour, not yet placed.
#[derive(Clone, Debug, PartialEq, Eq)]
pub struct Text {
    pub text: String,
    pub alignment: TextAlignment,
    pub color: Color,
}

pub struct TextView {
    pub text: Seq<char>,
    pub alignment: TextAlignment,
    pub color: Color,
}

impl View for Text {
    type V = TextView;

    open spec fn view(&self) -> TextView {
        TextView { text: self.text@, alignment: self.alignment, color: self.color }
    }
}

/// A text placed in a frame: anchored at a point, in a typeface.
#[derive(Clone, Debug, PartialEq, Eq)]
pub struct Label {
    pub text: String,
    pub x: i64,
    pub y: i64,
    pub alignment: TextAlignment,
    pub color: Color,
    pub font: Font,
}

pub struct LabelView {
    pub text: Seq<char>,
    pub x: i64,
    pub y: i64,
    pub alignment: TextAlignment,
    pub color: Color,
    pub font: Font,
}

impl View for Label {
    type V = LabelView;

    open spec fn view(&self) -> LabelView {
        LabelView {
            text: self.text@,
            x: self.x,
            y: self.y,
            alignment: self.alignment,
            color: self.color,
            font: self.font,
        }
    }
}

impl TextView {
    /// This text anchored at `(x, y)` in `font`.
    pub open spec fn placed(self, x: int, y: int, font: Font) -> LabelView {
        LabelView {
            text: self.text,
            x: x as i64,
            y: y as i64,
            alignment: self.alignment,
            color: self.color,
            font,
        }
    }
}

impl Text {
    /// A white, left-aligned text.
    pub fn new(text: &str) -> (res: Self)
        ensures
            res@ == (TextView {
                text: text@,
                alignment: TextAlignment::Left,
                color: Color::white(),
            }),
    {
        Text {
            text: String::from_str(text),
            alignment: TextAlignment::Left,
            color: Color::rgb(255, 255, 255),
        }
    }

    pub fn with_alignment(self, alignment: TextAlignment) -> (res: Self)
        ensures
            res@ == (TextView { alignment, ..self@ }),
    {
        let mut res = self;
        res.alignment = alignment;
        res
    }

    pub fn with_color(self, color: Color) -> (res: Self)
        ensures
            res@ == (TextView { color, ..self@ }),
    {
        let mut res = self;
        res.color = color;
        res
    }

    /// Anchors the text at `(x, y)` in the regular typeface.
    pub fn render(&self, x: i64, y: i64) -> (res: Label)
        ensures
            res@ == self@.placed(x as int, y as int, Font::Regular),
    {
        self.render_with_font(x, y, Font::Regular)
    }

    /// Anchors the text at `(x, y)` in the given typeface.
    pub fn render_with_font(&self, x: i64, y: i64, font: Font) -> (res: Label)
        ensures
            res@ == self@.placed(x as int, y as int, font),
    {
        Label {
            text: self.text.clone(),
            x,
            y,
            alignment: self.alignment,
            color: self.color,
            font,
        }
    }
}

impl Label {
    /// The rectangle the text covers once a backend has measured it in its
    /// typeface as `width` by `height` pixels.
    pub fn target(&self, width: u32, height: u32) -> (res: Rect)
        ensures
            res == text_target(self.x as int, self.y as int, self.alignment, width, height),
    {
        let x: i128 = self.x as i128;
        let y: i128 = self.y as i128;
        let left: i128 = match self.alignment {
            TextAlignment::Left => x,
            TextAlignment::Center => halve_toward_zero(2 * x - width as i128),
            TextAlignment::Right => x - width as i128,
        };
        let top: i128 = halve_toward_zero(2 * y - height as i128);
        Rect { x: saturate(left), y: saturate(top), width, height }
    }
}

/// Distance of a row's texts from the frame's left and right edge.
pub const ROW_PADDING: u32 = 25;

/// The band of height that a title or a row takes.
pub const LINE_HEIGHT: u32 = 40;

/// One row of a section: a label on the left, its value on the right.
#[derive(Clone, Debug, PartialEq, Eq)]
pub struct LabelValue {
    pub label: String,
    pub value: String,
    /// The colour of this row where it differs from its section's.
    pub color: Option<Color>,
}

pub struct LabelValueView {
    pub label: Seq<char>,
    pub value: Seq<char>,
    pub color: Option<Color>,
}

impl View for LabelValue {
    type V = LabelValueView;

    open spec fn view(&self) -> LabelValueView {
        LabelValueView { label: self.label@, value: self.value@, color: self.color }
    }
}

impl LabelValueView {
    /// The colour the row is drawn in: its own, else the one it inherits,
    /// else white.
    pub open spec fn ink(self, inherited: Option<Color>) -> Color {
        match self.color {
            Some(c) => c,
            None => match inherited {
                Some(c) => c,
                None => Color::white(),
            },
        }
    }

    /// The two texts of the row on the line at `y`: the label starting at
    /// the left padding, the value ending at the right padding.
    pub open spec fn elements(self, y: int, inherited: Option<Color>) -> Seq<ElementView> {
        seq![
            ElementView::Text(
                LabelView {
                    text: self.label,
                    x: ROW_PADDING as i64,
                    y: y as i64,
                    alignment: TextAlignment::Left,
                    color: self.ink(inherited),
                    font: Font::Regular,
                },
            ),
            ElementView::Text(
                LabelView {
                    text: self.value,
                    x: (WIDTH - ROW_PADDING) as i64,
                    y: y as i64,
                    alignment: TextAlignment::Right,
                    color: self.ink(inherited),
                    font: Font::Regular,
                },
            ),
        ]
    }
}

impl LabelValue {
    /// A row without a colour of its own.
    pub fn new(label: &str, value: &str) -> (res: Self)
        ensures
            res@ == (LabelValueView { label: label@, value: value@, color: None }),
    {
        LabelValue { label: String::from_str(label), value: String::from_str(value), color: None }
    }

    /// Gives the row a colour of its own.
    pub fn with_color(&mut self, color: Color) -> (res: &mut Self)
        ensures
            *res == (LabelValue { color: Some(color), ..*old(self) }),
            *final(self) == *final(res),
    {
        self.color = Some(color);
        self
    }

    fn push_onto(&self, elements: &mut Vec<Element>, y: i64, inherited: Option<Color>)
        ensures
            element_views(final(elements)@) == element_views(old(elements)@) + self@.elements(
                y as int,
                inherited,
            ),
    {
        let ink = match self.color {
            Some(c) => c,
            None => match inherited {
                Some(c) => c,
                None => Color::rgb(255, 255, 255),
            },
        };
        let label = Label {
            text: self.label.clone(),
            x: ROW_PADDING as i64,
            y,
            alignment: TextAlignment::Left,
            color: ink,
            font: Font::Regular,
        };
        let value = Label {
            text: self.value.clone(),
            x: (WIDTH - ROW_PADDING) as i64,
            y,
            alignment: TextAlignment::Right,
            color: ink,
            font: Font::Regular,
        };
        push_element(elements, Element::Text(label));
        push_element(elements, Element::Text(value));
        assert(element_views(elements@) =~= element_views(old(elements)@) + self@.elements(
            y as int,
            inherited,
        ));
    }

    /// Lays the row out on the line at `y`. It takes the frame's width and
    /// one line of height.
    pub fn render(&self, y: i32) -> (res: Block)
        ensures
            res@ == (BlockView {
                top: y,
                height: LINE_HEIGHT,
                elements: self@.elements(y as int, None),
            }),
    {
        let mut elements: Vec<Element> = Vec::new();
        self.push_onto(&mut elements, y as i64, None);
        Block { top: y, height: LINE_HEIGHT, elements }
    }
}

/// Where a title's text starts.
pub const TITLE_INDENT: u32 = 20;

/// Distance of a title's underline from the frame's left and right edge.
pub const RULE_MARGIN: u32 = 10;

/// Gap between the lower edge of a title's text and its underline.
pub const RULE_GAP: u32 = 5;

/// Thickness of strokes.
pub const STROKE: u32 = 2;

/// The title line of a section: a text with a line under it.
#[derive(Clone, Debug, PartialEq, Eq)]
pub struct TextTitle {
    pub title: String,
    pub color: Color,
}

pub struct TextTitleView {
    pub title: Seq<char>,
    pub color: Color,
}

impl View for TextTitle {
    type V = TextTitleView;

    open spec fn view(&self) -> TextTitleView {
        TextTitleView { title: self.title@, color: self.color }
    }
}

/// The title text on the line at `y` and the underline: the text is centred
/// on `y`, so its lower edge is half its height below, and the underline
/// runs a gap further down, from margin to margin.
pub open spec fn title_elements(title: Seq<char>, color: Color, y: int, text_height: u32) -> Seq<
    ElementView,
> {
    seq![
        ElementView::Text(
            LabelView {
                text: title,
                x: TITLE_INDENT as i64,
                y: y as i64,
                alignment: TextAlignment::Left,
                color,
                font: Font::Title,
            },
        ),
        ElementView::Rule {
            x1: RULE_MARGIN as i64,
            x2: (WIDTH - RULE_MARGIN) as i64,
            y: half_toward_zero(2 * y + text_height + 2 * RULE_GAP) as i64,
            thickness: STROKE,
            color,
        },
    ]
}

fn push_title(elements: &mut Vec<Element>, title: &String, color: Color, y: i32, text_height: u32)
    ensures
        element_views(final(elements)@) == element_views(old(elements)@) + title_elements(
            title@,
            color,
            y as int,
            text_height,
        ),
{
    let text = Label {
        text: title.clone(),
        x: TITLE_INDENT as i64,
        y: y as i64,
        alignment: TextAlignment::Left,
        color,
        font: Font::Title,
    };
    let below: i128 = 2 * (y as i128) + text_height as i128 + 2 * (RULE_GAP as i128);
    let rule = Element::Rule {
        x1: RULE_MARGIN as i64,
        x2: (WIDTH - RULE_MARGIN) as i64,
        y: halve_toward_zero(below) as i64,
        thickness: STROKE,
        color,
    };
    push_element(elements, Element::Text(text));
    push_element(elements, rule);
    assert(element_views(elements@) =~= element_views(old(elements)@) + title_elements(
        title@,
        color,
        y as int,
        text_height,
    ));
}

impl TextTitle {
    /// A white title.
    pub fn new(title: &str) -> (res: Self)
        ensures
            res@ == (TextTitleView { title: title@, color: Color::white() }),
    {
        TextTitle { title: String::from_str(title), color: Color::rgb(255, 255, 255) }
    }

    pub fn with_color(self, color: Color) -> (res: Self)
        ensures
            res@ == (TextTitleView { color, ..self@ }),
    {
        let mut res = self;
        res.color = color;
        res
    }

    /// Lays the title out on the line at `y`, given the height that its text
    /// measures in the title typeface. It takes the frame's width and one
    /// line of height.
    pub fn render(&self, y: i32, text_height: u32) -> (res: Block)
        ensures
            res@ == (BlockView {
                top: y,
                height: LINE_HEIGHT,
                elements: title_elements(self@.title, self@.color, y as int, text_height),
            }),
    {
        let mut elements: Vec<Element> = Vec::new();
        push_title(&mut elements, &self.title, self.color, y, text_height);
        assert(element_views(elements@) =~= title_elements(
            self@.title,
            self@.color,
            y as int,
            text_height,
        ));
        Block { top: y, height: LINE_HEIGHT, elements }
    }
}

/// The views of a sequence of rows, in order.
pub open spec fn row_views(rows: Seq<LabelValue>) -> Seq<LabelValueView> {
    rows.map_values(|r: LabelValue| r@)
}

/// A titled section: a title line and rows below it, one line each.
#[derive(Clone, Debug, PartialEq, Eq)]
pub struct List {
    pub title: String,
    pub items: Vec<LabelValue>,
    /// The colour of the rows that have none of their own.
    pub color: Option<Color>,
}

pub struct ListView {
    pub title: Seq<char>,
    pub items: Seq<LabelValueView>,
    pub color: Option<Color>,
}

impl View for List {
    type V = ListView;

    open spec fn view(&self) -> ListView {
        ListView { title: self.title@, items: row_views(self.items@), color: self.color }
    }
}

impl ListView {
    /// The elements of the first `count` rows, the row `k` on the line
    /// `k + 1` lines below `y`.
    pub open spec fn rows(self, y: int, count: nat) -> Seq<ElementView>
        decreases count,
    {
        if count == 0 {
            Seq::empty()
        } else {
            self.rows(y, (count - 1) as nat) + self.items[count - 1].elements(
                y + LINE_HEIGHT * count,
                self.color,
            )
        }
    }

    /// The height of the section: one line for the title and one for each
    /// row.
    pub open spec fn height(self) -> int {
        LINE_HEIGHT * (self.items.len() + 1)
    }

    /// The section laid out from the line at `y`: the title in grey with its
    /// underline, then all rows.
    pub open spec fn elements(self, y: int, title_height: u32) -> Seq<ElementView> {
        title_elements(self.title, Color::grey(), y, title_height) + self.rows(
            y,
            self.items.len(),
        )
    }
}

impl List {
    /// A section whose rows inherit no colour.
    pub fn new(title: &str, items: Vec<LabelValue>) -> (res: Self)
        ensures
            res@ == (ListView { title: title@, items: row_views(items@), color: None }),
    {
        List { title: String::from_str(title), items, color: None }
    }

    pub fn with_color(self, color: Color) -> (res: Self)
        ensures
            res@ == (ListView { color: Some(color), ..self@ }),
    {
        let mut res = self;
        res.color = Some(color);
        res
    }

    /// Lays the section out from the line at `y`, given the height that its
    /// title measures in the title typeface. It takes the frame's width, and
    /// one line of height for the title and for each row.
    pub fn render(&self, y: i32, title_height: u32) -> (res: Block)
        requires
            self@.height() <= u32::MAX,
        ensures
            res@.drawable(),
            res@ == (BlockView {
                top: y,
                height: self@.height() as u32,
                elements: self@.elements(y as int, title_height),
            }),
    {
        let mut elements: Vec<Element> = Vec::new();
        push_title(&mut elements, &self.title, Color::rgb(128, 128, 128), y, title_height);
        let ghost head = element_views(elements@);
        let mut offset: u32 = LINE_HEIGHT;
        let mut k: usize = 0;
        while k < self.items.len()
            invariant
                k <= self.items.len(),
                self@.height() <= u32::MAX,
                offset == LINE_HEIGHT * (k + 1),
                element_views(elements@) == head + self@.rows(y as int, k as nat),
            decreases self.items.len() - k,
        {
            let line: i64 = y as i64 + offset as i64;
            self.items[k].push_onto(&mut elements, line, self.color);
            offset = offset + LINE_HEIGHT;
            k = k + 1;
        }
        proof {
            section_is_drawable(self@, y as int, title_height);
        }
        Block { top: y, height: offset, elements }
    }
}

/// A section consists of texts and a line, which can always be drawn.
pub proof fn section_is_drawable(list: ListView, y: int, title_height: u32)
    ensures
        forall|i: int|
            0 <= i < list.elements(y, title_height).len() ==> (#[trigger] list.elements(
                y,
                title_height,
            )[i]).drawable(),
{
    rows_are_drawable(list, y, list.items.len());
}

proof fn rows_are_drawable(list: ListView, y: int, count: nat)
    ensures
        forall|i: int|
            0 <= i < list.rows(y, count).len() ==> (#[trigger] list.rows(y, count)[i]).drawable(),
    decreases count,
{
    if count > 0 {
        rows_are_drawable(list, y, (count - 1) as nat);
        let before = list.rows(y, (count - 1) as nat);
        let row = list.items[count - 1].elements(y + LINE_HEIGHT * count, list.color);
        assert forall|i: int| 0 <= i < list.rows(y, count).len() implies (#[trigger] list.rows(
            y,
            count,
        )[i]).drawable() by {
            if i < before.len() {
                assert(list.rows(y, count)[i] == before[i]);
            } else {
                assert(list.rows(y, count)[i] == row[i - before.len()]);
            }
        }
    }
}

} // verus!
