use vstd::prelude::*;
use vstd::string::*;
use crate::element::{Block, BlockView, Element, ElementView};
use crate::geometry::{Angle, Color, Point, WIDTH};
use crate::input::DataPoint;
use crate::render::{Font, Label, LabelView, TextAlignment};
use crate::scene::{background, render_frame, run_height, scene_of, Frame, RenderConfig, SceneView};
use crate::speedo::ConfigError;
use crate::text::{decimal, push_decimal};
use crate::units::{push_signed, push_signed_three_decimals, signed_decimal, signed_three_decimals};

verus! {

/// What a character of a text stands as in a document: the five
/// characters that mark-up reserves become entities, all others stay.
pub open spec fn entity(c: char) -> Seq<char> {
    if c == '"' {
        "&quot;"@
    } else if c == '&' {
        "&amp;"@
    } else if c == '\'' {
        "&#039;"@
    } else if c == '<' {
        "&lt;"@
    } else if c == '>' {
        "&gt;"@
    } else {
        seq![c]
    }
}

/// A text as it stands in a document, each character by what it stands as.
pub open spec fn escaped(text: Seq<char>) -> Seq<char>
    decreases text.len(),
{
    if text.len() == 0 {
        Seq::empty()
    } else {
        escaped(text.drop_last()) + entity(text.last())
    }
}

/// Appends `text` to `out` as it stands in a document. This is
/// `sailfish::runtime::escape::escape_to_string`, which is taken to append
/// to what `out` holds the characters of `text` in their order, with `"`,
/// `&`, `'`, `<` and `>` replaced by `&quot;`, `&amp;`, `&#039;`, `&lt;`
/// and `&gt;`, and to leave every other character as it is.
#[verifier::external_body]
fn escape_to_string(text: &str, out: &mut String)
    ensures
        final(out)@ == old(out)@ + escaped(text@),
{
    sailfish::runtime::escape::escape_to_string(text, out)
}

/// The character is one of those that could open or close mark-up or end
/// a quoted value.
pub open spec fn is_markup(c: char) -> bool {
    c == '<' || c == '>' || c == '"' || c == '\''
}

/// No character of a text as it stands in a document is mark-up, whatever
/// the text holds.
pub proof fn escaped_text_has_no_markup(text: Seq<char>)
    ensures
        forall|i: int| 0 <= i < escaped(text).len() ==> !is_markup(#[trigger] escaped(text)[i]),
    decreases text.len(),
{
    reveal_strlit("&quot;");
    reveal_strlit("&amp;");
    reveal_strlit("&#039;");
    reveal_strlit("&lt;");
    reveal_strlit("&gt;");
    if text.len() > 0 {
        escaped_text_has_no_markup(text.drop_last());
        let front = escaped(text.drop_last());
        let last = entity(text.last());
        assert forall|i: int| 0 <= i < escaped(text).len() implies !is_markup(
            #[trigger] escaped(text)[i],
        ) by {
            if i < front.len() {
                assert(escaped(text)[i] == front[i]);
            } else {
                assert(escaped(text)[i] == last[i - front.len()]);
            }
        }
    }
}

/// The character of one hexadecimal digit.
pub open spec fn hex_digit(d: int) -> char {
    seq!['0', '1', '2', '3', '4', '5', '6', '7', '8', '9', 'a', 'b', 'c', 'd', 'e', 'f'][d]
}

fn hex_str(d: u8) -> (res: &'static str)
    requires
        d < 16,
    ensures
        res@ == seq![hex_digit(d as int)],
{
    proof {
        reveal_strlit("0");
        reveal_strlit("1");
        reveal_strlit("2");
        reveal_strlit("3");
        reveal_strlit("4");
        reveal_strlit("5");
        reveal_strlit("6");
        reveal_strlit("7");
        reveal_strlit("8");
        reveal_strlit("9");
        reveal_strlit("a");
        reveal_strlit("b");
        reveal_strlit("c");
        reveal_strlit("d");
        reveal_strlit("e");
        reveal_strlit("f");
    }
    let res = match d {
        0 => "0",
        1 => "1",
        2 => "2",
        3 => "3",
        4 => "4",
        5 => "5",
        6 => "6",
        7 => "7",
        8 => "8",
        9 => "9",
        10 => "a",
        11 => "b",
        12 => "c",
        13 => "d",
        14 => "e",
        _ => "f",
    };
    assert(res@ =~= seq![hex_digit(d as int)]);
    res
}

/// A colour as a document names it: `#`, then red, green, blue and alpha
/// with two hexadecimal digits each.
pub open spec fn color_text(c: Color) -> Seq<char> {
    seq![
        '#',
        hex_digit(c.r as int / 16),
        hex_digit(c.r as int % 16),
        hex_digit(c.g as int / 16),
        hex_digit(c.g as int % 16),
        hex_digit(c.b as int / 16),
        hex_digit(c.b as int % 16),
        hex_digit(c.a as int / 16),
        hex_digit(c.a as int % 16),
    ]
}

fn push_color(out: &mut String, c: Color)
    ensures
        final(out)@ == old(out)@ + color_text(c),
{
    proof {
        reveal_strlit("#");
    }
    out.append("#");
    out.append(hex_str(c.r / 16));
    out.append(hex_str(c.r % 16));
    out.append(hex_str(c.g / 16));
    out.append(hex_str(c.g % 16));
    out.append(hex_str(c.b / 16));
    out.append(hex_str(c.b % 16));
    out.append(hex_str(c.a / 16));
    out.append(hex_str(c.a % 16));
}

/// An attribute of a tag: a space, the name, and the value in quotes.
pub open spec fn attribute(name: Seq<char>, value: Seq<char>) -> Seq<char> {
    " "@ + name + "=\""@ + value + "\""@
}

fn push_attribute(out: &mut String, name: &str, value: &str)
    ensures
        final(out)@ == old(out)@ + attribute(name@, value@),
{
    out.append(" ");
    out.append(name);
    out.append("=\"");
    out.append(value);
    out.append("\"");
}

/// The path of a straight stroke between two points.
pub open spec fn stroke_path(x1: int, y1: int, x2: int, y2: int) -> Seq<char> {
    "M "@ + signed_decimal(x1) + " "@ + signed_decimal(y1) + " L "@ + signed_decimal(x2) + " "@
        + signed_decimal(y2)
}

fn stroke_path_text(x1: i64, y1: i64, x2: i64, y2: i64) -> (res: String)
    ensures
        res@ == stroke_path(x1 as int, y1 as int, x2 as int, y2 as int),
{
    let mut out = String::from_str("M ");
    push_signed(&mut out, x1);
    out.append(" ");
    push_signed(&mut out, y1);
    out.append(" L ");
    push_signed(&mut out, x2);
    out.append(" ");
    push_signed(&mut out, y2);
    out
}

/// The path of the upper half circle about `center`, from its left end
/// clockwise to its right end.
pub open spec fn half_circle_path(center: Point, radius: u32) -> Seq<char> {
    "M "@ + signed_decimal(center.x - radius) + " "@ + signed_decimal(center.y as int) + " A "@
        + decimal(radius as nat) + " "@ + decimal(radius as nat) + " 0 0 1 "@ + signed_decimal(
        center.x + radius,
    ) + " "@ + signed_decimal(center.y as int)
}

fn half_circle_path_text(center: Point, radius: u32) -> (res: String)
    requires
        center.drawable(),
    ensures
        res@ == half_circle_path(center, radius),
{
    let mut out = String::from_str("M ");
    push_signed(&mut out, center.x - radius as i64);
    out.append(" ");
    push_signed(&mut out, center.y);
    out.append(" A ");
    push_decimal(&mut out, radius as u64);
    out.append(" ");
    push_decimal(&mut out, radius as u64);
    out.append(" 0 0 1 ");
    push_signed(&mut out, center.x + radius as i64);
    out.append(" ");
    push_signed(&mut out, center.y);
    out
}

/// The path of a needle that points left from `center`: from the tip to
/// the end of the base above the centre, to the one below, and back.
pub open spec fn needle_path(center: Point, length: u32, half_width: u32) -> Seq<char> {
    "M "@ + signed_decimal(center.x - length) + " "@ + signed_decimal(center.y as int) + " L "@
        + signed_decimal(center.x as int) + " "@ + signed_decimal(center.y - half_width) + " L "@
        + signed_decimal(center.x as int) + " "@ + signed_decimal(center.y + half_width) + " Z"@
}

fn needle_path_text(center: Point, length: u32, half_width: u32) -> (res: String)
    requires
        center.drawable(),
    ensures
        res@ == needle_path(center, length, half_width),
{
    let mut out = String::from_str("M ");
    push_signed(&mut out, center.x - length as i64);
    out.append(" ");
    push_signed(&mut out, center.y);
    out.append(" L ");
    push_signed(&mut out, center.x);
    out.append(" ");
    push_signed(&mut out, center.y - half_width as i64);
    out.append(" L ");
    push_signed(&mut out, center.x);
    out.append(" ");
    push_signed(&mut out, center.y + half_width as i64);
    out.append(" Z");
    out
}

/// A turn by `turn` thousandths of a degree clockwise about `(x, y)`.
pub open spec fn rotation(turn: int, x: int, y: int) -> Seq<char> {
    "rotate("@ + signed_three_decimals(turn) + " "@ + signed_decimal(x) + " "@ + signed_decimal(y)
        + ")"@
}

fn push_rotation(out: &mut String, turn: i64, x: i64, y: i64)
    ensures
        final(out)@ == old(out)@ + rotation(turn as int, x as int, y as int),
{
    out.append("rotate(");
    push_signed_three_decimals(out, turn);
    out.append(" ");
    push_signed(out, x);
    out.append(" ");
    push_signed(out, y);
    out.append(")");
}

/// How a document names an alignment.
pub open spec fn anchor_word(alignment: TextAlignment) -> Seq<char> {
    match alignment {
        TextAlignment::Left => "start"@,
        TextAlignment::Center => "middle"@,
        TextAlignment::Right => "end"@,
    }
}

/// The size of a typeface in pixels.
pub open spec fn font_size(font: Font) -> Seq<char> {
    match font {
        Font::Title => "20"@,
        Font::Small => "18"@,
        Font::Regular => "24"@,
    }
}

/// The attributes that every text has: its anchor and how it is aligned on
/// it, centred on it in height, then size and colour.
pub open spec fn text_attributes(
    x: int,
    y: int,
    alignment: TextAlignment,
    font: Font,
    color: Color,
) -> Seq<char> {
    attribute("x"@, signed_decimal(x)) + attribute("y"@, signed_decimal(y)) + attribute(
        "text-anchor"@,
        anchor_word(alignment),
    ) + attribute("dominant-baseline"@, "central"@) + attribute("font-size"@, font_size(font))
        + attribute("fill"@, color_text(color))
}

fn push_text_attributes(
    out: &mut String,
    x: i64,
    y: i64,
    alignment: TextAlignment,
    font: Font,
    color: Color,
)
    ensures
        final(out)@ == old(out)@ + text_attributes(x as int, y as int, alignment, font, color),
{
    let mut number = String::new();
    push_signed(&mut number, x);
    push_attribute(out, "x", number.as_str());
    let mut number = String::new();
    push_signed(&mut number, y);
    push_attribute(out, "y", number.as_str());
    push_attribute(
        out,
        "text-anchor",
        match alignment {
            TextAlignment::Left => "start",
            TextAlignment::Center => "middle",
            TextAlignment::Right => "end",
        },
    );
    push_attribute(out, "dominant-baseline", "central");
    push_attribute(
        out,
        "font-size",
        match font {
            Font::Title => "20",
            Font::Small => "18",
            Font::Regular => "24",
        },
    );
    let mut ink = String::new();
    push_color(&mut ink, color);
    push_attribute(out, "fill", ink.as_str());
}

/// The stroke attributes of a line: colour and thickness.
pub open spec fn stroke_attributes(color: Color, thickness: u32) -> Seq<char> {
    attribute("stroke"@, color_text(color)) + attribute("stroke-width"@, decimal(thickness as nat))
}

fn push_stroke_attributes(out: &mut String, color: Color, thickness: u32)
    ensures
        final(out)@ == old(out)@ + stroke_attributes(color, thickness),
{
    let mut ink = String::new();
    push_color(&mut ink, color);
    push_attribute(out, "stroke", ink.as_str());
    let mut width = String::new();
    push_decimal(&mut width, thickness as u64);
    push_attribute(out, "stroke-width", width.as_str());
}

/// A stroke of the arc as a line of a document.
pub open spec fn arc_svg(center: Point, radius: u32, color: Color) -> Seq<char> {
    "<path"@ + attribute("d"@, half_circle_path(center, radius)) + attribute("fill"@, "none"@)
        + attribute("stroke"@, color_text(color)) + "/>\n"@
}

/// A tick as a line of a document: drawn as it stands at the left end of
/// the dial, then turned about the centre.
pub open spec fn tick_svg(
    center: Point,
    angle: Angle,
    inner: u32,
    outer: u32,
    thickness: u32,
    color: Color,
) -> Seq<char> {
    "<path"@ + attribute(
        "d"@,
        stroke_path(center.x - outer, center.y as int, center.x - inner, center.y as int),
    ) + stroke_attributes(color, thickness) + attribute(
        "transform"@,
        rotation(angle.turn(), center.x as int, center.y as int),
    ) + "/>\n"@
}

/// The two turns of a tick label: with its ray about the centre, and back
/// about itself, which leaves it upright.
pub open spec fn label_turns(center: Point, angle: Angle, radius: u32) -> Seq<char> {
    rotation(angle.turn(), center.x as int, center.y as int) + " "@ + rotation(
        -angle.turn(),
        center.x - radius,
        center.y as int,
    )
}

/// A tick label as a line of a document.
pub open spec fn tick_label_svg(center: Point, angle: Angle, radius: u32, value: u64, color: Color)
    -> Seq<char> {
    "<text"@ + text_attributes(
        center.x - radius,
        center.y as int,
        TextAlignment::Center,
        Font::Small,
        color,
    ) + attribute("transform"@, label_turns(center, angle, radius)) + ">"@ + decimal(value as nat)
        + "</text>\n"@
}

/// A needle as a line of a document: drawn as it points left, then turned
/// about the centre.
pub open spec fn needle_svg(
    center: Point,
    angle: Angle,
    length: u32,
    half_width: u32,
    color: Color,
) -> Seq<char> {
    "<path"@ + attribute("d"@, needle_path(center, length, half_width)) + attribute(
        "fill"@,
        color_text(color),
    ) + attribute("transform"@, rotation(angle.turn(), center.x as int, center.y as int))
        + "/>\n"@
}

/// A horizontal line as a line of a document.
pub open spec fn rule_svg(x1: i64, x2: i64, y: i64, thickness: u32, color: Color) -> Seq<char> {
    "<path"@ + attribute("d"@, stroke_path(x1 as int, y as int, x2 as int, y as int))
        + stroke_attributes(color, thickness) + "/>\n"@
}

/// A text as a line of a document.
pub open spec fn text_svg(label: LabelView) -> Seq<char> {
    "<text"@ + text_attributes(
        label.x as int,
        label.y as int,
        label.alignment,
        label.font,
        label.color,
    ) + ">"@ + escaped(label.text) + "</text>\n"@
}

/// One element as a line of a document. The shapes of a dial are drawn as
/// they stand at the left end of the dial and are then turned clockwise
/// about its centre, so that no point of them has to be computed.
pub open spec fn element_svg(element: ElementView) -> Seq<char> {
    match element {
        ElementView::Arc { center, radius, color } => arc_svg(center, radius, color),
        ElementView::Tick { center, angle, inner, outer, thickness, color } => tick_svg(
            center,
            angle,
            inner,
            outer,
            thickness,
            color,
        ),
        ElementView::TickLabel { center, angle, radius, value, color } => tick_label_svg(
            center,
            angle,
            radius,
            value,
            color,
        ),
        ElementView::Needle { center, angle, length, half_width, color } => needle_svg(
            center,
            angle,
            length,
            half_width,
            color,
        ),
        ElementView::Rule { x1, x2, y, thickness, color } => rule_svg(x1, x2, y, thickness, color),
        ElementView::Text(label) => text_svg(label),
    }
}

fn push_fill(out: &mut String, name: &str, color: Color)
    ensures
        final(out)@ == old(out)@ + attribute(name@, color_text(color)),
{
    let mut ink = String::new();
    push_color(&mut ink, color);
    push_attribute(out, name, ink.as_str());
}

fn push_turn(out: &mut String, turn: i64, center: Point)
    ensures
        final(out)@ == old(out)@ + attribute(
            "transform"@,
            rotation(turn as int, center.x as int, center.y as int),
        ),
{
    let mut text = String::new();
    push_rotation(&mut text, turn, center.x, center.y);
    push_attribute(out, "transform", text.as_str());
}

fn push_arc(out: &mut String, center: Point, radius: u32, color: Color)
    requires
        center.drawable(),
    ensures
        final(out)@ == old(out)@ + arc_svg(center, radius, color),
{
    out.append("<path");
    push_attribute(out, "d", half_circle_path_text(center, radius).as_str());
    push_attribute(out, "fill", "none");
    push_fill(out, "stroke", color);
    out.append("/>\n");
}

fn push_tick(
    out: &mut String,
    center: Point,
    angle: Angle,
    inner: u32,
    outer: u32,
    thickness: u32,
    color: Color,
)
    requires
        center.drawable(),
        angle.drawable(),
    ensures
        final(out)@ == old(out)@ + tick_svg(center, angle, inner, outer, thickness, color),
{
    out.append("<path");
    let d = stroke_path_text(center.x - outer as i64, center.y, center.x - inner as i64, center.y);
    push_attribute(out, "d", d.as_str());
    push_stroke_attributes(out, color, thickness);
    push_turn(out, angle.turn_of(), center);
    out.append("/>\n");
}

fn push_tick_label(
    out: &mut String,
    center: Point,
    angle: Angle,
    radius: u32,
    value: u64,
    color: Color,
)
    requires
        center.drawable(),
        angle.drawable(),
    ensures
        final(out)@ == old(out)@ + tick_label_svg(center, angle, radius, value, color),
{
    out.append("<text");
    let x: i64 = center.x - radius as i64;
    push_text_attributes(out, x, center.y, TextAlignment::Center, Font::Small, color);
    let turn = angle.turn_of();
    let mut turns = String::new();
    push_rotation(&mut turns, turn, center.x, center.y);
    turns.append(" ");
    push_rotation(&mut turns, -turn, x, center.y);
    push_attribute(out, "transform", turns.as_str());
    out.append(">");
    push_decimal(out, value);
    out.append("</text>\n");
}

fn push_needle(
    out: &mut String,
    center: Point,
    angle: Angle,
    length: u32,
    half_width: u32,
    color: Color,
)
    requires
        center.drawable(),
        angle.drawable(),
    ensures
        final(out)@ == old(out)@ + needle_svg(center, angle, length, half_width, color),
{
    out.append("<path");
    push_attribute(out, "d", needle_path_text(center, length, half_width).as_str());
    push_fill(out, "fill", color);
    push_turn(out, angle.turn_of(), center);
    out.append("/>\n");
}

fn push_rule(out: &mut String, x1: i64, x2: i64, y: i64, thickness: u32, color: Color)
    ensures
        final(out)@ == old(out)@ + rule_svg(x1, x2, y, thickness, color),
{
    out.append("<path");
    push_attribute(out, "d", stroke_path_text(x1, y, x2, y).as_str());
    push_stroke_attributes(out, color, thickness);
    out.append("/>\n");
}

fn push_text(out: &mut String, label: &Label)
    ensures
        final(out)@ == old(out)@ + text_svg(label@),
{
    out.append("<text");
    push_text_attributes(out, label.x, label.y, label.alignment, label.font, label.color);
    out.append(">");
    escape_to_string(label.text.as_str(), out);
    out.append("</text>\n");
}

fn push_element_svg(out: &mut String, element: &Element)
    requires
        element@.drawable(),
    ensures
        final(out)@ == old(out)@ + element_svg(element@),
{
    match element {
        Element::Arc { center, radius, color } => push_arc(out, *center, *radius, *color),
        Element::Tick { center, angle, inner, outer, thickness, color } => push_tick(
            out,
            *center,
            *angle,
            *inner,
            *outer,
            *thickness,
            *color,
        ),
        Element::TickLabel { center, angle, radius, value, color } => push_tick_label(
            out,
            *center,
            *angle,
            *radius,
            *value,
            *color,
        ),
        Element::Needle { center, angle, length, half_width, color } => push_needle(
            out,
            *center,
            *angle,
            *length,
            *half_width,
            *color,
        ),
        Element::Rule { x1, x2, y, thickness, color } => push_rule(
            out,
            *x1,
            *x2,
            *y,
            *thickness,
            *color,
        ),
        Element::Text(label) => push_text(out, label),
    }
}

/// The lines of the first `count` elements, in order.
pub open spec fn elements_svg(elements: Seq<ElementView>, count: nat) -> Seq<char>
    decreases count,
{
    if count == 0 {
        Seq::empty()
    } else {
        elements_svg(elements, (count - 1) as nat) + element_svg(elements[count - 1])
    }
}

/// The lines of the first `count` blocks, in order.
pub open spec fn blocks_svg(blocks: Seq<BlockView>, count: nat) -> Seq<char>
    decreases count,
{
    if count == 0 {
        Seq::empty()
    } else {
        blocks_svg(blocks, (count - 1) as nat) + elements_svg(
            blocks[count - 1].elements,
            blocks[count - 1].elements.len(),
        )
    }
}

/// The rectangle that fills a frame with its background, unless that is
/// fully transparent.
pub open spec fn backdrop(color: Color) -> Seq<char> {
    if color.a == 0 {
        Seq::empty()
    } else {
        "<rect"@ + attribute("width"@, "100%"@) + attribute("height"@, "100%"@) + attribute(
            "fill"@,
            color_text(color),
        ) + "/>\n"@
    }
}

/// The opening tag of a document for a frame that is `height` high.
pub open spec fn document_head(height: u32) -> Seq<char> {
    "<svg"@ + attribute("xmlns"@, "http://www.w3.org/2000/svg"@) + attribute(
        "width"@,
        decimal(WIDTH as nat),
    ) + attribute("height"@, decimal(height as nat)) + ">\n"@
}

/// A frame as a vector graphics document: the opening tag with the frame's
/// size, the background, the elements of all blocks in drawing order, and
/// the closing tag.
pub open spec fn document(height: u32, background: Color, scene: SceneView) -> Seq<char> {
    document_head(height) + backdrop(background) + blocks_svg(
        scene.blocks,
        scene.blocks.len(),
    ) + "</svg>\n"@
}

fn push_block_svg(out: &mut String, block: &Block)
    requires
        block@.drawable(),
    ensures
        final(out)@ == old(out)@ + elements_svg(block@.elements, block@.elements.len()),
{
    let mut i: usize = 0;
    while i < block.elements.len()
        invariant
            i <= block.elements.len(),
            block@.drawable(),
            out@ == old(out)@ + elements_svg(block@.elements, i as nat),
        decreases block.elements.len() - i,
    {
        assert(block@.elements[i as int].drawable());
        push_element_svg(out, &block.elements[i]);
        i = i + 1;
    }
}

/// Writes a frame as a vector graphics document, if all of it can be
/// drawn.
pub fn frame_svg(frame: &Frame) -> (res: Option<String>)
    ensures
        match res {
            Some(text) => frame.scene@.drawable() && text@ == document(
                frame.height,
                frame.background,
                frame.scene@,
            ),
            None => !frame.scene@.drawable(),
        },
{
    if frame.scene.is_drawable() {
        Some(write_frame(frame))
    } else {
        None
    }
}

fn write_frame(frame: &Frame) -> (res: String)
    requires
        frame.scene@.drawable(),
    ensures
        res@ == document(frame.height, frame.background, frame.scene@),
{
    let mut out = String::from_str("<svg");
    push_attribute(&mut out, "xmlns", "http://www.w3.org/2000/svg");
    let mut number = String::new();
    push_decimal(&mut number, WIDTH as u64);
    push_attribute(&mut out, "width", number.as_str());
    let mut number = String::new();
    push_decimal(&mut number, frame.height as u64);
    push_attribute(&mut out, "height", number.as_str());
    out.append(">\n");
    if frame.background.a != 0 {
        out.append("<rect");
        push_attribute(&mut out, "width", "100%");
        push_attribute(&mut out, "height", "100%");
        let mut ink = String::new();
        push_color(&mut ink, frame.background);
        push_attribute(&mut out, "fill", ink.as_str());
        out.append("/>\n");
    }
    assert(out@ =~= document_head(frame.height) + backdrop(frame.background));
    let ghost head = out@;
    let mut i: usize = 0;
    while i < frame.scene.blocks.len()
        invariant
            i <= frame.scene.blocks.len(),
            frame.scene@.drawable(),
            out@ == head + blocks_svg(frame.scene@.blocks, i as nat),
        decreases frame.scene.blocks.len() - i,
    {
        assert(frame.scene@.blocks[i as int].drawable());
        push_block_svg(&mut out, &frame.scene.blocks[i]);
        i = i + 1;
    }
    out.append("</svg>\n");
    out
}

/// Draws the frame for one sample as a vector graphics document.
pub fn render_svg(data_point: &DataPoint, config: &RenderConfig) -> (res: Result<
    String,
    ConfigError,
>)
    ensures
        match res {
            Ok(text) => config.cell_count != Some(0u8) && text@ == document(
                run_height(*config) as u32,
                background(config.transparent),
                scene_of(*data_point, *config),
            ),
            Err(e) => e == ConfigError::NoCells && config.cell_count == Some(0u8),
        },
{
    match render_frame(config, data_point) {
        Ok(frame) => Ok(write_frame(&frame)),
        Err(e) => Err(e),
    }
}

} // verus!
