use vstd::prelude::*;
use vstd::string::*;
use crate::element::{element_views, push_element, Block, BlockView, Element, ElementView};
use crate::geometry::{Angle, Color, Point, WIDTH};
use crate::render::{Font, Label, LabelView, TextAlignment, STROKE};
use crate::units::{format_reading, reading_text};

verus! {

/// Radius of a dial's innermost arc stroke; ticks end on it.
pub const DIAL_RADIUS: u32 = 150;

/// Number of concentric strokes that make up the arc, one pixel apart.
pub const ARC_STROKES: u32 = 5;

/// Length of a tick, inwards from the arc.
pub const TICK_LENGTH: u32 = 20;

/// Distance of the tick labels from the inner end of the ticks.
pub const LABEL_INSET: u32 = 20;

/// Length of the needle from the centre to its tip.
pub const NEEDLE_LENGTH: u32 = 140;

/// Width of the needle at its base.
pub const NEEDLE_WIDTH: u32 = 10;

/// Distance of the title above, and of the reading below, the centre.
pub const CAPTION_OFFSET: u32 = 50;

/// Height that a dial takes in a frame.
pub const DIAL_HEIGHT: u32 = 250;

/// What tick `i` is labelled with: ticks count in tens, whatever the step.
/// A dial whose step is not ten units therefore shows labels that differ
/// from the values its ticks stand for.
pub const LABEL_UNIT: u64 = 10;

/// Why a frame cannot be laid out.
#[derive(Clone, Copy, Debug, PartialEq, Eq, Structural)]
pub enum ConfigError {
    /// The upper end of a dial's range is not above the lower end.
    EmptySpan,
    /// The tick step of a dial is zero or negative.
    NonPositiveStep,
    /// The battery pack is said to have no cells.
    NoCells,
}

/// A semicircular dial: what it shows and how. Readings are in thousandths
/// of their unit.
#[derive(Clone, Debug, PartialEq, Eq)]
pub struct Speedo {
    pub title: String,
    /// The current reading, which the needle points at.
    pub value: i32,
    /// The reading at the left end of the dial.
    pub min: i32,
    /// The reading at the right end of the dial.
    pub max: i32,
    /// The distance between two ticks.
    pub step: i32,
    /// What follows the reading in the caption.
    pub units: String,
    /// Whether the caption shows the reading as a whole number rather than
    /// with two decimals.
    pub as_int: bool,
    pub title_color: Color,
    pub tick_color: Color,
    pub arc_color: Color,
    pub needle_color: Color,
    pub label_color: Color,
    /// The part of the range, in thousandths of it, from which on readings
    /// count as critical.
    pub redline: Option<u32>,
}

pub struct SpeedoView {
    pub title: Seq<char>,
    pub value: i32,
    pub min: i32,
    pub max: i32,
    pub step: i32,
    pub units: Seq<char>,
    pub as_int: bool,
    pub title_color: Color,
    pub tick_color: Color,
    pub arc_color: Color,
    pub needle_color: Color,
    pub label_color: Color,
    pub redline: Option<u32>,
}

impl View for Speedo {
    type V = SpeedoView;

    open spec fn view(&self) -> SpeedoView {
        SpeedoView {
            title: self.title@,
            value: self.value,
            min: self.min,
            max: self.max,
            step: self.step,
            units: self.units@,
            as_int: self.as_int,
            title_color: self.title_color,
            tick_color: self.tick_color,
            arc_color: self.arc_color,
            needle_color: self.needle_color,
            label_color: self.label_color,
            redline: self.redline,
        }
    }
}

/// The centre of a dial whose band starts at `top`: in the middle of the
/// frame's width, a radius below the top.
pub open spec fn dial_center(top: i32) -> Point {
    Point { x: (WIDTH / 2) as i64, y: (top + DIAL_RADIUS) as i64 }
}

/// The angle of tick `i` of a dial with `count` tick intervals: the ticks
/// divide the half turn from `pi` on the left to zero on the right evenly.
/// A dial without a whole interval has its one tick on the left.
pub open spec fn tick_angle(count: int, i: int) -> Angle {
    if count > 0 {
        Angle { num: (count - i) as i64, den: count as i64 }
    } else {
        Angle::half_turn()
    }
}

/// The angle of the needle at the reading `value` on a dial from `min` to
/// `max`: `pi - pi * (value - min) / (max - min)`. A reading outside the
/// range carries the needle on beyond the half circle.
pub open spec fn needle_angle(value: i32, min: i32, max: i32) -> Angle {
    Angle { num: (max - value) as i64, den: (max - min) as i64 }
}

/// How far the needle has swept clockwise from the left end of the dial,
/// as a fraction of the half turn: `(value - min) / (max - min)`.
pub open spec fn needle_sweep(value: i32, min: i32, max: i32) -> Angle {
    Angle { num: (value - min) as i64, den: (max - min) as i64 }
}

pub open spec fn arc_element(center: Point, k: int, color: Color) -> ElementView {
    ElementView::Arc { center, radius: (DIAL_RADIUS + k) as u32, color }
}

pub open spec fn tick_element(center: Point, count: int, i: int, color: Color) -> ElementView {
    ElementView::Tick {
        center,
        angle: tick_angle(count, i),
        inner: (DIAL_RADIUS - TICK_LENGTH) as u32,
        outer: DIAL_RADIUS,
        thickness: STROKE,
        color,
    }
}

pub open spec fn tick_label_element(center: Point, count: int, i: int, color: Color)
    -> ElementView {
    ElementView::TickLabel {
        center,
        angle: tick_angle(count, i),
        radius: (DIAL_RADIUS - TICK_LENGTH - LABEL_INSET) as u32,
        value: (LABEL_UNIT * i) as u64,
        color,
    }
}

/// The needle: an isosceles triangle with its tip under `angle` and the
/// ends of its base half its width from the centre.
pub open spec fn needle_element(center: Point, angle: Angle, color: Color) -> ElementView {
    ElementView::Needle {
        center,
        angle,
        length: NEEDLE_LENGTH,
        half_width: (NEEDLE_WIDTH / 2) as u32,
        color,
    }
}

impl SpeedoView {
    /// A dial needs a range with its upper end above its lower end, and a
    /// positive step.
    pub open spec fn valid(self) -> bool {
        self.max > self.min && self.step > 0
    }

    /// The number of tick intervals: the whole steps that fit in the range.
    pub open spec fn tick_count(self) -> int {
        (self.max - self.min) / (self.step as int)
    }

    /// The reading and its unit, as the caption shows them.
    pub open spec fn caption(self) -> Seq<char> {
        reading_text(self.value as int, self.as_int) + self.units
    }

    /// The strokes of the arc, from the inside out.
    pub open spec fn arcs(self, top: i32, upto: nat) -> Seq<ElementView> {
        Seq::new(upto, |k: int| arc_element(dial_center(top), k, self.arc_color))
    }

    /// The first `upto` ticks, from the left.
    pub open spec fn ticks(self, top: i32, upto: nat) -> Seq<ElementView> {
        Seq::new(
            upto,
            |i: int| tick_element(dial_center(top), self.tick_count(), i, self.tick_color),
        )
    }

    /// The labels of the first `upto` ticks, from the left.
    pub open spec fn tick_labels(self, top: i32, upto: nat) -> Seq<ElementView> {
        Seq::new(
            upto,
            |i: int| tick_label_element(dial_center(top), self.tick_count(), i, self.label_color),
        )
    }

    pub open spec fn needle(self, top: i32) -> ElementView {
        needle_element(
            dial_center(top),
            needle_angle(self.value, self.min, self.max),
            self.needle_color,
        )
    }

    /// The title above the centre and the reading below it, both centred.
    pub open spec fn captions(self, top: i32) -> Seq<ElementView> {
        let c = dial_center(top);
        seq![
            ElementView::Text(
                LabelView {
                    text: self.title,
                    x: c.x,
                    y: (c.y - CAPTION_OFFSET) as i64,
                    alignment: TextAlignment::Center,
                    color: self.title_color,
                    font: Font::Regular,
                },
            ),
            ElementView::Text(
                LabelView {
                    text: self.caption(),
                    x: c.x,
                    y: (c.y + CAPTION_OFFSET) as i64,
                    alignment: TextAlignment::Center,
                    color: Color::white(),
                    font: Font::Regular,
                },
            ),
        ]
    }

    /// Everything a dial is drawn from, in drawing order: the arc strokes,
    /// one tick and one label for each of the tick positions `0` to
    /// `tick_count()`, the needle, and the captions.
    pub open spec fn elements(self, top: i32) -> Seq<ElementView> {
        let positions = (self.tick_count() + 1) as nat;
        self.arcs(top, ARC_STROKES as nat) + self.ticks(top, positions) + self.tick_labels(
            top,
            positions,
        ) + seq![self.needle(top)] + self.captions(top)
    }
}

fn tick_angle_at(count: i64, i: i64) -> (a: Angle)
    requires
        0 <= i <= count,
    ensures
        a == tick_angle(count as int, i as int),
{
    if count > 0 {
        Angle { num: count - i, den: count }
    } else {
        Angle { num: 1, den: 1 }
    }
}

impl Default for Speedo {
    /// A dial from zero to a hundred units with a tick every ten, all in
    /// white, showing zero as a whole number.
    fn default() -> (res: Self)
        ensures
            res@ == (SpeedoView {
                title: "Speedo"@,
                value: 0,
                min: 0,
                max: 100_000,
                step: 10_000,
                units: Seq::empty(),
                as_int: true,
                title_color: Color::white(),
                tick_color: Color::white(),
                arc_color: Color::white(),
                needle_color: Color::white(),
                label_color: Color::white(),
                redline: None,
            }),
    {
        let white = Color::rgb(255, 255, 255);
        Speedo {
            title: String::from_str("Speedo"),
            value: 0,
            min: 0,
            max: 100_000,
            step: 10_000,
            units: String::new(),
            as_int: true,
            title_color: white,
            tick_color: white,
            arc_color: white,
            needle_color: white,
            label_color: white,
            redline: None,
        }
    }
}

impl Speedo {
    /// Lays the dial out in the band that starts at `y`. The result depends
    /// on the dial and on `y` alone. A dial whose range is empty or whose
    /// step is not positive is refused.
    pub fn render(&self, y: i32) -> (res: Result<Block, ConfigError>)
        ensures
            match res {
                Ok(block) => self@.valid() && block@.drawable() && block@ == (BlockView {
                    top: y,
                    height: DIAL_HEIGHT,
                    elements: self@.elements(y),
                }),
                Err(ConfigError::EmptySpan) => self.max <= self.min,
                Err(ConfigError::NonPositiveStep) => self.max > self.min && self.step <= 0,
                Err(ConfigError::NoCells) => false,
            },
    {
        if self.max <= self.min {
            return Err(ConfigError::EmptySpan);
        }
        if self.step <= 0 {
            return Err(ConfigError::NonPositiveStep);
        }
        let span: i64 = self.max as i64 - self.min as i64;
        let count: i64 = span / (self.step as i64);
        assert(0 <= count <= span) by (nonlinear_arith)
            requires
                count == (span as int) / (self.step as int),
                span > 0,
                self.step > 0,
        ;
        let center = Point { x: (WIDTH / 2) as i64, y: y as i64 + DIAL_RADIUS as i64 };
        let mut elements: Vec<Element> = Vec::new();

        let mut k: u32 = 0;
        while k < ARC_STROKES
            invariant
                k <= ARC_STROKES,
                center == dial_center(y),
                element_views(elements@) == self@.arcs(y, k as nat),
            decreases ARC_STROKES - k,
        {
            push_element(
                &mut elements,
                Element::Arc { center, radius: DIAL_RADIUS + k, color: self.arc_color },
            );
            k = k + 1;
        }
        let ghost arcs = element_views(elements@);

        let mut i: i64 = 0;
        while i <= count
            invariant
                0 <= i <= count + 1,
                count == self@.tick_count(),
                count <= 0xffff_ffff,
                center == dial_center(y),
                element_views(elements@) == arcs + self@.ticks(y, i as nat),
            decreases count + 1 - i,
        {
            push_element(
                &mut elements,
                Element::Tick {
                    center,
                    angle: tick_angle_at(count, i),
                    inner: DIAL_RADIUS - TICK_LENGTH,
                    outer: DIAL_RADIUS,
                    thickness: STROKE,
                    color: self.tick_color,
                },
            );
            i = i + 1;
        }
        let ghost ticks = element_views(elements@);

        let mut i: i64 = 0;
        while i <= count
            invariant
                0 <= i <= count + 1,
                count == self@.tick_count(),
                count <= 0xffff_ffff,
                center == dial_center(y),
                element_views(elements@) == ticks + self@.tick_labels(y, i as nat),
            decreases count + 1 - i,
        {
            push_element(
                &mut elements,
                Element::TickLabel {
                    center,
                    angle: tick_angle_at(count, i),
                    radius: DIAL_RADIUS - TICK_LENGTH - LABEL_INSET,
                    value: LABEL_UNIT * (i as u64),
                    color: self.label_color,
                },
            );
            i = i + 1;
        }
        let ghost labels = element_views(elements@);

        let num: i64 = self.max as i64 - self.value as i64;
        let angle = Angle { num, den: span };
        push_element(
            &mut elements,
            Element::Needle {
                center,
                angle,
                length: NEEDLE_LENGTH,
                half_width: NEEDLE_WIDTH / 2,
                color: self.needle_color,
            },
        );

        let title = Label {
            text: self.title.clone(),
            x: center.x,
            y: center.y - CAPTION_OFFSET as i64,
            alignment: TextAlignment::Center,
            color: self.title_color,
            font: Font::Regular,
        };
        let mut caption = format_reading(self.value, self.as_int);
        caption.append(self.units.as_str());
        let reading = Label {
            text: caption,
            x: center.x,
            y: center.y + CAPTION_OFFSET as i64,
            alignment: TextAlignment::Center,
            color: Color::rgb(255, 255, 255),
            font: Font::Regular,
        };
        push_element(&mut elements, Element::Text(title));
        push_element(&mut elements, Element::Text(reading));
        assert(element_views(elements@) =~= labels + seq![self@.needle(y)] + self@.captions(y));
        proof {
            dial_is_drawable(self@, y);
        }
        Ok(Block { top: y, height: DIAL_HEIGHT, elements })
    }
}

/// As the reading rises from the lower to the upper end of the range, the
/// needle sweeps steadily clockwise: its sweep from the left end never
/// shrinks, and its angle, which is what is left of the half turn, never
/// grows. At the lower end the angle is `pi`, at the upper end zero.
pub proof fn needle_sweeps_with_reading(min: i32, max: i32, low: i32, high: i32)
    requires
        min < max,
        min <= low <= high <= max,
    ensures
        needle_sweep(low, min, max).le(needle_sweep(high, min, max)),
        needle_angle(high, min, max).le(needle_angle(low, min, max)),
        needle_angle(low, min, max).num + needle_sweep(low, min, max).num == needle_angle(
            low,
            min,
            max,
        ).den,
        needle_angle(min, min, max).same(Angle::half_turn()),
        needle_angle(max, min, max).same(Angle::zero()),
        Angle::zero().le(needle_angle(high, min, max)),
        needle_angle(low, min, max).le(Angle::half_turn()),
{
    let d = max - min;
    assert((low - min) * d <= (high - min) * d) by (nonlinear_arith)
        requires
            low <= high,
            d > 0,
    ;
    assert((max - high) * d <= (max - low) * d) by (nonlinear_arith)
        requires
            low <= high,
            d > 0,
    ;
}

/// A reading in the middle of the range has the needle point straight up.
pub proof fn needle_at_mid_range_points_up(min: i32, max: i32, mid: i32)
    requires
        min < max,
        2 * mid == min + max,
    ensures
        needle_angle(mid, min, max).same(Angle::quarter_turn()),
{
}

/// The ticks of a dial divide the half turn evenly: the first stands at
/// `pi`, the last at zero, and each lies the same fraction `1 / count` of
/// the half turn before the next.
pub proof fn ticks_are_evenly_spaced(count: u32, i: u32)
    requires
        0 < count,
        i < count,
    ensures
        tick_angle(count as int, 0).same(Angle::half_turn()),
        tick_angle(count as int, count as int).same(Angle::zero()),
        tick_angle(count as int, i as int).den == count,
        tick_angle(count as int, i + 1).den == count,
        tick_angle(count as int, i as int).num - tick_angle(count as int, i + 1).num == 1,
{
}

/// Where the parts of a dial stand among its elements: after the arc
/// strokes come the ticks, one for each position from zero to the number of
/// whole steps in the range, then as many labels, then the needle and the
/// two captions.
pub proof fn dial_parts(dial: SpeedoView, top: i32, i: int)
    requires
        dial.valid(),
        0 <= i <= dial.tick_count(),
    ensures
        dial.tick_count() == (dial.max - dial.min) / (dial.step as int),
        dial.elements(top).len() == ARC_STROKES + 2 * (dial.tick_count() + 1) + 3,
        dial.elements(top)[ARC_STROKES + i] == tick_element(
            dial_center(top),
            dial.tick_count(),
            i,
            dial.tick_color,
        ),
        dial.elements(top)[ARC_STROKES + dial.tick_count() + 1 + i] == tick_label_element(
            dial_center(top),
            dial.tick_count(),
            i,
            dial.label_color,
        ),
        dial.elements(top)[ARC_STROKES + 2 * (dial.tick_count() + 1)] == dial.needle(top),
{
    let span = dial.max - dial.min;
    let step = dial.step as int;
    assert(0 <= span / step) by (nonlinear_arith)
        requires
            span > 0,
            step > 0,
    ;
}

/// Every element of a dial can be drawn: its centre lies within bounds, and
/// so do the angles of its ticks and of its needle, wherever the reading
/// stands.
pub proof fn dial_is_drawable(dial: SpeedoView, top: i32)
    requires
        dial.valid(),
    ensures
        forall|i: int|
            0 <= i < dial.elements(top).len() ==> (#[trigger] dial.elements(top)[i]).drawable(),
{
    let span = dial.max - dial.min;
    let step = dial.step as int;
    let count = dial.tick_count();
    assert(0 <= span / step <= span) by (nonlinear_arith)
        requires
            span > 0,
            step > 0,
    ;
    let elements = dial.elements(top);
    let arcs = ARC_STROKES as int;
    assert forall|i: int| 0 <= i < elements.len() implies (#[trigger] elements[i]).drawable() by {
        if i < arcs {
            assert(elements[i] == arc_element(dial_center(top), i, dial.arc_color));
        } else if i < arcs + count + 1 {
            assert(elements[i] == tick_element(
                dial_center(top),
                count,
                i - arcs,
                dial.tick_color,
            ));
        } else if i < arcs + 2 * (count + 1) {
            assert(elements[i] == tick_label_element(
                dial_center(top),
                count,
                i - arcs - count - 1,
                dial.label_color,
            ));
        } else if i == arcs + 2 * (count + 1) {
            assert(elements[i] == dial.needle(top));
        } else {
            assert(elements[i] == dial.captions(top)[i - arcs - 2 * (count + 1) - 1]);
        }
    }
}

} // verus!
