use vstd::prelude::*;
use crate::geometry::{Angle, Color, Point};
use crate::render::{Label, LabelView};

verus! {

/// One thing to draw. A backend draws the elements of a frame in order.
#[derive(Clone, Debug, PartialEq, Eq)]
pub enum Element {
    /// The upper half circle about `center`, from the angle `pi` on the
    /// left to the angle zero on the right.
    Arc { center: Point, radius: u32, color: Color },
    /// A straight stroke along the ray under `angle` from `center`, between
    /// the distances `inner` and `outer`.
    Tick { center: Point, angle: Angle, inner: u32, outer: u32, thickness: u32, color: Color },
    /// A number in the small typeface, centred on the point at distance
    /// `radius` under `angle` from `center`.
    TickLabel { center: Point, angle: Angle, radius: u32, value: u64, color: Color },
    /// A filled isosceles triangle: its tip at the distance `length` under
    /// `angle` from `center`, the two ends of its base at the distance
    /// `half_width` from `center`, a quarter turn to either side of the tip.
    Needle { center: Point, angle: Angle, length: u32, half_width: u32, color: Color },
    /// A horizontal stroke from `x1` to `x2` at height `y`.
    Rule { x1: i64, x2: i64, y: i64, thickness: u32, color: Color },
    /// A text at its anchor.
    Text(Label),
}

pub enum ElementView {
    Arc { center: Point, radius: u32, color: Color },
    Tick { center: Point, angle: Angle, inner: u32, outer: u32, thickness: u32, color: Color },
    TickLabel { center: Point, angle: Angle, radius: u32, value: u64, color: Color },
    Needle { center: Point, angle: Angle, length: u32, half_width: u32, color: Color },
    Rule { x1: i64, x2: i64, y: i64, thickness: u32, color: Color },
    Text(LabelView),
}

impl View for Element {
    type V = ElementView;

    open spec fn view(&self) -> ElementView {
        match *self {
            Element::Arc { center, radius, color } => ElementView::Arc { center, radius, color },
            Element::Tick { center, angle, inner, outer, thickness, color } => ElementView::Tick {
                center,
                angle,
                inner,
                outer,
                thickness,
                color,
            },
            Element::TickLabel { center, angle, radius, value, color } => ElementView::TickLabel {
                center,
                angle,
                radius,
                value,
                color,
            },
            Element::Needle { center, angle, length, half_width, color } => ElementView::Needle {
                center,
                angle,
                length,
                half_width,
                color,
            },
            Element::Rule { x1, x2, y, thickness, color } => ElementView::Rule {
                x1,
                x2,
                y,
                thickness,
                color,
            },
            Element::Text(label) => ElementView::Text(label@),
        }
    }
}

impl ElementView {
    /// The shapes of a dial can be drawn where their centre and their angle
    /// are within bounds.
    pub open spec fn drawable(self) -> bool {
        match self {
            ElementView::Arc { center, .. } => center.drawable(),
            ElementView::Tick { center, angle, .. } => center.drawable() && angle.drawable(),
            ElementView::TickLabel { center, angle, .. } => center.drawable() && angle.drawable(),
            ElementView::Needle { center, angle, .. } => center.drawable() && angle.drawable(),
            ElementView::Rule { .. } => true,
            ElementView::Text(_) => true,
        }
    }
}

impl Element {
    /// Tells whether the element can be drawn.
    pub fn is_drawable(&self) -> (res: bool)
        ensures
            res == self@.drawable(),
    {
        match self {
            Element::Arc { center, .. } => center.is_drawable(),
            Element::Tick { center, angle, .. } => center.is_drawable() && angle.is_drawable(),
            Element::TickLabel { center, angle, .. } => center.is_drawable() && angle.is_drawable(),
            Element::Needle { center, angle, .. } => center.is_drawable() && angle.is_drawable(),
            Element::Rule { .. } => true,
            Element::Text(_) => true,
        }
    }
}

/// The views of a sequence of elements, in order.
pub open spec fn element_views(elements: Seq<Element>) -> Seq<ElementView> {
    elements.map_values(|e: Element| e@)
}

/// Appends one element.
pub(crate) fn push_element(elements: &mut Vec<Element>, element: Element)
    ensures
        element_views(final(elements)@) == element_views(old(elements)@).push(element@),
{
    elements.push(element);
}

/// A part of a frame that takes a band of its height: a dial, a title, a
/// row or a whole section. The band starts at `top` and is `height` high.
#[derive(Clone, Debug, PartialEq, Eq)]
pub struct Block {
    pub top: i32,
    pub height: u32,
    pub elements: Vec<Element>,
}

pub struct BlockView {
    pub top: i32,
    pub height: u32,
    pub elements: Seq<ElementView>,
}

impl View for Block {
    type V = BlockView;

    open spec fn view(&self) -> BlockView {
        BlockView {
            top: self.top,
            height: self.height,
            elements: element_views(self.elements@),
        }
    }
}

impl BlockView {
    /// The offset just below the block, where the next one starts.
    pub open spec fn bottom(self) -> int {
        self.top + self.height
    }

    /// All elements of the block can be drawn.
    pub open spec fn drawable(self) -> bool {
        forall|i: int| 0 <= i < self.elements.len() ==> (#[trigger] self.elements[i]).drawable()
    }
}

impl Block {
    /// Tells whether all elements of the block can be drawn.
    pub fn is_drawable(&self) -> (res: bool)
        ensures
            res == self@.drawable(),
    {
        let mut i: usize = 0;
        while i < self.elements.len()
            invariant
                i <= self.elements.len(),
                forall|k: int| 0 <= k < i ==> (#[trigger] self@.elements[k]).drawable(),
            decreases self.elements.len() - i,
        {
            assert(self@.elements[i as int] == self.elements@[i as int]@);
            if !self.elements[i].is_drawable() {
                return false;
            }
            i = i + 1;
        }
        true
    }
}

} // verus!
