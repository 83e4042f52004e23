//! Draw commands: what the engine hands to the surface.
//!
//! A command names one surface element by its identifier and says what it
//! looks like and where it goes. Elements are retained: a command for an
//! identifier that was drawn before updates that element. Lengths count in
//! tenths of a pixel, font sizes in points.

use vstd::prelude::*;
use crate::color::{Paint, Rgba};
use crate::ids::WidgetId;

verus! {

/// Which of the display's typefaces a text is set in.
#[derive(Clone, Copy, Debug, PartialEq, Eq, Structural)]
pub enum Font {
    /// Whatever the surface's theme uses.
    Theme,
    Bold,
    Regular,
}

/// How a text is set.
#[derive(Clone, Copy, Debug, PartialEq, Eq, Structural)]
pub struct TextStyle {
    pub font: Font,
    pub color: Rgba,
    pub font_size: u32,
}

/// Where an element goes. Most placements are relative to another element,
/// which must have been drawn before.
#[derive(Clone, Copy, Debug, PartialEq, Eq, Structural)]
pub enum Placement {
    /// Left to the surface.
    Unplaced,
    /// Centered at the top edge of `other`, `margin` below it.
    MidTopWithMarginOn { other: WidgetId, margin: i64 },
    /// Centered at the left edge of `other`, `margin` right of it.
    MidLeftWithMarginOn { other: WidgetId, margin: i64 },
    /// Centered at the bottom edge of `other`, `margin` above it.
    MidBottomWithMarginOn { other: WidgetId, margin: i64 },
    /// In the top left corner of `other`, inset by the two margins.
    TopLeftWithMarginsOn { other: WidgetId, top: i64, left: i64 },
    /// In the bottom left corner of `other`, inset by the two margins.
    BottomLeftWithMarginsOn { other: WidgetId, bottom: i64, left: i64 },
    /// In the top left corner of the enclosing element, inset by the two
    /// margins.
    TopLeftWithMargins { top: i64, left: i64 },
    /// To the right of `other`, `offset` away from it.
    RightFrom { other: WidgetId, offset: i64 },
    /// Vertically `from_end` away from the end edge of `stack`, horizontally
    /// to the right of `other`, `offset` away from it.
    StackedRightFrom { stack: WidgetId, from_end: i64, other: WidgetId, offset: i64 },
    /// Horizontally at the start edge of `other`, or `inset` after it.
    StartOf { other: WidgetId, inset: Option<i64> },
    /// Aligned at the top of the element that the surface takes as
    /// reference.
    AlignTop,
    /// In the middle of the enclosing element.
    Middle,
    /// In the middle of `other`.
    MiddleOf { other: WidgetId },
    /// At the given coordinates.
    Absolute { x: i64, y: i64 },
}

impl Placement {
    /// The elements that a placement is relative to.
    pub open spec fn anchors(self) -> Set<WidgetId> {
        match self {
            Placement::MidTopWithMarginOn { other, .. } => set![other],
            Placement::MidLeftWithMarginOn { other, .. } => set![other],
            Placement::MidBottomWithMarginOn { other, .. } => set![other],
            Placement::TopLeftWithMarginsOn { other, .. } => set![other],
            Placement::BottomLeftWithMarginsOn { other, .. } => set![other],
            Placement::RightFrom { other, .. } => set![other],
            Placement::StackedRightFrom { stack, other, .. } => set![stack, other],
            Placement::StartOf { other, .. } => set![other],
            Placement::MiddleOf { other } => set![other],
            _ => Set::empty(),
        }
    }
}

/// What an element looks like.
#[derive(Debug, PartialEq)]
pub enum Shape {
    /// A filled rectangle with rounded corners.
    RoundedRectangle { width: i64, height: i64, radius: i64, fill: Paint },
    /// A plain area that other elements can be placed on. Without a size the
    /// surface chooses one. A borderless canvas has a border of width zero in
    /// a transparent color; otherwise the theme decides.
    Canvas { size: Option<(i64, i64)>, fill: Paint, borderless: bool },
    /// A line of text.
    Text { content: String, style: TextStyle },
    /// A picture that the surface holds.
    Image { image: conrod_core::image::Id, width: i64, height: i64 },
}

/// One instruction to the surface.
#[derive(Debug, PartialEq)]
pub struct DrawCommand {
    pub id: WidgetId,
    pub shape: Shape,
    pub placement: Placement,
}

/// `conrod_core::image::Id`, the handle of a picture that the surface holds.
/// Verus sees nothing inside it; the engine only carries such a value from a
/// configuration into a draw command.
#[verifier::external_type_specification]
#[verifier::external_body]
pub struct ExImageId(conrod_core::image::Id);

/// A shape as contracts see it: the text is a sequence of characters.
pub enum ShapeView {
    RoundedRectangle { width: i64, height: i64, radius: i64, fill: Paint },
    Canvas { size: Option<(i64, i64)>, fill: Paint, borderless: bool },
    Text { content: Seq<char>, style: TextStyle },
    Image { image: conrod_core::image::Id, width: i64, height: i64 },
}

/// A draw command as contracts see it.
pub struct DrawCommandView {
    pub id: WidgetId,
    pub shape: ShapeView,
    pub placement: Placement,
}

impl View for Shape {
    type V = ShapeView;

    open spec fn view(&self) -> ShapeView {
        match *self {
            Shape::RoundedRectangle { width, height, radius, fill } => ShapeView::RoundedRectangle {
                width,
                height,
                radius,
                fill,
            },
            Shape::Canvas { size, fill, borderless } => ShapeView::Canvas { size, fill, borderless },
            Shape::Text { content, style } => ShapeView::Text { content: content@, style },
            Shape::Image { image, width, height } => ShapeView::Image { image, width, height },
        }
    }
}

impl View for DrawCommand {
    type V = DrawCommandView;

    open spec fn view(&self) -> DrawCommandView {
        DrawCommandView { id: self.id, shape: self.shape@, placement: self.placement }
    }
}

/// A list of draw commands as contracts see it.
pub open spec fn drawing(commands: Seq<DrawCommand>) -> Seq<DrawCommandView> {
    Seq::new(commands.len(), |i: int| commands[i]@)
}

/// Drawing one more command appends its view.
pub proof fn lemma_drawing_push(commands: Seq<DrawCommand>, command: DrawCommand)
    ensures
        drawing(commands.push(command)) == drawing(commands).push(command@),
{
    assert(drawing(commands.push(command)) =~= drawing(commands).push(command@));
}

} // verus!
