//! What is drawn on a display.
use vstd::prelude::*;

verus! {

/// A color of the picture.
#[derive(Debug, Clone, Copy, PartialEq, Eq, Structural)]
pub enum Color {
    Black,
    Blue,
    Yellow,
    White,
}

/// A filled rectangle with a border.
#[derive(Debug, Clone, Copy)]
pub struct Frame {
    pub left: i32,
    pub top: i32,
    pub width: u32,
    pub height: u32,
    pub fill: Color,
    pub stroke: Color,
    pub stroke_width: u32,
}

/// A line of text with the point where its baseline starts.
#[derive(Debug)]
pub struct Label {
    pub text: String,
    pub x: i32,
    pub y: i32,
    pub color: Color,
}

/// What stands behind the label: the background, then the frame.
#[derive(Debug, Clone, Copy)]
pub struct Backdrop {
    pub background: Color,
    pub frame: Frame,
}

/// A picture: the backdrop, then the label.
#[derive(Debug)]
pub struct Picture {
    pub backdrop: Backdrop,
    pub label: Label,
}

/// The row of the label on a display of some height: half of what is left below ten
/// rows, rounded toward zero. The difference is taken for a signed number of 32
/// bits, so that it wraps on displays that are too high for one.
pub open spec fn label_row(height: u32) -> int
    recommends
        height >= 10,
{
    let rows = height - 10;
    if rows <= i32::MAX {
        rows / 2
    } else {
        -((0x1_0000_0000 - rows) / 2)
    }
}

/// What stands behind the label on a display with that bounding box: black, and a
/// blue rectangle with a yellow border that fills the box.
pub open spec fn backdrop_of(left: i32, top: i32, width: u32, height: u32) -> Backdrop {
    Backdrop {
        background: Color::Black,
        frame: Frame {
            left,
            top,
            width,
            height,
            fill: Color::Blue,
            stroke: Color::Yellow,
            stroke_width: 1,
        },
    }
}

/// What stands behind the label on a display with that bounding box.
pub fn backdrop(left: i32, top: i32, width: u32, height: u32) -> (backdrop: Backdrop)
    ensures
        backdrop == backdrop_of(left, top, width, height),
        backdrop.frame.left == left,
        backdrop.frame.top == top,
        backdrop.frame.width == width,
        backdrop.frame.height == height,
{
    let frame = Frame {
        left,
        top,
        width,
        height,
        fill: Color::Blue,
        stroke: Color::Yellow,
        stroke_width: 1,
    };
    Backdrop { background: Color::Black, frame }
}

/// Whether a label is the one for a display of some height.
pub open spec fn is_label(label: Label, height: u32) -> bool {
    &&& label.text@ == "Hello Rust!"@
    &&& label.x == 10
    &&& label.y == label_row(height)
    &&& label.color == Color::White
}

/// The label for a display of some height.
pub fn label(height: u32) -> (label: Label)
    requires
        height >= 10,
    ensures
        is_label(label, height),
{
    let rows: u32 = height - 10;
    let y: i32 = if rows <= 0x7fff_ffff {
        rows as i32 / 2
    } else {
        -(((u32::MAX - rows + 1) / 2) as i32)
    };
    Label { text: "Hello Rust!".to_string(), x: 10, y, color: Color::White }
}

/// The picture for a display with that bounding box.
pub fn led_draw(left: i32, top: i32, width: u32, height: u32) -> (picture: Picture)
    requires
        height >= 10,
    ensures
        picture.backdrop == backdrop_of(left, top, width, height),
        is_label(picture.label, height),
        picture.backdrop.frame.width == width,
        picture.backdrop.frame.height == height,
{
    Picture { backdrop: backdrop(left, top, width, height), label: label(height) }
}

/// On every display that a signed number can measure, the label starts in the upper
/// half of the picture.
pub proof fn label_is_on_the_display(height: u32)
    requires
        10 <= height <= i32::MAX,
    ensures
        0 <= label_row(height) <= height / 2,
        label_row(height) < height,
{
}

/// The frame covers exactly the pixels of the bounding box: a pixel lies on it if and
/// only if it lies in the box. It is blue inside a yellow border one pixel wide, on
/// black.
pub proof fn the_frame_fills_the_box(left: i32, top: i32, width: u32, height: u32)
    ensures
        ({
            let drawn = backdrop_of(left, top, width, height);
            &&& forall|x: int, y: int|
                #![trigger covers(drawn.frame, x, y)]
                covers(drawn.frame, x, y) <==> left <= x < left + width && top <= y < top + height
            &&& drawn.frame.left == left && drawn.frame.top == top
            &&& drawn.frame.width == width && drawn.frame.height == height
            &&& drawn.background is Black
            &&& drawn.frame.fill is Blue
            &&& drawn.frame.stroke is Yellow
            &&& drawn.frame.stroke_width == 1
        }),
{
}

/// Whether a pixel lies on a frame.
pub open spec fn covers(frame: Frame, x: int, y: int) -> bool {
    &&& frame.left <= x < frame.left + frame.width
    &&& frame.top <= y < frame.top + frame.height
}

/// The label greets in white, ten columns from the left. Twice its row is the height
/// without ten rows, taken for a signed number of 32 bits, or one less in size.
pub proof fn labels_greet(label: Label, height: u32)
    requires
        height >= 10,
        is_label(label, height),
    ensures
        label.text@ == "Hello Rust!"@,
        label.x == 10,
        label.color is White,
        height - 10 < 0x8000_0000 ==> 2 * label.y <= height - 10 < 2 * label.y + 2,
        height - 10 >= 0x8000_0000 ==> 2 * label.y - 2 < height - 10 - 0x1_0000_0000 <= 2 * label.y,
{
}

} // verus!
