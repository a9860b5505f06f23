//! Bringing up the displays of the supported boards.
use vstd::prelude::*;

use crate::text;

verus! {

/// A board with a display, or a display that is wired up by hand.
#[derive(Debug, Clone, Copy, PartialEq, Eq, Structural)]
pub enum Board {
    Ttgo,
    Kaluga,
    Heltec,
    Ssd1306gSpi,
    Ssd1306g,
    Esp32s3UsbOtg,
}

/// The driver of a display.
#[derive(Debug, Clone, Copy, PartialEq, Eq, Structural)]
pub enum Panel {
    /// An ST7789, drawn on directly.
    St7789,
    /// An SSD1306 of 128 by 64 pixels with a buffer, upright or upside down.
    Ssd1306 { upside_down: bool },
}

/// How an ST7789 is turned; none is mirrored.
#[derive(Debug, Clone, Copy, PartialEq, Eq, Structural)]
pub enum Orientation {
    Portrait,
    Landscape,
}

/// A part of a display.
#[derive(Debug, Clone, Copy, PartialEq, Eq, Structural)]
pub struct Area {
    pub left: i32,
    pub top: i32,
    pub width: u32,
    pub height: u32,
}

/// One step on the way to a picture.
#[derive(Debug, Clone, Copy, PartialEq, Eq, Structural)]
pub enum Step {
    /// Set the backlight's pin high.
    LightOn,
    /// Open the SPI bus.
    OpenSpi { baudrate: u32 },
    /// Open the I2C bus.
    OpenI2c { baudrate: u32 },
    /// Let the pin that powers the display drive 40 milliamperes.
    Strengthen,
    /// Set the pin that powers the display high.
    PowerOn,
    /// Set the reset pin high, or low.
    Reset { high: bool },
    /// Wait.
    DelayMs(u32),
    /// Initialise the display.
    Init(Panel),
    /// Turn the display.
    Orient(Orientation),
    /// Draw the picture, on the whole display or on a part of it.
    Draw(Option<Area>),
    /// Show what was drawn.
    Flush,
}

/// The part of the TTGO's display that can be seen: it is smaller than what the
/// driver can address, and does not start at its corner.
pub open spec fn ttgo_area() -> Area {
    Area { left: 52, top: 40, width: 135, height: 240 }
}

/// What brings up an ST7789: light, bus, initialisation, orientation, picture.
pub open spec fn st7789_plan(
    baudrate: u32,
    orientation: Orientation,
    area: Option<Area>,
) -> Seq<Step> {
    seq![
        Step::LightOn,
        Step::OpenSpi { baudrate },
        Step::Init(Panel::St7789),
        Step::Orient(orientation),
        Step::Draw(area),
    ]
}

/// A pulse that resets a display: high, low for ten milliseconds, high.
pub open spec fn reset_pulse() -> Seq<Step> {
    seq![
        Step::Reset { high: true },
        Step::DelayMs(1),
        Step::Reset { high: false },
        Step::DelayMs(10),
        Step::Reset { high: true },
    ]
}

/// What powers a display from a pin.
pub open spec fn power_up() -> Seq<Step> {
    seq![Step::Strengthen, Step::PowerOn, Step::DelayMs(10)]
}

/// What shows a picture on an SSD1306 that is powered and reset.
pub open spec fn ssd1306_plan(upside_down: bool) -> Seq<Step> {
    seq![Step::Init(Panel::Ssd1306 { upside_down }), Step::Draw(None), Step::Flush]
}

/// What brings up a board's display.
pub open spec fn plan(board: Board) -> Seq<Step> {
    match board {
        Board::Ttgo => st7789_plan(26_000_000, Orientation::Portrait, Some(ttgo_area())),
        Board::Kaluga => st7789_plan(80_000_000, Orientation::Landscape, None),
        Board::Esp32s3UsbOtg => st7789_plan(80_000_000, Orientation::Landscape, None),
        Board::Heltec => seq![Step::OpenI2c { baudrate: 400_000 }] + reset_pulse() + ssd1306_plan(
            false,
        ),
        Board::Ssd1306gSpi => seq![Step::OpenSpi { baudrate: 10_000_000 }] + reset_pulse()
            + ssd1306_plan(true),
        Board::Ssd1306g => seq![Step::OpenI2c { baudrate: 400_000 }] + power_up() + ssd1306_plan(
            false,
        ),
    }
}

/// Appends what brings up an ST7789.
fn push_st7789(
    steps: &mut Vec<Step>,
    baudrate: u32,
    orientation: Orientation,
    area: Option<Area>,
)
    ensures
        final(steps)@ == old(steps)@ + st7789_plan(baudrate, orientation, area),
{
    steps.push(Step::LightOn);
    steps.push(Step::OpenSpi { baudrate });
    steps.push(Step::Init(Panel::St7789));
    steps.push(Step::Orient(orientation));
    steps.push(Step::Draw(area));
    assert(steps@ =~= old(steps)@ + st7789_plan(baudrate, orientation, area));
}

/// Appends a reset pulse.
fn push_reset_pulse(steps: &mut Vec<Step>)
    ensures
        final(steps)@ == old(steps)@ + reset_pulse(),
{
    steps.push(Step::Reset { high: true });
    steps.push(Step::DelayMs(1));
    steps.push(Step::Reset { high: false });
    steps.push(Step::DelayMs(10));
    steps.push(Step::Reset { high: true });
    assert(steps@ =~= old(steps)@ + reset_pulse());
}

/// Appends what shows a picture on an SSD1306.
fn push_ssd1306(steps: &mut Vec<Step>, upside_down: bool)
    ensures
        final(steps)@ == old(steps)@ + ssd1306_plan(upside_down),
{
    steps.push(Step::Init(Panel::Ssd1306 { upside_down }));
    steps.push(Step::Draw(None));
    steps.push(Step::Flush);
    assert(steps@ =~= old(steps)@ + ssd1306_plan(upside_down));
}

/// The steps that bring up a board's display. Each is taken only where the one
/// before it succeeded.
pub fn hello_world(board: Board) -> (steps: Vec<Step>)
    ensures
        steps@ == plan(board),
{
    let mut steps: Vec<Step> = Vec::new();
    match board {
        Board::Ttgo => {
            let area = Area { left: 52, top: 40, width: 135, height: 240 };
            push_st7789(&mut steps, 26_000_000, Orientation::Portrait, Some(area));
        },
        Board::Kaluga | Board::Esp32s3UsbOtg => {
            push_st7789(&mut steps, 80_000_000, Orientation::Landscape, None);
        },
        Board::Heltec => {
            steps.push(Step::OpenI2c { baudrate: 400_000 });
            push_reset_pulse(&mut steps);
            push_ssd1306(&mut steps, false);
        },
        Board::Ssd1306gSpi => {
            steps.push(Step::OpenSpi { baudrate: 10_000_000 });
            push_reset_pulse(&mut steps);
            push_ssd1306(&mut steps, true);
        },
        Board::Ssd1306g => {
            steps.push(Step::OpenI2c { baudrate: 400_000 });
            steps.push(Step::Strengthen);
            steps.push(Step::PowerOn);
            steps.push(Step::DelayMs(10));
            push_ssd1306(&mut steps, false);
        },
    }
    assert(steps@ =~= plan(board));
    steps
}

/// Whether the failure of a step is put into words of the display. The failures of
/// pins and buses are handed on as they are.
pub open spec fn is_display_step(step: Step) -> bool {
    step is Init || step is Orient || step is Draw || step is Flush
}

/// What is said when a step fails for a cause, or `None` where the cause is handed
/// on as it is.
pub open spec fn failure_text(board: Board, step: Step, cause: Seq<char>) -> Option<Seq<char>> {
    if !is_display_step(step) {
        None
    } else if board == Board::Esp32s3UsbOtg && step is Draw {
        Some("Led draw error: "@ + cause)
    } else {
        Some("Display error: "@ + cause)
    }
}

/// What is said when a step fails for a cause, or `None` where the cause is handed
/// on as it is.
pub fn failure(board: Board, step: Step, cause: &str) -> (message: Option<String>)
    ensures
        match failure_text(board, step, cause@) {
            Some(text) => message matches Some(message) && message@ == text,
            None => message is None,
        },
{
    match (step, board) {
        (Step::Draw(_), Board::Esp32s3UsbOtg) => Some(text::joined("Led draw error: ", cause)),
        (Step::Init(_), _) | (Step::Orient(_), _) | (Step::Draw(_), _) | (Step::Flush, _) => Some(
            text::joined("Display error: ", cause),
        ),
        _ => None,
    }
}

/// Every board draws exactly once, on a display that was initialised before, over a
/// bus that was opened before that.
pub proof fn boards_draw_once(board: Board) -> (at: (int, int, int))
    ensures
        0 <= at.0 < at.1 < at.2 < plan(board).len(),
        plan(board)[at.0] is OpenSpi || plan(board)[at.0] is OpenI2c,
        plan(board)[at.1] is Init,
        plan(board)[at.2] is Draw,
        forall|i: int|
            0 <= i < plan(board).len() && (#[trigger] plan(board)[i]) is Draw ==> i == at.2,
        forall|i: int|
            0 <= i < plan(board).len() && (#[trigger] plan(board)[i]) is Init ==> i == at.1,
{
    match board {
        Board::Ttgo | Board::Kaluga | Board::Esp32s3UsbOtg => (1, 2, 4),
        Board::Heltec | Board::Ssd1306gSpi => (0, 6, 7),
        Board::Ssd1306g => (0, 4, 5),
    }
}

/// Exactly the displays with a buffer are flushed, and that is the last step.
pub proof fn buffers_are_flushed(board: Board, i: int)
    requires
        0 <= i < plan(board).len(),
    ensures
        plan(board)[i] is Flush ==> i == plan(board).len() - 1,
        plan(board)[i] matches Step::Init(panel) ==> (panel is Ssd1306 <==> plan(
            board,
        ).last() is Flush),
{
}

/// A reset pin that is pulled low was high for a millisecond before, is low for ten,
/// and is high again before the display is initialised.
pub proof fn resets_are_pulses(board: Board, i: int)
    requires
        0 <= i < plan(board).len(),
        plan(board)[i] == (Step::Reset { high: false }),
    ensures
        2 <= i < plan(board).len() - 3,
        plan(board)[i - 2] == (Step::Reset { high: true }),
        plan(board)[i - 1] == Step::DelayMs(1),
        plan(board)[i + 1] == Step::DelayMs(10),
        plan(board)[i + 2] == (Step::Reset { high: true }),
        plan(board)[i + 3] is Init,
{
}

/// What each board is brought up with, step by step.
pub proof fn boards_take_their_steps(board: Board)
    ensures
        board is Ttgo ==> plan(board) == seq![
            Step::LightOn,
            Step::OpenSpi { baudrate: 26_000_000 },
            Step::Init(Panel::St7789),
            Step::Orient(Orientation::Portrait),
            Step::Draw(Some(Area { left: 52, top: 40, width: 135, height: 240 })),
        ],
        board is Kaluga || board is Esp32s3UsbOtg ==> plan(board) == seq![
            Step::LightOn,
            Step::OpenSpi { baudrate: 80_000_000 },
            Step::Init(Panel::St7789),
            Step::Orient(Orientation::Landscape),
            Step::Draw(None),
        ],
        board is Heltec ==> plan(board) == seq![
            Step::OpenI2c { baudrate: 400_000 },
            Step::Reset { high: true },
            Step::DelayMs(1),
            Step::Reset { high: false },
            Step::DelayMs(10),
            Step::Reset { high: true },
            Step::Init(Panel::Ssd1306 { upside_down: false }),
            Step::Draw(None),
            Step::Flush,
        ],
        board is Ssd1306gSpi ==> plan(board) == seq![
            Step::OpenSpi { baudrate: 10_000_000 },
            Step::Reset { high: true },
            Step::DelayMs(1),
            Step::Reset { high: false },
            Step::DelayMs(10),
            Step::Reset { high: true },
            Step::Init(Panel::Ssd1306 { upside_down: true }),
            Step::Draw(None),
            Step::Flush,
        ],
        board is Ssd1306g ==> plan(board) == seq![
            Step::OpenI2c { baudrate: 400_000 },
            Step::Strengthen,
            Step::PowerOn,
            Step::DelayMs(10),
            Step::Init(Panel::Ssd1306 { upside_down: false }),
            Step::Draw(None),
            Step::Flush,
        ],
{
}

/// The whole cause stands behind every message on a display, and the failures of pins
/// and buses have no message of their own. Only drawing on one board is worded
/// otherwise.
pub proof fn failures_keep_their_cause(board: Board, step: Step, cause: Seq<char>)
    ensures
        failure_text(board, step, cause) is Some <==> step is Init || step is Orient || step is Draw
            || step is Flush,
        board is Esp32s3UsbOtg && step is Draw ==> failure_text(board, step, cause) == Some(
            "Led draw error: "@ + cause,
        ),
        step is Init || step is Orient || step is Flush ==> failure_text(board, step, cause)
            == Some("Display error: "@ + cause),
        step is Draw && !(board is Esp32s3UsbOtg) ==> failure_text(board, step, cause) == Some(
            "Display error: "@ + cause,
        ),
{
}

} // verus!
