//! The LED strip: the messages that drive it and the frames they turn into.
use vstd::prelude::*;

verus! {

/// What the LED task is told to show.
#[derive(Debug, Clone, Copy, PartialEq, Eq)]
pub enum LEDMessage {
    /// Every pixel shows this red, green and blue.
    Color((u8, u8, u8)),
    /// Every pixel is dark.
    Off,
}

/// The number of pixels on the strip.
pub const PIXELS: usize = 20;

/// The GPIO pin that the strip hangs on.
pub const LED_PIN: u32 = 21;

/// How long the LED task rests after a frame, in milliseconds.
pub const FRAME_PAUSE_MS: u64 = 10;

/// The color that a message asks for.
pub open spec fn color_of(message: LEDMessage) -> (u8, u8, u8) {
    match message {
        LEDMessage::Color(color) => color,
        LEDMessage::Off => (0u8, 0u8, 0u8),
    }
}

/// A strip on which every pixel shows `color`.
pub open spec fn uniform(color: (u8, u8, u8)) -> Seq<(u8, u8, u8)> {
    Seq::new(PIXELS as nat, |i: int| color)
}

/// What the LED task does next.
#[derive(Debug)]
pub enum LedAction {
    /// Write the pixels to the strip, then rest for the given milliseconds.
    Show { frame: Vec<(u8, u8, u8)>, pause_ms: u64 },
    /// Ask the channel again at once.
    Retry,
}

/// `ws2812_esp32_rmt_driver::RGB8::default()`: a pixel whose three channels are
/// the default of `u8`, zero.
#[verifier::external_body]
fn dark_pixel() -> (color: (u8, u8, u8))
    ensures
        color == (0u8, 0u8, 0u8),
{
    ws2812_esp32_rmt_driver::RGB8::default().into()
}

/// The frame for a message: the whole strip in the color that it asks for.
pub fn frame(message: LEDMessage) -> (pixels: Vec<(u8, u8, u8)>)
    ensures
        pixels@ == uniform(color_of(message)),
        pixels@.len() == 20,
        message matches LEDMessage::Color(color) ==> forall|i: int|
            0 <= i < 20 ==> #[trigger] pixels@[i] == color,
        message is Off ==> forall|i: int| 0 <= i < 20 ==> #[trigger] pixels@[i] == (0u8, 0u8, 0u8),
{
    let color: (u8, u8, u8) = match message {
        LEDMessage::Color(color) => color,
        LEDMessage::Off => dark_pixel(),
    };
    let mut pixels: Vec<(u8, u8, u8)> = Vec::new();
    while pixels.len() < PIXELS
        invariant
            pixels@.len() <= PIXELS,
            pixels@ =~= Seq::new(pixels@.len(), |i: int| color),
        decreases PIXELS - pixels@.len(),
    {
        pixels.push(color);
    }
    pixels
}

/// An action by its plain values: the pixels and the rest, where something is shown.
pub open spec fn action_view(action: LedAction) -> Option<(Seq<(u8, u8, u8)>, u64)> {
    match action {
        LedAction::Show { frame, pause_ms } => Some((frame@, pause_ms)),
        LedAction::Retry => None,
    }
}

/// What the LED task does about what it received.
pub open spec fn answer_to(received: Option<LEDMessage>) -> Option<(Seq<(u8, u8, u8)>, u64)> {
    match received {
        Some(message) => Some((uniform(color_of(message)), FRAME_PAUSE_MS)),
        None => None,
    }
}

/// One turn of the LED task: `received` is the next message, or `None` where the
/// channel gave an error.
///
/// A message is shown, and the task rests after it. An error is passed over
/// without a rest.
pub fn control_led(received: Option<LEDMessage>) -> (action: LedAction)
    ensures
        match received {
            Some(message) => {
                &&& action matches LedAction::Show { frame, pause_ms }
                &&& frame@ == uniform(color_of(message))
                &&& pause_ms == FRAME_PAUSE_MS
            },
            None => action is Retry,
        },
        action_view(action) == answer_to(received),
{
    match received {
        Some(message) => LedAction::Show { frame: frame(message), pause_ms: FRAME_PAUSE_MS },
        None => LedAction::Retry,
    }
}

/// Two messages give the same frame exactly when they ask for the same color.
pub proof fn frames_tell_colors_apart(a: LEDMessage, b: LEDMessage)
    ensures
        uniform(color_of(a)) == uniform(color_of(b)) <==> color_of(a) == color_of(b),
{
    assert(uniform(color_of(a))[0] == color_of(a));
    assert(uniform(color_of(b))[0] == color_of(b));
}

/// The strip shows the color that was asked for, channel by channel, on each of its
/// twenty pixels, and it is dark where it was asked to be off.
pub proof fn strips_show_what_was_asked(r: u8, g: u8, b: u8)
    ensures
        uniform(color_of(LEDMessage::Color((r, g, b)))).len() == 20,
        forall|i: int|
            0 <= i < 20 ==> {
                &&& (#[trigger] uniform(color_of(LEDMessage::Color((r, g, b))))[i]).0 == r
                &&& uniform(color_of(LEDMessage::Color((r, g, b))))[i].1 == g
                &&& uniform(color_of(LEDMessage::Color((r, g, b))))[i].2 == b
            },
        uniform(color_of(LEDMessage::Off)).len() == 20,
        forall|i: int|
            0 <= i < 20 ==> #[trigger] uniform(color_of(LEDMessage::Off))[i] == (0u8, 0u8, 0u8),
{
}

/// Every message is shown, at once and in its own color, with ten milliseconds of
/// rest; only an error of the channel shows nothing.
pub proof fn messages_are_shown(received: Option<LEDMessage>)
    ensures
        received is None <==> answer_to(received) is None,
        received matches Some(message) ==> {
            &&& answer_to(received) matches Some((pixels, pause_ms))
            &&& pause_ms == 10
            &&& pixels.len() == 20
            &&& forall|i: int|
                0 <= i < 20 ==> #[trigger] pixels[i] == match message {
                    LEDMessage::Color((r, g, b)) => (r, g, b),
                    LEDMessage::Off => (0u8, 0u8, 0u8),
                }
        },
{
}

/// What an action shows is its own frame and rest.
pub proof fn actions_show_their_frame(action: LedAction)
    ensures
        action matches LedAction::Show { frame, pause_ms } ==> action_view(action) == Some(
            (frame@, pause_ms),
        ),
        action is Retry ==> action_view(action) is None,
{
}

} // verus!
