use rust_esp32_std_demo::boards::{
    failure, hello_world, Area, Board, Orientation, Panel, Step,
};
use rust_esp32_std_demo::display::{backdrop, label, led_draw, Color};
use rust_esp32_std_demo::events::{tick, tick_at, EventLoopMessage, SOURCE};
use rust_esp32_std_demo::led::{control_led, frame, LEDMessage, LedAction, PIXELS};
use rust_esp32_std_demo::mqtt::QoS;
use rust_esp32_std_demo::report::{
    atomics_line, inner_tls_line, main_tls_line, thread_line, TlsMoment,
};
use rust_esp32_std_demo::supervisor::{countdown, watch, Watch};
use rust_esp32_std_demo::text::{address, decimal};
use std::time::Duration;

#[test]
fn frames_are_uniform() {
    assert_eq!(frame(LEDMessage::Color((1, 2, 3))), vec![(1, 2, 3); 20]);
    assert_eq!(frame(LEDMessage::Off), vec![(0, 0, 0); 20]);
    assert_eq!(frame(LEDMessage::Off), frame(LEDMessage::Color((0, 0, 0))));
    assert_ne!(frame(LEDMessage::Off), frame(LEDMessage::Color((0, 0, 1))));
    assert_eq!(PIXELS, 20);
}

#[test]
fn the_led_task_rests_after_a_frame_only() {
    match control_led(Some(LEDMessage::Color((9, 8, 7)))) {
        LedAction::Show { frame, pause_ms } => {
            assert_eq!(frame, vec![(9, 8, 7); 20]);
            assert_eq!(pause_ms, 10);
        }
        other => panic!("{:?}", other),
    }
    assert!(matches!(control_led(None), LedAction::Retry));
}

#[test]
fn the_label_is_in_the_middle() {
    let picture = led_draw(0, 0, 135, 240);
    assert_eq!(picture.backdrop.background, Color::Black);
    assert_eq!((picture.label.x, picture.label.y), (10, 115));
    assert_eq!(picture.label.text, "Hello Rust!");
    assert_eq!(picture.label.color, Color::White);
    let frame = picture.backdrop.frame;
    assert_eq!((frame.left, frame.top, frame.width, frame.height), (0, 0, 135, 240));
    assert_eq!((frame.fill, frame.stroke, frame.stroke_width), (Color::Blue, Color::Yellow, 1));
    assert_eq!(led_draw(-3, 4, 1, 10).label.y, 0);
    assert_eq!(label(64).y, 27);
    // A display that is too low for the label still has its backdrop.
    assert_eq!((backdrop(-3, 4, 1, 9).frame.left, backdrop(-3, 4, 1, 9).frame.height), (-3, 9));
    assert_eq!(led_draw(0, 0, 128, 64).label.y, 27);
    assert_eq!(led_draw(0, 0, 128, 65).label.y, 27);
}

#[test]
fn the_label_wraps_on_impossible_displays() {
    for height in [u32::MAX, u32::MAX - 1, 0x8000_000a, 0x8000_0009, 0x8000_000b] {
        assert_eq!(led_draw(0, 0, 1, height).label.y, (height - 10) as i32 / 2);
    }
}

#[test]
fn the_ttgo_draws_on_what_can_be_seen() {
    let area = Area { left: 52, top: 40, width: 135, height: 240 };
    assert_eq!(
        hello_world(Board::Ttgo),
        [
            Step::LightOn,
            Step::OpenSpi { baudrate: 26_000_000 },
            Step::Init(Panel::St7789),
            Step::Orient(Orientation::Portrait),
            Step::Draw(Some(area)),
        ]
    );
    // It lies within what the driver can address.
    assert!(area.left as u32 + area.width <= 240);
    assert!(area.top as u32 + area.height <= 320);
}

#[test]
fn the_other_boards_follow_their_plans() {
    let landscape = [
        Step::LightOn,
        Step::OpenSpi { baudrate: 80_000_000 },
        Step::Init(Panel::St7789),
        Step::Orient(Orientation::Landscape),
        Step::Draw(None),
    ];
    assert_eq!(hello_world(Board::Kaluga), landscape);
    assert_eq!(hello_world(Board::Esp32s3UsbOtg), landscape);
    let pulse = [
        Step::Reset { high: true },
        Step::DelayMs(1),
        Step::Reset { high: false },
        Step::DelayMs(10),
        Step::Reset { high: true },
    ];
    let mut heltec = vec![Step::OpenI2c { baudrate: 400_000 }];
    heltec.extend(pulse);
    heltec.extend([Step::Init(Panel::Ssd1306 { upside_down: false }), Step::Draw(None), Step::Flush]);
    assert_eq!(hello_world(Board::Heltec), heltec);
    let mut spi = vec![Step::OpenSpi { baudrate: 10_000_000 }];
    spi.extend(pulse);
    spi.extend([Step::Init(Panel::Ssd1306 { upside_down: true }), Step::Draw(None), Step::Flush]);
    assert_eq!(hello_world(Board::Ssd1306gSpi), spi);
    assert_eq!(
        hello_world(Board::Ssd1306g),
        [
            Step::OpenI2c { baudrate: 400_000 },
            Step::Strengthen,
            Step::PowerOn,
            Step::DelayMs(10),
            Step::Init(Panel::Ssd1306 { upside_down: false }),
            Step::Draw(None),
            Step::Flush,
        ]
    );
}

#[test]
fn failures_are_put_into_words() {
    let init = Step::Init(Panel::St7789);
    assert_eq!(failure(Board::Ttgo, init, "x"), Some("Display error: x".to_string()));
    assert_eq!(
        failure(Board::Esp32s3UsbOtg, Step::Draw(None), "x"),
        Some("Led draw error: x".to_string())
    );
    assert_eq!(
        failure(Board::Esp32s3UsbOtg, init, "x"),
        Some("Display error: x".to_string())
    );
    assert_eq!(
        failure(Board::Heltec, Step::Flush, "x"),
        Some("Display error: x".to_string())
    );
    assert_eq!(failure(Board::Ttgo, Step::LightOn, "x"), None);
    assert_eq!(failure(Board::Heltec, Step::OpenI2c { baudrate: 1 }, "x"), None);
}

#[test]
fn ticks_tell_the_time() {
    let publication = tick(5, 20_000_000);
    assert_eq!(publication.topic, "rust-esp32-std-demo");
    assert!(!publication.retain);
    assert_eq!(publication.qos, QoS::AtMostOnce);
    assert_eq!(publication.payload, b"Now is 5.02s");
    assert_eq!(tick_at("soon").payload, b"Now is soon");
}

#[test]
fn messages_keep_their_time() {
    let message = EventLoopMessage::new(Duration::from_millis(7));
    assert_eq!(message.0, Duration::from_millis(7));
}

#[test]
fn the_source_is_a_c_string() {
    assert_eq!(SOURCE.as_bytes(), b"DEMO-SERVICE\0");
    assert_eq!(SOURCE.find('\0'), Some(SOURCE.len() - 1));
}

#[test]
fn the_countdown_ends_at_one() {
    assert_eq!(countdown(), [3, 2, 1]);
}

#[test]
fn the_main_task_stops_when_told() {
    assert_eq!(watch(Some(4)), Watch::Stop(4));
    assert_eq!(watch(None), Watch::Wait { secs: 1 });
}

#[test]
fn lines_hold_their_values() {
    assert_eq!(main_tls_line(TlsMoment::BeforeChange, 13), "Main TLS before change: 13");
    assert_eq!(main_tls_line(TlsMoment::AfterChange, 42), "Main TLS after change: 42");
    assert_eq!(main_tls_line(TlsMoment::AfterThreads, 42), "Main TLS after threads: 42");
    assert_eq!(inner_tls_line(4), "Inner TLS: 4");
    assert_eq!(thread_line(3, "Thread(x)"), "This is thread number 3, Thread(x)");
    assert_eq!(atomics_line(0, 1), "Result: 0, 1");
}

#[test]
fn numbers_are_written_in_decimal() {
    for n in [0, 7, 10, 99, 100, 1_234_567, u64::MAX] {
        assert_eq!(decimal(n), format!("{}", n));
    }
    assert_eq!(address([192, 168, 0, 209]), "192.168.0.209");
    assert_eq!(address([0, 0, 0, 0]), "0.0.0.0");
}
