use lidar_fill_state::led::{
    led_sequence, led_task, show_led_sequence, ws2812_data, Level, PulseCode,
};
use lidar_fill_state::system::SystemState;

fn one() -> PulseCode {
    PulseCode::new(Level::High, 64, Level::Low, 36)
}

fn zero() -> PulseCode {
    PulseCode::new(Level::High, 32, Level::Low, 68)
}

#[test]
fn colors_are_sent_green_first() {
    let data = ws2812_data(0x80, 0x01, 0xff);
    assert_eq!(data.len(), 25);
    for i in 0..7 {
        assert_eq!(data[i], zero());
    }
    assert_eq!(data[7], one());
    assert_eq!(data[8], one());
    for i in 9..16 {
        assert_eq!(data[i], zero());
    }
    for i in 16..24 {
        assert_eq!(data[i], one());
    }
    assert_eq!(data[24], PulseCode { level1: Level::Low, length1: 4000, level2: Level::Low, length2: 0 });
}

#[test]
fn frames_tell_colors_apart() {
    assert_ne!(ws2812_data(1, 2, 3), ws2812_data(2, 1, 3));
    assert_ne!(ws2812_data(1, 2, 3), ws2812_data(1, 2, 4));
    for pulse in &ws2812_data(0xa5, 0x5a, 0x3c)[..24] {
        assert_eq!(pulse.length1 + pulse.length2, 100);
    }
}

#[test]
fn each_state_has_its_flashes() {
    let steps = led_task(SystemState::Running.code());
    assert_eq!(steps.len(), 2);
    assert_eq!(steps[0].data, ws2812_data(0, 5, 0));
    assert_eq!(steps[0].duration, 500_000);
    assert_eq!(steps[1].data, ws2812_data(2, 5, 2));
    assert_eq!(steps[1].duration, 500_000);

    let steps = led_task(2);
    assert_eq!(steps[0].data, ws2812_data(5, 0, 5));
    assert_eq!(steps[1].data, ws2812_data(5, 5, 0));
    assert_eq!(steps[1].duration, 500_000);

    for code in [0, 3, 4, 255] {
        let steps = led_task(code);
        assert_eq!(steps.len(), 2);
        assert_eq!(steps[0].data, ws2812_data(5, 0, 0));
        assert_eq!(steps[0].duration, 1_000_000);
        assert_eq!(steps[1].data, ws2812_data(5, 2, 0));
        assert_eq!(steps[1].duration, 1_000_000);
    }
}

#[test]
fn sequence_is_shown_in_order() {
    let list = led_sequence(SystemState::WifiError);
    let steps = show_led_sequence(&list);
    assert_eq!(steps.len(), 2);
    assert_eq!(steps[0].data, ws2812_data(5, 0, 5));
    assert_eq!(steps[1].data, ws2812_data(5, 5, 0));
}
