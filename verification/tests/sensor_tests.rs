use lidar_fill_state::sensor::{
    distance_picture, distance_row, distance_summary, left_pad, sensor_begin, sensor_step,
    SensorCall, SensorReply,
};
use lidar_fill_state::system::SystemState;

fn reply(status: u8, ready: u8) -> SensorReply {
    SensorReply { status, ready }
}

#[test]
fn left_pad_colors_by_distance() {
    assert_eq!(left_pad(0).as_str(), "\x1b[38;5;196m0000\x1b[0m");
    assert_eq!(left_pad(49).as_str(), "\x1b[38;5;196m0049\x1b[0m");
    assert_eq!(left_pad(50).as_str(), "\x1b[38;5;208m0050\x1b[0m");
    assert_eq!(left_pad(99).as_str(), "\x1b[38;5;208m0099\x1b[0m");
    assert_eq!(left_pad(100).as_str(), "\x1b[38;5;226m0100\x1b[0m");
    assert_eq!(left_pad(199).as_str(), "\x1b[38;5;226m0199\x1b[0m");
    assert_eq!(left_pad(200).as_str(), "\x1b[38;5;46m0200\x1b[0m");
    assert_eq!(left_pad(399).as_str(), "\x1b[38;5;46m0399\x1b[0m");
    assert_eq!(left_pad(400).as_str(), "\x1b[38;5;51m0400\x1b[0m");
    assert_eq!(left_pad(799).as_str(), "\x1b[38;5;51m0799\x1b[0m");
    assert_eq!(left_pad(800).as_str(), "\x1b[38;5;21m0800\x1b[0m");
    assert_eq!(left_pad(1599).as_str(), "\x1b[38;5;21m1599\x1b[0m");
    assert_eq!(left_pad(1600).as_str(), "\x1b[38;5;129m1600\x1b[0m");
    assert_eq!(left_pad(3900).as_str(), "\x1b[38;5;129m3900\x1b[0m");
    assert_eq!(left_pad(3901).as_str(), "\x1b[38;5;129m3901\x1b[0m");
}

#[test]
fn left_pad_takes_extremes() {
    assert_eq!(left_pad(-5).as_str(), "\x1b[38;5;196m-005\x1b[0m");
    assert_eq!(left_pad(-999).as_str(), "\x1b[38;5;196m-999\x1b[0m");
    assert_eq!(left_pad(-1000).as_str(), "\x1b[38;5;196m-1000\x1b[0m");
    assert_eq!(left_pad(i16::MIN).as_str(), "\x1b[38;5;196m-32768\x1b[0m");
    assert_eq!(left_pad(i16::MAX).as_str(), "\x1b[38;5;129m32767\x1b[0m");
}

#[test]
fn left_pad_agrees_with_std_formatting() {
    let mut n: i32 = i16::MIN as i32;
    while n <= i16::MAX as i32 {
        let cell = left_pad(n as i16);
        assert!(cell.as_str().ends_with(&format!("m{:04}\x1b[0m", n)));
        n += 13;
    }
}

#[test]
fn picture_has_eight_rows_of_eight() {
    let mut distances: [i16; 64] = [0; 64];
    let mut i: usize = 0;
    while i < 64 {
        distances[i] = 100 + i as i16;
        i += 1;
    }
    let rows = distance_picture(&distances);
    assert_eq!(rows.len(), 8);
    assert_eq!(
        rows[1],
        "\x1b[38;5;226m0108\x1b[0m \x1b[38;5;226m0109\x1b[0m \x1b[38;5;226m0110\x1b[0m \
         \x1b[38;5;226m0111\x1b[0m \x1b[38;5;226m0112\x1b[0m \x1b[38;5;226m0113\x1b[0m \
         \x1b[38;5;226m0114\x1b[0m \x1b[38;5;226m0115\x1b[0m"
    );
    assert_eq!(distance_row(&distances, 7), rows[7]);
    assert!(rows[7].ends_with("\x1b[38;5;226m0163\x1b[0m"));
}

#[test]
fn zone_shows_in_its_row_only() {
    let mut distances: [i16; 64] = [300; 64];
    let before = distance_picture(&distances);
    distances[26] = 4000;
    let after = distance_picture(&distances);
    let mut row: usize = 0;
    while row < 8 {
        assert_eq!(before[row] == after[row], row != 3);
        row += 1;
    }
    let cell = before[3].len() / 8;
    assert_eq!(after[3][2 * (cell + 1)..].find("\x1b[38;5;129m4000\x1b[0m "), Some(0));
}

#[test]
fn summary_names_first_zone() {
    assert_eq!(
        distance_summary(-7, 5, -40),
        "VL53L8CX distance: -7 mm, status: 5, temperature: -40, (64)"
    );
    assert_eq!(
        distance_summary(1234, 255, 31),
        "VL53L8CX distance: 1234 mm, status: 255, temperature: 31, (64)"
    );
}

#[test]
fn sensor_starts_in_three_calls() {
    let step = sensor_step(sensor_begin(), reply(0, 0));
    assert_eq!(step.next, SensorCall::SetResolution(64));
    assert_eq!(step.announce, None);
    let step = sensor_step(step.next, reply(0, 0));
    assert_eq!(step.next, SensorCall::StartRanging);
    let step = sensor_step(step.next, reply(0, 0));
    assert_eq!(step.next, SensorCall::CheckReady);
    assert!(!step.show);
}

#[test]
fn sensor_stops_when_a_start_call_fails() {
    for call in [SensorCall::Init, SensorCall::SetResolution(64), SensorCall::StartRanging] {
        let step = sensor_step(call, reply(1, 0));
        assert_eq!(step.next, SensorCall::Stopped);
        assert_eq!(step.announce, Some(SystemState::SensorError));
    }
    let step = sensor_step(SensorCall::Stopped, reply(0, 1));
    assert_eq!(step.next, SensorCall::Stopped);
    assert_eq!(step.announce, None);
}

#[test]
fn sensor_is_looked_at_every_twenty_milliseconds() {
    let step = sensor_step(SensorCall::CheckReady, reply(0, 0));
    assert_eq!(step.next, SensorCall::Pause(20_000));
    let step = sensor_step(SensorCall::CheckReady, reply(3, 1));
    assert_eq!(step.next, SensorCall::Pause(20_000));
    let step = sensor_step(SensorCall::CheckReady, reply(0, 1));
    assert_eq!(step.next, SensorCall::GetData);
    let step = sensor_step(SensorCall::GetData, reply(0, 0));
    assert!(step.show);
    assert_eq!(step.next, SensorCall::Pause(20_000));
    let step = sensor_step(SensorCall::GetData, reply(9, 0));
    assert!(!step.show);
    assert_eq!(step.next, SensorCall::Pause(20_000));
    let step = sensor_step(step.next, reply(0, 0));
    assert_eq!(step.next, SensorCall::CheckReady);
}
