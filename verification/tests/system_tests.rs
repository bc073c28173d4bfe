use lidar_fill_state::system::{heap_usage, network_seed, SystemState};

#[test]
fn state_survives_exchange() {
    let states = [
        SystemState::Starting,
        SystemState::Running,
        SystemState::WifiError,
        SystemState::SensorError,
    ];
    let mut code: u8 = 0;
    for state in states {
        assert_eq!(state.code(), code);
        assert_eq!(SystemState::from_code(state.code()), state);
        code += 1;
    }
    assert_eq!(SystemState::from_code(4), SystemState::Starting);
    assert_eq!(SystemState::from_code(255), SystemState::Starting);
}

#[test]
fn heap_share_is_rounded_down() {
    let usage = heap_usage(65_536, 102_400);
    assert_eq!(usage.used, 65_536);
    assert_eq!(usage.free, 102_400);
    assert_eq!(usage.total, 167_936);
    assert_eq!(usage.percent, 39);
    assert_eq!(heap_usage(10, 0).percent, 100);
    assert_eq!(heap_usage(0, 10).percent, 0);
}

#[test]
fn empty_heap_is_not_divided_by() {
    let usage = heap_usage(0, 0);
    assert_eq!(usage.total, 1);
    assert_eq!(usage.percent, 0);
}

#[test]
fn seed_keeps_both_words() {
    assert_eq!(network_seed(0x0123_4567, 0x89ab_cdef), 0x0123_4567_89ab_cdef);
    assert_eq!(network_seed(0, 1), 1);
    assert_eq!(network_seed(1, 0), 0x1_0000_0000);
    assert_eq!(network_seed(u32::MAX, u32::MAX), u64::MAX);
}
