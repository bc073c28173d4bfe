use lidar_fill_state::bus::{vl53_i2c_read, vl53_i2c_write, ReadStep, WriteStep};

fn write_all(register: u16, values: &[u8]) -> Vec<Vec<u8>> {
    let mut messages: Vec<Vec<u8>> = Vec::new();
    let mut done: usize = 0;
    loop {
        match vl53_i2c_write(register, values, done, true) {
            WriteStep::Send(piece) => {
                assert_eq!(piece.register.to_be_bytes(), piece.message[..2]);
                messages.push(piece.message);
                done = piece.done;
            }
            WriteStep::Over(status) => {
                assert_eq!(status, 0);
                return messages;
            }
        }
    }
}

#[test]
fn write_is_cut_into_pieces() {
    let values: Vec<u8> = (0..70).collect();
    let messages = write_all(0x1234, &values);
    assert_eq!(messages.len(), 3);
    assert_eq!(messages[0][..3], [0x12, 0x34, 0]);
    assert_eq!(messages[0].len(), 34);
    assert_eq!(messages[1][..3], [0x12, 0x54, 32]);
    assert_eq!(messages[1].len(), 34);
    assert_eq!(messages[2], [0x12, 0x74, 64, 65, 66, 67, 68, 69]);
    let carried: Vec<u8> = messages.iter().flat_map(|m| m[2..].to_vec()).collect();
    assert_eq!(carried, values);
}

#[test]
fn write_of_one_full_piece() {
    let values: Vec<u8> = vec![7; 32];
    let messages = write_all(0, &values);
    assert_eq!(messages.len(), 1);
    assert_eq!(messages[0].len(), 34);
}

#[test]
fn registers_wrap_around() {
    let values: Vec<u8> = vec![1; 40];
    let messages = write_all(0xfff0, &values);
    assert_eq!(messages[0][..2], [0xff, 0xf0]);
    assert_eq!(messages[1][..2], [0x00, 0x10]);
    let long: Vec<u8> = vec![2; 0x1_0040];
    let messages = write_all(0x0005, &long);
    assert_eq!(messages.len(), 0x1_0040 / 32);
    assert_eq!(messages[0x1_0000 / 32][..2], [0x00, 0x05]);
}

#[test]
fn write_of_nothing_is_over() {
    assert!(matches!(vl53_i2c_write(5, &[], 0, true), WriteStep::Over(0)));
}

#[test]
fn failed_pieces_end_a_transfer() {
    assert!(matches!(vl53_i2c_write(5, &[1, 2, 3], 3, false), WriteStep::Over(1)));
    assert!(matches!(vl53_i2c_write(5, &[1, 2, 3], 0, false), WriteStep::Over(1)));
    assert!(matches!(vl53_i2c_read(5, 3, 3, false), ReadStep::Over(1)));
}

#[test]
fn read_fills_memory_without_gaps() {
    let mut done: usize = 0;
    let mut seen: Vec<([u8; 2], usize)> = Vec::new();
    loop {
        match vl53_i2c_read(0xffe0, 100, done, true) {
            ReadStep::Fetch(piece) => {
                assert_eq!(piece.register.to_be_bytes(), piece.address);
                seen.push((piece.address, piece.done));
                done = piece.done;
            }
            ReadStep::Over(status) => {
                assert_eq!(status, 0);
                break;
            }
        }
    }
    assert_eq!(
        seen,
        [([0xff, 0xe0], 32), ([0x00, 0x00], 64), ([0x00, 0x20], 96), ([0x00, 0x40], 100)]
    );
}
