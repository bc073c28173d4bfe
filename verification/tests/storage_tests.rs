use lidar_fill_state::storage::{
    filesystem_config, init_filesystem, parse_start_index, start_begin, storage_offset,
    storage_outcome, FilesystemConfig, FlashRequest, LittleFsStorage, MountError, StartCall,
    StartEvent, StartFailure, StorageError,
};

#[test]
fn start_index_is_hexadecimal() {
    assert_eq!(storage_offset("0x1F0000"), 0x1f_0000);
    assert_eq!(storage_offset("1f0000"), 0x1f_0000);
    assert_eq!(storage_offset("0xFFFFFFFF"), u32::MAX);
    assert_eq!(storage_offset("0"), 0);
    assert_eq!(storage_offset("0x0x10"), 0x10);
    assert_eq!(storage_offset("0x+10"), 0x10);
    assert_eq!(storage_offset("00000000000001"), 1);
}

#[test]
fn start_index_can_be_wrong() {
    for wrong in ["", "0x", "+", "0x+", "-1", "0X10", "10g", "1 0", " 10", "100000000", "0x1_0"] {
        assert_eq!(parse_start_index(wrong), None, "{}", wrong);
    }
    assert_eq!(parse_start_index("0xabcDEF"), Some(0xabcdef));
}

#[test]
fn start_index_agrees_with_std() {
    for text in ["0x10", "0x0x", "0x00x1", "x10", "0x+f", "+0xf", "ffffffff", "1ffffffff"] {
        assert_eq!(
            parse_start_index(text),
            u32::from_str_radix(text.trim_start_matches("0x"), 16).ok()
        );
    }
}

#[test]
fn blocks_lie_one_after_the_other() {
    let storage = LittleFsStorage::new(0x1f_0000);
    assert_eq!(storage.address(0, 0), 0x1f_0000);
    assert_eq!(storage.address(0, 4095), 0x1f_0fff);
    assert_eq!(storage.address(1, 0), 0x1f_1000);
    assert_eq!(storage.address(527, 4095), 0x1f_0000 + 528 * 4096 - 1);
    assert_eq!(
        storage.read(2, 16, 64),
        FlashRequest::Read { address: 0x1f_2010, len: 64 }
    );
    assert_eq!(
        storage.write(3, 32, 128),
        FlashRequest::Write { address: 0x1f_3020, len: 128 }
    );
    assert_eq!(
        storage.erase(4),
        FlashRequest::Erase { from: 0x1f_4000, to: 0x1f_5000 }
    );
    assert_eq!(storage.sync(), Ok(()));
}

#[test]
fn refused_requests_are_io_errors() {
    assert_eq!(storage_outcome(true), Ok(()));
    assert_eq!(storage_outcome(false), Err(StorageError::Io));
}

#[test]
fn settings_of_the_file_system() {
    assert_eq!(
        filesystem_config(),
        FilesystemConfig {
            block_size: 4096,
            block_count: 528,
            read_size: 16,
            prog_size: 16,
            block_cycles: -1,
            cache_size: 4096,
            lookahead_size: 0,
            name_max: 255,
            file_max: 0x7fff_ffff,
            attr_max: 1022,
        }
    );
}

#[test]
fn sound_file_system_is_mounted_at_once() {
    assert_eq!(init_filesystem(start_begin(), StartEvent::Mounted), StartCall::Ready);
}

#[test]
fn damaged_file_system_is_formatted_once() {
    let call = init_filesystem(start_begin(), StartEvent::MountFailed(MountError::Corrupt));
    assert_eq!(call, StartCall::Format);
    let call = init_filesystem(call, StartEvent::Formatted);
    assert_eq!(call, StartCall::MountAgain);
    assert_eq!(init_filesystem(call, StartEvent::Mounted), StartCall::Ready);
    assert_eq!(
        init_filesystem(call, StartEvent::MountFailed(MountError::Corrupt)),
        StartCall::Failed(StartFailure::MountAfterFormat)
    );
}

#[test]
fn other_failures_end_the_start() {
    assert_eq!(
        init_filesystem(StartCall::Mount, StartEvent::MountFailed(MountError::Other)),
        StartCall::Failed(StartFailure::Mount)
    );
    assert_eq!(
        init_filesystem(StartCall::Format, StartEvent::FormatFailed),
        StartCall::Failed(StartFailure::Format)
    );
    assert_eq!(init_filesystem(StartCall::Ready, StartEvent::FormatFailed), StartCall::Ready);
}
