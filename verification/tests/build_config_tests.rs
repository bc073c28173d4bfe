use lidar_fill_state::build_config::{
    linker_be_nice, load_storage_indexes_from_partition_table, load_wifi_credentials, LinkerReply,
};
use lidar_fill_state::storage::storage_offset;

#[test]
fn network_settings_are_passed_on() {
    let output = load_wifi_credentials(
        "# network\r\n\r\n  WIFI_SSID = My Net \r\nWIFI_PASSWORD=a=b # c\n\u{3000}\n",
    );
    assert_eq!(
        output.lines,
        ["cargo:rustc-env=WIFI_SSID=My Net", "cargo:rustc-env=WIFI_PASSWORD=a=b # c"]
    );
    assert_eq!(output.failure, None);
}

#[test]
fn empty_settings_are_no_mistake() {
    let output = load_wifi_credentials("");
    assert!(output.lines.is_empty());
    assert_eq!(output.failure, None);
}

#[test]
fn line_without_equals_sign_is_a_mistake() {
    let output = load_wifi_credentials("WIFI_SSID=x\n  nonsense \nWIFI_PASSWORD=y");
    assert_eq!(output.lines, ["cargo:rustc-env=WIFI_SSID=x"]);
    assert_eq!(output.failure.unwrap(), "Invalid line in wifi.env: nonsense");
}

#[test]
fn unknown_key_is_a_mistake() {
    let output = load_wifi_credentials("wifi_ssid = x");
    assert!(output.lines.is_empty());
    assert_eq!(output.failure.unwrap(), "Unknown key in wifi.env: wifi_ssid");
    let output = load_wifi_credentials("=x");
    assert_eq!(output.failure.unwrap(), "Unknown key in wifi.env: ");
}

#[test]
fn storage_partition_is_found() {
    let output = load_storage_indexes_from_partition_table(
        "# Name, Type, SubType, Offset, Size, Flags\n\
         nvs,      data, nvs,     0x9000,  0x6000,\n\
         \t storage, data, spiffs,  0x1F0000, 0x210000,\n",
    );
    assert_eq!(
        output.lines,
        [
            "cargo:rustc-env=STORAGE_PARTITION_START_INDEX=0x1F0000",
            "cargo:rustc-env=STORAGE_PARTITION_END_INDEX=0x210000"
        ]
    );
    assert_eq!(output.failure, None);
    assert_eq!(storage_offset("0x1F0000"), 0x1f_0000);
}

#[test]
fn every_storage_line_counts() {
    let output = load_storage_indexes_from_partition_table("storage,1,2,3,4\nstorage2,5,6,7,8");
    assert_eq!(output.lines.len(), 4);
    assert_eq!(output.lines[3], "cargo:rustc-env=STORAGE_PARTITION_END_INDEX=8");
    assert_eq!(output.failure, None);
}

#[test]
fn short_storage_line_is_a_mistake() {
    let output = load_storage_indexes_from_partition_table("storage,1,2,3,4\nstorage, data, x, 1");
    assert_eq!(output.lines.len(), 2);
    assert_eq!(
        output.failure.unwrap(),
        "The definition of the partition \"storage\" has an unexpected format"
    );
}

#[test]
fn missing_storage_partition_is_a_mistake() {
    let output = load_storage_indexes_from_partition_table("nvs,data,nvs,1,2\n,storage,1,2,3,4\n");
    assert!(output.lines.is_empty());
    assert_eq!(output.failure.unwrap(), "No partition with the name \"storage\" found");
}

fn reply(kind: &str, what: &str) -> (i32, Option<&'static str>) {
    let args = vec!["tool".to_string(), kind.to_string(), what.to_string()];
    match linker_be_nice(&args) {
        LinkerReply::Exit { code, hint } => (code, hint),
        LinkerReply::Build => panic!("taken for a build"),
    }
}

#[test]
fn linker_gets_hints() {
    assert!(matches!(linker_be_nice(&vec!["tool".to_string()]), LinkerReply::Build));
    assert!(reply("undefined-symbol", "_defmt_timestamp").1.unwrap().contains("defmt.x"));
    assert_eq!(
        reply("undefined-symbol", "_stack_start"),
        (0, Some("💡 Is the linker script `linkall.x` missing?"))
    );
    assert!(reply("undefined-symbol", "esp_rtos_yield").1.unwrap().contains("esp-radio"));
    assert!(reply("undefined-symbol", "embedded_test_linker_file_not_added_to_rustflags")
        .1
        .unwrap()
        .contains("embedded-test.x"));
    for what in ["free", "malloc", "calloc", "get_free_internal_heap_size", "realloc_internal"] {
        assert!(reply("undefined-symbol", what).1.unwrap().contains("esp-alloc"));
    }
    assert_eq!(reply("undefined-symbol", "main"), (0, None));
    assert_eq!(reply("missing-lib", "free"), (1, None));
}
