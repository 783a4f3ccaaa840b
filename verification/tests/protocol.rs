use gearvr_core::protocol::{
    command_char_uuid, data_char_uuid, init_sequence, parse_uuid, service_uuid, ControllerCommand,
    UuidError,
};

#[test]
fn test_command_bytes() {
    assert_eq!(ControllerCommand::Off.as_bytes(), [0x00, 0x00]);
    assert_eq!(ControllerCommand::VrModeEnable.as_bytes(), [0x08, 0x00]);
}

#[test]
fn test_parse_uuid() {
    let guid = parse_uuid(service_uuid()).unwrap();
    assert_eq!(guid.data1, 0x4f63756c);
}

#[test]
fn parse_uuid_all_fields() {
    let guid = parse_uuid(service_uuid()).unwrap();
    assert_eq!(guid.data1, 0x4f63756c);
    assert_eq!(guid.data2, 0x7573);
    assert_eq!(guid.data3, 0x2054);
    assert_eq!(guid.data4, [0x68, 0x72, 0x65, 0x65, 0x6d, 0x6f, 0x74, 0x65]);
}

#[test]
fn parse_uuid_rejects_short_input() {
    assert_eq!(parse_uuid("1234-abcd"), Err(UuidError::InvalidLength));
}

#[test]
fn parse_uuid_rejects_bad_digit() {
    // 32 characters once the dash is dropped, but one is not hex.
    assert_eq!(
        parse_uuid("g8c51726-81bc483ba052f7a14ea3d281"),
        Err(UuidError::InvalidDigit)
    );
}

#[test]
fn parse_uuid_ignores_dashes_anywhere() {
    let a = parse_uuid("c8c51726-81bc-483b-a052-f7a14ea3d282").unwrap();
    let b = parse_uuid("c8c5172681bc483ba052f7a14ea3d282").unwrap();
    assert_eq!(a.data1, b.data1);
    assert_eq!(a.data2, b.data2);
    assert_eq!(a.data3, b.data3);
    assert_eq!(a.data4, b.data4);
    assert_eq!(command_char_uuid().replace('-', "").len(), 32);
    assert_eq!(data_char_uuid().len(), 36);
}

#[test]
fn command_bytes_all_distinct() {
    let all = [
        ControllerCommand::Off,
        ControllerCommand::SensorMode,
        ControllerCommand::FirmwareUpgrade,
        ControllerCommand::Calibration,
        ControllerCommand::KeepAlive,
        ControllerCommand::SettingMode,
        ControllerCommand::LpmEnable,
        ControllerCommand::LpmDisable,
        ControllerCommand::VrModeEnable,
        ControllerCommand::OptimizeConnection,
    ];
    for i in 0..all.len() {
        for j in 0..all.len() {
            if i != j {
                assert_ne!(all[i].as_bytes(), all[j].as_bytes());
            }
        }
    }
}

#[test]
fn init_sequence_order() {
    let seq = init_sequence();
    assert_eq!(seq.len(), 4);
    assert_eq!(seq[0], (ControllerCommand::SensorMode, 3));
    assert_eq!(seq[3], (ControllerCommand::VrModeEnable, 3));
}
