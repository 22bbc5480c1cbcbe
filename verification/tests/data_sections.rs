use open_protocol_device_simulator::handler::data::{
    CommandAccepted, ErrorResponse, IoDeviceStatus, MultiSpindleResultBroadcast, PsetSelected,
    RelayFunction, TighteningResult,
};
use open_protocol_device_simulator::handler::data::multi_spindle_result_broadcast::vin_fits;
use open_protocol_device_simulator::multi_spindle::{
    MultiSpindleResult, MultiSpindleResultRecord, SpindleResult,
};
use open_protocol_device_simulator::protocol::field::FieldBuilder;
use open_protocol_device_simulator::protocol::ResponseData;

#[test]
fn test_io_device_status_serialization() {
    let data = IoDeviceStatus::new(
        0,
        vec![(20, false), (22, true), (0, false), (0, false), (0, false), (0, false), (0, false), (0, false)],
        vec![(0, false); 8],
    )
    .serialize();

    let text = String::from_utf8(data).unwrap();
    assert!(text.starts_with("010002"));
    assert!(text.contains("0200"));
    assert!(text.contains("0221"));
    assert_eq!(text.len(), 72);
}

#[test]
fn test_multi_spindle_result_broadcast_two_spindles() {
    let spindle1 = SpindleResult {
        spindle_id: 1,
        channel_id: 1,
        torque: 5000,
        angle: 1800,
        torque_status: 1,
        angle_status: 0,
    };

    let spindle2 = SpindleResult {
        spindle_id: 2,
        channel_id: 2,
        torque: 5100,
        angle: 1850,
        torque_status: 1,
        angle_status: 0,
    };

    let spindles = vec![spindle1, spindle2];
    let result = MultiSpindleResult::new(1, 100, spindles);

    let broadcast = MultiSpindleResultBroadcast::new(
        result,
        "TEST_VIN_12345".to_string(),
        1,
        10,
        0,
        0,
        2,
    );

    let data = broadcast.serialize();
    let data_str = String::from_utf8_lossy(&data);

    assert!(data_str.contains("0102"));
    assert!(data_str.contains("02TEST_VIN_12345"));
    assert!(data_str.contains("1600001"));
    assert!(data_str.contains("171"));
}

#[test]
fn test_multi_spindle_result_broadcast_with_nok() {
    let spindle1 = SpindleResult {
        spindle_id: 1,
        channel_id: 1,
        torque: 5000,
        angle: 1800,
        torque_status: 1,
        angle_status: 0,
    };

    let spindle2 = SpindleResult {
        spindle_id: 2,
        channel_id: 2,
        torque: 4000,
        angle: 1850,
        torque_status: 0,
        angle_status: 0,
    };

    let spindles = vec![spindle1, spindle2];
    let result = MultiSpindleResult::new(1, 100, spindles);

    let broadcast = MultiSpindleResultBroadcast::new(result, "VIN".to_string(), 1, 10, 0, 0, 2);

    let data = broadcast.serialize();
    let data_str = String::from_utf8_lossy(&data);

    assert!(data_str.contains("170"));
}

#[test]
fn test_pset_selected_serialization() {
    let pset = PsetSelected::new(5, "2026-03-16:13:34:11".to_string());
    let data = pset.serialize();
    assert_eq!(&data[..], b"0052026-03-16:13:34:11");
    assert_eq!(data.len(), 22);
}

#[test]
fn test_pset_selected_large_id() {
    let pset = PsetSelected::new(123, "2026-03-16:13:34:11".to_string());
    let data = pset.serialize();
    assert_eq!(&data[..], b"1232026-03-16:13:34:11");
}

#[test]
fn test_relay_function_serialization() {
    let data = RelayFunction::new(22, true).serialize();
    assert_eq!(&data, b"01022021");
}

#[test]
fn test_tightening_result_serialization() {
    let result = TighteningResult::example();
    let data = ResponseData::serialize(&result);

    assert!(!data.is_empty());
    assert_eq!(data.len(), 211);
}

#[test]
fn test_tightening_result_revision_2_serialization() {
    let result = TighteningResult::example();
    let data = result.serialize_for_revision(2);

    assert_eq!(data.len(), 365);
    let data_str = String::from_utf8_lossy(&data);
    assert!(data_str.contains("050001"));
    assert!(!data_str.contains("47Default"));
}

#[test]
fn test_tightening_result_revision_3_serialization() {
    let result = TighteningResult::example();
    let data = result.serialize_for_revision(3);

    assert_eq!(data.len(), 399);
    let data_str = String::from_utf8_lossy(&data);
    assert!(data_str.contains("47Default"));
    assert!(data_str.contains("481"));
    assert!(data_str.contains("4901"));
}

#[test]
fn tightening_result_revision_1_fields() {
    let result = TighteningResult::example();
    let text = String::from_utf8(result.serialize_for_revision(1)).unwrap();
    assert!(text.starts_with("010001"));
    assert!(text.contains("03Simulator                "));
    assert!(text.contains("12001000"));
    assert!(text.contains("15001230"));
    assert!(text.contains("1900039"));
    assert!(text.contains("20"));
    assert!(text.ends_with("221230000012345"));
}

#[test]
fn tightening_result_unknown_revision_uses_revision_1_layout() {
    let result = TighteningResult::example();
    assert_eq!(result.serialize_for_revision(7), result.serialize_for_revision(1));
    assert_eq!(result.serialize_for_revision(0), result.serialize_for_revision(1));
}

#[test]
fn tightening_result_batch_status_codes() {
    let mut result = TighteningResult::example();
    assert_eq!(result.batch_status_value(), 1);
    result.batch_status = Some(false);
    assert_eq!(result.batch_status_value(), 0);
    result.batch_status = None;
    assert_eq!(result.batch_status_value(), 2);
    let text = String::from_utf8(result.serialize_for_revision(1)).unwrap();
    assert!(text.contains("222"));
}

#[test]
fn tightening_result_missing_optionals_use_defaults() {
    let mut result = TighteningResult::example();
    result.vin_number = None;
    result.strategy = None;
    result.tool_serial_number = None;
    let text = String::from_utf8(result.serialize_for_revision(2)).unwrap();
    assert!(text.contains(&format!("04{}05", " ".repeat(25))));
    assert!(text.contains("0701"));
    assert!(text.contains(&format!("44{}45", " ".repeat(14))));
}

#[test]
fn command_accepted_writes_four_digits() {
    assert_eq!(CommandAccepted::with_mid(38).serialize(), b"0038".to_vec());
    assert_eq!(CommandAccepted::with_mid(9999).serialize(), b"9999".to_vec());
}

#[test]
fn error_response_codes() {
    assert_eq!(ErrorResponse::generic(38).serialize(), b"003879".to_vec());
    assert_eq!(ErrorResponse::invalid_data(82).serialize(), b"008201".to_vec());
    assert_eq!(ErrorResponse::revision_unsupported(60).serialize(), b"006097".to_vec());
}

#[test]
fn field_builder_pads_numbers_and_text() {
    let data = FieldBuilder::new()
        .add_int(Some(1), 7, 4)
        .add_int(None, -5, 3)
        .add_str(Some(2), "ab", 4)
        .add_str(None, "toolong", 3)
        .build();
    assert_eq!(data, b"010007-0502ab  toolong".to_vec());
}

#[test]
fn field_builder_pads_text_by_characters() {
    let data = FieldBuilder::new().add_str(None, "é", 3).build();
    assert_eq!(data, "é  ".as_bytes().to_vec());
}

#[test]
fn broadcast_from_record_keeps_record_fields() {
    let record = MultiSpindleResultRecord {
        result: MultiSpindleResult::new_at(
            7,
            100,
            vec![SpindleResult::ok(1, 5000, 180)],
            "2026-01-01 00:00:00".to_string(),
        ),
        vin_number: "VIN".to_string(),
        job_id: 3,
        pset_id: 4,
        batch_size: 5,
        batch_counter: 6,
        batch_status: 1,
        torque_min: 4500,
        torque_max: 5500,
        torque_target: 5000,
        angle_min: 170,
        angle_max: 190,
        angle_target: 180,
        last_change_timestamp: "2026-01-01:00:00:00".to_string(),
    };
    let text = String::from_utf8(MultiSpindleResultBroadcast::from_record(&record).serialize()).unwrap();
    let expected = format!(
        "010102{:<25}{}",
        "VIN",
        "030304004050005060006071080045000900550010005000110017012001901300180142026-01-01:00:00:00\
152026-01-01 00:00:001600007170010110005000000180180"
    );
    assert_eq!(text, expected);
}

#[test]
fn broadcast_cuts_long_vin_at_25_bytes() {
    let result = MultiSpindleResult::new_at(1, 1, vec![], "t".to_string());
    let vin = "ABCDEFGHIJKLMNOPQRSTUVWXYZ0123".to_string();
    let text = String::from_utf8(
        MultiSpindleResultBroadcast::new(result, vin, 1, 1, 0, 0, 2).serialize(),
    )
    .unwrap();
    assert!(text.starts_with("010002ABCDEFGHIJKLMNOPQRSTUVWXY03"));
}

#[test]
fn vin_fits_only_when_the_cut_ends_a_character() {
    assert!(vin_fits("short"));
    assert!(vin_fits("ABCDEFGHIJKLMNOPQRSTUVWXYZ0123"));
    assert!(!vin_fits("ABCDEFGHIJKLMNOPQRSTUVWXéYZ"));
}

#[test]
fn parameter_17_is_the_only_place_171_occurs() {
    let spindle = |id: u8| SpindleResult {
        spindle_id: id,
        channel_id: id,
        torque: 5000,
        angle: 1800,
        torque_status: 1,
        angle_status: 0,
    };
    let result = MultiSpindleResult::new(1, 100, vec![spindle(1), spindle(2)]);
    assert_eq!(result.overall_status, 1);
    let text = String::from_utf8(
        MultiSpindleResultBroadcast::new(result, "TEST_VIN_12345".to_string(), 1, 10, 0, 0, 2)
            .serialize(),
    )
    .unwrap();
    assert_eq!(text.matches("171").count(), 1);
    assert!(text.contains("1600001171"));
}
