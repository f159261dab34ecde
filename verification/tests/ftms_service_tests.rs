use ftms::ftms_service::{
    backend_action, backend_lines, encode_status_notification, encode_training_status,
    handle_control_command, plan_write, settle_command, BackendAction, ControlEvent,
    ControlPointSession, Delivery, SessionState, Subscriber, WriteStep,
};
use ftms::gatt::{advertised_service_data, characteristics, Characteristic, LOCAL_NAME};
use ftms::protocol::{
    ble_uuid, ble_uuid_u128, parse_control_point, ControlCommand, ResultCode, RESULT_FAILED,
    RESULT_NOT_SUPPORTED, RESULT_SUCCESS,
};

#[test]
fn status_notification_per_command() {
    assert_eq!(encode_status_notification(&ControlCommand::RequestControl), None);
    assert_eq!(encode_status_notification(&ControlCommand::StartOrResume), Some(vec![0x04]));
    assert_eq!(encode_status_notification(&ControlCommand::StopOrPause(1)), Some(vec![0x02, 0x01]));
    assert_eq!(encode_status_notification(&ControlCommand::StopOrPause(2)), Some(vec![0x02, 0x02]));
    assert_eq!(
        encode_status_notification(&ControlCommand::SetTargetSpeed(500)),
        Some(vec![0x05, 0xF4, 0x01])
    );
    assert_eq!(
        encode_status_notification(&ControlCommand::SetTargetInclination(30)),
        Some(vec![0x06, 0x1E, 0x00])
    );
    assert_eq!(
        encode_status_notification(&ControlCommand::SetTargetInclination(-10)),
        Some(vec![0x06, 0xF6, 0xFF])
    );
}

#[test]
fn training_status_per_command() {
    assert_eq!(encode_training_status(&ControlCommand::StartOrResume), Some(vec![0x00, 0x0D]));
    assert_eq!(encode_training_status(&ControlCommand::StopOrPause(1)), Some(vec![0x00, 0x01]));
    assert_eq!(encode_training_status(&ControlCommand::StopOrPause(2)), Some(vec![0x00, 0x01]));
    assert_eq!(encode_training_status(&ControlCommand::RequestControl), None);
    assert_eq!(encode_training_status(&ControlCommand::SetTargetSpeed(500)), None);
    assert_eq!(encode_training_status(&ControlCommand::SetTargetInclination(30)), None);
}

#[test]
fn backend_action_table() {
    assert_eq!(backend_action(&ControlCommand::RequestControl), BackendAction::Nothing);
    assert_eq!(backend_action(&ControlCommand::StartOrResume), BackendAction::Start);
    assert_eq!(backend_action(&ControlCommand::StopOrPause(1)), BackendAction::Stop);
    assert_eq!(backend_action(&ControlCommand::StopOrPause(2)), BackendAction::Stop);
    assert_eq!(backend_action(&ControlCommand::StopOrPause(200)), BackendAction::Stop);
    // 500 * 100 / 1609 = 31
    assert_eq!(
        backend_action(&ControlCommand::SetTargetSpeed(500)),
        BackendAction::SetSpeed { mph_tenths: 31 }
    );
    assert_eq!(
        backend_action(&ControlCommand::SetTargetInclination(50)),
        BackendAction::SetIncline { percent: 5 }
    );
}

#[test]
fn speed_is_held_to_the_ceiling() {
    assert_eq!(
        backend_action(&ControlCommand::SetTargetSpeed(0)),
        BackendAction::SetSpeed { mph_tenths: 0 }
    );
    // 1930 -> 119, 1931 -> 120, 1947 -> 121 -> 120
    assert_eq!(
        backend_action(&ControlCommand::SetTargetSpeed(1930)),
        BackendAction::SetSpeed { mph_tenths: 119 }
    );
    assert_eq!(
        backend_action(&ControlCommand::SetTargetSpeed(1931)),
        BackendAction::SetSpeed { mph_tenths: 120 }
    );
    assert_eq!(
        backend_action(&ControlCommand::SetTargetSpeed(1947)),
        BackendAction::SetSpeed { mph_tenths: 120 }
    );
    assert_eq!(
        backend_action(&ControlCommand::SetTargetSpeed(u16::MAX)),
        BackendAction::SetSpeed { mph_tenths: 120 }
    );
}

#[test]
fn incline_is_held_between_level_and_the_ceiling() {
    let percent = |tenths: i16| match backend_action(&ControlCommand::SetTargetInclination(tenths)) {
        BackendAction::SetIncline { percent } => percent,
        other => panic!("unexpected action {:?}", other),
    };
    assert_eq!(percent(0), 0);
    assert_eq!(percent(9), 0);
    assert_eq!(percent(10), 1);
    assert_eq!(percent(149), 14);
    assert_eq!(percent(150), 15);
    assert_eq!(percent(159), 15);
    assert_eq!(percent(160), 15);
    assert_eq!(percent(i16::MAX), 15);
    assert_eq!(percent(-1), 0);
    assert_eq!(percent(-10), 0);
    assert_eq!(percent(-15), 0);
    assert_eq!(percent(i16::MIN), 0);
    for tenths in [-32768i16, -100, -9, 0, 5, 33, 150, 151, 32767] {
        assert_eq!(percent(tenths), (tenths / 10).clamp(0, 15));
    }
}

#[test]
fn backend_lines_per_action() {
    assert_eq!(backend_lines(&BackendAction::Nothing), Vec::<String>::new());
    assert_eq!(
        backend_lines(&BackendAction::SetSpeed { mph_tenths: 31 }),
        vec!["{\"cmd\":\"speed\",\"value\":3.1}\n".to_string()]
    );
    assert_eq!(
        backend_lines(&BackendAction::SetIncline { percent: 5 }),
        vec!["{\"cmd\":\"incline\",\"value\":5}\n".to_string()]
    );
    assert_eq!(
        backend_lines(&BackendAction::Start),
        vec!["{\"cmd\":\"emulate\",\"enabled\":true}\n".to_string()]
    );
    assert_eq!(
        backend_lines(&BackendAction::Stop),
        vec![
            "{\"cmd\":\"speed\",\"value\":0.0}\n".to_string(),
            "{\"cmd\":\"incline\",\"value\":0}\n".to_string()
        ]
    );
}

#[test]
fn handle_control_command_outcomes() {
    assert_eq!(handle_control_command(&ControlCommand::RequestControl, true), (0x00, RESULT_SUCCESS));
    assert_eq!(handle_control_command(&ControlCommand::RequestControl, false), (0x00, RESULT_SUCCESS));
    assert_eq!(handle_control_command(&ControlCommand::SetTargetSpeed(500), true), (0x02, RESULT_SUCCESS));
    assert_eq!(handle_control_command(&ControlCommand::SetTargetSpeed(500), false), (0x02, RESULT_FAILED));
    assert_eq!(
        handle_control_command(&ControlCommand::SetTargetInclination(30), true),
        (0x03, RESULT_SUCCESS)
    );
    assert_eq!(
        handle_control_command(&ControlCommand::SetTargetInclination(30), false),
        (0x03, RESULT_FAILED)
    );
    assert_eq!(handle_control_command(&ControlCommand::StartOrResume, true), (0x07, RESULT_SUCCESS));
    assert_eq!(handle_control_command(&ControlCommand::StartOrResume, false), (0x07, RESULT_FAILED));
    assert_eq!(handle_control_command(&ControlCommand::StopOrPause(1), true), (0x08, RESULT_SUCCESS));
    assert_eq!(handle_control_command(&ControlCommand::StopOrPause(2), false), (0x08, RESULT_FAILED));
}

#[test]
fn empty_write_is_a_no_op() {
    assert!(plan_write(&[]).is_none());
}

#[test]
fn unknown_opcode_is_not_supported() {
    let plan = plan_write(&[0xFF]).expect("a plan");
    assert_eq!(plan.opcode, 0xFF);
    assert_eq!(plan.command, None);
    assert_eq!(plan.machine_status, None);
    assert_eq!(plan.training_status, None);
    assert_eq!(plan.action, BackendAction::Nothing);
    assert_eq!(plan.response(true), vec![0x80, 0xFF, RESULT_NOT_SUPPORTED]);
    assert_eq!(plan.response(false), vec![0x80, 0xFF, RESULT_NOT_SUPPORTED]);
}

#[test]
fn truncated_parameter_is_not_supported() {
    let plan = plan_write(&[0x02, 0xF4]).expect("a plan");
    assert_eq!(plan.command, None);
    assert_eq!(plan.action, BackendAction::Nothing);
    assert_eq!(plan.response(true), vec![0x80, 0x02, 0x02]);
    let plan = plan_write(&[0x08]).expect("a plan");
    assert_eq!(plan.response(true), vec![0x80, 0x08, 0x02]);
}

#[test]
fn every_single_byte_write_gets_a_well_formed_response() {
    for byte in 0u8..=255 {
        let plan = plan_write(&[byte]).expect("a plan");
        assert_eq!(plan.command, parse_control_point(&[byte]));
        for ok in [true, false] {
            let resp = plan.response(ok);
            assert_eq!(resp.len(), 3);
            assert_eq!(resp[0], 0x80);
            assert_eq!(resp[1], byte);
            let expected = match byte {
                0x00 => RESULT_SUCCESS,
                0x07 => {
                    if ok {
                        RESULT_SUCCESS
                    } else {
                        RESULT_FAILED
                    }
                }
                _ => RESULT_NOT_SUPPORTED,
            };
            assert_eq!(resp[2], expected);
        }
    }
}

#[test]
fn scenario_request_control_set_speed_stop() {
    // The client requests control.
    let plan = plan_write(&[0x00]).expect("a plan");
    assert_eq!(plan.command, Some(ControlCommand::RequestControl));
    assert_eq!(plan.machine_status, None);
    assert_eq!(plan.training_status, None);
    assert_eq!(plan.action, BackendAction::Nothing);
    assert!(backend_lines(&plan.action).is_empty());
    assert_eq!(plan.response(true), vec![0x80, 0x00, 0x01]);

    // It sets the speed to 5.00 km/h.
    let plan = plan_write(&[0x02, 0xF4, 0x01]).expect("a plan");
    assert_eq!(plan.command, Some(ControlCommand::SetTargetSpeed(500)));
    assert_eq!(plan.machine_status, Some(vec![0x05, 0xF4, 0x01]));
    assert_eq!(plan.training_status, None);
    assert_eq!(plan.action, BackendAction::SetSpeed { mph_tenths: 31 });
    assert_eq!(
        backend_lines(&plan.action),
        vec!["{\"cmd\":\"speed\",\"value\":3.1}\n".to_string()]
    );
    assert_eq!(plan.response(true), vec![0x80, 0x02, 0x01]);

    // It stops: speed 0 first, then incline 0.
    let plan = plan_write(&[0x08, 0x01]).expect("a plan");
    assert_eq!(plan.command, Some(ControlCommand::StopOrPause(1)));
    assert_eq!(plan.machine_status, Some(vec![0x02, 0x01]));
    assert_eq!(plan.training_status, Some(vec![0x00, 0x01]));
    assert_eq!(plan.action, BackendAction::Stop);
    assert_eq!(
        backend_lines(&plan.action),
        vec![
            "{\"cmd\":\"speed\",\"value\":0.0}\n".to_string(),
            "{\"cmd\":\"incline\",\"value\":0}\n".to_string()
        ]
    );
    assert_eq!(plan.response(true), vec![0x80, 0x08, 0x01]);
}

#[test]
fn scenario_speed_above_ceiling_is_clamped() {
    // 0xFFFF hundredths of km/h
    let plan = plan_write(&[0x02, 0xFF, 0xFF, 0x55]).expect("a plan");
    assert_eq!(plan.command, Some(ControlCommand::SetTargetSpeed(u16::MAX)));
    assert_eq!(plan.machine_status, Some(vec![0x05, 0xFF, 0xFF]));
    assert_eq!(plan.action, BackendAction::SetSpeed { mph_tenths: 120 });
    assert_eq!(
        backend_lines(&plan.action),
        vec!["{\"cmd\":\"speed\",\"value\":12.0}\n".to_string()]
    );
    assert_eq!(plan.response(false), vec![0x80, 0x02, 0x04]);
}

#[test]
fn scenario_start_notifies_manual_mode() {
    let plan = plan_write(&[0x07]).expect("a plan");
    assert_eq!(plan.machine_status, Some(vec![0x04]));
    assert_eq!(plan.training_status, Some(vec![0x00, 0x0D]));
    assert_eq!(plan.action, BackendAction::Start);
    assert_eq!(plan.response(true), vec![0x80, 0x07, 0x01]);
    assert_eq!(plan.response(false), vec![0x80, 0x07, 0x04]);
}

#[test]
fn subscriber_slot_replaces_and_clears() {
    let mut slot: Subscriber<u32> = Subscriber::new();
    assert!(!slot.is_attached());
    assert_eq!(slot.take(), None);

    slot.attach(1);
    assert!(slot.is_attached());
    // A new session takes the place of the old one.
    slot.attach(2);
    assert_eq!(slot.take(), Some(2));
    assert!(!slot.is_attached());

    slot.settle(2, Delivery::Delivered);
    assert!(slot.is_attached());
    assert_eq!(slot.take(), Some(2));

    slot.settle(2, Delivery::Stopped);
    assert!(!slot.is_attached());

    slot.attach(3);
    let handle = slot.take().expect("attached");
    slot.settle(handle, Delivery::Failed);
    assert!(!slot.is_attached());

    slot.attach(4);
    slot.clear();
    assert!(!slot.is_attached());
}

#[test]
fn scenario_indicate_subscriber_gone_before_response() {
    let mut session = ControlPointSession::new();
    assert!(session.on_event(ControlEvent::WriteSessionOpened { mtu: 23, accepted: true }));
    assert!(session.on_event(ControlEvent::IndicateSessionOpened));
    assert_eq!(session.state, SessionState::Both);

    // A write is parsed ...
    let plan = plan_write(&[0x07]).expect("a plan");
    let response = plan.response(true);
    assert_eq!(response, vec![0x80, 0x07, 0x01]);

    // ... and the subscriber is gone when the response is sent.
    assert!(session.on_event(ControlEvent::IndicationFailed));
    assert_eq!(session.state, SessionState::ReaderAttached);
    assert!(session.has_reader());
    assert!(!session.has_writer());

    // Writes are still handled; their responses have nowhere to go.
    let plan = plan_write(&[0x08, 0x01]).expect("a plan");
    assert_eq!(plan.response(true), vec![0x80, 0x08, 0x01]);
    assert!(!session.has_writer());

    // A new indicate session makes responses flow again.
    assert!(session.on_event(ControlEvent::IndicateSessionOpened));
    assert_eq!(session.state, SessionState::Both);
}

#[test]
fn control_point_session_transitions() {
    let mut session = ControlPointSession::new();
    assert_eq!(session.state, SessionState::Idle);
    assert_eq!(session.read_buf_len, 0);
    assert!(!session.has_reader());
    assert!(!session.has_writer());

    // A write session that is not accepted attaches nothing, but sizes the buffer.
    assert!(session.on_event(ControlEvent::WriteSessionOpened { mtu: 185, accepted: false }));
    assert_eq!(session.state, SessionState::Idle);
    assert_eq!(session.read_buf_len, 185);

    assert!(session.on_event(ControlEvent::IndicateSessionOpened));
    assert_eq!(session.state, SessionState::WriterAttached);

    assert!(session.on_event(ControlEvent::WriteSessionOpened { mtu: 23, accepted: true }));
    assert_eq!(session.state, SessionState::Both);
    assert_eq!(session.read_buf_len, 23);

    // A second write session that is not accepted leaves the reader in place.
    assert!(session.on_event(ControlEvent::WriteSessionOpened { mtu: 64, accepted: false }));
    assert_eq!(session.state, SessionState::Both);
    assert_eq!(session.read_buf_len, 64);

    assert!(session.on_event(ControlEvent::WriteStreamEnded));
    assert_eq!(session.state, SessionState::WriterAttached);
    assert_eq!(session.read_buf_len, 64);

    assert!(session.on_event(ControlEvent::WriteSessionOpened { mtu: 23, accepted: true }));
    assert!(session.on_event(ControlEvent::WriteStreamFailed));
    assert_eq!(session.state, SessionState::WriterAttached);

    assert!(session.on_event(ControlEvent::IndicationFailed));
    assert_eq!(session.state, SessionState::Idle);

    // The end of the control stream ends the engine.
    assert!(!session.on_event(ControlEvent::ControlStreamEnded));
    assert_eq!(session.state, SessionState::Idle);
}

#[test]
fn characteristic_table_values() {
    let table = characteristics();
    assert_eq!(
        table,
        [
            Characteristic::Feature,
            Characteristic::TreadmillData,
            Characteristic::SpeedRange,
            Characteristic::InclineRange,
            Characteristic::TrainingStatus,
            Characteristic::ControlPoint,
            Characteristic::MachineStatus,
        ]
    );
    let shorts: Vec<u16> = table.iter().map(|c| c.short_uuid()).collect();
    assert_eq!(shorts, vec![0x2ACC, 0x2ACD, 0x2AD4, 0x2AD5, 0x2AD3, 0x2AD9, 0x2ADA]);

    assert_eq!(
        Characteristic::Feature.read_value(),
        Some(vec![0x0C, 0x10, 0x00, 0x00, 0x03, 0x00, 0x00, 0x00])
    );
    assert_eq!(
        Characteristic::SpeedRange.read_value(),
        Some(vec![0x50, 0x00, 0x8B, 0x07, 0x10, 0x00])
    );
    assert_eq!(
        Characteristic::InclineRange.read_value(),
        Some(vec![0x00, 0x00, 0x96, 0x00, 0x0A, 0x00])
    );
    assert_eq!(Characteristic::TrainingStatus.read_value(), Some(vec![0x00, 0x01]));
    assert_eq!(Characteristic::MachineStatus.read_value(), Some(vec![0x02, 0x01]));
    assert_eq!(Characteristic::TreadmillData.read_value(), None);
    assert_eq!(Characteristic::ControlPoint.read_value(), None);

    assert_eq!(Characteristic::TrainingStatus.subscribe_value(), Some(vec![0x00, 0x01]));
    assert_eq!(Characteristic::MachineStatus.subscribe_value(), Some(vec![0x02, 0x01]));
    assert_eq!(Characteristic::TreadmillData.subscribe_value(), None);
    assert_eq!(Characteristic::Feature.subscribe_value(), None);
    assert_eq!(Characteristic::ControlPoint.subscribe_value(), None);

    for c in table {
        let access = c.access();
        assert_eq!(access.read, c.read_value().is_some());
        assert_eq!(access.write, c == Characteristic::ControlPoint);
        assert_eq!(access.indicate, c == Characteristic::ControlPoint);
        assert_eq!(access.raw_io, c == Characteristic::ControlPoint);
    }
    assert!(Characteristic::TreadmillData.access().notify);
    assert!(Characteristic::TrainingStatus.access().notify);
    assert!(Characteristic::MachineStatus.access().notify);
    assert!(!Characteristic::Feature.access().notify);
    assert!(!Characteristic::ControlPoint.access().notify);
}

#[test]
fn advertisement_values() {
    assert_eq!(LOCAL_NAME, "Precor 9.31");
    assert_eq!(advertised_service_data(), vec![0x01, 0x01]);
}

#[test]
fn ble_uuid_expands_under_the_base_uuid() {
    assert_eq!(ble_uuid_u128(0x1826), 0x0000_1826_0000_1000_8000_0080_5f9b_34fb);
    assert_eq!(ble_uuid_u128(0), 0x0000_0000_0000_1000_8000_0080_5f9b_34fb);
    assert_eq!(ble_uuid_u128(0xFFFF), 0x0000_FFFF_0000_1000_8000_0080_5f9b_34fb);
    assert_eq!(ble_uuid(0x1826).to_string(), "00001826-0000-1000-8000-00805f9b34fb");
    assert_eq!(ble_uuid(0x2AD9).as_u128(), 0x0000_2AD9_0000_1000_8000_0080_5f9b_34fb);
    assert_eq!(
        Characteristic::ControlPoint.uuid().to_string(),
        "00002ad9-0000-1000-8000-00805f9b34fb"
    );
    assert_eq!(
        Characteristic::MachineStatus.uuid(),
        uuid::Uuid::parse_str("00002ada-0000-1000-8000-00805f9b34fb").unwrap()
    );
}

#[test]
fn write_steps_come_in_order() {
    // Start: both notifications, then the backend, then the response.
    let plan = plan_write(&[0x07]).expect("a plan");
    assert_eq!(
        plan.steps(),
        vec![
            WriteStep::NotifyMachineStatus(vec![0x04]),
            WriteStep::NotifyTrainingStatus(vec![0x00, 0x0D]),
            WriteStep::AskBackend(BackendAction::Start),
            WriteStep::IndicateResponse,
        ]
    );

    // Set speed: no training status.
    let plan = plan_write(&[0x02, 0xF4, 0x01]).expect("a plan");
    assert_eq!(
        plan.steps(),
        vec![
            WriteStep::NotifyMachineStatus(vec![0x05, 0xF4, 0x01]),
            WriteStep::AskBackend(BackendAction::SetSpeed { mph_tenths: 31 }),
            WriteStep::IndicateResponse,
        ]
    );

    // Request control: nothing is notified and nothing asked of the backend.
    let plan = plan_write(&[0x00]).expect("a plan");
    assert_eq!(
        plan.steps(),
        vec![WriteStep::AskBackend(BackendAction::Nothing), WriteStep::IndicateResponse]
    );

    // No command: the response alone.
    let plan = plan_write(&[0x55, 0x01]).expect("a plan");
    assert_eq!(plan.steps(), vec![WriteStep::IndicateResponse]);
}

#[test]
fn result_codes() {
    assert_eq!(ResultCode::Success.code(), 0x01);
    assert_eq!(ResultCode::NotSupported.code(), 0x02);
    assert_eq!(ResultCode::InvalidParameter.code(), 0x03);
    assert_eq!(ResultCode::Failed.code(), 0x04);
    for byte in 0u8..=255 {
        match ResultCode::from_code(byte) {
            Some(result) => assert_eq!(result.code(), byte),
            None => assert!(byte == 0 || byte > 4),
        }
    }
}

#[test]
fn write_results() {
    assert_eq!(settle_command(&ControlCommand::RequestControl, false), ResultCode::Success);
    assert_eq!(settle_command(&ControlCommand::StartOrResume, true), ResultCode::Success);
    assert_eq!(settle_command(&ControlCommand::StartOrResume, false), ResultCode::Failed);
    assert_eq!(settle_command(&ControlCommand::SetTargetSpeed(500), false), ResultCode::Failed);
    let plan = plan_write(&[0x07]).expect("a plan");
    assert_eq!(plan.result(true), ResultCode::Success);
    assert_eq!(plan.result(false), ResultCode::Failed);
    let plan = plan_write(&[0x00]).expect("a plan");
    assert_eq!(plan.result(false), ResultCode::Success);
    let plan = plan_write(&[0x09]).expect("a plan");
    assert_eq!(plan.result(true), ResultCode::NotSupported);
}

#[test]
fn only_a_delivered_value_keeps_the_subscriber() {
    assert!(Delivery::Delivered.keeps_subscriber());
    assert!(!Delivery::Stopped.keeps_subscriber());
    assert!(!Delivery::Failed.keeps_subscriber());
}
