use fingerprint_sensor::codec::{encode, ProtocolError, ACKPACKET, COMMANDPACKET};
use fingerprint_sensor::command::{
    Command, Error, Exchange, Progress, Reply, BADLOCATION, DELETE, ENROLLMISMATCH, FEATUREFAIL,
    FINGERPRINTSEARCH, FLASHERR, GETIMAGE, HISPEEDSEARCH, IMAGE2TZ, IMAGEFAIL, IMAGEMESS,
    INVALIDIMAGE, NOFINGER, OK, READSYSPARAM, REGMODEL, STORE, TEMPLATECOUNT, VERIFYPASSWORD,
};
use fingerprint_sensor::device::{search_payload, Device, FastSearch, SysParams};
use fingerprint_sensor::handshake::Handshake;

const ADDRESS: [u8; 4] = [0xFF, 0xFF, 0xFF, 0xFF];
const PASSWORD: [u8; 4] = [0, 0, 0, 0];

/// The acknowledgement a sensor at `address` sends with `payload`.
fn ack_from(address: [u8; 4], payload: &[u8]) -> Reply {
    Reply::Received(encode(&address, ACKPACKET, payload))
}

fn ack(payload: &[u8]) -> Reply {
    ack_from(ADDRESS, payload)
}

/// The payload of a parameter report: status, then the sixteen parameter bytes.
fn sysparam_payload(status: u8, library_size: u16, address: [u8; 4]) -> Vec<u8> {
    let mut p = vec![status];
    p.extend_from_slice(&[0x00, 0x04]); // status register
    p.extend_from_slice(&[0x00, 0x09]); // system id
    p.extend_from_slice(&library_size.to_be_bytes());
    p.extend_from_slice(&[0x00, 0x03]); // security level
    p.extend_from_slice(&address);
    p.extend_from_slice(&[0x00, 0x02]); // data packet size
    p.extend_from_slice(&[0x00, 0x06]); // baud rate
    p
}

fn session_with(library_size: u16, strict: bool) -> Device {
    Device::new(
        ADDRESS,
        PASSWORD,
        strict,
        &ack(&[OK]),
        &ack(&sysparam_payload(OK, library_size, ADDRESS)),
    )
    .expect("handshake")
}

fn session() -> Device {
    session_with(200, false)
}

fn command_frame(payload: &[u8]) -> Vec<u8> {
    encode(&ADDRESS, COMMANDPACKET, payload)
}

#[test]
fn status_and_opcode_values() {
    assert_eq!(OK, 0x00);
    assert_eq!(NOFINGER, 0x02);
    assert_eq!(IMAGEFAIL, 0x03);
    assert_eq!(IMAGEMESS, 0x06);
    assert_eq!(FEATUREFAIL, 0x07);
    assert_eq!(ENROLLMISMATCH, 0x0A);
    assert_eq!(BADLOCATION, 0x0B);
    assert_eq!(INVALIDIMAGE, 0x15);
    assert_eq!(FLASHERR, 0x18);
    assert_eq!(Command::VerifyPassword.opcode(), 0x13);
    assert_eq!(Command::ReadSysParam.opcode(), 0x0F);
    assert_eq!(Command::TemplateCount.opcode(), 0x1D);
    assert_eq!(Command::GetImage.opcode(), 0x01);
    assert_eq!(Command::Image2Tz.opcode(), 0x02);
    assert_eq!(Command::FingerSearch.opcode(), 0x04);
    assert_eq!(Command::FingerFastSearch.opcode(), 0x1B);
    assert_eq!(Command::CreateModel.opcode(), 0x05);
    assert_eq!(Command::StoreModel.opcode(), 0x06);
    assert_eq!(Command::DeleteModel.opcode(), 0x0C);
    assert_eq!(VERIFYPASSWORD, 0x13);
    assert_eq!(HISPEEDSEARCH, 0x1B);
}

#[test]
fn reply_sizes_are_fixed_per_command() {
    assert_eq!(Command::VerifyPassword.reply_len(), 12);
    assert_eq!(Command::ReadSysParam.reply_len(), 28);
    assert_eq!(Command::TemplateCount.reply_len(), 14);
    assert_eq!(Command::GetImage.reply_len(), 12);
    assert_eq!(Command::Image2Tz.reply_len(), 12);
    assert_eq!(Command::FingerSearch.reply_len(), 16);
    assert_eq!(Command::FingerFastSearch.reply_len(), 16);
    assert_eq!(Command::CreateModel.reply_len(), 12);
    assert_eq!(Command::StoreModel.reply_len(), 12);
    assert_eq!(Command::DeleteModel.reply_len(), 12);
    assert_eq!(Command::ReadSysParam.payload_len(), 17);
    assert_eq!(Command::TemplateCount.payload_len(), 3);
    assert_eq!(Command::FingerSearch.payload_len(), 5);
    assert_eq!(Command::DeleteModel.payload_len(), 1);
}

#[test]
fn construction_reads_the_library_size() {
    let verify_reply = ack(&[OK]);
    let payload = sysparam_payload(OK, 0x03E8, ADDRESS);
    let frame = encode(&ADDRESS, ACKPACKET, &payload);
    assert_eq!(frame.len(), 28);
    assert_eq!(&payload[5..7], &[0x03, 0xE8]);
    let device = Device::new(ADDRESS, PASSWORD, false, &verify_reply, &Reply::Received(frame))
        .expect("construction succeeds");
    assert_eq!(device.library_size(), Some(1000));
    assert_eq!(
        device.sys_params(),
        Some(SysParams {
            status_register: 4,
            system_id: 9,
            library_size: 1000,
            security_level: 3,
            data_packet_size: 2,
            baudrate: 6,
        })
    );
    assert_eq!(device.address(), ADDRESS);
    assert_eq!(device.template_count(), 0);
    assert_eq!(device.finger_id(), 0);
    assert_eq!(device.confidence(), 0);
    assert!(!device.strict());
}

#[test]
fn construction_through_the_handshake() {
    let (handshake, first) = Handshake::start(ADDRESS, PASSWORD, true);
    assert_eq!(first.command, Command::VerifyPassword);
    assert_eq!(first.reply_len, 12);
    assert_eq!(first.frame, command_frame(&[0x13, 0, 0, 0, 0]));
    let (handshake, second) = match handshake.advance(&ack(&[OK])) {
        Ok(Progress::Continue { machine, exchange, pause }) => {
            assert!(!pause);
            (machine, exchange)
        }
        other => panic!("unexpected step: {:?}", other),
    };
    assert_eq!(second.command, Command::ReadSysParam);
    assert_eq!(second.reply_len, 28);
    assert_eq!(second.frame, command_frame(&[READSYSPARAM]));
    match handshake.advance(&ack(&sysparam_payload(OK, 0x0102, ADDRESS))) {
        Ok(Progress::Done(device)) => {
            assert_eq!(device.library_size(), Some(258));
            assert!(device.strict());
        }
        other => panic!("unexpected step: {:?}", other),
    }
}

#[test]
fn password_travels_in_the_first_frame() {
    let (_, first) = Handshake::start([1, 2, 3, 4], [9, 8, 7, 6], false);
    assert_eq!(first.frame, encode(&[1, 2, 3, 4], COMMANDPACKET, &[0x13, 9, 8, 7, 6]));
}

#[test]
fn refused_password_fails_the_handshake() {
    let sysparams = ack(&sysparam_payload(OK, 200, ADDRESS));
    for status in [0x01u8, 0x13, 0xFF] {
        let r = Device::new(ADDRESS, PASSWORD, false, &ack(&[status]), &sysparams);
        assert_eq!(r.err(), Some(Error::HandshakeFailed));
        let (handshake, _) = Handshake::start(ADDRESS, PASSWORD, false);
        match handshake.advance(&ack(&[status])) {
            Err(e) => assert_eq!(e, Error::HandshakeFailed),
            other => panic!("unexpected step: {:?}", other),
        }
    }
}

#[test]
fn refused_parameters_fail_the_construction() {
    let r = Device::new(
        ADDRESS,
        PASSWORD,
        false,
        &ack(&[OK]),
        &ack(&sysparam_payload(0x01, 200, ADDRESS)),
    );
    assert_eq!(r.err(), Some(Error::SysParamReadFailed));
    let (handshake, _) = Handshake::start(ADDRESS, PASSWORD, false);
    let handshake = match handshake.advance(&ack(&[OK])) {
        Ok(Progress::Continue { machine, .. }) => machine,
        other => panic!("unexpected step: {:?}", other),
    };
    match handshake.advance(&ack(&[0x01])) {
        Err(e) => assert_eq!(e, Error::SysParamReadFailed),
        other => panic!("unexpected step: {:?}", other),
    }
}

#[test]
fn short_parameter_report_fails_the_construction() {
    let mut payload = sysparam_payload(OK, 200, ADDRESS);
    payload.truncate(16);
    let r = Device::new(ADDRESS, PASSWORD, false, &ack(&[OK]), &ack(&payload));
    assert_eq!(r.err(), Some(Error::Protocol(ProtocolError::TruncatedFrame)));
}

#[test]
fn transport_failure_fails_the_construction() {
    let sysparams = ack(&sysparam_payload(OK, 200, ADDRESS));
    let r = Device::new(ADDRESS, PASSWORD, false, &Reply::TransportFailed, &sysparams);
    assert_eq!(r.err(), Some(Error::Transport));
    let r = Device::new(ADDRESS, PASSWORD, false, &ack(&[OK]), &Reply::TransportFailed);
    assert_eq!(r.err(), Some(Error::Transport));
}

#[test]
fn protocol_errors_fail_the_construction() {
    let sysparams = ack(&sysparam_payload(OK, 200, ADDRESS));
    let foreign = ack_from([1, 2, 3, 4], &[OK]);
    let r = Device::new(ADDRESS, PASSWORD, false, &foreign, &sysparams);
    assert_eq!(r.err(), Some(Error::Protocol(ProtocolError::AddressMismatch)));
    let garbage = Reply::Received(vec![0u8; 12]);
    let r = Device::new(ADDRESS, PASSWORD, false, &garbage, &sysparams);
    assert_eq!(r.err(), Some(Error::Protocol(ProtocolError::InvalidStartCode)));
    let command = Reply::Received(encode(&ADDRESS, COMMANDPACKET, &[OK]));
    let r = Device::new(ADDRESS, PASSWORD, false, &command, &sysparams);
    assert_eq!(r.err(), Some(Error::Protocol(ProtocolError::UnexpectedPacketType)));
    let empty = ack(&[]);
    let r = Device::new(ADDRESS, PASSWORD, false, &empty, &sysparams);
    assert_eq!(r.err(), Some(Error::Protocol(ProtocolError::TruncatedFrame)));
}

#[test]
fn strict_session_rejects_a_bad_checksum() {
    let mut frame = encode(&ADDRESS, ACKPACKET, &[OK]);
    frame[11] = frame[11].wrapping_add(1);
    let sysparams = ack(&sysparam_payload(OK, 200, ADDRESS));
    let strict = Device::new(ADDRESS, PASSWORD, true, &Reply::Received(frame.clone()), &sysparams);
    assert_eq!(strict.err(), Some(Error::Protocol(ProtocolError::ChecksumMismatch)));
    let lenient = Device::new(ADDRESS, PASSWORD, false, &Reply::Received(frame), &sysparams);
    assert!(lenient.is_ok());
}

#[test]
fn send_packet_frames_for_the_session_address() {
    let device = session();
    assert_eq!(
        device.send_packet(&[0x01]),
        vec![0xEF, 0x01, 0xFF, 0xFF, 0xFF, 0xFF, 0x01, 0x00, 0x03, 0x01, 0x00, 0x05]
    );
}

#[test]
fn get_packet_decodes_for_the_session_address() {
    let device = session();
    let frame = encode(&ADDRESS, ACKPACKET, &[0x00, 0x12, 0x34]);
    assert_eq!(device.get_packet(&frame), Ok(vec![0x00, 0x12, 0x34]));
    let foreign = encode(&[0, 0, 0, 0], ACKPACKET, &[0x00]);
    assert_eq!(device.get_packet(&foreign), Err(ProtocolError::AddressMismatch));
}

#[test]
fn request_frames_of_the_plain_commands() {
    let device = session();
    let checks: Vec<(Exchange, Command, Vec<u8>)> = vec![
        (device.verify_password(), Command::VerifyPassword, vec![VERIFYPASSWORD, 0, 0, 0, 0]),
        (device.read_sysparam(), Command::ReadSysParam, vec![READSYSPARAM]),
        (device.count_templates(), Command::TemplateCount, vec![TEMPLATECOUNT]),
        (device.get_image(), Command::GetImage, vec![GETIMAGE]),
        (device.image_2_tz(1), Command::Image2Tz, vec![IMAGE2TZ, 1]),
        (device.image_2_tz(2), Command::Image2Tz, vec![IMAGE2TZ, 2]),
        (device.create_model(), Command::CreateModel, vec![REGMODEL]),
        (device.store_model(0x0105, 1), Command::StoreModel, vec![STORE, 1, 0x01, 0x05]),
        (device.delete_model(0x0203), Command::DeleteModel, vec![DELETE, 0x02, 0x03, 0x00, 0x01]),
    ];
    for (exchange, command, payload) in checks {
        assert_eq!(exchange.command, command);
        assert_eq!(exchange.reply_len, command.reply_len());
        assert_eq!(exchange.frame, command_frame(&payload));
    }
}

#[test]
fn search_covers_the_whole_library() {
    let device = session_with(0x012C, false);
    let exchange = device.finger_search().expect("library size is known");
    assert_eq!(exchange.command, Command::FingerSearch);
    assert_eq!(exchange.reply_len, 16);
    assert_eq!(
        exchange.frame,
        command_frame(&[FINGERPRINTSEARCH, 0x01, 0x00, 0x00, 0x01, 0x2C])
    );
}

#[test]
fn search_needs_the_library_size() {
    assert_eq!(search_payload(FINGERPRINTSEARCH, None), Err(Error::LibrarySizeUnknown));
    assert_eq!(search_payload(HISPEEDSEARCH, None), Err(Error::LibrarySizeUnknown));
    assert_eq!(
        search_payload(HISPEEDSEARCH, Some(0x0203)),
        Ok(vec![HISPEEDSEARCH, 0x01, 0x00, 0x00, 0x02, 0x03])
    );
}

#[test]
fn status_passes_through_unchanged() {
    let plain = [
        Command::VerifyPassword,
        Command::GetImage,
        Command::Image2Tz,
        Command::CreateModel,
        Command::StoreModel,
        Command::DeleteModel,
    ];
    let mut device = session();
    for command in plain {
        for status in 0..=255u8 {
            assert_eq!(device.receive(command, &ack(&[status])), Ok(status));
        }
    }
    for command in [Command::FingerSearch, Command::FingerFastSearch] {
        for status in 0..=255u8 {
            assert_eq!(device.receive(command, &ack(&[status, 0, 1, 0, 2])), Ok(status));
        }
    }
}

#[test]
fn named_statuses_pass_through() {
    let mut device = session();
    assert_eq!(device.receive(Command::GetImage, &ack(&[NOFINGER])), Ok(NOFINGER));
    assert_eq!(device.receive(Command::GetImage, &ack(&[IMAGEFAIL])), Ok(IMAGEFAIL));
    assert_eq!(device.receive(Command::Image2Tz, &ack(&[IMAGEMESS])), Ok(IMAGEMESS));
    assert_eq!(device.receive(Command::Image2Tz, &ack(&[FEATUREFAIL])), Ok(FEATUREFAIL));
    assert_eq!(device.receive(Command::Image2Tz, &ack(&[INVALIDIMAGE])), Ok(INVALIDIMAGE));
    assert_eq!(device.receive(Command::CreateModel, &ack(&[ENROLLMISMATCH])), Ok(ENROLLMISMATCH));
    assert_eq!(device.receive(Command::StoreModel, &ack(&[BADLOCATION])), Ok(BADLOCATION));
    assert_eq!(device.receive(Command::StoreModel, &ack(&[FLASHERR])), Ok(FLASHERR));
}

#[test]
fn delete_on_an_empty_location_passes_the_status_through() {
    let mut device = session();
    let exchange = device.delete_model(7);
    assert_eq!(exchange.frame, command_frame(&[DELETE, 0x00, 0x07, 0x00, 0x01]));
    for status in [OK, 0x10, 0x0B, 0x01] {
        assert_eq!(device.receive(exchange.command, &ack(&[status])), Ok(status));
    }
    assert_eq!(device.library_size(), Some(200));
}

#[test]
fn replies_leave_the_session_alone_unless_they_report() {
    let mut device = session();
    assert_eq!(device.receive(Command::GetImage, &ack(&[OK, 9, 9, 9, 9])), Ok(OK));
    assert_eq!(device.finger_id(), 0);
    assert_eq!(device.confidence(), 0);
    assert_eq!(device.template_count(), 0);
    assert_eq!(device.library_size(), Some(200));
}

#[test]
fn transport_failure_surfaces_and_changes_nothing() {
    let mut device = session();
    assert_eq!(device.receive(Command::FingerSearch, &Reply::TransportFailed), Err(Error::Transport));
    assert_eq!(device.finger_id(), 0);
}

#[test]
fn unacceptable_reply_surfaces_as_protocol_error() {
    let mut device = session();
    let foreign = ack_from([0, 0, 0, 1], &[OK]);
    assert_eq!(
        device.receive(Command::GetImage, &foreign),
        Err(Error::Protocol(ProtocolError::AddressMismatch))
    );
    assert_eq!(
        device.receive(Command::GetImage, &Reply::Received(vec![0xEF, 0x01, 0xFF])),
        Err(Error::Protocol(ProtocolError::TruncatedFrame))
    );
    assert_eq!(
        device.receive(Command::GetImage, &ack(&[])),
        Err(Error::Protocol(ProtocolError::TruncatedFrame))
    );
}

#[test]
fn template_count_is_read_from_the_reply() {
    let mut device = session();
    let exchange = device.count_templates();
    assert_eq!(exchange.reply_len, 14);
    assert_eq!(device.receive(Command::TemplateCount, &ack(&[OK, 0x01, 0x02])), Ok(OK));
    assert_eq!(device.template_count(), 258);
}

#[test]
fn template_count_with_a_bad_status_fails_but_keeps_the_count() {
    let mut device = session();
    assert_eq!(
        device.receive(Command::TemplateCount, &ack(&[0x01, 0x00, 0x05])),
        Err(Error::CommandFailed { opcode: TEMPLATECOUNT, status: 0x01 })
    );
    assert_eq!(device.template_count(), 5);
}

#[test]
fn short_template_count_defaults_to_zero() {
    let mut device = session();
    assert_eq!(device.receive(Command::TemplateCount, &ack(&[OK, 0x00, 0x07])), Ok(OK));
    assert_eq!(device.template_count(), 7);
    assert_eq!(device.receive(Command::TemplateCount, &ack(&[OK, 0x09])), Ok(OK));
    assert_eq!(device.template_count(), 0);
    assert_eq!(
        device.receive(Command::TemplateCount, &ack(&[0x01])),
        Err(Error::CommandFailed { opcode: TEMPLATECOUNT, status: 0x01 })
    );
    assert_eq!(device.template_count(), 0);
}

#[test]
fn short_template_count_is_an_error_when_strict() {
    let mut device = session_with(200, true);
    assert_eq!(device.receive(Command::TemplateCount, &ack(&[OK, 0x00, 0x07])), Ok(OK));
    assert_eq!(
        device.receive(Command::TemplateCount, &ack(&[OK, 0x09])),
        Err(Error::Protocol(ProtocolError::TruncatedFrame))
    );
    assert_eq!(device.template_count(), 7);
}

#[test]
fn search_reply_reports_finger_and_confidence() {
    let mut device = session();
    assert_eq!(
        device.receive(Command::FingerSearch, &ack(&[OK, 0x00, 0x2A, 0x01, 0x90])),
        Ok(OK)
    );
    assert_eq!(device.finger_id(), 42);
    assert_eq!(device.confidence(), 400);
    assert_eq!(
        device.receive(Command::FingerSearch, &ack(&[0x09, 0x00, 0x00, 0x00, 0x00])),
        Ok(0x09)
    );
    assert_eq!(device.finger_id(), 0);
    assert_eq!(device.confidence(), 0);
}

#[test]
fn short_search_reply_is_truncated() {
    let mut device = session();
    assert_eq!(
        device.receive(Command::FingerSearch, &ack(&[OK, 0x00, 0x2A, 0x01])),
        Err(Error::Protocol(ProtocolError::TruncatedFrame))
    );
    assert_eq!(device.finger_id(), 0);
}

#[test]
fn parameter_read_updates_size_and_address() {
    let mut device = session();
    let moved = [0x10, 0x20, 0x30, 0x40];
    assert_eq!(
        device.receive(Command::ReadSysParam, &ack(&sysparam_payload(OK, 500, moved))),
        Ok(OK)
    );
    assert_eq!(device.library_size(), Some(500));
    assert_eq!(device.address(), moved);
    assert_eq!(device.get_image().frame, encode(&moved, COMMANDPACKET, &[GETIMAGE]));
    assert_eq!(
        device.receive(Command::GetImage, &ack(&[OK])),
        Err(Error::Protocol(ProtocolError::AddressMismatch))
    );
    assert_eq!(device.receive(Command::GetImage, &ack_from(moved, &[OK])), Ok(OK));
}

#[test]
fn refused_parameter_read_keeps_the_parameters() {
    let mut device = session();
    assert_eq!(
        device.receive(Command::ReadSysParam, &ack(&sysparam_payload(0x01, 500, [1, 1, 1, 1]))),
        Err(Error::SysParamReadFailed)
    );
    assert_eq!(device.library_size(), Some(200));
    assert_eq!(device.address(), ADDRESS);
}

#[test]
fn fast_search_refreshes_then_searches() {
    let mut device = session_with(100, false);
    let (search, first) = device.finger_fast_search();
    assert_eq!(search, FastSearch { refreshed: false });
    assert_eq!(first.command, Command::ReadSysParam);
    assert_eq!(first.frame, command_frame(&[READSYSPARAM]));
    let (search, second) =
        match search.advance(&mut device, &ack(&sysparam_payload(OK, 0x0140, ADDRESS))) {
            Ok(Progress::Continue { machine, exchange, pause }) => {
                assert!(!pause);
                (machine, exchange)
            }
            other => panic!("unexpected step: {:?}", other),
        };
    assert_eq!(device.library_size(), Some(320));
    assert_eq!(second.command, Command::FingerFastSearch);
    assert_eq!(second.reply_len, 16);
    assert_eq!(second.frame, command_frame(&[HISPEEDSEARCH, 0x01, 0x00, 0x00, 0x01, 0x40]));
    match search.advance(&mut device, &ack(&[OK, 0x00, 0x03, 0x00, 0x64])) {
        Ok(Progress::Done(status)) => assert_eq!(status, OK),
        other => panic!("unexpected step: {:?}", other),
    }
    assert_eq!(device.finger_id(), 3);
    assert_eq!(device.confidence(), 100);
}

#[test]
fn fast_search_ends_with_the_error_of_a_failed_refresh() {
    let failures: Vec<(Reply, Error)> = vec![
        (Reply::TransportFailed, Error::Transport),
        (ack(&[0x01]), Error::SysParamReadFailed),
        (ack(&sysparam_payload(0x01, 500, ADDRESS)), Error::SysParamReadFailed),
        (ack_from([1, 2, 3, 4], &[OK]), Error::Protocol(ProtocolError::AddressMismatch)),
        (Reply::Received(vec![0u8; 28]), Error::Protocol(ProtocolError::InvalidStartCode)),
        (ack(&[OK, 0, 0]), Error::Protocol(ProtocolError::TruncatedFrame)),
        (ack(&[]), Error::Protocol(ProtocolError::TruncatedFrame)),
    ];
    for (reply, expected) in failures {
        let mut device = session_with(100, false);
        let (search, first) = device.finger_fast_search();
        assert_eq!(first.command, Command::ReadSysParam);
        match search.advance(&mut device, &reply) {
            Err(e) => assert_eq!(e, expected),
            other => panic!("unexpected step: {:?}", other),
        }
        assert_eq!(device.library_size(), Some(100));
        assert_eq!(device.address(), ADDRESS);
        assert_eq!(device.finger_id(), 0);
        assert_eq!(device.confidence(), 0);
    }
}

#[test]
fn fast_search_surfaces_a_failed_search() {
    let mut device = session_with(100, false);
    let (search, _) = device.finger_fast_search();
    let search = match search.advance(&mut device, &ack(&sysparam_payload(OK, 100, ADDRESS))) {
        Ok(Progress::Continue { machine, .. }) => machine,
        other => panic!("unexpected step: {:?}", other),
    };
    assert_eq!(search, FastSearch { refreshed: true });
    match search.advance(&mut device, &Reply::TransportFailed) {
        Err(e) => assert_eq!(e, Error::Transport),
        other => panic!("unexpected step: {:?}", other),
    }
    let (search, _) = device.finger_fast_search();
    let search = match search.advance(&mut device, &ack(&sysparam_payload(OK, 100, ADDRESS))) {
        Ok(Progress::Continue { machine, .. }) => machine,
        other => panic!("unexpected step: {:?}", other),
    };
    match search.advance(&mut device, &ack(&[0x09, 0, 0, 0, 0])) {
        Ok(Progress::Done(status)) => assert_eq!(status, 0x09),
        other => panic!("unexpected step: {:?}", other),
    }
}

#[test]
fn empty_template_count_reply_resets_the_count_unless_strict() {
    let mut device = session();
    assert_eq!(device.receive(Command::TemplateCount, &ack(&[OK, 0x00, 0x07])), Ok(OK));
    assert_eq!(device.template_count(), 7);
    assert_eq!(
        device.receive(Command::TemplateCount, &ack(&[])),
        Err(Error::Protocol(ProtocolError::TruncatedFrame))
    );
    assert_eq!(device.template_count(), 0);

    let mut device = session_with(200, true);
    assert_eq!(device.receive(Command::TemplateCount, &ack(&[OK, 0x00, 0x07])), Ok(OK));
    assert_eq!(
        device.receive(Command::TemplateCount, &ack(&[])),
        Err(Error::Protocol(ProtocolError::TruncatedFrame))
    );
    assert_eq!(device.template_count(), 7);
}

#[test]
fn unacceptable_template_count_reply_keeps_the_count() {
    let mut device = session();
    assert_eq!(device.receive(Command::TemplateCount, &ack(&[OK, 0x00, 0x07])), Ok(OK));
    assert_eq!(
        device.receive(Command::TemplateCount, &Reply::TransportFailed),
        Err(Error::Transport)
    );
    assert_eq!(
        device.receive(Command::TemplateCount, &ack_from([0, 0, 0, 0], &[OK, 0, 1])),
        Err(Error::Protocol(ProtocolError::AddressMismatch))
    );
    assert_eq!(device.template_count(), 7);
}

#[test]
fn empty_reply_to_another_command_changes_nothing() {
    let mut device = session();
    assert_eq!(device.receive(Command::TemplateCount, &ack(&[OK, 0x00, 0x07])), Ok(OK));
    assert_eq!(
        device.receive(Command::GetImage, &ack(&[])),
        Err(Error::Protocol(ProtocolError::TruncatedFrame))
    );
    assert_eq!(device.template_count(), 7);
}
