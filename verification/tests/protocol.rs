use nokozero::ipc::{
    CMD_ACT, CMD_RESET, CMD_TAPE, Command, CommandBuf, MAX_CMD, MAX_TAPE_FRAMES, ObsFrame,
    ProtocolError, decode_command, frame_body_len, CONNECT_ATTEMPTS, DialAction, DialOutcome,
    connect_step,
};
use nokozero::practice::{FLAG_RECORD, PARAMS_LEN, RECORD_LEN};

fn params_block(flags: u32) -> Vec<u8> {
    let mut b = vec![0u8; PARAMS_LEN];
    b[24..28].copy_from_slice(&400i32.to_le_bytes());
    b[48..52].copy_from_slice(&3i32.to_le_bytes());
    b[60..64].copy_from_slice(&3u32.to_le_bytes());
    b[64..68].copy_from_slice(&flags.to_le_bytes());
    b
}

fn body(tag: u8, payload: &[u8]) -> Vec<u8> {
    let mut b = vec![tag];
    b.extend_from_slice(payload);
    b
}

#[test]
fn act_decodes_and_checks_mask() {
    match decode_command(&body(CMD_ACT, &0x11u32.to_le_bytes())) {
        Ok(Command::Act(a)) => assert_eq!(a.bits(), 0x11),
        _ => panic!("an ACT"),
    }
    assert_eq!(decode_command(&body(CMD_ACT, &[1, 0, 0])).err(), Some(ProtocolError::BadActLength));
    assert_eq!(
        decode_command(&body(CMD_ACT, &0x4u32.to_le_bytes())).err(),
        Some(ProtocolError::ActOutsideMask)
    );
    assert_eq!(decode_command(&[]).err(), Some(ProtocolError::EmptyBody));
    assert_eq!(decode_command(&[9]).err(), Some(ProtocolError::UnknownTag));
}

#[test]
fn reset_decodes_with_and_without_record() {
    let mut p = 7u32.to_le_bytes().to_vec();
    p.extend(params_block(0));
    match decode_command(&body(CMD_RESET, &p)) {
        Ok(Command::Reset { seq, params, record }) => {
            assert_eq!(seq, 7);
            assert_eq!(params.power, 400);
            assert!(record.is_none());
        }
        _ => panic!("a RESET"),
    }
    let mut extra = p.clone();
    extra.push(0);
    assert_eq!(decode_command(&body(CMD_RESET, &extra)).err(), Some(ProtocolError::BadResetLength));
    assert_eq!(
        decode_command(&body(CMD_RESET, &p[..p.len() - 1])).err(),
        Some(ProtocolError::BadResetLength)
    );

    let mut r = 8u32.to_le_bytes().to_vec();
    r.extend(params_block(FLAG_RECORD));
    assert_eq!(decode_command(&body(CMD_RESET, &r)).err(), Some(ProtocolError::BadRecordLength));
    r.extend(vec![5u8; RECORD_LEN]);
    match decode_command(&body(CMD_RESET, &r)) {
        Ok(Command::Reset { record: Some(rec), .. }) => assert_eq!(rec, vec![5u8; RECORD_LEN]),
        _ => panic!("a RESET with a record"),
    }

    let mut bad = 1u32.to_le_bytes().to_vec();
    let mut block = params_block(0);
    block[48..52].copy_from_slice(&7i32.to_le_bytes());
    bad.extend(block);
    assert_eq!(decode_command(&body(CMD_RESET, &bad)).err(), Some(ProtocolError::ResetParamsInvalid));
}

#[test]
fn tape_decodes_each_frame() {
    let mut p = 3u32.to_le_bytes().to_vec();
    p.extend([0x01, 0x00, 0x10, 0x00, 0xfb, 0x00]);
    match decode_command(&body(CMD_TAPE, &p)) {
        Ok(Command::Tape(t)) => {
            let bits: Vec<u32> = t.iter().map(|a| a.bits()).collect();
            assert_eq!(bits, vec![0x01, 0x10, 0xfb]);
        }
        _ => panic!("a TAPE"),
    }
    let mut outside = 1u32.to_le_bytes().to_vec();
    outside.extend([0x04, 0x00]);
    assert_eq!(decode_command(&body(CMD_TAPE, &outside)).err(), Some(ProtocolError::TapeOutsideMask));
    let mut zero = 0u32.to_le_bytes().to_vec();
    zero.extend([0x01, 0x00]);
    assert_eq!(decode_command(&body(CMD_TAPE, &zero)).err(), Some(ProtocolError::BadTapeLength));
    let too_many = ((MAX_TAPE_FRAMES + 1) as u32).to_le_bytes().to_vec();
    assert_eq!(decode_command(&body(CMD_TAPE, &too_many)).err(), Some(ProtocolError::BadTapeLength));
    assert_eq!(decode_command(&body(CMD_TAPE, &[1, 0])).err(), Some(ProtocolError::BadTapeLength));
}

#[test]
fn frames_and_buffers() {
    assert_eq!(frame_body_len(0, 10), Err(ProtocolError::BadFrameLength));
    assert_eq!(frame_body_len(11, 10), Err(ProtocolError::BadFrameLength));
    assert_eq!(frame_body_len(10, 10), Ok(10));
    let buf = CommandBuf::new();
    assert_eq!(buf.body.len(), MAX_CMD);
    assert!(MAX_CMD >= 1 + 4 + PARAMS_LEN + RECORD_LEN);

    let mut obs = ObsFrame::begin(vec![1, 2, 3]);
    obs.payload().extend_from_slice(&[0xaa, 0xbb]);
    let frame = obs.finish(1).expect("small frame");
    assert_eq!(frame, vec![3, 0, 0, 0, 1, 0xaa, 0xbb]);

    let mut big = ObsFrame::begin(Vec::new());
    big.payload().resize(5 + 0x10_0001, 0);
    assert_eq!(big.finish(1).err(), Some(ProtocolError::FrameTooLarge));
}

#[test]
fn connector_retries_until_the_deadline() {
    assert_eq!(connect_step(0, DialOutcome::Connected), DialAction::Publish);
    assert_eq!(connect_step(0, DialOutcome::Refused), DialAction::AbortRefused);
    assert_eq!(connect_step(0, DialOutcome::Failed), DialAction::Retry);
    assert_eq!(connect_step(CONNECT_ATTEMPTS - 2, DialOutcome::Failed), DialAction::Retry);
    assert_eq!(connect_step(CONNECT_ATTEMPTS - 1, DialOutcome::Failed), DialAction::AbortDeadline);
    assert_eq!(connect_step(CONNECT_ATTEMPTS - 1, DialOutcome::Connected), DialAction::Publish);
}
