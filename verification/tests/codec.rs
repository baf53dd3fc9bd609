use improv_rs::packet::{
    checksum, CurrentState, ErrorState, ImprovErr, ImprovPacket, RPCCommand, RPCResult,
    WifiSettings,
};

fn wifi(ssid: &str, psk: &str) -> WifiSettings {
    WifiSettings { ssid: ssid.as_bytes().to_vec(), psk: psk.as_bytes().to_vec() }
}

#[test]
fn decode_get_current_state() {
    let v: Vec<u8> = vec![
        0x49, 0x4D, 0x50, 0x52, 0x4F, 0x56, 0x01, 0x03, 0x02, 0x02, 0x00, 0xE5,
    ];
    assert_eq!(
        ImprovPacket::try_from(v),
        Ok(ImprovPacket::RPCCommand(RPCCommand::RequestCurrentState)),
    );
}

#[test]
fn build_get_current_state() {
    let p = ImprovPacket::RPCCommand(RPCCommand::RequestCurrentState);
    assert_eq!(
        vec![0x49, 0x4D, 0x50, 0x52, 0x4F, 0x56, 0x01, 0x03, 0x02, 0x02, 0x00, 0xE5],
        p.to_bytes(),
    );
}

#[test]
fn build_get_device_info() {
    let p = ImprovPacket::RPCCommand(RPCCommand::RequestDeviceInformation);
    assert_eq!(
        vec![0x49, 0x4D, 0x50, 0x52, 0x4F, 0x56, 0x01, 0x03, 0x02, 0x03, 0x00, 0xE6],
        p.to_bytes(),
    );
}

#[test]
fn build_get_networks() {
    let p = ImprovPacket::RPCCommand(RPCCommand::RequestScannedWifiNetworks);
    assert_eq!(
        vec![0x49, 0x4D, 0x50, 0x52, 0x4F, 0x56, 0x01, 0x03, 0x02, 0x04, 0x00, 0xE7],
        p.to_bytes(),
    );
}

#[test]
fn build_send_wifi() {
    let p = ImprovPacket::RPCCommand(RPCCommand::SendWifiSettings(wifi(
        "anthill",
        "ants in my pants",
    )));
    assert_eq!(
        vec![
            0x49, 0x4D, 0x50, 0x52, 0x4F, 0x56, 0x01, 0x03, 0x1B, 0x01, 0x19, 0x07, 0x61, 0x6E,
            0x74, 0x68, 0x69, 0x6C, 0x6C, 0x10, 0x61, 0x6E, 0x74, 0x73, 0x20, 0x69, 0x6E, 0x20,
            0x6D, 0x79, 0x20, 0x70, 0x61, 0x6E, 0x74, 0x73, 0x12
        ],
        p.to_bytes(),
    );
}

#[test]
fn decode_send_wifi() {
    let v: Vec<u8> = vec![
        0x49, 0x4D, 0x50, 0x52, 0x4F, 0x56, 0x01, 0x03, 0x1B, 0x01, 0x19, 0x07, 0x61, 0x6E, 0x74,
        0x68, 0x69, 0x6C, 0x6C, 0x10, 0x61, 0x6E, 0x74, 0x73, 0x20, 0x69, 0x6E, 0x20, 0x6D, 0x79,
        0x20, 0x70, 0x61, 0x6E, 0x74, 0x73, 0x12,
    ];
    assert_eq!(
        ImprovPacket::try_from(v),
        Ok(ImprovPacket::RPCCommand(RPCCommand::SendWifiSettings(wifi(
            "anthill",
            "ants in my pants",
        )))),
    );
}

#[test]
fn round_trip_current_state() {
    for s in [CurrentState::Ready, CurrentState::Provisioning, CurrentState::Provisioned] {
        let p = ImprovPacket::CurrentState(s.clone());
        assert_eq!(ImprovPacket::try_from(p.clone().to_bytes()), Ok(p));
    }
}

#[test]
fn round_trip_error_state() {
    for e in [
        ErrorState::NoError,
        ErrorState::InvalidRPCPacket,
        ErrorState::UnknownRPCCommand,
        ErrorState::UnableToConnect,
        ErrorState::UnknownError,
    ] {
        let p = ImprovPacket::ErrorState(e.clone());
        assert_eq!(ImprovPacket::try_from(p.clone().to_bytes()), Ok(p));
    }
}

#[test]
fn round_trip_commands() {
    let commands = [
        RPCCommand::RequestCurrentState,
        RPCCommand::RequestDeviceInformation,
        RPCCommand::RequestScannedWifiNetworks,
        RPCCommand::SendWifiSettings(wifi("anthill", "ants in my pants")),
        RPCCommand::SendWifiSettings(wifi("", "")),
    ];
    for c in commands {
        let p = ImprovPacket::RPCCommand(c);
        assert_eq!(ImprovPacket::try_from(p.clone().to_bytes()), Ok(p));
    }
}

#[test]
fn round_trip_largest_wifi() {
    // ssid and psk together at the 251-byte bound: the largest frame a
    // SendWifiSettings command can fill.
    let p = ImprovPacket::RPCCommand(RPCCommand::SendWifiSettings(WifiSettings {
        ssid: vec![0xAA; 200],
        psk: vec![0xBB; 51],
    }));
    let frame = p.clone().to_bytes();
    assert_eq!(frame.len(), 10 + 255);
    assert_eq!(frame[8], 0xFF);
    assert_eq!(ImprovPacket::try_from(frame), Ok(p));
}

#[test]
fn checksum_closes_every_encoded_frame() {
    let packets = [
        ImprovPacket::CurrentState(CurrentState::Ready),
        ImprovPacket::ErrorState(ErrorState::UnknownError),
        ImprovPacket::RPCCommand(RPCCommand::RequestCurrentState),
        ImprovPacket::RPCCommand(RPCCommand::SendWifiSettings(wifi("a", "b"))),
        ImprovPacket::RPCResult(RPCResult(vec![vec![1, 2], vec![3]])),
    ];
    for p in packets {
        let frame = p.to_bytes();
        let n = frame.len();
        assert_eq!(checksum(&frame[0..n - 1]), frame[n - 1]);
    }
}

#[test]
fn length_prefix_on_encoded_frames() {
    let packets = [
        ImprovPacket::CurrentState(CurrentState::Provisioned),
        ImprovPacket::RPCCommand(RPCCommand::SendWifiSettings(wifi("net", "secret"))),
        ImprovPacket::RPCResult(RPCResult(vec![])),
    ];
    for p in packets {
        let frame = p.to_bytes();
        assert_eq!(frame[8] as usize, frame.len() - 10);
    }
}

#[test]
fn mutated_length_prefix_is_rejected() {
    let mut v = ImprovPacket::RPCCommand(RPCCommand::RequestCurrentState).to_bytes();
    v[8] = v[8].wrapping_add(1);
    assert_eq!(ImprovPacket::try_from(v), Err(ImprovErr::BadLength));
}

#[test]
fn truncated_frame_is_rejected() {
    // Declared payload length exceeds the bytes actually present.
    let mut v = ImprovPacket::RPCCommand(RPCCommand::SendWifiSettings(wifi("abc", "def")))
        .to_bytes();
    v.truncate(v.len() - 4);
    assert_eq!(ImprovPacket::try_from(v), Err(ImprovErr::BadLength));
    // Too short to hold even the fixed header and checksum.
    let w: Vec<u8> = vec![0x49, 0x4D, 0x50, 0x52, 0x4F, 0x56, 0x01, 0x01];
    assert_eq!(ImprovPacket::try_from(w), Err(ImprovErr::BadLength));
}

#[test]
fn wrong_magic_is_rejected() {
    let mut v = ImprovPacket::RPCCommand(RPCCommand::RequestCurrentState).to_bytes();
    v[0] = 0x4A;
    assert_eq!(ImprovPacket::try_from(v), Err(ImprovErr::NotAnImprovPacket));
    assert_eq!(ImprovPacket::try_from(vec![]), Err(ImprovErr::NotAnImprovPacket));
    assert_eq!(
        ImprovPacket::try_from(vec![0x49, 0x4D, 0x50]),
        Err(ImprovErr::NotAnImprovPacket),
    );
}

#[test]
fn wrong_version_is_rejected() {
    let mut v = ImprovPacket::RPCCommand(RPCCommand::RequestCurrentState).to_bytes();
    v[6] = 0x02;
    assert_eq!(ImprovPacket::try_from(v), Err(ImprovErr::UnsupportedVersion));
}

#[test]
fn state_bytes_exhaustive() {
    for b in 0..=255u8 {
        let r = CurrentState::try_from(b);
        match b {
            0x02 => assert_eq!(r, Ok(CurrentState::Ready)),
            0x03 => assert_eq!(r, Ok(CurrentState::Provisioning)),
            0x04 => assert_eq!(r, Ok(CurrentState::Provisioned)),
            _ => assert_eq!(r, Err(ImprovErr::InvalidCurrentStateByte)),
        }
    }
}

#[test]
fn error_bytes_exhaustive() {
    for b in 0..=255u8 {
        let r = ErrorState::try_from(b);
        match b {
            0x00 => assert_eq!(r, Ok(ErrorState::NoError)),
            0x01 => assert_eq!(r, Ok(ErrorState::InvalidRPCPacket)),
            0x02 => assert_eq!(r, Ok(ErrorState::UnknownRPCCommand)),
            0x03 => assert_eq!(r, Ok(ErrorState::UnableToConnect)),
            0xFF => assert_eq!(r, Ok(ErrorState::UnknownError)),
            _ => assert_eq!(r, Err(ImprovErr::InvalidErrorStateByte)),
        }
    }
}

fn frame(tag: u8, payload: &[u8]) -> Vec<u8> {
    let mut v = b"IMPROV".to_vec();
    v.push(0x01);
    v.push(tag);
    v.push(payload.len() as u8);
    v.extend_from_slice(payload);
    let ck = checksum(&v);
    v.push(ck);
    v
}

#[test]
fn state_frames_exhaustive() {
    for b in 0..=255u8 {
        let r = ImprovPacket::try_from(frame(0x01, &[b]));
        match b {
            0x02 => assert_eq!(r, Ok(ImprovPacket::CurrentState(CurrentState::Ready))),
            0x03 => assert_eq!(r, Ok(ImprovPacket::CurrentState(CurrentState::Provisioning))),
            0x04 => assert_eq!(r, Ok(ImprovPacket::CurrentState(CurrentState::Provisioned))),
            _ => assert_eq!(r, Err(ImprovErr::InvalidCurrentStateByte)),
        }
    }
}

#[test]
fn error_frames_exhaustive() {
    for b in 0..=255u8 {
        let r = ImprovPacket::try_from(frame(0x02, &[b]));
        match b {
            0x00 => assert_eq!(r, Ok(ImprovPacket::ErrorState(ErrorState::NoError))),
            0x01 => assert_eq!(r, Ok(ImprovPacket::ErrorState(ErrorState::InvalidRPCPacket))),
            0x02 => assert_eq!(r, Ok(ImprovPacket::ErrorState(ErrorState::UnknownRPCCommand))),
            0x03 => assert_eq!(r, Ok(ImprovPacket::ErrorState(ErrorState::UnableToConnect))),
            0xFF => assert_eq!(r, Ok(ImprovPacket::ErrorState(ErrorState::UnknownError))),
            _ => assert_eq!(r, Err(ImprovErr::InvalidErrorStateByte)),
        }
    }
}

#[test]
fn unknown_opcode_is_rejected() {
    assert_eq!(
        ImprovPacket::try_from(frame(0x03, &[0x07, 0x00])),
        Err(ImprovErr::InvalidRPCCommand),
    );
}

#[test]
fn wifi_subpayload_length_mismatch_is_rejected() {
    // Declared sub-payload length does not match the remaining byte count.
    assert_eq!(
        ImprovPacket::try_from(frame(0x03, &[0x01, 0x05, 0x00, 0x00])),
        Err(ImprovErr::BadLength),
    );
    // Declared ssid length runs past the end of the sub-payload.
    assert_eq!(
        ImprovPacket::try_from(frame(0x03, &[0x01, 0x02, 0xF0, 0x00])),
        Err(ImprovErr::BadLength),
    );
    // ssid and psk lengths do not add up to the sub-payload length.
    assert_eq!(
        ImprovPacket::try_from(frame(0x03, &[0x01, 0x04, 0x01, 0x61, 0x05, 0x62])),
        Err(ImprovErr::BadLength),
    );
}

#[test]
fn result_and_undefined_tags_go_away() {
    assert_eq!(
        ImprovPacket::try_from(frame(0x04, &[0x01, 0x2A])),
        Err(ImprovErr::GoAway),
    );
    assert_eq!(ImprovPacket::try_from(frame(0x05, &[])), Err(ImprovErr::GoAway));
    assert_eq!(ImprovPacket::try_from(frame(0x00, &[])), Err(ImprovErr::GoAway));
}

#[test]
fn build_rpc_result() {
    let p = ImprovPacket::RPCResult(RPCResult(vec![vec![0x01, 0x02], vec![0x03]]));
    assert_eq!(
        vec![
            0x49, 0x4D, 0x50, 0x52, 0x4F, 0x56, 0x01, 0x04, 0x05, 0x02, 0x01, 0x02, 0x01, 0x03,
            0xF0
        ],
        p.to_bytes(),
    );
}

#[test]
fn build_empty_rpc_result() {
    let p = ImprovPacket::RPCResult(RPCResult(vec![]));
    let frame = p.to_bytes();
    assert_eq!(frame[8], 0x00);
    assert_eq!(frame.len(), 10);
}

#[test]
fn decode_ignores_checksum() {
    // The checksum byte is carried but not verified on decode: a deliberate,
    // documented protocol gap.
    let mut v = ImprovPacket::RPCCommand(RPCCommand::RequestCurrentState).to_bytes();
    let n = v.len();
    v[n - 1] = v[n - 1].wrapping_add(1);
    assert_eq!(
        ImprovPacket::try_from(v),
        Ok(ImprovPacket::RPCCommand(RPCCommand::RequestCurrentState)),
    );
}
