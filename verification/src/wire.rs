//! Mathematical model of the Improv wire format.
//!
//! Ghost mirrors of the packet types (with `Seq<u8>` in place of `Vec<u8>`)
//! and specification functions that give the exact byte sequence of every
//! frame, together with the specification of decoding.

use crate::packet::{CurrentState, ErrorState, ImprovErr};
use vstd::prelude::*;

verus! {

/// The one protocol version this codec speaks (byte at offset 6 of a frame).
pub const IMPROV_VERSION: u8 = 0x01;

/// Ghost view of Wi-Fi credentials: the raw SSID and passphrase bytes.
#[verifier::ext_equal]
pub struct SpecWifiSettings {
    pub ssid: Seq<u8>,
    pub psk: Seq<u8>,
}

/// Ghost view of an RPC command.
#[verifier::ext_equal]
pub enum SpecCommand {
    SendWifiSettings(SpecWifiSettings),
    RequestCurrentState,
    RequestDeviceInformation,
    RequestScannedWifiNetworks,
}

/// Ghost view of a packet.
#[verifier::ext_equal]
pub enum SpecPacket {
    CurrentState(CurrentState),
    ErrorState(ErrorState),
    RPCCommand(SpecCommand),
    RPCResult(Seq<Seq<u8>>),
}

/// The six ASCII bytes "IMPROV" that open every frame.
pub open spec fn spec_magic() -> Seq<u8> {
    seq![0x49u8, 0x4Du8, 0x50u8, 0x52u8, 0x4Fu8, 0x56u8]
}

/// Wire byte of a device state.
pub open spec fn state_byte(s: CurrentState) -> u8 {
    match s {
        CurrentState::Ready => 0x02,
        CurrentState::Provisioning => 0x03,
        CurrentState::Provisioned => 0x04,
    }
}

/// Decoding of a device-state byte: exactly the three defined bytes succeed.
pub open spec fn spec_state_of(b: u8) -> Result<CurrentState, ImprovErr> {
    if b == 0x02 {
        Ok(CurrentState::Ready)
    } else if b == 0x03 {
        Ok(CurrentState::Provisioning)
    } else if b == 0x04 {
        Ok(CurrentState::Provisioned)
    } else {
        Err(ImprovErr::InvalidCurrentStateByte)
    }
}

/// Wire byte of a device error.
pub open spec fn error_byte(e: ErrorState) -> u8 {
    match e {
        ErrorState::NoError => 0x00,
        ErrorState::InvalidRPCPacket => 0x01,
        ErrorState::UnknownRPCCommand => 0x02,
        ErrorState::UnableToConnect => 0x03,
        ErrorState::UnknownError => 0xFF,
    }
}

/// Decoding of a device-error byte: exactly the five defined bytes succeed.
pub open spec fn spec_error_of(b: u8) -> Result<ErrorState, ImprovErr> {
    if b == 0x00 {
        Ok(ErrorState::NoError)
    } else if b == 0x01 {
        Ok(ErrorState::InvalidRPCPacket)
    } else if b == 0x02 {
        Ok(ErrorState::UnknownRPCCommand)
    } else if b == 0x03 {
        Ok(ErrorState::UnableToConnect)
    } else if b == 0xFF {
        Ok(ErrorState::UnknownError)
    } else {
        Err(ImprovErr::InvalidErrorStateByte)
    }
}

/// Sub-payload of a SendWifiSettings command: length-prefixed SSID, then
/// length-prefixed passphrase.
pub open spec fn wifi_bytes(w: SpecWifiSettings) -> Seq<u8> {
    seq![w.ssid.len() as u8] + w.ssid + seq![w.psk.len() as u8] + w.psk
}

/// Payload of an RPC-command packet: opcode, sub-payload length, sub-payload.
/// The three request commands carry an empty sub-payload.
pub open spec fn command_bytes(c: SpecCommand) -> Seq<u8> {
    match c {
        SpecCommand::SendWifiSettings(w) => seq![
            0x01u8,
            wifi_bytes(w).len() as u8,
        ] + wifi_bytes(w),
        SpecCommand::RequestCurrentState => seq![0x02u8, 0x00u8],
        SpecCommand::RequestDeviceInformation => seq![0x03u8, 0x00u8],
        SpecCommand::RequestScannedWifiNetworks => seq![0x04u8, 0x00u8],
    }
}

/// Payload of an RPC-result packet: each element in order, each prefixed by
/// one byte giving its own length.
pub open spec fn chunks_bytes(rs: Seq<Seq<u8>>) -> Seq<u8>
    decreases rs.len(),
{
    if rs.len() == 0 {
        Seq::empty()
    } else {
        chunks_bytes(rs.drop_last()) + seq![rs.last().len() as u8] + rs.last()
    }
}

/// Fixed one-byte type tag of each packet category (byte at offset 7).
pub open spec fn type_tag(p: SpecPacket) -> u8 {
    match p {
        SpecPacket::CurrentState(_) => 0x01,
        SpecPacket::ErrorState(_) => 0x02,
        SpecPacket::RPCCommand(_) => 0x03,
        SpecPacket::RPCResult(_) => 0x04,
    }
}

/// Type-specific payload of a packet (bytes 9 .. 9+N of the frame).
pub open spec fn payload_bytes(p: SpecPacket) -> Seq<u8> {
    match p {
        SpecPacket::CurrentState(s) => seq![state_byte(s)],
        SpecPacket::ErrorState(e) => seq![error_byte(e)],
        SpecPacket::RPCCommand(c) => command_bytes(c),
        SpecPacket::RPCResult(rs) => chunks_bytes(rs),
    }
}

/// Unsigned 8-bit wraparound sum of a byte sequence.
pub open spec fn sum_bytes(s: Seq<u8>) -> u8
    decreases s.len(),
{
    if s.len() == 0 {
        0u8
    } else {
        ((sum_bytes(s.drop_last()) + s.last()) % 256) as u8
    }
}

/// Everything of a frame but its checksum byte: magic, version, type tag,
/// payload length, payload.
pub open spec fn frame_body(p: SpecPacket) -> Seq<u8> {
    spec_magic() + seq![IMPROV_VERSION, type_tag(p), payload_bytes(p).len() as u8]
        + payload_bytes(p)
}

/// The complete frame of a packet: body plus its wraparound checksum.
pub open spec fn frame_bytes(p: SpecPacket) -> Seq<u8> {
    frame_body(p) + seq![sum_bytes(frame_body(p))]
}

/// Wi-Fi credentials the codec can frame: each field fits its one-byte length
/// prefix and the whole command payload (opcode, sub-payload length, and the
/// two length prefixes on top of the field bytes) fits the frame's one-byte
/// payload length.
pub open spec fn wf_wifi(w: SpecWifiSettings) -> bool {
    w.ssid.len() + w.psk.len() + 4 <= 255
}

/// An RPC command the codec can frame.
pub open spec fn wf_command(c: SpecCommand) -> bool {
    match c {
        SpecCommand::SendWifiSettings(w) => wf_wifi(w),
        _ => true,
    }
}

/// An RPC result the codec can frame: each element fits its one-byte length
/// prefix and the concatenated payload fits the frame's one-byte length.
pub open spec fn wf_result(rs: Seq<Seq<u8>>) -> bool {
    &&& forall|i: int| 0 <= i < rs.len() ==> #[trigger] rs[i].len() <= 255
    &&& chunks_bytes(rs).len() <= 255
}

/// A packet the codec can frame.
pub open spec fn wf_packet(p: SpecPacket) -> bool {
    match p {
        SpecPacket::CurrentState(_) => true,
        SpecPacket::ErrorState(_) => true,
        SpecPacket::RPCCommand(c) => wf_command(c),
        SpecPacket::RPCResult(rs) => wf_result(rs),
    }
}

/// Decoding of an RPC-command payload `d` (opcode through sub-payload; the
/// frame's checksum byte is already stripped).  Every length read from the
/// input is checked against the bytes actually present, so no offset derived
/// from peer-controlled data is ever out of range.
pub open spec fn spec_decode_command(d: Seq<u8>) -> Result<SpecCommand, ImprovErr> {
    if d.len() < 1 {
        Err(ImprovErr::BadLength)
    } else if d[0] == 0x01 {
        if d.len() < 3 || d[1] as int != d.len() - 2 {
            Err(ImprovErr::BadLength)
        } else if 4 + d[2] as int > d.len() {
            Err(ImprovErr::BadLength)
        } else if 4 + d[2] as int + d[3 + d[2] as int] as int != d.len() {
            Err(ImprovErr::BadLength)
        } else {
            Ok(SpecCommand::SendWifiSettings(SpecWifiSettings {
                ssid: d.subrange(3, 3 + d[2] as int),
                psk: d.subrange(4 + d[2] as int, d.len() as int),
            }))
        }
    } else if d[0] == 0x02 {
        Ok(SpecCommand::RequestCurrentState)
    } else if d[0] == 0x03 {
        Ok(SpecCommand::RequestDeviceInformation)
    } else if d[0] == 0x04 {
        Ok(SpecCommand::RequestScannedWifiNetworks)
    } else {
        Err(ImprovErr::InvalidRPCCommand)
    }
}

/// Decoding of a complete frame: magic, then version, then declared payload
/// length, then dispatch on the type tag — the first failing check names the
/// error.  Two deliberate, documented protocol gaps: the checksum byte is
/// carried but not verified, and RPC-result frames (which flow from the
/// device to the host) are not decoded and are answered with `GoAway`.
pub open spec fn spec_decode(b: Seq<u8>) -> Result<SpecPacket, ImprovErr> {
    if b.len() < 6 || b.subrange(0, 6) != spec_magic() {
        Err(ImprovErr::NotAnImprovPacket)
    } else if 7 <= b.len() && b[6] != IMPROV_VERSION {
        Err(ImprovErr::UnsupportedVersion)
    } else if b.len() < 10 || b[8] as int != b.len() - 10 {
        Err(ImprovErr::BadLength)
    } else if b[7] == 0x01 {
        match spec_state_of(b[9]) {
            Ok(s) => Ok(SpecPacket::CurrentState(s)),
            Err(e) => Err(e),
        }
    } else if b[7] == 0x02 {
        match spec_error_of(b[9]) {
            Ok(e) => Ok(SpecPacket::ErrorState(e)),
            Err(e) => Err(e),
        }
    } else if b[7] == 0x03 {
        match spec_decode_command(b.subrange(9, b.len() - 1)) {
            Ok(c) => Ok(SpecPacket::RPCCommand(c)),
            Err(e) => Err(e),
        }
    } else {
        Err(ImprovErr::GoAway)
    }
}

} // verus!
