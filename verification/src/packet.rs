//! Packet types and the verified encode/decode functions.
//!
//! Each executable type views to its ghost mirror in [`crate::wire`], and
//! every function's contract is stated over those views and the wire-format
//! specification functions.

use crate::wire::{
    chunks_bytes, command_bytes, error_byte, frame_body, frame_bytes, payload_bytes,
    spec_decode, spec_decode_command, spec_error_of, spec_magic, spec_state_of, state_byte,
    sum_bytes, type_tag, wf_command, wf_packet, wifi_bytes, SpecCommand, SpecPacket,
    SpecWifiSettings, IMPROV_VERSION,
};
use vstd::prelude::*;

verus! {

/// Device lifecycle state reported by a CurrentState packet.
#[derive(Clone, Debug, Eq, PartialEq, Structural)]
pub enum CurrentState {
    Ready,
    Provisioning,
    Provisioned,
}

/// Device fault condition reported by an ErrorState packet.
#[derive(Clone, Debug, Eq, PartialEq, Structural)]
pub enum ErrorState {
    NoError,
    InvalidRPCPacket,
    UnknownRPCCommand,
    UnableToConnect,
    UnknownError,
}

/// Why a byte sequence was rejected by decoding.  Each variant names exactly
/// one violated precondition; `GoAway` answers frames whose type tag has no
/// decode path (RPC results and undefined tags).
#[derive(Clone, Debug, Eq, PartialEq, Structural)]
pub enum ImprovErr {
    InvalidCurrentStateByte,
    InvalidErrorStateByte,
    InvalidRPCCommand,
    NotAnImprovPacket,
    BadLength,
    UnsupportedVersion,
    GoAway,
}

/// Wi-Fi credentials carried by a SendWifiSettings command.  The codec treats
/// SSID and passphrase as opaque bytes, preserved byte for byte on the wire;
/// each is length-prefixed by a single byte, so each must stay within 255
/// bytes (see [`crate::wire::wf_wifi`]).
#[derive(Clone, Debug, Eq, PartialEq)]
pub struct WifiSettings {
    pub ssid: Vec<u8>,
    pub psk: Vec<u8>,
}

impl View for WifiSettings {
    type V = SpecWifiSettings;

    open spec fn view(&self) -> SpecWifiSettings {
        SpecWifiSettings { ssid: self.ssid@, psk: self.psk@ }
    }
}

/// A command sent to the device.
#[derive(Clone, Debug, Eq, PartialEq)]
pub enum RPCCommand {
    SendWifiSettings(WifiSettings),
    RequestCurrentState,
    RequestDeviceInformation,
    RequestScannedWifiNetworks,
}

impl View for RPCCommand {
    type V = SpecCommand;

    open spec fn view(&self) -> SpecCommand {
        match self {
            RPCCommand::SendWifiSettings(w) => SpecCommand::SendWifiSettings(w@),
            RPCCommand::RequestCurrentState => SpecCommand::RequestCurrentState,
            RPCCommand::RequestDeviceInformation => SpecCommand::RequestDeviceInformation,
            RPCCommand::RequestScannedWifiNetworks => SpecCommand::RequestScannedWifiNetworks,
        }
    }
}

/// A multi-value result returned from the device: a list of byte strings,
/// each length-prefixed on the wire.
#[derive(Clone, Debug, Eq, PartialEq)]
pub struct RPCResult(pub Vec<Vec<u8>>);

impl View for RPCResult {
    type V = Seq<Seq<u8>>;

    open spec fn view(&self) -> Seq<Seq<u8>> {
        self.0@.map_values(|v: Vec<u8>| v@)
    }
}

/// One complete protocol message.
#[derive(Clone, Debug, Eq, PartialEq)]
pub enum ImprovPacket {
    CurrentState(CurrentState),
    ErrorState(ErrorState),
    RPCCommand(RPCCommand),
    RPCResult(RPCResult),
}

impl View for ImprovPacket {
    type V = SpecPacket;

    open spec fn view(&self) -> SpecPacket {
        match self {
            ImprovPacket::CurrentState(s) => SpecPacket::CurrentState(*s),
            ImprovPacket::ErrorState(e) => SpecPacket::ErrorState(*e),
            ImprovPacket::RPCCommand(c) => SpecPacket::RPCCommand(c@),
            ImprovPacket::RPCResult(r) => SpecPacket::RPCResult(r@),
        }
    }
}

/// Ghost view of a decode outcome, for stating decode contracts.
pub open spec fn view_packet_result(r: Result<ImprovPacket, ImprovErr>) -> Result<
    SpecPacket,
    ImprovErr,
> {
    match r {
        Ok(p) => Ok(p@),
        Err(e) => Err(e),
    }
}

/// Ghost view of a command-decode outcome.
pub open spec fn view_command_result(r: Result<RPCCommand, ImprovErr>) -> Result<
    SpecCommand,
    ImprovErr,
> {
    match r {
        Ok(c) => Ok(c@),
        Err(e) => Err(e),
    }
}

impl CurrentState {
    /// Wire byte of this state.
    pub fn to_byte(&self) -> (r: u8)
        ensures
            r == state_byte(*self),
    {
        match self {
            CurrentState::Ready => 0x02,
            CurrentState::Provisioning => 0x03,
            CurrentState::Provisioned => 0x04,
        }
    }

    /// Decode a device-state byte: exactly 0x02, 0x03 and 0x04 succeed, every
    /// other byte is InvalidCurrentStateByte.
    pub fn try_from(b: u8) -> (r: Result<CurrentState, ImprovErr>)
        ensures
            r == spec_state_of(b),
    {
        if b == 0x02 {
            Ok(CurrentState::Ready)
        } else if b == 0x03 {
            Ok(CurrentState::Provisioning)
        } else if b == 0x04 {
            Ok(CurrentState::Provisioned)
        } else {
            Err(ImprovErr::InvalidCurrentStateByte)
        }
    }
}

impl ErrorState {
    /// Wire byte of this error.
    pub fn to_byte(&self) -> (r: u8)
        ensures
            r == error_byte(*self),
    {
        match self {
            ErrorState::NoError => 0x00,
            ErrorState::InvalidRPCPacket => 0x01,
            ErrorState::UnknownRPCCommand => 0x02,
            ErrorState::UnableToConnect => 0x03,
            ErrorState::UnknownError => 0xFF,
        }
    }

    /// Decode a device-error byte: exactly 0x00..0x03 and 0xFF succeed, every
    /// other byte is InvalidErrorStateByte.
    pub fn try_from(b: u8) -> (r: Result<ErrorState, ImprovErr>)
        ensures
            r == spec_error_of(b),
    {
        if b == 0x00 {
            Ok(ErrorState::NoError)
        } else if b == 0x01 {
            Ok(ErrorState::InvalidRPCPacket)
        } else if b == 0x02 {
            Ok(ErrorState::UnknownRPCCommand)
        } else if b == 0x03 {
            Ok(ErrorState::UnableToConnect)
        } else if b == 0xFF {
            Ok(ErrorState::UnknownError)
        } else {
            Err(ImprovErr::InvalidErrorStateByte)
        }
    }
}

/// Unsigned 8-bit wraparound sum of the given bytes: the checksum that closes
/// every frame.
pub fn checksum(data: &[u8]) -> (r: u8)
    ensures
        r == sum_bytes(data@),
{
    let mut s: u8 = 0;
    let mut i: usize = 0;
    while i < data.len()
        invariant
            i <= data@.len(),
            s == sum_bytes(data@.take(i as int)),
        decreases data@.len() - i,
    {
        let b = data[i];
        proof {
            assert(data@.take(i as int + 1).drop_last() =~= data@.take(i as int));
            assert(data@.take(i as int + 1).last() == b);
        }
        s = ((s as u16 + b as u16) % 256) as u8;
        i = i + 1;
    }
    proof {
        assert(data@.take(data@.len() as int) =~= data@);
    }
    s
}

/// Append every byte of `src` to `dst`.
fn push_all(dst: &mut Vec<u8>, src: &[u8])
    ensures
        final(dst)@ == old(dst)@ + src@,
{
    let mut i: usize = 0;
    while i < src.len()
        invariant
            i <= src@.len(),
            dst@ == old(dst)@ + src@.take(i as int),
        decreases src@.len() - i,
    {
        dst.push(src[i]);
        i = i + 1;
        proof {
            assert(old(dst)@ + src@.take(i as int) =~= (old(dst)@ + src@.take(
                i as int - 1,
            )).push(src@[i as int - 1]));
        }
    }
    proof {
        assert(src@.take(src@.len() as int) =~= src@);
    }
}

impl WifiSettings {
    /// Serialize: one length byte then the SSID bytes, one length byte then
    /// the passphrase bytes.
    pub fn to_bytes(&self) -> (r: Vec<u8>)
        requires
            self.ssid@.len() <= 255,
            self.psk@.len() <= 255,
        ensures
            r@ == wifi_bytes(self@),
    {
        let mut r: Vec<u8> = Vec::new();
        r.push(self.ssid.len() as u8);
        push_all(&mut r, self.ssid.as_slice());
        r.push(self.psk.len() as u8);
        push_all(&mut r, self.psk.as_slice());
        proof {
            assert(r@ =~= wifi_bytes(self@));
        }
        r
    }
}

impl RPCCommand {
    /// Serialize this command into a packet payload: opcode, sub-payload
    /// length, sub-payload (empty for the three request commands).
    pub fn inner(self) -> (r: Vec<u8>)
        requires
            wf_command(self@),
        ensures
            r@ == command_bytes(self@),
    {
        let ghost c = self@;
        match self {
            RPCCommand::SendWifiSettings(w) => {
                let sub = w.to_bytes();
                let mut r: Vec<u8> = Vec::new();
                r.push(0x01);
                r.push(sub.len() as u8);
                push_all(&mut r, sub.as_slice());
                proof {
                    assert(r@ =~= command_bytes(c));
                }
                r
            },
            RPCCommand::RequestCurrentState => {
                let mut r: Vec<u8> = Vec::new();
                r.push(0x02);
                r.push(0x00);
                proof {
                    assert(r@ =~= command_bytes(c));
                }
                r
            },
            RPCCommand::RequestDeviceInformation => {
                let mut r: Vec<u8> = Vec::new();
                r.push(0x03);
                r.push(0x00);
                proof {
                    assert(r@ =~= command_bytes(c));
                }
                r
            },
            RPCCommand::RequestScannedWifiNetworks => {
                let mut r: Vec<u8> = Vec::new();
                r.push(0x04);
                r.push(0x00);
                proof {
                    assert(r@ =~= command_bytes(c));
                }
                r
            },
        }
    }
}

impl RPCResult {
    /// Serialize this result into a packet payload: each element in order,
    /// each prefixed by one byte giving its own length.
    pub fn inner(self) -> (r: Vec<u8>)
        requires
            forall|i: int| 0 <= i < self@.len() ==> #[trigger] self@[i].len() <= 255,
        ensures
            r@ == chunks_bytes(self@),
    {
        let ghost m = self@;
        let mut r: Vec<u8> = Vec::new();
        let mut i: usize = 0;
        while i < self.0.len()
            invariant
                i <= self.0@.len(),
                m == self@,
                m.len() == self.0@.len(),
                forall|j: int| 0 <= j < m.len() ==> #[trigger] m[j].len() <= 255,
                forall|j: int| 0 <= j < m.len() ==> m[j] == self.0@[j]@,
                r@ == chunks_bytes(m.take(i as int)),
            decreases self.0@.len() - i,
        {
            let elem = &self.0[i];
            r.push(elem.len() as u8);
            push_all(&mut r, elem.as_slice());
            i = i + 1;
            proof {
                assert(m.take(i as int).drop_last() =~= m.take(i as int - 1));
                assert(m.take(i as int).last() == m[i as int - 1]);
            }
        }
        proof {
            assert(m.take(m.len() as int) =~= m);
        }
        r
    }
}

impl RPCCommand {
    /// Decode a command payload (opcode through sub-payload; the frame's
    /// checksum byte already stripped).  Opcode 0x01 carries a declared
    /// sub-payload length and two length-prefixed byte strings; every length
    /// is checked against the bytes present, and any mismatch is BadLength.
    /// Opcodes 0x02..0x04 are the request commands; anything else is
    /// InvalidRPCCommand.
    pub fn try_from(data: Vec<u8>) -> (r: Result<RPCCommand, ImprovErr>)
        ensures
            view_command_result(r) == spec_decode_command(data@),
    {
        if data.len() < 1 {
            return Err(ImprovErr::BadLength);
        }
        let op = data[0];
        if op == 0x01 {
            if data.len() < 3 || data[1] as usize != data.len() - 2 {
                return Err(ImprovErr::BadLength);
            }
            let sl = data[2] as usize;
            if 4 + sl > data.len() {
                return Err(ImprovErr::BadLength);
            }
            let pl = data[3 + sl] as usize;
            if 4 + sl + pl != data.len() {
                return Err(ImprovErr::BadLength);
            }
            let ssid = copy_range(&data, 3, 3 + sl);
            let psk = copy_range(&data, 4 + sl, data.len());
            let r = Ok(RPCCommand::SendWifiSettings(WifiSettings { ssid, psk }));
            proof {
                assert(view_command_result(r) =~~= spec_decode_command(data@));
            }
            r
        } else if op == 0x02 {
            Ok(RPCCommand::RequestCurrentState)
        } else if op == 0x03 {
            Ok(RPCCommand::RequestDeviceInformation)
        } else if op == 0x04 {
            Ok(RPCCommand::RequestScannedWifiNetworks)
        } else {
            Err(ImprovErr::InvalidRPCCommand)
        }
    }
}

impl ImprovPacket {
    /// Fixed one-byte type tag of this packet's category (byte 7 of the
    /// frame).
    pub fn pkt_type(&self) -> (r: u8)
        ensures
            r == type_tag(self@),
    {
        match self {
            ImprovPacket::CurrentState(_) => 0x01,
            ImprovPacket::ErrorState(_) => 0x02,
            ImprovPacket::RPCCommand(_) => 0x03,
            ImprovPacket::RPCResult(_) => 0x04,
        }
    }

    /// Serialize this packet's type-specific payload (bytes 9 .. 9+N of the
    /// frame).
    pub fn inner(self) -> (r: Vec<u8>)
        requires
            wf_packet(self@),
        ensures
            r@ == payload_bytes(self@),
    {
        let ghost m = self@;
        match self {
            ImprovPacket::CurrentState(s) => {
                let mut r: Vec<u8> = Vec::new();
                r.push(s.to_byte());
                proof {
                    assert(r@ =~= payload_bytes(m));
                }
                r
            },
            ImprovPacket::ErrorState(e) => {
                let mut r: Vec<u8> = Vec::new();
                r.push(e.to_byte());
                proof {
                    assert(r@ =~= payload_bytes(m));
                }
                r
            },
            ImprovPacket::RPCCommand(c) => c.inner(),
            ImprovPacket::RPCResult(rr) => rr.inner(),
        }
    }

    /// Decode one complete frame.  The checks run in a fixed order and the
    /// first failing one names the error: magic, version, declared payload
    /// length against the bytes present, then the type-specific payload.  The
    /// checksum byte is carried but not verified, and RPC-result frames are
    /// answered with GoAway (see [`crate::wire::spec_decode`]).  Every
    /// decoded packet is well formed, so it can be re-encoded.
    pub fn try_from(b: Vec<u8>) -> (r: Result<ImprovPacket, ImprovErr>)
        ensures
            view_packet_result(r) == spec_decode(b@),
            r matches Ok(p) ==> wf_packet(p@),
    {
        proof {
            crate::laws::lemma_decode_wf(b@);
        }
        if b.len() < 6 || b[0] != 0x49 || b[1] != 0x4D || b[2] != 0x50 || b[3] != 0x52 || b[4]
            != 0x4F || b[5] != 0x56 {
            proof {
                if b@.len() >= 6 {
                    assert(b@.subrange(0, 6) != spec_magic()) by {
                        assert(forall|i: int|
                            0 <= i < 6 ==> b@.subrange(0, 6)[i] == b@[i]);
                    };
                }
            }
            return Err(ImprovErr::NotAnImprovPacket);
        }
        proof {
            assert(b@.subrange(0, 6) =~= spec_magic());
        }
        if b.len() >= 7 && b[6] != IMPROV_VERSION {
            return Err(ImprovErr::UnsupportedVersion);
        }
        if b.len() < 10 || b[8] as usize != b.len() - 10 {
            return Err(ImprovErr::BadLength);
        }
        let tag = b[7];
        if tag == 0x01 {
            match CurrentState::try_from(b[9]) {
                Ok(s) => Ok(ImprovPacket::CurrentState(s)),
                Err(e) => Err(e),
            }
        } else if tag == 0x02 {
            match ErrorState::try_from(b[9]) {
                Ok(e) => Ok(ImprovPacket::ErrorState(e)),
                Err(e) => Err(e),
            }
        } else if tag == 0x03 {
            let data = copy_range(&b, 9, b.len() - 1);
            match RPCCommand::try_from(data) {
                Ok(c) => Ok(ImprovPacket::RPCCommand(c)),
                Err(e) => Err(e),
            }
        } else {
            Err(ImprovErr::GoAway)
        }
    }

    /// Encode this packet into a complete frame: magic, version, type tag,
    /// payload length, payload, wraparound checksum.
    pub fn to_bytes(self) -> (r: Vec<u8>)
        requires
            wf_packet(self@),
        ensures
            r@ == frame_bytes(self@),
    {
        let ghost m = self@;
        proof {
            crate::laws::lemma_payload_len(m);
        }
        let tag = self.pkt_type();
        let payload = self.inner();
        let mut data: Vec<u8> = Vec::new();
        data.push(0x49);
        data.push(0x4D);
        data.push(0x50);
        data.push(0x52);
        data.push(0x4F);
        data.push(0x56);
        data.push(IMPROV_VERSION);
        data.push(tag);
        data.push(payload.len() as u8);
        push_all(&mut data, payload.as_slice());
        proof {
            assert(data@ =~= frame_body(m));
        }
        let ck = checksum(data.as_slice());
        data.push(ck);
        proof {
            assert(data@ =~= frame_bytes(m));
        }
        data
    }
}

/// Copy the bytes of `b` from `start` (inclusive) to `end` (exclusive) into a
/// fresh vector.
fn copy_range(b: &Vec<u8>, start: usize, end: usize) -> (r: Vec<u8>)
    requires
        start <= end && end <= b@.len(),
    ensures
        r@ == b@.subrange(start as int, end as int),
{
    let mut r: Vec<u8> = Vec::new();
    let mut i: usize = start;
    while i < end
        invariant
            start <= i <= end <= b@.len(),
            r@ == b@.subrange(start as int, i as int),
        decreases end - i,
    {
        r.push(b[i]);
        i = i + 1;
        proof {
            assert(b@.subrange(start as int, i as int) =~= b@.subrange(
                start as int,
                i as int - 1,
            ).push(b@[i as int - 1]));
        }
    }
    r
}

} // verus!
