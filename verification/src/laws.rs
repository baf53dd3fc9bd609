//! The laws of the codec, proved once and for all over the wire model:
//! round trip, length-prefix consistency, checksum trailer, magic and
//! version gating, and exhaustiveness of the enumeration bytes.

use crate::packet::{CurrentState, ErrorState, ImprovErr};
use crate::wire::{
    command_bytes, error_byte, frame_body, frame_bytes, payload_bytes,
    spec_decode, spec_decode_command, spec_error_of, spec_magic, spec_state_of, state_byte,
    sum_bytes, type_tag, wf_command, wf_packet, wifi_bytes, SpecCommand, SpecPacket,
    IMPROV_VERSION,
};
use vstd::prelude::*;

verus! {

/// A well-formed packet's payload fits the frame's one-byte length field.
pub proof fn lemma_payload_len(p: SpecPacket)
    requires
        wf_packet(p),
    ensures
        payload_bytes(p).len() <= 255,
{
    match p {
        SpecPacket::CurrentState(_) => {},
        SpecPacket::ErrorState(_) => {},
        SpecPacket::RPCCommand(c) => {
            match c {
                SpecCommand::SendWifiSettings(w) => {
                    assert(wifi_bytes(w).len() == 2 + w.ssid.len() + w.psk.len());
                },
                _ => {},
            }
        },
        SpecPacket::RPCResult(_) => {},
    }
}

/// Every command that decoding accepts from a payload of at most 255 bytes
/// is well formed: its field lengths fit back into the length prefixes.
pub proof fn lemma_decode_command_wf(d: Seq<u8>)
    requires
        d.len() <= 255,
    ensures
        spec_decode_command(d) matches Ok(c) ==> wf_command(c),
{
}

/// Every packet that decoding accepts is well formed, so it can be encoded
/// again.
pub proof fn lemma_decode_wf(b: Seq<u8>)
    ensures
        spec_decode(b) matches Ok(p) ==> wf_packet(p),
{
    if spec_decode(b) is Ok {
        if b.len() >= 10 && b[8] as int == b.len() - 10 && b[7] == 0x03 {
            let d = b.subrange(9, b.len() - 1);
            assert(d.len() <= 255);
            lemma_decode_command_wf(d);
        }
    }
}

/// The command payload of a well-formed command decodes back to that exact
/// command.
pub proof fn lemma_command_round_trip(c: SpecCommand)
    requires
        wf_command(c),
    ensures
        spec_decode_command(command_bytes(c)) == Ok::<SpecCommand, ImprovErr>(c),
{
    match c {
        SpecCommand::SendWifiSettings(w) => {
            let d = command_bytes(c);
            let wb = wifi_bytes(w);
            assert(wb.len() == 2 + w.ssid.len() + w.psk.len());
            assert(d.len() == 2 + wb.len());
            assert(forall|k: int| 0 <= k < wb.len() ==> d[2 + k] == wb[k]);
            assert(wb[0] == w.ssid.len() as u8);
            assert(forall|k: int| 0 <= k < w.ssid.len() ==> wb[1 + k] == w.ssid[k]);
            assert(wb[1 + w.ssid.len() as int] == w.psk.len() as u8);
            assert(forall|k: int|
                0 <= k < w.psk.len() ==> wb[2 + w.ssid.len() as int + k] == w.psk[k]);
            let sl = d[2] as int;
            assert(sl == w.ssid.len());
            assert(d[3 + sl] as int == w.psk.len());
            assert(d.subrange(3, 3 + sl) =~= w.ssid);
            assert(d.subrange(4 + sl, d.len() as int) =~= w.psk);
        },
        _ => {},
    }
}

/// Round trip: a well-formed packet decodes from its own frame.  RPC-result
/// frames are excluded: their decode path is intentionally absent, and they
/// are answered with GoAway.
pub proof fn lemma_round_trip(p: SpecPacket)
    requires
        wf_packet(p),
        !(p is RPCResult),
    ensures
        spec_decode(frame_bytes(p)) == Ok::<SpecPacket, ImprovErr>(p),
{
    lemma_payload_len(p);
    let pl = payload_bytes(p);
    let f = frame_bytes(p);
    assert(f.len() == 10 + pl.len());
    assert(f.subrange(0, 6) =~= spec_magic());
    assert(f[6] == IMPROV_VERSION);
    assert(f[7] == type_tag(p));
    assert(f[8] == pl.len() as u8);
    assert(forall|k: int| 0 <= k < pl.len() ==> f[9 + k] == pl[k]);
    match p {
        SpecPacket::CurrentState(s) => {
            assert(f[9] == state_byte(s));
        },
        SpecPacket::ErrorState(e) => {
            assert(f[9] == error_byte(e));
        },
        SpecPacket::RPCCommand(c) => {
            assert(f.subrange(9, f.len() - 1) =~= pl);
            lemma_command_round_trip(c);
        },
        SpecPacket::RPCResult(_) => {},
    }
}

/// Length-prefix consistency of encoding: byte 8 of every well-formed
/// packet's frame equals the frame's length minus ten.
pub proof fn lemma_frame_length_prefix(p: SpecPacket)
    requires
        wf_packet(p),
    ensures
        frame_bytes(p).len() == 10 + payload_bytes(p).len(),
        frame_bytes(p)[8] as int == frame_bytes(p).len() - 10,
{
    lemma_payload_len(p);
    assert(frame_bytes(p)[8] == payload_bytes(p).len() as u8);
}

/// Length-prefix consistency of decoding: under the right magic and version,
/// a frame whose declared payload length does not match the bytes actually
/// present is rejected with BadLength.
pub proof fn lemma_bad_length_rejected(b: Seq<u8>)
    requires
        b.len() >= 6,
        b.subrange(0, 6) == spec_magic(),
        b.len() >= 7 ==> b[6] == IMPROV_VERSION,
        !(b.len() >= 10 && b[8] as int == b.len() - 10),
    ensures
        spec_decode(b) == Err::<SpecPacket, ImprovErr>(ImprovErr::BadLength),
{
}

/// Checksum trailer: the last byte of every well-formed packet's frame is
/// the wraparound sum of all the bytes before it.
pub proof fn lemma_checksum_trailer(p: SpecPacket)
    requires
        wf_packet(p),
    ensures
        frame_bytes(p).len() >= 1,
        frame_bytes(p).last() == sum_bytes(frame_bytes(p).drop_last()),
{
    assert(frame_bytes(p).drop_last() =~= frame_body(p));
}

/// Magic gating: a byte sequence that does not start with "IMPROV" is
/// rejected as NotAnImprovPacket, whatever else it holds.
pub proof fn lemma_magic_gate(b: Seq<u8>)
    requires
        b.len() < 6 || b.subrange(0, 6) != spec_magic(),
    ensures
        spec_decode(b) == Err::<SpecPacket, ImprovErr>(ImprovErr::NotAnImprovPacket),
{
}

/// Version gating: the right magic followed by a version byte other than
/// IMPROV_VERSION is rejected as UnsupportedVersion, however well formed the
/// rest of the sequence is.
pub proof fn lemma_version_gate(b: Seq<u8>)
    requires
        b.len() >= 7,
        b.subrange(0, 6) == spec_magic(),
        b[6] != IMPROV_VERSION,
    ensures
        spec_decode(b) == Err::<SpecPacket, ImprovErr>(ImprovErr::UnsupportedVersion),
{
}

/// Enumeration exhaustiveness for device states: each defined wire byte
/// decodes to the variant whose wire byte it is, and every other byte is
/// InvalidCurrentStateByte.
pub proof fn lemma_state_bytes_exhaustive(b: u8)
    ensures
        spec_state_of(b) matches Ok(s) ==> state_byte(s) == b,
        (b == 0x02 || b == 0x03 || b == 0x04) <==> spec_state_of(b) is Ok,
        !(b == 0x02 || b == 0x03 || b == 0x04) ==> spec_state_of(b) == Err::<
            CurrentState,
            ImprovErr,
        >(ImprovErr::InvalidCurrentStateByte),
{
}

/// The wire byte of every device state decodes back to that state.
pub proof fn lemma_state_byte_round_trip(s: CurrentState)
    ensures
        spec_state_of(state_byte(s)) == Ok::<CurrentState, ImprovErr>(s),
{
}

/// Enumeration exhaustiveness for device errors: each defined wire byte
/// decodes to the variant whose wire byte it is, and every other byte is
/// InvalidErrorStateByte.
pub proof fn lemma_error_bytes_exhaustive(b: u8)
    ensures
        spec_error_of(b) matches Ok(e) ==> error_byte(e) == b,
        (b == 0x00 || b == 0x01 || b == 0x02 || b == 0x03 || b == 0xFF) <==> spec_error_of(
            b,
        ) is Ok,
        !(b == 0x00 || b == 0x01 || b == 0x02 || b == 0x03 || b == 0xFF) ==> spec_error_of(b)
            == Err::<ErrorState, ImprovErr>(ImprovErr::InvalidErrorStateByte),
{
}

/// The wire byte of every device error decodes back to that error.
pub proof fn lemma_error_byte_round_trip(e: ErrorState)
    ensures
        spec_error_of(error_byte(e)) == Ok::<ErrorState, ImprovErr>(e),
{
}

} // verus!
