use pso2packetlib::enums::{LoginResult, LoginStatus, ShipStatus};
use pso2packetlib::field::DecodeError;
use pso2packetlib::login::{NicknameErrorPacket, StartGamePacket};
use pso2packetlib::obfuscation::{deobfuscate, obfuscate};
use pso2packetlib::packet::{decode_packet, encode_packet};
use pso2packetlib::text::{decode_fixed_text, encode_fixed_text};

#[test]
fn obfuscation_inverts() {
    for len in [0u32, 1, 7, 0x100, 0xFFFF_FFFF] {
        let w = obfuscate(len, 0x5E6, 0x6B);
        assert_eq!(deobfuscate(w, 0x5E6, 0x6B), len);
    }
    assert_eq!(obfuscate(5, 0x5E6, 0x6B), (5 + 0x6B) ^ 0x5E6);
}

#[test]
fn fixed_text_truncates_and_pads() {
    assert_eq!(encode_fixed_text(b"abcdef", 4), b"abcd".to_vec());
    assert_eq!(encode_fixed_text(b"ab", 4), vec![b'a', b'b', 0, 0]);
    assert_eq!(decode_fixed_text(&[b'a', b'b', 0, b'c']), b"ab".to_vec());
    assert_eq!(decode_fixed_text(b"abcd"), b"abcd".to_vec());
}

#[test]
fn unknown_enum_values_survive() {
    assert_eq!(ShipStatus::from_raw(9), ShipStatus::Undefined(9));
    assert_eq!(ShipStatus::from_raw(9).to_raw(), 9);
    assert_eq!(LoginResult::from_raw(0x1234).to_raw(), 0x1234);
    assert_eq!(LoginStatus::from_raw(1), LoginStatus::Failure);
}

#[test]
fn start_game_round_trip() {
    let p = StartGamePacket { char_id: 7, unk1: 1, unk2: 2 };
    for ngs in [false, true] {
        let bytes = encode_packet(&p, ngs);
        assert_eq!(bytes.len(), 8 + 12);
        assert_eq!(&bytes[0..4], &[20, 0, 0, 0]);
        let back: StartGamePacket = decode_packet(&bytes, ngs).unwrap();
        assert_eq!(back, p);
    }
}

#[test]
fn nickname_error_round_trip() {
    let p = NicknameErrorPacket { unk1: 2, nickname: b"nick".to_vec() };
    let bytes = encode_packet(&p, false);
    let back: NicknameErrorPacket = decode_packet(&bytes, false).unwrap();
    assert_eq!(back, p);
    let short = &bytes[..bytes.len() - 1];
    let r: Result<NicknameErrorPacket, DecodeError> = decode_packet(short, false);
    assert_eq!(r.unwrap_err(), DecodeError::InvalidLength);
}
