use pso2packetlib::character::{Character, CHARACTER_SIZE};
use pso2packetlib::enums::{LoginResult, ShipStatus};
use pso2packetlib::field::DecodeError;
use pso2packetlib::header::{Flags, PacketHeader};
use pso2packetlib::keys::{EncryptionRequestPacket, EncryptionResponsePacket};
use pso2packetlib::login::{
    BlockBalancePacket, BlockInfo, ClientPongPacket, LoginAttempt, LoginHistoryPacket,
    NetInterface, NicknameResponsePacket, SalonResponse, SalonThing1, SalonThing2,
    SegaIDLoginPacket, ShipEntry, ShipListPacket, SystemInformationPacket, Unk11FFPacket,
    VitaLoginPacket,
};
use pso2packetlib::mail::{DeletedMailPacket, MailHeader, MailId, MailListPacket};
use pso2packetlib::packet::{decode_packet, encode_packet};
use pso2packetlib::record::{decode_record, encode_record};
use pso2packetlib::roster::CharacterListPacket;
use pso2packetlib::settings::SaveSettingsPacket;
use pso2packetlib::time::PsoTime;

fn character(tag: u8) -> Character {
    let mut data = vec![0u8; CHARACTER_SIZE];
    data[0] = tag;
    data[CHARACTER_SIZE - 1] = tag;
    Character { data }
}

fn slot(bytes: &[u8], j: usize) -> &[u8] {
    let start = 8 + 4 + 4 + j * (4 + CHARACTER_SIZE) + 4;
    &bytes[start..start + CHARACTER_SIZE]
}

#[test]
fn roster_cycles_three_entries() {
    let p = CharacterListPacket {
        characters: vec![character(1), character(2), character(3)],
        ..Default::default()
    };
    let bytes = p.write(false);
    assert_eq!(&bytes[8..12], &[3, 0, 0, 0]);
    for j in 0..30 {
        assert_eq!(slot(&bytes, j)[0], [1u8, 2, 3][j % 3]);
    }
}

#[test]
fn roster_empty_fills_with_default() {
    let p = CharacterListPacket::default();
    let bytes = p.write(true);
    assert_eq!(&bytes[8..12], &[0, 0, 0, 0]);
    for j in 0..30 {
        assert!(slot(&bytes, j).iter().all(|b| *b == 0));
    }
    let back = CharacterListPacket::read(&bytes, true).unwrap();
    assert!(back.characters.is_empty());
}

#[test]
fn roster_count_is_clamped() {
    let p = CharacterListPacket {
        characters: (0..35).map(|i| character(i as u8)).collect(),
        ..Default::default()
    };
    let bytes = p.write(false);
    assert_eq!(&bytes[8..12], &[30, 0, 0, 0]);
    let back = CharacterListPacket::read(&bytes, false).unwrap();
    assert_eq!(back.characters.len(), 30);
}

#[test]
fn roster_two_entries_round_trip() {
    let mut p = CharacterListPacket {
        is_global: false,
        characters: vec![character(7), character(9)],
        ..Default::default()
    };
    p.play_times[3] = 100;
    p.deletion_flags[29] = (1, 2);
    p.transfer_flags[0] = (3, 4);
    p.account_accessory = 5;
    p.login_survey = 6;
    p.ad = 7;
    let bytes = p.write(false);
    let back = CharacterListPacket::read(&bytes, false).unwrap();
    assert_eq!(back.characters.len(), 2);
    assert_eq!(back, p);
}

#[test]
fn key_material_strips_leading_zeros() {
    let p = EncryptionRequestPacket { rsa_data: vec![0xFF] };
    let bytes = p.write(false);
    assert_eq!(bytes.len(), 8 + 0x104);
    assert_eq!(bytes[8], 0xFF);
    let back = EncryptionRequestPacket::read(&bytes, false).unwrap();
    assert_eq!(back.rsa_data, vec![0xFF]);

    let padded = EncryptionRequestPacket { rsa_data: vec![0x00, 0xFF] };
    let back = EncryptionRequestPacket::read(&padded.write(true), true).unwrap();
    assert_eq!(back.rsa_data, vec![0xFF]);

    let key = EncryptionRequestPacket { rsa_data: vec![0x12, 0x00, 0x34] };
    let back = EncryptionRequestPacket::read(&key.write(false), false).unwrap();
    assert_eq!(back.rsa_data, vec![0x12, 0x00, 0x34]);
}

#[test]
fn encryption_response_is_verbatim() {
    let p = EncryptionResponsePacket { data: vec![1, 2, 3, 0, 5] };
    let bytes = encode_packet(&p, false);
    assert_eq!(&bytes[8..], &[1, 2, 3, 0, 5]);
    let back: EncryptionResponsePacket = decode_packet(&bytes, false).unwrap();
    assert_eq!(back, p);
}

#[test]
fn sega_login_round_trip() {
    let mut p = SegaIDLoginPacket::default();
    p.interfaces = vec![
        NetInterface { state: 1, mac: b"00:11:22:33:44:55".to_vec() },
        NetInterface { state: 2, mac: b"66:77".to_vec() },
    ];
    p.username = b"user".to_vec();
    p.password = b"pass".to_vec();
    p.unk11 = b"abcde".to_vec();
    p.ver_id[0] = 9;
    for ngs in [false, true] {
        let bytes = encode_packet(&p, ngs);
        assert_eq!(bytes.len() % 4, 0);
        let back: SegaIDLoginPacket = decode_packet(&bytes, ngs).unwrap();
        assert_eq!(back, p);
    }
}

#[test]
fn vita_login_round_trip() {
    let mut p = VitaLoginPacket::default();
    p.interfaces = vec![NetInterface { state: 3, mac: b"mac".to_vec() }];
    p.unk17 = vec![1, 2, 3];
    p.language = b"en".to_vec();
    let bytes = encode_packet(&p, true);
    let back: VitaLoginPacket = decode_packet(&bytes, true).unwrap();
    assert_eq!(back, p);
}

#[test]
fn salon_two_lists_round_trip() {
    let p = SalonResponse {
        reedit_time: 1,
        unk5: vec![SalonThing1 { unk1: 1, unk2: 2, unk3: 3, unk4: 4 }],
        unk6: vec![SalonThing2::default(), SalonThing2 { unk14: 14, ..Default::default() }],
        unk7: 7,
        ..Default::default()
    };
    let bytes = encode_packet(&p, false);
    let back: SalonResponse = decode_packet(&bytes, false).unwrap();
    assert_eq!(back, p);
}

#[test]
fn mail_list_round_trip() {
    let p = MailListPacket {
        name: b"name".to_vec(),
        nickname: b"nick".to_vec(),
        headers: vec![MailHeader {
            mail_id: 1,
            sender: b"sender".to_vec(),
            subject: b"hello".to_vec(),
            receive_time: 1_700_000_000,
            ..Default::default()
        }],
        ..Default::default()
    };
    let bytes = encode_packet(&p, false);
    let back: MailListPacket = decode_packet(&bytes, false).unwrap();
    assert_eq!(back, p);
    let d = DeletedMailPacket { ids: vec![MailId { mail_id: 5, unk1: 6, unk2: 7 }], unk: 1 };
    let back: DeletedMailPacket = decode_packet(&encode_packet(&d, true), true).unwrap();
    assert_eq!(back, d);
}

#[test]
fn unknown_status_survives_a_ship_list() {
    let p = ShipListPacket {
        ships: vec![ShipEntry {
            id: 1,
            name: b"Ship01".to_vec(),
            ip: [10, 0, 0, 1],
            status: ShipStatus::Undefined(0x42),
            order: 3,
        }],
        timestamp: 77,
    };
    let back: ShipListPacket = decode_packet(&encode_packet(&p, false), false).unwrap();
    assert_eq!(back, p);
    let h = LoginHistoryPacket {
        attempts: vec![LoginAttempt { status: LoginResult::Undefined(99), ..Default::default() }],
    };
    let back: LoginHistoryPacket = decode_packet(&encode_packet(&h, false), false).unwrap();
    assert_eq!(back.attempts[0].status, LoginResult::Undefined(99));
    assert_eq!(back.attempts[0].unk, 9);
}

#[test]
fn fixed_text_is_truncated_in_a_packet() {
    let p = NicknameResponsePacket { nickname: b"abcdefghijklmnopqrst".to_vec() };
    let bytes = encode_packet(&p, false);
    assert_eq!(bytes.len(), 8 + 0x10 + 0x20);
    let back: NicknameResponsePacket = decode_packet(&bytes, false).unwrap();
    assert_eq!(back.nickname, b"abcdefghijklmnop".to_vec());
    let short = NicknameResponsePacket { nickname: b"ab".to_vec() };
    let bytes = encode_packet(&short, false);
    assert_eq!(&bytes[8..8 + 0x10], &[b'a', b'b', 0, 0, 0, 0, 0, 0, 0, 0, 0, 0, 0, 0, 0, 0]);
}

#[test]
fn variable_text_is_padded_and_obfuscated() {
    let p = SaveSettingsPacket { settings: b"abcde".to_vec() };
    let bytes = encode_packet(&p, false);
    assert_eq!(bytes.len(), 8 + 4 + 8);
    let prefix = u32::from_le_bytes([bytes[8], bytes[9], bytes[10], bytes[11]]);
    assert_eq!(prefix, (5 + 0xB5) ^ 0xCEF1);
    assert_eq!(&bytes[12..20], &[b'a', b'b', b'c', b'd', b'e', 0, 0, 0]);
    assert_eq!(bytes[6], 0x04);
}

#[test]
fn header_variants() {
    let h = PacketHeader::new(0x11, 0x2D, Flags::packed());
    let mut legacy = Vec::new();
    h.write(&mut legacy, false, 8);
    assert_eq!(legacy, vec![8, 0, 0, 0, 0x11, 0x2D, 0x04, 0]);
    let mut ngs = Vec::new();
    h.write(&mut ngs, true, 8);
    assert_eq!(ngs, vec![8, 0, 0, 0, 0x04, 0x11, 0x2D, 0]);
    assert_eq!(PacketHeader::read(&legacy, false).unwrap(), (h, 8));
    assert_eq!(PacketHeader::read(&ngs, true).unwrap(), (h, 8));
}

#[test]
fn decode_errors() {
    assert_eq!(PacketHeader::read(&[1, 2, 3], false).unwrap_err(), DecodeError::UnexpectedEndOfInput);
    assert_eq!(
        PacketHeader::read(&[9, 0, 0, 0, 0x11, 0, 0, 0], false).unwrap_err(),
        DecodeError::InvalidLength
    );
    assert_eq!(
        PacketHeader::read(&[8, 0, 0, 0, 0, 0x11, 0x00, 0x01], true).unwrap_err(),
        DecodeError::MalformedScalar
    );
    let p = ClientPongPacket::new(PsoTime::from_millis(1), PsoTime::from_millis(2));
    let mut bytes = encode_packet(&p, false);
    bytes.truncate(bytes.len() - 1);
    bytes[0] -= 1;
    let r: Result<ClientPongPacket, DecodeError> = decode_packet(&bytes, false);
    assert_eq!(r.unwrap_err(), DecodeError::UnexpectedEndOfInput);
    let mut s = encode_packet(&SystemInformationPacket::default(), false);
    s[10] ^= 0x01;
    let r: Result<SystemInformationPacket, DecodeError> = decode_packet(&s, false);
    assert_eq!(r.unwrap_err(), DecodeError::InvalidLength);
}

#[test]
fn pong_times_round_trip() {
    let p = ClientPongPacket::new(PsoTime::from_millis(1_700_000_000_123), PsoTime::from_millis(5));
    let bytes = encode_packet(&p, true);
    assert_eq!(&bytes[8..16], &1_700_000_000_123u64.to_le_bytes());
    let back: ClientPongPacket = decode_packet(&bytes, true).unwrap();
    assert_eq!(back, p);
    assert_eq!(back.client_time.as_secs_millis(), (1_700_000_000, 123));
}

#[test]
fn defaults_carry_protocol_constants() {
    let s = SegaIDLoginPacket::default();
    assert_eq!((s.unk2, s.unk6, s.unk7, s.magic1, s.unk10), (9, 7, 7, 0x0419, 512));
    let v = VitaLoginPacket::default();
    assert_eq!((v.unk4, v.unk14), (9, 2));
    let u = Unk11FFPacket::default();
    assert_eq!(u.unk7, [0u8; 0x40]);
    let b = BlockBalancePacket::default();
    assert_eq!(b.ip, [0, 0, 0, 0]);
    assert_eq!(ShipEntry::default().status, ShipStatus::Unknown);
}

#[test]
fn block_info_record_round_trip() {
    let b = BlockInfo { unk2: 1, blockname: b"Block 01".to_vec(), ip: [127, 0, 0, 1], port: 12000, ..Default::default() };
    let bytes = encode_record(&b);
    assert_eq!(bytes.len(), 4 + 4 + 8 + 4 + 0x20 + 4 + 6 + 10);
    let back: BlockInfo = decode_record(&bytes).unwrap();
    assert_eq!(back, b);
}
