use pso2packetlib::header::{Flags, PacketHeader};
use pso2packetlib::keys::EncryptionRequestPacket;
use pso2packetlib::login::{NetInterface, StartGamePacket, VitaLoginPacket};
use pso2packetlib::mail::{MailBodyPacket, MailId};
use pso2packetlib::protocol::{decode, encode, Packet};
use pso2packetlib::roster::CharacterListPacket;

#[test]
fn dispatch_by_category_and_subtype() {
    let packets = vec![
        Packet::StartGame(StartGamePacket { char_id: 1, unk1: 2, unk2: 3 }),
        Packet::MailBody(MailBodyPacket {
            id: MailId { mail_id: 4, unk1: 5, unk2: 6 },
            message: b"hi".to_vec(),
            unk3: 7,
        }),
        Packet::VitaLogin(VitaLoginPacket {
            interfaces: vec![NetInterface { state: 1, mac: b"m".to_vec() }],
            ..Default::default()
        }),
        Packet::CharacterList(CharacterListPacket::default()),
        Packet::EncryptionRequest(EncryptionRequestPacket { rsa_data: vec![1, 2, 3] }),
        Packet::Unknown(PacketHeader::new(0x04, 0x08, Flags::default()), vec![1, 2, 3, 4]),
    ];
    for ngs in [false, true] {
        for p in &packets {
            let bytes = encode(p, ngs);
            assert_eq!(&decode(&bytes, ngs).unwrap(), p);
        }
    }
}

#[test]
fn trailing_bytes_after_declared_size_are_ignored() {
    let p = Packet::StartGame(StartGamePacket { char_id: 1, unk1: 2, unk2: 3 });
    let mut bytes = encode(&p, false);
    bytes.extend_from_slice(&[0xAA, 0xBB]);
    assert_eq!(decode(&bytes, false).unwrap(), p);
}
