//! The protocol's entry points: every packet type this library knows, told
//! apart by the category and subtype of its header.
use crate::field::{copy_range, DecodeError};
use crate::header::{decode_header, frame, PacketHeader, HEADER_SIZE};
use crate::keys::{key_of_wire, key_request_header, key_to_wire, EncryptionRequestPacket, EncryptionResponsePacket};
use crate::login::{
    BannerListPacket, BlockBalancePacket, ClientPingPacket, ClientPongPacket, CharacterCreatePacket,
    CreateCharacter1ResponsePacket, CreateCharacter2ResponsePacket, EmailCodeRequestPacket,
    LoginHistoryPacket, NicknameErrorPacket, NicknameRequestPacket, NicknameResponsePacket,
    NotificationStatusPacket, SalonResponse, SegaIDLoginPacket, ShipListPacket, StartGamePacket,
    SystemInformationPacket, Unk11FFPacket, VitaLoginPacket,
};
use crate::mail::{
    DeleteMailRequestPacket, DeletedMailPacket, MailBodyPacket, MailBodyRequestPacket,
    MailListPacket, MailListRequestPacket,
};
use crate::engine::encode_all;
use crate::field::{bytes_of, Field};
use crate::packet::{decode_entries, decode_packet, decode_values, encode_packet, packet_bytes, SchemaPacket};
use crate::roster::{roster_header, roster_of, roster_schema, roster_values, CharacterListPacket};
use crate::settings::{LoadSettingsPacket, SaveSettingsPacket};
use vstd::prelude::*;

verus! {

/// One packet of any type this library knows, or the raw body of one it
/// does not.
#[derive(Debug, Clone, PartialEq)]
pub enum Packet {
    SegaIdLogin(SegaIDLoginPacket),
    CharacterList(CharacterListPacket),
    StartGame(StartGamePacket),
    CharacterCreate(CharacterCreatePacket),
    EncryptionRequest(EncryptionRequestPacket),
    EncryptionResponse(EncryptionResponsePacket),
    ClientPing(ClientPingPacket),
    ClientPong(ClientPongPacket),
    NicknameResponse(NicknameResponsePacket),
    NicknameRequest(NicknameRequestPacket),
    BlockBalance(BlockBalancePacket),
    SystemInformation(SystemInformationPacket),
    ShipList(ShipListPacket),
    CreateCharacter1Response(CreateCharacter1ResponsePacket),
    CreateCharacter2Response(CreateCharacter2ResponsePacket),
    VitaLogin(VitaLoginPacket),
    SalonResponse(SalonResponse),
    NotificationStatus(NotificationStatusPacket),
    LoginHistory(LoginHistoryPacket),
    NicknameError(NicknameErrorPacket),
    BannerList(BannerListPacket),
    EmailCodeRequest(EmailCodeRequestPacket),
    Unk11FF(Unk11FFPacket),
    MailListRequest(MailListRequestPacket),
    MailList(MailListPacket),
    DeleteMailRequest(DeleteMailRequestPacket),
    DeletedMail(DeletedMailPacket),
    MailBodyRequest(MailBodyRequestPacket),
    MailBody(MailBodyPacket),
    SaveSettings(SaveSettingsPacket),
    LoadSettings(LoadSettingsPacket),
    /// A packet of a type this library does not know: its header and the
    /// bytes after the header, up to the declared size.
    Unknown(PacketHeader, Vec<u8>),
}

/// The bytes of the packet `p`.
pub open spec fn packet_wire(p: Packet, is_ngs: bool) -> Seq<u8> {
    match p {
        Packet::SegaIdLogin(x) => packet_bytes(x, is_ngs),
        Packet::CharacterList(x) => frame(roster_header(), is_ngs, encode_all(roster_schema(), roster_values(x@))),
        Packet::StartGame(x) => packet_bytes(x, is_ngs),
        Packet::CharacterCreate(x) => packet_bytes(x, is_ngs),
        Packet::EncryptionRequest(x) => frame(key_request_header(), is_ngs, key_to_wire(x.rsa_data@)),
        Packet::EncryptionResponse(x) => packet_bytes(x, is_ngs),
        Packet::ClientPing(x) => packet_bytes(x, is_ngs),
        Packet::ClientPong(x) => packet_bytes(x, is_ngs),
        Packet::NicknameResponse(x) => packet_bytes(x, is_ngs),
        Packet::NicknameRequest(x) => packet_bytes(x, is_ngs),
        Packet::BlockBalance(x) => packet_bytes(x, is_ngs),
        Packet::SystemInformation(x) => packet_bytes(x, is_ngs),
        Packet::ShipList(x) => packet_bytes(x, is_ngs),
        Packet::CreateCharacter1Response(x) => packet_bytes(x, is_ngs),
        Packet::CreateCharacter2Response(x) => packet_bytes(x, is_ngs),
        Packet::VitaLogin(x) => packet_bytes(x, is_ngs),
        Packet::SalonResponse(x) => packet_bytes(x, is_ngs),
        Packet::NotificationStatus(x) => packet_bytes(x, is_ngs),
        Packet::LoginHistory(x) => packet_bytes(x, is_ngs),
        Packet::NicknameError(x) => packet_bytes(x, is_ngs),
        Packet::BannerList(x) => packet_bytes(x, is_ngs),
        Packet::EmailCodeRequest(x) => packet_bytes(x, is_ngs),
        Packet::Unk11FF(x) => packet_bytes(x, is_ngs),
        Packet::MailListRequest(x) => packet_bytes(x, is_ngs),
        Packet::MailList(x) => packet_bytes(x, is_ngs),
        Packet::DeleteMailRequest(x) => packet_bytes(x, is_ngs),
        Packet::DeletedMail(x) => packet_bytes(x, is_ngs),
        Packet::MailBodyRequest(x) => packet_bytes(x, is_ngs),
        Packet::MailBody(x) => packet_bytes(x, is_ngs),
        Packet::SaveSettings(x) => packet_bytes(x, is_ngs),
        Packet::LoadSettings(x) => packet_bytes(x, is_ngs),
        Packet::Unknown(h, body) => frame(h, is_ngs, body@),
    }
}

/// The result for a type this library does not know.
pub open spec fn decoded_unknown(d: Seq<u8>, h: PacketHeader, size: int, r: Result<Packet, DecodeError>) -> bool {
    match r {
        Ok(Packet::Unknown(h2, body)) => h2 == h && body@ == d.subrange(HEADER_SIZE as int, size),
        _ => false,
    }
}

/// What decoding `d`, whose header is `h`, gives among the login packets of subtypes below 0x40.
pub open spec fn decoded_login_low(d: Seq<u8>, is_ngs: bool, h: PacketHeader, size: int, r: Result<Packet, DecodeError>) -> bool {
    if h.category == 0x11 && h.subtype == 0x00 {
        match r {
            Ok(Packet::SegaIdLogin(x)) => decode_entries(SegaIDLoginPacket::spec_schema(), d, is_ngs) == Ok::<Seq<crate::body::Entry>, DecodeError>(x.model()),
            Ok(_) => false,
            Err(e) => decode_entries(SegaIDLoginPacket::spec_schema(), d, is_ngs) == Err::<Seq<crate::body::Entry>, DecodeError>(e),
        }
    } else if h.category == 0x11 && h.subtype == 0x03 {
        match r {
            Ok(Packet::CharacterList(x)) => decode_values(roster_schema(), d, is_ngs) is Ok && x@ == roster_of(decode_values(roster_schema(), d, is_ngs)->Ok_0),
            Ok(_) => false,
            Err(e) => decode_values(roster_schema(), d, is_ngs) == Err::<Seq<crate::field::Datum>, DecodeError>(e),
        }
    } else if h.category == 0x11 && h.subtype == 0x04 {
        match r {
            Ok(Packet::StartGame(x)) => decode_entries(StartGamePacket::spec_schema(), d, is_ngs) == Ok::<Seq<crate::body::Entry>, DecodeError>(x.model()),
            Ok(_) => false,
            Err(e) => decode_entries(StartGamePacket::spec_schema(), d, is_ngs) == Err::<Seq<crate::body::Entry>, DecodeError>(e),
        }
    } else if h.category == 0x11 && h.subtype == 0x05 {
        match r {
            Ok(Packet::CharacterCreate(x)) => decode_entries(CharacterCreatePacket::spec_schema(), d, is_ngs) == Ok::<Seq<crate::body::Entry>, DecodeError>(x.model()),
            Ok(_) => false,
            Err(e) => decode_entries(CharacterCreatePacket::spec_schema(), d, is_ngs) == Err::<Seq<crate::body::Entry>, DecodeError>(e),
        }
    } else if h.category == 0x11 && h.subtype == 0x0B {
        match r {
            Ok(Packet::EncryptionRequest(x)) => decode_values(seq![Field::Rest], d, is_ngs) is Ok && x.rsa_data@ == key_of_wire(bytes_of(decode_values(seq![Field::Rest], d, is_ngs)->Ok_0[0])),
            Ok(_) => false,
            Err(e) => decode_values(seq![Field::Rest], d, is_ngs) == Err::<Seq<crate::field::Datum>, DecodeError>(e),
        }
    } else if h.category == 0x11 && h.subtype == 0x0C {
        match r {
            Ok(Packet::EncryptionResponse(x)) => decode_entries(EncryptionResponsePacket::spec_schema(), d, is_ngs) == Ok::<Seq<crate::body::Entry>, DecodeError>(x.model()),
            Ok(_) => false,
            Err(e) => decode_entries(EncryptionResponsePacket::spec_schema(), d, is_ngs) == Err::<Seq<crate::body::Entry>, DecodeError>(e),
        }
    } else if h.category == 0x11 && h.subtype == 0x0D {
        match r {
            Ok(Packet::ClientPing(x)) => decode_entries(ClientPingPacket::spec_schema(), d, is_ngs) == Ok::<Seq<crate::body::Entry>, DecodeError>(x.model()),
            Ok(_) => false,
            Err(e) => decode_entries(ClientPingPacket::spec_schema(), d, is_ngs) == Err::<Seq<crate::body::Entry>, DecodeError>(e),
        }
    } else if h.category == 0x11 && h.subtype == 0x0E {
        match r {
            Ok(Packet::ClientPong(x)) => decode_entries(ClientPongPacket::spec_schema(), d, is_ngs) == Ok::<Seq<crate::body::Entry>, DecodeError>(x.model()),
            Ok(_) => false,
            Err(e) => decode_entries(ClientPongPacket::spec_schema(), d, is_ngs) == Err::<Seq<crate::body::Entry>, DecodeError>(e),
        }
    } else if h.category == 0x11 && h.subtype == 0x1D {
        match r {
            Ok(Packet::NicknameResponse(x)) => decode_entries(NicknameResponsePacket::spec_schema(), d, is_ngs) == Ok::<Seq<crate::body::Entry>, DecodeError>(x.model()),
            Ok(_) => false,
            Err(e) => decode_entries(NicknameResponsePacket::spec_schema(), d, is_ngs) == Err::<Seq<crate::body::Entry>, DecodeError>(e),
        }
    } else if h.category == 0x11 && h.subtype == 0x1E {
        match r {
            Ok(Packet::NicknameRequest(x)) => decode_entries(NicknameRequestPacket::spec_schema(), d, is_ngs) == Ok::<Seq<crate::body::Entry>, DecodeError>(x.model()),
            Ok(_) => false,
            Err(e) => decode_entries(NicknameRequestPacket::spec_schema(), d, is_ngs) == Err::<Seq<crate::body::Entry>, DecodeError>(e),
        }
    } else if h.category == 0x11 && h.subtype == 0x2C {
        match r {
            Ok(Packet::BlockBalance(x)) => decode_entries(BlockBalancePacket::spec_schema(), d, is_ngs) == Ok::<Seq<crate::body::Entry>, DecodeError>(x.model()),
            Ok(_) => false,
            Err(e) => decode_entries(BlockBalancePacket::spec_schema(), d, is_ngs) == Err::<Seq<crate::body::Entry>, DecodeError>(e),
        }
    } else if h.category == 0x11 && h.subtype == 0x2D {
        match r {
            Ok(Packet::SystemInformation(x)) => decode_entries(SystemInformationPacket::spec_schema(), d, is_ngs) == Ok::<Seq<crate::body::Entry>, DecodeError>(x.model()),
            Ok(_) => false,
            Err(e) => decode_entries(SystemInformationPacket::spec_schema(), d, is_ngs) == Err::<Seq<crate::body::Entry>, DecodeError>(e),
        }
    } else if h.category == 0x11 && h.subtype == 0x3D {
        match r {
            Ok(Packet::ShipList(x)) => decode_entries(ShipListPacket::spec_schema(), d, is_ngs) == Ok::<Seq<crate::body::Entry>, DecodeError>(x.model()),
            Ok(_) => false,
            Err(e) => decode_entries(ShipListPacket::spec_schema(), d, is_ngs) == Err::<Seq<crate::body::Entry>, DecodeError>(e),
        }
    } else {
        decoded_unknown(d, h, size, r)
    }
}

/// What decoding `d`, whose header is `h`, gives among the login packets of subtypes 0x40 and above.
pub open spec fn decoded_login_high(d: Seq<u8>, is_ngs: bool, h: PacketHeader, size: int, r: Result<Packet, DecodeError>) -> bool {
    if h.category == 0x11 && h.subtype == 0x42 {
        match r {
            Ok(Packet::CreateCharacter1Response(x)) => decode_entries(CreateCharacter1ResponsePacket::spec_schema(), d, is_ngs) == Ok::<Seq<crate::body::Entry>, DecodeError>(x.model()),
            Ok(_) => false,
            Err(e) => decode_entries(CreateCharacter1ResponsePacket::spec_schema(), d, is_ngs) == Err::<Seq<crate::body::Entry>, DecodeError>(e),
        }
    } else if h.category == 0x11 && h.subtype == 0x55 {
        match r {
            Ok(Packet::CreateCharacter2Response(x)) => decode_entries(CreateCharacter2ResponsePacket::spec_schema(), d, is_ngs) == Ok::<Seq<crate::body::Entry>, DecodeError>(x.model()),
            Ok(_) => false,
            Err(e) => decode_entries(CreateCharacter2ResponsePacket::spec_schema(), d, is_ngs) == Err::<Seq<crate::body::Entry>, DecodeError>(e),
        }
    } else if h.category == 0x11 && h.subtype == 0x63 {
        match r {
            Ok(Packet::VitaLogin(x)) => decode_entries(VitaLoginPacket::spec_schema(), d, is_ngs) == Ok::<Seq<crate::body::Entry>, DecodeError>(x.model()),
            Ok(_) => false,
            Err(e) => decode_entries(VitaLoginPacket::spec_schema(), d, is_ngs) == Err::<Seq<crate::body::Entry>, DecodeError>(e),
        }
    } else if h.category == 0x11 && h.subtype == 0x67 {
        match r {
            Ok(Packet::SalonResponse(x)) => decode_entries(SalonResponse::spec_schema(), d, is_ngs) == Ok::<Seq<crate::body::Entry>, DecodeError>(x.model()),
            Ok(_) => false,
            Err(e) => decode_entries(SalonResponse::spec_schema(), d, is_ngs) == Err::<Seq<crate::body::Entry>, DecodeError>(e),
        }
    } else if h.category == 0x11 && h.subtype == 0x71 {
        match r {
            Ok(Packet::NotificationStatus(x)) => decode_entries(NotificationStatusPacket::spec_schema(), d, is_ngs) == Ok::<Seq<crate::body::Entry>, DecodeError>(x.model()),
            Ok(_) => false,
            Err(e) => decode_entries(NotificationStatusPacket::spec_schema(), d, is_ngs) == Err::<Seq<crate::body::Entry>, DecodeError>(e),
        }
    } else if h.category == 0x11 && h.subtype == 0x87 {
        match r {
            Ok(Packet::LoginHistory(x)) => decode_entries(LoginHistoryPacket::spec_schema(), d, is_ngs) == Ok::<Seq<crate::body::Entry>, DecodeError>(x.model()),
            Ok(_) => false,
            Err(e) => decode_entries(LoginHistoryPacket::spec_schema(), d, is_ngs) == Err::<Seq<crate::body::Entry>, DecodeError>(e),
        }
    } else if h.category == 0x11 && h.subtype == 0xEA {
        match r {
            Ok(Packet::NicknameError(x)) => decode_entries(NicknameErrorPacket::spec_schema(), d, is_ngs) == Ok::<Seq<crate::body::Entry>, DecodeError>(x.model()),
            Ok(_) => false,
            Err(e) => decode_entries(NicknameErrorPacket::spec_schema(), d, is_ngs) == Err::<Seq<crate::body::Entry>, DecodeError>(e),
        }
    } else if h.category == 0x11 && h.subtype == 0xED {
        match r {
            Ok(Packet::BannerList(x)) => decode_entries(BannerListPacket::spec_schema(), d, is_ngs) == Ok::<Seq<crate::body::Entry>, DecodeError>(x.model()),
            Ok(_) => false,
            Err(e) => decode_entries(BannerListPacket::spec_schema(), d, is_ngs) == Err::<Seq<crate::body::Entry>, DecodeError>(e),
        }
    } else if h.category == 0x11 && h.subtype == 0xEE {
        match r {
            Ok(Packet::EmailCodeRequest(x)) => decode_entries(EmailCodeRequestPacket::spec_schema(), d, is_ngs) == Ok::<Seq<crate::body::Entry>, DecodeError>(x.model()),
            Ok(_) => false,
            Err(e) => decode_entries(EmailCodeRequestPacket::spec_schema(), d, is_ngs) == Err::<Seq<crate::body::Entry>, DecodeError>(e),
        }
    } else if h.category == 0x11 && h.subtype == 0xFF {
        match r {
            Ok(Packet::Unk11FF(x)) => decode_entries(Unk11FFPacket::spec_schema(), d, is_ngs) == Ok::<Seq<crate::body::Entry>, DecodeError>(x.model()),
            Ok(_) => false,
            Err(e) => decode_entries(Unk11FFPacket::spec_schema(), d, is_ngs) == Err::<Seq<crate::body::Entry>, DecodeError>(e),
        }
    } else {
        decoded_unknown(d, h, size, r)
    }
}

/// What decoding `d`, whose header is `h`, gives among the mail packets.
pub open spec fn decoded_mail(d: Seq<u8>, is_ngs: bool, h: PacketHeader, size: int, r: Result<Packet, DecodeError>) -> bool {
    if h.category == 0x1A && h.subtype == 0x00 {
        match r {
            Ok(Packet::MailListRequest(x)) => decode_entries(MailListRequestPacket::spec_schema(), d, is_ngs) == Ok::<Seq<crate::body::Entry>, DecodeError>(x.model()),
            Ok(_) => false,
            Err(e) => decode_entries(MailListRequestPacket::spec_schema(), d, is_ngs) == Err::<Seq<crate::body::Entry>, DecodeError>(e),
        }
    } else if h.category == 0x1A && h.subtype == 0x01 {
        match r {
            Ok(Packet::MailList(x)) => decode_entries(MailListPacket::spec_schema(), d, is_ngs) == Ok::<Seq<crate::body::Entry>, DecodeError>(x.model()),
            Ok(_) => false,
            Err(e) => decode_entries(MailListPacket::spec_schema(), d, is_ngs) == Err::<Seq<crate::body::Entry>, DecodeError>(e),
        }
    } else if h.category == 0x1A && h.subtype == 0x02 {
        match r {
            Ok(Packet::DeleteMailRequest(x)) => decode_entries(DeleteMailRequestPacket::spec_schema(), d, is_ngs) == Ok::<Seq<crate::body::Entry>, DecodeError>(x.model()),
            Ok(_) => false,
            Err(e) => decode_entries(DeleteMailRequestPacket::spec_schema(), d, is_ngs) == Err::<Seq<crate::body::Entry>, DecodeError>(e),
        }
    } else if h.category == 0x1A && h.subtype == 0x03 {
        match r {
            Ok(Packet::DeletedMail(x)) => decode_entries(DeletedMailPacket::spec_schema(), d, is_ngs) == Ok::<Seq<crate::body::Entry>, DecodeError>(x.model()),
            Ok(_) => false,
            Err(e) => decode_entries(DeletedMailPacket::spec_schema(), d, is_ngs) == Err::<Seq<crate::body::Entry>, DecodeError>(e),
        }
    } else if h.category == 0x1A && h.subtype == 0x06 {
        match r {
            Ok(Packet::MailBodyRequest(x)) => decode_entries(MailBodyRequestPacket::spec_schema(), d, is_ngs) == Ok::<Seq<crate::body::Entry>, DecodeError>(x.model()),
            Ok(_) => false,
            Err(e) => decode_entries(MailBodyRequestPacket::spec_schema(), d, is_ngs) == Err::<Seq<crate::body::Entry>, DecodeError>(e),
        }
    } else if h.category == 0x1A && h.subtype == 0x07 {
        match r {
            Ok(Packet::MailBody(x)) => decode_entries(MailBodyPacket::spec_schema(), d, is_ngs) == Ok::<Seq<crate::body::Entry>, DecodeError>(x.model()),
            Ok(_) => false,
            Err(e) => decode_entries(MailBodyPacket::spec_schema(), d, is_ngs) == Err::<Seq<crate::body::Entry>, DecodeError>(e),
        }
    } else {
        decoded_unknown(d, h, size, r)
    }
}

/// What decoding `d`, whose header is `h`, gives among the settings packets.
pub open spec fn decoded_settings(d: Seq<u8>, is_ngs: bool, h: PacketHeader, size: int, r: Result<Packet, DecodeError>) -> bool {
    if h.category == 0x2B && h.subtype == 0x01 {
        match r {
            Ok(Packet::SaveSettings(x)) => decode_entries(SaveSettingsPacket::spec_schema(), d, is_ngs) == Ok::<Seq<crate::body::Entry>, DecodeError>(x.model()),
            Ok(_) => false,
            Err(e) => decode_entries(SaveSettingsPacket::spec_schema(), d, is_ngs) == Err::<Seq<crate::body::Entry>, DecodeError>(e),
        }
    } else if h.category == 0x2B && h.subtype == 0x02 {
        match r {
            Ok(Packet::LoadSettings(x)) => decode_entries(LoadSettingsPacket::spec_schema(), d, is_ngs) == Ok::<Seq<crate::body::Entry>, DecodeError>(x.model()),
            Ok(_) => false,
            Err(e) => decode_entries(LoadSettingsPacket::spec_schema(), d, is_ngs) == Err::<Seq<crate::body::Entry>, DecodeError>(e),
        }
    } else {
        decoded_unknown(d, h, size, r)
    }
}

/// What decoding `d` gives: the header's error; or, by the header's category
/// and subtype, what the packet type's own decoding gives; or, for a type
/// that is not known, the header and the rest of the packet.
pub open spec fn decoded_as(d: Seq<u8>, is_ngs: bool, r: Result<Packet, DecodeError>) -> bool {
    match decode_header(d, is_ngs) {
        Err(e) => r == Err::<Packet, DecodeError>(e),
        Ok((h, size)) => {
            if h.category == 0x11 && h.subtype < 0x40 {
                decoded_login_low(d, is_ngs, h, size, r)
            } else if h.category == 0x11 && h.subtype >= 0x40 {
                decoded_login_high(d, is_ngs, h, size, r)
            } else if h.category == 0x1A {
                decoded_mail(d, is_ngs, h, size, r)
            } else if h.category == 0x2B {
                decoded_settings(d, is_ngs, h, size, r)
            } else {
                decoded_unknown(d, h, size, r)
            }
        },
    }
}

/// The bytes of `p`, header included.
pub fn encode(p: &Packet, is_ngs: bool) -> (r: Vec<u8>)
    ensures
        r@ == packet_wire(*p, is_ngs),
{
    match p {
        Packet::SegaIdLogin(x) => encode_packet(x, is_ngs),
        Packet::CharacterList(x) => x.write(is_ngs),
        Packet::StartGame(x) => encode_packet(x, is_ngs),
        Packet::CharacterCreate(x) => encode_packet(x, is_ngs),
        Packet::EncryptionRequest(x) => x.write(is_ngs),
        Packet::EncryptionResponse(x) => encode_packet(x, is_ngs),
        Packet::ClientPing(x) => encode_packet(x, is_ngs),
        Packet::ClientPong(x) => encode_packet(x, is_ngs),
        Packet::NicknameResponse(x) => encode_packet(x, is_ngs),
        Packet::NicknameRequest(x) => encode_packet(x, is_ngs),
        Packet::BlockBalance(x) => encode_packet(x, is_ngs),
        Packet::SystemInformation(x) => encode_packet(x, is_ngs),
        Packet::ShipList(x) => encode_packet(x, is_ngs),
        Packet::CreateCharacter1Response(x) => encode_packet(x, is_ngs),
        Packet::CreateCharacter2Response(x) => encode_packet(x, is_ngs),
        Packet::VitaLogin(x) => encode_packet(x, is_ngs),
        Packet::SalonResponse(x) => encode_packet(x, is_ngs),
        Packet::NotificationStatus(x) => encode_packet(x, is_ngs),
        Packet::LoginHistory(x) => encode_packet(x, is_ngs),
        Packet::NicknameError(x) => encode_packet(x, is_ngs),
        Packet::BannerList(x) => encode_packet(x, is_ngs),
        Packet::EmailCodeRequest(x) => encode_packet(x, is_ngs),
        Packet::Unk11FF(x) => encode_packet(x, is_ngs),
        Packet::MailListRequest(x) => encode_packet(x, is_ngs),
        Packet::MailList(x) => encode_packet(x, is_ngs),
        Packet::DeleteMailRequest(x) => encode_packet(x, is_ngs),
        Packet::DeletedMail(x) => encode_packet(x, is_ngs),
        Packet::MailBodyRequest(x) => encode_packet(x, is_ngs),
        Packet::MailBody(x) => encode_packet(x, is_ngs),
        Packet::SaveSettings(x) => encode_packet(x, is_ngs),
        Packet::LoadSettings(x) => encode_packet(x, is_ngs),
        Packet::Unknown(h, body) => crate::packet::frame_body(h, is_ngs, body),
    }
}

/// Decodes a packet among the login packets of subtypes below 0x40.
fn decode_login_low(data: &[u8], is_ngs: bool, h: PacketHeader, size: usize) -> (r: Result<Packet, DecodeError>)
    requires
        HEADER_SIZE <= size <= data@.len(),
    ensures
        decoded_login_low(data@, is_ngs, h, size as int, r),
{
    match (h.category, h.subtype) {
        (0x11, 0x00) => match decode_packet::<SegaIDLoginPacket>(data, is_ngs) {
            Ok(x) => Ok(Packet::SegaIdLogin(x)),
            Err(e) => Err(e),
        },
        (0x11, 0x03) => match CharacterListPacket::read(data, is_ngs) {
            Ok(x) => Ok(Packet::CharacterList(x)),
            Err(e) => Err(e),
        },
        (0x11, 0x04) => match decode_packet::<StartGamePacket>(data, is_ngs) {
            Ok(x) => Ok(Packet::StartGame(x)),
            Err(e) => Err(e),
        },
        (0x11, 0x05) => match decode_packet::<CharacterCreatePacket>(data, is_ngs) {
            Ok(x) => Ok(Packet::CharacterCreate(x)),
            Err(e) => Err(e),
        },
        (0x11, 0x0B) => match EncryptionRequestPacket::read(data, is_ngs) {
            Ok(x) => Ok(Packet::EncryptionRequest(x)),
            Err(e) => Err(e),
        },
        (0x11, 0x0C) => match decode_packet::<EncryptionResponsePacket>(data, is_ngs) {
            Ok(x) => Ok(Packet::EncryptionResponse(x)),
            Err(e) => Err(e),
        },
        (0x11, 0x0D) => match decode_packet::<ClientPingPacket>(data, is_ngs) {
            Ok(x) => Ok(Packet::ClientPing(x)),
            Err(e) => Err(e),
        },
        (0x11, 0x0E) => match decode_packet::<ClientPongPacket>(data, is_ngs) {
            Ok(x) => Ok(Packet::ClientPong(x)),
            Err(e) => Err(e),
        },
        (0x11, 0x1D) => match decode_packet::<NicknameResponsePacket>(data, is_ngs) {
            Ok(x) => Ok(Packet::NicknameResponse(x)),
            Err(e) => Err(e),
        },
        (0x11, 0x1E) => match decode_packet::<NicknameRequestPacket>(data, is_ngs) {
            Ok(x) => Ok(Packet::NicknameRequest(x)),
            Err(e) => Err(e),
        },
        (0x11, 0x2C) => match decode_packet::<BlockBalancePacket>(data, is_ngs) {
            Ok(x) => Ok(Packet::BlockBalance(x)),
            Err(e) => Err(e),
        },
        (0x11, 0x2D) => match decode_packet::<SystemInformationPacket>(data, is_ngs) {
            Ok(x) => Ok(Packet::SystemInformation(x)),
            Err(e) => Err(e),
        },
        (0x11, 0x3D) => match decode_packet::<ShipListPacket>(data, is_ngs) {
            Ok(x) => Ok(Packet::ShipList(x)),
            Err(e) => Err(e),
        },
        _ => Ok(Packet::Unknown(h, copy_range(data, HEADER_SIZE, size))),
    }
}

/// Decodes a packet among the login packets of subtypes 0x40 and above.
fn decode_login_high(data: &[u8], is_ngs: bool, h: PacketHeader, size: usize) -> (r: Result<Packet, DecodeError>)
    requires
        HEADER_SIZE <= size <= data@.len(),
    ensures
        decoded_login_high(data@, is_ngs, h, size as int, r),
{
    match (h.category, h.subtype) {
        (0x11, 0x42) => match decode_packet::<CreateCharacter1ResponsePacket>(data, is_ngs) {
            Ok(x) => Ok(Packet::CreateCharacter1Response(x)),
            Err(e) => Err(e),
        },
        (0x11, 0x55) => match decode_packet::<CreateCharacter2ResponsePacket>(data, is_ngs) {
            Ok(x) => Ok(Packet::CreateCharacter2Response(x)),
            Err(e) => Err(e),
        },
        (0x11, 0x63) => match decode_packet::<VitaLoginPacket>(data, is_ngs) {
            Ok(x) => Ok(Packet::VitaLogin(x)),
            Err(e) => Err(e),
        },
        (0x11, 0x67) => match decode_packet::<SalonResponse>(data, is_ngs) {
            Ok(x) => Ok(Packet::SalonResponse(x)),
            Err(e) => Err(e),
        },
        (0x11, 0x71) => match decode_packet::<NotificationStatusPacket>(data, is_ngs) {
            Ok(x) => Ok(Packet::NotificationStatus(x)),
            Err(e) => Err(e),
        },
        (0x11, 0x87) => match decode_packet::<LoginHistoryPacket>(data, is_ngs) {
            Ok(x) => Ok(Packet::LoginHistory(x)),
            Err(e) => Err(e),
        },
        (0x11, 0xEA) => match decode_packet::<NicknameErrorPacket>(data, is_ngs) {
            Ok(x) => Ok(Packet::NicknameError(x)),
            Err(e) => Err(e),
        },
        (0x11, 0xED) => match decode_packet::<BannerListPacket>(data, is_ngs) {
            Ok(x) => Ok(Packet::BannerList(x)),
            Err(e) => Err(e),
        },
        (0x11, 0xEE) => match decode_packet::<EmailCodeRequestPacket>(data, is_ngs) {
            Ok(x) => Ok(Packet::EmailCodeRequest(x)),
            Err(e) => Err(e),
        },
        (0x11, 0xFF) => match decode_packet::<Unk11FFPacket>(data, is_ngs) {
            Ok(x) => Ok(Packet::Unk11FF(x)),
            Err(e) => Err(e),
        },
        _ => Ok(Packet::Unknown(h, copy_range(data, HEADER_SIZE, size))),
    }
}

/// Decodes a packet among the mail packets.
fn decode_mail(data: &[u8], is_ngs: bool, h: PacketHeader, size: usize) -> (r: Result<Packet, DecodeError>)
    requires
        HEADER_SIZE <= size <= data@.len(),
    ensures
        decoded_mail(data@, is_ngs, h, size as int, r),
{
    match (h.category, h.subtype) {
        (0x1A, 0x00) => match decode_packet::<MailListRequestPacket>(data, is_ngs) {
            Ok(x) => Ok(Packet::MailListRequest(x)),
            Err(e) => Err(e),
        },
        (0x1A, 0x01) => match decode_packet::<MailListPacket>(data, is_ngs) {
            Ok(x) => Ok(Packet::MailList(x)),
            Err(e) => Err(e),
        },
        (0x1A, 0x02) => match decode_packet::<DeleteMailRequestPacket>(data, is_ngs) {
            Ok(x) => Ok(Packet::DeleteMailRequest(x)),
            Err(e) => Err(e),
        },
        (0x1A, 0x03) => match decode_packet::<DeletedMailPacket>(data, is_ngs) {
            Ok(x) => Ok(Packet::DeletedMail(x)),
            Err(e) => Err(e),
        },
        (0x1A, 0x06) => match decode_packet::<MailBodyRequestPacket>(data, is_ngs) {
            Ok(x) => Ok(Packet::MailBodyRequest(x)),
            Err(e) => Err(e),
        },
        (0x1A, 0x07) => match decode_packet::<MailBodyPacket>(data, is_ngs) {
            Ok(x) => Ok(Packet::MailBody(x)),
            Err(e) => Err(e),
        },
        _ => Ok(Packet::Unknown(h, copy_range(data, HEADER_SIZE, size))),
    }
}

/// Decodes a packet among the settings packets.
fn decode_settings(data: &[u8], is_ngs: bool, h: PacketHeader, size: usize) -> (r: Result<Packet, DecodeError>)
    requires
        HEADER_SIZE <= size <= data@.len(),
    ensures
        decoded_settings(data@, is_ngs, h, size as int, r),
{
    match (h.category, h.subtype) {
        (0x2B, 0x01) => match decode_packet::<SaveSettingsPacket>(data, is_ngs) {
            Ok(x) => Ok(Packet::SaveSettings(x)),
            Err(e) => Err(e),
        },
        (0x2B, 0x02) => match decode_packet::<LoadSettingsPacket>(data, is_ngs) {
            Ok(x) => Ok(Packet::LoadSettings(x)),
            Err(e) => Err(e),
        },
        _ => Ok(Packet::Unknown(h, copy_range(data, HEADER_SIZE, size))),
    }
}

/// Reads one packet from the start of `data`, of the type that its header
/// names, exactly as `decoded_as` says.
pub fn decode(data: &[u8], is_ngs: bool) -> (r: Result<Packet, DecodeError>)
    ensures
        decoded_as(data@, is_ngs, r),
{
    let (h, size) = match PacketHeader::read(data, is_ngs) {
        Ok(x) => x,
        Err(e) => {
            return Err(e);
        },
    };
    if h.category == 0x11 && h.subtype < 0x40 {
        decode_login_low(data, is_ngs, h, size)
    } else if h.category == 0x11 {
        decode_login_high(data, is_ngs, h, size)
    } else if h.category == 0x1A {
        decode_mail(data, is_ngs, h, size)
    } else if h.category == 0x2B {
        decode_settings(data, is_ngs, h, size)
    } else {
        Ok(Packet::Unknown(h, copy_range(data, HEADER_SIZE, size)))
    }
}

} // verus!
