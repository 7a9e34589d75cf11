//! Binary codec for the login, mail and settings packets of a game-network
//! protocol, with contracts proved by Verus.
pub mod body;
pub mod character;
pub mod engine;
pub mod enums;
pub mod field;
pub mod header;
pub mod keys;
pub mod login;
pub mod mail;
pub mod obfuscation;
pub mod packet;
pub mod protocol;
pub mod record;
pub mod roster;
pub mod scalar;
pub mod settings;
pub mod text;
pub mod time;
