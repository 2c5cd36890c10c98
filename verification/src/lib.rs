//! A client for Zephyr's MCUmgr management protocol.

pub mod bootloader;
pub mod bytes;
pub mod cbor;
pub mod checksum;
pub mod client;
pub mod commands;
pub mod device;
pub mod error;
pub mod groups;
pub mod hexadecimal;
pub mod random;
pub mod text;
pub mod usb;
