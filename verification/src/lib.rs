//! Logitech HID++ 1.0 / 2.0 protocol logic: message framing and
//! classification, register and feature replies, battery and firmware
//! decoding, onboard profiles and device settings.

pub mod common;
pub mod hidpp10_constants;
pub mod hidpp20_constants;
pub mod text;
pub mod message;
pub mod base_usb;
pub mod error;
pub mod bytes;
pub mod base;
pub mod handlers;
pub mod hexcodec;
pub mod hidpp10;
pub mod hidpp20;
pub mod onboard_profiles;
pub mod settings;
pub mod device;
pub mod receiver;
pub mod matching;
pub mod report;
pub mod probe;
pub mod daemon;
pub mod discovery;
