//! CAN bus building blocks: identifiers, frame codecs for several USB and
//! SocketCAN adapters, bit-timing search, and the SAE J1939 message layer.

pub mod bytes;
pub mod can_id;
pub mod gsusb;
pub mod korlan;
pub mod cansocket;
pub mod timing;
pub mod pcan;
pub mod saelient;
