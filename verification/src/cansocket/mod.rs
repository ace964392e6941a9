//! Linux SocketCAN: classic frames and the decoding of error frames.

pub mod error;
pub mod frame;
pub mod socket;

pub use error::{
    CanError, ControllerError, ProtocolErrorKind, ProtocolErrorLocation, TransceiverError,
    TransceiverErrorKind,
};
pub use frame::{Frame, FrameCreateError};
