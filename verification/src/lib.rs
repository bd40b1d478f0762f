//! A minimal character-device core: a fixed-capacity in-memory byte buffer
//! shared by any number of open sessions, with every access serialized by a
//! single exclusive guard.
//!
//! [`buffer::SharedBuffer`] owns the byte store and mediates all access to it;
//! [`session::DeviceSession`] is one open handle, translating `(offset, length)`
//! requests into bounds-checked transfers under the guard. The bounds-checked
//! copy logic itself, together with the laws it obeys, lives in [`transfer`].

pub mod buffer;
pub mod session;
pub mod transfer;
