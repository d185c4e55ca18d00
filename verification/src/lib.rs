//! Machine manager: sessions of Cartesi machines, their registry, and the
//! conversions between the wire messages and the library's machine types.

pub mod conversions;
pub mod framing;
pub mod machine;
pub mod session;
pub mod service;
pub mod session_manager;
pub mod text;
pub mod wire;
